use poseidon2::config::Pow5Chip;
use poseidon2::field::FieldElem;
use poseidon2::sponge::{Domain, PaddedWord, SpongeError};

fn fe(x: u64) -> FieldElem {
    FieldElem::from_u64(x)
}

fn constants(width: usize, total: usize) -> Vec<Vec<FieldElem>> {
    let mut rc = Vec::new();
    for r in 0..total {
        let mut row = Vec::new();
        for i in 0..width {
            row.push(fe((r * width + i + 1) as u64));
        }
        rc.push(row);
    }
    rc
}

fn matrix(width: usize, seed: u64) -> Vec<Vec<FieldElem>> {
    let mut m = Vec::new();
    for i in 0..width {
        let mut row = Vec::new();
        for j in 0..width {
            row.push(fe(seed + ((i * width + j) % 7) as u64 + 1));
        }
        m.push(row);
    }
    m
}

fn mk_chip() -> Pow5Chip {
    let cfg =
        Pow5Chip::configure(3, 2, 8, 2, constants(3, 10), matrix(3, 3), matrix(3, 5)).unwrap();
    Pow5Chip::construct(cfg)
}

fn domain(cap: u64) -> Domain {
    Domain { name: String::from("ConstantLength"), initial_capacity_element: fe(cap) }
}

#[test]
fn initial_state_is_zeros_then_capacity() {
    let chip = mk_chip();
    let st = chip.initial_state(&domain(42));
    assert_eq!(st.len(), 3);
    assert_eq!(st[0], fe(0));
    assert_eq!(st[1], fe(0));
    assert_eq!(st[2], fe(42));
}

#[test]
fn capacity_is_unchanged_by_all_message_input() {
    let chip = mk_chip();
    let state = vec![Some(fe(7)), Some(fe(8)), Some(fe(9))];
    let input = vec![
        Some(PaddedWord::Message(Some(fe(1)))),
        Some(PaddedWord::Message(Some(fe(2)))),
    ];
    let plan = chip.add_input(&state, &input).unwrap();
    assert_eq!(plan.output_state[2], Some(fe(9)));
    assert_eq!(plan.output_state[0], Some(fe(7).add(&fe(1))));
    assert_eq!(plan.output_state[1], Some(fe(8).add(&fe(2))));
}

#[test]
fn capacity_is_unchanged_by_all_padding_input() {
    let chip = mk_chip();
    let state = vec![Some(fe(7)), Some(fe(8)), Some(fe(9))];
    let input = vec![
        Some(PaddedWord::Padding(fe(4))),
        Some(PaddedWord::Padding(fe(5))),
    ];
    let plan = chip.add_input(&state, &input).unwrap();
    assert_eq!(plan.output_state[2], Some(fe(9)));
    assert_eq!(plan.output_state[0], Some(fe(11)));
    assert_eq!(plan.output_state[1], Some(fe(13)));
}

#[test]
fn capacity_is_unchanged_by_mixed_input() {
    let chip = mk_chip();
    let state = vec![Some(fe(7)), Some(fe(8)), Some(fe(9))];
    let input = vec![
        Some(PaddedWord::Message(Some(fe(3)))),
        Some(PaddedWord::Padding(fe(5))),
    ];
    let plan = chip.add_input(&state, &input).unwrap();
    assert_eq!(plan.output_state[2], Some(fe(9)));
    assert_eq!(plan.output_state[0], Some(fe(10)));
    assert_eq!(plan.output_state[1], Some(fe(13)));
}

#[test]
fn unknown_capacity_stays_unknown() {
    let chip = mk_chip();
    let state = vec![Some(fe(7)), Some(fe(8)), None];
    let input = vec![
        Some(PaddedWord::Message(Some(fe(1)))),
        Some(PaddedWord::Message(Some(fe(2)))),
    ];
    let plan = chip.add_input(&state, &input).unwrap();
    assert_eq!(plan.output_state[2], None);
}

#[test]
fn unknown_message_defers_its_output_word() {
    let chip = mk_chip();
    let state = vec![Some(fe(7)), Some(fe(8)), Some(fe(9))];
    let input = vec![
        Some(PaddedWord::Message(None)),
        Some(PaddedWord::Message(Some(fe(2)))),
    ];
    let plan = chip.add_input(&state, &input).unwrap();
    assert_eq!(plan.output_state[0], None);
    assert_eq!(plan.output_state[1], Some(fe(10)));
    assert_eq!(plan.output_state[2], Some(fe(9)));
}

#[test]
fn padding_constant_is_bound_in_the_fixed_column() {
    let chip = mk_chip();
    let state = vec![Some(fe(7)), Some(fe(8)), Some(fe(9))];
    let input = vec![
        Some(PaddedWord::Padding(fe(4))),
        Some(PaddedWord::Message(Some(fe(2)))),
    ];
    let plan = chip.add_input(&state, &input).unwrap();
    assert_eq!(plan.input_row[0], Some(fe(4)));
    assert_eq!(plan.pad_fixed[0], Some(fe(4)));
    assert_eq!(plan.input_row[1], Some(fe(2)));
    assert_eq!(plan.pad_fixed[1], None);
}

#[test]
fn missing_absorb_word_is_rejected() {
    let chip = mk_chip();
    let state = vec![Some(fe(7)), Some(fe(8)), Some(fe(9))];
    let input = vec![Some(PaddedWord::Message(Some(fe(1)))), None];
    let r = chip.add_input(&state, &input);
    assert_eq!(r.err(), Some(SpongeError::InvalidAbsorbState));
}

#[test]
fn pad_and_add_selector_only_on_the_middle_row() {
    let chip = mk_chip();
    let state = vec![Some(fe(7)), Some(fe(8)), Some(fe(9))];
    let input = vec![
        Some(PaddedWord::Padding(fe(4))),
        Some(PaddedWord::Padding(fe(5))),
    ];
    let plan = chip.add_input(&state, &input).unwrap();
    assert_eq!(plan.sel_pad_and_add, vec![false, true, false]);
    assert_eq!(plan.loaded_state, state);
}

#[test]
fn get_output_projects_the_rate_words() {
    let chip = mk_chip();
    let state = vec![Some(fe(7)), Some(fe(8)), Some(fe(9))];
    let out = chip.get_output(&state);
    assert_eq!(out, vec![Some(fe(7)), Some(fe(8))]);
}
