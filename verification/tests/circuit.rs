//! End-to-end checks against the real constraint-system engine: the gates
//! are registered from the library's configuration, the witness rows come
//! from the library's planners, and the mock prover checks every identity
//! and copy constraint.

use ff::PrimeField;
use halo2_proofs::{
    circuit::{AssignedCell, Layouter, SimpleFloorPlanner, Value},
    dev::MockProver,
    pasta::Fp,
    plonk::{
        Advice, Any, Circuit, Column, ConstraintSystem, Constraints, Error, Expression, Fixed,
        Selector,
    },
    poly::Rotation,
};

use poseidon2::config::{Pow5Chip, Pow5Config};
use poseidon2::field::FieldElem;
use poseidon2::sponge::PaddedWord;

fn fe(x: u64) -> FieldElem {
    FieldElem::from_u64(x)
}

fn fe_to_fp(f: &FieldElem) -> Fp {
    Fp::from_repr(f.to_bytes()).unwrap()
}

fn fe_opt_to_value(v: &Option<FieldElem>) -> Value<Fp> {
    match v {
        Some(f) => Value::known(fe_to_fp(f)),
        None => Value::unknown(),
    }
}

fn constants(width: usize, total: usize) -> Vec<Vec<FieldElem>> {
    let mut rc = Vec::new();
    for r in 0..total {
        let mut row = Vec::new();
        for i in 0..width {
            row.push(fe((r * width + i + 1) as u64));
        }
        rc.push(row);
    }
    rc
}

fn matrix(width: usize, seed: u64) -> Vec<Vec<FieldElem>> {
    let mut m = Vec::new();
    for i in 0..width {
        let mut row = Vec::new();
        for j in 0..width {
            row.push(fe(seed + ((i * width + j) % 7) as u64 + 1));
        }
        m.push(row);
    }
    m
}

/// The fixed reference parameters: width 3, rate 2, 8 full and 2 partial
/// rounds.
fn reference_config() -> Pow5Config {
    Pow5Chip::configure(3, 2, 8, 2, constants(3, 10), matrix(3, 3), matrix(3, 5)).unwrap()
}

#[derive(Clone)]
struct TestColumns {
    state: Vec<Column<Advice>>,
    partial_sbox: Column<Advice>,
    rc_a: Vec<Column<Fixed>>,
    pad_fixed: Vec<Column<Fixed>>,
    s_full: Selector,
    s_first: Selector,
    s_partial: Selector,
    s_pad_and_add: Selector,
    cfg: Pow5Config,
}

fn build_columns(meta: &mut ConstraintSystem<Fp>) -> TestColumns {
    let cfg = reference_config();
    let width = cfg.width;
    let rate = cfg.rate;

    let state: Vec<Column<Advice>> = (0..width).map(|_| meta.advice_column()).collect();
    let partial_sbox = meta.advice_column();
    let rc_a: Vec<Column<Fixed>> = (0..width).map(|_| meta.fixed_column()).collect();
    let pad_fixed: Vec<Column<Fixed>> = (0..width).map(|_| meta.fixed_column()).collect();

    for column in state
        .iter()
        .cloned()
        .map(Column::<Any>::from)
        .chain(pad_fixed.iter().cloned().map(Column::<Any>::from))
    {
        meta.enable_equality(column);
    }

    let s_full = meta.selector();
    let s_first = meta.selector();
    let s_partial = meta.selector();
    let s_pad_and_add = meta.selector();

    let mat_external: Vec<Vec<Fp>> = cfg
        .mat_external
        .iter()
        .map(|row| row.iter().map(fe_to_fp).collect())
        .collect();
    let mat_internal: Vec<Vec<Fp>> = cfg
        .mat_internal
        .iter()
        .map(|row| row.iter().map(fe_to_fp).collect())
        .collect();

    let pow_5 = |v: Expression<Fp>| {
        let v2 = v.clone() * v.clone();
        v2.clone() * v2 * v
    };

    meta.create_gate("first layer", |meta| {
        let s_first = meta.query_selector(s_first);
        Constraints::with_selector(
            s_first,
            (0..width)
                .map(|next_idx| {
                    let state_next = meta.query_advice(state[next_idx], Rotation::next());
                    let expr = (0..width)
                        .map(|idx| {
                            let state_cur = meta.query_advice(state[idx], Rotation::cur());
                            state_cur * mat_external[next_idx][idx]
                        })
                        .reduce(|acc, term| acc + term)
                        .unwrap();
                    expr - state_next
                })
                .collect::<Vec<_>>(),
        )
    });

    meta.create_gate("full round", |meta| {
        let s_full = meta.query_selector(s_full);
        Constraints::with_selector(
            s_full,
            (0..width)
                .map(|next_idx| {
                    let state_next = meta.query_advice(state[next_idx], Rotation::next());
                    let expr = (0..width)
                        .map(|idx| {
                            let state_cur = meta.query_advice(state[idx], Rotation::cur());
                            let rc = meta.query_fixed(rc_a[idx]);
                            pow_5(state_cur + rc) * mat_external[next_idx][idx]
                        })
                        .reduce(|acc, term| acc + term)
                        .unwrap();
                    expr - state_next
                })
                .collect::<Vec<_>>(),
        )
    });

    meta.create_gate("partial rounds", |meta| {
        let cur_0 = meta.query_advice(state[0], Rotation::cur());
        let mid_0 = meta.query_advice(partial_sbox, Rotation::cur());
        let rc_a0 = meta.query_fixed(rc_a[0]);
        let s_partial = meta.query_selector(s_partial);

        let mut cs = vec![pow_5(cur_0 + rc_a0) - mid_0.clone()];
        for idx in 0..width {
            let mut expr = mid_0.clone() * mat_internal[idx][0];
            for cur_idx in 1..width {
                let cur = meta.query_advice(state[cur_idx], Rotation::cur());
                expr = expr + cur * mat_internal[idx][cur_idx];
            }
            let next = meta.query_advice(state[idx], Rotation::next());
            cs.push(expr - next);
        }
        Constraints::with_selector(s_partial, cs)
    });

    meta.create_gate("pad-and-add", |meta| {
        let initial_state_rate = meta.query_advice(state[rate], Rotation::prev());
        let output_state_rate = meta.query_advice(state[rate], Rotation::next());
        let s_pad_and_add = meta.query_selector(s_pad_and_add);

        let mut cs = (0..rate)
            .map(|idx| {
                let initial_state = meta.query_advice(state[idx], Rotation::prev());
                let input = meta.query_advice(state[idx], Rotation::cur());
                let output_state = meta.query_advice(state[idx], Rotation::next());
                initial_state + input - output_state
            })
            .collect::<Vec<_>>();
        cs.push(initial_state_rate - output_state_rate);
        Constraints::with_selector(s_pad_and_add, cs)
    });

    TestColumns {
        state,
        partial_sbox,
        rc_a,
        pad_fixed,
        s_full,
        s_first,
        s_partial,
        s_pad_and_add,
        cfg,
    }
}

struct PermuteCircuit;

impl Circuit<Fp> for PermuteCircuit {
    type Config = TestColumns;
    type FloorPlanner = SimpleFloorPlanner;

    fn without_witnesses(&self) -> Self {
        PermuteCircuit
    }

    fn configure(meta: &mut ConstraintSystem<Fp>) -> TestColumns {
        build_columns(meta)
    }

    fn synthesize(
        &self,
        config: TestColumns,
        mut layouter: impl Layouter<Fp>,
    ) -> Result<(), Error> {
        let chip = Pow5Chip::construct(config.cfg.clone());
        let width = config.cfg.width;
        let input: Vec<FieldElem> = (0..width as u64).map(fe).collect();

        let initial_state: Vec<AssignedCell<Fp, Fp>> = layouter.assign_region(
            || "prepare initial state",
            |mut region| {
                let mut cells = Vec::new();
                for i in 0..width {
                    let cell = region.assign_advice(
                        || format!("load state_{}", i),
                        config.state[i],
                        0,
                        || Value::known(fe_to_fp(&input[i])),
                    )?;
                    cells.push(cell);
                }
                Ok(cells)
            },
        )?;

        let final_state: Vec<AssignedCell<Fp, Fp>> = layouter.assign_region(
            || "permute state",
            |mut region| {
                let values: Vec<Option<FieldElem>> = input.iter().map(|f| Some(*f)).collect();
                let plan = chip.permute_rows(&values);

                for (i, cell) in initial_state.iter().enumerate() {
                    cell.copy_advice(
                        || format!("load state_{}", i),
                        &mut region,
                        config.state[i],
                        0,
                    )?;
                }
                for (o, on) in plan.sel_first.iter().enumerate() {
                    if *on {
                        config.s_first.enable(&mut region, o)?;
                    }
                }
                for (o, on) in plan.sel_full.iter().enumerate() {
                    if *on {
                        config.s_full.enable(&mut region, o)?;
                    }
                }
                for (o, on) in plan.sel_partial.iter().enumerate() {
                    if *on {
                        config.s_partial.enable(&mut region, o)?;
                    }
                }
                for o in 1..plan.sel_first.len() {
                    for i in 0..width {
                        region.assign_fixed(
                            || format!("round_{} rc_{}", o - 1, i),
                            config.rc_a[i],
                            o,
                            || Value::known(fe_to_fp(&config.cfg.round_constants[o - 1][i])),
                        )?;
                    }
                }
                for (o, mid) in plan.mids.iter().enumerate() {
                    if plan.sel_partial[o] {
                        region.assign_advice(
                            || format!("round_{} partial_sbox", o - 1),
                            config.partial_sbox,
                            o,
                            || fe_opt_to_value(mid),
                        )?;
                    }
                }
                let mut last = Vec::new();
                for o in 1..plan.rows.len() {
                    last.clear();
                    for i in 0..width {
                        let cell = region.assign_advice(
                            || format!("row_{} state_{}", o, i),
                            config.state[i],
                            o,
                            || fe_opt_to_value(&plan.rows[o][i]),
                        )?;
                        last.push(cell);
                    }
                }
                Ok(last)
            },
        )?;

        // the plain permutation of the same input
        let expected = chip.permute(&input);

        layouter.assign_region(
            || "constrain final state",
            |mut region| {
                for i in 0..width {
                    let cell = region.assign_advice(
                        || format!("load final_state_{}", i),
                        config.state[i],
                        0,
                        || Value::known(fe_to_fp(&expected[i])),
                    )?;
                    region.constrain_equal(final_state[i].cell(), cell.cell())?;
                }
                Ok(())
            },
        )
    }
}

/// The full circuit run of the original scenario: permute `[0, 1, 2]`, and
/// constrain the final row to equal the plain permutation of the same
/// input. The mock prover checks every gate and copy constraint.
#[test]
fn poseidon_permute() {
    let k = 7;
    let circuit = PermuteCircuit;
    let prover = MockProver::run(k, &circuit, vec![]).unwrap();
    assert_eq!(prover.verify(), Ok(()));
}

/// An absorb region: when `corrupt_pad` is set, the witness at the padded
/// input cell is replaced by another value, which must violate the padding
/// copy constraint.
struct AbsorbCircuit {
    corrupt_pad: bool,
}

impl Circuit<Fp> for AbsorbCircuit {
    type Config = TestColumns;
    type FloorPlanner = SimpleFloorPlanner;

    fn without_witnesses(&self) -> Self {
        AbsorbCircuit { corrupt_pad: self.corrupt_pad }
    }

    fn configure(meta: &mut ConstraintSystem<Fp>) -> TestColumns {
        build_columns(meta)
    }

    fn synthesize(
        &self,
        config: TestColumns,
        mut layouter: impl Layouter<Fp>,
    ) -> Result<(), Error> {
        let chip = Pow5Chip::construct(config.cfg.clone());
        let width = config.cfg.width;
        let rate = config.cfg.rate;
        let state: Vec<Option<FieldElem>> = vec![Some(fe(7)), Some(fe(8)), Some(fe(9))];
        let input = vec![
            Some(PaddedWord::Padding(fe(4))),
            Some(PaddedWord::Padding(fe(5))),
        ];
        let plan = chip.add_input(&state, &input).unwrap();

        layouter.assign_region(
            || "add input",
            |mut region| {
                config.s_pad_and_add.enable(&mut region, 1)?;
                for i in 0..width {
                    region.assign_advice(
                        || format!("load state_{}", i),
                        config.state[i],
                        0,
                        || fe_opt_to_value(&plan.loaded_state[i]),
                    )?;
                }
                for i in 0..rate {
                    let fixed = region.assign_fixed(
                        || format!("load pad_{}", i),
                        config.pad_fixed[i],
                        1,
                        || fe_opt_to_value(&plan.pad_fixed[i]),
                    )?;
                    let witnessed = if self.corrupt_pad && i == 0 {
                        Value::known(fe_to_fp(&fe(99)))
                    } else {
                        fe_opt_to_value(&plan.input_row[i])
                    };
                    let var = region.assign_advice(
                        || format!("load input_{}", i),
                        config.state[i],
                        1,
                        || witnessed,
                    )?;
                    region.constrain_equal(fixed.cell(), var.cell())?;
                }
                for i in 0..width {
                    let out = if self.corrupt_pad && i == 0 {
                        // keep the row identity true so that only the
                        // copy constraint can fail
                        Some(fe(7).add(&fe(99)))
                    } else {
                        plan.output_state[i]
                    };
                    region.assign_advice(
                        || format!("load output_{}", i),
                        config.state[i],
                        2,
                        || fe_opt_to_value(&out),
                    )?;
                }
                Ok(())
            },
        )
    }
}

/// The honest padding witness satisfies every constraint of the absorb
/// region.
#[test]
fn padding_constraint_accepts_the_constant() {
    let prover = MockProver::run(4, &AbsorbCircuit { corrupt_pad: false }, vec![]).unwrap();
    assert_eq!(prover.verify(), Ok(()));
}

/// Substituting any other value at a padded input cell makes the engine
/// reject the assignment.
#[test]
fn padding_constraint_rejects_substitution() {
    let prover = MockProver::run(4, &AbsorbCircuit { corrupt_pad: true }, vec![]).unwrap();
    assert!(prover.verify().is_err());
}
