//! The sponge adapter: building the initial state, absorbing padded input
//! blocks, and projecting output words, all over the same row layout as the
//! permutation.

use vstd::prelude::*;

use crate::config::Pow5Chip;
use crate::field::{add_of, add_values, zero_bytes, FieldElem};
use crate::perm::{all_known, copy_row, known_words};

verus! {

/// The parameterization of a hashing mode: its initial capacity value.
/// Distinct domains (fixed-length, variable-length) differ in this value
/// and in their name.
pub struct Domain {
    /// A label for the mode, used only to name the assigned regions.
    pub name: String,
    /// The value the capacity word starts from; it separates the domains.
    pub initial_capacity_element: FieldElem,
}

/// A word of an absorbing block: either a message word witnessed elsewhere
/// in the circuit (whose value may still be unknown during shape analysis),
/// or a domain-fixed padding constant.
#[derive(Clone, Copy, Debug)]
pub enum PaddedWord {
    Message(Option<FieldElem>),
    Padding(FieldElem),
}

/// The value an absorbing word contributes to the state.
pub open spec fn word_value(w: PaddedWord) -> Option<FieldElem> {
    match w {
        PaddedWord::Message(v) => v,
        PaddedWord::Padding(p) => Some(p),
    }
}

/// The constant loaded into the fixed padding column for a word, if any.
pub open spec fn pad_constant(w: PaddedWord) -> Option<FieldElem> {
    match w {
        PaddedWord::Message(_) => None,
        PaddedWord::Padding(p) => Some(p),
    }
}

/// An absorption slot was neither a message word nor a padding constant:
/// a caller programming error, reported immediately and distinctly.
#[derive(Clone, Copy, PartialEq, Eq, Debug)]
pub enum SpongeError {
    InvalidAbsorbState,
}

/// The three-row region an `add_input` call fills: the loaded state at row
/// 0, the absorbed input words at row 1 (with the padding constants bound
/// in a fixed column), and the output state at row 2.
pub struct AbsorbPlan {
    /// Row 0: the state copied into the region.
    pub loaded_state: Vec<Option<FieldElem>>,
    /// Row 1, first `rate` columns: the absorbed input words.
    pub input_row: Vec<Option<FieldElem>>,
    /// The fixed padding column at row 1: the padding constant where the
    /// slot is padding, nothing where it is a message word.
    pub pad_fixed: Vec<Option<FieldElem>>,
    /// Row 2: the output state.
    pub output_state: Vec<Option<FieldElem>>,
    /// Rows at which the `pad_and_add` selector is enabled.
    pub sel_pad_and_add: Vec<bool>,
}

/// How an output word relates to the state word and the absorbed word
/// beneath it: known operands add, an unknown operand defers the result.
pub open spec fn value_sum(a: Option<FieldElem>, b: Option<FieldElem>, r: Option<FieldElem>) -> bool {
    if a is Some && b is Some {
        r is Some && r->0@ == add_of(a->0@, b->0@)
    } else {
        r is None
    }
}

/// The pad-and-add constraint family over its 3-row window, in solved form:
/// for each index below `rate` the output word is the sum of the previous
/// state word and the absorbed input word, and the capacity word passes
/// through unchanged.
pub open spec fn pad_and_add_ok(
    prev: Seq<Seq<u8>>,
    cur: Seq<Seq<u8>>,
    next: Seq<Seq<u8>>,
    rate: int,
) -> bool {
    &&& forall|i: int| 0 <= i < rate ==> #[trigger] next[i] == add_of(prev[i], cur[i])
    &&& next[rate] == prev[rate]
}

/// The copy constraints `add_input` registers on its input row: where slot
/// `i` holds a padding constant, the input cell at row 1 is
/// equality-constrained to the fixed cell loaded with that constant.
pub open spec fn pad_constraints_hold(
    pad_fixed: Seq<Option<FieldElem>>,
    witnessed_input: Seq<Seq<u8>>,
) -> bool {
    forall|i: int|
        0 <= i < pad_fixed.len() && (#[trigger] pad_fixed[i]) is Some ==> witnessed_input[i]
            == pad_fixed[i]->0@
}

impl Pow5Chip {
    /// A fresh sponge state: the `rate` message words are the field-zero
    /// constant and the capacity word is the domain's initial capacity
    /// element. Every cell is a constant, so the shape of this sub-circuit
    /// can be shared across instances of the same domain.
    pub fn initial_state(&self, domain: &Domain) -> (r: Vec<FieldElem>)
        requires
            self.spec_config().wf(),
        ensures
            r@.len() == self.spec_config().width,
            forall|i: int|
                0 <= i < self.spec_config().rate ==> #[trigger] r@[i]@ == zero_bytes(),
            r@[self.spec_config().rate as int]@ == domain.initial_capacity_element@,
    {
        let cfg = self.config();
        let mut out: Vec<FieldElem> = Vec::new();
        let mut i: usize = 0;
        while i < cfg.rate
            invariant
                out@.len() == i,
                i <= cfg.rate,
                forall|k: int| 0 <= k < i ==> #[trigger] out@[k]@ == zero_bytes(),
            decreases cfg.rate - i,
        {
            out.push(FieldElem::zero());
            i += 1;
        }
        let capacity = domain.initial_capacity_element;
        out.push(capacity);
        out
    }

    /// Absorbs one padded input block into the state.
    ///
    /// Copies the state into row 0 of a fresh region, loads each absorbing
    /// word into row 1 — binding every padding constant in a fixed column so
    /// that the constraint system itself enforces the padding value — and
    /// assigns row 2 as `next[i] = state[i] + input[i]` for the `rate`
    /// message words, while the capacity word passes through unchanged.
    ///
    /// A slot with no word at all is a caller programming error and fails
    /// with `InvalidAbsorbState` before anything is planned.
    pub fn add_input(
        &self,
        initial_state: &Vec<Option<FieldElem>>,
        input: &Vec<Option<PaddedWord>>,
    ) -> (r: Result<AbsorbPlan, SpongeError>)
        requires
            self.spec_config().wf(),
            initial_state@.len() == self.spec_config().width,
            input@.len() == self.spec_config().rate,
        ensures
            r is Ok <==> (forall|i: int| 0 <= i < input@.len() ==> input@[i] is Some),
            r is Err ==> r->Err_0 == SpongeError::InvalidAbsorbState,
            r is Ok ==> {
                let plan = r->Ok_0;
                &&& plan.loaded_state@ == initial_state@
                &&& plan.input_row@.len() == self.spec_config().rate
                &&& forall|i: int|
                    0 <= i < input@.len() ==> #[trigger] plan.input_row@[i] == word_value(
                        input@[i]->0,
                    )
                &&& plan.pad_fixed@.len() == self.spec_config().rate
                &&& forall|i: int|
                    0 <= i < input@.len() ==> #[trigger] plan.pad_fixed@[i] == pad_constant(
                        input@[i]->0,
                    )
                &&& pad_constraints_hold(plan.pad_fixed@, known_words(plan.input_row@))
                &&& plan.output_state@.len() == self.spec_config().width
                &&& forall|i: int|
                    0 <= i < input@.len() ==> value_sum(
                        initial_state@[i],
                        word_value(input@[i]->0),
                        #[trigger] plan.output_state@[i],
                    )
                &&& plan.output_state@[self.spec_config().rate as int]
                    == initial_state@[self.spec_config().rate as int]
                &&& plan.sel_pad_and_add@.len() == 3
                &&& plan.sel_pad_and_add@[0] == false
                &&& plan.sel_pad_and_add@[1] == true
                &&& plan.sel_pad_and_add@[2] == false
                &&& all_known(initial_state@) && all_known(plan.input_row@) ==> pad_and_add_ok(
                    known_words(plan.loaded_state@),
                    known_words(plan.input_row@),
                    known_words(plan.output_state@),
                    self.spec_config().rate as int,
                )
            },
    {
        let cfg = self.config();
        let rate = cfg.rate;
        let mut input_row: Vec<Option<FieldElem>> = Vec::new();
        let mut pad_fixed: Vec<Option<FieldElem>> = Vec::new();
        let mut i: usize = 0;
        while i < rate
            invariant
                rate == input@.len(),
                i <= rate,
                input_row@.len() == i,
                pad_fixed@.len() == i,
                forall|k: int| 0 <= k < i ==> input@[k] is Some,
                forall|k: int|
                    0 <= k < i ==> #[trigger] input_row@[k] == word_value(input@[k]->0),
                forall|k: int|
                    0 <= k < i ==> #[trigger] pad_fixed@[k] == pad_constant(input@[k]->0),
            decreases rate - i,
        {
            match &input[i] {
                Some(word) => match word {
                    PaddedWord::Message(v) => {
                        input_row.push(*v);
                        pad_fixed.push(None);
                    },
                    PaddedWord::Padding(p) => {
                        input_row.push(Some(*p));
                        pad_fixed.push(Some(*p));
                    },
                },
                None => {
                    assert(!(forall|k: int| 0 <= k < input@.len() ==> input@[k] is Some)) by {
                        assert(input@[i as int] is None);
                    }
                    return Err(SpongeError::InvalidAbsorbState);
                },
            }
            i += 1;
        }

        let loaded_state = copy_row(initial_state);

        let mut output_state: Vec<Option<FieldElem>> = Vec::new();
        let mut j: usize = 0;
        while j < rate
            invariant
                rate == input_row@.len(),
                rate + 1 == initial_state@.len(),
                j <= rate,
                output_state@.len() == j,
                forall|k: int|
                    0 <= k < j ==> value_sum(
                        initial_state@[k],
                        input_row@[k],
                        #[trigger] output_state@[k],
                    ),
            decreases rate - j,
        {
            let s = add_values(&initial_state[j], &input_row[j]);
            output_state.push(s);
            j += 1;
        }
        let capacity = initial_state[rate];
        output_state.push(capacity);

        let mut sel_pad_and_add: Vec<bool> = Vec::new();
        sel_pad_and_add.push(false);
        sel_pad_and_add.push(true);
        sel_pad_and_add.push(false);

        Ok(AbsorbPlan { loaded_state, input_row, pad_fixed, output_state, sel_pad_and_add })
    }

    /// A pure projection of the output words: the first `rate` words of the
    /// state, in order. No new constraints, no computation.
    pub fn get_output(&self, state: &Vec<Option<FieldElem>>) -> (r: Vec<Option<FieldElem>>)
        requires
            self.spec_config().wf(),
            state@.len() == self.spec_config().width,
        ensures
            r@ == state@.subrange(0, self.spec_config().rate as int),
    {
        let cfg = self.config();
        let mut out: Vec<Option<FieldElem>> = Vec::new();
        let mut i: usize = 0;
        while i < cfg.rate
            invariant
                i <= cfg.rate,
                cfg.rate < state@.len(),
                out@.len() == i,
                forall|k: int| 0 <= k < i ==> #[trigger] out@[k] == state@[k],
            decreases cfg.rate - i,
        {
            let word = state[i];
            out.push(word);
            i += 1;
        }
        proof {
            assert(out@ =~= state@.subrange(0, cfg.rate as int));
        }
        out
    }
}

/// Padding enforcement, one direction: a witness that satisfies the padding
/// copy constraints carries the padding constant itself in every
/// constrained input cell.
pub proof fn lemma_padding_enforced(
    pad_fixed: Seq<Option<FieldElem>>,
    witnessed_input: Seq<Seq<u8>>,
    i: int,
)
    requires
        0 <= i < pad_fixed.len(),
        pad_fixed[i] is Some,
        pad_constraints_hold(pad_fixed, witnessed_input),
    ensures
        witnessed_input[i] == pad_fixed[i]->0@,
{
}

/// Padding enforcement, the other direction: a witness that substitutes any
/// other value at a padded input cell violates the copy constraints, so the
/// constraint system rejects the assignment instead of producing a wrong
/// numeric result.
pub proof fn lemma_padding_rejected(
    pad_fixed: Seq<Option<FieldElem>>,
    witnessed_input: Seq<Seq<u8>>,
    i: int,
)
    requires
        0 <= i < pad_fixed.len(),
        pad_fixed[i] is Some,
        witnessed_input[i] != pad_fixed[i]->0@,
    ensures
        !pad_constraints_hold(pad_fixed, witnessed_input),
{
}

} // verus!
