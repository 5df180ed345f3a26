//! The Poseidon permutation: its mathematical model and the row-by-row
//! execution engine.
//!
//! One set of spec functions states the round formulas. A circuit gates a
//! row with exactly those identities, and the engine fills the next row
//! with exactly those values, so the rows of a plan satisfy the gated
//! identities by construction.

use vstd::prelude::*;

use crate::config::{is_square, Pow5Chip, Pow5Config};
use crate::field::{add_of, mul_of, sbox_of, zero_bytes, FieldElem};

verus! {

/// Spec-level view of a state: the canonical bytes of each word.
pub open spec fn words_of(s: Seq<FieldElem>) -> Seq<Seq<u8>> {
    s.map(|i: int, f: FieldElem| f@)
}

/// Whether every word of a row has a known value.
pub open spec fn all_known(s: Seq<Option<FieldElem>>) -> bool {
    forall|i: int| 0 <= i < s.len() ==> s[i] is Some
}

/// The values of a row of known words.
pub open spec fn known_words(s: Seq<Option<FieldElem>>) -> Seq<Seq<u8>> {
    s.map(|i: int, w: Option<FieldElem>| w->0@)
}

/// Dot product of a matrix row with the first `n` words of a state, folded
/// left from zero exactly as the row formulas compute it:
/// `((0 + row[0]·s[0]) + row[1]·s[1]) + ...`.
pub open spec fn dot(row: Seq<FieldElem>, s: Seq<Seq<u8>>, n: int) -> Seq<u8>
    decreases n,
{
    if n <= 0 {
        zero_bytes()
    } else {
        add_of(dot(row, s, n - 1), mul_of(row[n - 1]@, s[n - 1]))
    }
}

/// The linear mixing layer: `next[i] = Σ_j m[i][j] · s[j]`.
pub open spec fn mat_vec(m: Seq<Vec<FieldElem>>, s: Seq<Seq<u8>>, w: int) -> Seq<Seq<u8>> {
    Seq::new(w as nat, |i: int| dot(m[i]@, s, w))
}

/// Whether round `r` of the schedule `half_full | partial | half_full` is a
/// partial round.
pub open spec fn is_partial_round(cfg: Pow5Config, r: int) -> bool {
    cfg.half_full_rounds <= r < cfg.half_full_rounds + cfg.partial_rounds
}

/// The S-box layer of a full round: every word gets its round constant added
/// and is then raised to the fifth power.
pub open spec fn sbox_layer(rc: Seq<FieldElem>, s: Seq<Seq<u8>>, w: int) -> Seq<Seq<u8>> {
    Seq::new(w as nat, |j: int| sbox_of(add_of(s[j], rc[j]@)))
}

/// A full round: `next[i] = Σ_j external[i][j] · S(s[j] + rc[round][j])`.
pub open spec fn full_round_spec(cfg: Pow5Config, round: int, s: Seq<Seq<u8>>) -> Seq<Seq<u8>> {
    mat_vec(
        cfg.mat_external@,
        sbox_layer(cfg.round_constants@[round]@, s, cfg.width as int),
        cfg.width as int,
    )
}

/// The value witnessed into the partial-S-box column in partial round
/// `round`: only word 0 passes through the S-box, and only word 0 receives a
/// round constant.
pub open spec fn partial_mid_spec(cfg: Pow5Config, round: int, s: Seq<Seq<u8>>) -> Seq<u8> {
    sbox_of(add_of(s[0], cfg.round_constants@[round]@[0]@))
}

/// A partial round: `next[i] = Σ_j internal[i][j] · v[j]` where `v[0]` is the
/// partial-S-box value and `v[j] = s[j]` for `j >= 1`.
pub open spec fn partial_round_spec(cfg: Pow5Config, round: int, s: Seq<Seq<u8>>) -> Seq<Seq<u8>> {
    mat_vec(
        cfg.mat_internal@,
        s.update(0, partial_mid_spec(cfg, round, s)),
        cfg.width as int,
    )
}

/// The transition of round `round`, full or partial according to the schedule.
pub open spec fn round_spec(cfg: Pow5Config, round: int, s: Seq<Seq<u8>>) -> Seq<Seq<u8>> {
    if is_partial_round(cfg, round) {
        partial_round_spec(cfg, round, s)
    } else {
        full_round_spec(cfg, round, s)
    }
}

/// The state after the pre-mix layer and the first `k` rounds.
pub open spec fn state_after(cfg: Pow5Config, s0: Seq<Seq<u8>>, k: int) -> Seq<Seq<u8>>
    decreases k,
{
    if k <= 0 {
        mat_vec(cfg.mat_external@, s0, cfg.width as int)
    } else {
        round_spec(cfg, k - 1, state_after(cfg, s0, k - 1))
    }
}

/// The whole permutation: the pre-mix layer, then every round of the
/// schedule in order.
pub open spec fn permute_spec(cfg: Pow5Config, s: Seq<Seq<u8>>) -> Seq<Seq<u8>> {
    state_after(cfg, s, cfg.total_rounds())
}

/// `Σ_j row[j] · s[j]`, folded left from zero.
fn dot_row(row: &Vec<FieldElem>, s: &Vec<FieldElem>) -> (r: FieldElem)
    requires
        row@.len() == s@.len(),
    ensures
        r@ == dot(row@, words_of(s@), s@.len() as int),
{
    let mut acc = FieldElem::zero();
    let mut j: usize = 0;
    while j < s.len()
        invariant
            j <= s@.len(),
            row@.len() == s@.len(),
            acc@ == dot(row@, words_of(s@), j as int),
        decreases s@.len() - j,
    {
        acc = acc.add(&row[j].mul(&s[j]));
        j += 1;
    }
    acc
}

/// Applies a square matrix to a state.
fn apply_matrix(m: &Vec<Vec<FieldElem>>, s: &Vec<FieldElem>) -> (r: Vec<FieldElem>)
    requires
        is_square(m@, s@.len() as int),
    ensures
        r@.len() == s@.len(),
        words_of(r@) == mat_vec(m@, words_of(s@), s@.len() as int),
{
    let w = s.len();
    let mut out: Vec<FieldElem> = Vec::new();
    let mut i: usize = 0;
    while i < w
        invariant
            out@.len() == i,
            i <= w,
            w == s@.len(),
            is_square(m@, w as int),
            forall|k: int| 0 <= k < i ==> #[trigger] out@[k]@ == dot(m@[k]@, words_of(s@), w as int),
        decreases w - i,
    {
        let v = dot_row(&m[i], s);
        out.push(v);
        i += 1;
    }
    proof {
        assert(words_of(out@) =~= mat_vec(m@, words_of(s@), w as int));
    }
    out
}

/// The S-box layer of full round `round` on a known state.
fn sbox_layer_known(cfg: &Pow5Config, round: usize, s: &Vec<FieldElem>) -> (r: Vec<FieldElem>)
    requires
        cfg.wf(),
        round < cfg.round_constants@.len(),
        s@.len() == cfg.width,
    ensures
        r@.len() == cfg.width,
        words_of(r@) == sbox_layer(cfg.round_constants@[round as int]@, words_of(s@), cfg.width as int),
{
    let rc = &cfg.round_constants[round];
    let mut out: Vec<FieldElem> = Vec::new();
    let mut j: usize = 0;
    while j < s.len()
        invariant
            out@.len() == j,
            j <= s@.len(),
            s@.len() == cfg.width,
            rc@ == cfg.round_constants@[round as int]@,
            rc@.len() == cfg.width,
            forall|k: int|
                0 <= k < j ==> #[trigger] out@[k]@ == sbox_of(add_of(s@[k]@, rc@[k]@)),
        decreases s@.len() - j,
    {
        let v = s[j].add(&rc[j]).sbox();
        out.push(v);
        j += 1;
    }
    proof {
        assert(words_of(out@) =~= sbox_layer(cfg.round_constants@[round as int]@, words_of(s@), cfg.width as int));
    }
    out
}

/// A full round on a known state.
fn full_round_known(cfg: &Pow5Config, round: usize, s: &Vec<FieldElem>) -> (r: Vec<FieldElem>)
    requires
        cfg.wf(),
        round < cfg.round_constants@.len(),
        s@.len() == cfg.width,
    ensures
        r@.len() == cfg.width,
        words_of(r@) == full_round_spec(*cfg, round as int, words_of(s@)),
{
    let t = sbox_layer_known(cfg, round, s);
    apply_matrix(&cfg.mat_external, &t)
}

/// A partial round on a known state: the partial-S-box value and the next
/// state.
fn partial_round_known(cfg: &Pow5Config, round: usize, s: &Vec<FieldElem>) -> (r: (
    FieldElem,
    Vec<FieldElem>,
))
    requires
        cfg.wf(),
        round < cfg.round_constants@.len(),
        s@.len() == cfg.width,
    ensures
        r.0@ == partial_mid_spec(*cfg, round as int, words_of(s@)),
        r.1@.len() == cfg.width,
        words_of(r.1@) == partial_round_spec(*cfg, round as int, words_of(s@)),
{
    let mid = s[0].add(&cfg.round_constants[round][0]).sbox();
    let mut v: Vec<FieldElem> = Vec::new();
    v.push(mid);
    let mut j: usize = 1;
    while j < s.len()
        invariant
            1 <= j <= s@.len(),
            s@.len() == cfg.width,
            v@.len() == j,
            v@[0] == mid,
            forall|k: int| 1 <= k < j ==> #[trigger] v@[k] == s@[k],
        decreases s@.len() - j,
    {
        let word = s[j];
        v.push(word);
        j += 1;
    }
    proof {
        assert(words_of(v@) =~= words_of(s@).update(0, partial_mid_spec(*cfg, round as int, words_of(s@))));
    }
    let next = apply_matrix(&cfg.mat_internal, &v);
    (mid, next)
}

/// Extracts the values of a row; `None` where any word is unknown.
pub fn collect_known(s: &Vec<Option<FieldElem>>) -> (r: Option<Vec<FieldElem>>)
    ensures
        r is Some <==> all_known(s@),
        r is Some ==> r->0@.len() == s@.len() && words_of(r->0@) == known_words(s@),
{
    let mut out: Vec<FieldElem> = Vec::new();
    let mut j: usize = 0;
    while j < s.len()
        invariant
            out@.len() == j,
            j <= s@.len(),
            forall|k: int| 0 <= k < j ==> s@[k] is Some,
            forall|k: int| 0 <= k < j ==> #[trigger] out@[k] == s@[k]->0,
        decreases s@.len() - j,
    {
        match &s[j] {
            Some(f) => {
                let word = *f;
                out.push(word);
            },
            None => {
                assert(!all_known(s@)) by {
                    assert(s@[j as int] is None);
                }
                return None;
            },
        }
        j += 1;
    }
    proof {
        assert(words_of(out@) =~= known_words(s@));
    }
    Some(out)
}

/// Wraps every word of a known row.
fn wrap_known(v: Vec<FieldElem>) -> (r: Vec<Option<FieldElem>>)
    ensures
        r@.len() == v@.len(),
        all_known(r@),
        known_words(r@) == words_of(v@),
        forall|k: int| 0 <= k < r@.len() ==> #[trigger] r@[k] == Some(v@[k]),
{
    let mut out: Vec<Option<FieldElem>> = Vec::new();
    let mut j: usize = 0;
    while j < v.len()
        invariant
            out@.len() == j,
            j <= v@.len(),
            forall|k: int| 0 <= k < j ==> #[trigger] out@[k] == Some(v@[k]),
        decreases v@.len() - j,
    {
        let word = v[j];
        out.push(Some(word));
        j += 1;
    }
    proof {
        assert(known_words(out@) =~= words_of(v@));
    }
    out
}

/// A row of `w` unknown words.
fn unknown_row(w: usize) -> (r: Vec<Option<FieldElem>>)
    ensures
        r@.len() == w,
        forall|k: int| 0 <= k < w ==> r@[k] is None,
{
    let mut out: Vec<Option<FieldElem>> = Vec::new();
    let mut j: usize = 0;
    while j < w
        invariant
            out@.len() == j,
            j <= w,
            forall|k: int| 0 <= k < j ==> out@[k] is None,
        decreases w - j,
    {
        out.push(None);
        j += 1;
    }
    out
}

/// The pre-mix layer on a row of possibly-unknown words: the external matrix
/// applied to the state, before any round. An unknown word makes the whole
/// next row unknown.
pub fn first_layer_values(cfg: &Pow5Config, cur: &Vec<Option<FieldElem>>) -> (r: Vec<
    Option<FieldElem>,
>)
    requires
        cfg.wf(),
        cur@.len() == cfg.width,
    ensures
        r@.len() == cfg.width,
        all_known(cur@) ==> all_known(r@) && known_words(r@) == mat_vec(
            cfg.mat_external@,
            known_words(cur@),
            cfg.width as int,
        ),
        !all_known(cur@) ==> forall|k: int| 0 <= k < r@.len() ==> r@[k] is None,
{
    match collect_known(cur) {
        Some(v) => wrap_known(apply_matrix(&cfg.mat_external, &v)),
        None => unknown_row(cfg.width),
    }
}

/// A full round on a row of possibly-unknown words. An unknown word makes
/// the whole next row unknown.
pub fn full_round_values(cfg: &Pow5Config, round: usize, cur: &Vec<Option<FieldElem>>) -> (r: Vec<
    Option<FieldElem>,
>)
    requires
        cfg.wf(),
        round < cfg.round_constants@.len(),
        cur@.len() == cfg.width,
    ensures
        r@.len() == cfg.width,
        all_known(cur@) ==> all_known(r@) && known_words(r@) == full_round_spec(
            *cfg,
            round as int,
            known_words(cur@),
        ),
        !all_known(cur@) ==> forall|k: int| 0 <= k < r@.len() ==> r@[k] is None,
{
    match collect_known(cur) {
        Some(v) => wrap_known(full_round_known(cfg, round, &v)),
        None => unknown_row(cfg.width),
    }
}

/// A partial round on a row of possibly-unknown words: the partial-S-box
/// value and the next state. An unknown word makes both unknown.
pub fn partial_round_values(cfg: &Pow5Config, round: usize, cur: &Vec<Option<FieldElem>>) -> (r: (
    Option<FieldElem>,
    Vec<Option<FieldElem>>,
))
    requires
        cfg.wf(),
        round < cfg.round_constants@.len(),
        cur@.len() == cfg.width,
    ensures
        r.1@.len() == cfg.width,
        all_known(cur@) ==> {
            &&& r.0 is Some
            &&& r.0->0@ == partial_mid_spec(*cfg, round as int, known_words(cur@))
            &&& all_known(r.1@)
            &&& known_words(r.1@) == partial_round_spec(*cfg, round as int, known_words(cur@))
        },
        !all_known(cur@) ==> r.0 is None && (forall|k: int| 0 <= k < r.1@.len() ==> r.1@[k] is None),
{
    match collect_known(cur) {
        Some(v) => {
            let (mid, next) = partial_round_known(cfg, round, &v);
            (Some(mid), wrap_known(next))
        },
        None => (None, unknown_row(cfg.width)),
    }
}

/// A copy of a row of possibly-unknown words.
pub(crate) fn copy_row(s: &Vec<Option<FieldElem>>) -> (r: Vec<Option<FieldElem>>)
    ensures
        r@ == s@,
{
    let mut out: Vec<Option<FieldElem>> = Vec::new();
    let mut j: usize = 0;
    while j < s.len()
        invariant
            out@.len() == j,
            j <= s@.len(),
            forall|k: int| 0 <= k < j ==> #[trigger] out@[k] == s@[k],
        decreases s@.len() - j,
    {
        let word = s[j];
        out.push(word);
        j += 1;
    }
    proof {
        assert(out@ =~= s@);
    }
    out
}

/// The scratch region a `permute_rows` call fills: one row per state, the
/// partial-S-box column, and the rows at which each round selector is
/// enabled.
pub struct PermutePlan {
    /// Rows `0 ..= total_rounds + 1` of the region, each holding the `width`
    /// state words bound to that row.
    pub rows: Vec<Vec<Option<FieldElem>>>,
    /// The partial-S-box column at each gated row; a value stands there
    /// exactly on the rows where the `partial` selector is enabled and the
    /// input is known.
    pub mids: Vec<Option<FieldElem>>,
    /// Rows at which the `first` selector is enabled.
    pub sel_first: Vec<bool>,
    /// Rows at which the `full` selector is enabled.
    pub sel_full: Vec<bool>,
    /// Rows at which the `partial` selector is enabled.
    pub sel_partial: Vec<bool>,
}

/// The selector schedule of a permutation region: `first` exactly at row 0,
/// `full` exactly at the rows of full rounds, `partial` exactly at the rows
/// of partial rounds.
pub open spec fn schedule_wf(
    cfg: Pow5Config,
    sel_first: Seq<bool>,
    sel_full: Seq<bool>,
    sel_partial: Seq<bool>,
) -> bool {
    &&& sel_first.len() == cfg.total_rounds() + 1
    &&& sel_full.len() == cfg.total_rounds() + 1
    &&& sel_partial.len() == cfg.total_rounds() + 1
    &&& forall|o: int| 0 <= o <= cfg.total_rounds() ==> (#[trigger] sel_first[o] <==> o == 0)
    &&& forall|o: int|
        0 <= o <= cfg.total_rounds() ==> (#[trigger] sel_full[o] <==> (o >= 1 && !is_partial_round(
            cfg,
            o - 1,
        )))
    &&& forall|o: int|
        0 <= o <= cfg.total_rounds() ==> (#[trigger] sel_partial[o] <==> (o >= 1
            && is_partial_round(cfg, o - 1)))
}

/// The constraints gated at offset `o` of a permutation region, in solved
/// form: the family that the selector enabled at `o` registers relates rows
/// `o` and `o + 1` (and, for a partial round, the partial-S-box cell at `o`)
/// exactly as the round formulas state.
pub open spec fn gate_ok_at(
    cfg: Pow5Config,
    rows: Seq<Vec<Option<FieldElem>>>,
    mids: Seq<Option<FieldElem>>,
    o: int,
) -> bool {
    if o == 0 {
        known_words(rows[1]@) == mat_vec(cfg.mat_external@, known_words(rows[0]@), cfg.width as int)
    } else if is_partial_round(cfg, o - 1) {
        &&& mids[o] is Some
        &&& mids[o]->0@ == partial_mid_spec(cfg, o - 1, known_words(rows[o]@))
        &&& known_words(rows[o + 1]@) == partial_round_spec(cfg, o - 1, known_words(rows[o]@))
    } else {
        known_words(rows[o + 1]@) == full_round_spec(cfg, o - 1, known_words(rows[o]@))
    }
}

/// Exactly one of three flags is set.
pub open spec fn exactly_one(a: bool, b: bool, c: bool) -> bool {
    (a && !b && !c) || (!a && b && !c) || (!a && !b && c)
}

impl Pow5Chip {
    /// Plain evaluation of the permutation on known words: the pre-mix
    /// layer, then every round of the schedule. This is the reference the
    /// circuit rows are held to.
    pub fn permute(&self, initial_state: &Vec<FieldElem>) -> (r: Vec<FieldElem>)
        requires
            self.spec_config().wf(),
            initial_state@.len() == self.spec_config().width,
        ensures
            r@.len() == self.spec_config().width,
            words_of(r@) == permute_spec(self.spec_config(), words_of(initial_state@)),
    {
        let cfg = self.config();
        let total = cfg.round_constants.len();
        let half = cfg.half_full_rounds;
        let mut cur = apply_matrix(&cfg.mat_external, initial_state);
        let mut k: usize = 0;
        while k < total
            invariant
                *cfg == self.spec_config(),
                cfg.wf(),
                half == cfg.half_full_rounds,
                total == cfg.round_constants@.len(),
                initial_state@.len() == cfg.width,
                k <= total,
                cur@.len() == cfg.width,
                words_of(cur@) == state_after(*cfg, words_of(initial_state@), k as int),
            decreases total - k,
        {
            let partial = k >= half && k - half < cfg.partial_rounds;
            proof {
                assert(partial == is_partial_round(*cfg, k as int));
                assert(state_after(*cfg, words_of(initial_state@), k + 1) == round_spec(
                    *cfg,
                    k as int,
                    state_after(*cfg, words_of(initial_state@), k as int),
                ));
            }
            if partial {
                let (_, next) = partial_round_known(cfg, k, &cur);
                cur = next;
            } else {
                cur = full_round_known(cfg, k, &cur);
            }
            k += 1;
        }
        cur
    }

    /// The row-by-row execution of the permutation: copies the initial state
    /// into row 0 of a fresh region, enables `first` there, then one round
    /// per transition, and leaves the permuted state in the final row.
    ///
    /// When every input word is known, the rows it returns satisfy, at every
    /// gated offset, exactly the constraint family whose selector is enabled
    /// there, and the final row carries `permute_spec` of the input — the
    /// witness and the registered identities are the same formulas. An
    /// unknown input word makes every row after row 0 unknown.
    pub fn permute_rows(&self, initial_state: &Vec<Option<FieldElem>>) -> (plan: PermutePlan)
        requires
            self.spec_config().wf(),
            initial_state@.len() == self.spec_config().width,
        ensures
            plan.rows@.len() == self.spec_config().total_rounds() + 2,
            forall|o: int|
                0 <= o < plan.rows@.len() ==> #[trigger] plan.rows@[o]@.len()
                    == self.spec_config().width,
            plan.rows@[0]@ == initial_state@,
            plan.mids@.len() == self.spec_config().total_rounds() + 1,
            forall|o: int|
                0 <= o < plan.mids@.len() && (o == 0 || !is_partial_round(
                    self.spec_config(),
                    o - 1,
                )) ==> #[trigger] plan.mids@[o] is None,
            !all_known(initial_state@) ==> forall|o: int|
                0 <= o < plan.mids@.len() ==> #[trigger] plan.mids@[o] is None,
            schedule_wf(self.spec_config(), plan.sel_first@, plan.sel_full@, plan.sel_partial@),
            all_known(initial_state@) ==> forall|o: int|
                0 <= o < plan.rows@.len() ==> all_known(#[trigger] plan.rows@[o]@),
            all_known(initial_state@) ==> forall|o: int|
                0 <= o <= self.spec_config().total_rounds() ==> #[trigger] gate_ok_at(
                    self.spec_config(),
                    plan.rows@,
                    plan.mids@,
                    o,
                ),
            all_known(initial_state@) ==> known_words(
                plan.rows@[self.spec_config().total_rounds() + 1]@,
            ) == permute_spec(self.spec_config(), known_words(initial_state@)),
            !all_known(initial_state@) ==> forall|o: int, i: int|
                1 <= o < plan.rows@.len() && 0 <= i < self.spec_config().width
                    ==> #[trigger] plan.rows@[o]@[i] is None,
    {
        let cfg = self.config();
        let w = cfg.width;
        let total = cfg.round_constants.len();
        let half = cfg.half_full_rounds;

        let mut rows: Vec<Vec<Option<FieldElem>>> = Vec::new();
        let mut mids: Vec<Option<FieldElem>> = Vec::new();
        let mut sel_first: Vec<bool> = Vec::new();
        let mut sel_full: Vec<bool> = Vec::new();
        let mut sel_partial: Vec<bool> = Vec::new();

        let row0 = copy_row(initial_state);
        rows.push(row0);

        let mut cur = first_layer_values(cfg, initial_state);
        rows.push(copy_row(&cur));
        mids.push(None);
        sel_first.push(true);
        sel_full.push(false);
        sel_partial.push(false);

        let mut k: usize = 0;
        while k < total
            invariant
                *cfg == self.spec_config(),
                cfg.wf(),
                w == cfg.width,
                half == cfg.half_full_rounds,
                total == cfg.round_constants@.len(),
                initial_state@.len() == w,
                k <= total,
                rows@.len() == k + 2,
                mids@.len() == k + 1,
                sel_first@.len() == k + 1,
                sel_full@.len() == k + 1,
                sel_partial@.len() == k + 1,
                rows@[0]@ == initial_state@,
                cur@ == rows@[rows@.len() - 1]@,
                cur@.len() == w,
                forall|o: int| 0 <= o < rows@.len() ==> #[trigger] rows@[o]@.len() == w,
                forall|o: int| 0 <= o <= k ==> (#[trigger] sel_first@[o] <==> o == 0),
                forall|o: int|
                    0 <= o <= k ==> (#[trigger] sel_full@[o] <==> (o >= 1 && !is_partial_round(
                        *cfg,
                        o - 1,
                    ))),
                forall|o: int|
                    0 <= o <= k ==> (#[trigger] sel_partial@[o] <==> (o >= 1 && is_partial_round(
                        *cfg,
                        o - 1,
                    ))),
                all_known(initial_state@) ==> forall|o: int|
                    0 <= o < rows@.len() ==> all_known(#[trigger] rows@[o]@),
                all_known(initial_state@) ==> forall|o: int|
                    1 <= o < rows@.len() ==> known_words(#[trigger] rows@[o]@) == state_after(
                        *cfg,
                        known_words(initial_state@),
                        o - 1,
                    ),
                all_known(initial_state@) ==> forall|o: int|
                    1 <= o <= k && is_partial_round(*cfg, o - 1) ==> #[trigger] mids@[o] is Some
                        && mids@[o]->0@ == partial_mid_spec(
                        *cfg,
                        o - 1,
                        state_after(*cfg, known_words(initial_state@), o - 1),
                    ),
                forall|o: int|
                    0 <= o < mids@.len() && (o == 0 || !is_partial_round(*cfg, o - 1))
                        ==> #[trigger] mids@[o] is None,
                !all_known(initial_state@) ==> forall|o: int|
                    0 <= o < mids@.len() ==> #[trigger] mids@[o] is None,
                !all_known(initial_state@) ==> forall|o: int, i: int|
                    1 <= o < rows@.len() && 0 <= i < w ==> #[trigger] rows@[o]@[i] is None,
            decreases total - k,
        {
            let partial = k >= half && k - half < cfg.partial_rounds;
            proof {
                assert(partial == is_partial_round(*cfg, k as int));
                if all_known(initial_state@) {
                    assert(all_known(cur@));
                    assert(state_after(*cfg, known_words(initial_state@), k + 1) == round_spec(
                        *cfg,
                        k as int,
                        state_after(*cfg, known_words(initial_state@), k as int),
                    ));
                } else {
                    assert(cur@[0] is None);
                    assert(!all_known(cur@));
                }
            }
            if partial {
                let (mid, next) = partial_round_values(cfg, k, &cur);
                mids.push(mid);
                cur = next;
            } else {
                let next = full_round_values(cfg, k, &cur);
                mids.push(None);
                cur = next;
            }
            rows.push(copy_row(&cur));
            sel_first.push(false);
            sel_full.push(!partial);
            sel_partial.push(partial);
            k += 1;
        }
        proof {
            assert(cfg.total_rounds() == total);
            if all_known(initial_state@) {
                let s0 = known_words(initial_state@);
                assert(known_words(rows@[0]@) == s0);
                assert forall|o: int| 0 <= o <= total implies #[trigger] gate_ok_at(
                    *cfg,
                    rows@,
                    mids@,
                    o,
                ) by {
                    if o == 0 {
                        assert(known_words(rows@[1]@) == state_after(*cfg, s0, 0));
                        assert(state_after(*cfg, s0, 0) == mat_vec(
                            cfg.mat_external@,
                            s0,
                            cfg.width as int,
                        ));
                    } else {
                        assert(known_words(rows@[o]@) == state_after(*cfg, s0, o - 1));
                        assert(known_words(rows@[o + 1]@) == state_after(*cfg, s0, o));
                        assert(state_after(*cfg, s0, o) == round_spec(
                            *cfg,
                            o - 1,
                            state_after(*cfg, s0, o - 1),
                        ));
                    }
                }
            }
        }
        PermutePlan { rows, mids, sel_first, sel_full, sel_partial }
    }
}

/// Selector exclusivity: on every gated row of a synthesized permutation
/// region — the pre-mix row and one row per round — exactly one of the
/// `first`, `full` and `partial` selectors is active. The final row, which
/// only closes the last transition, carries no selector at all: the schedule
/// vectors do not extend to it.
pub proof fn lemma_selector_exclusivity(
    cfg: Pow5Config,
    sel_first: Seq<bool>,
    sel_full: Seq<bool>,
    sel_partial: Seq<bool>,
    o: int,
)
    requires
        cfg.wf(),
        schedule_wf(cfg, sel_first, sel_full, sel_partial),
        0 <= o <= cfg.total_rounds(),
    ensures
        exactly_one(sel_first[o], sel_full[o], sel_partial[o]),
{
}

/// The gated constraints pin the witness down: in any assignment of a
/// permutation region that satisfies every constraint family enabled by
/// the schedule, row `k + 1` carries the state after the pre-mix layer and
/// the first `k` rounds of row 0 — the gates admit only a correct
/// computation, not merely the planned one.
pub proof fn lemma_gates_pin_the_permutation(
    cfg: Pow5Config,
    rows: Seq<Vec<Option<FieldElem>>>,
    mids: Seq<Option<FieldElem>>,
    k: int,
)
    requires
        cfg.wf(),
        rows.len() == cfg.total_rounds() + 2,
        forall|o: int| 0 <= o <= cfg.total_rounds() ==> #[trigger] gate_ok_at(cfg, rows, mids, o),
        0 <= k <= cfg.total_rounds(),
    ensures
        known_words(rows[k + 1]@) == state_after(cfg, known_words(rows[0]@), k),
    decreases k,
{
    if k == 0 {
        assert(gate_ok_at(cfg, rows, mids, 0));
    } else {
        lemma_gates_pin_the_permutation(cfg, rows, mids, k - 1);
        assert(gate_ok_at(cfg, rows, mids, k));
        assert(state_after(cfg, known_words(rows[0]@), k) == round_spec(
            cfg,
            k - 1,
            state_after(cfg, known_words(rows[0]@), k - 1),
        ));
    }
}

/// Constraint soundness for a whole permutation region: a satisfying
/// assignment binds the final row to the permutation of the first.
pub proof fn lemma_satisfying_rows_carry_the_permutation(
    cfg: Pow5Config,
    rows: Seq<Vec<Option<FieldElem>>>,
    mids: Seq<Option<FieldElem>>,
)
    requires
        cfg.wf(),
        rows.len() == cfg.total_rounds() + 2,
        forall|o: int| 0 <= o <= cfg.total_rounds() ==> #[trigger] gate_ok_at(cfg, rows, mids, o),
    ensures
        known_words(rows[cfg.total_rounds() + 1]@) == permute_spec(cfg, known_words(rows[0]@)),
{
    lemma_gates_pin_the_permutation(cfg, rows, mids, cfg.total_rounds());
}

/// Oracle equivalence: the witness values bound to the final row of a
/// permutation region equal the plain (non-circuit) permutation of the same
/// input — both are the state that `permute_spec` defines.
pub proof fn lemma_oracle_equivalence(
    cfg: Pow5Config,
    final_row: Seq<Option<FieldElem>>,
    oracle: Seq<FieldElem>,
    input: Seq<Seq<u8>>,
)
    requires
        known_words(final_row) == permute_spec(cfg, input),
        words_of(oracle) == permute_spec(cfg, input),
    ensures
        known_words(final_row) == words_of(oracle),
{
}

} // verus!
