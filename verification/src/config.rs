//! Setup-time configuration of the Poseidon gadget.
//!
//! `Pow5Chip::configure` validates the width/rate pair, the round schedule
//! and the shape of the algorithm constants once, before any row is ever
//! assigned; every later operation requires the validated configuration.

use vstd::prelude::*;

use crate::field::FieldElem;
use crate::is_supported_width;

verus! {

/// A fatal configuration error: the circuit description itself must be
/// fixed, the call is never retried.
#[derive(Clone, Copy, PartialEq, Eq, Debug)]
pub enum ConfigError {
    /// The width is not in the supported enumeration.
    UnsupportedWidth,
    /// The rate is not `width - 1`.
    RateMismatch,
    /// The number of full rounds is odd.
    OddFullRounds,
    /// The number of partial rounds is odd.
    OddPartialRounds,
    /// The round constants or the mixing matrices do not have the shape the
    /// round schedule requires.
    MalformedConstants,
}

/// Whether `m` is a `w`-by-`w` matrix.
pub open spec fn is_square(m: Seq<Vec<FieldElem>>, w: int) -> bool {
    m.len() == w && forall|i: int| 0 <= i < w ==> #[trigger] m[i]@.len() == w
}

/// The validated configuration: width, rate, round schedule, round constants
/// and the two mixing matrices, immutable for the circuit's lifetime.
#[derive(Clone)]
pub struct Pow5Config {
    pub width: usize,
    pub rate: usize,
    pub half_full_rounds: usize,
    pub partial_rounds: usize,
    pub round_constants: Vec<Vec<FieldElem>>,
    pub mat_internal: Vec<Vec<FieldElem>>,
    pub mat_external: Vec<Vec<FieldElem>>,
}

impl Pow5Config {
    /// Total number of rounds: `full_rounds + partial_rounds`, where the
    /// full rounds are split as `half_full | partial | half_full`.
    pub open spec fn total_rounds(self) -> int {
        2 * self.half_full_rounds + self.partial_rounds
    }

    /// Well-formedness: the shape every operation of the gadget relies on.
    pub open spec fn wf(self) -> bool {
        &&& is_supported_width(self.width)
        &&& self.rate + 1 == self.width
        &&& self.round_constants@.len() == self.total_rounds()
        &&& forall|r: int|
            0 <= r < self.round_constants@.len()
                ==> #[trigger] self.round_constants@[r]@.len() == self.width
        &&& is_square(self.mat_external@, self.width as int)
        &&& is_square(self.mat_internal@, self.width as int)
    }
}

impl Pow5Config {
    /// Reports whether this configuration has the shape `configure`
    /// validates; every operation of the gadget requires it.
    pub fn is_well_formed(&self) -> (r: bool)
        ensures
            r == self.wf(),
    {
        if !crate::supported_width(self.width) {
            return false;
        }
        if self.rate != self.width - 1 {
            return false;
        }
        let len = self.round_constants.len();
        if len < self.partial_rounds {
            return false;
        }
        let fulls = len - self.partial_rounds;
        if fulls % 2 != 0 || fulls / 2 != self.half_full_rounds {
            return false;
        }
        let mut r: usize = 0;
        while r < len
            invariant
                r <= self.round_constants@.len(),
                len == self.round_constants@.len(),
                forall|k: int| 0 <= k < r ==> #[trigger] self.round_constants@[k]@.len()
                    == self.width,
            decreases len - r,
        {
            if self.round_constants[r].len() != self.width {
                assert(!(forall|k: int|
                    0 <= k < self.round_constants@.len()
                        ==> #[trigger] self.round_constants@[k]@.len() == self.width)) by {
                    assert(self.round_constants@[r as int]@.len() != self.width);
                }
                return false;
            }
            r += 1;
        }
        if !matrix_is_square(&self.mat_external, self.width) {
            return false;
        }
        if !matrix_is_square(&self.mat_internal, self.width) {
            return false;
        }
        true
    }
}

/// The first check of `configure` that the given parameters fail, if any.
pub open spec fn config_error_of(
    width: usize,
    rate: usize,
    full_rounds: usize,
    partial_rounds: usize,
    round_constants: Seq<Vec<FieldElem>>,
    mat_internal: Seq<Vec<FieldElem>>,
    mat_external: Seq<Vec<FieldElem>>,
) -> Option<ConfigError> {
    if !is_supported_width(width) {
        Some(ConfigError::UnsupportedWidth)
    } else if rate + 1 != width {
        Some(ConfigError::RateMismatch)
    } else if full_rounds % 2 != 0 {
        Some(ConfigError::OddFullRounds)
    } else if partial_rounds % 2 != 0 {
        Some(ConfigError::OddPartialRounds)
    } else if !(round_constants.len() == full_rounds + partial_rounds
        && (forall|r: int|
            0 <= r < round_constants.len() ==> #[trigger] round_constants[r]@.len() == width)
        && is_square(mat_external, width as int)
        && is_square(mat_internal, width as int)) {
        Some(ConfigError::MalformedConstants)
    } else {
        None
    }
}

/// A Poseidon chip using an `x^5` S-box, one row per round.
pub struct Pow5Chip {
    config: Pow5Config,
}

impl Pow5Chip {
    /// The configuration this chip was constructed with.
    pub closed spec fn spec_config(self) -> Pow5Config {
        self.config
    }

    /// Validates the gadget parameters once, at setup.
    ///
    /// Returns the configuration exactly when the width is supported, the
    /// rate is `width - 1`, both round counts are even, and the constants
    /// have the shape the schedule requires; otherwise reports the first
    /// failing check as a fatal configuration error.
    pub fn configure(
        width: usize,
        rate: usize,
        full_rounds: usize,
        partial_rounds: usize,
        round_constants: Vec<Vec<FieldElem>>,
        mat_internal: Vec<Vec<FieldElem>>,
        mat_external: Vec<Vec<FieldElem>>,
    ) -> (r: Result<Pow5Config, ConfigError>)
        ensures
            r is Ok <==> config_error_of(
                width,
                rate,
                full_rounds,
                partial_rounds,
                round_constants@,
                mat_internal@,
                mat_external@,
            ) is None,
            r is Err ==> Some(r->Err_0) == config_error_of(
                width,
                rate,
                full_rounds,
                partial_rounds,
                round_constants@,
                mat_internal@,
                mat_external@,
            ),
            r is Ok ==> {
                let c = r->Ok_0;
                &&& c.wf()
                &&& c.width == width
                &&& c.rate == rate
                &&& c.half_full_rounds == full_rounds / 2
                &&& c.partial_rounds == partial_rounds
                &&& c.round_constants == round_constants
                &&& c.mat_internal == mat_internal
                &&& c.mat_external == mat_external
            },
    {
        if !crate::supported_width(width) {
            return Err(ConfigError::UnsupportedWidth);
        }
        if rate >= usize::MAX || rate + 1 != width {
            return Err(ConfigError::RateMismatch);
        }
        if full_rounds % 2 != 0 {
            return Err(ConfigError::OddFullRounds);
        }
        if partial_rounds % 2 != 0 {
            return Err(ConfigError::OddPartialRounds);
        }
        if round_constants.len() < full_rounds
            || round_constants.len() - full_rounds != partial_rounds {
            return Err(ConfigError::MalformedConstants);
        }
        let mut r: usize = 0;
        while r < round_constants.len()
            invariant
                r <= round_constants@.len(),
                is_supported_width(width),
                rate + 1 == width,
                full_rounds % 2 == 0,
                partial_rounds % 2 == 0,
                round_constants@.len() == full_rounds + partial_rounds,
                forall|k: int| 0 <= k < r ==> #[trigger] round_constants@[k]@.len() == width,
            decreases round_constants@.len() - r,
        {
            if round_constants[r].len() != width {
                assert(!(forall|k: int|
                    0 <= k < round_constants@.len()
                        ==> #[trigger] round_constants@[k]@.len() == width)) by {
                    assert(round_constants@[r as int]@.len() != width);
                }
                return Err(ConfigError::MalformedConstants);
            }
            r += 1;
        }
        if !matrix_is_square(&mat_external, width) {
            return Err(ConfigError::MalformedConstants);
        }
        if !matrix_is_square(&mat_internal, width) {
            return Err(ConfigError::MalformedConstants);
        }
        Ok(Pow5Config {
            width,
            rate,
            half_full_rounds: full_rounds / 2,
            partial_rounds,
            round_constants,
            mat_internal,
            mat_external,
        })
    }

    /// Construct a chip from a validated configuration.
    pub fn construct(config: Pow5Config) -> (r: Pow5Chip)
        ensures
            r.spec_config() == config,
    {
        Pow5Chip { config }
    }

    /// The chip's configuration.
    pub fn config(&self) -> (r: &Pow5Config)
        ensures
            *r == self.spec_config(),
    {
        &self.config
    }
}

/// Reports whether `m` is a `w`-by-`w` matrix.
fn matrix_is_square(m: &Vec<Vec<FieldElem>>, w: usize) -> (r: bool)
    ensures
        r == is_square(m@, w as int),
{
    if m.len() != w {
        return false;
    }
    let mut i: usize = 0;
    while i < m.len()
        invariant
            i <= m@.len(),
            m@.len() == w,
            forall|k: int| 0 <= k < i ==> #[trigger] m@[k]@.len() == w,
        decreases m@.len() - i,
    {
        if m[i].len() != w {
            return false;
        }
        i += 1;
    }
    true
}

} // verus!
