//! The result of a search: a set of four facts, which the engine hands over as
//! one number with a bit for each.

use vstd::prelude::*;

verus! {

/// The bit that says that the search found a model.
pub const SATISFIABLE: u32 = 1;

/// The bit that says that the search found that there is no model.
pub const UNSATISFIABLE: u32 = 2;

/// The bit that says that the search went through all there was to search.
pub const EXHAUSTED: u32 = 4;

/// The bit that says that the search was stopped before its end.
pub const INTERRUPTED: u32 = 8;

/// The bits that have a meaning, all together.
pub const ALL: u32 = 15;

/// The four facts of a result, each on its own.
pub struct SolveFlags {
    /// The search found a model.
    pub satisfiable: bool,
    /// The search found that there is no model.
    pub unsatisfiable: bool,
    /// The search went through all there was to search.
    pub exhausted: bool,
    /// The search was stopped before its end.
    pub interrupted: bool,
}

/// The facts that the bits of `bits` state.
pub open spec fn flags_of(bits: u32) -> SolveFlags {
    SolveFlags {
        satisfiable: bits & SATISFIABLE != 0,
        unsatisfiable: bits & UNSATISFIABLE != 0,
        exhausted: bits & EXHAUSTED != 0,
        interrupted: bits & INTERRUPTED != 0,
    }
}

/// Whether every bit that is set in `bits` has a meaning.
pub open spec fn recognized(bits: u32) -> bool {
    bits <= ALL
}

/// The result of a search. Several of its facts can hold at once: a search
/// that listed every model leaves a result that is satisfiable and exhausted.
#[derive(Debug, Clone, Copy, PartialEq, Eq)]
pub struct SolveResult {
    bits: u32,
}

impl View for SolveResult {
    type V = SolveFlags;

    closed spec fn view(&self) -> SolveFlags {
        flags_of(self.bits)
    }
}

impl SolveResult {
    #[verifier::type_invariant]
    spec fn well_formed(&self) -> bool {
        recognized(self.bits)
    }

    /// The number that the engine hands over for this result.
    pub closed spec fn spec_bits(&self) -> u32 {
        self.bits
    }

    /// Reads the number that the engine hands over. A number with a bit that
    /// has no meaning is refused: none of its bits is trusted then.
    pub fn from_bits(bits: u32) -> (result: Option<SolveResult>)
        ensures
            result is Some <==> recognized(bits),
            result is Some ==> result->0.spec_bits() == bits && result->0@ == flags_of(bits),
    {
        if bits <= ALL {
            Some(SolveResult { bits })
        } else {
            None
        }
    }

    /// Returns the number that the engine hands over for this result.
    pub fn bits(&self) -> (bits: u32)
        ensures
            bits == self.spec_bits(),
            recognized(bits),
            flags_of(bits) == self@,
    {
        proof {
            use_type_invariant(self);
        }
        self.bits
    }

    /// The result of which no fact holds.
    pub fn empty() -> (result: SolveResult)
        ensures
            result.spec_bits() == 0,
            !result@.satisfiable,
            !result@.unsatisfiable,
            !result@.exhausted,
            !result@.interrupted,
    {
        assert(0u32 & 1 == 0 && 0u32 & 2 == 0 && 0u32 & 4 == 0 && 0u32 & 8 == 0) by (bit_vector);
        SolveResult { bits: 0 }
    }

    /// Tells whether the search found a model.
    pub fn is_satisfiable(&self) -> (holds: bool)
        ensures
            holds == self@.satisfiable,
    {
        self.bits & SATISFIABLE != 0
    }

    /// Tells whether the search found that there is no model.
    pub fn is_unsatisfiable(&self) -> (holds: bool)
        ensures
            holds == self@.unsatisfiable,
    {
        self.bits & UNSATISFIABLE != 0
    }

    /// Tells whether the search went through all there was to search.
    pub fn is_exhausted(&self) -> (holds: bool)
        ensures
            holds == self@.exhausted,
    {
        self.bits & EXHAUSTED != 0
    }

    /// Tells whether the search was stopped before its end.
    pub fn is_interrupted(&self) -> (holds: bool)
        ensures
            holds == self@.interrupted,
    {
        self.bits & INTERRUPTED != 0
    }

    /// Tells whether every fact of `other` holds of this result too.
    pub fn contains(&self, other: &SolveResult) -> (holds: bool)
        ensures
            holds <==> {
                &&& other@.satisfiable ==> self@.satisfiable
                &&& other@.unsatisfiable ==> self@.unsatisfiable
                &&& other@.exhausted ==> self@.exhausted
                &&& other@.interrupted ==> self@.interrupted
            },
    {
        proof {
            use_type_invariant(self);
            use_type_invariant(other);
        }
        let a = self.bits;
        let b = other.bits;
        assert(a <= 15 && b <= 15 ==> ((a & b == b) <==> ((b & 1 != 0 ==> a & 1 != 0) && (b & 2 != 0
            ==> a & 2 != 0) && (b & 4 != 0 ==> a & 4 != 0) && (b & 8 != 0 ==> a & 8 != 0))))
            by (bit_vector);
        a & b == b
    }

    /// Returns the result of which the facts of both results hold.
    pub fn union(&self, other: &SolveResult) -> (result: SolveResult)
        ensures
            result@.satisfiable == (self@.satisfiable || other@.satisfiable),
            result@.unsatisfiable == (self@.unsatisfiable || other@.unsatisfiable),
            result@.exhausted == (self@.exhausted || other@.exhausted),
            result@.interrupted == (self@.interrupted || other@.interrupted),
    {
        proof {
            use_type_invariant(self);
            use_type_invariant(other);
        }
        let a = self.bits;
        let b = other.bits;
        assert(a <= 15 && b <= 15 ==> (a | b) <= 15 && (((a | b) & 1 != 0) <==> (a & 1 != 0 || b
            & 1 != 0)) && (((a | b) & 2 != 0) <==> (a & 2 != 0 || b & 2 != 0)) && (((a | b) & 4
            != 0) <==> (a & 4 != 0 || b & 4 != 0)) && (((a | b) & 8 != 0) <==> (a & 8 != 0 || b
            & 8 != 0))) by (bit_vector);
        SolveResult { bits: a | b }
    }
}

/// A result is known by its facts: two numbers with the same meaningful bits
/// set are the same number.
pub proof fn lemma_flags_determine_bits(a: u32, b: u32)
    requires
        recognized(a),
        recognized(b),
        flags_of(a) == flags_of(b),
    ensures
        a == b,
{
    assert(a <= 15 && b <= 15 && ((a & 1 != 0) <==> (b & 1 != 0)) && ((a & 2 != 0) <==> (b & 2
        != 0)) && ((a & 4 != 0) <==> (b & 4 != 0)) && ((a & 8 != 0) <==> (b & 8 != 0)) ==> a
        == b) by (bit_vector);
}

} // verus!
