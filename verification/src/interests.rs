use vstd::prelude::*;

verus! {

/// The set of readiness conditions a registration waits for.
///
/// An interest set is drawn from a fixed vocabulary of two conditions,
/// readable and writable, and is never empty: every value of this type asks
/// for at least one of the two, so a successful registration always has a
/// condition to report on. The set is carried through to the registry
/// unchanged; this layer never interprets it.
#[derive(Clone, Copy, PartialEq, Eq, Structural, Debug)]
pub struct Interests {
    readable: bool,
    writable: bool,
}

impl Interests {
    /// Every interest set names at least one readiness condition.
    #[verifier::type_invariant]
    spec fn non_empty(self) -> bool {
        self.readable || self.writable
    }

    /// Whether the set asks for readable readiness.
    pub closed spec fn spec_readable(self) -> bool {
        self.readable
    }

    /// Whether the set asks for writable readiness.
    pub closed spec fn spec_writable(self) -> bool {
        self.writable
    }

    /// Interest in readable readiness alone.
    pub fn readable() -> (interests: Interests)
        ensures
            interests.spec_readable(),
            !interests.spec_writable(),
    {
        Interests { readable: true, writable: false }
    }

    /// Interest in writable readiness alone.
    pub fn writable() -> (interests: Interests)
        ensures
            !interests.spec_readable(),
            interests.spec_writable(),
    {
        Interests { readable: false, writable: true }
    }

    /// The union of two interest sets: the result asks for every condition
    /// that either operand asks for.
    pub fn add(self, other: Interests) -> (interests: Interests)
        ensures
            interests.spec_readable() == (self.spec_readable() || other.spec_readable()),
            interests.spec_writable() == (self.spec_writable() || other.spec_writable()),
    {
        proof {
            use_type_invariant(self);
        }
        Interests { readable: self.readable || other.readable, writable: self.writable || other.writable }
    }

    /// Reports whether the set asks for readable readiness.
    pub fn is_readable(&self) -> (r: bool)
        ensures
            r == self.spec_readable(),
    {
        self.readable
    }

    /// Reports whether the set asks for writable readiness.
    pub fn is_writable(&self) -> (r: bool)
        ensures
            r == self.spec_writable(),
    {
        self.writable
    }
}

} // verus!
