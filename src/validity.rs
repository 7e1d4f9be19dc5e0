use vstd::prelude::*;

verus! {

/// The validity protocol: whether a value is usable in further computation.
///
/// It is a pure predicate and never fails. Unset and infinite sentinels are
/// not valid; the origin, the finite extremes and ordinary values are.
pub trait IsValid {
    spec fn valid(&self) -> bool;

    fn is_valid(&self) -> (r: bool)
        ensures
            r == self.valid(),
    ;
}

} // verus!
