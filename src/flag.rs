//! The contract a flag type meets: a byte count for its whole universe and a
//! zero-based bit index for each of its members.
use vstd::prelude::*;

verus! {

/// A member of a closed enumeration of flags.
///
/// An implementation gives each member a distinct index in `0..n`, where `n`
/// is the number of members, and sets `SIZE` to the number of bytes that
/// hold `n` bits.
pub trait Flag {
    /// The number of bytes that hold one bit for every member.
    const SIZE: usize;

    /// The bit index of this member, as `into_usize` returns it.
    ///
    /// The default leaves the index unspecified, so that implementations
    /// written outside verified code need not mention it; a verified
    /// implementation defines it.
    closed spec fn flag_index(&self) -> nat {
        arbitrary()
    }

    /// Returns the bit index of this member.
    fn into_usize(&self) -> (r: usize)
        ensures
            r == self.flag_index(),
    ;
}

} // verus!
