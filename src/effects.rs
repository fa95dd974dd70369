//! The effects that a `maybe` item is generic over, and an allocation that
//! may or may not be fallible.

use vstd::prelude::*;

verus! {

/// Which effects a variant has.
#[derive(Debug, Clone, Copy, PartialEq, Eq, Structural)]
pub struct Effects {
    pub async_: bool,
    pub try_: bool,
}

impl Effects {
    /// Suspension only.
    pub fn async_only() -> (r: Effects)
        ensures
            r == (Effects { async_: true, try_: false }),
    {
        Effects { async_: true, try_: false }
    }

    /// Error propagation only.
    pub fn try_only() -> (r: Effects)
        ensures
            r == (Effects { async_: false, try_: true }),
    {
        Effects { async_: false, try_: true }
    }

    /// The plain variant.
    pub fn none() -> (r: Effects)
        ensures
            r == (Effects { async_: false, try_: false }),
    {
        Effects { async_: false, try_: false }
    }

    /// Both effects.
    pub fn all() -> (r: Effects)
        ensures
            r == (Effects { async_: true, try_: true }),
    {
        Effects { async_: true, try_: true }
    }
}

/// An allocation failed.
#[derive(Debug, Clone, Copy, PartialEq, Eq, Structural)]
pub struct AllocError;

/// The length of the buffer that `mk_box` allocates.
pub const BOX_LEN: usize = 1000;

/// Allocates a zeroed buffer of `BOX_LEN` bytes. With the `try` effect a
/// failed allocation is reported as an error; without it the allocation is
/// infallible.
pub fn mk_box(effects: Effects) -> (r: Result<Vec<u8>, AllocError>)
    ensures
        !effects.try_ ==> r is Ok,
        r matches Ok(v) ==> v@ == Seq::new(BOX_LEN as nat, |i: int| 0u8),
{
    let mut v: Vec<u8> = Vec::new();
    if effects.try_ {
        if v.try_reserve(BOX_LEN).is_err() {
            return Err(AllocError);
        }
    }
    let mut i: usize = 0;
    while i < BOX_LEN
        invariant
            i <= BOX_LEN,
            v@ == Seq::new(i as nat, |j: int| 0u8),
        decreases BOX_LEN - i,
    {
        v.push(0);
        i += 1;
        assert(v@ =~= Seq::new(i as nat, |j: int| 0u8));
    }
    Ok(v)
}

} // verus!
