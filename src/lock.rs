//! A two-state advisory exclusion flag.
//!
//! The flag is a plain value: `get_lock` spins until it observes `Unlocked`
//! and then sets `Locked`; `unlock` sets `Unlocked` unconditionally. Without a
//! hardware read-modify-write the check-then-set is not race-free under true
//! parallelism; it serves cooperative and interrupt-reentrancy settings only.
use vstd::prelude::*;

verus! {

#[derive(Debug, PartialEq, Eq, Structural)]
pub enum Lock {
    Locked,
    Unlocked,
}

impl Lock {
    /// Acquires the flag: spins while it is `Locked`, then sets it to `Locked`.
    ///
    /// On a flag that is already held this never returns (there is no
    /// reentrancy), so such a call is excluded by the precondition.
    pub fn get_lock(&mut self)
        requires
            *old(self) == Lock::Unlocked,
        ensures
            *final(self) == Lock::Locked,
    {
        loop
            invariant_except_break
                *self == Lock::Unlocked,
            ensures
                *self == Lock::Locked,
            decreases 1int,
        {
            match *self {
                Lock::Locked => continue,
                _ => {
                    *self = Lock::Locked;
                    break;
                },
            }
        }
    }

    /// Releases the flag, whatever state it was in.
    pub fn unlock(&mut self)
        ensures
            *final(self) == Lock::Unlocked,
    {
        *self = Lock::Unlocked;
    }
}

} // verus!
