use vstd::prelude::*;

use crate::error::ErrorKind;

verus! {

/// Byte order in which multi-byte integers are written.
#[derive(Clone, Copy, Debug, PartialEq, Eq, Structural)]
pub enum Endian {
    Little,
    Big,
}

/// A budget of bytes that serialization may still produce.
#[derive(Clone, Copy, Debug, PartialEq, Eq, Structural)]
pub enum SizeLimit {
    /// At most this many more bytes may be produced.
    Bounded(u64),
    /// Any number of bytes may be produced.
    Infinite,
}

impl SizeLimit {
    /// The budget left after charging `n` bytes, or `None` when `n` does not fit.
    pub open spec fn after_add(self, n: nat) -> Option<SizeLimit> {
        match self {
            SizeLimit::Bounded(left) => if n <= left {
                Some(SizeLimit::Bounded((left - n) as u64))
            } else {
                None
            },
            SizeLimit::Infinite => Some(SizeLimit::Infinite),
        }
    }

    /// Charges `n` bytes against the budget.
    pub fn add(&mut self, n: u64) -> (r: Result<(), ErrorKind>)
        ensures
            match old(self).after_add(n as nat) {
                Some(l) => r == Ok::<(), ErrorKind>(()) && *final(self) == l,
                None => r == Err::<(), ErrorKind>(ErrorKind::SizeLimit) && *final(self) == *old(self),
            },
    {
        match self {
            SizeLimit::Bounded(left) => {
                if *left >= n {
                    *left = *left - n;
                    Ok(())
                } else {
                    Err(ErrorKind::SizeLimit)
                }
            },
            SizeLimit::Infinite => Ok(()),
        }
    }

    /// The number of bytes still allowed, if the budget is bounded.
    pub fn limit(&self) -> (r: Option<u64>)
        ensures
            r == match *self {
                SizeLimit::Bounded(left) => Some(left),
                SizeLimit::Infinite => None::<u64>,
            },
    {
        match self {
            SizeLimit::Bounded(left) => Some(*left),
            SizeLimit::Infinite => None,
        }
    }
}

/// The settings that an encoding runs with.
#[derive(Clone, Copy, Debug, PartialEq, Eq, Structural)]
pub struct Options {
    pub endian: Endian,
    pub limit: SizeLimit,
}

} // verus!
