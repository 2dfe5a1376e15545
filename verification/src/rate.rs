//! Chart rates: the speed at which the music of a chart is played.

use vstd::prelude::*;

verus! {

/// Represents an Etterna chart rate (music speed).
///
/// As in Etterna, a rate is a multiple of 0.05. It is held as that multiple:
/// 20 times the rate, so that `1.15x` is 23.
#[derive(Copy, Clone, Ord, PartialOrd, Eq, PartialEq, Hash, Debug, Structural)]
pub struct Rate {
    x20: u32,
}

impl Rate {
    /// The rate times 20.
    pub closed spec fn view(self) -> u32 {
        self.x20
    }

    /// Create a new rate from a value that is equal to the real rate
    /// multiplied by 20.
    pub fn from_x20(x20: u32) -> (r: Rate)
        ensures
            r@ == x20,
    {
        Rate { x20 }
    }

    /// The rate times 20.
    pub fn x20(self) -> (r: u32)
        ensures
            r == self@,
    {
        self.x20
    }

    /// The sum of two rates, or `None` where it does not fit.
    pub fn checked_add(self, rhs: Rate) -> (r: Option<Rate>)
        ensures
            r.is_some() <==> self@ + rhs@ <= u32::MAX,
            r.is_some() ==> r.unwrap()@ == self@ + rhs@,
    {
        match self.x20.checked_add(rhs.x20) {
            Some(x20) => Some(Rate { x20 }),
            None => None,
        }
    }

    /// The difference of two rates, or `None` where `rhs` is the larger.
    pub fn checked_sub(self, rhs: Rate) -> (r: Option<Rate>)
        ensures
            r.is_some() <==> self@ >= rhs@,
            r.is_some() ==> r.unwrap()@ == self@ - rhs@,
    {
        match self.x20.checked_sub(rhs.x20) {
            Some(x20) => Some(Rate { x20 }),
            None => None,
        }
    }

    /// The sum of two rates.
    pub fn plus(self, rhs: Rate) -> (r: Rate)
        requires
            self@ + rhs@ <= u32::MAX,
        ensures
            r@ == self@ + rhs@,
    {
        Rate { x20: self.x20 + rhs.x20 }
    }

    /// The difference of two rates.
    pub fn minus(self, rhs: Rate) -> (r: Rate)
        requires
            self@ >= rhs@,
        ensures
            r@ == self@ - rhs@,
    {
        Rate { x20: self.x20 - rhs.x20 }
    }
}

impl Default for Rate {
    /// The rate `1.00x`.
    fn default() -> (r: Rate)
        ensures
            r@ == 20,
    {
        Rate { x20: 20 }
    }
}

} // verus!
