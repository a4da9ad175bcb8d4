//! First steps: a crab that wants to ride the ferris wheel, and the longer of
//! two strings.

use vstd::prelude::*;
use vstd::string::*;

verus! {

/// Bit pattern of the smallest single-precision height that may ride.
pub const MIN_RIDING_HEIGHT: u32 = 0x3E19_999A;

/// Bit pattern of positive infinity in single precision.
pub const POSITIVE_INFINITY: u32 = 0x7F80_0000;

/// A crab at the fairground. `height` is the IEEE 754 single-precision bit
/// pattern of the crab's height.
#[derive(Debug)]
pub struct Crab {
    pub name: String,
    pub age: u8,
    pub height: u32,
}

impl Crab {
    /// The height is a number, not below the minimum. Patterns of numbers that
    /// are not negative are ordered as the numbers are, so this is a range of
    /// patterns: a set sign bit lies above it, and so does every pattern that
    /// is not a number.
    pub open spec fn tall_enough(&self) -> bool {
        MIN_RIDING_HEIGHT <= self.height <= POSITIVE_INFINITY
    }

    pub open spec fn old_enough(&self) -> bool {
        self.age > 18
    }

    /// Both tall enough and old enough.
    pub open spec fn may_ride(&self) -> bool {
        self.tall_enough() && self.old_enough()
    }

    /// What the crab says when it is sent away.
    pub open spec fn complaint(&self) -> Seq<char> {
        self.name@ + " is crying because he's too small to ride the ferris wheel."@
    }

    pub fn is_tall_enough(&self) -> (tall: bool)
        ensures
            tall == self.tall_enough(),
    {
        MIN_RIDING_HEIGHT <= self.height && self.height <= POSITIVE_INFINITY
    }

    pub fn is_old_enough(&self) -> (old: bool)
        ensures
            old == self.old_enough(),
    {
        self.age > 18
    }
}

/// A crab rides if it is both tall enough and old enough; otherwise it
/// complains, by name.
pub fn try_to_ride_wheel(crab: &Crab) -> (ride: Result<&str, String>)
    ensures
        crab.may_ride() ==> (ride matches Ok(cheer) && cheer@ == "Weeeeeee"@),
        !crab.may_ride() ==> (ride matches Err(complaint) && complaint@ == crab.complaint()),
{
    if crab.is_tall_enough() && crab.is_old_enough() {
        Ok("Weeeeeee")
    } else {
        Err(crab.name.clone().concat(" is crying because he's too small to ride the ferris wheel."))
    }
}

/// The first string if it takes more bytes than the second, else the second
/// (`len` is the length in bytes).
pub fn lifetime_example<'a>(s1: &'a str, s2: &'a str) -> (longer: &'a str)
    ensures
        s1.len() > s2.len() ==> longer@ == s1@,
        s1.len() <= s2.len() ==> longer@ == s2@,
{
    if s1.len() > s2.len() {
        s1
    } else {
        s2
    }
}

} // verus!
