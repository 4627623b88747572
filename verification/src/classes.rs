//! The four classes into which every byte falls.

use vstd::prelude::*;

verus! {

/// The class of a byte. Every byte has exactly one.
#[derive(Clone, Copy, Debug, PartialEq, Eq, Structural)]
pub enum ByteClass {
    /// An ASCII letter from `A` to `Z`.
    Upper,
    /// An ASCII letter from `a` to `z`.
    Lower,
    /// An ASCII digit from `0` to `9`.
    Digit,
    /// Any other byte, ASCII or not.
    Other,
}

/// `b` is an ASCII letter from `A` to `Z`.
pub open spec fn is_upper(b: u8) -> bool {
    0x41 <= b <= 0x5a
}

/// `b` is an ASCII letter from `a` to `z`.
pub open spec fn is_lower(b: u8) -> bool {
    0x61 <= b <= 0x7a
}

/// `b` is an ASCII digit from `0` to `9`.
pub open spec fn is_digit(b: u8) -> bool {
    0x30 <= b <= 0x39
}

/// The class of `b`: the letter and digit ranges first, everything else is `Other`.
pub open spec fn class_of(b: u8) -> ByteClass {
    if is_upper(b) {
        ByteClass::Upper
    } else if is_lower(b) {
        ByteClass::Lower
    } else if is_digit(b) {
        ByteClass::Digit
    } else {
        ByteClass::Other
    }
}

/// Some byte of `s` has class `c`.
pub open spec fn contains_class(s: Seq<u8>, c: ByteClass) -> bool {
    exists|i: int| 0 <= i < s.len() && class_of(#[trigger] s[i]) == c
}

/// Classifies one byte.
pub fn classify(b: u8) -> (c: ByteClass)
    ensures
        c == class_of(b),
{
    if 0x41 <= b && b <= 0x5a {
        ByteClass::Upper
    } else if 0x61 <= b && b <= 0x7a {
        ByteClass::Lower
    } else if 0x30 <= b && b <= 0x39 {
        ByteClass::Digit
    } else {
        ByteClass::Other
    }
}

/// Searches `password` for a byte of class `c`.
pub fn has_class(password: &[u8], c: ByteClass) -> (found: bool)
    ensures
        found == contains_class(password@, c),
{
    let mut i: usize = 0;
    while i < password.len()
        invariant
            i <= password.len(),
            forall|j: int| 0 <= j < i ==> class_of(#[trigger] password@[j]) != c,
        decreases password.len() - i,
    {
        if classify(password[i]) == c {
            return true;
        }
        i = i + 1;
    }
    false
}

} // verus!
