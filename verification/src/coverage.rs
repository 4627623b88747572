//! The coverage preset: one byte of every class, no length rule.

use vstd::prelude::*;
use crate::classes::{classify, class_of, contains_class, ByteClass};
use crate::policy::{satisfies, verdict, Criterion, Policy};

verus! {

/// `s` holds an upper-case letter, a lower-case letter, a digit and a byte
/// that is none of these.
pub open spec fn covers_all_classes(s: Seq<u8>) -> bool {
    &&& contains_class(s, ByteClass::Upper)
    &&& contains_class(s, ByteClass::Lower)
    &&& contains_class(s, ByteClass::Digit)
    &&& contains_class(s, ByteClass::Other)
}

/// Decides the coverage preset in one pass over `password`.
///
/// Any bytes are accepted, valid text or not; the verdict is `true` exactly
/// when all four classes occur.
pub fn is_valid(password: &[u8]) -> (ok: bool)
    ensures
        ok == covers_all_classes(password@),
{
    let mut lowercase = false;
    let mut uppercase = false;
    let mut numeric = false;
    let mut symbol = false;
    let mut i: usize = 0;
    while i < password.len()
        invariant
            i <= password.len(),
            uppercase == contains_class(password@.take(i as int), ByteClass::Upper),
            lowercase == contains_class(password@.take(i as int), ByteClass::Lower),
            numeric == contains_class(password@.take(i as int), ByteClass::Digit),
            symbol == contains_class(password@.take(i as int), ByteClass::Other),
        decreases password.len() - i,
    {
        proof {
            lemma_class_of_extension(password@, i as int, ByteClass::Upper);
            lemma_class_of_extension(password@, i as int, ByteClass::Lower);
            lemma_class_of_extension(password@, i as int, ByteClass::Digit);
            lemma_class_of_extension(password@, i as int, ByteClass::Other);
        }
        match classify(password[i]) {
            ByteClass::Upper => {
                uppercase = true;
            },
            ByteClass::Lower => {
                lowercase = true;
            },
            ByteClass::Digit => {
                numeric = true;
            },
            ByteClass::Other => {
                symbol = true;
            },
        }
        i = i + 1;
    }
    assert(password@.take(i as int) =~= password@);
    lowercase && uppercase && numeric && symbol
}

/// A prefix one byte longer holds class `c` exactly when the shorter prefix
/// does or the new byte has that class.
proof fn lemma_class_of_extension(s: Seq<u8>, i: int, c: ByteClass)
    requires
        0 <= i < s.len(),
    ensures
        contains_class(s.take(i + 1), c) == (contains_class(s.take(i), c) || class_of(s[i]) == c),
{
    let shorter = s.take(i);
    let longer = s.take(i + 1);
    if contains_class(shorter, c) {
        let k = choose|k: int| 0 <= k < shorter.len() && class_of(#[trigger] shorter[k]) == c;
        assert(longer[k] == shorter[k]);
    }
    if class_of(s[i]) == c {
        assert(longer[i] == s[i]);
    }
    if contains_class(longer, c) {
        let k = choose|k: int| 0 <= k < longer.len() && class_of(#[trigger] longer[k]) == c;
        if k < i {
            assert(shorter[k] == longer[k]);
        }
    }
}

/// The classes are pairwise distinct, so a password that covers all four has
/// at least four bytes; in particular the empty password is rejected.
pub proof fn coverage_needs_four_bytes(s: Seq<u8>)
    requires
        covers_all_classes(s),
    ensures
        s.len() >= 4,
{
    let a = choose|k: int| 0 <= k < s.len() && class_of(#[trigger] s[k]) == ByteClass::Upper;
    let b = choose|k: int| 0 <= k < s.len() && class_of(#[trigger] s[k]) == ByteClass::Lower;
    let c = choose|k: int| 0 <= k < s.len() && class_of(#[trigger] s[k]) == ByteClass::Digit;
    let d = choose|k: int| 0 <= k < s.len() && class_of(#[trigger] s[k]) == ByteClass::Other;
    assert(a != b && a != c && a != d && b != c && b != d && c != d);
}

/// The coverage preset as a list of criteria: one for each class.
pub open spec fn coverage_criteria() -> Seq<Criterion> {
    seq![
        Criterion::Class(ByteClass::Upper),
        Criterion::Class(ByteClass::Lower),
        Criterion::Class(ByteClass::Digit),
        Criterion::Class(ByteClass::Other),
    ]
}

/// Builds the coverage preset as a policy.
pub fn coverage_policy() -> (policy: Policy)
    ensures
        policy.criteria@ == coverage_criteria(),
{
    let criteria = vec![
        Criterion::Class(ByteClass::Upper),
        Criterion::Class(ByteClass::Lower),
        Criterion::Class(ByteClass::Digit),
        Criterion::Class(ByteClass::Other),
    ];
    assert(criteria@ =~= coverage_criteria());
    Policy { criteria }
}

/// The one-pass check and the coverage policy agree on every password.
pub proof fn coverage_agrees_with_policy(password: Seq<u8>)
    ensures
        covers_all_classes(password) == verdict(coverage_criteria(), password),
{
    let criteria = coverage_criteria();
    if verdict(criteria, password) {
        assert(satisfies(criteria[0], password));
        assert(satisfies(criteria[1], password));
        assert(satisfies(criteria[2], password));
        assert(satisfies(criteria[3], password));
    }
}

} // verus!
