//! Policies as lists of criteria, and the standard preset.

use vstd::prelude::*;
use regex::bytes::Regex;
use crate::classes::{contains_class, has_class, ByteClass};
use crate::engine::{accepts, compile, compiled, is_match};

verus! {

/// One pass/fail rule over a password.
#[derive(Debug)]
pub enum Criterion {
    /// Some byte of the password has this class.
    Class(ByteClass),
    /// The compiled pattern matches somewhere in the password.
    Pattern(Regex),
    /// The password has at least this many bytes.
    MinLength(usize),
}

/// A list of criteria; a password is valid when it satisfies all of them.
/// Every list is a policy, the empty one included (it accepts everything).
#[derive(Debug)]
pub struct Policy {
    pub criteria: Vec<Criterion>,
}

/// Why a policy could not be built.
#[derive(Clone, Copy, Debug, PartialEq, Eq)]
pub enum PolicyError {
    /// The pattern at `index` does not compile; all patterns before it do.
    MalformedPattern { index: usize },
}

/// `password` satisfies the single criterion `c`.
pub open spec fn satisfies(c: Criterion, password: Seq<u8>) -> bool {
    match c {
        Criterion::Class(class) => contains_class(password, class),
        Criterion::Pattern(regex) => accepts(regex, password),
        Criterion::MinLength(min) => password.len() >= min,
    }
}

/// The outcome of each criterion on `password`, in the order of the list.
pub open spec fn outcomes_of(criteria: Seq<Criterion>, password: Seq<u8>) -> Seq<bool> {
    Seq::new(criteria.len(), |i: int| satisfies(criteria[i], password))
}

/// Every outcome is `true`.
pub open spec fn all_true(outcomes: Seq<bool>) -> bool {
    forall|i: int| 0 <= i < outcomes.len() ==> #[trigger] outcomes[i]
}

/// What a policy decides: `password` satisfies every criterion of the list.
pub open spec fn verdict(criteria: Seq<Criterion>, password: Seq<u8>) -> bool {
    forall|i: int| 0 <= i < criteria.len() ==> satisfies(#[trigger] criteria[i], password)
}

impl Criterion {
    /// Decides this one criterion on `password`.
    pub fn is_satisfied_by(&self, password: &[u8]) -> (ok: bool)
        ensures
            ok == satisfies(*self, password@),
    {
        match self {
            Criterion::Class(class) => has_class(password, *class),
            Criterion::Pattern(regex) => is_match(regex, password),
            Criterion::MinLength(min) => password.len() >= *min,
        }
    }
}

impl Policy {
    /// The criteria of this policy, in order.
    pub fn criteria(&self) -> (list: &Vec<Criterion>)
        ensures
            list@ == self.criteria@,
    {
        &self.criteria
    }

    /// Evaluates every criterion on `password`, without stopping at a
    /// failure, and returns the outcomes in the order of the list.
    pub fn outcomes(&self, password: &[u8]) -> (out: Vec<bool>)
        ensures
            out@ == outcomes_of(self.criteria@, password@),
    {
        let mut out: Vec<bool> = Vec::new();
        let mut i: usize = 0;
        while i < self.criteria.len()
            invariant
                i <= self.criteria.len(),
                out@ == outcomes_of(self.criteria@.take(i as int), password@),
            decreases self.criteria.len() - i,
        {
            let ok = self.criteria[i].is_satisfied_by(password);
            out.push(ok);
            i = i + 1;
            assert(out@ =~= outcomes_of(self.criteria@.take(i as int), password@));
        }
        assert(self.criteria@.take(i as int) =~= self.criteria@);
        out
    }
}

/// Folds outcomes with logical and: `true` exactly when none is `false`.
pub fn conjunction(outcomes: &[bool]) -> (all: bool)
    ensures
        all == all_true(outcomes@),
{
    let mut i: usize = 0;
    while i < outcomes.len()
        invariant
            i <= outcomes.len(),
            forall|j: int| 0 <= j < i ==> #[trigger] outcomes@[j],
        decreases outcomes.len() - i,
    {
        if !outcomes[i] {
            return false;
        }
        i = i + 1;
    }
    true
}

/// The outcomes of a list are all `true` exactly when its verdict is.
pub proof fn lemma_outcomes_decide_verdict(criteria: Seq<Criterion>, password: Seq<u8>)
    ensures
        all_true(outcomes_of(criteria, password)) == verdict(criteria, password),
{
    let outcomes = outcomes_of(criteria, password);
    if all_true(outcomes) {
        assert forall|i: int| 0 <= i < criteria.len() implies satisfies(
            #[trigger] criteria[i],
            password,
        ) by {
            assert(outcomes[i]);
        }
    }
}

/// The order of the criteria does not matter: two lists that hold the same
/// criteria, each as often as the other, give the same verdict.
pub proof fn verdict_ignores_order(a: Seq<Criterion>, b: Seq<Criterion>, password: Seq<u8>)
    requires
        a.to_multiset() == b.to_multiset(),
    ensures
        verdict(a, password) == verdict(b, password),
{
    a.to_multiset_ensures();
    b.to_multiset_ensures();
    if verdict(a, password) {
        assert forall|i: int| 0 <= i < b.len() implies satisfies(#[trigger] b[i], password) by {
            assert(b.contains(b[i]));
            assert(b.to_multiset().count(b[i]) > 0);
            assert(a.to_multiset().count(b[i]) > 0);
            assert(a.contains(b[i]));
        }
    }
    if verdict(b, password) {
        assert forall|i: int| 0 <= i < a.len() implies satisfies(#[trigger] a[i], password) by {
            assert(a.contains(a[i]));
            assert(a.to_multiset().count(a[i]) > 0);
            assert(b.to_multiset().count(a[i]) > 0);
            assert(b.contains(a[i]));
        }
    }
}

/// Applies `policy` to `password`.
///
/// Total on every byte sequence. The verdict is `true` exactly when every
/// criterion of the policy is satisfied, so equal inputs give equal verdicts.
pub fn evaluate(password: &[u8], policy: &Policy) -> (ok: bool)
    ensures
        ok == verdict(policy.criteria@, password@),
{
    let outcomes = policy.outcomes(password);
    proof {
        lemma_outcomes_decide_verdict(policy.criteria@, password@);
    }
    conjunction(outcomes.as_slice())
}

/// The pattern texts behind a list of string slices.
pub open spec fn sources(patterns: Seq<&str>) -> Seq<Seq<char>> {
    Seq::new(patterns.len(), |i: int| patterns[i]@)
}

/// Every pattern of the list compiles.
pub open spec fn all_compile(sources: Seq<Seq<char>>) -> bool {
    forall|i: int| 0 <= i < sources.len() ==> compiled(#[trigger] sources[i]) is Ok
}

/// `index` is the place of the first pattern of the list that does not compile.
pub open spec fn is_first_malformed(sources: Seq<Seq<char>>, index: int) -> bool {
    &&& 0 <= index < sources.len()
    &&& compiled(sources[index]) is Err
    &&& all_compile(sources.take(index))
}

/// The pattern criteria of a list of patterns that all compile, in order.
pub open spec fn pattern_criteria(sources: Seq<Seq<char>>) -> Seq<Criterion> {
    Seq::new(sources.len(), |i: int| Criterion::Pattern(compiled(sources[i])->Ok_0))
}

/// The criteria built from patterns and a minimum length: one pattern
/// criterion for each pattern, in order, then the length rule.
pub open spec fn criteria_for(sources: Seq<Seq<char>>, min_length: usize) -> Seq<Criterion> {
    pattern_criteria(sources).push(Criterion::MinLength(min_length))
}

impl Policy {
    /// Builds a policy from pattern texts and a minimum length.
    ///
    /// Succeeds exactly when every pattern compiles. Otherwise the error
    /// names the first pattern that does not, and nothing is built.
    pub fn from_patterns(patterns: &[&str], min_length: usize) -> (r: Result<Policy, PolicyError>)
        ensures
            r is Ok <==> all_compile(sources(patterns@)),
            match r {
                Ok(policy) => policy.criteria@ == criteria_for(sources(patterns@), min_length),
                Err(PolicyError::MalformedPattern { index }) => is_first_malformed(
                    sources(patterns@),
                    index as int,
                ),
            },
    {
        let ghost srcs = sources(patterns@);
        let mut criteria: Vec<Criterion> = Vec::new();
        let mut i: usize = 0;
        while i < patterns.len()
            invariant
                i <= patterns.len(),
                srcs == sources(patterns@),
                all_compile(srcs.take(i as int)),
                criteria@ == pattern_criteria(srcs.take(i as int)),
            decreases patterns.len() - i,
        {
            assert(srcs[i as int] == patterns@[i as int]@);
            match compile(patterns[i]) {
                Ok(regex) => {
                    criteria.push(Criterion::Pattern(regex));
                },
                Err(_) => {
                    return Err(PolicyError::MalformedPattern { index: i });
                },
            }
            proof {
                let before = srcs.take(i as int);
                let after = srcs.take(i + 1);
                assert forall|j: int| 0 <= j < after.len() implies compiled(
                    #[trigger] after[j],
                ) is Ok by {
                    if j < i {
                        assert(after[j] == before[j]);
                    }
                }
                assert(criteria@ =~= pattern_criteria(after));
            }
            i = i + 1;
        }
        assert(srcs.take(i as int) =~= srcs);
        criteria.push(Criterion::MinLength(min_length));
        Ok(Policy { criteria })
    }
}

/// The pattern of the standard preset for an upper-case ASCII letter.
pub const UPPERCASE_PATTERN: &'static str = ".*[A-Z].*";

/// The pattern of the standard preset for a lower-case ASCII letter.
pub const LOWERCASE_PATTERN: &'static str = ".*[a-z].*";

/// The pattern of the standard preset for an ASCII digit.
pub const DIGIT_PATTERN: &'static str = ".*[0-9].*";

/// The pattern of the standard preset for one of the listed symbols.
pub const SYMBOL_PATTERN: &'static str = ".*[-~!@#$%^&*_+=`|\\\\(){}\\[\\]:;'<>\",.?/].*";

/// The least number of bytes that the standard preset accepts.
pub const MIN_LENGTH: usize = 12;

/// The pattern texts of the standard preset, in order.
pub open spec fn standard_sources() -> Seq<Seq<char>> {
    seq![UPPERCASE_PATTERN@, LOWERCASE_PATTERN@, DIGIT_PATTERN@, SYMBOL_PATTERN@]
}

/// The criteria of the standard preset: the four patterns, then the length rule.
pub open spec fn standard_criteria() -> Seq<Criterion> {
    criteria_for(standard_sources(), MIN_LENGTH)
}

/// Builds the standard preset.
///
/// The preset is fixed, so every successful call yields the same criteria.
/// A pattern that does not compile is reported, never skipped.
pub fn create_password_regex() -> (r: Result<Policy, PolicyError>)
    ensures
        r is Ok <==> all_compile(standard_sources()),
        match r {
            Ok(policy) => policy.criteria@ == standard_criteria(),
            Err(PolicyError::MalformedPattern { index }) => is_first_malformed(
                standard_sources(),
                index as int,
            ),
        },
{
    let patterns: Vec<&str> = vec![
        UPPERCASE_PATTERN,
        LOWERCASE_PATTERN,
        DIGIT_PATTERN,
        SYMBOL_PATTERN,
    ];
    assert(sources(patterns@) =~= standard_sources());
    Policy::from_patterns(patterns.as_slice(), MIN_LENGTH)
}

/// Decides the standard preset on `b` with a policy built beforehand.
pub fn patterns_match(b: &[u8], patterns: &Policy) -> (ok: bool)
    ensures
        ok == verdict(patterns.criteria@, b@),
{
    evaluate(b, patterns)
}

/// Builds the standard preset and decides it on `password`.
///
/// The verdict is owed whenever the preset can be built; otherwise the
/// error of the construction is handed on.
pub fn is_valid_by_regex(password: &[u8]) -> (r: Result<bool, PolicyError>)
    ensures
        r is Ok <==> all_compile(standard_sources()),
        match r {
            Ok(ok) => ok == verdict(standard_criteria(), password@),
            Err(PolicyError::MalformedPattern { index }) => is_first_malformed(
                standard_sources(),
                index as int,
            ),
        },
{
    match create_password_regex() {
        Ok(policy) => Ok(patterns_match(password, &policy)),
        Err(e) => Err(e),
    }
}

/// Building the standard preset again changes nothing. Any two policies
/// that the construction can return decide every password alike.
pub proof fn construction_is_repeatable(first: Policy, second: Policy, password: Seq<u8>)
    requires
        first.criteria@ == standard_criteria(),
        second.criteria@ == standard_criteria(),
    ensures
        verdict(first.criteria@, password) == verdict(second.criteria@, password),
{
}

/// The standard preset accepts no password shorter than its minimum length;
/// in particular it rejects the empty password.
pub proof fn standard_preset_needs_min_length(password: Seq<u8>)
    requires
        verdict(standard_criteria(), password),
    ensures
        password.len() >= MIN_LENGTH,
{
    let criteria = standard_criteria();
    let last = criteria.len() - 1;
    assert(criteria[last] == Criterion::MinLength(MIN_LENGTH));
    assert(satisfies(criteria[last], password));
}

} // verus!
