//! Password-strength policies over raw bytes.
//!
//! Two presets are offered. The coverage preset accepts a password that holds
//! at least one byte of each of the four byte classes. The standard preset is
//! a list of criteria (four patterns and a minimum length) that must all hold.
//! Every verdict is a total, pure function of the bytes and the policy.

pub mod classes;
pub mod coverage;
pub mod engine;
pub mod policy;

pub use crate::classes::{classify, has_class, ByteClass};
pub use crate::coverage::{coverage_policy, is_valid};
pub use crate::policy::{
    conjunction, create_password_regex, evaluate, is_valid_by_regex, patterns_match, Criterion,
    Policy, PolicyError,
};
