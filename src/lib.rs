//! A rule engine that inspects syntactic and resolved program trees and
//! reports violations of a fixed set of hygiene policies.

pub mod tokens;
pub mod syntax;
pub mod levels;
pub mod taint;
pub mod findings;
pub mod macro_rules_over_macro;
pub mod terse_lifetime_name;
pub mod missing_lints;
pub mod impl_eq_for_float;
pub mod dispatch;

pub use dispatch::register_lints;
