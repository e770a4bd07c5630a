//! Queries on the lint levels that a crate root declares in its attributes.

use vstd::prelude::*;
use crate::syntax::{Attribute, CrateRoot};
use crate::tokens::{contains_identifier, contains_path, has_ident, has_path};

verus! {

/// The names of the four lint-level attributes.
pub open spec fn all_levels() -> Seq<Seq<char>> {
    seq!["allow"@, "warn"@, "deny"@, "forbid"@]
}

/// The texts of a slice of string slices.
pub open spec fn texts(levels: Seq<&str>) -> Seq<Seq<char>> {
    levels.map_values(|l: &str| l@)
}

/// `a` is one of the attributes `levels` whose delimited arguments name `lint`.
pub open spec fn declares(a: Attribute, lint: Seq<char>, levels: Seq<Seq<char>>) -> bool {
    levels.contains(a.name@) && match a.args {
        Some(ts) => has_ident(ts@, lint),
        None => false,
    }
}

/// `a` is one of the attributes `levels` whose delimited arguments hold the
/// path `tool::lint`.
pub open spec fn declares_tool(
    a: Attribute,
    tool: Seq<char>,
    lint: Seq<char>,
    levels: Seq<Seq<char>>,
) -> bool {
    levels.contains(a.name@) && match a.args {
        Some(ts) => has_path(ts@, tool, lint),
        None => false,
    }
}

/// Some attribute of `attrs` declares `lint` at one of `levels`.
pub open spec fn declared_as(attrs: Seq<Attribute>, lint: Seq<char>, levels: Seq<Seq<char>>) -> bool {
    exists|i: int| 0 <= i < attrs.len() && #[trigger] declares(attrs[i], lint, levels)
}

/// Some attribute of `attrs` declares `tool::lint` at one of `levels`.
pub open spec fn tool_declared_as(
    attrs: Seq<Attribute>,
    tool: Seq<char>,
    lint: Seq<char>,
    levels: Seq<Seq<char>>,
) -> bool {
    exists|i: int| 0 <= i < attrs.len() && #[trigger] declares_tool(attrs[i], tool, lint, levels)
}

/// Whether the attribute's name is one of `levels`.
fn has_level_name(attr: &Attribute, levels: &[&str]) -> (r: bool)
    ensures
        r == texts(levels@).contains(attr.name@),
{
    let mut j: usize = 0;
    while j < levels.len()
        invariant
            j <= levels@.len(),
            forall|k: int| 0 <= k < j ==> levels@[k]@ != attr.name@,
        decreases levels.len() - j,
    {
        let level = String::from_str(levels[j]);
        if attr.name == level {
            assert(texts(levels@)[j as int] == attr.name@);
            return true;
        }
        j += 1;
    }
    assert(!texts(levels@).contains(attr.name@)) by {
        if texts(levels@).contains(attr.name@) {
            let k = choose|k: int| 0 <= k < texts(levels@).len() && texts(levels@)[k] == attr.name@;
            assert(levels@[k]@ == attr.name@);
        }
    }
    false
}

/// Whether the crate root declares `lint` at any lint level.
pub fn lint_level_declared(krate: &CrateRoot, lint: &str) -> (r: bool)
    ensures
        r == declared_as(krate.attrs@, lint@, all_levels()),
{
    let levels: [&str; 4] = ["allow", "warn", "deny", "forbid"];
    let r = lint_level_declared_as(krate, lint, levels.as_slice());
    assert(texts(levels@) =~= all_levels());
    r
}

/// Whether the crate root declares `lint` at one of `levels`: some
/// attribute named by one of `levels` has the identifier `lint` among the
/// top-level tokens of its delimited arguments.
pub fn lint_level_declared_as(krate: &CrateRoot, lint: &str, levels: &[&str]) -> (r: bool)
    ensures
        r == declared_as(krate.attrs@, lint@, texts(levels@)),
{
    let mut i: usize = 0;
    while i < krate.attrs.len()
        invariant
            i <= krate.attrs@.len(),
            forall|k: int| 0 <= k < i ==> !#[trigger] declares(krate.attrs@[k], lint@, texts(levels@)),
        decreases krate.attrs.len() - i,
    {
        let attr = &krate.attrs[i];
        if has_level_name(attr, levels) {
            match &attr.args {
                Some(ts) => {
                    if contains_identifier(ts, lint) {
                        assert(declares(krate.attrs@[i as int], lint@, texts(levels@)));
                        return true;
                    }
                },
                None => {},
            }
        }
        i += 1;
    }
    false
}

/// Whether the crate root declares the tool lint `tool::lint` at any lint
/// level.
pub fn tool_lint_level_declared(krate: &CrateRoot, tool: &str, lint: &str) -> (r: bool)
    ensures
        r == tool_declared_as(krate.attrs@, tool@, lint@, all_levels()),
{
    let levels: [&str; 4] = ["allow", "warn", "deny", "forbid"];
    let r = tool_lint_level_declared_as(krate, tool, lint, levels.as_slice());
    assert(texts(levels@) =~= all_levels());
    r
}

/// Whether the crate root declares the tool lint `tool::lint` at one of
/// `levels`: some attribute named by one of `levels` has the three tokens
/// `tool :: lint` next to each other at the top level of its delimited
/// arguments.
pub fn tool_lint_level_declared_as(
    krate: &CrateRoot,
    tool: &str,
    lint: &str,
    levels: &[&str],
) -> (r: bool)
    ensures
        r == tool_declared_as(krate.attrs@, tool@, lint@, texts(levels@)),
{
    let mut i: usize = 0;
    while i < krate.attrs.len()
        invariant
            i <= krate.attrs@.len(),
            forall|k: int|
                0 <= k < i ==> !#[trigger] declares_tool(krate.attrs@[k], tool@, lint@, texts(levels@)),
        decreases krate.attrs.len() - i,
    {
        let attr = &krate.attrs[i];
        if has_level_name(attr, levels) {
            match &attr.args {
                Some(ts) => {
                    if contains_path(ts, tool, lint) {
                        assert(declares_tool(krate.attrs@[i as int], tool@, lint@, texts(levels@)));
                        return true;
                    }
                },
                None => {},
            }
        }
        i += 1;
    }
    false
}

} // verus!
