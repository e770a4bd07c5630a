use patchmixolint::levels::{
    lint_level_declared, lint_level_declared_as, tool_lint_level_declared, tool_lint_level_declared_as,
};
use patchmixolint::syntax::{Attribute, CrateRoot, Span};
use patchmixolint::tokens::{Token, TokenTree};

fn id(name: &str) -> TokenTree {
    TokenTree::Leaf(Token::ident(name))
}

fn attr(name: &str, args: Option<Vec<TokenTree>>, lo: usize, hi: usize) -> Attribute {
    Attribute { name: name.to_string(), args, span: Span::new(lo, hi) }
}

fn root(attrs: Vec<Attribute>) -> CrateRoot {
    CrateRoot { span: Span::new(0, 1000), attrs }
}

#[test]
fn level_declared_at_any_level() {
    let k = root(vec![attr("deny", Some(vec![id("unsafe_code")]), 0, 22)]);
    assert!(lint_level_declared(&k, "unsafe_code"));
    assert!(!lint_level_declared(&k, "unused"));
}

#[test]
fn level_declared_as_given_levels() {
    let k = root(vec![attr("deny", Some(vec![id("unsafe_code")]), 0, 22)]);
    assert!(lint_level_declared_as(&k, "unsafe_code", &["deny", "forbid"]));
    assert!(!lint_level_declared_as(&k, "unsafe_code", &["allow"]));
    assert!(!lint_level_declared_as(&k, "unsafe_code", &[]));
}

#[test]
fn non_level_attribute_declares_nothing() {
    let k = root(vec![attr("feature", Some(vec![id("unsafe_code")]), 0, 22)]);
    assert!(!lint_level_declared(&k, "unsafe_code"));
}

#[test]
fn undelimited_arguments_declare_nothing() {
    let k = root(vec![attr("warn", None, 0, 10)]);
    assert!(!lint_level_declared(&k, "warn"));
    assert!(!tool_lint_level_declared(&k, "clippy", "foo"));
}

#[test]
fn tool_level_declared_among_other_lints() {
    let args = vec![
        id("dead_code"),
        TokenTree::Leaf(Token::comma()),
        id("clippy"),
        TokenTree::Leaf(Token::path_sep()),
        id("undocumented_unsafe_blocks"),
    ];
    let k = root(vec![attr("allow", Some(args), 0, 50)]);
    assert!(tool_lint_level_declared(&k, "clippy", "undocumented_unsafe_blocks"));
    assert!(tool_lint_level_declared_as(&k, "clippy", "undocumented_unsafe_blocks", &["allow"]));
    assert!(!tool_lint_level_declared_as(&k, "clippy", "undocumented_unsafe_blocks", &["forbid"]));
    assert!(!tool_lint_level_declared(&k, "rustdoc", "undocumented_unsafe_blocks"));
    assert!(lint_level_declared(&k, "dead_code"));
    assert!(lint_level_declared(&k, "undocumented_unsafe_blocks"));
}

#[test]
fn later_attribute_is_searched_too() {
    let k = root(vec![
        attr("feature", Some(vec![id("decl_macro")]), 0, 20),
        attr("warn", Some(vec![id("meta_variable_misuse")]), 21, 50),
    ]);
    assert!(lint_level_declared(&k, "meta_variable_misuse"));
    assert!(!lint_level_declared(&k, "decl_macro"));
}
