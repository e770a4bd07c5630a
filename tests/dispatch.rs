use patchmixolint::dispatch::{register_lints, Node, Registry};
use patchmixolint::findings::{Finding, RuleKind};
use patchmixolint::syntax::{Attribute, Context, CrateRoot, GenericParam, GenericParamKind, Ident, Span};
use patchmixolint::tokens::{Token, TokenTree};

fn crate_node() -> Node {
    Node::CrateRoot(CrateRoot {
        span: Span::new(0, 100),
        attrs: vec![Attribute {
            name: "deny".to_string(),
            args: Some(vec![TokenTree::Leaf(Token::ident("unsafe_code"))]),
            span: Span::new(0, 22),
        }],
    })
}

fn summary(r: &[Finding]) -> Vec<(RuleKind, String, usize, usize)> {
    r.iter().map(|f| (f.rule, f.message.clone(), f.span.lo, f.span.hi)).collect()
}

#[test]
fn register_lints_in_order() {
    let mut reg = Registry::new();
    register_lints(&mut reg);
    assert_eq!(
        reg.rules,
        vec![RuleKind::MacroStyle, RuleKind::MissingLintLevel, RuleKind::LifetimeName, RuleKind::FloatEquality]
    );
}

#[test]
fn only_rules_of_the_node_kind_report() {
    let mut reg = Registry::new();
    register_lints(&mut reg);
    let c = Context { decl_macro: true, crate_name: None };
    let r = reg.run(&crate_node(), &c);
    assert_eq!(r.len(), 1);
    assert_eq!(r[0].rule, RuleKind::MissingLintLevel);
    let p = Node::GenericParam(GenericParam {
        kind: GenericParamKind::Lifetime,
        ident: Ident { name: "'a".to_string(), span: Span::new(3, 5) },
        is_placeholder: false,
    });
    let r = reg.run(&p, &c);
    assert_eq!(r.len(), 1);
    assert_eq!(r[0].rule, RuleKind::LifetimeName);
}

#[test]
fn removing_rules_keeps_the_rest_unchanged() {
    let c = Context { decl_macro: false, crate_name: Some("demo".to_string()) };
    let mut full = Registry::new();
    register_lints(&mut full);
    let all = summary(&full.run(&crate_node(), &c));
    let alone = Registry { rules: vec![RuleKind::MissingLintLevel] };
    assert_eq!(summary(&alone.run(&crate_node(), &c)), all);
    let without = Registry { rules: vec![RuleKind::MacroStyle, RuleKind::FloatEquality] };
    assert_eq!(without.run(&crate_node(), &c).len(), 0);
}

#[test]
fn duplicate_rule_reports_twice_in_order() {
    let c = Context { decl_macro: false, crate_name: None };
    let reg = Registry { rules: vec![RuleKind::MissingLintLevel, RuleKind::MissingLintLevel] };
    let once = summary(&Registry { rules: vec![RuleKind::MissingLintLevel] }.run(&crate_node(), &c));
    let twice = summary(&reg.run(&crate_node(), &c));
    let mut expected = once.clone();
    expected.extend(once);
    assert_eq!(twice, expected);
}

#[test]
fn empty_registry_reports_nothing() {
    let c = Context { decl_macro: true, crate_name: None };
    assert_eq!(Registry::new().run(&crate_node(), &c).len(), 0);
}
