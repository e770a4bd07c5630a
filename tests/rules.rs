use patchmixolint::findings::{Applicability, RuleKind, Severity};
use patchmixolint::impl_eq_for_float;
use patchmixolint::macro_rules_over_macro;
use patchmixolint::missing_lints::check_crate;
use patchmixolint::syntax::{
    Attribute, Context, CrateRoot, GenericParam, GenericParamKind, Ident, Item, ItemKind, Span,
};
use patchmixolint::taint::{Field, Origin, ResolvedType, TypeGraph};
use patchmixolint::terse_lifetime_name::check_generic_param;
use patchmixolint::tokens::{Token, TokenTree};

fn ident_at(name: &str, lo: usize) -> Ident {
    Ident { name: name.to_string(), span: Span::new(lo, lo + name.len()) }
}

fn attr(name: &str, lint: &str, lo: usize, hi: usize) -> Attribute {
    Attribute {
        name: name.to_string(),
        args: Some(vec![TokenTree::Leaf(Token::ident(lint))]),
        span: Span::new(lo, hi),
    }
}

fn ctx(name: Option<&str>) -> Context {
    Context { decl_macro: false, crate_name: name.map(|n| n.to_string()) }
}

#[test]
fn deny_unsafe_code_leaves_only_meta_variable_misuse() {
    let k = CrateRoot { span: Span::new(0, 200), attrs: vec![attr("deny", "unsafe_code", 0, 22)] };
    let r = check_crate(&k, &ctx(None));
    assert_eq!(r.len(), 1);
    let f = &r[0];
    assert_eq!(f.rule, RuleKind::MissingLintLevel);
    assert_eq!(f.severity, Severity::Warn);
    assert_eq!(f.message, "missing lint level for `meta_variable_misuse`");
    assert_eq!(f.span, Span::new(22, 22));
    let s = f.suggestion.as_ref().unwrap();
    assert_eq!(s.text, "\n#![warn(meta_variable_misuse)]");
    assert_eq!(s.msg, "declare the lint level explicitly");
    assert_eq!(s.span, Span::new(22, 22));
    assert_eq!(s.applicability, Applicability::MaybeIncorrect);
}

#[test]
fn bare_crate_misses_three_levels() {
    let k = CrateRoot { span: Span::new(5, 200), attrs: vec![] };
    let r = check_crate(&k, &ctx(Some("demo")));
    assert_eq!(r.len(), 3);
    assert_eq!(r[0].message, "missing lint level for `meta_variable_misuse` in crate `demo`");
    assert_eq!(r[1].message, "missing lint level for `unsafe_op_in_unsafe_fn` in crate `demo`");
    assert_eq!(
        r[2].message,
        "missing lint level for `clippy::undocumented_unsafe_blocks` in crate `demo`"
    );
    assert_eq!(
        r[2].suggestion.as_ref().unwrap().text,
        "\n#![forbid(clippy::undocumented_unsafe_blocks)]"
    );
    assert_eq!(r[1].suggestion.as_ref().unwrap().text, "\n#![forbid(unsafe_op_in_unsafe_fn)]");
    for f in &r {
        assert_eq!(f.span, Span::new(5, 5));
    }
}

#[test]
fn allowed_unused_asks_for_two_more() {
    let k = CrateRoot {
        span: Span::new(0, 300),
        attrs: vec![attr("allow", "unused", 0, 17), attr("forbid", "unsafe_code", 18, 41)],
    };
    let r = check_crate(&k, &ctx(None));
    assert_eq!(r.len(), 3);
    assert_eq!(r[0].message, "missing lint level for `meta_variable_misuse`");
    assert_eq!(r[1].message, "missing lint level for `unused_imports`");
    assert_eq!(r[2].message, "missing lint level for `unused_must_use`");
    assert_eq!(r[2].suggestion.as_ref().unwrap().text, "\n#![warn(unused_must_use)]");
    assert_eq!(r[0].span, Span::new(41, 41));
}

#[test]
fn every_level_declared_reports_nothing() {
    let args = vec![
        TokenTree::Leaf(Token::ident("clippy")),
        TokenTree::Leaf(Token::path_sep()),
        TokenTree::Leaf(Token::ident("undocumented_unsafe_blocks")),
    ];
    let k = CrateRoot {
        span: Span::new(0, 300),
        attrs: vec![
            attr("warn", "meta_variable_misuse", 0, 10),
            attr("forbid", "unsafe_op_in_unsafe_fn", 11, 20),
            Attribute { name: "forbid".to_string(), args: Some(args), span: Span::new(21, 30) },
        ],
    };
    assert_eq!(check_crate(&k, &ctx(None)).len(), 0);
}

fn point_graph(origin: Origin, float_fields: bool) -> TypeGraph {
    let leaf = if float_fields { ResolvedType::Float } else { ResolvedType::Other };
    TypeGraph {
        types: vec![
            leaf,
            ResolvedType::Aggregate {
                ident: Some(ident_at("Point", 7)),
                origin,
                fields: vec![
                    Field { ident: ident_at("x", 20), ty: 0 },
                    Field { ident: ident_at("y", 30), ty: 0 },
                ],
            },
        ],
    }
}

fn impl_of(trait_name: &str, self_ty: usize) -> Item {
    Item {
        kind: ItemKind::TraitImpl { trait_path: vec![ident_at(trait_name, 105)], self_ty },
        ident: ident_at("", 100),
        span: Span::new(100, 125),
        attrs: vec![],
    }
}

#[test]
fn eq_for_point_of_floats_is_denied() {
    let g = point_graph(Origin::Local, true);
    let r = impl_eq_for_float::check_item(&impl_of("Eq", 1), &g);
    assert_eq!(r.len(), 1);
    let f = &r[0];
    assert_eq!(f.rule, RuleKind::FloatEquality);
    assert_eq!(f.severity, Severity::Deny);
    assert_eq!(f.span, Span::new(100, 125));
    assert_eq!(f.message, "`Eq` should not be implemented for types containing floats");
    assert_eq!(f.labels.len(), 2);
    assert_eq!(f.labels[0].text, "`x` is a float");
    assert_eq!(f.labels[0].span, Span::new(20, 21));
    assert_eq!(f.labels[1].text, "`y` is a float");
    assert_eq!(f.primary_label.as_deref(), Some("`Point` should not impl `Eq`"));
    let d = f.def_label.as_ref().unwrap();
    assert_eq!(d.text, "`Point` defined here");
    assert_eq!(d.span, Span::new(7, 12));
    assert_eq!(f.note.as_deref(), Some("floats do not implement `Eq` since `NaN` is not equal to itself"));
    assert_eq!(f.help.as_deref(), Some("consider using a crate such as `noisy_float` or `decorum`"));
    assert!(f.suggestion.is_none());
}

#[test]
fn eq_for_point_without_floats_passes() {
    let g = point_graph(Origin::Local, false);
    assert_eq!(impl_eq_for_float::check_item(&impl_of("Eq", 1), &g).len(), 0);
}

#[test]
fn eq_for_external_point_passes() {
    let g = point_graph(Origin::External, true);
    assert_eq!(impl_eq_for_float::check_item(&impl_of("Eq", 1), &g).len(), 0);
}

#[test]
fn partial_eq_for_point_passes() {
    let g = point_graph(Origin::Local, true);
    assert_eq!(impl_eq_for_float::check_item(&impl_of("PartialEq", 1), &g).len(), 0);
}

#[test]
fn eq_labels_only_tainted_fields() {
    let g = TypeGraph {
        types: vec![
            ResolvedType::Float,
            ResolvedType::Other,
            ResolvedType::Aggregate {
                ident: Some(ident_at("Inner", 3)),
                origin: Origin::Local,
                fields: vec![Field { ident: ident_at("v", 10), ty: 0 }],
            },
            ResolvedType::Aggregate {
                ident: Some(ident_at("Outer", 40)),
                origin: Origin::Local,
                fields: vec![
                    Field { ident: ident_at("count", 50), ty: 1 },
                    Field { ident: ident_at("inner", 60), ty: 2 },
                ],
            },
        ],
    };
    let r = impl_eq_for_float::check_item(&impl_of("Eq", 3), &g);
    assert_eq!(r.len(), 1);
    assert_eq!(r[0].labels.len(), 1);
    assert_eq!(r[0].labels[0].text, "`inner` is of type `Inner`, which contains a float");
    assert_eq!(r[0].labels[0].span, Span::new(60, 65));
}

#[test]
fn eq_inside_external_macro_passes() {
    let g = point_graph(Origin::Local, true);
    let mut item = impl_of("Eq", 1);
    item.span.from_external_macro = true;
    assert_eq!(impl_eq_for_float::check_item(&item, &g).len(), 0);
}

fn lifetime(name: &str, placeholder: bool) -> GenericParam {
    GenericParam { kind: GenericParamKind::Lifetime, ident: ident_at(name, 9), is_placeholder: placeholder }
}

#[test]
fn short_lifetime_names_are_reported() {
    let r = check_generic_param(&lifetime("'a", false));
    assert_eq!(r.len(), 1);
    assert_eq!(r[0].rule, RuleKind::LifetimeName);
    assert_eq!(r[0].severity, Severity::Warn);
    assert_eq!(r[0].span, Span::new(9, 11));
    assert_eq!(r[0].message, "single-character lifetime names are likely uninformative");
    assert_eq!(r[0].help.as_deref(), Some("use a more informative name"));
    assert!(r[0].suggestion.is_none());
    assert_eq!(check_generic_param(&lifetime("'", false)).len(), 1);
}

#[test]
fn longer_lifetime_names_pass() {
    assert_eq!(check_generic_param(&lifetime("'ab", false)).len(), 0);
    assert_eq!(check_generic_param(&lifetime("'src", false)).len(), 0);
}

#[test]
fn placeholder_lifetime_passes() {
    assert_eq!(check_generic_param(&lifetime("'_", true)).len(), 0);
}

#[test]
fn type_parameter_passes() {
    let p = GenericParam { kind: GenericParamKind::Type, ident: ident_at("T", 0), is_placeholder: false };
    assert_eq!(check_generic_param(&p).len(), 0);
}

#[test]
fn lifetime_from_external_macro_passes() {
    let mut p = lifetime("'a", false);
    p.ident.span.from_external_macro = true;
    assert_eq!(check_generic_param(&p).len(), 0);
}

fn macro_item(macro_rules: bool) -> Item {
    Item {
        kind: ItemKind::MacroDef { macro_rules },
        ident: ident_at("foo", 13),
        span: Span::new(0, 60),
        attrs: vec![],
    }
}

#[test]
fn macro_rules_with_decl_macro_is_reported() {
    let c = Context { decl_macro: true, crate_name: None };
    let r = macro_rules_over_macro::check_item(&macro_item(true), &c);
    assert_eq!(r.len(), 1);
    assert_eq!(r[0].rule, RuleKind::MacroStyle);
    assert_eq!(r[0].severity, Severity::Warn);
    assert_eq!(r[0].span, Span::new(0, 13));
    assert_eq!(r[0].message, "`macro_rules!` was used, but the `decl_macro` feature is enabled");
    let s = r[0].suggestion.as_ref().unwrap();
    assert_eq!(s.text, "macro ");
    assert_eq!(s.msg, "use");
    assert_eq!(s.span, Span::new(0, 13));
    assert_eq!(s.applicability, Applicability::MaybeIncorrect);
}

#[test]
fn macro_rules_without_decl_macro_passes() {
    let c = Context { decl_macro: false, crate_name: None };
    assert_eq!(macro_rules_over_macro::check_item(&macro_item(true), &c).len(), 0);
}

#[test]
fn decl_macro_definition_passes() {
    let c = Context { decl_macro: true, crate_name: None };
    assert_eq!(macro_rules_over_macro::check_item(&macro_item(false), &c).len(), 0);
}

#[test]
fn macro_rules_from_external_macro_passes() {
    let c = Context { decl_macro: true, crate_name: None };
    let mut item = macro_item(true);
    item.span.from_external_macro = true;
    assert_eq!(macro_rules_over_macro::check_item(&item, &c).len(), 0);
}
