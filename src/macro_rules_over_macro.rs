//! The macro-style rule: with the `decl_macro` feature enabled, a macro
//! defined by `macro_rules!` should be written with `macro`.

use vstd::prelude::*;
use crate::findings::{views, Applicability, Finding, FindingView, RuleKind, Severity, Suggestion, SuggestionView};
use crate::syntax::{Context, Item, ItemKind, Span};

verus! {

/// Whether `item` is a macro defined with `macro_rules!`.
pub open spec fn is_macro_rules(item: Item) -> bool {
    match item.kind {
        ItemKind::MacroDef { macro_rules } => macro_rules,
        _ => false,
    }
}

/// The span of `macro_rules!`: from the start of the item to the start of
/// the macro's name.
pub open spec fn keyword_span(item: Item) -> Span {
    Span {
        lo: item.span.lo,
        hi: if item.ident.span.lo >= item.span.lo {
            item.ident.span.lo
        } else {
            item.span.lo
        },
        from_external_macro: item.span.from_external_macro,
    }
}

/// What the rule reports on `item`.
pub open spec fn macro_rules_findings(item: Item, decl_macro: bool) -> Seq<FindingView> {
    if decl_macro && !item.span.from_external_macro && is_macro_rules(item) {
        seq![
            FindingView {
                rule: RuleKind::MacroStyle,
                severity: Severity::Warn,
                span: keyword_span(item),
                message: "`macro_rules!` was used, but the `decl_macro` feature is enabled"@,
                primary_label: None,
                def_label: None,
                labels: seq![],
                note: None,
                help: None,
                suggestion: Some(
                    SuggestionView {
                        span: keyword_span(item),
                        msg: "use"@,
                        text: "macro "@,
                        applicability: Applicability::MaybeIncorrect,
                    },
                ),
            },
        ]
    } else {
        seq![]
    }
}

/// Reports a `macro_rules!` definition, written in the program itself, when
/// the `decl_macro` feature is enabled, and suggests `macro` in its place.
pub fn check_item(item: &Item, ctx: &Context) -> (r: Vec<Finding>)
    ensures
        views(r@) == macro_rules_findings(*item, ctx.decl_macro),
{
    let uses_macro_rules = match &item.kind {
        ItemKind::MacroDef { macro_rules } => *macro_rules,
        _ => false,
    };
    if !ctx.decl_macro || item.span.from_external_macro || !uses_macro_rules {
        let r: Vec<Finding> = Vec::new();
        assert(views(r@) =~= seq![]);
        return r;
    }
    let hi = if item.ident.span.lo >= item.span.lo {
        item.ident.span.lo
    } else {
        item.span.lo
    };
    let kw = Span { lo: item.span.lo, hi, from_external_macro: item.span.from_external_macro };
    let f = Finding {
        rule: RuleKind::MacroStyle,
        severity: Severity::Warn,
        span: kw,
        message: String::from_str("`macro_rules!` was used, but the `decl_macro` feature is enabled"),
        primary_label: None,
        def_label: None,
        labels: Vec::new(),
        note: None,
        help: None,
        suggestion: Some(
            Suggestion {
                span: kw,
                msg: String::from_str("use"),
                text: String::from_str("macro "),
                applicability: Applicability::MaybeIncorrect,
            },
        ),
    };
    assert(f.labels@.map_values(|l: crate::findings::Label| l@) =~= seq![]);
    let r = vec![f];
    assert(views(r@) =~= macro_rules_findings(*item, ctx.decl_macro));
    r
}

} // verus!
