//! The lifetime-name rule: a lifetime named by a single letter says little
//! about what it is for.

use vstd::prelude::*;
use crate::findings::{views, Finding, FindingView, Label, RuleKind, Severity};
use crate::syntax::{GenericParam, GenericParamKind};

verus! {

/// What the rule reports on `param`: a named lifetime whose name, sigil
/// included, is at most two characters long.
pub open spec fn terse_lifetime_findings(param: GenericParam) -> Seq<FindingView> {
    if !param.ident.span.from_external_macro && param.kind == GenericParamKind::Lifetime
        && !param.is_placeholder && param.ident.name@.len() <= 2 {
        seq![
            FindingView {
                rule: RuleKind::LifetimeName,
                severity: Severity::Warn,
                span: param.ident.span,
                message: "single-character lifetime names are likely uninformative"@,
                primary_label: None,
                def_label: None,
                labels: seq![],
                note: None,
                help: Some("use a more informative name"@),
                suggestion: None,
            },
        ]
    } else {
        seq![]
    }
}

/// Reports a named lifetime parameter of one letter.
pub fn check_generic_param(param: &GenericParam) -> (r: Vec<Finding>)
    ensures
        views(r@) == terse_lifetime_findings(*param),
{
    if param.ident.span.from_external_macro || param.is_placeholder {
        let r: Vec<Finding> = Vec::new();
        assert(views(r@) =~= seq![]);
        return r;
    }
    match param.kind {
        GenericParamKind::Lifetime => {},
        _ => {
            let r: Vec<Finding> = Vec::new();
            assert(views(r@) =~= seq![]);
            return r;
        },
    }
    if param.ident.name.as_str().unicode_len() > 2 {
        let r: Vec<Finding> = Vec::new();
        assert(views(r@) =~= seq![]);
        return r;
    }
    let f = Finding {
        rule: RuleKind::LifetimeName,
        severity: Severity::Warn,
        span: param.ident.span,
        message: String::from_str("single-character lifetime names are likely uninformative"),
        primary_label: None,
        def_label: None,
        labels: Vec::new(),
        note: None,
        help: Some(String::from_str("use a more informative name")),
        suggestion: None,
    };
    assert(f.labels@.map_values(|l: Label| l@) =~= seq![]);
    let r = vec![f];
    assert(views(r@) =~= terse_lifetime_findings(*param));
    r
}

} // verus!
