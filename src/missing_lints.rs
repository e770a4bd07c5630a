//! The missing-lint-level rule: a crate root should declare the level of a
//! few lints that are allowed by default.

use vstd::prelude::*;
use crate::findings::{
    join3, opt_text, views, Applicability, Finding, FindingView, Label, RuleKind, Severity,
    Suggestion, SuggestionView,
};
use crate::levels::{
    all_levels, declared_as, lint_level_declared, lint_level_declared_as, texts,
    tool_declared_as, tool_lint_level_declared,
};
use crate::syntax::{Attribute, Context, CrateRoot, Span};

verus! {

/// The end of the last of `attrs`, or `start` if that lies further on.
pub open spec fn insertion_point(start: usize, attrs: Seq<Attribute>) -> usize
    decreases attrs.len(),
{
    if attrs.len() == 0 {
        start
    } else {
        let p = insertion_point(start, attrs.drop_last());
        if attrs.last().span.hi > p {
            attrs.last().span.hi
        } else {
            p
        }
    }
}

/// The empty span right after the crate root's inner attributes, or at the
/// crate's start when it has none.
pub open spec fn insertion_span(krate: CrateRoot) -> Span {
    let p = insertion_point(krate.span.lo, krate.attrs@);
    Span { lo: p, hi: p, from_external_macro: krate.span.from_external_macro }
}

/// The tail of the message that names the crate, where its name is known.
pub open spec fn location(crate_name: Option<Seq<char>>) -> Seq<char> {
    match crate_name {
        Some(c) => " in crate `"@ + c + "`"@,
        None => seq![],
    }
}

/// The finding for a lint `name` whose level `level` is recommended.
pub open spec fn missing_finding(
    name: Seq<char>,
    level: Seq<char>,
    at: Span,
    crate_name: Option<Seq<char>>,
) -> FindingView {
    FindingView {
        rule: RuleKind::MissingLintLevel,
        severity: Severity::Warn,
        span: at,
        message: "missing lint level for `"@ + name + "`"@ + location(crate_name),
        primary_label: None,
        def_label: None,
        labels: seq![],
        note: None,
        help: None,
        suggestion: Some(
            SuggestionView {
                span: at,
                msg: "declare the lint level explicitly"@,
                text: "\n#!["@ + level + "("@ + name + ")]"@,
                applicability: Applicability::MaybeIncorrect,
            },
        ),
    }
}

/// That finding if `missing`, else nothing.
pub open spec fn finding_if(
    missing: bool,
    name: Seq<char>,
    level: Seq<char>,
    at: Span,
    crate_name: Option<Seq<char>>,
) -> Seq<FindingView> {
    if missing {
        seq![missing_finding(name, level, at, crate_name)]
    } else {
        seq![]
    }
}

/// The name of the tool lint `tool::lint`.
pub open spec fn tool_lint_name(tool: Seq<char>, lint: Seq<char>) -> Seq<char> {
    tool + "::"@ + lint
}

/// What the rule reports on a crate root, in this order:
/// `meta_variable_misuse` (warn) always; `unsafe_op_in_unsafe_fn` (forbid)
/// and `clippy::undocumented_unsafe_blocks` (forbid) unless `unsafe_code` is
/// declared at deny or forbid; `unused_imports` (warn) and `unused_must_use`
/// (warn) if `unused` is declared at allow. Each only where the crate root
/// declares no level for that lint.
pub open spec fn missing_lint_findings(krate: CrateRoot, crate_name: Option<Seq<char>>) -> Seq<FindingView> {
    let attrs = krate.attrs@;
    let at = insertion_span(krate);
    finding_if(
        !declared_as(attrs, "meta_variable_misuse"@, all_levels()),
        "meta_variable_misuse"@,
        "warn"@,
        at,
        crate_name,
    ) + (if !declared_as(attrs, "unsafe_code"@, seq!["deny"@, "forbid"@]) {
        finding_if(
            !declared_as(attrs, "unsafe_op_in_unsafe_fn"@, all_levels()),
            "unsafe_op_in_unsafe_fn"@,
            "forbid"@,
            at,
            crate_name,
        ) + finding_if(
            !tool_declared_as(attrs, "clippy"@, "undocumented_unsafe_blocks"@, all_levels()),
            tool_lint_name("clippy"@, "undocumented_unsafe_blocks"@),
            "forbid"@,
            at,
            crate_name,
        )
    } else {
        seq![]
    }) + (if declared_as(attrs, "unused"@, seq!["allow"@]) {
        finding_if(
            !declared_as(attrs, "unused_imports"@, all_levels()),
            "unused_imports"@,
            "warn"@,
            at,
            crate_name,
        ) + finding_if(
            !declared_as(attrs, "unused_must_use"@, all_levels()),
            "unused_must_use"@,
            "warn"@,
            at,
            crate_name,
        )
    } else {
        seq![]
    })
}

/// Every finding of `s` comes from this rule, at warn level.
pub open spec fn all_missing_level(s: Seq<FindingView>) -> bool {
    forall|i: int| 0 <= i < s.len() ==> (#[trigger] s[i]).rule == RuleKind::MissingLintLevel
        && s[i].severity == Severity::Warn
}

proof fn lemma_concat_missing_level(a: Seq<FindingView>, b: Seq<FindingView>)
    requires
        all_missing_level(a),
        all_missing_level(b),
    ensures
        all_missing_level(a + b),
{
    assert forall|i: int| 0 <= i < (a + b).len() implies (#[trigger] (a + b)[i]).rule
        == RuleKind::MissingLintLevel && (a + b)[i].severity == Severity::Warn by {
        if i < a.len() {
            assert((a + b)[i] == a[i]);
        } else {
            assert((a + b)[i] == b[i - a.len()]);
        }
    }
}

/// Every finding of this rule is a warning of this rule.
pub proof fn lemma_missing_level_warns(krate: CrateRoot, crate_name: Option<Seq<char>>)
    ensures
        all_missing_level(missing_lint_findings(krate, crate_name)),
{
    let attrs = krate.attrs@;
    let at = insertion_span(krate);
    let f1 = finding_if(!declared_as(attrs, "meta_variable_misuse"@, all_levels()), "meta_variable_misuse"@, "warn"@, at, crate_name);
    let f2 = finding_if(!declared_as(attrs, "unsafe_op_in_unsafe_fn"@, all_levels()), "unsafe_op_in_unsafe_fn"@, "forbid"@, at, crate_name);
    let f3 = finding_if(
        !tool_declared_as(attrs, "clippy"@, "undocumented_unsafe_blocks"@, all_levels()),
        tool_lint_name("clippy"@, "undocumented_unsafe_blocks"@),
        "forbid"@,
        at,
        crate_name,
    );
    let f4 = finding_if(!declared_as(attrs, "unused_imports"@, all_levels()), "unused_imports"@, "warn"@, at, crate_name);
    let f5 = finding_if(!declared_as(attrs, "unused_must_use"@, all_levels()), "unused_must_use"@, "warn"@, at, crate_name);
    let e = Seq::<FindingView>::empty();
    assert(all_missing_level(e));
    assert(all_missing_level(f1));
    assert(all_missing_level(f2));
    assert(all_missing_level(f3));
    assert(all_missing_level(f4));
    assert(all_missing_level(f5));
    lemma_concat_missing_level(f2, f3);
    lemma_concat_missing_level(f4, f5);
    let g2 = if !declared_as(attrs, "unsafe_code"@, seq!["deny"@, "forbid"@]) { f2 + f3 } else { e };
    let g3 = if declared_as(attrs, "unused"@, seq!["allow"@]) { f4 + f5 } else { e };
    lemma_concat_missing_level(f1, g2);
    lemma_concat_missing_level(f1 + g2, g3);
    assert(missing_lint_findings(krate, crate_name) == f1 + g2 + g3);
}

/// The empty span where a new inner attribute is to be appended.
fn insertion_span_of(krate: &CrateRoot) -> (r: Span)
    ensures
        r == insertion_span(*krate),
{
    let mut p: usize = krate.span.lo;
    let mut i: usize = 0;
    while i < krate.attrs.len()
        invariant
            i <= krate.attrs@.len(),
            p == insertion_point(krate.span.lo, krate.attrs@.subrange(0, i as int)),
        decreases krate.attrs.len() - i,
    {
        assert(krate.attrs@.subrange(0, i + 1).drop_last() =~= krate.attrs@.subrange(0, i as int));
        if krate.attrs[i].span.hi > p {
            p = krate.attrs[i].span.hi;
        }
        i += 1;
    }
    assert(krate.attrs@.subrange(0, i as int) =~= krate.attrs@);
    Span { lo: p, hi: p, from_external_macro: krate.span.from_external_macro }
}

/// The finding for a lint `name` whose level `level` is recommended.
fn missing_level(name: &str, level: &str, at: Span, crate_name: &Option<String>) -> (r: Finding)
    ensures
        r@ == missing_finding(name@, level@, at, opt_text(*crate_name)),
{
    let mut message = join3("missing lint level for `", name, "`");
    match crate_name {
        Some(c) => {
            message.append(" in crate `");
            message.append(c.as_str());
            message.append("`");
        },
        None => {},
    }
    let mut text = join3("\n#![", level, "(");
    text.append(name);
    text.append(")]");
    let r = Finding {
        rule: RuleKind::MissingLintLevel,
        severity: Severity::Warn,
        span: at,
        message,
        primary_label: None,
        def_label: None,
        labels: Vec::new(),
        note: None,
        help: None,
        suggestion: Some(
            Suggestion {
                span: at,
                msg: String::from_str("declare the lint level explicitly"),
                text,
                applicability: Applicability::MaybeIncorrect,
            },
        ),
    };
    assert(r.labels@.map_values(|l: Label| l@) =~= seq![]);
    assert(r.message@ =~= missing_finding(name@, level@, at, opt_text(*crate_name)).message);
    assert(text@ =~= "\n#!["@ + level@ + "("@ + name@ + ")]"@);
    r
}

/// Appends the finding for `name` to `out` where `declared` is false.
fn push_if_missing(
    out: &mut Vec<Finding>,
    declared: bool,
    name: &str,
    level: &str,
    at: Span,
    crate_name: &Option<String>,
)
    ensures
        views(final(out)@) == views(old(out)@) + finding_if(
            !declared,
            name@,
            level@,
            at,
            opt_text(*crate_name),
        ),
{
    let ghost before = out@;
    if !declared {
        let f = missing_level(name, level, at, crate_name);
        out.push(f);
    }
    assert(views(out@) =~= views(before) + finding_if(!declared, name@, level@, at, opt_text(*crate_name)));
}

/// Reports each recommended lint level that the crate root does not declare,
/// with an edit that appends the declaration after its inner attributes.
pub fn check_crate(krate: &CrateRoot, ctx: &Context) -> (r: Vec<Finding>)
    ensures
        views(r@) == missing_lint_findings(*krate, opt_text(ctx.crate_name)),
{
    let at = insertion_span_of(krate);
    let cn = &ctx.crate_name;
    let mut out: Vec<Finding> = Vec::new();
    let d = lint_level_declared(krate, "meta_variable_misuse");
    push_if_missing(&mut out, d, "meta_variable_misuse", "warn", at, cn);

    let strict: [&str; 2] = ["deny", "forbid"];
    let unsafe_denied = lint_level_declared_as(krate, "unsafe_code", strict.as_slice());
    assert(texts(strict@) =~= seq!["deny"@, "forbid"@]);
    if !unsafe_denied {
        let d = lint_level_declared(krate, "unsafe_op_in_unsafe_fn");
        push_if_missing(&mut out, d, "unsafe_op_in_unsafe_fn", "forbid", at, cn);
        let d = tool_lint_level_declared(krate, "clippy", "undocumented_unsafe_blocks");
        let name = join3("clippy", "::", "undocumented_unsafe_blocks");
        push_if_missing(&mut out, d, name.as_str(), "forbid", at, cn);
    }

    let lax: [&str; 1] = ["allow"];
    let unused_allowed = lint_level_declared_as(krate, "unused", lax.as_slice());
    assert(texts(lax@) =~= seq!["allow"@]);
    if unused_allowed {
        let d = lint_level_declared(krate, "unused_imports");
        push_if_missing(&mut out, d, "unused_imports", "warn", at, cn);
        let d = lint_level_declared(krate, "unused_must_use");
        push_if_missing(&mut out, d, "unused_must_use", "warn", at, cn);
    }
    assert(views(out@) =~= missing_lint_findings(*krate, opt_text(ctx.crate_name)));
    out
}

} // verus!
