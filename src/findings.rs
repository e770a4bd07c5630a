//! The records that rules emit, and their mathematical views.

use vstd::prelude::*;
use crate::syntax::Span;

verus! {

/// The rules of the engine.
#[derive(Clone, Copy, Debug, PartialEq, Eq, Structural)]
pub enum RuleKind {
    /// `macro_rules!` where `macro` is available.
    MacroStyle,
    /// `Eq` implemented for a type that holds a float.
    FloatEquality,
    /// A lifetime name of one letter.
    LifetimeName,
    /// A recommended lint level that the crate root does not declare.
    MissingLintLevel,
}

/// How severe a finding is; fixed per rule.
#[derive(Clone, Copy, Debug, PartialEq, Eq, Structural)]
pub enum Severity {
    Warn,
    Deny,
}

/// How safe it is to apply a suggested edit without looking.
#[derive(Clone, Copy, Debug, PartialEq, Eq, Structural)]
pub enum Applicability {
    MachineApplicable,
    MaybeIncorrect,
}

/// A text attached to a span.
#[derive(Debug)]
pub struct Label {
    pub span: Span,
    pub text: String,
}

/// A suggested edit: replace `span` by `text`; `msg` says what the edit does.
#[derive(Debug)]
pub struct Suggestion {
    pub span: Span,
    pub msg: String,
    pub text: String,
    pub applicability: Applicability,
}

/// One reported violation.
#[derive(Debug)]
pub struct Finding {
    pub rule: RuleKind,
    pub severity: Severity,
    pub span: Span,
    pub message: String,
    /// A label on the primary span.
    pub primary_label: Option<String>,
    /// A label on the definition site of the item concerned.
    pub def_label: Option<Label>,
    /// Secondary labels, in the order of the things they point at.
    pub labels: Vec<Label>,
    pub note: Option<String>,
    pub help: Option<String>,
    pub suggestion: Option<Suggestion>,
}

pub struct LabelView {
    pub span: Span,
    pub text: Seq<char>,
}

pub struct SuggestionView {
    pub span: Span,
    pub msg: Seq<char>,
    pub text: Seq<char>,
    pub applicability: Applicability,
}

pub struct FindingView {
    pub rule: RuleKind,
    pub severity: Severity,
    pub span: Span,
    pub message: Seq<char>,
    pub primary_label: Option<Seq<char>>,
    pub def_label: Option<LabelView>,
    pub labels: Seq<LabelView>,
    pub note: Option<Seq<char>>,
    pub help: Option<Seq<char>>,
    pub suggestion: Option<SuggestionView>,
}

/// The text of an optional string.
pub open spec fn opt_text(s: Option<String>) -> Option<Seq<char>> {
    match s {
        Some(t) => Some(t@),
        None => None,
    }
}

impl View for Label {
    type V = LabelView;

    open spec fn view(&self) -> LabelView {
        LabelView { span: self.span, text: self.text@ }
    }
}

impl View for Suggestion {
    type V = SuggestionView;

    open spec fn view(&self) -> SuggestionView {
        SuggestionView {
            span: self.span,
            msg: self.msg@,
            text: self.text@,
            applicability: self.applicability,
        }
    }
}

impl View for Finding {
    type V = FindingView;

    open spec fn view(&self) -> FindingView {
        FindingView {
            rule: self.rule,
            severity: self.severity,
            span: self.span,
            message: self.message@,
            primary_label: opt_text(self.primary_label),
            def_label: match self.def_label {
                Some(l) => Some(l@),
                None => None,
            },
            labels: self.labels@.map_values(|l: Label| l@),
            note: opt_text(self.note),
            help: opt_text(self.help),
            suggestion: match self.suggestion {
                Some(s) => Some(s@),
                None => None,
            },
        }
    }
}

/// The views of a sequence of findings.
pub open spec fn views(s: Seq<Finding>) -> Seq<FindingView> {
    s.map_values(|f: Finding| f@)
}

/// `s` followed by `t`, as strings.
pub fn join(s: &str, t: &str) -> (r: String)
    ensures
        r@ == s@ + t@,
{
    let mut r = String::from_str(s);
    r.append(t);
    r
}

/// The three strings one after the other.
pub fn join3(s: &str, t: &str, u: &str) -> (r: String)
    ensures
        r@ == s@ + t@ + u@,
{
    let mut r = String::from_str(s);
    r.append(t);
    r.append(u);
    r
}

/// Appends the findings of `more` to `out`, in order.
pub fn extend(out: &mut Vec<Finding>, more: Vec<Finding>)
    ensures
        views(final(out)@) == views(old(out)@) + views(more@),
{
    let mut more = more;
    let ghost a = out@;
    let ghost b = more@;
    out.append(&mut more);
    assert(out@ == a + b);
    assert(views(out@) =~= views(a) + views(b));
}

} // verus!
