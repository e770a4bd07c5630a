//! The rule registry: an ordered list of rules, each bound to one kind of
//! node, and the dispatcher that runs them over a node.

use vstd::prelude::*;
use crate::findings::{extend, opt_text, views, Finding, FindingView, RuleKind, Severity};
use crate::impl_eq_for_float::{self, eq_for_float_findings};
use crate::macro_rules_over_macro::{self, macro_rules_findings};
use crate::missing_lints::{self, lemma_missing_level_warns, missing_lint_findings};
use crate::syntax::{Context, CrateRoot, GenericParam, Item};
use crate::taint::TypeGraph;
use crate::terse_lifetime_name::{self, terse_lifetime_findings};

verus! {

/// A node that the traversal driver hands to the rules.
#[derive(Debug)]
pub enum Node {
    Item(Item),
    GenericParam(GenericParam),
    CrateRoot(CrateRoot),
    /// A trait impl together with the resolved types of its run.
    ResolvedItem(Item, TypeGraph),
}

/// What `rule` reports on `node`; nothing where the rule is bound to
/// another kind of node.
pub open spec fn rule_findings(rule: RuleKind, node: Node, ctx: Context) -> Seq<FindingView> {
    match rule {
        RuleKind::MacroStyle => match node {
            Node::Item(item) => macro_rules_findings(item, ctx.decl_macro),
            _ => seq![],
        },
        RuleKind::FloatEquality => match node {
            Node::ResolvedItem(item, types) => eq_for_float_findings(item, types.types@),
            _ => seq![],
        },
        RuleKind::LifetimeName => match node {
            Node::GenericParam(param) => terse_lifetime_findings(param),
            _ => seq![],
        },
        RuleKind::MissingLintLevel => match node {
            Node::CrateRoot(krate) => missing_lint_findings(krate, opt_text(ctx.crate_name)),
            _ => seq![],
        },
    }
}

/// The findings of `rules` on `node`: those of each rule, in registration
/// order.
pub open spec fn dispatch_findings(rules: Seq<RuleKind>, node: Node, ctx: Context) -> Seq<FindingView>
    decreases rules.len(),
{
    if rules.len() == 0 {
        seq![]
    } else {
        dispatch_findings(rules.drop_last(), node, ctx) + rule_findings(rules.last(), node, ctx)
    }
}

/// The rules of `rules` whose entry in `keep` is true, in order.
pub open spec fn select(rules: Seq<RuleKind>, keep: Seq<bool>) -> Seq<RuleKind>
    decreases rules.len(),
{
    if rules.len() == 0 || keep.len() != rules.len() {
        seq![]
    } else {
        select(rules.drop_last(), keep.drop_last()) + if keep.last() {
            seq![rules.last()]
        } else {
            seq![]
        }
    }
}

/// The findings that the rules of `rules` marked in `keep` produce, each
/// rule's as it produces them alone, in registration order.
pub open spec fn kept_findings(rules: Seq<RuleKind>, keep: Seq<bool>, node: Node, ctx: Context) -> Seq<FindingView>
    decreases rules.len(),
{
    if rules.len() == 0 || keep.len() != rules.len() {
        seq![]
    } else {
        kept_findings(rules.drop_last(), keep.drop_last(), node, ctx) + if keep.last() {
            dispatch_findings(seq![rules.last()], node, ctx)
        } else {
            seq![]
        }
    }
}

/// Running two lists of rules one after the other reports what each reports
/// alone, in that order.
pub proof fn lemma_dispatch_concat(a: Seq<RuleKind>, b: Seq<RuleKind>, node: Node, ctx: Context)
    ensures
        dispatch_findings(a + b, node, ctx) == dispatch_findings(a, node, ctx) + dispatch_findings(b, node, ctx),
    decreases b.len(),
{
    if b.len() == 0 {
        assert(a + b =~= a);
        assert(dispatch_findings(a, node, ctx) + dispatch_findings(b, node, ctx) =~= dispatch_findings(a, node, ctx));
    } else {
        assert((a + b).drop_last() =~= a + b.drop_last());
        assert((a + b).last() == b.last());
        lemma_dispatch_concat(a, b.drop_last(), node, ctx);
        assert(dispatch_findings(a + b, node, ctx) =~= dispatch_findings(a, node, ctx) + dispatch_findings(b, node, ctx));
    }
}

/// Rules are independent: whichever rules are removed from a registry, the
/// remaining ones report on a node exactly what each reports alone, in the
/// same order; keeping them all reports what the full registry reports.
pub proof fn lemma_rule_independence(rules: Seq<RuleKind>, keep: Seq<bool>, node: Node, ctx: Context)
    requires
        keep.len() == rules.len(),
    ensures
        dispatch_findings(select(rules, keep), node, ctx) == kept_findings(rules, keep, node, ctx),
        (forall|i: int| 0 <= i < keep.len() ==> #[trigger] keep[i]) ==> kept_findings(rules, keep, node, ctx)
            == dispatch_findings(rules, node, ctx),
    decreases rules.len(),
{
    if rules.len() > 0 {
        let r = rules.last();
        lemma_rule_independence(rules.drop_last(), keep.drop_last(), node, ctx);
        let tail = if keep.last() {
            seq![r]
        } else {
            seq![]
        };
        lemma_dispatch_concat(select(rules.drop_last(), keep.drop_last()), tail, node, ctx);
        assert(dispatch_findings(seq![r], node, ctx) =~= rule_findings(r, node, ctx)) by {
            assert(seq![r].drop_last() =~= Seq::<RuleKind>::empty());
            assert(seq![r].last() == r);
            assert(dispatch_findings(Seq::<RuleKind>::empty(), node, ctx) == Seq::<FindingView>::empty());
        }
        if !keep.last() {
            assert(dispatch_findings(tail, node, ctx) =~= seq![]);
        }
        if forall|i: int| 0 <= i < keep.len() ==> #[trigger] keep[i] {
            assert forall|i: int| 0 <= i < keep.drop_last().len() implies #[trigger] keep.drop_last()[i] by {
                assert(keep[i]);
            }
            assert(keep[keep.len() - 1]);
        }
    }
}

/// The severity at which each rule reports.
pub open spec fn severity_of(rule: RuleKind) -> Severity {
    match rule {
        RuleKind::FloatEquality => Severity::Deny,
        _ => Severity::Warn,
    }
}

/// Every finding is tagged with the rule that made it, at that rule's fixed
/// severity.
pub open spec fn tagged(s: Seq<FindingView>, rule: RuleKind) -> bool {
    forall|i: int| 0 <= i < s.len() ==> (#[trigger] s[i]).rule == rule && s[i].severity == severity_of(rule)
}

/// What one rule reports is tagged with that rule and its severity.
proof fn lemma_rule_tagged(rule: RuleKind, node: Node, ctx: Context)
    ensures
        tagged(rule_findings(rule, node, ctx), rule),
{
    match node {
        Node::CrateRoot(krate) => {
            lemma_missing_level_warns(krate, opt_text(ctx.crate_name));
        },
        _ => {},
    }
}

/// Whatever the registry, node and context, each finding carries the
/// severity fixed for the rule that reported it.
pub proof fn lemma_severity_fixed_per_rule(rules: Seq<RuleKind>, node: Node, ctx: Context)
    ensures
        forall|i: int| 0 <= i < dispatch_findings(rules, node, ctx).len() ==>
            (#[trigger] dispatch_findings(rules, node, ctx)[i]).severity
                == severity_of(dispatch_findings(rules, node, ctx)[i].rule),
    decreases rules.len(),
{
    if rules.len() > 0 {
        lemma_severity_fixed_per_rule(rules.drop_last(), node, ctx);
        lemma_rule_tagged(rules.last(), node, ctx);
        let a = dispatch_findings(rules.drop_last(), node, ctx);
        let b = rule_findings(rules.last(), node, ctx);
        assert forall|i: int| 0 <= i < (a + b).len() implies (#[trigger] (a + b)[i]).severity == severity_of((a + b)[i].rule) by {
            if i >= a.len() {
                assert((a + b)[i] == b[i - a.len()]);
            } else {
                assert((a + b)[i] == a[i]);
            }
        }
    }
}

/// The findings of one rule on a node.
fn run_rule(rule: RuleKind, node: &Node, ctx: &Context) -> (r: Vec<Finding>)
    ensures
        views(r@) == rule_findings(rule, *node, *ctx),
{
    let empty: Vec<Finding> = Vec::new();
    assert(views(empty@) =~= seq![]);
    match rule {
        RuleKind::MacroStyle => match node {
            Node::Item(item) => macro_rules_over_macro::check_item(item, ctx),
            _ => empty,
        },
        RuleKind::FloatEquality => match node {
            Node::ResolvedItem(item, types) => impl_eq_for_float::check_item(item, types),
            _ => empty,
        },
        RuleKind::LifetimeName => match node {
            Node::GenericParam(param) => terse_lifetime_name::check_generic_param(param),
            _ => empty,
        },
        RuleKind::MissingLintLevel => match node {
            Node::CrateRoot(krate) => missing_lints::check_crate(krate, ctx),
            _ => empty,
        },
    }
}

/// An ordered list of rules.
#[derive(Debug)]
pub struct Registry {
    pub rules: Vec<RuleKind>,
}

impl Registry {
    /// A registry with no rules.
    pub fn new() -> (r: Registry)
        ensures
            r.rules@ == Seq::<RuleKind>::empty(),
    {
        Registry { rules: Vec::new() }
    }

    /// Runs every rule on `node`, in registration order, and collects what
    /// they report.
    pub fn run(&self, node: &Node, ctx: &Context) -> (r: Vec<Finding>)
        ensures
            views(r@) == dispatch_findings(self.rules@, *node, *ctx),
    {
        let mut out: Vec<Finding> = Vec::new();
        let mut i: usize = 0;
        while i < self.rules.len()
            invariant
                i <= self.rules@.len(),
                views(out@) == dispatch_findings(self.rules@.subrange(0, i as int), *node, *ctx),
            decreases self.rules.len() - i,
        {
            let ghost sub = self.rules@.subrange(0, i + 1);
            assert(sub.drop_last() =~= self.rules@.subrange(0, i as int));
            let found = run_rule(self.rules[i], node, ctx);
            extend(&mut out, found);
            i += 1;
        }
        assert(self.rules@.subrange(0, i as int) =~= self.rules@);
        out
    }
}

/// Registers the four rules, in this order: macro style, missing lint
/// levels, lifetime names, float equality.
pub fn register_lints(registry: &mut Registry)
    ensures
        final(registry).rules@ == old(registry).rules@ + seq![
            RuleKind::MacroStyle,
            RuleKind::MissingLintLevel,
            RuleKind::LifetimeName,
            RuleKind::FloatEquality,
        ],
{
    registry.rules.push(RuleKind::MacroStyle);
    registry.rules.push(RuleKind::MissingLintLevel);
    registry.rules.push(RuleKind::LifetimeName);
    registry.rules.push(RuleKind::FloatEquality);
    assert(registry.rules@ =~= old(registry).rules@ + seq![
        RuleKind::MacroStyle,
        RuleKind::MissingLintLevel,
        RuleKind::LifetimeName,
        RuleKind::FloatEquality,
    ]);
}

} // verus!
