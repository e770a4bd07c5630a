//! The float-equality rule: `Eq` promises that every value equals itself,
//! which a float does not keep (`NaN != NaN`).

use vstd::prelude::*;
use crate::findings::{join3, views, Finding, FindingView, Label, LabelView, RuleKind, Severity};
use crate::syntax::{Ident, Item, ItemKind};
use crate::taint::{
    float_tainted, is_float_tainted, lemma_any_field, lemma_tainted_unmarked, no_marks,
    tainted_under, Field, ResolvedType, TypeGraph,
};

verus! {

/// The last segment of `path` is `Eq`.
pub open spec fn names_eq(path: Seq<Ident>) -> bool {
    path.len() > 0 && path.last().name@ == "Eq"@
}

/// The name of type `t`, where it is an aggregate that has one.
pub open spec fn type_ident(g: Seq<ResolvedType>, t: int) -> Option<Ident> {
    match g[t] {
        ResolvedType::Aggregate { ident, .. } => ident,
        _ => None,
    }
}

/// The fields of type `t`, where it is an aggregate.
pub open spec fn type_fields(g: Seq<ResolvedType>, t: int) -> Seq<Field> {
    match g[t] {
        ResolvedType::Aggregate { fields, .. } => fields@,
        _ => seq![],
    }
}

/// What a label says of a field whose type holds a float.
pub open spec fn field_label_text(g: Seq<ResolvedType>, f: Field) -> Seq<char> {
    match g[f.ty as int] {
        ResolvedType::Aggregate { ident, .. } => match ident {
            Some(n) => "`"@ + f.ident.name@ + "` is of type `"@ + n.name@ + "`, which contains a float"@,
            None => "`"@ + f.ident.name@ + "` is of a type that contains a float"@,
        },
        _ => "`"@ + f.ident.name@ + "` is a float"@,
    }
}

/// One label for each of `fields` whose type holds a float, in field order.
pub open spec fn tainted_field_labels(g: Seq<ResolvedType>, fields: Seq<Field>) -> Seq<LabelView>
    decreases fields.len(),
{
    if fields.len() == 0 {
        seq![]
    } else {
        tainted_field_labels(g, fields.drop_last()) + if float_tainted(g, fields.last().ty as int) {
            seq![LabelView { span: fields.last().ident.span, text: field_label_text(g, fields.last()) }]
        } else {
            seq![]
        }
    }
}

/// The finding on an `Eq` impl for type `t`.
pub open spec fn eq_for_float_finding(item: Item, g: Seq<ResolvedType>, t: int) -> FindingView {
    FindingView {
        rule: RuleKind::FloatEquality,
        severity: Severity::Deny,
        span: item.span,
        message: "`Eq` should not be implemented for types containing floats"@,
        primary_label: match type_ident(g, t) {
            Some(n) => Some("`"@ + n.name@ + "` should not impl `Eq`"@),
            None => None,
        },
        def_label: match type_ident(g, t) {
            Some(n) => Some(LabelView { span: n.span, text: "`"@ + n.name@ + "` defined here"@ }),
            None => None,
        },
        labels: tainted_field_labels(g, type_fields(g, t)),
        note: Some("floats do not implement `Eq` since `NaN` is not equal to itself"@),
        help: Some("consider using a crate such as `noisy_float` or `decorum`"@),
        suggestion: None,
    }
}

/// What the rule reports on `item`: an impl of `Eq`, written in the program
/// itself, for a type that holds a float.
pub open spec fn eq_for_float_findings(item: Item, g: Seq<ResolvedType>) -> Seq<FindingView> {
    match item.kind {
        ItemKind::TraitImpl { trait_path, self_ty } => {
            if !item.span.from_external_macro && names_eq(trait_path@) && float_tainted(g, self_ty as int) {
                seq![eq_for_float_finding(item, g, self_ty as int)]
            } else {
                seq![]
            }
        },
        _ => seq![],
    }
}

/// Where one of `fields` holds a float, some field gets a label.
proof fn lemma_some_label(g: Seq<ResolvedType>, fields: Seq<Field>, j: int)
    requires
        0 <= j < fields.len(),
        float_tainted(g, fields[j].ty as int),
    ensures
        tainted_field_labels(g, fields).len() > 0,
    decreases fields.len(),
{
    if j < fields.len() - 1 {
        assert(fields.drop_last()[j] == fields[j]);
        lemma_some_label(g, fields.drop_last(), j);
    }
}

/// An aggregate holds a float only through a field whose own type holds
/// one: the `Eq` finding on an aggregate labels at least one field.
pub proof fn lemma_tainted_aggregate_labels_field(g: &TypeGraph, t: usize)
    requires
        float_tainted(g.types@, t as int),
        g.types@[t as int] is Aggregate,
    ensures
        tainted_field_labels(g.types@, type_fields(g.types@, t as int)).len() > 0,
{
    let gs = g.types@;
    let m = no_marks(gs.len());
    let m1 = m.update(t as int, true);
    let fields = type_fields(gs, t as int);
    lemma_any_field(gs, fields, fields.len() as int, m1);
    let j = choose|j: int| 0 <= j < fields.len() && #[trigger] tainted_under(gs, fields[j].ty as int, m1);
    lemma_tainted_unmarked(gs, fields[j].ty as int, m1);
    lemma_some_label(gs, fields, j);
}

/// The label on a field whose type holds a float.
fn field_label(g: &TypeGraph, f: &Field) -> (r: Label)
    requires
        f.ty < g.types@.len(),
    ensures
        r@ == (LabelView { span: f.ident.span, text: field_label_text(g.types@, *f) }),
{
    let text = match &g.types[f.ty] {
        ResolvedType::Aggregate { ident, .. } => match ident {
            Some(n) => {
                let mut s = join3("`", f.ident.name.as_str(), "` is of type `");
                s.append(n.name.as_str());
                s.append("`, which contains a float");
                s
            },
            None => join3("`", f.ident.name.as_str(), "` is of a type that contains a float"),
        },
        _ => join3("`", f.ident.name.as_str(), "` is a float"),
    };
    proof {
        match g.types@[f.ty as int] {
            ResolvedType::Aggregate { ident, .. } => match ident {
                Some(n) => {
                    assert(text@ =~= field_label_text(g.types@, *f));
                },
                None => {},
            },
            _ => {},
        }
    }
    Label { span: f.ident.span, text }
}

/// The labels on the fields whose types hold a float, in field order.
fn tainted_labels(g: &TypeGraph, fields: &Vec<Field>) -> (r: Vec<Label>)
    ensures
        r@.map_values(|l: Label| l@) == tainted_field_labels(g.types@, fields@),
{
    let mut out: Vec<Label> = Vec::new();
    let mut i: usize = 0;
    while i < fields.len()
        invariant
            i <= fields@.len(),
            out@.map_values(|l: Label| l@) == tainted_field_labels(g.types@, fields@.subrange(0, i as int)),
        decreases fields.len() - i,
    {
        let ghost before = out@;
        let ghost sub = fields@.subrange(0, i + 1);
        assert(sub.drop_last() =~= fields@.subrange(0, i as int));
        assert(sub.last() == fields@[i as int]);
        if is_float_tainted(g, fields[i].ty) {
            let l = field_label(g, &fields[i]);
            out.push(l);
        }
        assert(out@.map_values(|l: Label| l@) =~= tainted_field_labels(g.types@, sub));
        i += 1;
    }
    assert(fields@.subrange(0, i as int) =~= fields@);
    out
}

/// Reports an impl of `Eq`, written in the program itself, for a type that
/// holds a float, with a label on each field whose type holds one.
pub fn check_item(item: &Item, types: &TypeGraph) -> (r: Vec<Finding>)
    ensures
        views(r@) == eq_for_float_findings(*item, types.types@),
{
    let empty: Vec<Finding> = Vec::new();
    assert(views(empty@) =~= seq![]);
    if item.span.from_external_macro {
        return empty;
    }
    let (trait_path, self_ty) = match &item.kind {
        ItemKind::TraitImpl { trait_path, self_ty } => (trait_path, *self_ty),
        _ => {
            return empty;
        },
    };
    if trait_path.len() == 0 {
        return empty;
    }
    let eq = String::from_str("Eq");
    if trait_path[trait_path.len() - 1].name != eq {
        return empty;
    }
    if !is_float_tainted(types, self_ty) {
        return empty;
    }
    let g = &types.types;
    let (primary_label, def_label, labels) = match &g[self_ty] {
        ResolvedType::Aggregate { ident, fields, .. } => {
            let labels = tainted_labels(types, fields);
            match ident {
                Some(n) => {
                    let p = join3("`", n.name.as_str(), "` should not impl `Eq`");
                    let d = join3("`", n.name.as_str(), "` defined here");
                    (Some(p), Some(Label { span: n.span, text: d }), labels)
                },
                None => (None, None, labels),
            }
        },
        _ => {
            let labels: Vec<Label> = Vec::new();
            assert(labels@.map_values(|l: Label| l@) =~= seq![]);
            (None, None, labels)
        },
    };
    let f = Finding {
        rule: RuleKind::FloatEquality,
        severity: Severity::Deny,
        span: item.span,
        message: String::from_str("`Eq` should not be implemented for types containing floats"),
        primary_label,
        def_label,
        labels,
        note: Some(String::from_str("floats do not implement `Eq` since `NaN` is not equal to itself")),
        help: Some(String::from_str("consider using a crate such as `noisy_float` or `decorum`")),
        suggestion: None,
    };
    assert(f@ == eq_for_float_finding(*item, types.types@, self_ty as int));
    let r = vec![f];
    assert(views(r@) =~= eq_for_float_findings(*item, types.types@));
    r
}

} // verus!
