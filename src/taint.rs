//! Resolved types and the analysis that finds floats inside aggregates.
//!
//! Types live in an arena (`TypeGraph`) and refer to each other by index,
//! which is also their identity. The graph may hold cycles.

use vstd::prelude::*;
use crate::syntax::Ident;

verus! {

/// Whether a type is defined in the program under analysis.
#[derive(Clone, Copy, Debug, PartialEq, Eq, Structural)]
pub enum Origin {
    Local,
    External,
}

/// A field of an aggregate: its name and the index of its type.
#[derive(Debug)]
pub struct Field {
    pub ident: Ident,
    pub ty: usize,
}

/// A resolved type. A type that could not be resolved is `Other`.
#[derive(Debug)]
pub enum ResolvedType {
    Float,
    Aggregate { ident: Option<Ident>, origin: Origin, fields: Vec<Field> },
    Other,
}

/// All resolved types of one analysis run; a type is named by its index.
#[derive(Debug)]
pub struct TypeGraph {
    pub types: Vec<ResolvedType>,
}

/// The number of unmarked entries of `m`.
pub open spec fn unmarked(m: Seq<bool>) -> nat
    decreases m.len(),
{
    if m.len() == 0 {
        0
    } else {
        unmarked(m.drop_last()) + if m.last() {
            0nat
        } else {
            1nat
        }
    }
}

/// Marking an unmarked entry leaves one unmarked entry fewer.
pub proof fn lemma_mark_one(m: Seq<bool>, i: int)
    requires
        0 <= i < m.len(),
        !m[i],
    ensures
        unmarked(m.update(i, true)) + 1 == unmarked(m),
    decreases m.len(),
{
    let u = m.update(i, true);
    if i == m.len() - 1 {
        assert(u.drop_last() =~= m.drop_last());
    } else {
        assert(u.drop_last() =~= m.drop_last().update(i, true));
        lemma_mark_one(m.drop_last(), i);
    }
}

/// Whether type `t` holds a float, walking only through local aggregates
/// and never entering a type marked in `m` (the types on the current path).
pub open spec fn tainted_under(g: Seq<ResolvedType>, t: int, m: Seq<bool>) -> bool
    decreases unmarked(m), 0int, 0int,
{
    if 0 <= t < g.len() && m.len() == g.len() && !m[t] {
        match g[t] {
            ResolvedType::Float => true,
            ResolvedType::Aggregate { origin, fields, .. } => {
                proof {
                    lemma_mark_one(m, t);
                }
                origin == Origin::Local && any_field_tainted(
                    g,
                    fields@,
                    fields@.len() as int,
                    m.update(t, true),
                )
            },
            ResolvedType::Other => false,
        }
    } else {
        false
    }
}

/// Whether one of the first `k` fields of `fields` has a tainted type.
pub open spec fn any_field_tainted(g: Seq<ResolvedType>, fields: Seq<Field>, k: int, m: Seq<bool>) -> bool
    decreases unmarked(m), 1int, k,
{
    if 0 < k <= fields.len() {
        any_field_tainted(g, fields, k - 1, m) || tainted_under(g, fields[k - 1].ty as int, m)
    } else {
        false
    }
}

/// The graph with no type marked.
pub open spec fn no_marks(n: nat) -> Seq<bool> {
    Seq::new(n, |i: int| false)
}

/// Whether type `t` of `g` holds a float, directly or through the fields of
/// local aggregates.
pub open spec fn float_tainted(g: Seq<ResolvedType>, t: int) -> bool {
    tainted_under(g, t, no_marks(g.len()))
}

/// `any_field_tainted` holds exactly when one of the first `k` fields has a
/// tainted type.
pub proof fn lemma_any_field(g: Seq<ResolvedType>, fields: Seq<Field>, k: int, m: Seq<bool>)
    requires
        0 <= k <= fields.len(),
    ensures
        any_field_tainted(g, fields, k, m) <==> exists|j: int|
            0 <= j < k && #[trigger] tainted_under(g, fields[j].ty as int, m),
    decreases k,
{
    if k > 0 {
        lemma_any_field(g, fields, k - 1, m);
        if tainted_under(g, fields[k - 1].ty as int, m) {
            assert(tainted_under(g, fields[k - 1].ty as int, m));
        }
    }
}

/// `b` is the type of a field of the local aggregate `a`.
pub open spec fn field_step(g: Seq<ResolvedType>, a: int, b: int) -> bool {
    0 <= a < g.len() && match g[a] {
        ResolvedType::Aggregate { origin, fields, .. } => origin == Origin::Local && exists|k: int|
            0 <= k < fields@.len() && #[trigger] fields@[k].ty as int == b,
        _ => false,
    }
}

/// `p` is a path from `p[0]` through fields of local aggregates that ends at
/// a float.
pub open spec fn float_path(g: Seq<ResolvedType>, p: Seq<int>) -> bool {
    &&& p.len() >= 1
    &&& forall|i: int| 0 <= i < p.len() ==> 0 <= #[trigger] p[i] < g.len()
    &&& g[p.last()] is Float
    &&& forall|i: int| 0 <= i < p.len() - 1 ==> #[trigger] field_step(g, p[i], p[i + 1])
}

/// No type on `p` is marked in `m`.
pub open spec fn avoids(p: Seq<int>, m: Seq<bool>) -> bool {
    forall|i: int| 0 <= i < p.len() ==> !m[#[trigger] p[i]]
}

/// A tainted type has a path to a float that avoids the marked types.
proof fn lemma_tainted_has_path(g: Seq<ResolvedType>, t: int, m: Seq<bool>)
    requires
        tainted_under(g, t, m),
    ensures
        exists|p: Seq<int>| float_path(g, p) && p[0] == t && avoids(p, m),
    decreases unmarked(m),
{
    match g[t] {
        ResolvedType::Float => {
            let p = seq![t];
            assert(float_path(g, p) && p[0] == t && avoids(p, m));
        },
        ResolvedType::Aggregate { origin, fields, .. } => {
            let m1 = m.update(t, true);
            lemma_mark_one(m, t);
            lemma_any_field(g, fields@, fields@.len() as int, m1);
            let j = choose|j: int|
                0 <= j < fields@.len() && #[trigger] tainted_under(g, fields@[j].ty as int, m1);
            lemma_tainted_has_path(g, fields@[j].ty as int, m1);
            let q = choose|q: Seq<int>|
                float_path(g, q) && q[0] == fields@[j].ty as int && avoids(q, m1);
            let p = seq![t] + q;
            assert(field_step(g, p[0], p[1]));
            assert forall|i: int| 0 <= i < p.len() - 1 implies #[trigger] field_step(g, p[i], p[i + 1]) by {
                if i > 0 {
                    let h = i - 1;
                    assert(field_step(g, q[h], q[h + 1]));
                    assert(p[i] == q[h] && p[i + 1] == q[h + 1]);
                }
            }
            assert forall|i: int| 0 <= i < p.len() implies !m[#[trigger] p[i]] by {
                if i > 0 {
                    assert(p[i] == q[i - 1]);
                    assert(!m1[q[i - 1]]);
                }
            }
            assert(p.last() == q.last());
            assert(float_path(g, p) && p[0] == t && avoids(p, m));
        },
        ResolvedType::Other => {},
    }
}

/// A path to a float that avoids the marked types makes its start tainted.
proof fn lemma_path_tainted(g: Seq<ResolvedType>, p: Seq<int>, m: Seq<bool>)
    requires
        float_path(g, p),
        m.len() == g.len(),
        avoids(p, m),
    ensures
        tainted_under(g, p[0], m),
    decreases p.len(),
{
    let t = p[0];
    if exists|k: int| 1 <= k < p.len() && p[k] == t {
        let k = choose|k: int| 1 <= k < p.len() && p[k] == t;
        let q = p.subrange(k, p.len() as int);
        assert forall|i: int| 0 <= i < q.len() - 1 implies #[trigger] field_step(g, q[i], q[i + 1]) by {
            assert(q[i] == p[i + k] && q[i + 1] == p[i + k + 1]);
        }
        assert forall|i: int| 0 <= i < q.len() implies 0 <= #[trigger] q[i] < g.len() && !m[q[i]] by {
            assert(q[i] == p[i + k]);
        }
        assert(q.last() == p.last());
        lemma_path_tainted(g, q, m);
    } else if p.len() == 1 {
        assert(p.last() == t);
    } else {
        let z: int = 0;
        assert(field_step(g, p[z], p[z + 1]));
        let m1 = m.update(t, true);
        let q = p.drop_first();
        assert forall|i: int| 0 <= i < q.len() - 1 implies #[trigger] field_step(g, q[i], q[i + 1]) by {
            assert(q[i] == p[i + 1] && q[i + 1] == p[i + 2]);
        }
        assert forall|i: int| 0 <= i < q.len() implies 0 <= #[trigger] q[i] < g.len() && !m1[q[i]] by {
            assert(q[i] == p[i + 1]);
            assert(p[i + 1] != t);
        }
        assert(q.last() == p.last());
        lemma_path_tainted(g, q, m1);
        match g[t] {
            ResolvedType::Aggregate { origin, fields, .. } => {
                let k = choose|k: int| 0 <= k < fields@.len() && #[trigger] fields@[k].ty as int == p[1];
                assert(tainted_under(g, fields@[k].ty as int, m1));
                lemma_any_field(g, fields@, fields@.len() as int, m1);
            },
            _ => {},
        }
    }
}

/// A type holds a float exactly when a path through the fields of local
/// aggregates leads from it to a float; an external aggregate holds none,
/// whatever its fields.
pub proof fn lemma_float_tainted_iff_path(g: &TypeGraph, t: usize)
    ensures
        float_tainted(g.types@, t as int) <==> exists|p: Seq<int>|
            float_path(g.types@, p) && p[0] == t as int,
        (t < g.types@.len() && g.types@[t as int] is Aggregate
            && g.types@[t as int]->Aggregate_origin == Origin::External)
            ==> !float_tainted(g.types@, t as int),
{
    let gs = g.types@;
    let m = no_marks(gs.len());
    if float_tainted(gs, t as int) {
        lemma_tainted_has_path(gs, t as int, m);
    }
    if exists|p: Seq<int>| float_path(gs, p) && p[0] == t as int {
        let p = choose|p: Seq<int>| float_path(gs, p) && p[0] == t as int;
        assert forall|i: int| 0 <= i < p.len() implies !m[#[trigger] p[i]] by {
            assert(0 <= p[i] < gs.len());
        }
        lemma_path_tainted(gs, p, m);
    }
}

/// A type that holds a float with some types marked holds one with none
/// marked.
pub proof fn lemma_tainted_unmarked(g: Seq<ResolvedType>, t: int, m: Seq<bool>)
    requires
        tainted_under(g, t, m),
    ensures
        float_tainted(g, t),
{
    lemma_tainted_has_path(g, t, m);
    let p = choose|p: Seq<int>| float_path(g, p) && p[0] == t && avoids(p, m);
    let none = no_marks(g.len());
    assert forall|i: int| 0 <= i < p.len() implies !none[#[trigger] p[i]] by {
        assert(0 <= p[i] < g.len());
    }
    lemma_path_tainted(g, p, none);
}

/// Whether `t` holds a float, never entering a type marked in `marks`.
/// `marks` is handed back as it came.
fn tainted_rec(g: &TypeGraph, t: usize, marks: &mut Vec<bool>) -> (r: bool)
    requires
        old(marks)@.len() == g.types@.len(),
    ensures
        final(marks)@ == old(marks)@,
        r == tainted_under(g.types@, t as int, old(marks)@),
    decreases unmarked(marks@),
{
    if t >= g.types.len() || marks[t] {
        return false;
    }
    match &g.types[t] {
        ResolvedType::Float => true,
        ResolvedType::Other => false,
        ResolvedType::Aggregate { origin, fields, .. } => {
            match origin {
                Origin::External => {
                    return false;
                },
                Origin::Local => {},
            }
            let ghost m0 = marks@;
            let ghost m1 = m0.update(t as int, true);
            proof {
                lemma_mark_one(m0, t as int);
            }
            marks.set(t, true);
            let mut i: usize = 0;
            while i < fields.len()
                invariant
                    i <= fields@.len(),
                    marks@ == m1,
                    t < g.types@.len(),
                    g.types@[t as int] is Aggregate,
                    g.types@[t as int]->Aggregate_fields == *fields,
                    g.types@[t as int]->Aggregate_origin == Origin::Local,
                    m0 == old(marks)@,
                    m0.len() == g.types@.len(),
                    !m0[t as int],
                    m1 == m0.update(t as int, true),
                    m1.len() == g.types@.len(),
                    unmarked(m1) < unmarked(m0),
                    !any_field_tainted(g.types@, fields@, i as int, m1),
                decreases fields.len() - i,
            {
                if tainted_rec(g, fields[i].ty, marks) {
                    proof {
                        lemma_any_field(g.types@, fields@, fields@.len() as int, m1);
                        assert(tainted_under(g.types@, fields@[i as int].ty as int, m1));
                    }
                    marks.set(t, false);
                    assert(marks@ =~= m0);
                    return true;
                }
                i += 1;
            }
            marks.set(t, false);
            assert(marks@ =~= m0);
            false
        },
    }
}

/// Whether type `t` holds a float: it is a float, or a local aggregate one
/// of whose fields has a type that holds a float. External aggregates are
/// never looked into. A type met again on the current path counts as
/// holding none, so the walk ends on every graph, cyclic or not. An index
/// outside the graph is an unresolved type and holds none.
pub fn is_float_tainted(g: &TypeGraph, t: usize) -> (r: bool)
    ensures
        r == float_tainted(g.types@, t as int),
{
    let mut marks: Vec<bool> = Vec::new();
    let mut i: usize = 0;
    while i < g.types.len()
        invariant
            i <= g.types@.len(),
            marks@ =~= no_marks(i as nat),
        decreases g.types.len() - i,
    {
        marks.push(false);
        i += 1;
    }
    tainted_rec(g, t, &mut marks)
}

} // verus!
