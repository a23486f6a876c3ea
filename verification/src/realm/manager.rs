//! Decisions of the realm manager: the order in which a realm and the realms
//! it depends on are started, which mountpoints the running realms use, and
//! what becomes of a mountpoint that a realm released.
use vstd::prelude::*;

use crate::realmfs::activator::{
    Activation,
    ActivationState,
    mountpoints_view,
    spec_in_use,
    spec_is_mountpoint,
};
use crate::realmfs::mountpoint::Mountpoint;
use crate::error::Error;
use crate::text::str_eq;

verus! {

/// A realm as the start planner sees it: its name, whether it is running,
/// and the names of the realms it depends on.
pub struct StartNode {
    pub name: String,
    pub active: bool,
    pub depends: Vec<String>,
}

/// `i` is the first realm in `nodes` named `name`.
pub open spec fn is_first_named(nodes: Seq<StartNode>, name: Seq<char>, i: int) -> bool {
    &&& 0 <= i < nodes.len()
    &&& nodes[i].name@ == name
    &&& forall|k: int| 0 <= k < i ==> (#[trigger] nodes[k]).name@ != name
}

/// The realm that a name refers to: the first one of that name.
pub open spec fn spec_find(nodes: Seq<StartNode>, name: Seq<char>) -> Option<int> {
    if exists|i: int| is_first_named(nodes, name, i) {
        Some(choose|i: int| is_first_named(nodes, name, i))
    } else {
        None
    }
}

/// Realm `b` is named among the dependencies of realm `a`.
pub open spec fn is_dep(nodes: Seq<StartNode>, a: int, b: int) -> bool {
    exists|d: int|
        0 <= d < nodes[a].depends@.len() && spec_find(nodes, #[trigger] nodes[a].depends@[d]@)
            == Some(b)
}

/// Every stopped realm that `a` depends on is marked in `marked`.
pub open spec fn deps_marked(nodes: Seq<StartNode>, a: int, marked: Seq<bool>) -> bool {
    forall|j: int|
        0 <= j < nodes.len() && #[trigger] is_dep(nodes, a, j) && !nodes[j].active ==> marked[j]
}

/// Some later entry of `order` (before `end`) depends on the entry at `q`.
pub open spec fn has_parent_in(nodes: Seq<StartNode>, order: Seq<usize>, q: int, end: int) -> bool {
    exists|p: int| q < p < end && #[trigger] is_dep(nodes, order[p] as int, order[q] as int)
}

/// The dependency `name` is running, or marked, or names no realm.
pub open spec fn dep_handled(nodes: Seq<StartNode>, name: Seq<char>, marked: Seq<bool>) -> bool {
    match spec_find(nodes, name) {
        Some(j) => nodes[j].active || marked[j],
        None => true,
    }
}

/// The number of unmarked entries.
pub open spec fn count_false(s: Seq<bool>) -> nat
    decreases s.len(),
{
    if s.len() == 0 {
        0
    } else {
        count_false(s.drop_last()) + if s.last() {
            0nat
        } else {
            1nat
        }
    }
}

proof fn lemma_count_mark(s: Seq<bool>, i: int)
    requires
        0 <= i < s.len(),
        !s[i],
    ensures
        count_false(s.update(i, true)) + 1 == count_false(s),
    decreases s.len(),
{
    if i == s.len() - 1 {
        assert(s.update(i, true).drop_last() =~= s.drop_last());
    } else {
        assert(s.update(i, true).drop_last() =~= s.drop_last().update(i, true));
        lemma_count_mark(s.drop_last(), i);
    }
}

proof fn lemma_count_grow(s1: Seq<bool>, s2: Seq<bool>)
    requires
        s1.len() == s2.len(),
        forall|k: int| 0 <= k < s1.len() && s1[k] ==> s2[k],
    ensures
        count_false(s2) <= count_false(s1),
    decreases s1.len(),
{
    if s1.len() > 0 {
        lemma_count_grow(s1.drop_last(), s2.drop_last());
    }
}

proof fn lemma_deps_marked_grow(nodes: Seq<StartNode>, a: int, m1: Seq<bool>, m2: Seq<bool>)
    requires
        deps_marked(nodes, a, m1),
        forall|k: int| 0 <= k < nodes.len() && m1[k] ==> m2[k],
    ensures
        deps_marked(nodes, a, m2),
{
    assert forall|j: int|
        0 <= j < nodes.len() && #[trigger] is_dep(nodes, a, j) && !nodes[j].active implies m2[j] by {
        assert(m1[j]);
    }
}

/// `k` appears in `order`.
pub open spec fn pushed(order: Seq<usize>, k: int) -> bool {
    exists|p: int| 0 <= p < order.len() && order[p] == k
}

/// `k` appears in `order` before position `q`.
pub open spec fn pushed_before(order: Seq<usize>, k: int, q: int) -> bool {
    exists|p: int| 0 <= p < q && order[p] == k
}

/// Each realm of `path` depends on the next one.
pub open spec fn dep_chain(nodes: Seq<StartNode>, path: Seq<int>) -> bool {
    forall|k: int| #![trigger path[k]] 0 <= k < path.len() - 1 ==> is_dep(nodes, path[k], path[k + 1])
}

/// Realm `a` depends on realm `b`, directly or through other realms (or is `b`).
pub open spec fn reaches(nodes: Seq<StartNode>, a: int, b: int) -> bool {
    exists|path: Seq<int>|
        #![trigger dep_chain(nodes, path)]
        path.len() >= 1 && path[0] == a && path.last() == b && dep_chain(nodes, path)
}

/// Every stopped realm that the entries of `order` from `from` to `to`
/// depend on comes before them in `order`, unless it is itself reached
/// from the entry through its dependencies (a dependency cycle).
#[verifier::opaque]
pub open spec fn deps_first_range(nodes: Seq<StartNode>, order: Seq<usize>, from: int, to: int) -> bool {
    forall|q: int, j: int|
        from <= q < to && 0 <= j < nodes.len() && #[trigger] is_dep(nodes, order[q] as int, j)
            && !nodes[j].active ==> pushed_before(order, j, q) || reaches(nodes, j, order[q] as int)
}

/// What a dependency named `name` of realm `i` is when `i` is planned: running,
/// already planned, on a cycle through `i`, or no realm at all.
pub open spec fn dep_placed(nodes: Seq<StartNode>, name: Seq<char>, order: Seq<usize>, i: int) -> bool {
    match spec_find(nodes, name) {
        Some(j) => nodes[j].active || pushed(order, j) || reaches(nodes, j, i),
        None => true,
    }
}

proof fn lemma_reaches_refl(nodes: Seq<StartNode>, a: int)
    ensures
        reaches(nodes, a, a),
{
    let path = seq![a];
    assert(dep_chain(nodes, path));
}

proof fn lemma_reaches_step(nodes: Seq<StartNode>, a: int, b: int, c: int)
    requires
        reaches(nodes, a, b),
        is_dep(nodes, b, c),
    ensures
        reaches(nodes, a, c),
{
    let path = choose|path: Seq<int>|
        #![trigger dep_chain(nodes, path)]
        path.len() >= 1 && path[0] == a && path.last() == b && dep_chain(nodes, path);
    let p2 = path.push(c);
    assert(dep_chain(nodes, p2)) by {
        assert forall|k: int| #![trigger p2[k]] 0 <= k < p2.len() - 1 implies is_dep(nodes, p2[k], p2[k + 1]) by {
            if k < path.len() - 1 {
                assert(p2[k] == path[k]);
                assert(p2[k + 1] == path[k + 1]);
            } else {
                assert(p2[k] == b);
                assert(p2[k + 1] == c);
            }
        }
    }
    assert(p2[0] == a);
}

proof fn lemma_pushed_extend(o1: Seq<usize>, o2: Seq<usize>, k: int)
    requires
        o1.len() <= o2.len(),
        o2.subrange(0, o1.len() as int) == o1,
        pushed(o1, k),
    ensures
        pushed(o2, k),
        pushed_before(o2, k, o1.len() as int),
{
    let p = choose|p: int| 0 <= p < o1.len() && o1[p] == k;
    assert(o2.subrange(0, o1.len() as int)[p] == o2[p]);
}

proof fn lemma_deps_first_extend(nodes: Seq<StartNode>, o1: Seq<usize>, o2: Seq<usize>, from: int, to: int)
    requires
        0 <= from <= to <= o1.len() <= o2.len(),
        o2.subrange(0, o1.len() as int) == o1,
        deps_first_range(nodes, o1, from, to),
    ensures
        deps_first_range(nodes, o2, from, to),
{
    reveal(deps_first_range);
    assert forall|q: int, j: int|
        from <= q < to && 0 <= j < nodes.len() && #[trigger] is_dep(nodes, o2[q] as int, j)
            && !nodes[j].active implies pushed_before(o2, j, q) || reaches(nodes, j, o2[q] as int) by {
        assert(o2.subrange(0, o1.len() as int)[q] == o2[q]);
        assert(o1[q] == o2[q]);
        if pushed_before(o1, j, q) {
            let p = choose|p: int| 0 <= p < q && o1[p] == j;
            assert(o2.subrange(0, o1.len() as int)[p] == o2[p]);
        }
    }
}

proof fn lemma_deps_first_join(nodes: Seq<StartNode>, o: Seq<usize>, a: int, b: int, c: int)
    requires
        deps_first_range(nodes, o, a, b),
        deps_first_range(nodes, o, b, c),
    ensures
        deps_first_range(nodes, o, a, c),
{
    reveal(deps_first_range);
}

proof fn lemma_deps_first_empty(nodes: Seq<StartNode>, o: Seq<usize>, a: int)
    ensures
        deps_first_range(nodes, o, a, a),
{
    reveal(deps_first_range);
}

/// A realm marked as being planned but not yet in `order` is one that
/// depends, directly or not, on `i`: `i` itself, or one of the realms whose
/// planning led to `i`.
proof fn lemma_in_progress(
    nodes: Seq<StartNode>,
    st0: Seq<bool>,
    ord0: Seq<usize>,
    st: Seq<bool>,
    ord: Seq<usize>,
    base: int,
    i: int,
    k: int,
)
    requires
        0 <= k < nodes.len(),
        st.len() == nodes.len(),
        base == ord0.len(),
        base <= ord.len(),
        ord.subrange(0, base) == ord0,
        forall|m: int|
            0 <= m < nodes.len() ==> (#[trigger] st[m] <==> (st0[m] || m == i || exists|q: int|
                base <= q < ord.len() && ord[q] == m)),
        forall|m: int| 0 <= m < nodes.len() && st0[m] && !pushed(ord0, m) ==> reaches(nodes, m, i),
        st[k],
        !pushed(ord, k),
    ensures
        reaches(nodes, k, i),
{
    if k == i {
        lemma_reaches_refl(nodes, i);
    } else {
        assert(st[k]);
        if exists|q: int| base <= q < ord.len() && ord[q] == k {
            let q = choose|q: int| base <= q < ord.len() && ord[q] == k;
            assert(pushed(ord, k));
        }
        assert(st0[k]);
        if pushed(ord0, k) {
            lemma_pushed_extend(ord0, ord, k);
        }
    }
}

/// The first realm named `name`, if any.
pub fn find_node(nodes: &Vec<StartNode>, name: &str) -> (r: Option<usize>)
    ensures
        match r {
            Some(i) => spec_find(nodes@, name@) == Some(i as int),
            None => spec_find(nodes@, name@) is None,
        },
{
    let mut i: usize = 0;
    while i < nodes.len()
        invariant
            i <= nodes.len(),
            forall|k: int| 0 <= k < i ==> (#[trigger] nodes@[k]).name@ != name@,
        decreases nodes.len() - i,
    {
        if str_eq(nodes[i].name.as_str(), name) {
            assert(is_first_named(nodes@, name@, i as int));
            assert forall|x: int| is_first_named(nodes@, name@, x) implies x == i by {
                if x < i {
                    assert(nodes@[x].name@ != name@);
                } else if x > i {
                    assert(nodes@[i as int].name@ != name@);
                }
            }
            return Some(i);
        }
        i += 1;
    }
    assert forall|x: int| !is_first_named(nodes@, name@, x) by {
        if 0 <= x < nodes@.len() {
            assert(nodes@[x].name@ != name@);
        }
    }
    None
}

/// Plans the start of realm `i` (not yet marked): marks it, plans each of its
/// stopped, unmarked dependencies first, then appends `i` to `order`.
fn visit(nodes: &Vec<StartNode>, i: usize, starting: &mut Vec<bool>, order: &mut Vec<usize>)
    requires
        i < nodes.len(),
        old(starting)@.len() == nodes.len(),
        !old(starting)@[i as int],
        forall|k: int|
            0 <= k < nodes.len() && old(starting)@[k] && !pushed(old(order)@, k) ==> reaches(
                nodes@,
                k,
                i as int,
            ),
    ensures
        deps_first_range(nodes@, final(order)@, old(order)@.len() as int, final(order)@.len() as int),
        final(starting)@.len() == nodes.len(),
        final(order)@.len() > old(order)@.len(),
        final(order)@.subrange(0, old(order)@.len() as int) == old(order)@,
        final(order)@.last() == i,
        forall|q: int|
            old(order)@.len() <= q < final(order)@.len() ==> #[trigger] final(order)@[q]
                < nodes.len() && !old(starting)@[final(order)@[q] as int],
        forall|q1: int, q2: int|
            old(order)@.len() <= q1 < q2 < final(order)@.len() ==> #[trigger] final(order)@[q1]
                != #[trigger] final(order)@[q2],
        forall|k: int|
            0 <= k < nodes.len() ==> (#[trigger] final(starting)@[k] <==> (old(starting)@[k]
                || exists|q: int|
                old(order)@.len() <= q < final(order)@.len() && final(order)@[q] == k)),
        forall|q: int|
            old(order)@.len() <= q < final(order)@.len() - 1 ==> !nodes@[
                #[trigger] final(order)@[q] as int].active,
        forall|q: int|
            old(order)@.len() <= q < final(order)@.len() - 1 ==> #[trigger] has_parent_in(
                nodes@,
                final(order)@,
                q,
                final(order)@.len() as int,
            ),
        forall|q: int|
            old(order)@.len() <= q < final(order)@.len() ==> #[trigger] deps_marked(
                nodes@,
                final(order)@[q] as int,
                final(starting)@,
            ),
    decreases count_false(old(starting)@),
{
    let ghost st0 = starting@;
    let ghost ord0 = order@;
    let ghost base = order@.len() as int;
    starting.set(i, true);
    proof {
        lemma_count_mark(st0, i as int);
    }
    let n_deps = nodes[i].depends.len();
    let mut d: usize = 0;
    proof {
        lemma_deps_first_empty(nodes@, order@, base);
    }
    while d < n_deps
        invariant
            i < nodes.len(),
            n_deps == nodes@[i as int].depends@.len(),
            d <= n_deps,
            starting@.len() == nodes.len(),
            st0.len() == nodes.len(),
            st0 == old(starting)@,
            starting@[i as int],
            !st0[i as int],
            count_false(starting@) < count_false(st0),
            order@.len() >= base,
            ord0.len() == base,
            order@.subrange(0, base) == ord0,
            forall|k: int|
                0 <= k < nodes.len() && st0[k] && !pushed(ord0, k) ==> reaches(nodes@, k, i as int),
            deps_first_range(nodes@, order@, base, order@.len() as int),
            forall|dd: int|
                0 <= dd < d ==> dep_placed(
                    nodes@,
                    #[trigger] nodes@[i as int].depends@[dd]@,
                    order@,
                    i as int,
                ),
            forall|k: int|
                0 <= k < nodes.len() ==> (#[trigger] starting@[k] <==> (st0[k] || k == i
                    || exists|q: int| base <= q < order@.len() && order@[q] == k)),
            forall|q: int|
                base <= q < order@.len() ==> #[trigger] order@[q] < nodes.len() && !st0[order@[q] as int]
                    && order@[q] != i && !nodes@[order@[q] as int].active,
            forall|q1: int, q2: int|
                base <= q1 < q2 < order@.len() ==> #[trigger] order@[q1] != #[trigger] order@[q2],
            forall|q: int|
                base <= q < order@.len() ==> #[trigger] has_parent_in(
                    nodes@,
                    order@,
                    q,
                    order@.len() as int,
                ) || is_dep(nodes@, i as int, order@[q] as int),
            forall|q: int|
                base <= q < order@.len() ==> #[trigger] deps_marked(
                    nodes@,
                    order@[q] as int,
                    starting@,
                ),
            forall|dd: int|
                0 <= dd < d ==> dep_handled(
                    nodes@,
                    #[trigger] nodes@[i as int].depends@[dd]@,
                    starting@,
                ),
        decreases n_deps - d,
    {
        let found = find_node(nodes, nodes[i].depends[d].as_str());
        match found {
            Some(j) => {
                if !nodes[j].active && !starting[j] {
                    let ghost st1 = starting@;
                    let ghost ord1 = order@;
                    let ghost mid = order@.len() as int;
                    assert(count_false(starting@) < count_false(st0));
                    proof {
                        assert(is_dep(nodes@, i as int, j as int)) by {
                            assert(spec_find(nodes@, nodes@[i as int].depends@[d as int]@) == Some(
                                j as int,
                            ));
                        }
                        assert forall|k: int|
                            0 <= k < nodes.len() && starting@[k] && !pushed(order@, k) implies reaches(
                            nodes@,
                            k,
                            j as int,
                        ) by {
                            lemma_in_progress(nodes@, st0, ord0, starting@, order@, base, i as int, k);
                            lemma_reaches_step(nodes@, k, i as int, j as int);
                        }
                    }
                    visit(nodes, j, starting, order);
                    proof {
                        let st2 = starting@;
                        let ord2 = order@;
                        assert(ord2.subrange(0, mid) =~= ord1);
                        assert forall|q: int| 0 <= q < mid implies ord2[q] == ord1[q] by {
                            assert(ord2.subrange(0, mid)[q] == ord1[q]);
                        }
                        assert(mid >= base);
                        assert forall|q: int| 0 <= q < base implies ord2[q] == ord0[q] by {
                            assert(ord1.subrange(0, base)[q] == ord0[q]);
                        }
                        assert(ord2.subrange(0, base) =~= ord0);
                        assert forall|k: int| 0 <= k < nodes.len() && st1[k] implies st2[k] by {
                            assert(st2[k] <==> (st1[k] || exists|q: int|
                                mid <= q < ord2.len() && ord2[q] == k));
                        }
                        lemma_count_grow(st1, st2);
                        assert(is_dep(nodes@, i as int, j as int)) by {
                            assert(spec_find(nodes@, nodes@[i as int].depends@[d as int]@) == Some(
                                j as int,
                            ));
                        }
                        assert forall|k: int|
                            0 <= k < nodes.len() implies (#[trigger] st2[k] <==> (st0[k] || k == i
                                || exists|q: int| base <= q < ord2.len() && ord2[q] == k)) by {
                            if st2[k] {
                                if !st1[k] {
                                    let q = choose|q: int| mid <= q < ord2.len() && ord2[q] == k;
                                    assert(base <= q < ord2.len() && ord2[q] == k);
                                }
                            }
                            if exists|q: int| base <= q < ord2.len() && ord2[q] == k {
                                let q = choose|q: int| base <= q < ord2.len() && ord2[q] == k;
                                if q < mid {
                                    assert(ord2.subrange(0, mid)[q] == ord1[q]);
                                    assert(ord1[q] == k);
                                    assert(st1[k]);
                                } else {
                                    assert(mid <= q < ord2.len() && ord2[q] == k);
                                }
                            }
                        }
                        assert forall|q: int| base <= q < ord2.len() implies #[trigger] ord2[q]
                            < nodes.len() && !st0[ord2[q] as int] && ord2[q] != i
                            && !nodes@[ord2[q] as int].active by {
                            if q < mid {
                                assert(ord1[q] == ord2[q]);
                            } else {
                                assert(!st1[ord2[q] as int]);
                                if q < ord2.len() - 1 {
                                    assert(!nodes@[ord2[q] as int].active);
                                } else {
                                    assert(ord2[q] == j);
                                }
                            }
                        }
                        assert forall|q1: int, q2: int|
                            base <= q1 < q2 < ord2.len() implies #[trigger] ord2[q1]
                            != #[trigger] ord2[q2] by {
                            if q2 < mid {
                                assert(ord1[q1] != ord1[q2]);
                            } else if q1 < mid {
                                assert(ord1[q1] == ord2[q1]);
                                assert(st1[ord2[q1] as int]);
                                assert(!st1[ord2[q2] as int]);
                            }
                        }
                        assert forall|q: int| base <= q < ord2.len() implies #[trigger] has_parent_in(
                            nodes@,
                            ord2,
                            q,
                            ord2.len() as int,
                        ) || is_dep(nodes@, i as int, ord2[q] as int) by {
                            if q < mid {
                                assert(ord1[q] == ord2[q]);
                                if has_parent_in(nodes@, ord1, q, mid) {
                                    let p = choose|p: int|
                                        q < p < mid && #[trigger] is_dep(
                                            nodes@,
                                            ord1[p] as int,
                                            ord1[q] as int,
                                        );
                                    assert(ord1[p] == ord2[p]);
                                    assert(is_dep(nodes@, ord2[p] as int, ord2[q] as int));
                                }
                            } else if q == ord2.len() - 1 {
                                assert(ord2[q] == j);
                            } else {
                                assert(has_parent_in(nodes@, ord2, q, ord2.len() as int));
                            }
                        }
                        assert forall|q: int| base <= q < ord2.len() implies #[trigger] deps_marked(
                            nodes@,
                            ord2[q] as int,
                            st2,
                        ) by {
                            if q < mid {
                                assert(ord1[q] == ord2[q]);
                                assert(deps_marked(nodes@, ord1[q] as int, st1));
                                lemma_deps_marked_grow(nodes@, ord1[q] as int, st1, st2);
                            }
                        }
                        assert forall|dd: int| 0 <= dd <= d implies dep_handled(
                            nodes@,
                            #[trigger] nodes@[i as int].depends@[dd]@,
                            st2,
                        ) by {
                            if dd < d {
                                assert(dep_handled(nodes@, nodes@[i as int].depends@[dd]@, st1));
                            } else {
                                assert(ord2[ord2.len() - 1] == j);
                            }
                        }
                        lemma_deps_first_extend(nodes@, ord1, ord2, base, mid);
                        lemma_deps_first_join(nodes@, ord2, base, mid, ord2.len() as int);
                        assert forall|dd: int| 0 <= dd <= d implies dep_placed(
                            nodes@,
                            #[trigger] nodes@[i as int].depends@[dd]@,
                            ord2,
                            i as int,
                        ) by {
                            if dd < d {
                                assert(dep_placed(nodes@, nodes@[i as int].depends@[dd]@, ord1, i as int));
                                match spec_find(nodes@, nodes@[i as int].depends@[dd]@) {
                                    Some(jj) => {
                                        if pushed(ord1, jj) {
                                            lemma_pushed_extend(ord1, ord2, jj);
                                        }
                                    },
                                    None => {},
                                }
                            } else {
                                assert(ord2[ord2.len() - 1] == j);
                                assert(pushed(ord2, j as int));
                            }
                        }
                    }
                } else {
                    proof {
                        if !nodes@[j as int].active {
                            assert(starting@[j as int]);
                            if !pushed(order@, j as int) {
                                lemma_in_progress(nodes@, st0, ord0, starting@, order@, base, i as int, j as int);
                            }
                        }
                        assert(dep_placed(nodes@, nodes@[i as int].depends@[d as int]@, order@, i as int));
                    }
                }
            },
            None => {
                assert(dep_placed(nodes@, nodes@[i as int].depends@[d as int]@, order@, i as int));
            },
        }
        d += 1;
    }
    let ghost st3 = starting@;
    let ghost ord3 = order@;
    let ghost top = order@.len() as int;
    order.push(i);
    proof {
        let ord4 = order@;
        assert(ord4.subrange(0, top) =~= ord3);
        lemma_deps_first_extend(nodes@, ord3, ord4, base, top);
        assert(deps_first_range(nodes@, ord4, top, top + 1)) by {
            reveal(deps_first_range);
            assert forall|q: int, j: int|
                top <= q < top + 1 && 0 <= j < nodes.len() && #[trigger] is_dep(nodes@, ord4[q] as int, j)
                    && !nodes@[j].active implies pushed_before(ord4, j, q) || reaches(
                nodes@,
                j,
                ord4[q] as int,
            ) by {
                assert(ord4[q] == i);
                let dd = choose|dd: int|
                    0 <= dd < nodes@[i as int].depends@.len() && spec_find(
                        nodes@,
                        #[trigger] nodes@[i as int].depends@[dd]@,
                    ) == Some(j);
                assert(dep_placed(nodes@, nodes@[i as int].depends@[dd]@, ord3, i as int));
                if pushed(ord3, j) {
                    lemma_pushed_extend(ord3, ord4, j);
                }
            }
        }
        lemma_deps_first_join(nodes@, ord4, base, top, top + 1);
        assert forall|q: int| 0 <= q < top implies ord4[q] == ord3[q] by {}
        assert(ord4.subrange(0, base) =~= ord0) by {
            assert forall|q: int| 0 <= q < base implies ord4[q] == ord0[q] by {
                assert(ord3.subrange(0, base)[q] == ord0[q]);
            }
        }
        assert(deps_marked(nodes@, i as int, st3)) by {
            assert forall|j: int|
                0 <= j < nodes.len() && #[trigger] is_dep(nodes@, i as int, j)
                    && !nodes@[j].active implies st3[j] by {
                let dd = choose|dd: int|
                    0 <= dd < nodes@[i as int].depends@.len() && spec_find(
                        nodes@,
                        #[trigger] nodes@[i as int].depends@[dd]@,
                    ) == Some(j);
                assert(dep_handled(nodes@, nodes@[i as int].depends@[dd]@, st3));
            }
        }
        assert forall|k: int|
            0 <= k < nodes.len() implies (#[trigger] st3[k] <==> (st0[k] || exists|q: int|
                base <= q < ord4.len() && ord4[q] == k)) by {
            if k == i {
                assert(ord4[top] == k);
            }
            if exists|q: int| base <= q < top && ord3[q] == k {
                let q = choose|q: int| base <= q < top && ord3[q] == k;
                assert(ord4[q] == k);
            }
            if exists|q: int| base <= q < ord4.len() && ord4[q] == k {
                let q = choose|q: int| base <= q < ord4.len() && ord4[q] == k;
                if q < top {
                    assert(ord3[q] == k);
                }
            }
        }
        assert forall|q: int| base <= q < ord4.len() - 1 implies #[trigger] has_parent_in(
            nodes@,
            ord4,
            q,
            ord4.len() as int,
        ) by {
            assert(ord4[q] == ord3[q]);
            if has_parent_in(nodes@, ord3, q, top) {
                let p = choose|p: int|
                    q < p < top && #[trigger] is_dep(nodes@, ord3[p] as int, ord3[q] as int);
                assert(ord4[p] == ord3[p]);
                assert(is_dep(nodes@, ord4[p] as int, ord4[q] as int));
            } else {
                assert(ord4[top] == i);
                assert(is_dep(nodes@, ord4[top] as int, ord4[q] as int));
            }
        }
        assert forall|q1: int, q2: int|
            base <= q1 < q2 < ord4.len() implies #[trigger] ord4[q1] != #[trigger] ord4[q2] by {
            if q2 < top {
                assert(ord3[q1] != ord3[q2]);
            } else {
                assert(ord3[q1] != i);
            }
        }
        assert forall|q: int| base <= q < ord4.len() implies #[trigger] deps_marked(
            nodes@,
            ord4[q] as int,
            st3,
        ) by {
            if q < top {
                assert(ord4[q] == ord3[q]);
            }
        }
        assert forall|q: int| base <= q < ord4.len() implies #[trigger] ord4[q] < nodes.len()
            && !st0[ord4[q] as int] by {
            if q < top {
                assert(ord4[q] == ord3[q]);
            }
        }
        assert forall|q: int| base <= q < ord4.len() - 1 implies !nodes@[
            #[trigger] ord4[q] as int].active by {
            assert(ord4[q] == ord3[q]);
        }
    }
}

/// The order in which to start realm `target` and the realms it depends on.
///
/// The plan ends with `target`; each realm in it appears once; every other
/// realm in it is stopped and is a dependency of a realm planned after it;
/// every stopped realm that a planned realm depends on is planned too, and
/// before that realm, unless the two are on a dependency cycle (the
/// dependency itself depends, directly or not, on the realm). A dependency
/// that names no realm is passed over.
pub fn start_order(nodes: &Vec<StartNode>, target: usize) -> (r: Vec<usize>)
    requires
        target < nodes.len(),
    ensures
        r@.len() >= 1,
        r@.last() == target,
        forall|q: int| 0 <= q < r@.len() ==> #[trigger] r@[q] < nodes.len(),
        forall|q1: int, q2: int| 0 <= q1 < q2 < r@.len() ==> #[trigger] r@[q1] != #[trigger] r@[q2],
        forall|q: int| 0 <= q < r@.len() - 1 ==> !nodes@[#[trigger] r@[q] as int].active,
        forall|q: int|
            0 <= q < r@.len() - 1 ==> #[trigger] has_parent_in(nodes@, r@, q, r@.len() as int),
        forall|q: int, j: int|
            0 <= q < r@.len() && 0 <= j < nodes.len() && #[trigger] is_dep(nodes@, r@[q] as int, j)
                && !nodes@[j].active ==> exists|q2: int| 0 <= q2 < r@.len() && r@[q2] == j,
        forall|q: int, j: int|
            0 <= q < r@.len() && 0 <= j < nodes.len() && #[trigger] is_dep(nodes@, r@[q] as int, j)
                && !nodes@[j].active ==> pushed_before(r@, j, q) || reaches(nodes@, j, r@[q] as int),
{
    let mut starting: Vec<bool> = Vec::new();
    let n = nodes.len();
    while starting.len() < n
        invariant
            n == nodes.len(),
            starting@.len() <= n,
            forall|k: int| 0 <= k < starting@.len() ==> !(#[trigger] starting@[k]),
        decreases n - starting@.len(),
    {
        starting.push(false);
    }
    let ghost st0 = starting@;
    let mut order: Vec<usize> = Vec::new();
    visit(nodes, target, &mut starting, &mut order);
    proof {
        reveal(deps_first_range);
        assert forall|q: int, j: int|
            0 <= q < order@.len() && 0 <= j < nodes.len() && #[trigger] is_dep(
                nodes@,
                order@[q] as int,
                j,
            ) && !nodes@[j].active implies exists|q2: int| 0 <= q2 < order@.len() && order@[q2] == j by {
            assert(deps_marked(nodes@, order@[q] as int, starting@));
            assert(starting@[j]);
            assert(!st0[j]);
        }
    }
    order
}

/// `o` holds a mountpoint at path `p`.
pub open spec fn mp_is(o: Option<Mountpoint>, p: Seq<char>) -> bool {
    match o {
        Some(m) => m@ == p,
        None => false,
    }
}

/// The mountpoint views of the realms that have one.
pub open spec fn realm_mountpoints(mps: Seq<Option<Mountpoint>>) -> Set<Seq<char>> {
    Set::new(|p: Seq<char>| exists|i: int| 0 <= i < mps.len() && mp_is(#[trigger] mps[i], p))
}

/// `m` is one of `set` (the same path text).
fn contains_mountpoint(set: &Vec<Mountpoint>, m: &Mountpoint) -> (r: bool)
    ensures
        r == mountpoints_view(set@).contains(m@),
{
    let mut k: usize = 0;
    while k < set.len()
        invariant
            k <= set.len(),
            forall|x: int| 0 <= x < k ==> (#[trigger] set@[x])@ != m@,
        decreases set.len() - k,
    {
        if str_eq(set[k].path(), m.path()) {
            assert(mountpoints_view(set@)[k as int] == m@);
            return true;
        }
        k += 1;
    }
    assert forall|x: int| 0 <= x < set@.len() implies mountpoints_view(set@)[x] != m@ by {
        assert(set@[x]@ != m@);
    }
    false
}

/// The mountpoints used by running realms, each once; `mps` holds the
/// RealmFS mountpoint of each running realm, if it has one.
pub fn active_mountpoints(mps: &Vec<Option<Mountpoint>>) -> (r: Vec<Mountpoint>)
    ensures
        mountpoints_view(r@).to_set() == realm_mountpoints(mps@),
        mountpoints_view(r@).no_duplicates(),
{
    let mut out: Vec<Mountpoint> = Vec::new();
    let mut i: usize = 0;
    while i < mps.len()
        invariant
            i <= mps.len(),
            mountpoints_view(out@).no_duplicates(),
            mountpoints_view(out@).to_set() == realm_mountpoints(mps@.take(i as int)),
        decreases mps.len() - i,
    {
        let ghost before = out@;
        match &mps[i] {
            Some(m) => {
                if !contains_mountpoint(&out, m) {
                    out.push(m.copy());
                    assert(mountpoints_view(out@) =~= mountpoints_view(before).push(m@));
                }
            },
            None => {},
        }
        proof {
            let a = mps@.take(i as int);
            let b = mps@.take(i + 1);
            assert forall|p: Seq<char>| mountpoints_view(out@).to_set().contains(p) <==> realm_mountpoints(b).contains(p) by {
                if realm_mountpoints(b).contains(p) {
                    let x = choose|x: int| 0 <= x < b.len() && mp_is(#[trigger] b[x], p);
                    if x < i {
                        assert(a[x] == b[x]);
                        assert(realm_mountpoints(a).contains(p));
                        assert(mountpoints_view(before).to_set().contains(p));
                        let y = choose|y: int| 0 <= y < mountpoints_view(before).len() && mountpoints_view(before)[y] == p;
                        assert(mountpoints_view(out@)[y] == p);
                    } else if !mountpoints_view(before).contains(p) {
                        assert(mountpoints_view(out@)[mountpoints_view(out@).len() - 1] == p);
                    } else {
                        let y = choose|y: int| 0 <= y < mountpoints_view(before).len() && mountpoints_view(before)[y] == p;
                        assert(mountpoints_view(out@)[y] == p);
                    }
                }
                if mountpoints_view(out@).to_set().contains(p) {
                    let y = choose|y: int| 0 <= y < mountpoints_view(out@).len() && mountpoints_view(out@)[y] == p;
                    if y < before.len() {
                        assert(mountpoints_view(before)[y] == p);
                        assert(mountpoints_view(before).to_set().contains(p));
                        assert(realm_mountpoints(a).contains(p));
                        let x = choose|x: int| 0 <= x < a.len() && mp_is(#[trigger] a[x], p);
                        assert(b[x] == a[x]);
                    } else {
                        assert(b[i as int] == mps@[i as int]);
                    }
                }
            }
            assert(mountpoints_view(out@).to_set() =~= realm_mountpoints(b));
        }
        i += 1;
    }
    assert(mps@.take(mps@.len() as int) =~= mps@);
    out
}

/// The indices of the running realms whose RealmFS mountpoint belongs to
/// `activation`, in increasing order; `mps` holds the mountpoint of each
/// running realm, if it has one.
pub fn realms_for_activation(mps: &Vec<Option<Mountpoint>>, activation: &Activation) -> (r: Vec<usize>)
    ensures
        forall|k: int| 0 <= k < r@.len() ==> #[trigger] r@[k] < mps@.len(),
        forall|k1: int, k2: int| 0 <= k1 < k2 < r@.len() ==> #[trigger] r@[k1] < #[trigger] r@[k2],
        forall|i: int|
            0 <= i < mps@.len() ==> ((#[trigger] mps@[i] matches Some(m) && spec_is_mountpoint(
                activation@,
                m@,
            )) <==> r@.contains(i as usize)),
{
    let mut out: Vec<usize> = Vec::new();
    let mut i: usize = 0;
    while i < mps.len()
        invariant
            i <= mps.len(),
            forall|k: int| 0 <= k < out@.len() ==> #[trigger] out@[k] < i,
            forall|k1: int, k2: int| 0 <= k1 < k2 < out@.len() ==> #[trigger] out@[k1] < #[trigger] out@[k2],
            forall|x: int|
                0 <= x < i ==> ((#[trigger] mps@[x] matches Some(m) && spec_is_mountpoint(
                    activation@,
                    m@,
                )) <==> out@.contains(x as usize)),
        decreases mps.len() - i,
    {
        let ghost before = out@;
        let hit = match &mps[i] {
            Some(m) => activation.is_mountpoint(m),
            None => false,
        };
        if hit {
            out.push(i);
        }
        proof {
            assert forall|x: int|
                0 <= x <= i implies ((#[trigger] mps@[x] matches Some(m) && spec_is_mountpoint(
                    activation@,
                    m@,
                )) <==> out@.contains(x as usize)) by {
                if x < i {
                    if out@.contains(x as usize) {
                        let k = choose|k: int| 0 <= k < out@.len() && out@[k] == x as usize;
                        if k < before.len() {
                            assert(before[k] == x as usize);
                        }
                    }
                    if before.contains(x as usize) {
                        let k = choose|k: int| 0 <= k < before.len() && before[k] == x as usize;
                        assert(out@[k] == x as usize);
                    }
                } else {
                    if hit {
                        assert(out@[out@.len() - 1] == i);
                    } else {
                        assert forall|k: int| 0 <= k < out@.len() implies out@[k] != i by {
                            assert(before[k] < i);
                        }
                    }
                }
            }
        }
        i += 1;
    }
    out
}

/// What became of a released mountpoint once its RealmFS had a look at it.
pub enum ReleaseStep {
    /// Not a valid RealmFS mountpoint: nothing was done.
    Invalid,
    /// The mountpoint belongs to the activation of its RealmFS;
    /// `deactivated` tells whether that activation was torn down.
    Released { deactivated: bool },
    /// No RealmFS claims the mountpoint: look for a detached activation.
    FindDetached,
}

/// The views of an optional activation state.
pub open spec fn owner_view(o: Option<ActivationState>) -> Option<Option<crate::realmfs::activator::ActivationView>> {
    match o {
        Some(s) => Some(s@),
        None => None,
    }
}

/// Whether releasing `mountpoint` tears down the activation of its
/// RealmFS: the mountpoint is valid, belongs to the activation in `owner`,
/// and no running realm (`active`) uses that activation any more.
pub fn release_needs_teardown(mountpoint: &Mountpoint, owner: &Option<ActivationState>, active: &Vec<Mountpoint>) -> (r: bool)
    ensures
        r == (mountpoint.spec_is_valid() && (*owner matches Some(s) && s@ matches Some(a)
            && spec_is_mountpoint(a, mountpoint@) && !spec_in_use(a, mountpoints_view(active@)))),
{
    if !mountpoint.is_valid() {
        return false;
    }
    match owner {
        Some(state) => match state.get() {
            Some(a) => a.is_mountpoint(mountpoint) && !a.in_use(active),
            None => false,
        },
        None => false,
    }
}

/// A realm released `mountpoint`. `owner` is the activation state of the
/// RealmFS that the mountpoint names, if that RealmFS exists, `active`
/// the mountpoints still used by running realms, and `teardown` the
/// outcome of tearing the activation down, which the caller does only when
/// `release_needs_teardown` is `true` (`Ok(())` otherwise).
pub fn release_mountpoint(
    mountpoint: &Mountpoint,
    owner: &mut Option<ActivationState>,
    active: &Vec<Mountpoint>,
    teardown: Result<(), Error>,
) -> (r: ReleaseStep)
    ensures
        !mountpoint.spec_is_valid() ==> r is Invalid && owner_view(*final(owner)) == owner_view(*old(owner)),
        mountpoint.spec_is_valid() && (*old(owner) matches Some(s) && s@ matches Some(a)
            && spec_is_mountpoint(a, mountpoint@)) ==> {
            let a = old(owner).unwrap()@.unwrap();
            let d = !spec_in_use(a, mountpoints_view(active@)) && teardown is Ok;
            &&& r == (ReleaseStep::Released { deactivated: d })
            &&& d ==> owner_view(*final(owner)) == Some(None::<crate::realmfs::activator::ActivationView>)
            &&& !d ==> owner_view(*final(owner)) == owner_view(*old(owner))
        },
        mountpoint.spec_is_valid() && !(*old(owner) matches Some(s) && s@ matches Some(a)
            && spec_is_mountpoint(a, mountpoint@)) ==> r is FindDetached && owner_view(*final(owner))
            == owner_view(*old(owner)),
{
    if !mountpoint.is_valid() {
        return ReleaseStep::Invalid;
    }
    match owner {
        Some(state) => {
            if state.release_mountpoint(mountpoint, active, teardown) {
                let deactivated = !state.is_activated();
                ReleaseStep::Released { deactivated }
            } else {
                ReleaseStep::FindDetached
            }
        },
        None => ReleaseStep::FindDetached,
    }
}

/// What to do with a detached activation of a released mountpoint.
pub enum DetachedStep {
    /// Not in use by any running realm: tear it down.
    Deactivate,
    /// Still in use by a running realm: keep it.
    InUse,
    /// No activation was found for the mountpoint.
    NotFound,
}

/// The step for the detached activation found (or not) for a released
/// mountpoint, given the mountpoints still used by running realms.
pub fn release_detached(detached: Option<&Activation>, active: &Vec<Mountpoint>) -> (r: DetachedStep)
    ensures
        match detached {
            Some(a) => if spec_in_use(a@, mountpoints_view(active@)) {
                r is InUse
            } else {
                r is Deactivate
            },
            None => r is NotFound,
        },
{
    match detached {
        Some(a) => if a.in_use(active) {
            DetachedStep::InUse
        } else {
            DetachedStep::Deactivate
        },
        None => DetachedStep::NotFound,
    }
}

/// How a realm is made the current realm.
#[derive(Debug, Clone, Copy, PartialEq, Eq, Structural)]
pub enum CurrentPlan {
    /// It is current already: nothing to do.
    AlreadyCurrent,
    /// It is stopped: start it, then make it current.
    StartThenSet,
    /// It runs: make it current.
    MakeCurrent,
}

/// How a realm that `is_current` (or not) and `is_active` (or not) is made
/// the current realm.
pub fn plan_set_current(is_current: bool, is_active: bool) -> (r: CurrentPlan)
    ensures
        is_current ==> r == CurrentPlan::AlreadyCurrent,
        !is_current && !is_active ==> r == CurrentPlan::StartThenSet,
        !is_current && is_active ==> r == CurrentPlan::MakeCurrent,
{
    if is_current {
        CurrentPlan::AlreadyCurrent
    } else if !is_active {
        CurrentPlan::StartThenSet
    } else {
        CurrentPlan::MakeCurrent
    }
}

/// The realm to start at boot: the default realm, which there must be.
pub fn boot_realm(default_realm: Option<usize>) -> (r: Result<usize, Error>)
    ensures
        match default_realm {
            Some(i) => r == Ok::<usize, Error>(i),
            None => r == Err::<usize, Error>(Error::NoDefaultRealm),
        },
{
    match default_realm {
        Some(i) => Ok(i),
        None => Err(Error::NoDefaultRealm),
    }
}

/// Checks that a RealmFS can be deleted: not in use by a running realm
/// before it is deactivated, and no longer activated after.
pub fn check_realmfs_deletable(in_use: bool, activated_after_deactivate: bool) -> (r: Result<(), Error>)
    ensures
        in_use ==> r == Err::<(), Error>(Error::RealmfsInUse),
        !in_use && activated_after_deactivate ==> r == Err::<(), Error>(Error::RealmfsActivated),
        !in_use && !activated_after_deactivate ==> r is Ok,
{
    if in_use {
        Err(Error::RealmfsInUse)
    } else if activated_after_deactivate {
        Err(Error::RealmfsActivated)
    } else {
        Ok(())
    }
}

} // verus!
