//! Ordering of text, as `str`'s `Ord` orders it, and sorting by a text key.
use vstd::prelude::*;

use crate::text::chars_of;

verus! {

/// `a` comes no later than `b` in lexicographic order of characters (the
/// order of `str`, since UTF-8 keeps the order of code points).
pub open spec fn text_le(a: Seq<char>, b: Seq<char>) -> bool
    decreases a.len(),
{
    if a.len() == 0 {
        true
    } else if b.len() == 0 {
        false
    } else if a[0] != b[0] {
        a[0] < b[0]
    } else {
        text_le(a.drop_first(), b.drop_first())
    }
}

/// Every text is in order with itself.
pub proof fn lemma_text_le_refl(a: Seq<char>)
    ensures
        text_le(a, a),
    decreases a.len(),
{
    if a.len() > 0 {
        lemma_text_le_refl(a.drop_first());
    }
}

/// Any two texts are in order one way or the other.
pub proof fn lemma_text_le_total(a: Seq<char>, b: Seq<char>)
    ensures
        text_le(a, b) || text_le(b, a),
    decreases a.len(),
{
    if a.len() > 0 && b.len() > 0 {
        if a[0] == b[0] {
            lemma_text_le_total(a.drop_first(), b.drop_first());
        }
    }
}

/// Texts in order both ways are equal.
pub proof fn lemma_text_le_antisym(a: Seq<char>, b: Seq<char>)
    requires
        text_le(a, b),
        text_le(b, a),
    ensures
        a == b,
    decreases a.len(),
{
    if a.len() > 0 {
        lemma_text_le_antisym(a.drop_first(), b.drop_first());
        assert(a =~= seq![a[0]] + a.drop_first());
        assert(b =~= seq![b[0]] + b.drop_first());
    } else {
        assert(b.len() == 0);
        assert(a =~= b);
    }
}

/// The order is transitive.
pub proof fn lemma_text_le_trans(a: Seq<char>, b: Seq<char>, c: Seq<char>)
    requires
        text_le(a, b),
        text_le(b, c),
    ensures
        text_le(a, c),
    decreases a.len(),
{
    if a.len() > 0 && b.len() > 0 && c.len() > 0 && a[0] == b[0] && b[0] == c[0] {
        lemma_text_le_trans(a.drop_first(), b.drop_first(), c.drop_first());
    }
}

/// `true` when `a` comes strictly before `b`.
pub fn text_less(a: &str, b: &str) -> (r: bool)
    ensures
        r == !text_le(b@, a@),
{
    let va = chars_of(a);
    let vb = chars_of(b);
    let mut i: usize = 0;
    assert(va@.skip(0) =~= va@);
    assert(vb@.skip(0) =~= vb@);
    while i < va.len() && i < vb.len()
        invariant
            i <= va@.len(),
            i <= vb@.len(),
            va@ == a@,
            vb@ == b@,
            forall|j: int| 0 <= j < i ==> va@[j] == vb@[j],
            text_le(b@, a@) == text_le(vb@.skip(i as int), va@.skip(i as int)),
        decreases va@.len() - i,
    {
        if va[i] != vb[i] {
            proof {
                assert(vb@.skip(i as int)[0] == vb@[i as int]);
                assert(va@.skip(i as int)[0] == va@[i as int]);
            }
            return va[i] < vb[i];
        }
        proof {
            assert(vb@.skip(i as int).drop_first() =~= vb@.skip(i + 1));
            assert(va@.skip(i as int).drop_first() =~= va@.skip(i + 1));
        }
        i += 1;
    }
    // One text is a prefix of the other.
    i < vb.len() && i >= va.len()
}

/// Values with a total order in which they are sorted.
pub trait TotalOrder: Sized {
    /// `self` comes no later than `other`.
    spec fn order_le(self, other: Self) -> bool;

    /// Every value is in order with itself.
    proof fn lemma_order_refl(a: Self)
        ensures
            a.order_le(a),
    ;

    /// Any two values are in order one way or the other.
    proof fn lemma_order_total(a: Self, b: Self)
        ensures
            a.order_le(b) || b.order_le(a),
    ;

    /// The order is transitive.
    proof fn lemma_order_trans(a: Self, b: Self, c: Self)
        requires
            a.order_le(b),
            b.order_le(c),
        ensures
            a.order_le(c),
    ;

    /// `true` when `self` comes strictly before `other`.
    fn less(&self, other: &Self) -> (r: bool)
        ensures
            r == !other.order_le(*self),
    ;
}

impl TotalOrder for String {
    open spec fn order_le(self, other: Self) -> bool {
        text_le(self@, other@)
    }

    proof fn lemma_order_refl(a: Self) {
        lemma_text_le_refl(a@);
    }

    proof fn lemma_order_total(a: Self, b: Self) {
        lemma_text_le_total(a@, b@);
    }

    proof fn lemma_order_trans(a: Self, b: Self, c: Self) {
        lemma_text_le_trans(a@, b@, c@);
    }

    fn less(&self, other: &Self) -> (r: bool) {
        text_less(self.as_str(), other.as_str())
    }
}

/// `s` is in order.
pub open spec fn sorted_in_order<T: TotalOrder>(s: Seq<T>) -> bool {
    forall|i: int, j: int| 0 <= i < j < s.len() ==> (#[trigger] s[i]).order_le(#[trigger] s[j])
}

/// Sorts values: the result holds the same values, in order.
pub fn sort_in_order<T: TotalOrder>(v: Vec<T>) -> (r: Vec<T>)
    ensures
        r@.to_multiset() == v@.to_multiset(),
        sorted_in_order(r@),
{
    broadcast use vstd::seq_lib::group_to_multiset_ensures;

    let ghost orig = v@;
    let mut rest = v;
    let mut out: Vec<T> = Vec::new();
    while rest.len() > 0
        invariant
            out@.to_multiset().add(rest@.to_multiset()) == orig.to_multiset(),
            sorted_in_order(out@),
        decreases rest@.len(),
    {
        let ghost rest_before = rest@;
        let x = rest.pop().unwrap();
        assert(rest_before == rest@.push(x));
        let pos = insertion_point(&out, &x);
        let ghost out_before = out@;
        out.insert(pos, x);
        proof {
            broadcast use vstd::seq_lib::group_to_multiset_ensures;

            lemma_insert_sorted(out_before, pos as int, x);
            assert(out@.remove(pos as int) =~= out_before);
            assert(out@[pos as int] == x);
            assert(out@.contains(x));
            assert(out@.to_multiset().count(x) > 0);
            assert(out_before.to_multiset() =~= out@.to_multiset().remove(x));
            assert(out@.to_multiset() =~= out_before.to_multiset().insert(x));
            assert(out@.to_multiset().add(rest@.to_multiset()) =~= out_before.to_multiset().add(
                rest_before.to_multiset(),
            ));
        }
    }
    assert(rest@.to_multiset() =~= vstd::multiset::Multiset::<T>::empty());
    assert(out@.to_multiset().add(vstd::multiset::Multiset::<T>::empty()) =~= out@.to_multiset());
    out
}

/// The first position of `out` whose value comes strictly after `x`.
fn insertion_point<T: TotalOrder>(out: &Vec<T>, x: &T) -> (pos: usize)
    ensures
        pos <= out@.len(),
        forall|j: int| 0 <= j < pos ==> (#[trigger] out@[j]).order_le(*x),
        pos < out@.len() ==> !out@[pos as int].order_le(*x),
{
    let mut pos: usize = 0;
    while pos < out.len()
        invariant
            pos <= out@.len(),
            forall|j: int| 0 <= j < pos ==> (#[trigger] out@[j]).order_le(*x),
        decreases out@.len() - pos,
    {
        if x.less(&out[pos]) {
            return pos;
        }
        pos += 1;
    }
    pos
}

proof fn lemma_insert_sorted<T: TotalOrder>(s: Seq<T>, pos: int, x: T)
    requires
        sorted_in_order(s),
        0 <= pos <= s.len(),
        forall|j: int| 0 <= j < pos ==> (#[trigger] s[j]).order_le(x),
        pos < s.len() ==> !s[pos].order_le(x),
    ensures
        sorted_in_order(s.insert(pos, x)),
{
    let t = s.insert(pos, x);
    assert forall|i: int, j: int| 0 <= i < j < t.len() implies (#[trigger] t[i]).order_le(#[trigger] t[j]) by {
        if j < pos {
            assert(t[i] == s[i] && t[j] == s[j]);
        } else if j == pos {
            assert(t[i] == s[i]);
        } else if i == pos {
            assert(t[j] == s[j - 1]);
            T::lemma_order_total(s[pos], x);
            if j - 1 > pos {
                T::lemma_order_trans(x, s[pos], s[j - 1]);
            }
        } else if i < pos {
            assert(t[i] == s[i] && t[j] == s[j - 1]);
        } else {
            assert(t[i] == s[i - 1] && t[j] == s[j - 1]);
        }
    }
}

/// Sequences holding the same values still do after mapping `f` over them.
pub proof fn lemma_multiset_map<A, B>(s1: Seq<A>, s2: Seq<A>, f: spec_fn(A) -> B)
    requires
        s1.to_multiset() == s2.to_multiset(),
    ensures
        s1.map_values(f).to_multiset() == s2.map_values(f).to_multiset(),
    decreases s1.len(),
{
    broadcast use vstd::seq_lib::group_to_multiset_ensures;

    if s1.len() == 0 {
        assert(s1.to_multiset().len() == s1.len());
        assert(s2.to_multiset().len() == s2.len());
        assert(s2.len() == 0);
        assert(s1.map_values(f) =~= s2.map_values(f));
    } else {
        let x = s1.last();
        let t1 = s1.drop_last();
        assert(s1 =~= t1.push(x));
        assert(s2.to_multiset().count(x) > 0);
        assert(s2.contains(x));
        let k = choose|k: int| 0 <= k < s2.len() && s2[k] == x;
        let t2 = s2.remove(k);
        assert(t1.to_multiset() =~= s2.to_multiset().remove(x));
        lemma_multiset_map(t1, t2, f);
        assert(s1.map_values(f) =~= t1.map_values(f).push(f(x)));
        assert(t2.map_values(f) =~= s2.map_values(f).remove(k));
        assert(s2.map_values(f)[k] == f(x));
        assert(s2.map_values(f).to_multiset() =~= t2.map_values(f).to_multiset().insert(f(x)));
    }
}

} // verus!
