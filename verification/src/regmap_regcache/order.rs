//! Ordering entries by register: a stable insertion sort and its model.

use vstd::prelude::*;
use vstd::seq_lib::{to_multiset_build, to_multiset_insert};

verus! {

/// An entry ordered by a register address.
pub trait RegKeyed: Copy {
    /// The register the entry is ordered by.
    spec fn reg_key(&self) -> u32;

    /// Returns the register the entry is ordered by.
    fn key(&self) -> (k: u32)
        ensures
            k == self.reg_key(),
    ;
}

/// Registers never decrease along `s`.
pub open spec fn sorted_by_reg<T: RegKeyed>(s: Seq<T>) -> bool {
    forall|i: int, j: int| 0 <= i <= j < s.len() ==> s[i].reg_key() <= s[j].reg_key()
}

/// Where `x` goes in `s` when inserted after every trailing entry with a greater register
/// has been passed over: just after the last entry whose register is at most `x`'s.
pub open spec fn insert_pos<T: RegKeyed>(s: Seq<T>, x: T) -> nat
    decreases s.len(),
{
    if s.len() == 0 || s.last().reg_key() <= x.reg_key() {
        s.len()
    } else {
        insert_pos(s.drop_last(), x)
    }
}

/// `s` with `x` inserted at `insert_pos(s, x)`.
pub open spec fn insert_sorted<T: RegKeyed>(s: Seq<T>, x: T) -> Seq<T> {
    s.insert(insert_pos(s, x) as int, x)
}

/// The stable sort of `s` by register: each entry in turn inserted after all earlier
/// entries whose register is not greater, so entries with equal registers keep their order.
pub open spec fn stable_sort<T: RegKeyed>(s: Seq<T>) -> Seq<T>
    decreases s.len(),
{
    if s.len() == 0 {
        s
    } else {
        insert_sorted(stable_sort(s.drop_last()), s.last())
    }
}

proof fn lemma_insert_pos_at<T: RegKeyed>(p: Seq<T>, x: T, k: int)
    requires
        0 <= k <= p.len(),
        forall|t: int| k <= t < p.len() ==> #[trigger] p[t].reg_key() > x.reg_key(),
        k == 0 || p[k - 1].reg_key() <= x.reg_key(),
    ensures
        insert_pos(p, x) == k,
    decreases p.len(),
{
    if p.len() != k {
        assert(p.last().reg_key() > x.reg_key());
        lemma_insert_pos_at(p.drop_last(), x, k);
    }
}

proof fn lemma_insert_pos_bounds<T: RegKeyed>(p: Seq<T>, x: T)
    ensures
        insert_pos(p, x) <= p.len(),
        forall|t: int| insert_pos(p, x) <= t < p.len() ==> #[trigger] p[t].reg_key() > x.reg_key(),
        insert_pos(p, x) == 0 || p[insert_pos(p, x) - 1].reg_key() <= x.reg_key(),
    decreases p.len(),
{
    if p.len() != 0 && p.last().reg_key() > x.reg_key() {
        let q = p.drop_last();
        lemma_insert_pos_bounds(q, x);
        assert forall|t: int| insert_pos(p, x) <= t < p.len() implies #[trigger] p[t].reg_key()
            > x.reg_key() by {
            if t < q.len() {
                assert(q[t] == p[t]);
            }
        }
    }
}

/// The stable sort keeps the length.
pub proof fn lemma_stable_sort_len<T: RegKeyed>(s: Seq<T>)
    ensures
        stable_sort(s).len() == s.len(),
    decreases s.len(),
{
    if s.len() != 0 {
        lemma_stable_sort_len(s.drop_last());
        lemma_insert_pos_bounds(stable_sort(s.drop_last()), s.last());
    }
}

/// The stable sort puts registers in ascending order.
pub proof fn lemma_stable_sort_sorted<T: RegKeyed>(s: Seq<T>)
    ensures
        sorted_by_reg(stable_sort(s)),
    decreases s.len(),
{
    if s.len() != 0 {
        let p = stable_sort(s.drop_last());
        let x = s.last();
        lemma_stable_sort_sorted(s.drop_last());
        lemma_insert_pos_bounds(p, x);
        let k = insert_pos(p, x) as int;
        let q = p.insert(k, x);
        assert forall|i: int, j: int| 0 <= i <= j < q.len() implies q[i].reg_key()
            <= q[j].reg_key() by {
            if i < k && j > k {
                assert(p[i].reg_key() <= p[k - 1].reg_key());
            } else if i < k && j == k {
                assert(p[i].reg_key() <= p[k - 1].reg_key());
            } else if i == k && j > k {
                assert(p[j - 1].reg_key() > x.reg_key());
            }
        }
    }
}

/// The stable sort is a permutation: it holds the same entries, each as often.
pub proof fn lemma_stable_sort_permutes<T: RegKeyed>(s: Seq<T>)
    ensures
        stable_sort(s).to_multiset() == s.to_multiset(),
    decreases s.len(),
{
    if s.len() != 0 {
        let p = stable_sort(s.drop_last());
        let x = s.last();
        lemma_stable_sort_permutes(s.drop_last());
        lemma_insert_pos_bounds(p, x);
        to_multiset_insert(p, insert_pos(p, x) as int, x);
        to_multiset_build(s.drop_last(), x);
        assert(s.drop_last().push(x) == s);
    }
}

/// Sorts `s[lo..hi]` stably by register, leaving the rest of `s` alone.
pub fn sort_range_by_reg<T: RegKeyed>(s: &mut [T], lo: usize, hi: usize)
    requires
        lo <= hi <= old(s)@.len(),
    ensures
        final(s)@.len() == old(s)@.len(),
        final(s)@.subrange(0, lo as int) == old(s)@.subrange(0, lo as int),
        final(s)@.subrange(lo as int, hi as int) == stable_sort(old(s)@.subrange(lo as int, hi as int)),
        final(s)@.subrange(hi as int, old(s)@.len() as int) == old(s)@.subrange(hi as int, old(s)@.len() as int),
{
    let ghost orig = s@;
    let len = s.len();
    if lo == hi {
        assert(orig.subrange(lo as int, hi as int) =~= Seq::<T>::empty());
        return;
    }
    let mut i: usize = lo + 1;
    assert(orig.subrange(lo as int, lo + 1) =~= stable_sort(orig.subrange(lo as int, lo + 1))) by {
        let t = orig.subrange(lo as int, lo + 1);
        assert(t.drop_last() =~= Seq::<T>::empty());
        assert(stable_sort(t.drop_last()) =~= Seq::<T>::empty());
    }
    while i < hi
        invariant
            lo < i <= hi <= len,
            len == orig.len(),
            s@.len() == len,
            s@.subrange(0, lo as int) == orig.subrange(0, lo as int),
            s@.subrange(lo as int, i as int) == stable_sort(orig.subrange(lo as int, i as int)),
            s@.subrange(i as int, len as int) == orig.subrange(i as int, len as int),
        decreases hi - i,
    {
        let ghost p = s@.subrange(lo as int, i as int);
        let ghost before = s@;
        let x = s[i];
        assert(x == orig[i as int]) by {
            assert(s@.subrange(i as int, len as int)[0] == s@[i as int]);
        }
        let xk = x.key();
        let mut j: usize = i;
        while j > lo && s[j - 1].key() > xk
            invariant
                lo <= j <= i < len,
                s@.len() == len,
                p.len() == i - lo,
                xk == x.reg_key(),
                forall|t: int| 0 <= t < lo ==> #[trigger] s@[t] == before[t],
                forall|t: int| i < t < len ==> #[trigger] s@[t] == before[t],
                forall|t: int| lo <= t < j ==> #[trigger] s@[t] == p[t - lo],
                forall|t: int| j < t <= i ==> #[trigger] s@[t] == p[t - lo - 1],
                forall|t: int| j - lo <= t < p.len() ==> #[trigger] p[t].reg_key() > x.reg_key(),
                forall|t: int| lo <= t < i ==> #[trigger] before[t] == p[t - lo],
            decreases j,
        {
            let prev = s[j - 1];
            s[j] = prev;
            j = j - 1;
        }
        s[j] = x;
        proof {
            let k = (j - lo) as int;
            if k > 0 {
                assert(p[k - 1].reg_key() <= x.reg_key()) by {
                    assert(s@[j - 1] == p[j - 1 - lo]);
                }
            }
            lemma_insert_pos_at(p, x, k);
            let t = orig.subrange(lo as int, i + 1);
            assert(t.drop_last() =~= orig.subrange(lo as int, i as int));
            assert(t.last() == x);
            assert(s@.subrange(lo as int, i + 1) =~= p.insert(k, x));
            assert(s@.subrange(0, lo as int) =~= before.subrange(0, lo as int));
            assert(s@.subrange(i + 1, len as int) =~= before.subrange(i + 1, len as int));
            assert(before.subrange(i + 1, len as int) =~= orig.subrange(i + 1, len as int)) by {
                assert forall|t: int| 0 <= t < len - i - 1 implies #[trigger] before.subrange(i + 1, len as int)[t]
                    == orig.subrange(i + 1, len as int)[t] by {
                    assert(before.subrange(i as int, len as int)[t + 1] == orig.subrange(
                        i as int,
                        len as int,
                    )[t + 1]);
                }
            }
        }
        i = i + 1;
    }
}

/// The entries of `s` whose register is `k`, in order.
pub open spec fn with_key<T: RegKeyed>(s: Seq<T>, k: u32) -> Seq<T> {
    s.filter(key_is::<T>(k))
}

/// Whether an entry's register is `k`.
pub open spec fn key_is<T: RegKeyed>(k: u32) -> spec_fn(T) -> bool {
    |x: T| x.reg_key() == k
}

proof fn lemma_with_key_none<T: RegKeyed>(t: Seq<T>, k: u32)
    requires
        forall|i: int| 0 <= i < t.len() ==> #[trigger] t[i].reg_key() != k,
    ensures
        with_key(t, k) == Seq::<T>::empty(),
    decreases t.len(),
{
    if t.len() != 0 {
        let pred = key_is::<T>(k);
        lemma_with_key_none(t.drop_last(), k);
        assert(t == t.drop_last().push(t.last()));
        t.drop_last().lemma_filter_push(t.last(), pred);
    }
}

/// The stable sort is stable: the entries for any one register come out in the order they
/// went in.
pub proof fn lemma_stable_sort_is_stable<T: RegKeyed>(s: Seq<T>, k: u32)
    ensures
        with_key(stable_sort(s), k) == with_key(s, k),
    decreases s.len(),
{
    if s.len() != 0 {
        let pred = key_is::<T>(k);
        let d = s.drop_last();
        let p = stable_sort(d);
        let x = s.last();
        lemma_stable_sort_is_stable(d, k);
        lemma_stable_sort_len(d);
        lemma_insert_pos_bounds(p, x);
        assert(stable_sort(s) == p.insert(insert_pos(p, x) as int, x));
        let q = insert_pos(p, x) as int;
        let head = p.subrange(0, q);
        let tail = p.subrange(q, p.len() as int);
        assert(p.insert(q, x) =~= head + seq![x] + tail);
        assert(p =~= head + tail);
        Seq::filter_distributes_over_add(head + seq![x], tail, pred);
        Seq::filter_distributes_over_add(head, seq![x], pred);
        Seq::filter_distributes_over_add(head, tail, pred);
        assert(seq![x] =~= Seq::<T>::empty().push(x));
        Seq::<T>::empty().lemma_filter_push(x, pred);
        assert(Seq::<T>::empty().filter(pred) =~= Seq::<T>::empty()) by {
            lemma_with_key_none(Seq::<T>::empty(), k);
        }
        assert(s == d.push(x));
        d.lemma_filter_push(x, pred);
        if x.reg_key() == k {
            assert forall|i: int| 0 <= i < tail.len() implies #[trigger] tail[i].reg_key() != k by {
                assert(tail[i] == p[q + i]);
            }
            lemma_with_key_none(tail, k);
            assert(with_key(stable_sort(s), k) =~= head.filter(pred).push(x));
            assert(with_key(p, k) =~= head.filter(pred));
        } else {
            assert(with_key(stable_sort(s), k) =~= head.filter(pred) + tail.filter(pred));
        }
    }
}

} // verus!
