//! Splitting an ordered list of entries into fixed-capacity pages: order is
//! kept, nothing is padded, duplicated or dropped, every page but the last
//! is full, and the last holds the remainder.

use vstd::prelude::*;
use vstd::arithmetic::div_mod::{
    lemma_basic_div, lemma_div_multiples_vanish_fancy, lemma_fundamental_div_mod,
    lemma_fundamental_div_mod_converse,
};
use vstd::seq_lib::lemma_flatten_concat;

verus! {

/// Number of pages needed for `n` entries at `cap` per page: `n / cap`
/// rounded up.
pub open spec fn spec_page_count(n: int, cap: int) -> int {
    (n + cap - 1) / cap
}

/// Where the `i`-th page ends: one capacity past its start, or at the end
/// of the input for the last page.
pub open spec fn spec_page_end(n: int, cap: int, i: int) -> int {
    if (i + 1) * cap <= n {
        (i + 1) * cap
    } else {
        n
    }
}

/// The `i`-th page: the contiguous run of the input starting at `i * cap`.
pub open spec fn spec_page<T>(s: Seq<T>, cap: int, i: int) -> Seq<T> {
    s.subrange(i * cap, spec_page_end(s.len() as int, cap, i))
}

/// All pages of the input, in order.
pub open spec fn spec_pages<T>(s: Seq<T>, cap: int) -> Seq<Seq<T>> {
    Seq::new(spec_page_count(s.len() as int, cap) as nat, |i: int| spec_page(s, cap, i))
}

/// Splits the entries into their pages. The result has exactly the
/// ceiling-count of pages, the `i`-th page is exactly the `i`-th contiguous
/// run of the input, and concatenating all pages in order reconstructs the
/// input.
pub fn paginate<T>(entries: Vec<T>, capacity: usize) -> (pages: Vec<Vec<T>>)
    requires
        1 <= capacity,
    ensures
        pages@.len() == spec_page_count(entries@.len() as int, capacity as int),
        forall|i: int|
            0 <= i < pages@.len() ==> (#[trigger] pages@[i])@ == spec_page(
                entries@,
                capacity as int,
                i,
            ),
        forall|i: int| 0 <= i < pages@.len() ==> (#[trigger] pages@[i])@.len() <= capacity,
        pages@.map_values(|p: Vec<T>| p@).flatten() == entries@,
{
    let ghost orig: Seq<T> = entries@;
    let ghost cap: int = capacity as int;
    let mut rest = entries;
    // Reading the length as a `usize` pins the list's extent into the
    // address space, which the take counter below grows up to.
    let _total: usize = rest.len();
    let mut pages: Vec<Vec<T>> = Vec::new();
    let mut taken: usize = 0;
    proof {
        lemma_basic_div(cap - 1, cap);
        assert(rest@ =~= orig.subrange(0, orig.len() as int));
    }
    while rest.len() > 0
        invariant
            1 <= cap,
            cap == capacity,
            orig.len() <= usize::MAX,
            taken + rest@.len() == orig.len(),
            rest@ == orig.subrange(taken as int, orig.len() as int),
            pages@.len() == spec_page_count(taken as int, cap),
            rest@.len() > 0 ==> taken == pages@.len() * cap,
            forall|i: int|
                0 <= i < pages@.len() ==> (#[trigger] pages@[i])@ == spec_page(orig, cap, i),
            forall|i: int| 0 <= i < pages@.len() ==> (#[trigger] pages@[i])@.len() <= capacity,
        decreases rest@.len(),
    {
        let ghost k: int = pages@.len() as int;
        let ghost taken0: int = taken as int;
        let mut page: Vec<T> = Vec::new();
        while rest.len() > 0 && page.len() < capacity
            invariant
                1 <= cap,
                cap == capacity,
                orig.len() <= usize::MAX,
                taken as int == taken0 + page@.len(),
                page@.len() <= capacity,
                taken + rest@.len() == orig.len(),
                rest@ == orig.subrange(taken as int, orig.len() as int),
                page@ == orig.subrange(taken0, taken as int),
                taken0 == k * cap,
                0 <= taken0 <= taken,
            decreases rest@.len(),
        {
            let e = rest.remove(0);
            proof {
                assert(rest@ =~= orig.subrange(taken as int + 1, orig.len() as int));
                assert(e == orig[taken as int]);
            }
            page.push(e);
            taken = taken + 1;
            proof {
                assert(page@ =~= orig.subrange(taken0, taken as int));
            }
        }
        proof {
            let t: int = taken as int;
            let r: int = t - taken0;
            // The page just built is non-empty and at most one capacity long.
            assert(1 <= r <= cap);
            // It is exactly the k-th page of the input.
            if page@.len() == cap {
                assert(t == (k + 1) * cap) by (nonlinear_arith)
                    requires
                        t == taken0 + cap,
                        taken0 == k * cap,
                ;
                assert(spec_page_end(orig.len() as int, cap, k) == t);
            } else {
                assert(t == orig.len());
                assert((k + 1) * cap == taken0 + cap) by (nonlinear_arith)
                    requires
                        taken0 == k * cap,
                ;
                assert(spec_page_end(orig.len() as int, cap, k) == t);
            }
            assert(page@ =~= spec_page(orig, cap, k));
            // One more page: the ceiling count of what is taken grows by one.
            assert(t + cap - 1 == cap * (k + 1) + (r - 1)) by (nonlinear_arith)
                requires
                    t == taken0 + r,
                    taken0 == k * cap,
            ;
            lemma_div_multiples_vanish_fancy(k + 1, r - 1, cap);
            assert(spec_page_count(t, cap) == k + 1);
        }
        pages.push(page);
    }
    proof {
        assert(pages@.map_values(|p: Vec<T>| p@) =~= spec_pages(orig, cap));
        lemma_pages_flatten(orig, cap);
    }
    pages
}

/// Concatenating, in order, the pages a sequence splits into reconstructs
/// the sequence: no entry is lost, added, duplicated or moved.
pub proof fn lemma_pages_flatten<T>(s: Seq<T>, cap: int)
    requires
        1 <= cap,
    ensures
        spec_pages(s, cap).flatten() == s,
    decreases s.len(),
{
    let n = s.len() as int;
    if n == 0 {
        lemma_basic_div(cap - 1, cap);
        assert(spec_pages(s, cap) =~= Seq::<Seq<T>>::empty());
        assert(Seq::<Seq<T>>::empty().flatten() =~= s);
    } else if n <= cap {
        lemma_div_multiples_vanish_fancy(1, n - 1, cap);
        assert(n + cap - 1 == cap * 1 + (n - 1));
        assert(spec_page_count(n, cap) == 1);
        assert(spec_page(s, cap, 0) =~= s);
        assert(spec_pages(s, cap) =~= seq![s]);
        seq![s].lemma_flatten_one_element();
    } else {
        let head = s.subrange(0, cap);
        let rest = s.subrange(cap, n);
        lemma_pages_flatten(rest, cap);
        let m = rest.len() as int;
        // One full page more than the pages of the remainder.
        lemma_fundamental_div_mod(m + cap - 1, cap);
        let q = (m + cap - 1) / cap;
        let r = (m + cap - 1) % cap;
        assert(n + cap - 1 == cap * (q + 1) + r) by (nonlinear_arith)
            requires
                m + cap - 1 == cap * q + r,
                n == m + cap,
        ;
        lemma_div_multiples_vanish_fancy(q + 1, r, cap);
        assert(spec_page_count(n, cap) == spec_page_count(m, cap) + 1);
        assert(spec_pages(s, cap) =~= seq![head] + spec_pages(rest, cap)) by {
            assert forall|i: int| 1 <= i < spec_page_count(n, cap) implies spec_page(s, cap, i)
                == spec_page(rest, cap, i - 1) by {
                assert((i - 1) * cap + cap == i * cap && i * cap + cap == (i + 1) * cap)
                    by (nonlinear_arith);
                assert(i * cap <= cap * q && (i - 1) * cap <= cap * (q - 1)) by (nonlinear_arith)
                    requires
                        1 <= i <= q,
                        1 <= cap,
                ;
                assert(cap * (q - 1) == cap * q - cap) by (nonlinear_arith);
                assert(cap * q <= m + cap - 1 && cap * (q - 1) < m);
                assert(i * cap < n && (i - 1) * cap < m);
                assert(spec_page(s, cap, i) =~= spec_page(rest, cap, i - 1));
            }
            assert(spec_page(s, cap, 0) =~= head);
        }
        lemma_flatten_concat(seq![head], spec_pages(rest, cap));
        seq![head].lemma_flatten_one_element();
        assert(s =~= head + rest);
    }
}

/// Page sizes: every page but the last holds exactly the capacity; the last
/// holds the remainder of the division, or a full capacity when the
/// division is exact.
pub proof fn lemma_page_sizes<T>(s: Seq<T>, cap: int, i: int)
    requires
        1 <= cap,
        0 <= i < spec_page_count(s.len() as int, cap),
    ensures
        i < spec_page_count(s.len() as int, cap) - 1 ==> spec_page(s, cap, i).len() == cap,
        i == spec_page_count(s.len() as int, cap) - 1 ==> spec_page(s, cap, i).len() == (
        if s.len() as int % cap == 0 {
            cap
        } else {
            s.len() as int % cap
        }),
{
    let n = s.len() as int;
    let k = spec_page_count(n, cap);
    lemma_fundamental_div_mod(n + cap - 1, cap);
    let r = (n + cap - 1) % cap;
    assert(n == cap * (k - 1) + (r + 1)) by (nonlinear_arith)
        requires
            n + cap - 1 == cap * k + r,
    ;
    assert(cap * (k - 1) < n <= cap * k) by (nonlinear_arith)
        requires
            n == cap * (k - 1) + (r + 1),
            0 <= r < cap,
    ;
    if i < k - 1 {
        assert((i + 1) * cap <= (k - 1) * cap && 0 <= i * cap && (k - 1) * cap == cap * (k - 1))
            by (nonlinear_arith)
            requires
                0 <= i,
                i + 1 <= k - 1,
                1 <= cap,
        ;
        assert(spec_page_end(n, cap, i) == (i + 1) * cap);
        assert((i + 1) * cap - i * cap == cap) by (nonlinear_arith);
    } else {
        assert(i == k - 1);
        assert(spec_page_end(n, cap, i) == n) by (nonlinear_arith)
            requires
                i == k - 1,
                cap * (k - 1) < n <= cap * k,
                1 <= cap,
                spec_page_end(n, cap, i) == if (i + 1) * cap <= n {
                    (i + 1) * cap
                } else {
                    n
                },
        ;
        assert(spec_page(s, cap, i).len() == n - (k - 1) * cap) by {
            assert(0 <= (k - 1) * cap && (k - 1) * cap == cap * (k - 1)) by (nonlinear_arith)
                requires
                    0 <= k - 1,
                    1 <= cap,
            ;
        }
        if r + 1 == cap {
            assert(n == cap * k) by (nonlinear_arith)
                requires
                    n == cap * (k - 1) + (r + 1),
                    r + 1 == cap,
            ;
            assert(n == k * cap + 0) by (nonlinear_arith)
                requires
                    n == cap * k,
            ;
            lemma_fundamental_div_mod_converse(n, cap, k, 0);
            assert(n % cap == 0);
        } else {
            assert(n == (k - 1) * cap + (r + 1)) by (nonlinear_arith)
                requires
                    n == cap * (k - 1) + (r + 1),
            ;
            lemma_fundamental_div_mod_converse(n, cap, k - 1, r + 1);
            assert(n % cap == r + 1);
        }
        assert(n - (k - 1) * cap == r + 1) by (nonlinear_arith)
            requires
                n == cap * (k - 1) + (r + 1),
        ;
    }
}

} // verus!
