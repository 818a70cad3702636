//! Lexicographic order on character sequences, and a verified stable sort.
//!
//! `String`'s `Ord` compares UTF-8 bytes; UTF-8 keeps the order of code
//! points, so comparing the characters by their scalar values gives the
//! same order.

use vstd::prelude::*;

verus! {

/// `a` sorts strictly before `b`.
pub open spec fn str_lt(a: Seq<char>, b: Seq<char>) -> bool
    decreases a.len(),
{
    if a.len() == 0 {
        b.len() > 0
    } else if b.len() == 0 {
        false
    } else if a[0] != b[0] {
        (a[0] as u32) < (b[0] as u32)
    } else {
        str_lt(a.drop_first(), b.drop_first())
    }
}

/// `a` sorts before `b` or equals it.
pub open spec fn str_le(a: Seq<char>, b: Seq<char>) -> bool {
    !str_lt(b, a)
}

/// Whether `a` sorts strictly before `b`.
pub fn str_less(a: &Vec<char>, b: &Vec<char>) -> (r: bool)
    ensures
        r == str_lt(a@, b@),
{
    let mut i: usize = 0;
    assert(a@.skip(0) =~= a@);
    assert(b@.skip(0) =~= b@);
    while i < a.len() && i < b.len()
        invariant
            i <= a.len(),
            i <= b.len(),
            forall|j: int| 0 <= j < i ==> a@[j] == b@[j],
            str_lt(a@, b@) == str_lt(a@.skip(i as int), b@.skip(i as int)),
        decreases a.len() - i,
    {
        let ca = a[i];
        let cb = b[i];
        if ca != cb {
            assert(a@.skip(i as int)[0] == ca && b@.skip(i as int)[0] == cb);
            return (ca as u32) < (cb as u32);
        }
        let ghost x = a@.skip(i as int);
        let ghost y = b@.skip(i as int);
        assert(x.drop_first() =~= a@.skip(i + 1));
        assert(y.drop_first() =~= b@.skip(i + 1));
        i += 1;
    }
    i < b.len()
}

/// `str_lt` is irreflexive.
pub proof fn lemma_str_lt_irreflexive(a: Seq<char>)
    ensures
        !str_lt(a, a),
    decreases a.len(),
{
    if a.len() > 0 {
        lemma_str_lt_irreflexive(a.drop_first());
    }
}

/// `str_lt` is transitive.
pub proof fn lemma_str_lt_transitive(a: Seq<char>, b: Seq<char>, c: Seq<char>)
    requires
        str_lt(a, b),
        str_lt(b, c),
    ensures
        str_lt(a, c),
    decreases a.len(),
{
    if a.len() > 0 && b.len() > 0 && c.len() > 0 {
        if a[0] == b[0] && b[0] == c[0] {
            lemma_str_lt_transitive(a.drop_first(), b.drop_first(), c.drop_first());
        }
    }
}

/// Any two different sequences are ordered one way or the other.
pub proof fn lemma_str_lt_total(a: Seq<char>, b: Seq<char>)
    ensures
        a == b || str_lt(a, b) || str_lt(b, a),
    decreases a.len(),
{
    if a.len() > 0 && b.len() > 0 && a[0] == b[0] {
        lemma_str_lt_total(a.drop_first(), b.drop_first());
        if a.drop_first() == b.drop_first() {
            assert(a.drop_first().len() == b.drop_first().len());
            assert(a.len() == b.len());
            assert forall|i: int| 0 <= i < a.len() implies a[i] == b[i] by {
                if i > 0 {
                    assert(a[i] == a.drop_first()[i - 1]);
                    assert(b[i] == b.drop_first()[i - 1]);
                }
            }
            assert(a =~= b);
        }
    } else if a.len() > 0 && b.len() > 0 {
        vstd::utf8::char_u32_cast(a[0], a[0] as u32);
        vstd::utf8::char_u32_cast(b[0], b[0] as u32);
        assert((a[0] as u32) != (b[0] as u32));
    } else if a.len() == 0 && b.len() == 0 {
        assert(a =~= b);
    }
}

/// `str_le` is transitive.
pub proof fn lemma_str_le_transitive(a: Seq<char>, b: Seq<char>, c: Seq<char>)
    requires
        str_le(a, b),
        str_le(b, c),
    ensures
        str_le(a, c),
{
    lemma_str_lt_total(a, b);
    lemma_str_lt_total(b, c);
    if str_lt(c, a) {
        if a == b {
            assert(str_lt(c, b));
        } else if b == c {
            assert(str_lt(b, a));
        } else {
            lemma_str_lt_transitive(a, b, c);
            lemma_str_lt_transitive(c, a, b);
            lemma_str_lt_irreflexive(c);
        }
    }
}

// ---------------------------------------------------------------------------
// Stable insertion sort of keyed entries
// ---------------------------------------------------------------------------

/// A keyed entry: its sort key and the value it carries.
pub open spec fn keyed_views(v: Seq<(String, usize)>) -> Seq<(Seq<char>, usize)> {
    v.map_values(|p: (String, usize)| (p.0@, p.1))
}

/// Inserts `x` after every entry whose key is not greater than its key.
pub open spec fn insert_keyed(s: Seq<(Seq<char>, usize)>, x: (Seq<char>, usize)) -> Seq<
    (Seq<char>, usize),
>
    decreases s.len(),
{
    if s.len() == 0 {
        seq![x]
    } else if str_lt(x.0, s.last().0) {
        insert_keyed(s.drop_last(), x).push(s.last())
    } else {
        s.push(x)
    }
}

/// The entries ordered by key; entries with equal keys keep their order.
pub open spec fn sort_keyed(s: Seq<(Seq<char>, usize)>) -> Seq<(Seq<char>, usize)>
    decreases s.len(),
{
    if s.len() == 0 {
        s
    } else {
        insert_keyed(sort_keyed(s.drop_last()), s.last())
    }
}

/// Keys never decrease along the sequence.
pub open spec fn keys_sorted(s: Seq<(Seq<char>, usize)>) -> bool {
    forall|i: int, j: int| 0 <= i < j < s.len() ==> str_le(#[trigger] s[i].0, #[trigger] s[j].0)
}

proof fn lemma_insert_keyed_split(s: Seq<(Seq<char>, usize)>, x: (Seq<char>, usize), k: int)
    requires
        0 <= k <= s.len(),
        forall|j: int| k <= j < s.len() ==> str_lt(x.0, #[trigger] s[j].0),
        k > 0 ==> !str_lt(x.0, s[k - 1].0),
    ensures
        insert_keyed(s, x) == s.take(k).push(x) + s.skip(k),
    decreases s.len(),
{
    if s.len() == 0 {
        assert(s.take(k).push(x) + s.skip(k) =~= seq![x]);
    } else if k == s.len() {
        assert(!str_lt(x.0, s.last().0));
        assert(s.take(k).push(x) + s.skip(k) =~= s.push(x));
    } else {
        assert(str_lt(x.0, s.last().0));
        let t = s.drop_last();
        assert forall|j: int| k <= j < t.len() implies str_lt(x.0, #[trigger] t[j].0) by {
            assert(t[j] == s[j]);
        }
        lemma_insert_keyed_split(t, x, k);
        assert(insert_keyed(t, x).push(s.last()) =~= s.take(k).push(x) + s.skip(k));
    }
}

proof fn lemma_insert_keyed_sorted(s: Seq<(Seq<char>, usize)>, x: (Seq<char>, usize))
    requires
        keys_sorted(s),
    ensures
        keys_sorted(insert_keyed(s, x)),
        insert_keyed(s, x).to_multiset() == s.to_multiset().insert(x),
        insert_keyed(s, x).len() == s.len() + 1,
    decreases s.len(),
{
    broadcast use vstd::seq_lib::group_seq_properties;
    if s.len() == 0 {
        assert(seq![x] =~= Seq::<(Seq<char>, usize)>::empty().push(x));
    } else if str_lt(x.0, s.last().0) {
        let t = s.drop_last();
        assert(keys_sorted(t)) by {
            assert forall|i: int, j: int| 0 <= i < j < t.len() implies str_le(
                #[trigger] t[i].0,
                #[trigger] t[j].0,
            ) by {
                assert(t[i] == s[i] && t[j] == s[j]);
            }
        }
        lemma_insert_keyed_sorted(t, x);
        let u = insert_keyed(t, x);
        let r = u.push(s.last());
        assert(s =~= t.push(s.last()));
        assert forall|i: int, j: int| 0 <= i < j < r.len() implies str_le(
            #[trigger] r[i].0,
            #[trigger] r[j].0,
        ) by {
            if j == r.len() - 1 {
                assert(r[j] == s.last());
                assert(u.to_multiset().count(r[i]) > 0) by {
                    assert(u.contains(u[i]));
                }
                assert(t.push(x).to_multiset() == t.to_multiset().insert(x));
                if r[i] == x {
                    lemma_str_lt_total(x.0, s.last().0);
                    lemma_str_lt_irreflexive(x.0);
                    if str_lt(s.last().0, x.0) {
                        lemma_str_lt_transitive(x.0, s.last().0, x.0);
                    }
                } else {
                    assert(t.to_multiset().count(r[i]) > 0);
                    assert(t.contains(r[i]));
                    let m = choose|m: int| 0 <= m < t.len() && t[m] == r[i];
                    assert(s[m] == t[m]);
                    assert(str_le(s[m].0, s[s.len() - 1].0));
                }
            } else {
                assert(r[i] == u[i] && r[j] == u[j]);
            }
        }
    } else {
        let r = s.push(x);
        assert forall|i: int, j: int| 0 <= i < j < r.len() implies str_le(
            #[trigger] r[i].0,
            #[trigger] r[j].0,
        ) by {
            if j == r.len() - 1 {
                assert(r[j] == x);
                if i < s.len() - 1 {
                    assert(str_le(s[i].0, s[s.len() - 1].0));
                    lemma_str_le_transitive(s[i].0, s.last().0, x.0);
                }
            } else {
                assert(r[i] == s[i] && r[j] == s[j]);
            }
        }
    }
}

/// Sorting gives keys in order and the same entries.
pub proof fn lemma_sort_keyed(s: Seq<(Seq<char>, usize)>)
    ensures
        keys_sorted(sort_keyed(s)),
        sort_keyed(s).to_multiset() == s.to_multiset(),
        sort_keyed(s).len() == s.len(),
    decreases s.len(),
{
    broadcast use vstd::seq_lib::group_seq_properties;
    if s.len() > 0 {
        lemma_sort_keyed(s.drop_last());
        lemma_insert_keyed_sorted(sort_keyed(s.drop_last()), s.last());
        assert(s =~= s.drop_last().push(s.last()));
    }
}

/// Returns the entries ordered by key, keeping the order of equal keys.
pub fn sort_by_key(v: &Vec<(String, usize)>) -> (r: Vec<(String, usize)>)
    ensures
        keyed_views(r@) == sort_keyed(keyed_views(v@)),
{
    let mut r: Vec<(String, usize)> = Vec::new();
    let mut taken: usize = 0;
    while taken < v.len()
        invariant
            taken <= v.len(),
            keyed_views(r@) == sort_keyed(keyed_views(v@.take(taken as int))),
        decreases v.len() - taken,
    {
        let x = (v[taken].0.clone(), v[taken].1);
        let ghost s = keyed_views(r@);
        let xk = to_chars_of(&x.0);
        // Find where `x` goes: after every entry whose key is not greater.
        let mut k: usize = r.len();
        let mut found = false;
        while k > 0 && !found
            invariant
                k <= r.len(),
                s == keyed_views(r@),
                xk@ == x.0@,
                forall|j: int| k <= j < r.len() ==> str_lt(x.0@, #[trigger] s[j].0),
                found ==> k > 0 && !str_lt(x.0@, s[k - 1].0),
            decreases k, if found { 0nat } else { 1nat },
        {
            let yk = to_chars_of(&r[k - 1].0);
            assert(s[k - 1].0 == r@[k - 1].0@);
            if str_less(&xk, &yk) {
                k -= 1;
            } else {
                found = true;
            }
        }
        proof {
            lemma_insert_keyed_split(s, (x.0@, x.1), k as int);
        }
        r.insert(k, x);
        assert(keyed_views(r@) =~= s.take(k as int).push((x.0@, x.1)) + s.skip(k as int));
        proof {
            let w = keyed_views(v@.take(taken + 1));
            assert(w.drop_last() =~= keyed_views(v@.take(taken as int)));
            assert(w.last() == (x.0@, x.1));
        }
        taken += 1;
    }
    assert(v@.take(taken as int) =~= v@);
    r
}

fn to_chars_of(s: &String) -> (v: Vec<char>)
    ensures
        v@ == s@,
{
    crate::text::to_chars(s.as_str())
}

} // verus!

verus! {

// ---------------------------------------------------------------------------
// First element satisfying a predicate
// ---------------------------------------------------------------------------

/// Index of the first element of `s` satisfying `p`, or `s.len()` when none
/// does.
pub open spec fn first_where<T>(s: Seq<T>, p: spec_fn(T) -> bool) -> int
    decreases s.len(),
{
    if s.len() == 0 {
        0
    } else if p(s[0]) {
        0
    } else {
        1 + first_where(s.drop_first(), p)
    }
}

/// `first_where` is the first position satisfying `p` (or the length).
pub proof fn lemma_first_where<T>(s: Seq<T>, p: spec_fn(T) -> bool, k: int)
    requires
        0 <= k <= s.len(),
        forall|j: int| 0 <= j < k ==> !p(#[trigger] s[j]),
        k < s.len() ==> p(s[k]),
    ensures
        first_where(s, p) == k,
    decreases k,
{
    if k > 0 {
        assert(!p(s[0]));
        let t = s.drop_first();
        assert forall|j: int| 0 <= j < k - 1 implies !p(#[trigger] t[j]) by {
            assert(t[j] == s[j + 1]);
        }
        if k - 1 < t.len() {
            assert(t[k - 1] == s[k]);
        }
        lemma_first_where(t, p, k - 1);
    }
}

} // verus!

verus! {

/// Every entry of the sorted sequence comes from the input.
pub proof fn lemma_sort_keyed_members(s: Seq<(Seq<char>, usize)>)
    ensures
        forall|i: int| 0 <= i < sort_keyed(s).len() ==> s.contains(#[trigger] sort_keyed(s)[i]),
{
    broadcast use vstd::seq_lib::group_to_multiset_ensures;
    lemma_sort_keyed(s);
    assert forall|i: int| 0 <= i < sort_keyed(s).len() implies s.contains(
        #[trigger] sort_keyed(s)[i],
    ) by {
        let x = sort_keyed(s)[i];
        assert(sort_keyed(s).contains(x));
        assert(sort_keyed(s).to_multiset().count(x) > 0);
    }
}

/// The entries `i < n` that `keep` selects, as `(key(i), i)`, in order.
pub open spec fn keyed_filter(
    n: nat,
    keep: spec_fn(int) -> bool,
    key: spec_fn(int) -> Seq<char>,
) -> Seq<(Seq<char>, usize)>
    decreases n,
{
    if n == 0 {
        Seq::empty()
    } else {
        let r = keyed_filter((n - 1) as nat, keep, key);
        if keep(n - 1) {
            r.push((key(n - 1), (n - 1) as usize))
        } else {
            r
        }
    }
}

/// Positions carried by `keyed_filter` are below `n` and selected by `keep`.
pub proof fn lemma_keyed_filter_bounds(
    n: nat,
    keep: spec_fn(int) -> bool,
    key: spec_fn(int) -> Seq<char>,
)
    requires
        n <= usize::MAX + 1,
    ensures
        forall|i: int|
            0 <= i < keyed_filter(n, keep, key).len() ==> {
                let p = #[trigger] keyed_filter(n, keep, key)[i];
                &&& p.1 < n
                &&& keep(p.1 as int)
                &&& p.0 == key(p.1 as int)
            },
    decreases n,
{
    if n > 0 {
        let r = keyed_filter((n - 1) as nat, keep, key);
        lemma_keyed_filter_bounds((n - 1) as nat, keep, key);
        let f = keyed_filter(n, keep, key);
        assert forall|i: int| 0 <= i < f.len() implies {
            let p = #[trigger] f[i];
            &&& p.1 < n
            &&& keep(p.1 as int)
            &&& p.0 == key(p.1 as int)
        } by {
            if i < r.len() {
                assert(f[i] == r[i]);
            } else {
                assert(keep(n - 1));
                assert(f[i] == (key(n - 1), (n - 1) as usize));
            }
        }
    }
}

/// Facts about `keyed_filter` carry over to its sorted form.
pub proof fn lemma_sorted_filter_bounds(
    n: nat,
    keep: spec_fn(int) -> bool,
    key: spec_fn(int) -> Seq<char>,
)
    requires
        n <= usize::MAX + 1,
    ensures
        forall|i: int|
            0 <= i < sort_keyed(keyed_filter(n, keep, key)).len() ==> {
                let p = #[trigger] sort_keyed(keyed_filter(n, keep, key))[i];
                &&& p.1 < n
                &&& keep(p.1 as int)
                &&& p.0 == key(p.1 as int)
            },
{
    let s = keyed_filter(n, keep, key);
    lemma_keyed_filter_bounds(n, keep, key);
    lemma_sort_keyed_members(s);
    assert forall|i: int| 0 <= i < sort_keyed(s).len() implies {
        let p = #[trigger] sort_keyed(s)[i];
        &&& p.1 < n
        &&& keep(p.1 as int)
        &&& p.0 == key(p.1 as int)
    } by {
        let p = sort_keyed(s)[i];
        assert(s.contains(p));
        let j = choose|j: int| 0 <= j < s.len() && s[j] == p;
        assert(s[j] == keyed_filter(n, keep, key)[j]);
    }
}

} // verus!

verus! {

/// A selected position appears in `keyed_filter` with its key.
pub proof fn lemma_keyed_filter_has(
    n: nat,
    keep: spec_fn(int) -> bool,
    key: spec_fn(int) -> Seq<char>,
    i: int,
)
    requires
        0 <= i < n,
        keep(i),
        n <= usize::MAX + 1,
    ensures
        keyed_filter(n, keep, key).contains((key(i), i as usize)),
    decreases n,
{
    let r = keyed_filter((n - 1) as nat, keep, key);
    if i == n - 1 {
        assert(keyed_filter(n, keep, key)[r.len() as int] == (key(i), i as usize));
    } else {
        lemma_keyed_filter_has((n - 1) as nat, keep, key, i);
        let j = choose|j: int| 0 <= j < r.len() && r[j] == (key(i), i as usize);
        if keep(n - 1) {
            assert(keyed_filter(n, keep, key)[j] == r[j]);
        }
    }
}

/// Sorting keeps every entry.
pub proof fn lemma_sort_keyed_keeps(s: Seq<(Seq<char>, usize)>, x: (Seq<char>, usize))
    requires
        s.contains(x),
    ensures
        sort_keyed(s).contains(x),
{
    broadcast use vstd::seq_lib::group_to_multiset_ensures;
    lemma_sort_keyed(s);
    assert(s.to_multiset().count(x) > 0);
}

} // verus!

verus! {

/// The positions `keyed_filter` carries strictly increase.
pub proof fn lemma_keyed_filter_increasing(
    n: nat,
    keep: spec_fn(int) -> bool,
    key: spec_fn(int) -> Seq<char>,
)
    requires
        n <= usize::MAX + 1,
    ensures
        forall|i: int, j: int|
            0 <= i < j < keyed_filter(n, keep, key).len() ==> (#[trigger] keyed_filter(
                n,
                keep,
                key,
            )[i]).1 < (#[trigger] keyed_filter(n, keep, key)[j]).1,
    decreases n,
{
    if n > 0 {
        lemma_keyed_filter_increasing((n - 1) as nat, keep, key);
        lemma_keyed_filter_bounds((n - 1) as nat, keep, key);
        let r = keyed_filter((n - 1) as nat, keep, key);
        let f = keyed_filter(n, keep, key);
        assert forall|i: int, j: int| 0 <= i < j < f.len() implies (#[trigger] f[i]).1 < (
        #[trigger] f[j]).1 by {
            assert(f[i] == r[i]);
            if j < r.len() {
                assert(f[j] == r[j]);
            } else {
                assert(f[j].1 == n - 1);
            }
        }
    }
}

/// Sorting an entry list without repeats gives one without repeats, in
/// which distinct entries carry distinct positions.
pub proof fn lemma_sorted_filter_distinct(
    n: nat,
    keep: spec_fn(int) -> bool,
    key: spec_fn(int) -> Seq<char>,
)
    requires
        n <= usize::MAX + 1,
    ensures
        forall|i: int, j: int|
            0 <= i < sort_keyed(keyed_filter(n, keep, key)).len() && 0 <= j < sort_keyed(
                keyed_filter(n, keep, key),
            ).len() && i != j ==> (#[trigger] sort_keyed(keyed_filter(n, keep, key))[i]).1
                != (#[trigger] sort_keyed(keyed_filter(n, keep, key))[j]).1,
{
    broadcast use vstd::seq_lib::group_to_multiset_ensures;
    let f = keyed_filter(n, keep, key);
    let s = sort_keyed(f);
    lemma_keyed_filter_increasing(n, keep, key);
    lemma_sorted_filter_bounds(n, keep, key);
    assert(f.no_duplicates()) by {
        assert forall|i: int, j: int| 0 <= i < f.len() && 0 <= j < f.len() && i != j implies f[i]
            != f[j] by {
            if i < j {
                assert(f[i].1 < f[j].1);
            } else {
                assert(f[j].1 < f[i].1);
            }
        }
    }
    f.lemma_multiset_has_no_duplicates();
    lemma_sort_keyed(f);
    assert forall|x: (Seq<char>, usize)| s.to_multiset().contains(x) implies s.to_multiset().count(x)
        == 1 by {
        assert(f.to_multiset().contains(x));
    }
    s.lemma_multiset_has_no_duplicates_conv();
    assert forall|i: int, j: int|
        0 <= i < s.len() && 0 <= j < s.len() && i != j implies (#[trigger] s[i]).1 != (
        #[trigger] s[j]).1 by {
        assert(s[i] != s[j]);
        assert(s[i].0 == key(s[i].1 as int));
        assert(s[j].0 == key(s[j].1 as int));
    }
}

} // verus!
