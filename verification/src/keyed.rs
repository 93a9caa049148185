//! Entries keyed by a decimal number: keeping those whose key parses, and ordering
//! them by that number while keeping the given order among equal numbers.
use vstd::prelude::*;

use crate::text::{parse_u32, parse_u32_spec};

verus! {

/// The entries of `s` whose number is `k`, in their order in `s`.
pub open spec fn with_key<T>(s: Seq<(u32, T)>, k: u32) -> Seq<(u32, T)>
    decreases s.len(),
{
    if s.len() == 0 {
        Seq::empty()
    } else {
        let rest = with_key(s.drop_last(), k);
        if s.last().0 == k {
            rest.push(s.last())
        } else {
            rest
        }
    }
}

/// The numbers never decrease along `s`.
pub open spec fn sorted_by_key<T>(s: Seq<(u32, T)>) -> bool {
    forall|i: int, j: int| 0 <= i <= j < s.len() ==> s[i].0 <= s[j].0
}

/// `r` is what a stable sort by number makes of `s` (`sort_by_key` on the number):
/// ordered by number, and for every number the same entries in the same order.
pub open spec fn is_stable_sort_of<T>(r: Seq<(u32, T)>, s: Seq<(u32, T)>) -> bool {
    &&& sorted_by_key(r)
    &&& forall|k: u32| #[trigger] with_key(r, k) == with_key(s, k)
}

/// The entries whose key `parse::<u32>()` accepts, each paired with the number, in order
/// (the `filter_map` over `key.parse().ok()`).
pub open spec fn parse_keys<T>(s: Seq<(Seq<char>, T)>) -> Seq<(u32, T)>
    decreases s.len(),
{
    if s.len() == 0 {
        Seq::empty()
    } else {
        let rest = parse_keys(s.drop_last());
        match parse_u32_spec(s.last().0) {
            Some(n) => rest.push((n, s.last().1)),
            None => rest,
        }
    }
}

pub proof fn lemma_with_key_add<T>(a: Seq<(u32, T)>, b: Seq<(u32, T)>, k: u32)
    ensures
        with_key(a + b, k) == with_key(a, k) + with_key(b, k),
    decreases b.len(),
{
    if b.len() == 0 {
        assert(a + b =~= a);
        assert(with_key(a, k) + with_key(b, k) =~= with_key(a, k));
    } else {
        lemma_with_key_add(a, b.drop_last(), k);
        assert((a + b).drop_last() =~= a + b.drop_last());
        assert((a + b).last() == b.last());
        if b.last().0 == k {
            assert(with_key(a, k) + with_key(b.drop_last(), k).push(b.last()) =~= (with_key(a, k)
                + with_key(b.drop_last(), k)).push(b.last()));
        }
    }
}

proof fn lemma_with_key_none<T>(s: Seq<(u32, T)>, k: u32)
    requires
        forall|i: int| 0 <= i < s.len() ==> s[i].0 != k,
    ensures
        with_key(s, k) == Seq::<(u32, T)>::empty(),
    decreases s.len(),
{
    if s.len() > 0 {
        lemma_with_key_none(s.drop_last(), k);
    }
}

proof fn lemma_with_key_single<T>(x: (u32, T), k: u32)
    ensures
        with_key(seq![x], k) == (if x.0 == k { seq![x] } else { Seq::empty() }),
{
    assert(seq![x].drop_last() =~= Seq::<(u32, T)>::empty());
    assert(with_key(Seq::<(u32, T)>::empty(), k) == Seq::<(u32, T)>::empty());
    assert(seq![x].last() == x);
    if x.0 == k {
        assert(Seq::<(u32, T)>::empty().push(x) =~= seq![x]);
    }
}

/// Orders entries by number, keeping the given order among equal numbers.
pub fn stable_sort_by_key<T>(v: Vec<(u32, T)>) -> (r: Vec<(u32, T)>)
    ensures
        is_stable_sort_of(r@, v@),
        r@.len() == v@.len(),
{
    let ghost orig = v@;
    let mut v = v;
    let mut r: Vec<(u32, T)> = Vec::new();
    proof {
        assert(orig.skip(orig.len() as int) =~= Seq::<(u32, T)>::empty());
    }
    while v.len() > 0
        invariant
            v@.len() <= orig.len(),
            v@ =~= orig.take(v@.len() as int),
            is_stable_sort_of(r@, orig.skip(v@.len() as int)),
            r@.len() + v@.len() == orig.len(),
        decreases v@.len(),
    {
        let ghost before = r@;
        let x = v.pop().unwrap();
        let ghost n = v@.len() as int;
        assert(x == orig[n]);
        // first position whose number is at least the new one
        let mut p: usize = 0;
        while p < r.len() && r[p].0 < x.0
            invariant
                p <= r@.len(),
                r@ == before,
                forall|j: int| 0 <= j < p ==> r@[j].0 < x.0,
            decreases r@.len() - p,
        {
            p = p + 1;
        }
        proof {
            assert(p < r@.len() ==> r@[p as int].0 >= x.0);
        }
        r.insert(p, x);
        proof {
            let q: int = p as int;
            assert(orig.skip(n) =~= seq![x] + orig.skip(n + 1));
            assert(r@ =~= before.take(q) + seq![x] + before.skip(q));
            assert(before =~= before.take(q) + before.skip(q));
            assert forall|k: u32| #[trigger] with_key(r@, k) == with_key(orig.skip(n), k) by {
                lemma_with_key_add(before.take(q) + seq![x], before.skip(q), k);
                lemma_with_key_add(before.take(q), seq![x], k);
                lemma_with_key_add(before.take(q), before.skip(q), k);
                lemma_with_key_add(seq![x], orig.skip(n + 1), k);
                lemma_with_key_single(x, k);
                assert(with_key(before, k) == with_key(orig.skip(n + 1), k));
                if x.0 == k {
                    assert forall|i: int| 0 <= i < before.take(q).len() implies before.take(
                        q,
                    )[i].0 != k by {
                        assert(before.take(q)[i] == before[i]);
                    }
                    lemma_with_key_none(before.take(q), k);
                    assert(with_key(before.take(q), k) + seq![x] =~= seq![x]);
                    assert(with_key(before.take(q), k) + with_key(before.skip(q), k)
                        =~= with_key(before.skip(q), k));
                } else {
                    assert(with_key(before.take(q), k) + Seq::<(u32, T)>::empty() =~= with_key(
                        before.take(q),
                        k,
                    ));
                    assert(Seq::<(u32, T)>::empty() + with_key(orig.skip(n + 1), k) =~= with_key(
                        orig.skip(n + 1),
                        k,
                    ));
                }
            }
            assert forall|i: int, j: int| 0 <= i <= j < r@.len() implies r@[i].0 <= r@[j].0 by {
                if i < q && j > q {
                    assert(r@[i] == before[i]);
                    assert(r@[j] == before[j - 1]);
                } else if i > q {
                    assert(r@[i] == before[i - 1]);
                    assert(r@[j] == before[j - 1]);
                } else if j < q {
                    assert(r@[i] == before[i]);
                    assert(r@[j] == before[j]);
                } else if i == q && j > q {
                    assert(r@[j] == before[j - 1]);
                    assert(before[q].0 <= before[j - 1].0);
                } else if j == q && i < q {
                    assert(r@[i] == before[i]);
                }
            }
        }
    }
    proof {
        assert(orig.skip(0) =~= orig);
    }
    r
}

/// The keys of borrowed entries taken as character sequences.
pub open spec fn key_views<'a, T>(s: Seq<(&'a str, T)>) -> Seq<(Seq<char>, T)> {
    s.map_values(|e: (&'a str, T)| (e.0@, e.1))
}

/// Pairs each entry whose key `parse::<u32>()` accepts with that number, in order.
pub fn parse_keys_of<'a, T: Copy>(entries: &Vec<(&'a str, T)>) -> (r: Vec<(u32, T)>)
    ensures
        r@ == parse_keys(key_views(entries@)),
{
    let mut r: Vec<(u32, T)> = Vec::new();
    let mut i: usize = 0;
    while i < entries.len()
        invariant
            i <= entries@.len(),
            r@ == parse_keys(key_views(entries@.take(i as int))),
        decreases entries@.len() - i,
    {
        let (key, value) = entries[i];
        let parsed = parse_u32(key);
        proof {
            assert(key_views(entries@.take(i + 1)).drop_last() =~= key_views(
                entries@.take(i as int),
            ));
        }
        match parsed {
            Some(n) => r.push((n, value)),
            None => {},
        }
        i = i + 1;
    }
    assert(entries@.take(i as int) =~= entries@);
    r
}

/// Every entry whose key `parse::<u32>()` accepts is kept, whatever its number, in order and
/// with that number; the others are dropped: the result is the entries whose key parses,
/// each paired with the parsed number.
pub proof fn lemma_parse_keys_keeps_parsable<T>(s: Seq<(Seq<char>, T)>)
    ensures
        parse_keys(s) == s.filter(|e: (Seq<char>, T)| parse_u32_spec(e.0) is Some).map_values(
            |e: (Seq<char>, T)| (parse_u32_spec(e.0)->0, e.1),
        ),
        parse_keys(s).len() == s.filter(|e: (Seq<char>, T)| parse_u32_spec(e.0) is Some).len(),
        forall|i: int|
            0 <= i < s.len() && #[trigger] parse_u32_spec(s[i].0) is Some ==> parse_keys(s).contains(
                (parse_u32_spec(s[i].0)->0, s[i].1),
            ),
    decreases s.len(),
{
    let pred = |e: (Seq<char>, T)| parse_u32_spec(e.0) is Some;
    let f = |e: (Seq<char>, T)| (parse_u32_spec(e.0)->0, e.1);
    if s.len() == 0 {
        reveal(Seq::filter);
        assert(s.filter(pred).map_values(f) =~= Seq::empty());
    } else {
        let d = s.drop_last();
        lemma_parse_keys_keeps_parsable(d);
        assert(s =~= d.push(s.last()));
        d.lemma_filter_push(s.last(), pred);
        if pred(s.last()) {
            assert(d.filter(pred).push(s.last()).map_values(f) =~= d.filter(pred).map_values(f).push(
                f(s.last()),
            ));
        }
    }
    let r = parse_keys(s);
    assert forall|i: int|
        0 <= i < s.len() && #[trigger] parse_u32_spec(s[i].0) is Some implies r.contains(
            (parse_u32_spec(s[i].0)->0, s[i].1),
        ) by {
        s.lemma_filter_contains(pred, i);
        let fl = s.filter(pred);
        let k = choose|k: int| 0 <= k < fl.len() && fl[k] == s[i];
        assert(r[k] == f(fl[k]));
    }
}

/// Parsing the keys commutes with changing the values by `f`.
pub proof fn lemma_parse_keys_map<T, U>(s: Seq<(Seq<char>, T)>, f: spec_fn(T) -> U)
    ensures
        parse_keys(s).map_values(|e: (u32, T)| (e.0, f(e.1))) == parse_keys(
            s.map_values(|e: (Seq<char>, T)| (e.0, f(e.1))),
        ),
    decreases s.len(),
{
    let g = |e: (Seq<char>, T)| (e.0, f(e.1));
    let h = |e: (u32, T)| (e.0, f(e.1));
    if s.len() > 0 {
        lemma_parse_keys_map(s.drop_last(), f);
        assert(s.map_values(g).drop_last() =~= s.drop_last().map_values(g));
        let rest = parse_keys(s.drop_last());
        match parse_u32_spec(s.last().0) {
            Some(n) => {
                assert(rest.push((n, s.last().1)).map_values(h) =~= rest.map_values(h).push(
                    (n, f(s.last().1)),
                ));
            },
            None => {},
        }
    } else {
        assert(parse_keys(s).map_values(h) =~= Seq::empty());
        assert(s.map_values(g) =~= Seq::empty());
    }
}

/// Selecting a number commutes with changing the values by `f`.
pub proof fn lemma_with_key_map<T, U>(s: Seq<(u32, T)>, k: u32, f: spec_fn(T) -> U)
    ensures
        with_key(s, k).map_values(|e: (u32, T)| (e.0, f(e.1))) == with_key(
            s.map_values(|e: (u32, T)| (e.0, f(e.1))),
            k,
        ),
    decreases s.len(),
{
    let g = |e: (u32, T)| (e.0, f(e.1));
    if s.len() > 0 {
        lemma_with_key_map(s.drop_last(), k, f);
        assert(s.map_values(g).drop_last() =~= s.drop_last().map_values(g));
        let rest = with_key(s.drop_last(), k);
        if s.last().0 == k {
            assert(rest.push(s.last()).map_values(g) =~= rest.map_values(g).push(g(s.last())));
        }
    } else {
        assert(with_key(s, k).map_values(g) =~= Seq::empty());
        assert(s.map_values(g) =~= Seq::empty());
    }
}

/// A stable sort stays one when the values are changed by `f`.
pub proof fn lemma_stable_sort_map<T, U>(r: Seq<(u32, T)>, s: Seq<(u32, T)>, f: spec_fn(T) -> U)
    requires
        is_stable_sort_of(r, s),
    ensures
        is_stable_sort_of(
            r.map_values(|e: (u32, T)| (e.0, f(e.1))),
            s.map_values(|e: (u32, T)| (e.0, f(e.1))),
        ),
{
    let g = |e: (u32, T)| (e.0, f(e.1));
    assert forall|k: u32| #[trigger] with_key(r.map_values(g), k) == with_key(s.map_values(g), k) by {
        lemma_with_key_map(r, k, f);
        lemma_with_key_map(s, k, f);
    }
    assert forall|i: int, j: int|
        0 <= i <= j < r.map_values(g).len() implies r.map_values(g)[i].0 <= r.map_values(g)[j].0 by {
        assert(r[i].0 <= r[j].0);
    }
}

/// Entries given as (key, value) strings, taken as character sequences.
pub open spec fn entry_views(entries: Seq<(String, String)>) -> Seq<(Seq<char>, Seq<char>)> {
    entries.map_values(|e: (String, String)| (e.0@, e.1@))
}

/// Numbered values taken as character sequences.
pub open spec fn numbered_views<'a>(s: Seq<(u32, &'a str)>) -> Seq<(u32, Seq<char>)> {
    s.map_values(|e: (u32, &'a str)| (e.0, e.1@))
}

/// The entries (key, value) whose key `parse::<u32>()` accepts, as (number, value), ordered
/// by number, entries with equal numbers in their given order.
pub fn sorted_by_number<'a>(entries: &'a Vec<(String, String)>) -> (r: Vec<(u32, &'a str)>)
    ensures
        is_stable_sort_of(numbered_views(r@), parse_keys(entry_views(entries@))),
        r@.len() == parse_keys(entry_views(entries@)).len(),
{
    let mut borrowed: Vec<(&str, &str)> = Vec::new();
    let mut i: usize = 0;
    while i < entries.len()
        invariant
            i <= entries@.len(),
            borrowed@.len() == i,
            forall|j: int|
                0 <= j < i ==> (#[trigger] borrowed@[j]).0@ == entries@[j].0@ && borrowed@[j].1@
                    == entries@[j].1@,
        decreases entries@.len() - i,
    {
        borrowed.push((entries[i].0.as_str(), entries[i].1.as_str()));
        i = i + 1;
    }
    let parsed = parse_keys_of(&borrowed);
    let sorted = stable_sort_by_key(parsed);
    proof {
        let f = |x: &'a str| x@;
        assert(key_views(borrowed@).map_values(|e: (Seq<char>, &'a str)| (e.0, f(e.1)))
            =~= entry_views(entries@));
        lemma_parse_keys_map(key_views(borrowed@), f);
        lemma_stable_sort_map(sorted@, parsed@, f);
        assert(numbered_views(sorted@) =~= sorted@.map_values(|e: (u32, &'a str)| (e.0, f(e.1))));
        assert(parsed@.map_values(|e: (u32, &'a str)| (e.0, f(e.1))).len() == parsed@.len());
    }
    sorted
}

} // verus!
