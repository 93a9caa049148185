//! File system paths held as strings, with the meaning that `std::path` gives them on Unix:
//! `/` separates components, a leading `/` makes a path absolute.
use vstd::prelude::*;

use crate::text::{chars_of, push_chars, string_of};

verus! {

/// `base.join(name)`: an absolute `name` replaces `base`; otherwise `name` is appended,
/// with a `/` in between unless `base` is empty or already ends with one.
pub open spec fn join_spec(base: Seq<char>, name: Seq<char>) -> Seq<char> {
    if name.len() > 0 && name[0] == '/' {
        name
    } else if base.len() == 0 || base.last() == '/' {
        base + name
    } else {
        base + seq!['/'] + name
    }
}

/// Position of the last `c` in `s`, or -1.
pub open spec fn last_index(s: Seq<char>, c: char) -> int
    decreases s.len(),
{
    if s.len() == 0 {
        -1
    } else if s.last() == c {
        s.len() - 1
    } else {
        last_index(s.drop_last(), c)
    }
}

/// Bounds of the file name (the last component, as `Path::file_name` finds it) among the
/// first `end` characters of `p`: trailing `/` and `.` components are passed over, and
/// there is none when the path is empty, is a root, ends in `..` or is `.` itself.
pub open spec fn name_range(p: Seq<char>, end: int) -> Option<(int, int)>
    decreases end,
{
    if end <= 0 || end > p.len() {
        None
    } else if p[end - 1] == '/' {
        name_range(p, end - 1)
    } else if p[end - 1] == '.' && (end == 1 || p[end - 2] == '/') {
        if end == 1 {
            None
        } else {
            name_range(p, end - 1)
        }
    } else if end >= 2 && p[end - 1] == '.' && p[end - 2] == '.' && (end == 2 || p[end - 3]
        == '/') {
        None
    } else {
        Some((last_index(p.take(end), '/') + 1, end))
    }
}

/// `Path::file_name`.
pub open spec fn file_name_spec(p: Seq<char>) -> Option<Seq<char>> {
    match name_range(p, p.len() as int) {
        Some((s, e)) => Some(p.subrange(s, e)),
        None => None,
    }
}

/// Where the file stem of the file name `p[s..e]` ends: before its last `.`, unless that dot
/// is its first character or there is none.
pub open spec fn stem_end(p: Seq<char>, s: int, e: int) -> int {
    let k: int = last_index(p.subrange(s, e), '.');
    if k > 0 {
        s + k
    } else {
        e
    }
}

/// `p.with_extension(ext)`: the path up to the end of the file stem, then `.` and `ext`
/// (nothing when `ext` is empty); unchanged when there is no file name.
pub open spec fn with_extension_spec(p: Seq<char>, ext: Seq<char>) -> Seq<char> {
    match name_range(p, p.len() as int) {
        None => p,
        Some((s, e)) => {
            let t = p.take(stem_end(p, s, e));
            if ext.len() == 0 {
                t
            } else {
                t + seq!['.'] + ext
            }
        },
    }
}

/// `p.with_added_extension(ext)`: the path up to the end of the file name, then `.` and
/// `ext`; unchanged when there is no file name or `ext` is empty.
pub open spec fn with_added_extension_spec(p: Seq<char>, ext: Seq<char>) -> Seq<char> {
    match name_range(p, p.len() as int) {
        None => p,
        Some((s, e)) => if ext.len() == 0 {
            p
        } else {
            p.take(e) + seq!['.'] + ext
        },
    }
}

/// Joining keeps the name whole at the end: an absolute name is the result, a relative
/// one ends it.
pub proof fn lemma_join_ends_with_name(base: Seq<char>, name: Seq<char>)
    ensures
        name.len() > 0 && name[0] == '/' ==> join_spec(base, name) == name,
        join_spec(base, name).len() >= name.len(),
        join_spec(base, name).skip(join_spec(base, name).len() - name.len()) == name,
{
    let j = join_spec(base, name);
    assert(j.skip(j.len() - name.len()) =~= name);
}

proof fn lemma_last_index_found(s: Seq<char>, c: char, k: int)
    requires
        0 <= k < s.len(),
        s[k] == c,
        forall|j: int| k < j < s.len() ==> s[j] != c,
    ensures
        last_index(s, c) == k,
    decreases s.len(),
{
    if k < s.len() - 1 {
        lemma_last_index_found(s.drop_last(), c, k);
    }
}

proof fn lemma_last_index_none(s: Seq<char>, c: char)
    requires
        forall|j: int| 0 <= j < s.len() ==> s[j] != c,
    ensures
        last_index(s, c) == -1,
    decreases s.len(),
{
    if s.len() > 0 {
        lemma_last_index_none(s.drop_last(), c);
    }
}

/// Position of the last `c` among `v[from..to]`, counted from `from`, or -1.
fn last_index_in(v: &[char], from: usize, to: usize, c: char) -> (r: Option<usize>)
    requires
        from <= to <= v@.len(),
    ensures
        match r {
            Some(k) => k == last_index(v@.subrange(from as int, to as int), c),
            None => last_index(v@.subrange(from as int, to as int), c) == -1,
        },
{
    let ghost s = v@.subrange(from as int, to as int);
    let mut i: usize = to;
    while i > from
        invariant
            from <= i <= to,
            to <= v@.len(),
            s == v@.subrange(from as int, to as int),
            forall|j: int| i <= j < to ==> v@[j] != c,
        decreases i - from,
    {
        if v[i - 1] == c {
            proof {
                lemma_last_index_found(s, c, i - 1 - from);
            }
            return Some(i - 1 - from);
        }
        i = i - 1;
    }
    proof {
        lemma_last_index_none(s, c);
    }
    None
}

fn name_range_of(p: &[char], end: usize) -> (r: Option<(usize, usize)>)
    requires
        end <= p@.len(),
    ensures
        match name_range(p@, end as int) {
            Some((s, e)) => r == Some((s as usize, e as usize)) && 0 <= s <= e <= end,
            None => r is None,
        },
    decreases end,
{
    if end == 0 {
        None
    } else if p[end - 1] == '/' {
        name_range_of(p, end - 1)
    } else if p[end - 1] == '.' && (end == 1 || p[end - 2] == '/') {
        if end == 1 {
            None
        } else {
            name_range_of(p, end - 1)
        }
    } else if end >= 2 && p[end - 1] == '.' && p[end - 2] == '.' && (end == 2 || p[end - 3]
        == '/') {
        None
    } else {
        let k = last_index_in(p, 0, end, '/');
        proof {
            assert(p@.subrange(0, end as int) =~= p@.take(end as int));
            lemma_last_index_bounds(p@.take(end as int), '/');
        }
        match k {
            Some(k) => Some((k + 1, end)),
            None => Some((0, end)),
        }
    }
}

proof fn lemma_last_index_bounds(s: Seq<char>, c: char)
    ensures
        -1 <= last_index(s, c) < s.len(),
    decreases s.len(),
{
    if s.len() > 0 {
        lemma_last_index_bounds(s.drop_last(), c);
    }
}

/// `base.join(name)` on Unix paths.
pub fn join(base: &str, name: &str) -> (r: String)
    ensures
        r@ == join_spec(base@, name@),
{
    let b = chars_of(base);
    let n = chars_of(name);
    if n.len() > 0 && n[0] == '/' {
        return string_of(n.as_slice());
    }
    let mut r = string_of(b.as_slice());
    if !(b.len() == 0 || b[b.len() - 1] == '/') {
        push_chars(&mut r, &['/']);
    }
    push_chars(&mut r, n.as_slice());
    r
}

/// `Path::file_name`, as a string.
pub fn file_name(p: &str) -> (r: Option<String>)
    ensures
        match file_name_spec(p@) {
            Some(n) => r matches Some(x) && x@ == n,
            None => r is None,
        },
{
    let v = chars_of(p);
    match name_range_of(v.as_slice(), v.len()) {
        Some((s, e)) => {
            let mut r = String::new();
            push_chars(&mut r, slice_range(v.as_slice(), s, e).as_slice());
            Some(r)
        },
        None => None,
    }
}

fn slice_range(v: &[char], s: usize, e: usize) -> (r: Vec<char>)
    requires
        s <= e <= v@.len(),
    ensures
        r@ == v@.subrange(s as int, e as int),
{
    let mut r: Vec<char> = Vec::new();
    let mut i: usize = s;
    while i < e
        invariant
            s <= i <= e <= v@.len(),
            r@ == v@.subrange(s as int, i as int),
        decreases e - i,
    {
        r.push(v[i]);
        i = i + 1;
        assert(r@ =~= v@.subrange(s as int, i as int));
    }
    r
}

/// `p.with_extension(ext)` on Unix paths.
pub fn with_extension(p: &str, ext: &str) -> (r: String)
    ensures
        r@ == with_extension_spec(p@, ext@),
{
    let v = chars_of(p);
    let x = chars_of(ext);
    match name_range_of(v.as_slice(), v.len()) {
        None => string_of(v.as_slice()),
        Some((s, e)) => {
            let k = last_index_in(v.as_slice(), s, e, '.');
            proof {
                lemma_last_index_bounds(v@.subrange(s as int, e as int), '.');
            }
            let stem: usize = match k {
                Some(k) if k > 0 => s + k,
                _ => e,
            };
            let mut r = string_of(slice_range(v.as_slice(), 0, stem).as_slice());
            assert(v@.subrange(0, stem as int) =~= v@.take(stem as int));
            if x.len() > 0 {
                push_chars(&mut r, &['.']);
                push_chars(&mut r, x.as_slice());
            }
            r
        },
    }
}

/// `p.with_added_extension(ext)` on Unix paths.
pub fn with_added_extension(p: &str, ext: &str) -> (r: String)
    ensures
        r@ == with_added_extension_spec(p@, ext@),
{
    let v = chars_of(p);
    let x = chars_of(ext);
    match name_range_of(v.as_slice(), v.len()) {
        None => string_of(v.as_slice()),
        Some((s, e)) => {
            if x.len() == 0 {
                return string_of(v.as_slice());
            }
            let mut r = string_of(slice_range(v.as_slice(), 0, e).as_slice());
            assert(v@.subrange(0, e as int) =~= v@.take(e as int));
            push_chars(&mut r, &['.']);
            push_chars(&mut r, x.as_slice());
            r
        },
    }
}

} // verus!
