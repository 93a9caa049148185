//! Reading the segment durations of an HLS (m3u8) playlist.
use vstd::prelude::*;

use crate::text::{chars_of, push_chars};

verus! {

/// Position of the first `c` in `s`, or -1.
pub open spec fn first_index(s: Seq<char>, c: char) -> int
    decreases s.len(),
{
    if s.len() == 0 {
        -1
    } else if s[0] == c {
        0
    } else {
        let k = first_index(s.drop_first(), c);
        if k < 0 {
            -1
        } else {
            k + 1
        }
    }
}

pub proof fn lemma_first_index_bounds(s: Seq<char>, c: char)
    ensures
        -1 <= first_index(s, c) < s.len(),
    decreases s.len(),
{
    if s.len() > 0 {
        lemma_first_index_bounds(s.drop_first(), c);
    }
}

proof fn lemma_first_index_found(s: Seq<char>, c: char, k: int)
    requires
        0 <= k < s.len(),
        s[k] == c,
        forall|j: int| 0 <= j < k ==> s[j] != c,
    ensures
        first_index(s, c) == k,
    decreases s.len(),
{
    if k > 0 {
        lemma_first_index_found(s.drop_first(), c, k - 1);
    }
}

proof fn lemma_first_index_none(s: Seq<char>, c: char)
    requires
        forall|j: int| 0 <= j < s.len() ==> s[j] != c,
    ensures
        first_index(s, c) == -1,
    decreases s.len(),
{
    if s.len() > 0 {
        lemma_first_index_none(s.drop_first(), c);
    }
}

/// A line without the `\r` of a `\r\n` ending.
pub open spec fn strip_cr(l: Seq<char>) -> Seq<char> {
    if l.len() > 0 && l.last() == '\r' {
        l.drop_last()
    } else {
        l
    }
}

/// `str::lines`: the text split at each `\n`, a `\r` right before it dropped; a final
/// line ending adds no empty line.
pub open spec fn lines_spec(s: Seq<char>) -> Seq<Seq<char>>
    decreases s.len(),
{
    if s.len() == 0 {
        Seq::empty()
    } else {
        let k = first_index(s, '\n');
        if k < 0 {
            seq![s]
        } else {
            proof {
                lemma_first_index_bounds(s, '\n');
            }
            seq![strip_cr(s.take(k))] + lines_spec(s.skip(k + 1))
        }
    }
}

/// The tag that opens a segment entry.
pub open spec fn extinf_tag() -> Seq<char> {
    seq!['#', 'E', 'X', 'T', 'I', 'N', 'F', ':']
}

/// `s.trim_end_matches(',')`.
pub open spec fn trim_end_commas(s: Seq<char>) -> Seq<char>
    decreases s.len(),
{
    if s.len() > 0 && s.last() == ',' {
        trim_end_commas(s.drop_last())
    } else {
        s
    }
}

/// What follows `#EXTINF:` on a line, without trailing commas; nothing for other lines.
pub open spec fn extinf_value(line: Seq<char>) -> Option<Seq<char>> {
    if line.len() >= 8 && line.take(8) == extinf_tag() {
        Some(trim_end_commas(line.skip(8)))
    } else {
        None
    }
}

/// The `#EXTINF:` values of the lines, in order.
pub open spec fn extinf_values(lines: Seq<Seq<char>>) -> Seq<Seq<char>>
    decreases lines.len(),
{
    if lines.len() == 0 {
        Seq::empty()
    } else {
        let rest = extinf_values(lines.drop_last());
        match extinf_value(lines.last()) {
            Some(v) => rest.push(v),
            None => rest,
        }
    }
}

/// The values are those of the `#EXTINF:` lines, one for each such line and in their
/// order, equal values included: a further `#EXTINF:` line adds its value at the end, and
/// any other line adds nothing.
pub proof fn lemma_extinf_values_one_per_line(lines: Seq<Seq<char>>)
    ensures
        extinf_values(lines) == lines.filter(|l: Seq<char>| extinf_value(l) is Some).map_values(
            |l: Seq<char>| extinf_value(l)->0,
        ),
        extinf_values(lines).len() == lines.filter(|l: Seq<char>| extinf_value(l) is Some).len(),
        forall|l: Seq<char>|
            extinf_value(l) is Some ==> #[trigger] extinf_values(lines.push(l)) == extinf_values(
                lines,
            ).push(extinf_value(l)->0),
        forall|l: Seq<char>|
            extinf_value(l) is None ==> #[trigger] extinf_values(lines.push(l)) == extinf_values(
                lines,
            ),
    decreases lines.len(),
{
    let pred = |l: Seq<char>| extinf_value(l) is Some;
    let f = |l: Seq<char>| extinf_value(l)->0;
    if lines.len() == 0 {
        reveal(Seq::filter);
        assert(lines.filter(pred).map_values(f) =~= Seq::empty());
    } else {
        let d = lines.drop_last();
        lemma_extinf_values_one_per_line(d);
        assert(lines =~= d.push(lines.last()));
        d.lemma_filter_push(lines.last(), pred);
        if pred(lines.last()) {
            assert(d.filter(pred).push(lines.last()).map_values(f) =~= d.filter(pred).map_values(
                f,
            ).push(f(lines.last())));
        }
    }
    assert forall|l: Seq<char>|
        extinf_value(l) is Some implies #[trigger] extinf_values(lines.push(l))
        == extinf_values(lines).push(extinf_value(l)->0) by {
        assert(lines.push(l).drop_last() =~= lines);
    }
    assert forall|l: Seq<char>|
        extinf_value(l) is None implies #[trigger] extinf_values(lines.push(l)) == extinf_values(
            lines,
        ) by {
        assert(lines.push(l).drop_last() =~= lines);
    }
}

pub open spec fn string_views(v: Seq<String>) -> Seq<Seq<char>> {
    v.map_values(|s: String| s@)
}

/// The `#EXTINF:` value of the line `v[start..end]`.
fn line_value(v: &[char], start: usize, end: usize) -> (r: Option<String>)
    requires
        start <= end <= v@.len(),
    ensures
        match extinf_value(v@.subrange(start as int, end as int)) {
            Some(x) => r matches Some(s) && s@ == x,
            None => r is None,
        },
{
    let ghost line = v@.subrange(start as int, end as int);
    if end - start < 8 {
        return None;
    }
    let tag = ['#', 'E', 'X', 'T', 'I', 'N', 'F', ':'];
    let mut i: usize = 0;
    while i < 8
        invariant
            i <= 8,
            start + 8 <= end <= v@.len(),
            line == v@.subrange(start as int, end as int),
            tag@ == extinf_tag(),
            forall|j: int| 0 <= j < i ==> v@[start + j] == tag@[j],
        decreases 8 - i,
    {
        if v[start + i] != tag[i] {
            assert(line.take(8)[i as int] != extinf_tag()[i as int]);
            return None;
        }
        i = i + 1;
    }
    assert(line.take(8) =~= extinf_tag());
    let from = start + 8;
    let mut to = end;
    assert(line.skip(8) =~= v@.subrange(from as int, to as int));
    while to > from && v[to - 1] == ','
        invariant
            from <= to <= end <= v@.len(),
            trim_end_commas(line.skip(8)) == trim_end_commas(v@.subrange(from as int, to as int)),
        decreases to,
    {
        assert(v@.subrange(from as int, to as int).drop_last() =~= v@.subrange(
            from as int,
            to - 1,
        ));
        to = to - 1;
    }
    let mut s = String::new();
    let mut k = from;
    while k < to
        invariant
            from <= k <= to <= v@.len(),
            s@ == v@.subrange(from as int, k as int),
        decreases to - k,
    {
        push_chars(&mut s, &[v[k]]);
        k = k + 1;
        assert(s@ =~= v@.subrange(from as int, k as int));
    }
    Some(s)
}

/// The duration fields of the segment entries of a playlist: for each line (as
/// `str::lines` splits it) that begins with `#EXTINF:`, the rest of it without trailing
/// commas. Adding them up as numbers gives the length of the stream.
pub fn extinf_entries(playlist: &str) -> (r: Vec<String>)
    ensures
        string_views(r@) == extinf_values(lines_spec(playlist@)),
{
    let v = chars_of(playlist);
    let ghost s = v@;
    let mut out: Vec<String> = Vec::new();
    let ghost mut done: Seq<Seq<char>> = Seq::empty();
    let mut start: usize = 0;
    let mut i: usize = 0;
    proof {
        assert(s.skip(0) =~= s);
        assert(done + lines_spec(s) =~= lines_spec(s));
        assert(string_views(out@) =~= Seq::<Seq<char>>::empty());
    }
    while i < v.len()
        invariant
            s == v@,
            start <= i <= v@.len(),
            lines_spec(s) == done + lines_spec(s.skip(start as int)),
            string_views(out@) == extinf_values(done),
            forall|j: int| start <= j < i ==> s[j] != '\n',
        decreases v@.len() - i,
    {
        if v[i] == '\n' {
            let ghost rest = s.skip(start as int);
            proof {
                lemma_first_index_found(rest, '\n', i - start);
                assert(rest.take(i - start) =~= s.subrange(start as int, i as int));
                assert(rest.skip(i - start + 1) =~= s.skip(i + 1));
            }
            let end: usize = if i > start && v[i - 1] == '\r' { i - 1 } else { i };
            let ghost line = strip_cr(s.subrange(start as int, i as int));
            assert(line =~= s.subrange(start as int, end as int));
            let value = line_value(v.as_slice(), start, end);
            proof {
                assert(done.push(line).drop_last() =~= done);
                assert(done.push(line) + lines_spec(s.skip(i + 1)) =~= done + (seq![line]
                    + lines_spec(s.skip(i + 1))));
                done = done.push(line);
            }
            match value {
                Some(x) => {
                    out.push(x);
                    assert(string_views(out@) =~= extinf_values(done));
                },
                None => {
                    assert(string_views(out@) =~= extinf_values(done));
                },
            }
            start = i + 1;
        }
        i = i + 1;
    }
    if start < v.len() {
        let ghost rest = s.skip(start as int);
        proof {
            lemma_first_index_none(rest, '\n');
            assert(rest =~= s.subrange(start as int, v@.len() as int));
            assert(done.push(rest).drop_last() =~= done);
            assert(lines_spec(s) =~= done.push(rest));
        }
        let value = line_value(v.as_slice(), start, v.len());
        match value {
            Some(x) => {
                out.push(x);
            },
            None => {},
        }
        proof {
            assert(string_views(out@) =~= extinf_values(done.push(rest)));
        }
    } else {
        proof {
            assert(s.skip(start as int) =~= Seq::<char>::empty());
            assert(lines_spec(s) =~= done);
        }
    }
    out
}

} // verus!
