//! Listing lines are made of fields separated by `" | "`. This module
//! states how such a line splits (leftmost, non-overlapping matches of the
//! separator, as `str::split` does) and splits it.

use vstd::prelude::*;

verus! {

/// The field separator `" | "` occurs at position `i` of `s`.
pub open spec fn sep_at(s: Seq<char>, i: int) -> bool {
    &&& 0 <= i
    &&& i + 3 <= s.len()
    &&& s[i] == ' '
    &&& s[i + 1] == '|'
    &&& s[i + 2] == ' '
}

/// The first position at or after `from` where the separator occurs.
pub open spec fn next_sep(s: Seq<char>, from: int) -> Option<int>
    decreases s.len() - from,
{
    if from < 0 || from + 3 > s.len() {
        None
    } else if sep_at(s, from) {
        Some(from)
    } else {
        next_sep(s, from + 1)
    }
}

/// Where `next_sep` finds something, it is a separator at or after `from`.
pub proof fn lemma_next_sep_found(s: Seq<char>, from: int)
    ensures
        next_sep(s, from) matches Some(i) ==> from <= i && sep_at(s, i),
    decreases s.len() - from,
{
    if from < 0 || from + 3 > s.len() {
    } else if sep_at(s, from) {
    } else {
        lemma_next_sep_found(s, from + 1);
    }
}

/// The fields of `s` from position `start` on.
pub open spec fn fields_from(s: Seq<char>, start: int) -> Seq<Seq<char>>
    decreases s.len() - start,
{
    if start < 0 || start > s.len() {
        Seq::empty()
    } else {
        match next_sep(s, start) {
            None => seq![s.subrange(start, s.len() as int)],
            Some(i) => {
                proof {
                    lemma_next_sep_found(s, start);
                }
                seq![s.subrange(start, i)] + fields_from(s, i + 3)
            },
        }
    }
}

/// The fields of a line: the pieces between successive separators.
pub open spec fn fields(s: Seq<char>) -> Seq<Seq<char>> {
    fields_from(s, 0)
}

/// Skipping a stretch without separators does not change the next one.
pub proof fn lemma_next_sep_skip(s: Seq<char>, from: int, to: int)
    requires
        0 <= from <= to,
        forall|j: int| from <= j < to ==> !sep_at(s, j),
    ensures
        next_sep(s, from) == next_sep(s, to),
    decreases to - from,
{
    if from < to {
        if from + 3 > s.len() {
            lemma_next_sep_none_past_end(s, to);
        } else {
            assert(!sep_at(s, from));
            lemma_next_sep_skip(s, from + 1, to);
        }
    }
}

/// Past the last possible position there is no separator.
pub proof fn lemma_next_sep_none_past_end(s: Seq<char>, from: int)
    requires
        from + 3 > s.len(),
    ensures
        next_sep(s, from) is None,
{
}

/// A separator at `p` is found by a search starting at or before it.
pub proof fn lemma_next_sep_at_most(s: Seq<char>, from: int, p: int)
    requires
        0 <= from <= p,
        sep_at(s, p),
    ensures
        next_sep(s, from) matches Some(i) && from <= i <= p && sep_at(s, i),
    decreases p - from,
{
    if !sep_at(s, from) {
        lemma_next_sep_at_most(s, from + 1, p);
    }
}

/// Every position `start` within the line yields at least one field.
pub proof fn lemma_fields_from_nonempty(s: Seq<char>, start: int)
    requires
        0 <= start <= s.len(),
    ensures
        fields_from(s, start).len() >= 1,
{
    lemma_next_sep_found(s, start);
}

/// A line with two separators that do not overlap has at least three fields.
pub proof fn lemma_two_separators(s: Seq<char>, p: int, q: int)
    requires
        sep_at(s, p),
        sep_at(s, q),
        p + 3 <= q,
    ensures
        fields(s).len() >= 3,
{
    lemma_next_sep_at_most(s, 0, p);
    let m1 = next_sep(s, 0)->0;
    lemma_next_sep_at_most(s, m1 + 3, q);
    let m2 = next_sep(s, m1 + 3)->0;
    lemma_fields_from_nonempty(s, m2 + 3);
    assert(fields_from(s, m1 + 3) == seq![s.subrange(m1 + 3, m2)] + fields_from(s, m2 + 3));
    assert(fields(s) == seq![s.subrange(0, m1)] + fields_from(s, m1 + 3));
}

fn copy_range(s: &[char], a: usize, b: usize) -> (v: Vec<char>)
    requires
        a <= b <= s@.len(),
    ensures
        v@ == s@.subrange(a as int, b as int),
{
    let mut v: Vec<char> = Vec::new();
    let mut k = a;
    while k < b
        invariant
            a <= k <= b <= s@.len(),
            v@ == s@.subrange(a as int, k as int),
        decreases b - k,
    {
        v.push(s[k]);
        assert(s@.subrange(a as int, k + 1) == s@.subrange(a as int, k as int).push(s@[k as int]));
        k = k + 1;
    }
    v
}

/// Splits a line into its fields, as `str::split(" | ")` does.
pub fn split_fields(s: &[char]) -> (out: Vec<Vec<char>>)
    ensures
        out.deep_view() == fields(s@),
{
    let n = s.len();
    let mut out: Vec<Vec<char>> = Vec::new();
    let mut start: usize = 0;
    let mut i: usize = 0;
    while i < n
        invariant
            n == s@.len(),
            start <= i <= n,
            forall|j: int| start <= j < i ==> !sep_at(s@, j),
            out.deep_view() + fields_from(s@, start as int) == fields(s@),
        decreases n - i,
    {
        if n >= 3 && i <= n - 3 && s[i] == ' ' && s[i + 1] == '|' && s[i + 2] == ' ' {
            proof {
                lemma_next_sep_skip(s@, start as int, i as int);
                assert(sep_at(s@, i as int));
                assert(next_sep(s@, start as int) == Some(i as int));
            }
            let piece = copy_range(s, start, i);
            assert(piece.deep_view() =~= piece@);
            let ghost before = out.deep_view();
            out.push(piece);
            proof {
                assert(out.deep_view() =~= before.push(piece@));
                assert(fields_from(s@, start as int) == seq![s@.subrange(start as int, i as int)] + fields_from(s@, i + 3));
                assert(out.deep_view() + fields_from(s@, i + 3) == before + fields_from(s@, start as int));
            }
            start = i + 3;
            i = i + 3;
        } else {
            assert(!sep_at(s@, i as int));
            i = i + 1;
        }
    }
    proof {
        lemma_next_sep_skip(s@, start as int, n as int);
        lemma_next_sep_none_past_end(s@, n as int);
        assert(fields_from(s@, start as int) == seq![s@.subrange(start as int, n as int)]);
    }
    let piece = copy_range(s, start, n);
    assert(piece.deep_view() =~= piece@);
            let ghost before = out.deep_view();
    out.push(piece);
    assert(out.deep_view() =~= before.push(piece@));
    out
}

/// A line made of three parts joined by the separator has at least three
/// fields, whatever the parts hold.
pub proof fn lemma_three_parts(a: Seq<char>, b: Seq<char>, c: Seq<char>)
    ensures
        fields(a + " | "@ + b + " | "@ + c).len() >= 3,
{
    reveal_strlit(" | ");
    let s = a + " | "@ + b + " | "@ + c;
    let p = a.len() as int;
    let q = p + 3 + b.len();
    assert(s[p] == ' ' && s[p + 1] == '|' && s[p + 2] == ' ');
    assert(s[q] == ' ' && s[q + 1] == '|' && s[q + 2] == ' ');
    lemma_two_separators(s, p, q);
}

/// `s` holds no `|`.
pub open spec fn bar_free(s: Seq<char>) -> bool {
    forall|i: int| 0 <= i < s.len() ==> s[i] != '|'
}

/// In `a + " | " + rest` with `a` free of `|`, no separator starts before
/// `a` ends, and one starts right after it.
proof fn lemma_separator_after(a: Seq<char>, s: Seq<char>, off: int)
    requires
        bar_free(a),
        0 <= off,
        off + a.len() + 3 <= s.len(),
        s.subrange(off, off + a.len() + 3) == a + " | "@,
    ensures
        next_sep(s, off) == Some(off + a.len()),
{
    reveal_strlit(" | ");
    let p = off + a.len();
    assert forall|j: int| off <= j < p implies !sep_at(s, j) by {
        if j + 1 < p {
            assert(s[j + 1] == s.subrange(off, p + 3)[j + 1 - off]);
            assert(s[j + 1] == a[j + 1 - off]);
        } else {
            assert(s[j + 1] == s.subrange(off, p + 3)[a.len() as int]);
        }
    }
    lemma_next_sep_skip(s, off, p);
    assert(s[p] == s.subrange(off, p + 3)[a.len() as int]);
    assert(s[p + 1] == s.subrange(off, p + 3)[a.len() as int + 1]);
    assert(s[p + 2] == s.subrange(off, p + 3)[a.len() as int + 2]);
}

/// The first field of `a + " | " + rest` is `a` when `a` holds no `|`.
pub proof fn lemma_first_field(a: Seq<char>, rest: Seq<char>)
    requires
        bar_free(a),
    ensures
        fields(a + " | "@ + rest)[0] == a,
{
    reveal_strlit(" | ");
    let s = a + " | "@ + rest;
    assert(s.subrange(0, a.len() as int + 3) =~= a + " | "@);
    lemma_separator_after(a, s, 0);
    assert(s.subrange(0, a.len() as int) =~= a);
}

/// Three parts free of `|`, joined by the separator, split back into
/// exactly those parts.
pub proof fn lemma_fields_of_three(a: Seq<char>, b: Seq<char>, c: Seq<char>)
    requires
        bar_free(a),
        bar_free(b),
        bar_free(c),
    ensures
        fields(a + " | "@ + b + " | "@ + c) == seq![a, b, c],
{
    reveal_strlit(" | ");
    let s = a + " | "@ + b + " | "@ + c;
    let pa = a.len() as int;
    let pb = pa + 3 + b.len();
    assert(s.subrange(0, pa + 3) =~= a + " | "@);
    lemma_separator_after(a, s, 0);
    assert(s.subrange(pa + 3, pb + 3) =~= b + " | "@);
    lemma_separator_after(b, s, pa + 3);
    assert forall|j: int| pb + 3 <= j < s.len() implies !sep_at(s, j) by {
        if j + 1 < s.len() {
            assert(s[j + 1] == c[j + 1 - pb - 3]);
        }
    }
    lemma_next_sep_skip(s, pb + 3, s.len() as int);
    lemma_next_sep_none_past_end(s, s.len() as int);
    assert(s.subrange(0, pa) =~= a);
    assert(s.subrange(pa + 3, pb) =~= b);
    assert(s.subrange(pb + 3, s.len() as int) =~= c);
    assert(fields_from(s, pb + 3) == seq![c]);
    assert(fields_from(s, pa + 3) == seq![b] + seq![c]);
    assert(fields(s) == seq![a] + (seq![b] + seq![c]));
    assert(fields(s) =~= seq![a, b, c]);
}

/// Fields joined back with the separator.
pub open spec fn join_fields(parts: Seq<Seq<char>>) -> Seq<char>
    decreases parts.len(),
{
    if parts.len() == 0 {
        Seq::empty()
    } else if parts.len() == 1 {
        parts[0]
    } else {
        parts[0] + " | "@ + join_fields(parts.drop_first())
    }
}

proof fn lemma_join_fields_from(s: Seq<char>, start: int)
    requires
        0 <= start <= s.len(),
    ensures
        join_fields(fields_from(s, start)) == s.subrange(start, s.len() as int),
    decreases s.len() - start,
{
    lemma_next_sep_found(s, start);
    if let Some(i) = next_sep(s, start) {
        lemma_join_fields_from(s, i + 3);
        lemma_fields_from_nonempty(s, i + 3);
        let parts = fields_from(s, start);
        assert(parts.drop_first() =~= fields_from(s, i + 3));
        reveal_strlit(" | ");
        assert(s.subrange(start, s.len() as int) =~= s.subrange(start, i) + " | "@ + s.subrange(
            i + 3,
            s.len() as int,
        ));
    }
}

/// Joining the fields of a line back with the separator gives the line.
pub proof fn law_fields_rejoin(s: Seq<char>)
    ensures
        join_fields(fields(s)) == s,
{
    lemma_join_fields_from(s, 0);
    assert(s.subrange(0, s.len() as int) =~= s);
}

} // verus!
