//! Character-level text operations: whitespace, trimming, paragraphs,
//! splitting and joining, each with a model over `Seq<char>`.

use vstd::prelude::*;
use vstd::string::StringExecFns;

verus! {

/// Whether `c` has the Unicode `White_Space` property.
pub open spec fn is_white_space(c: char) -> bool {
    let u = c as u32;
    ||| 0x09 <= u <= 0x0D
    ||| u == 0x20
    ||| u == 0x85
    ||| u == 0xA0
    ||| u == 0x1680
    ||| 0x2000 <= u <= 0x200A
    ||| u == 0x2028
    ||| u == 0x2029
    ||| u == 0x202F
    ||| u == 0x205F
    ||| u == 0x3000
}

/// Whether every character of `s` is whitespace.
pub open spec fn all_white_space(s: Seq<char>) -> bool {
    forall|j: int| 0 <= j < s.len() ==> is_white_space(#[trigger] s[j])
}

/// `s` without the whitespace it starts with.
pub open spec fn without_leading_space(s: Seq<char>) -> Seq<char>
    decreases s.len(),
{
    if s.len() > 0 && is_white_space(s.first()) {
        without_leading_space(s.drop_first())
    } else {
        s
    }
}

/// `s` without the whitespace it ends with.
pub open spec fn without_trailing_space(s: Seq<char>) -> Seq<char>
    decreases s.len(),
{
    if s.len() > 0 && is_white_space(s.last()) {
        without_trailing_space(s.drop_last())
    } else {
        s
    }
}

/// `s` without the whitespace at either end.
pub open spec fn trimmed(s: Seq<char>) -> Seq<char> {
    without_trailing_space(without_leading_space(s))
}

/// Whether a blank line starts at index `i` of `s`: two newlines in a row.
pub open spec fn blank_line_at(s: Seq<char>, i: int) -> bool {
    0 <= i && i + 1 < s.len() && s[i] == '\n' && s[i + 1] == '\n'
}

/// The number of characters of `s` in front of its first blank line; all of
/// them where `s` has no blank line.
pub open spec fn paragraph_len(s: Seq<char>) -> nat
    decreases s.len(),
{
    if s.len() == 0 || blank_line_at(s, 0) {
        0
    } else {
        1 + paragraph_len(s.drop_first())
    }
}

/// What `s` holds in front of its first blank line.
pub open spec fn paragraph(s: Seq<char>) -> Seq<char> {
    s.take(paragraph_len(s) as int)
}

/// The index of the first `c` in `s`, or the length of `s` where it has none.
pub open spec fn first_index_of(s: Seq<char>, c: char) -> nat
    decreases s.len(),
{
    if s.len() == 0 || s.first() == c {
        0
    } else {
        1 + first_index_of(s.drop_first(), c)
    }
}

/// The pieces that the separator `sep` divides `s` into, in order. A sequence
/// without the separator is one piece, the empty sequence too.
pub open spec fn pieces(s: Seq<char>, sep: char) -> Seq<Seq<char>>
    decreases s.len(),
{
    let i = first_index_of(s, sep) as int;
    if i >= s.len() {
        seq![s]
    } else {
        seq![s.take(i)] + pieces(s.skip(i + 1), sep)
    }
}

/// Each item of `parts` without the whitespace at its ends.
pub open spec fn trimmed_each(parts: Seq<Seq<char>>) -> Seq<Seq<char>> {
    Seq::new(parts.len(), |i: int| trimmed(parts[i]))
}

/// The pieces of `s`, each without the whitespace at its ends.
pub open spec fn trimmed_pieces(s: Seq<char>, sep: char) -> Seq<Seq<char>> {
    trimmed_each(pieces(s, sep))
}

/// The items of `parts` in a row, with `sep` between each two neighbours.
pub open spec fn joined(parts: Seq<Seq<char>>, sep: Seq<char>) -> Seq<char>
    decreases parts.len(),
{
    if parts.len() == 0 {
        Seq::empty()
    } else if parts.len() == 1 {
        parts[0]
    } else {
        joined(parts.drop_last(), sep) + sep + parts.last()
    }
}

/// A prefix of whitespace that ends at the end of `s` or in front of a
/// character that is no whitespace is the whole leading whitespace of `s`.
pub proof fn lemma_leading_space(s: Seq<char>, k: int)
    requires
        0 <= k <= s.len(),
        forall|j: int| 0 <= j < k ==> is_white_space(#[trigger] s[j]),
        k < s.len() ==> !is_white_space(s[k]),
    ensures
        without_leading_space(s) == s.skip(k),
    decreases k,
{
    if k == 0 {
        assert(s.skip(0) =~= s);
    } else {
        let rest = s.drop_first();
        assert forall|j: int| 0 <= j < k - 1 implies is_white_space(#[trigger] rest[j]) by {
            assert(rest[j] == s[j + 1]);
        }
        lemma_leading_space(rest, k - 1);
        assert(rest.skip(k - 1) =~= s.skip(k));
    }
}

/// A suffix of whitespace that starts at the start of `s` or behind a
/// character that is no whitespace is the whole trailing whitespace of `s`.
pub proof fn lemma_trailing_space(s: Seq<char>, k: int)
    requires
        0 <= k <= s.len(),
        forall|j: int| k <= j < s.len() ==> is_white_space(#[trigger] s[j]),
        k > 0 ==> !is_white_space(s[k - 1]),
    ensures
        without_trailing_space(s) == s.take(k),
    decreases s.len() - k,
{
    if k == s.len() {
        assert(s.take(k) =~= s);
    } else {
        let rest = s.drop_last();
        lemma_trailing_space(rest, k);
        assert(rest.take(k) =~= s.take(k));
    }
}

/// The first blank line of `s` starts at `k` when one starts there and none
/// starts earlier; `s` has none when none starts in front of its end.
pub proof fn lemma_paragraph_len(s: Seq<char>, k: int)
    requires
        0 <= k <= s.len(),
        forall|j: int| 0 <= j < k ==> !blank_line_at(s, j),
        k < s.len() ==> blank_line_at(s, k),
    ensures
        paragraph_len(s) == k,
    decreases k,
{
    if k > 0 {
        let rest = s.drop_first();
        assert forall|j: int| 0 <= j < k - 1 implies !blank_line_at(rest, j) by {
            assert(!blank_line_at(s, j + 1));
        }
        assert(k < s.len() ==> blank_line_at(rest, k - 1));
        assert(!blank_line_at(s, 0));
        lemma_paragraph_len(rest, k - 1);
    }
}

/// The first `c` of `s` is at `k` when `c` is there and nowhere in front of
/// it; `s` has none when none stands in front of its end.
pub proof fn lemma_first_index_of(s: Seq<char>, c: char, k: int)
    requires
        0 <= k <= s.len(),
        forall|j: int| 0 <= j < k ==> s[j] != c,
        k < s.len() ==> s[k] == c,
    ensures
        first_index_of(s, c) == k,
    decreases k,
{
    if k > 0 {
        let rest = s.drop_first();
        assert forall|j: int| 0 <= j < k - 1 implies rest[j] != c by {
            assert(rest[j] == s[j + 1]);
        }
        assert(s[0] != c);
        lemma_first_index_of(rest, c, k - 1);
    }
}

/// The whitespace that `s` starts with: `s` is that whitespace and then
/// `without_leading_space(s)`, which does not start with whitespace.
proof fn lemma_leading_part(s: Seq<char>) -> (lead: Seq<char>)
    ensures
        s == lead + without_leading_space(s),
        all_white_space(lead),
        without_leading_space(s).len() > 0 ==> !is_white_space(without_leading_space(s).first()),
    decreases s.len(),
{
    if s.len() > 0 && is_white_space(s.first()) {
        let inner = lemma_leading_part(s.drop_first());
        let lead = seq![s.first()] + inner;
        assert(s =~= seq![s.first()] + s.drop_first());
        assert(seq![s.first()] + (inner + without_leading_space(s)) =~= lead
            + without_leading_space(s));
        lead
    } else {
        assert(s =~= Seq::<char>::empty() + s);
        Seq::empty()
    }
}

/// The whitespace that `s` ends with: `s` is `without_trailing_space(s)` and
/// then that whitespace, and `without_trailing_space(s)` does not end with
/// whitespace.
proof fn lemma_trailing_part(s: Seq<char>) -> (trail: Seq<char>)
    ensures
        s == without_trailing_space(s) + trail,
        all_white_space(trail),
        without_trailing_space(s).len() > 0 ==> !is_white_space(without_trailing_space(s).last()),
    decreases s.len(),
{
    if s.len() > 0 && is_white_space(s.last()) {
        let inner = lemma_trailing_part(s.drop_last());
        let trail = inner.push(s.last());
        assert(s =~= s.drop_last().push(s.last()));
        assert((without_trailing_space(s) + inner).push(s.last()) =~= without_trailing_space(s)
            + trail);
        trail
    } else {
        assert(s =~= s + Seq::<char>::empty());
        Seq::empty()
    }
}

/// Trimming takes whitespace away and nothing else: `s` is some whitespace,
/// then `trimmed(s)`, then some whitespace, and `trimmed(s)` neither starts
/// nor ends with whitespace. The two runs of whitespace are returned.
pub proof fn lemma_trimmed_parts(s: Seq<char>) -> (ends: (Seq<char>, Seq<char>))
    ensures
        s == ends.0 + trimmed(s) + ends.1,
        all_white_space(ends.0),
        all_white_space(ends.1),
        trimmed(s).len() > 0 ==> !is_white_space(trimmed(s).first()) && !is_white_space(
            trimmed(s).last(),
        ),
{
    let lead = lemma_leading_part(s);
    let front = without_leading_space(s);
    let trail = lemma_trailing_part(front);
    assert(s =~= lead + trimmed(s) + trail);
    if trimmed(s).len() > 0 {
        assert(trimmed(s).first() == front.first());
    }
    (lead, trail)
}

/// A paragraph holds no blank line and ends where the first blank line of the
/// text starts, or with the text.
pub proof fn lemma_paragraph_ends_at_blank_line(s: Seq<char>)
    ensures
        paragraph_len(s) <= s.len(),
        forall|j: int| 0 <= j < paragraph_len(s) ==> !blank_line_at(s, j),
        paragraph_len(s) < s.len() ==> blank_line_at(s, paragraph_len(s) as int),
    decreases s.len(),
{
    if s.len() > 0 && !blank_line_at(s, 0) {
        let rest = s.drop_first();
        lemma_paragraph_ends_at_blank_line(rest);
        assert forall|j: int| 0 <= j < paragraph_len(s) implies !blank_line_at(s, j) by {
            if j > 0 {
                assert(!blank_line_at(rest, j - 1));
            }
        }
    }
}

/// The separator stands at the first index that is found for it, and in
/// front of it the sequence has none.
pub proof fn lemma_first_index_is_first(s: Seq<char>, c: char)
    ensures
        first_index_of(s, c) <= s.len(),
        forall|j: int| 0 <= j < first_index_of(s, c) ==> s[j] != c,
        first_index_of(s, c) < s.len() ==> s[first_index_of(s, c) as int] == c,
    decreases s.len(),
{
    if s.len() > 0 && s.first() != c {
        let rest = s.drop_first();
        lemma_first_index_is_first(rest, c);
        assert forall|j: int| 0 <= j < first_index_of(s, c) implies s[j] != c by {
            if j > 0 {
                assert(s[j] == rest[j - 1]);
            }
        }
    }
}

/// Joining with one item more in front puts that item and the separator in
/// front of what is joined.
pub proof fn lemma_joined_with_first(first: Seq<char>, rest: Seq<Seq<char>>, sep: Seq<char>)
    requires
        rest.len() > 0,
    ensures
        joined(seq![first] + rest, sep) == first + sep + joined(rest, sep),
    decreases rest.len(),
{
    let all = seq![first] + rest;
    assert(all.last() == rest.last());
    assert(joined(all, sep) == joined(all.drop_last(), sep) + sep + rest.last());
    if rest.len() == 1 {
        assert(all.drop_last() =~= seq![first]);
        assert(joined(seq![first], sep) == first);
        assert(joined(rest, sep) == rest.last());
    } else {
        let shorter = rest.drop_last();
        assert(all.drop_last() =~= seq![first] + shorter);
        lemma_joined_with_first(first, shorter, sep);
        assert(joined(rest, sep) == joined(shorter, sep) + sep + rest.last());
        assert((first + sep + joined(shorter, sep)) + sep + rest.last() =~= first + sep + (joined(
            shorter,
            sep,
        ) + sep + rest.last()));
    }
}

/// The pieces of a sequence hold no separator, and joined with the separator
/// they give the sequence back.
pub proof fn lemma_pieces_rejoin(s: Seq<char>, sep: char)
    ensures
        pieces(s, sep).len() >= 1,
        forall|k: int, j: int|
            0 <= k < pieces(s, sep).len() && 0 <= j < pieces(s, sep)[k].len() ==> pieces(
                s,
                sep,
            )[k][j] != sep,
        joined(pieces(s, sep), seq![sep]) == s,
    decreases s.len(),
{
    let i = first_index_of(s, sep) as int;
    lemma_first_index_is_first(s, sep);
    if i < s.len() {
        let rest = s.skip(i + 1);
        lemma_pieces_rejoin(rest, sep);
        lemma_joined_with_first(s.take(i), pieces(rest, sep), seq![sep]);
        assert(s.take(i) + seq![sep] + rest =~= s);
        assert forall|k: int, j: int|
            0 <= k < pieces(s, sep).len() && 0 <= j < pieces(s, sep)[k].len() implies pieces(
            s,
            sep,
        )[k][j] != sep by {
            if k > 0 {
                assert(pieces(s, sep)[k] == pieces(rest, sep)[k - 1]);
            }
        }
    }
}

/// Tells whether `c` is a whitespace character.
pub fn is_whitespace(c: char) -> (b: bool)
    ensures
        b == is_white_space(c),
{
    let u: u32 = c as u32;
    (0x09 <= u && u <= 0x0D) || u == 0x20 || u == 0x85 || u == 0xA0 || u == 0x1680 || (0x2000 <= u
        && u <= 0x200A) || u == 0x2028 || u == 0x2029 || u == 0x202F || u == 0x205F || u == 0x3000
}

/// Finds where the first paragraph of `v` ends.
pub fn paragraph_end(v: &Vec<char>) -> (end: usize)
    ensures
        end == paragraph_len(v@),
        end <= v.len(),
{
    let n: usize = v.len();
    let mut i: usize = 0;
    while i < n
        invariant
            n == v.len(),
            i <= n,
            forall|j: int| 0 <= j < i ==> !blank_line_at(v@, j),
        decreases n - i,
    {
        if v[i] == '\n' && i + 1 < n && v[i + 1] == '\n' {
            proof {
                lemma_paragraph_len(v@, i as int);
            }
            return i;
        }
        i += 1;
    }
    proof {
        lemma_paragraph_len(v@, n as int);
    }
    n
}

/// Narrows the window `lo..hi` of `v` to what is left of it without the
/// whitespace at its ends.
pub fn trim_window(v: &Vec<char>, lo: usize, hi: usize) -> (w: (usize, usize))
    requires
        lo <= hi <= v.len(),
    ensures
        lo <= w.0 <= w.1 <= hi,
        v@.subrange(w.0 as int, w.1 as int) == trimmed(v@.subrange(lo as int, hi as int)),
{
    let mut a: usize = lo;
    while a < hi && is_whitespace(v[a])
        invariant
            lo <= a <= hi <= v.len(),
            forall|j: int| lo <= j < a ==> is_white_space(#[trigger] v@[j]),
        decreases hi - a,
    {
        a += 1;
    }
    let mut b: usize = hi;
    while b > a && is_whitespace(v[b - 1])
        invariant
            a <= b <= hi <= v.len(),
            forall|j: int| b <= j < hi ==> is_white_space(#[trigger] v@[j]),
        decreases b - a,
    {
        b -= 1;
    }
    proof {
        let whole = v@.subrange(lo as int, hi as int);
        let front = v@.subrange(a as int, hi as int);
        lemma_leading_space(whole, a - lo);
        assert(whole.skip(a - lo) =~= front);
        lemma_trailing_space(front, b - a);
        assert(front.take(b - a) =~= v@.subrange(a as int, b as int));
    }
    (a, b)
}

/// `String::push` of the standard library appends one character to the string.
pub assume_specification[ String::push ](s: &mut String, c: char)
    ensures
        final(s)@ == old(s)@.push(c),
;

/// Collects the characters of `s`.
pub fn chars_of(s: &str) -> (v: Vec<char>)
    ensures
        v@ == s@,
{
    broadcast use vstd::string::axiom_spec_iter;

    let mut v: Vec<char> = Vec::new();
    for c in it: s.chars()
        invariant
            it.seq() == s@,
            v@ == s@.take(it.index()),
    {
        assert(s@.take(it.index()).push(c) =~= s@.take(it.index() + 1));
        v.push(c);
    }
    assert(s@.take(s@.len() as int) =~= s@);
    v
}

/// Makes a string of the window `lo..hi` of `v`.
pub fn string_of(v: &Vec<char>, lo: usize, hi: usize) -> (s: String)
    requires
        lo <= hi <= v.len(),
    ensures
        s@ == v@.subrange(lo as int, hi as int),
{
    let mut s = String::new();
    let mut i: usize = lo;
    while i < hi
        invariant
            lo <= i <= hi <= v.len(),
            s@ == v@.subrange(lo as int, i as int),
        decreases hi - i,
    {
        s.push(v[i]);
        assert(v@.subrange(lo as int, i as int).push(v@[i as int]) =~= v@.subrange(
            lo as int,
            i + 1,
        ));
        i += 1;
    }
    s
}

/// Divides the window `lo..hi` of `v` at each `sep` and trims every piece.
pub fn split_window(v: &Vec<char>, lo: usize, hi: usize, sep: char) -> (out: Vec<String>)
    requires
        lo <= hi <= v.len(),
    ensures
        out.deep_view() == trimmed_pieces(v@.subrange(lo as int, hi as int), sep),
{
    let ghost whole = v@.subrange(lo as int, hi as int);
    let ghost mut done: Seq<Seq<char>> = Seq::empty();
    let mut out: Vec<String> = Vec::new();
    let mut start: usize = lo;
    let mut i: usize = lo;
    assert(whole.skip(0) =~= whole);
    assert(done + pieces(whole, sep) =~= pieces(whole, sep));
    assert(out.deep_view() =~= trimmed_each(done));
    while i < hi
        invariant
            lo <= start <= i <= hi <= v.len(),
            whole == v@.subrange(lo as int, hi as int),
            forall|j: int| start <= j < i ==> v@[j] != sep,
            pieces(whole, sep) == done + pieces(whole.skip(start - lo), sep),
            out.deep_view() == trimmed_each(done),
        decreases hi - i,
    {
        if v[i] == sep {
            let (a, b) = trim_window(v, start, i);
            let piece = string_of(v, a, b);
            let ghost before = out.deep_view();
            out.push(piece);
            proof {
                let rest = whole.skip(start - lo);
                let raw = v@.subrange(start as int, i as int);
                lemma_first_index_of(rest, sep, i - start);
                assert(rest.take(i - start) =~= raw);
                assert(rest.skip(i - start + 1) =~= whole.skip(i + 1 - lo));
                assert(done + (seq![raw] + pieces(whole.skip(i + 1 - lo), sep)) =~= done.push(raw)
                    + pieces(whole.skip(i + 1 - lo), sep));
                assert(out.deep_view() =~= before.push(piece@));
                assert(trimmed_each(done.push(raw)) =~= trimmed_each(done).push(trimmed(raw)));
                done = done.push(raw);
            }
            start = i + 1;
        }
        i += 1;
    }
    let (a, b) = trim_window(v, start, hi);
    let piece = string_of(v, a, b);
    let ghost before = out.deep_view();
    out.push(piece);
    proof {
        let rest = whole.skip(start - lo);
        let raw = v@.subrange(start as int, hi as int);
        lemma_first_index_of(rest, sep, hi - start);
        assert(rest =~= raw);
        assert(done + seq![raw] =~= done.push(raw));
        assert(out.deep_view() =~= before.push(piece@));
        assert(trimmed_each(done.push(raw)) =~= trimmed_each(done).push(trimmed(raw)));
    }
    out
}

/// Puts the items of `parts` in a row, with `sep` between each two neighbours.
pub fn join(parts: &Vec<String>, sep: &str) -> (s: String)
    ensures
        s@ == joined(parts.deep_view(), sep@),
{
    let mut s = String::new();
    let mut i: usize = 0;
    while i < parts.len()
        invariant
            i <= parts.len(),
            s@ == joined(parts.deep_view().take(i as int), sep@),
        decreases parts.len() - i,
    {
        if i > 0 {
            s.append(sep);
        }
        s.append(parts[i].as_str());
        proof {
            let upto = parts.deep_view().take(i + 1);
            assert(upto.drop_last() =~= parts.deep_view().take(i as int));
            assert(upto.last() == parts[i as int]@);
            if i == 0 {
                assert(Seq::<char>::empty() + parts[0]@ =~= parts[0]@);
            }
        }
        i += 1;
    }
    assert(parts.deep_view().take(parts.len() as int) =~= parts.deep_view());
    s
}

} // verus!
