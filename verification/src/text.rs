//! Splitting and trimming of text, stated over sequences of characters.

use vstd::prelude::*;
use vstd::string::*;

verus! {

/// The views of a sequence of owned strings, in order.
pub open spec fn texts(v: Seq<String>) -> Seq<Seq<char>> {
    v.map_values(|t: String| t@)
}

/// Whether `pat` is not empty and stands in `s` at index `i`.
pub open spec fn occurs_at(s: Seq<char>, pat: Seq<char>, i: int) -> bool {
    &&& pat.len() > 0
    &&& 0 <= i
    &&& i + pat.len() <= s.len()
    &&& s.subrange(i, i + pat.len()) == pat
}

/// The pieces of `s` from `start` on, where the text before `i` is known to
/// belong to the piece that begins at `start`. Occurrences of `pat` are taken
/// from left to right and do not overlap.
pub open spec fn pieces_from(s: Seq<char>, pat: Seq<char>, start: int, i: int) -> Seq<Seq<char>>
    recommends
        0 <= start <= i,
    decreases s.len() - i,
{
    if i >= s.len() {
        seq![s.subrange(start, s.len() as int)]
    } else if occurs_at(s, pat, i) {
        seq![s.subrange(start, i)] + pieces_from(s, pat, i + pat.len(), i + pat.len())
    } else {
        pieces_from(s, pat, start, i + 1)
    }
}

/// The pieces into which the occurrences of `pat` cut `s`. There is always at
/// least one piece; an empty `pat` occurs nowhere.
pub open spec fn pieces(s: Seq<char>, pat: Seq<char>) -> Seq<Seq<char>> {
    pieces_from(s, pat, 0, 0)
}

/// The characters that Unicode classes as white space.
pub open spec fn is_space(c: char) -> bool {
    let u = c as u32;
    ||| 0x09 <= u <= 0x0d
    ||| u == 0x20
    ||| u == 0x85
    ||| u == 0xa0
    ||| u == 0x1680
    ||| 0x2000 <= u <= 0x200a
    ||| u == 0x2028
    ||| u == 0x2029
    ||| u == 0x202f
    ||| u == 0x205f
    ||| u == 0x3000
}

/// `s` without its leading white space.
pub open spec fn trim_start(s: Seq<char>) -> Seq<char>
    decreases s.len(),
{
    if s.len() > 0 && is_space(s[0]) {
        trim_start(s.skip(1))
    } else {
        s
    }
}

/// `s` without its trailing white space.
pub open spec fn trim_end(s: Seq<char>) -> Seq<char>
    decreases s.len(),
{
    if s.len() > 0 && is_space(s.last()) {
        trim_end(s.drop_last())
    } else {
        s
    }
}

/// `s` without white space at either end.
pub open spec fn trimmed(s: Seq<char>) -> Seq<char> {
    trim_end(trim_start(s))
}

/// Every piece list has a first piece.
pub proof fn lemma_pieces_nonempty(s: Seq<char>, pat: Seq<char>, start: int, i: int)
    ensures
        pieces_from(s, pat, start, i).len() >= 1,
    decreases s.len() - i,
{
    if i >= s.len() {
    } else if occurs_at(s, pat, i) {
        lemma_pieces_nonempty(s, pat, i + pat.len(), i + pat.len());
    } else {
        lemma_pieces_nonempty(s, pat, start, i + 1);
    }
}

/// Where `pat` occurs nowhere in `[i, j)`, scanning from `i` and from `j`
/// give the same pieces.
pub proof fn lemma_pieces_skip(s: Seq<char>, pat: Seq<char>, start: int, i: int, j: int)
    requires
        i <= j <= s.len(),
        forall|k: int| i <= k < j ==> !occurs_at(s, pat, k),
    ensures
        pieces_from(s, pat, start, i) == pieces_from(s, pat, start, j),
    decreases j - i,
{
    if i < j {
        lemma_pieces_skip(s, pat, start, i + 1, j);
    }
}

/// An occurrence of `pat` at or after `i` gives at least two pieces.
pub proof fn lemma_pieces_cut(s: Seq<char>, pat: Seq<char>, start: int, i: int, at: int)
    requires
        i <= at,
        occurs_at(s, pat, at),
    ensures
        pieces_from(s, pat, start, i).len() >= 2,
    decreases at - i,
{
    if occurs_at(s, pat, i) {
        lemma_pieces_nonempty(s, pat, i + pat.len(), i + pat.len());
    } else {
        lemma_pieces_cut(s, pat, start, i + 1, at);
    }
}

/// A separator of one character occurs exactly where that character stands.
pub proof fn lemma_occurs_char(s: Seq<char>, c: char, i: int)
    ensures
        occurs_at(s, seq![c], i) <==> (0 <= i < s.len() && s[i] == c),
{
    if 0 <= i < s.len() {
        if s[i] == c {
            assert(s.subrange(i, i + 1) =~= seq![c]);
        } else {
            assert(s.subrange(i, i + 1)[0] == s[i]);
        }
    }
}

/// The parts in order, with `sep` between each two of them.
pub open spec fn joined(parts: Seq<Seq<char>>, sep: Seq<char>) -> Seq<char>
    decreases parts.len(),
{
    if parts.len() == 0 {
        Seq::empty()
    } else if parts.len() == 1 {
        parts[0]
    } else {
        parts[0] + sep + joined(parts.skip(1), sep)
    }
}

/// Whether every character of `s` is white space.
pub open spec fn all_space(s: Seq<char>) -> bool {
    forall|k: int| 0 <= k < s.len() ==> is_space(#[trigger] s[k])
}

/// The pieces from `start` on, joined by `pat`, are the text from `start` on.
pub proof fn lemma_pieces_from_joined(s: Seq<char>, pat: Seq<char>, start: int, i: int)
    requires
        0 <= start <= i,
        start <= s.len(),
    ensures
        joined(pieces_from(s, pat, start, i), pat) == s.subrange(start, s.len() as int),
    decreases s.len() - i,
{
    let n = s.len() as int;
    if i >= n {
    } else if occurs_at(s, pat, i) {
        let next = i + pat.len();
        let rest = pieces_from(s, pat, next, next);
        let all = seq![s.subrange(start, i)] + rest;
        lemma_pieces_nonempty(s, pat, next, next);
        lemma_pieces_from_joined(s, pat, next, next);
        assert(all.skip(1) =~= rest);
        assert(s.subrange(start, i) + pat + s.subrange(next, n) =~= s.subrange(start, n));
    } else {
        lemma_pieces_from_joined(s, pat, start, i + 1);
    }
}

/// Joining the pieces of a text by the separator gives the text back.
pub proof fn lemma_pieces_joined(s: Seq<char>, pat: Seq<char>)
    ensures
        joined(pieces(s, pat), pat) == s,
{
    lemma_pieces_from_joined(s, pat, 0, 0);
    assert(s.subrange(0, s.len() as int) =~= s);
}

/// Where `pat` does not occur in `[start, i)`, it occurs in none of the pieces
/// from `start` on.
pub proof fn lemma_pieces_from_clean(s: Seq<char>, pat: Seq<char>, start: int, i: int, j: int, k: int)
    requires
        0 <= start <= i,
        start <= s.len(),
        forall|x: int| start <= x < i ==> !occurs_at(s, pat, x),
        0 <= j < pieces_from(s, pat, start, i).len(),
    ensures
        !occurs_at(pieces_from(s, pat, start, i)[j], pat, k),
    decreases s.len() - i,
{
    let n = s.len() as int;
    if i >= n {
        let piece = s.subrange(start, n);
        if occurs_at(piece, pat, k) {
            assert(s.subrange(start + k, start + k + pat.len()) =~= piece.subrange(
                k,
                k + pat.len(),
            ));
            assert(occurs_at(s, pat, start + k));
        }
    } else if occurs_at(s, pat, i) {
        let next = i + pat.len();
        if j == 0 {
            let piece = s.subrange(start, i);
            if occurs_at(piece, pat, k) {
                assert(s.subrange(start + k, start + k + pat.len()) =~= piece.subrange(
                    k,
                    k + pat.len(),
                ));
                assert(occurs_at(s, pat, start + k));
            }
        } else {
            lemma_pieces_from_clean(s, pat, next, next, j - 1, k);
        }
    } else {
        lemma_pieces_from_clean(s, pat, start, i + 1, j, k);
    }
}

/// The separator occurs in none of the pieces of a text.
pub proof fn lemma_pieces_clean(s: Seq<char>, pat: Seq<char>, j: int, k: int)
    requires
        0 <= j < pieces(s, pat).len(),
    ensures
        !occurs_at(pieces(s, pat)[j], pat, k),
{
    lemma_pieces_from_clean(s, pat, 0, 0, j, k);
}

/// Trimming at the start removes white space only, and all of it.
pub proof fn lemma_trim_start(s: Seq<char>)
    ensures
        trim_start(s).len() <= s.len(),
        trim_start(s) == s.skip(s.len() - trim_start(s).len()),
        all_space(s.take(s.len() - trim_start(s).len())),
        trim_start(s).len() > 0 ==> !is_space(trim_start(s).first()),
    decreases s.len(),
{
    if s.len() > 0 && is_space(s[0]) {
        let t = s.skip(1);
        lemma_trim_start(t);
        let cut = s.len() - trim_start(s).len();
        assert(t.skip(cut - 1) =~= s.skip(cut));
        assert forall|k: int| 0 <= k < cut implies is_space(#[trigger] s.take(cut)[k]) by {
            if k > 0 {
                assert(s.take(cut)[k] == t.take(cut - 1)[k - 1]);
            }
        }
    } else {
        assert(s.skip(0) =~= s);
    }
}

/// Trimming at the end removes white space only, and all of it.
pub proof fn lemma_trim_end(s: Seq<char>)
    ensures
        trim_end(s).len() <= s.len(),
        trim_end(s) == s.take(trim_end(s).len() as int),
        all_space(s.skip(trim_end(s).len() as int)),
        trim_end(s).len() > 0 ==> !is_space(trim_end(s).last()),
    decreases s.len(),
{
    if s.len() > 0 && is_space(s.last()) {
        let t = s.drop_last();
        lemma_trim_end(t);
        let keep = trim_end(s).len() as int;
        assert(t.take(keep) =~= s.take(keep));
        assert forall|k: int| 0 <= k < s.len() - keep implies is_space(
            #[trigger] s.skip(keep)[k],
        ) by {
            if k < s.len() - keep - 1 {
                assert(s.skip(keep)[k] == t.skip(keep)[k]);
            }
        }
    } else {
        assert(s.take(s.len() as int) =~= s);
    }
}

/// A text is white space, then its trimmed form, then white space; and the
/// trimmed form neither begins nor ends with white space.
pub proof fn lemma_trimmed(s: Seq<char>)
    ensures
        exists|before: Seq<char>, after: Seq<char>|
            all_space(before) && all_space(after) && s == before + trimmed(s) + after,
        trimmed(s).len() > 0 ==> !is_space(trimmed(s).first()) && !is_space(trimmed(s).last()),
{
    let mid = trim_start(s);
    lemma_trim_start(s);
    lemma_trim_end(mid);
    let before = s.take(s.len() - mid.len());
    let after = mid.skip(trimmed(s).len() as int);
    assert(s =~= before + trimmed(s) + after);
    if trimmed(s).len() > 0 {
        assert(trimmed(s).first() == mid.first());
    }
}

/// Whether two string slices hold the same characters.
pub fn same_text(a: &str, b: &str) -> (r: bool)
    ensures
        r == (a@ == b@),
{
    let x = a.to_owned();
    let y = b.to_owned();
    x == y
}

/// Whether `c` is white space.
pub fn is_space_char(c: char) -> (r: bool)
    ensures
        r == is_space(c),
{
    let u: u32 = c as u32;
    (0x09 <= u && u <= 0x0d) || u == 0x20 || u == 0x85 || u == 0xa0 || u == 0x1680 || (0x2000 <= u
        && u <= 0x200a) || u == 0x2028 || u == 0x2029 || u == 0x202f || u == 0x205f || u == 0x3000
}

/// Cuts `s` at each occurrence of `pat`, from left to right.
pub fn split(s: &str, pat: &str) -> (out: Vec<String>)
    ensures
        texts(out@) == pieces(s@, pat@),
{
    let n: usize = s.unicode_len();
    let m: usize = pat.unicode_len();
    let mut out: Vec<String> = Vec::new();
    let mut start: usize = 0;
    let mut i: usize = 0;
    assert(texts(out@) + pieces_from(s@, pat@, 0, 0) =~= pieces(s@, pat@));
    while i < n
        invariant
            n == s@.len(),
            m == pat@.len(),
            start <= i <= n,
            texts(out@) + pieces_from(s@, pat@, start as int, i as int) == pieces(s@, pat@),
        decreases n - i,
    {
        if m > 0 && m <= n - i && same_text(s.substring_char(i, i + m), pat) {
            let piece = s.substring_char(start, i).to_owned();
            proof {
                let rest = pieces_from(s@, pat@, i + m, i + m);
                assert(texts(out@.push(piece)) =~= texts(out@).push(piece@));
                assert(texts(out@).push(piece@) + rest =~= texts(out@) + (seq![piece@] + rest));
            }
            out.push(piece);
            i = i + m;
            start = i;
        } else {
            i = i + 1;
        }
    }
    let piece = s.substring_char(start, n).to_owned();
    proof {
        assert(texts(out@.push(piece)) =~= texts(out@).push(piece@));
        assert(texts(out@).push(piece@) =~= texts(out@) + seq![piece@]);
    }
    out.push(piece);
    out
}

/// Removes the white space at both ends of `s`.
pub fn trim(s: &str) -> (r: String)
    ensures
        r@ == trimmed(s@),
{
    let n: usize = s.unicode_len();
    let mut a: usize = 0;
    assert(s@.skip(0) =~= s@);
    while a < n && is_space_char(s.get_char(a))
        invariant
            n == s@.len(),
            a <= n,
            trim_start(s@) == trim_start(s@.skip(a as int)),
        decreases n - a,
    {
        assert(s@.skip(a as int).skip(1) =~= s@.skip(a + 1));
        a = a + 1;
    }
    let mut b: usize = n;
    assert(s@.skip(a as int) =~= s@.subrange(a as int, n as int));
    while a < b && is_space_char(s.get_char(b - 1))
        invariant
            n == s@.len(),
            a <= b <= n,
            trimmed(s@) == trim_end(s@.subrange(a as int, b as int)),
        decreases b - a,
    {
        assert(s@.subrange(a as int, b as int).drop_last() =~= s@.subrange(a as int, b - 1));
        b = b - 1;
    }
    s.substring_char(a, b).to_owned()
}

} // verus!
