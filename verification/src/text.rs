//! Character-level text handling: whitespace, trimming, and cutting a text into
//! words. Every function is specified over `Seq<char>`, the view of a string.

use crate::runs::{
    lemma_run_len, lemma_run_len_back, lemma_run_len_back_bounds, lemma_run_len_bounds, run_len,
    run_len_back,
};
use vstd::prelude::*;

verus! {

/// Whether `c` is white space in the sense of the Unicode `White_Space` property.
pub open spec fn is_space(c: char) -> bool {
    let u = c as u32;
    ||| 0x09 <= u <= 0x0D
    ||| u == 0x20
    ||| u == 0x85
    ||| u == 0xA0
    ||| u == 0x1680
    ||| 0x2000 <= u <= 0x200A
    ||| u == 0x2028
    ||| u == 0x2029
    ||| u == 0x202F
    ||| u == 0x205F
    ||| u == 0x3000
}

/// Number of white-space characters at the front of `s`.
pub open spec fn leading_spaces(s: Seq<char>) -> nat {
    run_len(s, |c: char| is_space(c))
}

/// Number of white-space characters at the end of `s`.
pub open spec fn trailing_spaces(s: Seq<char>) -> nat {
    run_len_back(s, |c: char| is_space(c))
}

/// Number of characters at the front of `s` before the first white space.
pub open spec fn word_len(s: Seq<char>) -> nat {
    run_len(s, |c: char| !is_space(c))
}

/// Number of characters at the front of `s` before the first occurrence of `stop`.
pub open spec fn prefix_before(s: Seq<char>, stop: char) -> nat
    decreases s.len(),
{
    if s.len() > 0 && s[0] != stop {
        1 + prefix_before(s.drop_first(), stop)
    } else {
        0
    }
}

/// How often `c` occurs in `s`.
pub open spec fn occurrences(s: Seq<char>, c: char) -> nat
    decreases s.len(),
{
    if s.len() == 0 {
        0
    } else {
        occurrences(s.drop_last(), c) + if s.last() == c {
            1nat
        } else {
            0nat
        }
    }
}

/// `s` without the white space at its front and at its end.
pub open spec fn trim(s: Seq<char>) -> Seq<char> {
    let a = leading_spaces(s);
    if a >= s.len() {
        Seq::empty()
    } else {
        s.subrange(a as int, s.len() - trailing_spaces(s))
    }
}

/// The maximal runs of non-white-space characters of `s`, in order.
pub open spec fn words(s: Seq<char>) -> Seq<Seq<char>>
    decreases s.len(),
{
    if s.len() == 0 {
        Seq::empty()
    } else if is_space(s[0]) {
        words(s.drop_first())
    } else {
        let n = word_len(s);
        if 0 < n < s.len() {
            seq![s.take(n as int)] + words(s.skip(n as int))
        } else {
            seq![s]
        }
    }
}

/// Whether `w` can be a word: it is not empty and holds no white space.
pub open spec fn is_word(w: Seq<char>) -> bool {
    w.len() > 0 && forall|j: int| 0 <= j < w.len() ==> !is_space(#[trigger] w[j])
}

/// Whether `a` comes before `b`, or is `b`, in the order of a dictionary whose
/// alphabet is the characters by code point. This is the order of strings.
pub open spec fn text_le(a: Seq<char>, b: Seq<char>) -> bool
    decreases a.len(),
{
    if a.len() == 0 {
        true
    } else if b.len() == 0 {
        false
    } else if a[0] != b[0] {
        a[0] < b[0]
    } else {
        text_le(a.drop_first(), b.drop_first())
    }
}

/// The views of the strings of `v`, in order.
pub open spec fn views(v: Seq<String>) -> Seq<Seq<char>> {
    v.map_values(|s: String| s@)
}

/// The first occurrence of `stop` is pinned down by its position: no character
/// before `k` is `stop`, and the one at `k`, if there is one, is.
pub proof fn lemma_prefix_before(s: Seq<char>, stop: char, k: int)
    requires
        0 <= k <= s.len(),
        forall|i: int| 0 <= i < k ==> #[trigger] s[i] != stop,
        k < s.len() ==> s[k] == stop,
    ensures
        prefix_before(s, stop) == k,
    decreases k,
{
    if k > 0 {
        let rest = s.drop_first();
        assert forall|i: int| 0 <= i < k - 1 implies #[trigger] rest[i] != stop by {
            assert(rest[i] == s[i + 1]);
        }
        lemma_prefix_before(rest, stop, k - 1);
    }
}

/// What `trim` leaves is a part of the text that neither starts nor ends with
/// white space, and all that it cuts off is white space.
pub proof fn law_trim_cuts_white_space_only(s: Seq<char>)
    ensures
        leading_spaces(s) + trim(s).len() + trailing_spaces(s) == s.len() || (trim(s).len() == 0
            && leading_spaces(s) == s.len()),
        trim(s).len() > 0 ==> !is_space(trim(s)[0]) && !is_space(trim(s).last()),
        trim(s).len() > 0 ==> trim(s) == s.subrange(
            leading_spaces(s) as int,
            s.len() - trailing_spaces(s),
        ),
        forall|i: int| 0 <= i < leading_spaces(s) ==> is_space(#[trigger] s[i]),
        forall|i: int| s.len() - trailing_spaces(s) <= i < s.len() ==> is_space(#[trigger] s[i]),
{
    let space = |c: char| is_space(c);
    lemma_run_len_bounds(s, space);
    lemma_run_len_back_bounds(s, space);
    let a = leading_spaces(s) as int;
    let b = s.len() - trailing_spaces(s);
    if a < s.len() {
        if b <= a {
            assert(is_space(s[a]));
        }
    }
}

/// No word is empty, and no word holds white space.
pub proof fn law_words_hold_no_space(s: Seq<char>)
    ensures
        forall|i: int| 0 <= i < words(s).len() ==> is_word(#[trigger] words(s)[i]),
    decreases s.len(),
{
    if s.len() == 0 {
    } else if is_space(s[0]) {
        law_words_hold_no_space(s.drop_first());
        assert(words(s) == words(s.drop_first()));
    } else {
        let word = |c: char| !is_space(c);
        lemma_run_len_bounds(s, word);
        let n = word_len(s);
        if 0 < n < s.len() {
            let first = s.take(n as int);
            let rest = words(s.skip(n as int));
            law_words_hold_no_space(s.skip(n as int));
            assert forall|j: int| 0 <= j < first.len() implies !is_space(#[trigger] first[j]) by {
                assert(word(s[j]));
            }
            assert(words(s) == seq![first] + rest);
            assert forall|i: int| 0 <= i < words(s).len() implies is_word(
                #[trigger] words(s)[i],
            ) by {
                if i > 0 {
                    assert(words(s)[i] == rest[i - 1]);
                } else {
                    assert(words(s)[i] == first);
                }
            }
        } else {
            assert forall|j: int| 0 <= j < s.len() implies !is_space(#[trigger] s[j]) by {
                assert(word(s[j]));
            }
            assert(words(s) == seq![s]);
            assert(words(s)[0] == s);
        }
    }
}

/// Of two texts, one comes before the other or is the other.
pub proof fn lemma_text_le_total(a: Seq<char>, b: Seq<char>)
    ensures
        text_le(a, b) || text_le(b, a),
    decreases a.len(),
{
    if a.len() > 0 && b.len() > 0 {
        if a[0] == b[0] {
            lemma_text_le_total(a.drop_first(), b.drop_first());
        } else {
            assert(a[0] < b[0] || b[0] < a[0]);
        }
    } else if a.len() > 0 {
        assert(text_le(b, a));
    }
}

/// The order of texts is transitive.
pub proof fn lemma_text_le_transitive(a: Seq<char>, b: Seq<char>, c: Seq<char>)
    requires
        text_le(a, b),
        text_le(b, c),
    ensures
        text_le(a, c),
    decreases a.len(),
{
    if a.len() > 0 && b.len() > 0 && c.len() > 0 && a[0] == b[0] && b[0] == c[0] {
        lemma_text_le_transitive(a.drop_first(), b.drop_first(), c.drop_first());
    }
}

/// Whether `c` is white space.
pub fn is_whitespace(c: char) -> (b: bool)
    ensures
        b == is_space(c),
{
    let u: u32 = c as u32;
    (0x09 <= u && u <= 0x0D) || u == 0x20 || u == 0x85 || u == 0xA0 || u == 0x1680 || (0x2000 <= u
        && u <= 0x200A) || u == 0x2028 || u == 0x2029 || u == 0x202F || u == 0x205F || u == 0x3000
}

/// The characters of `s`, in order, for constant-time indexing.
pub fn chars_of(s: &str) -> (out: Vec<char>)
    ensures
        out@ == s@,
{
    broadcast use vstd::string::group_string_axioms;

    let mut out: Vec<char> = Vec::new();
    for c in it: s.chars()
        invariant
            it.seq() == s@,
            out@ == s@.take(it.index()),
    {
        out.push(c);
    }
    out
}

/// The part of `[from, to)` that is left when the white space at both ends is
/// cut off: the bounds of `trim` of that part.
pub(crate) fn trim_range(chars: &Vec<char>, from: usize, to: usize) -> (r: (usize, usize))
    requires
        from <= to <= chars.len(),
    ensures
        from <= r.0 <= r.1 <= to,
        chars@.subrange(r.0 as int, r.1 as int) == trim(chars@.subrange(from as int, to as int)),
{
    let ghost part = chars@.subrange(from as int, to as int);
    let ghost space = |c: char| is_space(c);
    let mut a: usize = from;
    while a < to && is_whitespace(chars[a])
        invariant
            from <= a <= to <= chars.len(),
            forall|i: int| from <= i < a ==> is_space(#[trigger] chars@[i]),
        decreases to - a,
    {
        a += 1;
    }
    proof {
        assert forall|i: int| 0 <= i < a - from implies space(#[trigger] part[i]) by {
            assert(part[i] == chars@[from + i]);
        }
        lemma_run_len(part, space, a - from);
    }
    if a == to {
        proof {
            assert(chars@.subrange(a as int, a as int) =~= Seq::<char>::empty());
        }
        return (a, a);
    }
    let mut b: usize = to;
    while b > a && is_whitespace(chars[b - 1])
        invariant
            from <= a < b <= to <= chars.len(),
            !is_space(chars@[a as int]),
            forall|i: int| b <= i < to ==> is_space(#[trigger] chars@[i]),
        decreases b,
    {
        b -= 1;
    }
    proof {
        assert forall|i: int| b - from <= i < part.len() implies space(#[trigger] part[i]) by {
            assert(part[i] == chars@[from + i]);
        }
        assert(part[b - from - 1] == chars@[b - 1]);
        lemma_run_len_back(part, space, b - from);
        assert(chars@.subrange(a as int, b as int) =~= part.subrange(
            a - from,
            part.len() - (to - b),
        ));
    }
    (a, b)
}

/// Whether `a` comes before `b`, or is `b`, in the order of strings.
pub fn precedes_or_equals(a: &str, b: &str) -> (le: bool)
    ensures
        le == text_le(a@, b@),
{
    let x = chars_of(a);
    let y = chars_of(b);
    let mut i: usize = 0;
    proof {
        assert(x@.skip(0) =~= x@);
        assert(y@.skip(0) =~= y@);
    }
    while i < x.len() && i < y.len() && x[i] == y[i]
        invariant
            i <= x.len(),
            i <= y.len(),
            text_le(x@, y@) == text_le(x@.skip(i as int), y@.skip(i as int)),
        decreases x.len() - i,
    {
        proof {
            assert(x@.skip(i as int).drop_first() =~= x@.skip(i + 1));
            assert(y@.skip(i as int).drop_first() =~= y@.skip(i + 1));
        }
        i += 1;
    }
    if i == x.len() {
        true
    } else if i == y.len() {
        false
    } else {
        x[i] < y[i]
    }
}

/// `text` cut at white space: its words, in order, none of them empty.
pub fn split_whitespace(text: &str) -> (out: Vec<String>)
    ensures
        views(out@) == words(text@),
{
    let chars = chars_of(text);
    let n = chars.len();
    let ghost word = |c: char| !is_space(c);
    let mut out: Vec<String> = Vec::new();
    let mut pos: usize = 0;
    proof {
        assert(text@.skip(0) =~= text@);
        assert(views(out@) + words(text@) =~= words(text@));
    }
    while pos < n
        invariant
            pos <= n,
            n == chars.len(),
            chars@ == text@,
            word == (|c: char| !is_space(c)),
            words(text@) == views(out@) + words(text@.skip(pos as int)),
        decreases n - pos,
    {
        let ghost rest = text@.skip(pos as int);
        if is_whitespace(chars[pos]) {
            proof {
                assert(rest[0] == text@[pos as int]);
                assert(rest.drop_first() =~= text@.skip(pos + 1));
            }
            pos += 1;
        } else {
            let start = pos;
            while pos < n && !is_whitespace(chars[pos])
                invariant
                    start <= pos <= n,
                    n == chars.len(),
                    chars@ == text@,
                    forall|i: int| start <= i < pos ==> !is_space(#[trigger] chars@[i]),
                decreases n - pos,
            {
                pos += 1;
            }
            let piece = text.substring_char(start, pos).to_owned();
            proof {
                assert(rest[0] == text@[start as int]);
                assert forall|i: int| 0 <= i < pos - start implies word(#[trigger] rest[i]) by {
                    assert(rest[i] == chars@[start + i]);
                }
                if pos < n {
                    assert(rest[pos - start] == chars@[pos as int]);
                }
                lemma_run_len(rest, word, pos - start);
                assert(rest.take(pos - start) =~= text@.subrange(start as int, pos as int));
                assert(rest.skip(pos - start) =~= text@.skip(pos as int));
                if pos == n {
                    assert(rest =~= text@.subrange(start as int, pos as int));
                    assert(words(text@.skip(pos as int)) =~= Seq::<Seq<char>>::empty());
                }
                assert(views(out@.push(piece)) =~= views(out@) + seq![piece@]);
            }
            out.push(piece);
        }
    }
    proof {
        assert(text@.skip(pos as int) =~= Seq::<char>::empty());
    }
    out
}

} // verus!
