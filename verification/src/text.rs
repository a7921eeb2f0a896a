//! Text as a sequence of characters: blank margins and their removal.

use vstd::prelude::*;
use vstd::string::StrSliceExecFns;

verus! {

/// Whether a character is white space: one of the 25 characters to which
/// Unicode gives the property `White_Space`. They are the tab, the line feed,
/// the vertical tab, the form feed and the carriage return; the space; the next
/// line; the no-break space; the Ogham space mark; the eleven spaces from the
/// en quad to the hair space; the line and the paragraph separator;
/// the narrow no-break space; the medium mathematical space; and the
/// ideographic space.
pub open spec fn is_white_space(c: char) -> bool {
    ||| '\u{9}' <= c && c <= '\u{d}'
    ||| c == ' '
    ||| c == '\u{85}'
    ||| c == '\u{a0}'
    ||| c == '\u{1680}'
    ||| '\u{2000}' <= c && c <= '\u{200a}'
    ||| c == '\u{2028}'
    ||| c == '\u{2029}'
    ||| c == '\u{202f}'
    ||| c == '\u{205f}'
    ||| c == '\u{3000}'
}

/// Whether a character is white space.
pub fn white_space(c: char) -> (b: bool)
    ensures
        b == is_white_space(c),
{
    ('\u{9}' <= c && c <= '\u{d}') || c == ' ' || c == '\u{85}' || c == '\u{a0}' || c
        == '\u{1680}' || ('\u{2000}' <= c && c <= '\u{200a}') || c == '\u{2028}' || c
        == '\u{2029}' || c == '\u{202f}' || c == '\u{205f}' || c == '\u{3000}'
}

/// How many characters of white space `s` begins with.
pub open spec fn leading_blank(s: Seq<char>) -> nat
    decreases s.len(),
{
    if s.len() > 0 && is_white_space(s[0]) {
        1 + leading_blank(s.drop_first())
    } else {
        0
    }
}

/// How many characters of white space `s` ends with.
pub open spec fn trailing_blank(s: Seq<char>) -> nat
    decreases s.len(),
{
    if s.len() > 0 && is_white_space(s.last()) {
        1 + trailing_blank(s.drop_last())
    } else {
        0
    }
}

/// Whether `s` holds nothing but white space.
pub open spec fn is_blank(s: Seq<char>) -> bool {
    forall|i: int| 0 <= i < s.len() ==> is_white_space(#[trigger] s[i])
}

/// `s` without the white space at its two ends.
pub open spec fn trimmed(s: Seq<char>) -> Seq<char> {
    if leading_blank(s) == s.len() {
        Seq::empty()
    } else {
        s.subrange(leading_blank(s) as int, s.len() - trailing_blank(s))
    }
}

/// The leading white space ends at the first character that is none.
pub proof fn lemma_leading_blank(s: Seq<char>, a: int)
    requires
        0 <= a <= s.len(),
        forall|i: int| 0 <= i < a ==> is_white_space(#[trigger] s[i]),
        a < s.len() ==> !is_white_space(s[a]),
    ensures
        leading_blank(s) == a,
    decreases a,
{
    if a > 0 {
        let t = s.drop_first();
        assert forall|i: int| 0 <= i < a - 1 implies is_white_space(#[trigger] t[i]) by {
            assert(t[i] == s[i + 1]);
        }
        lemma_leading_blank(t, a - 1);
    }
}

/// The trailing white space begins after the last character that is none.
pub proof fn lemma_trailing_blank(s: Seq<char>, b: int)
    requires
        0 <= b <= s.len(),
        forall|i: int| b <= i < s.len() ==> is_white_space(#[trigger] s[i]),
        b > 0 ==> !is_white_space(s[b - 1]),
    ensures
        trailing_blank(s) == s.len() - b,
    decreases s.len() - b,
{
    if b < s.len() {
        let t = s.drop_last();
        assert forall|i: int| b <= i < t.len() implies is_white_space(#[trigger] t[i]) by {
            assert(t[i] == s[i]);
        }
        lemma_trailing_blank(t, b);
    }
}

/// Where the two margins of a text end: the leading white space at the first
/// character that is none, and, in a text that is not blank, the trailing
/// white space behind the last such character, which comes no earlier.
proof fn lemma_margins(s: Seq<char>)
    ensures
        leading_blank(s) == first_solid(s, 0),
        0 <= first_solid(s, 0) <= s.len(),
        forall|i: int| 0 <= i < first_solid(s, 0) ==> is_white_space(#[trigger] s[i]),
        first_solid(s, 0) < s.len() ==> {
            &&& !is_white_space(s[first_solid(s, 0)])
            &&& trailing_blank(s) == s.len() - last_solid(s, s.len() as int)
            &&& first_solid(s, 0) < last_solid(s, s.len() as int) <= s.len()
            &&& !is_white_space(s[last_solid(s, s.len() as int) - 1])
        },
{
    let a = first_solid(s, 0);
    lemma_first_solid(s, 0);
    lemma_leading_blank(s, a);
    if a < s.len() {
        let b = last_solid(s, s.len() as int);
        lemma_last_solid(s, s.len() as int);
        lemma_trailing_blank(s, b);
        assert(b > a) by {
            if b <= a {
                assert(is_white_space(s[a]));
            }
        }
    }
}

/// A text is blank exactly when nothing is left of it once trimmed.
pub proof fn lemma_blank_iff_trimmed_empty(s: Seq<char>)
    ensures
        is_blank(s) <==> trimmed(s).len() == 0,
{
    lemma_margins(s);
}

/// A trimmed text that holds a character begins and ends with one that is no
/// white space.
pub proof fn lemma_trimmed_is_solid(s: Seq<char>)
    ensures
        trimmed(s).len() > 0 ==> !is_white_space(trimmed(s)[0]) && !is_white_space(
            trimmed(s).last(),
        ),
{
    lemma_margins(s);
}

/// The first position from `from` on that holds no white space, or the length.
spec fn first_solid(s: Seq<char>, from: int) -> int
    decreases s.len() - from,
{
    if 0 <= from < s.len() && is_white_space(s[from]) {
        first_solid(s, from + 1)
    } else {
        from
    }
}

/// The position after the last character before `to` that is no white space, or 0.
spec fn last_solid(s: Seq<char>, to: int) -> int
    decreases to,
{
    if 0 < to <= s.len() && is_white_space(s[to - 1]) {
        last_solid(s, to - 1)
    } else {
        to
    }
}

proof fn lemma_first_solid(s: Seq<char>, from: int)
    requires
        0 <= from <= s.len(),
    ensures
        from <= first_solid(s, from) <= s.len(),
        forall|i: int| from <= i < first_solid(s, from) ==> is_white_space(#[trigger] s[i]),
        first_solid(s, from) < s.len() ==> !is_white_space(s[first_solid(s, from)]),
    decreases s.len() - from,
{
    if from < s.len() && is_white_space(s[from]) {
        lemma_first_solid(s, from + 1);
    }
}

proof fn lemma_last_solid(s: Seq<char>, to: int)
    requires
        0 <= to <= s.len(),
    ensures
        0 <= last_solid(s, to) <= to,
        forall|i: int| last_solid(s, to) <= i < to ==> is_white_space(#[trigger] s[i]),
        last_solid(s, to) > 0 ==> !is_white_space(s[last_solid(s, to) - 1]),
    decreases to,
{
    if 0 < to && is_white_space(s[to - 1]) {
        lemma_last_solid(s, to - 1);
    }
}

/// The characters of a string, in order.
pub fn chars_of(s: &str) -> (v: Vec<char>)
    ensures
        v@ == s@,
{
    let mut v: Vec<char> = Vec::new();
    for c in it: s.chars()
        invariant
            it.seq() == s@,
            v@ == it.seq().take(it.index()),
    {
        v.push(c);
    }
    assert(s@.take(s@.len() as int) == s@);
    v
}

/// The text without the white space at its two ends.
pub fn trim(s: &str) -> (r: &str)
    ensures
        r@ == trimmed(s@),
        r@.len() == 0 <==> is_blank(s@),
{
    let v = chars_of(s);
    let n: usize = v.len();
    let mut a: usize = 0;
    while a < n && white_space(v[a])
        invariant
            a <= n,
            n == v@.len(),
            forall|i: int| 0 <= i < a ==> is_white_space(#[trigger] v@[i]),
        decreases n - a,
    {
        a = a + 1;
    }
    let mut b: usize = n;
    while b > a && white_space(v[b - 1])
        invariant
            a <= b <= n,
            n == v@.len(),
            forall|i: int| b <= i < n ==> is_white_space(#[trigger] v@[i]),
        decreases b,
    {
        b = b - 1;
    }
    proof {
        lemma_leading_blank(s@, a as int);
        lemma_blank_iff_trimmed_empty(s@);
        if a < n {
            lemma_trailing_blank(s@, b as int);
        } else {
            assert(s@.subrange(a as int, b as int) =~= Seq::<char>::empty());
        }
    }
    s.substring_char(a, b)
}

} // verus!
