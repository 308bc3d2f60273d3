//! Character-level helpers shared by the token and document modules:
//! whitespace trimming, blankness, and digit extraction.

use vstd::prelude::*;
use vstd::string::StrSliceExecFns;

verus! {

/// The whitespace characters recognised when trimming header and form
/// values: the Unicode White_Space set, the same characters
/// `char::is_whitespace` accepts.
pub open spec fn is_space_char(c: char) -> bool {
    let u = c as u32;
    (9 <= u && u <= 13) || u == 32 || u == 0x85 || u == 0xA0 || u == 0x1680 || (0x2000 <= u && u
        <= 0x200A) || u == 0x2028 || u == 0x2029 || u == 0x202F || u == 0x205F || u == 0x3000
}

/// A string is blank when it holds nothing but whitespace.
pub open spec fn blank(s: Seq<char>) -> bool {
    forall|i: int| 0 <= i < s.len() ==> is_space_char(s[i])
}

/// `s` with its leading whitespace removed.
pub open spec fn trim_start_spec(s: Seq<char>) -> Seq<char>
    decreases s.len(),
{
    if s.len() > 0 && is_space_char(s[0]) {
        trim_start_spec(s.drop_first())
    } else {
        s
    }
}

/// `s` with its trailing whitespace removed.
pub open spec fn trim_end_spec(s: Seq<char>) -> Seq<char>
    decreases s.len(),
{
    if s.len() > 0 && is_space_char(s.last()) {
        trim_end_spec(s.drop_last())
    } else {
        s
    }
}

/// `s` with whitespace removed from both ends.
pub open spec fn trim_spec(s: Seq<char>) -> Seq<char> {
    trim_end_spec(trim_start_spec(s))
}

proof fn lemma_trim_start_range(s: Seq<char>, i: int)
    requires
        0 <= i <= s.len(),
        forall|k: int| 0 <= k < i ==> is_space_char(s[k]),
        i == s.len() || !is_space_char(s[i]),
    ensures
        trim_start_spec(s) == s.subrange(i, s.len() as int),
    decreases i,
{
    if i == 0 {
        assert(s.subrange(0, s.len() as int) =~= s);
    } else {
        let t = s.drop_first();
        assert(forall|k: int| 0 <= k < i - 1 ==> is_space_char(#[trigger] t[k]));
        lemma_trim_start_range(t, i - 1);
        assert(t.subrange(i - 1, t.len() as int) =~= s.subrange(i, s.len() as int));
    }
}

proof fn lemma_trim_end_range(s: Seq<char>, j: int)
    requires
        0 <= j <= s.len(),
        forall|k: int| j <= k < s.len() ==> is_space_char(s[k]),
        j == 0 || !is_space_char(s[j - 1]),
    ensures
        trim_end_spec(s) == s.subrange(0, j),
    decreases s.len() - j,
{
    if j == s.len() {
        if s.len() == 0 || !is_space_char(s.last()) {
            assert(s.subrange(0, s.len() as int) =~= s);
        } else {
            assert(false);
        }
    } else {
        let t = s.drop_last();
        assert(forall|k: int| j <= k < t.len() ==> is_space_char(#[trigger] t[k]));
        lemma_trim_end_range(t, j);
        assert(t.subrange(0, j) =~= s.subrange(0, j));
    }
}

/// Whether `c` falls in the recognised whitespace set.
pub fn is_space(c: char) -> (r: bool)
    ensures
        r == is_space_char(c),
{
    let u = c as u32;
    (9 <= u && u <= 13) || u == 32 || u == 0x85 || u == 0xA0 || u == 0x1680 || (0x2000 <= u && u
        <= 0x200A) || u == 0x2028 || u == 0x2029 || u == 0x202F || u == 0x205F || u == 0x3000
}

/// Removes the whitespace on both ends of `s`.
pub fn trim_str(s: &str) -> (r: String)
    ensures
        r@ == trim_spec(s@),
{
    let n = s.unicode_len();
    let mut i: usize = 0;
    while i < n && is_space(s.get_char(i))
        invariant
            0 <= i <= n == s@.len(),
            forall|k: int| 0 <= k < i ==> is_space_char(s@[k]),
        decreases n - i,
    {
        i = i + 1;
    }
    let mut j: usize = n;
    while j > i && is_space(s.get_char(j - 1))
        invariant
            i <= j <= n == s@.len(),
            forall|k: int| j <= k < n ==> is_space_char(s@[k]),
            forall|k: int| 0 <= k < i ==> is_space_char(s@[k]),
            i == s@.len() || !is_space_char(s@[i as int]),
        decreases j,
    {
        j = j - 1;
    }
    proof {
        lemma_trim_start_range(s@, i as int);
        let t = s@.subrange(i as int, s@.len() as int);
        if j == i {
            // everything from i on is whitespace, so the start-trimmed tail is all whitespace
            lemma_trim_end_range(t, 0);
        } else {
            lemma_trim_end_range(t, j - i);
        }
        assert(t.subrange(0, j - i) =~= s@.subrange(i as int, j as int));
    }
    let piece = s.substring_char(i, j);
    piece.to_owned()
}

/// Trimming removes exactly the whitespace padding: whitespace, then a
/// piece whose first and last characters are not whitespace, then
/// whitespace, trims to the piece itself.
pub proof fn lemma_trim_of_padded(w1: Seq<char>, t: Seq<char>, w2: Seq<char>)
    requires
        blank(w1),
        blank(w2),
        t.len() > 0,
        !is_space_char(t[0]),
        !is_space_char(t.last()),
    ensures
        trim_spec(w1 + t + w2) == t,
{
    let s = w1 + t + w2;
    let i = w1.len() as int;
    assert(forall|k: int| 0 <= k < i ==> #[trigger] s[k] == w1[k]);
    assert(s[i] == t[0]);
    lemma_trim_start_range(s, i);
    let u = s.subrange(i, s.len() as int);
    assert(u =~= t + w2);
    let j = t.len() as int;
    assert(forall|k: int| j <= k < u.len() ==> #[trigger] u[k] == w2[k - j]);
    assert(u[j - 1] == t.last());
    lemma_trim_end_range(u, j);
    assert(u.subrange(0, j) =~= t);
}

/// Whether `s` is blank, without building the trimmed copy.
pub fn is_blank(s: &str) -> (r: bool)
    ensures
        r == blank(s@),
{
    let n = s.unicode_len();
    let mut i: usize = 0;
    while i < n
        invariant
            0 <= i <= n == s@.len(),
            forall|k: int| 0 <= k < i ==> is_space_char(s@[k]),
        decreases n - i,
    {
        if !is_space(s.get_char(i)) {
            return false;
        }
        i = i + 1;
    }
    true
}

/// Whether `c` is an ASCII decimal digit.
pub open spec fn is_digit_char(c: char) -> bool {
    48 <= c as u32 <= 57
}

/// The numeric value of a digit character.
pub open spec fn digit_val(c: char) -> int {
    c as u32 - 48
}

/// The decimal digits of `s`, in order, with every other character dropped.
pub open spec fn digits_spec(s: Seq<char>) -> Seq<char>
    decreases s.len(),
{
    if s.len() == 0 {
        Seq::empty()
    } else if is_digit_char(s[0]) {
        seq![s[0]] + digits_spec(s.drop_first())
    } else {
        digits_spec(s.drop_first())
    }
}

/// Every character of `digits_spec(s)` is a digit.
pub proof fn lemma_digits_are_digits(s: Seq<char>)
    ensures
        forall|i: int| 0 <= i < digits_spec(s).len() ==> is_digit_char(#[trigger] digits_spec(s)[i]),
    decreases s.len(),
{
    if s.len() > 0 {
        lemma_digits_are_digits(s.drop_first());
        let rest = digits_spec(s.drop_first());
        if is_digit_char(s[0]) {
            assert(forall|i: int|
                0 < i < digits_spec(s).len() ==> #[trigger] digits_spec(s)[i] == rest[i - 1]);
        }
    }
}

/// Collects the decimal digits of `s`, dropping every other character.
pub fn digit_chars(s: &str) -> (r: Vec<char>)
    ensures
        r@ == digits_spec(s@),
{
    let n = s.unicode_len();
    let mut out: Vec<char> = Vec::new();
    proof {
        assert(s@.skip(0) == s@);
    }
    let mut i: usize = 0;
    while i < n
        invariant
            0 <= i <= n == s@.len(),
            digits_spec(s@) == out@ + digits_spec(s@.skip(i as int)),
        decreases n - i,
    {
        let c = s.get_char(i);
        let u = c as u32;
        proof {
            assert(s@.skip(i as int).drop_first() == s@.skip(i + 1));
            assert(s@.skip(i as int)[0] == s@[i as int]);
        }
        if 48 <= u && u <= 57 {
            out.push(c);
            proof {
                assert(digits_spec(s@) =~= out@ + digits_spec(s@.skip(i + 1)));
            }
        }
        i = i + 1;
    }
    proof {
        assert(digits_spec(s@.skip(n as int)) =~= Seq::<char>::empty());
        assert(digits_spec(s@) =~= out@);
    }
    out
}

/// Relies on `String::push`: appends the character to the end of the string.
#[verifier::external_body]
pub(crate) fn push_char(s: &mut String, c: char)
    ensures
        final(s)@ == old(s)@.push(c),
{
    s.push(c);
}

} // verus!
