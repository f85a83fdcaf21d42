//! Character-sequence utilities the reply logic is built on: ASCII
//! case folding, whitespace trimming, substring search, and decimal
//! rendering of byte counts.
use vstd::prelude::*;

verus! {

use vstd::string::StrSliceExecFns;
use vstd::string::StringExecFns;

/// The character is an ASCII capital letter.
pub open spec fn is_ascii_upper(c: char) -> bool {
    65 <= c as u32 <= 90
}

/// ASCII case folding of one character: capital letters map to their
/// lower-case form, every other character is unchanged.
pub open spec fn ascii_lower(c: char) -> char {
    if is_ascii_upper(c) {
        (((c as u32) + 32) as u8) as char
    } else {
        c
    }
}

/// ASCII case folding of a whole sequence.
pub open spec fn lower_seq(s: Seq<char>) -> Seq<char> {
    s.map(|i: int, c: char| ascii_lower(c))
}

/// Fold one character to lower case.
pub fn lower_char(c: char) -> (r: char)
    ensures
        r == ascii_lower(c),
{
    let u = c as u32;
    if 65 <= u && u <= 90 {
        ((u + 32) as u8) as char
    } else {
        c
    }
}

/// `needle` occurs in `hay` starting at position `i`.
pub open spec fn matches_at(hay: Seq<char>, needle: Seq<char>, i: int) -> bool {
    0 <= i && i + needle.len() <= hay.len() && hay.subrange(i, i + needle.len()) == needle
}

/// `needle` occurs somewhere in `hay`.
pub open spec fn contains_seq(hay: Seq<char>, needle: Seq<char>) -> bool {
    exists|i: int| matches_at(hay, needle, i)
}

/// Compare `needle` against the characters of `hay` starting at `at`,
/// folding `hay` to lower case on the way.
fn keyword_matches_at(hay: &str, needle: &str, at: usize, hay_len: usize, needle_len: usize) -> (r:
    bool)
    requires
        hay_len == hay@.len(),
        needle_len == needle@.len(),
        at + needle_len <= hay_len,
    ensures
        r == matches_at(lower_seq(hay@), needle@, at as int),
{
    let mut j: usize = 0;
    while j < needle_len
        invariant
            j <= needle_len,
            hay_len == hay@.len(),
            needle_len == needle@.len(),
            at + needle_len <= hay_len,
            forall|k: int| 0 <= k < j ==> lower_seq(hay@)[at + k] == needle@[k],
        decreases needle_len - j,
    {
        let hc = lower_char(hay.get_char(at + j));
        let nc = needle.get_char(j);
        if hc != nc {
            assert(lower_seq(hay@)[at + j] != needle@[j as int]);
            assert(!matches_at(lower_seq(hay@), needle@, at as int)) by {
                if lower_seq(hay@).subrange(at as int, at + needle@.len()) == needle@ {
                    assert(lower_seq(hay@).subrange(at as int, at + needle@.len())[j as int]
                        == needle@[j as int]);
                }
            }
            return false;
        }
        j += 1;
    }
    assert(lower_seq(hay@).subrange(at as int, at + needle@.len()) =~= needle@);
    true
}

/// Case-insensitive keyword search: `needle` (given in lower case)
/// occurs in `hay` once `hay` is folded to lower case.
pub fn contains_keyword(hay: &str, needle: &str) -> (r: bool)
    ensures
        r == contains_seq(lower_seq(hay@), needle@),
{
    let hay_len = hay.unicode_len();
    let needle_len = needle.unicode_len();
    if needle_len > hay_len {
        assert(forall|i: int| !matches_at(lower_seq(hay@), needle@, i));
        return false;
    }
    if needle_len == 0 {
        assert(lower_seq(hay@).subrange(0, 0) =~= needle@);
        assert(matches_at(lower_seq(hay@), needle@, 0));
        return true;
    }
    let mut i: usize = 0;
    while i <= hay_len - needle_len
        invariant
            hay_len == hay@.len(),
            needle_len == needle@.len(),
            0 < needle_len <= hay_len,
            i <= hay_len - needle_len + 1,
            forall|k: int| 0 <= k < i ==> !matches_at(lower_seq(hay@), needle@, k),
        decreases hay_len - i,
    {
        if keyword_matches_at(hay, needle, i, hay_len, needle_len) {
            assert(contains_seq(lower_seq(hay@), needle@));
            return true;
        }
        i += 1;
    }
    assert(forall|k: int| !matches_at(lower_seq(hay@), needle@, k));
    false
}

/// The character counts as blank for trimming purposes: space,
/// horizontal tab, line feed, or carriage return.
pub open spec fn is_blank(c: char) -> bool {
    c == ' ' || c == '\t' || c == '\n' || c == '\r'
}

/// Decide whether a character is blank.
pub fn is_blank_char(c: char) -> (r: bool)
    ensures
        r == is_blank(c),
{
    c == ' ' || c == '\t' || c == '\n' || c == '\r'
}

/// The sequence without its leading blanks.
pub open spec fn trim_front(s: Seq<char>) -> Seq<char>
    decreases s.len(),
{
    if s.len() > 0 && is_blank(s[0]) {
        trim_front(s.drop_first())
    } else {
        s
    }
}

/// The sequence without its trailing blanks.
pub open spec fn trim_back(s: Seq<char>) -> Seq<char>
    decreases s.len(),
{
    if s.len() > 0 && is_blank(s.last()) {
        trim_back(s.drop_last())
    } else {
        s
    }
}

/// The sequence without leading and trailing blanks.
pub open spec fn trim_spec(s: Seq<char>) -> Seq<char> {
    trim_back(trim_front(s))
}

/// Remove leading and trailing blanks from a message.
pub fn trim_message(s: &str) -> (r: &str)
    ensures
        r@ == trim_spec(s@),
{
    let len = s.unicode_len();
    proof {
        assert(s@.subrange(0, len as int) =~= s@);
    }
    let mut a: usize = 0;
    while a < len && is_blank_char(s.get_char(a))
        invariant
            len == s@.len(),
            a <= len,
            trim_front(s@) == trim_front(s@.subrange(a as int, len as int)),
        decreases len - a,
    {
        proof {
            let rest = s@.subrange(a as int, len as int);
            assert(rest.drop_first() =~= s@.subrange(a + 1, len as int));
        }
        a += 1;
    }
    proof {
        let rest = s@.subrange(a as int, len as int);
        assert(trim_front(rest) == rest);
    }
    let mut b: usize = len;
    while b > a && is_blank_char(s.get_char(b - 1))
        invariant
            len == s@.len(),
            a <= b <= len,
            trim_front(s@) == s@.subrange(a as int, len as int),
            trim_back(s@.subrange(a as int, len as int)) == trim_back(
                s@.subrange(a as int, b as int),
            ),
        decreases b,
    {
        proof {
            let part = s@.subrange(a as int, b as int);
            assert(part.last() == s@[b - 1]);
            assert(part.drop_last() =~= s@.subrange(a as int, b - 1));
        }
        b -= 1;
    }
    proof {
        let part = s@.subrange(a as int, b as int);
        assert(trim_back(part) == part);
    }
    s.substring_char(a, b)
}

/// The decimal digit character for a value below ten.
pub open spec fn digit_char(d: nat) -> char {
    if d == 0 {
        '0'
    } else if d == 1 {
        '1'
    } else if d == 2 {
        '2'
    } else if d == 3 {
        '3'
    } else if d == 4 {
        '4'
    } else if d == 5 {
        '5'
    } else if d == 6 {
        '6'
    } else if d == 7 {
        '7'
    } else if d == 8 {
        '8'
    } else {
        '9'
    }
}

/// The decimal digit characters of a number, most significant first,
/// with no leading zeros (a single '0' for zero itself).
pub open spec fn dec_digits(n: nat) -> Seq<char>
    decreases n,
{
    if n < 10 {
        seq![digit_char(n)]
    } else {
        dec_digits(n / 10).push(digit_char(n % 10))
    }
}

/// A decimal rendering has at least one digit, and at least two from
/// ten upward.
pub proof fn lemma_dec_digits_len(n: nat)
    ensures
        dec_digits(n).len() >= 1,
        n >= 10 ==> dec_digits(n).len() >= 2,
    decreases n,
{
    if n >= 10 {
        lemma_dec_digits_len(n / 10);
    }
}

/// Distinct digits render as distinct characters.
proof fn lemma_digit_char_injective(x: nat, y: nat)
    requires
        x < 10,
        y < 10,
        digit_char(x) == digit_char(y),
    ensures
        x == y,
{
}

/// Law: the decimal rendering pins the number — two numbers with the
/// same digits are the same number.
pub proof fn lemma_dec_digits_injective(a: nat, b: nat)
    requires
        dec_digits(a) == dec_digits(b),
    ensures
        a == b,
    decreases a,
{
    lemma_dec_digits_len(a);
    lemma_dec_digits_len(b);
    if a < 10 && b < 10 {
        assert(dec_digits(a) == seq![digit_char(a)]);
        assert(dec_digits(b) == seq![digit_char(b)]);
        assert(digit_char(a) == dec_digits(a)[0] && digit_char(b) == dec_digits(b)[0]);
        lemma_digit_char_injective(a, b);
    } else if a >= 10 && b >= 10 {
        assert(dec_digits(a) == dec_digits(a / 10).push(digit_char(a % 10)));
        assert(dec_digits(b) == dec_digits(b / 10).push(digit_char(b % 10)));
        assert(digit_char(a % 10) == dec_digits(a).last());
        assert(digit_char(b % 10) == dec_digits(b).last());
        lemma_digit_char_injective(a % 10, b % 10);
        assert(dec_digits(a).drop_last() =~= dec_digits(a / 10));
        assert(dec_digits(b).drop_last() =~= dec_digits(b / 10));
        lemma_dec_digits_injective(a / 10, b / 10);
    } else {
        assert(dec_digits(a).len() != dec_digits(b).len());
    }
}

/// The one-character string for a decimal digit.
fn digit_str(d: usize) -> (r: &'static str)
    requires
        d < 10,
    ensures
        r@ == seq![digit_char(d as nat)],
{
    proof {
        reveal_strlit("0");
        reveal_strlit("1");
        reveal_strlit("2");
        reveal_strlit("3");
        reveal_strlit("4");
        reveal_strlit("5");
        reveal_strlit("6");
        reveal_strlit("7");
        reveal_strlit("8");
        reveal_strlit("9");
    }
    let r = if d == 0 {
        "0"
    } else if d == 1 {
        "1"
    } else if d == 2 {
        "2"
    } else if d == 3 {
        "3"
    } else if d == 4 {
        "4"
    } else if d == 5 {
        "5"
    } else if d == 6 {
        "6"
    } else if d == 7 {
        "7"
    } else if d == 8 {
        "8"
    } else {
        "9"
    };
    proof {
        assert(r@ =~= seq![digit_char(d as nat)]);
    }
    r
}

/// Render a number in decimal, as its `dec_digits`.
pub fn render_usize(n: usize) -> (r: String)
    ensures
        r@ == dec_digits(n as nat),
    decreases n,
{
    if n < 10 {
        let r = String::from_str(digit_str(n));
        proof {
            assert(r@ =~= dec_digits(n as nat));
        }
        r
    } else {
        let mut r = render_usize(n / 10);
        r.append(digit_str(n % 10));
        proof {
            assert(r@ =~= dec_digits(n as nat));
        }
        r
    }
}

} // verus!
