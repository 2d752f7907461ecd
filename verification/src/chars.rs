//! Character classes and small string utilities shared by the pipeline.
//!
//! The transducer works internally on `Vec<char>` so that every step can be
//! specified over `Seq<char>`; the two conversions between `String` and
//! `Vec<char>` are trusted.

use vstd::prelude::*;

verus! {

/// Whitespace characters recognised by the token segmenter.
pub open spec fn is_ws_char(c: char) -> bool {
    c == ' ' || c == '\t' || c == '\n' || c == '\r' || c == '\u{0b}' || c == '\u{0c}'
}

/// ASCII decimal digits.
pub open spec fn is_digit_char(c: char) -> bool {
    0x30 <= c as u32 && c as u32 <= 0x39
}

/// ASCII punctuation, as std defines it: `!../`, `:..@`, `[..`` ` ``, `{..~`.
pub open spec fn is_punct_char(c: char) -> bool {
    ||| (0x21 <= c as u32 && c as u32 <= 0x2f)
    ||| (0x3a <= c as u32 && c as u32 <= 0x40)
    ||| (0x5b <= c as u32 && c as u32 <= 0x60)
    ||| (0x7b <= c as u32 && c as u32 <= 0x7e)
}

/// ASCII letters.
pub open spec fn is_letter_char(c: char) -> bool {
    ||| (0x41 <= c as u32 && c as u32 <= 0x5a)
    ||| (0x61 <= c as u32 && c as u32 <= 0x7a)
}

/// Characters that may extend a word buffer: ASCII letters and digits, and
/// every character beyond ASCII (opaque input is carried through the word
/// machinery so that it can fall out unchanged).
pub open spec fn is_word_char(c: char) -> bool {
    is_letter_char(c) || is_digit_char(c) || c as u32 > 0x7f
}

pub fn ws_char(c: char) -> (r: bool)
    ensures
        r == is_ws_char(c),
{
    c == ' ' || c == '\t' || c == '\n' || c == '\r' || c == '\u{0b}' || c == '\u{0c}'
}

pub fn digit_char(c: char) -> (r: bool)
    ensures
        r == is_digit_char(c),
{
    let u = c as u32;
    0x30 <= u && u <= 0x39
}

pub fn punct_char(c: char) -> (r: bool)
    ensures
        r == is_punct_char(c),
{
    let u = c as u32;
    (0x21 <= u && u <= 0x2f) || (0x3a <= u && u <= 0x40) || (0x5b <= u && u <= 0x60) || (0x7b
        <= u && u <= 0x7e)
}

pub fn letter_char(c: char) -> (r: bool)
    ensures
        r == is_letter_char(c),
{
    let u = c as u32;
    (0x41 <= u && u <= 0x5a) || (0x61 <= u && u <= 0x7a)
}

pub fn word_char(c: char) -> (r: bool)
    ensures
        r == is_word_char(c),
{
    letter_char(c) || digit_char(c) || c as u32 > 0x7f
}

/// Relies on std's `str::chars`: yields exactly the characters of the string,
/// in order.
#[verifier::external_body]
pub fn chars_of(s: &str) -> (v: Vec<char>)
    ensures
        v@ == s@,
{
    s.chars().collect()
}

/// Relies on std's `FromIterator<char> for String`: builds the string holding
/// exactly the given characters, in order.
#[verifier::external_body]
pub fn string_of(v: &Vec<char>) -> (s: String)
    ensures
        s@ == v@,
{
    v.iter().collect()
}

/// True when `k` occurs in `s` starting at position `i`.
pub open spec fn key_matches_at(k: Seq<char>, s: Seq<char>, i: int) -> bool {
    0 <= i && i + k.len() <= s.len() && s.subrange(i, i + k.len()) == k
}

pub fn match_at(key: &Vec<char>, w: &Vec<char>, i: usize) -> (r: bool)
    requires
        i <= w.len(),
    ensures
        r == key_matches_at(key@, w@, i as int),
{
    if key.len() > w.len() - i {
        proof {
            assert(i + key@.len() > w@.len());
        }
        return false;
    }
    let mut j: usize = 0;
    while j < key.len()
        invariant
            i + key.len() <= w.len(),
            j <= key.len(),
            forall|t: int| 0 <= t < j ==> w@[i + t] == key@[t],
        decreases key.len() - j,
    {
        if w[i + j] != key[j] {
            proof {
                assert(w@.subrange(i as int, i + key@.len())[j as int] != key@[j as int]);
            }
            return false;
        }
        j += 1;
    }
    proof {
        assert(w@.subrange(i as int, i + key@.len()) =~= key@);
    }
    true
}

pub fn eq_chars(a: &Vec<char>, b: &Vec<char>) -> (r: bool)
    ensures
        r == (a@ == b@),
{
    if a.len() != b.len() {
        return false;
    }
    let mut j: usize = 0;
    while j < a.len()
        invariant
            a.len() == b.len(),
            j <= a.len(),
            forall|t: int| 0 <= t < j ==> a@[t] == b@[t],
        decreases a.len() - j,
    {
        if a[j] != b[j] {
            proof {
                assert(a@[j as int] != b@[j as int]);
            }
            return false;
        }
        j += 1;
    }
    proof {
        assert(a@ =~= b@);
    }
    true
}

/// Copy of `w[i..j]` as a fresh vector.
pub fn subvec(w: &Vec<char>, i: usize, j: usize) -> (v: Vec<char>)
    requires
        i <= j <= w.len(),
    ensures
        v@ == w@.subrange(i as int, j as int),
{
    let mut v: Vec<char> = Vec::new();
    let mut t: usize = i;
    while t < j
        invariant
            i <= t <= j <= w.len(),
            v@ == w@.subrange(i as int, t as int),
        decreases j - t,
    {
        v.push(w[t]);
        proof {
            assert(v@ =~= w@.subrange(i as int, t + 1));
        }
        t += 1;
    }
    v
}

/// Append all of `src` to `dst`.
pub fn push_all(dst: &mut Vec<char>, src: &Vec<char>)
    ensures
        final(dst)@ == old(dst)@ + src@,
{
    let mut t: usize = 0;
    while t < src.len()
        invariant
            t <= src.len(),
            dst@ == old(dst)@ + src@.subrange(0, t as int),
        decreases src.len() - t,
    {
        dst.push(src[t]);
        proof {
            assert(old(dst)@ + src@.subrange(0, t + 1) =~= (old(dst)@ + src@.subrange(
                0,
                t as int,
            )).push(src@[t as int]));
        }
        t += 1;
    }
    proof {
        assert(src@.subrange(0, src@.len() as int) =~= src@);
    }
}

/// Character-wise equality of two strings.
pub fn str_eq(a: &str, b: &str) -> (r: bool)
    ensures
        r == (a@ == b@),
{
    let va = chars_of(a);
    let vb = chars_of(b);
    eq_chars(&va, &vb)
}

} // verus!
