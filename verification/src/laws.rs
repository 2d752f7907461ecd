//! The laws of the transducer, proved against the spec-level pipeline.
//!
//! Each public proof function states one property of the transliteration
//! over the same spec functions the executable contracts use.

use vstd::prelude::*;

use crate::chars::{is_digit_char, is_letter_char, is_punct_char, is_word_char, is_ws_char};
use crate::definitions::{
    assoc, assoc_from, consonant_table, longest_from, longest_key, numeral_table, vowel_table,
};
use crate::tokenizer::{
    advance_of, find_rule, merge_units, phase1_from, rule_at, special_seq_table, step_of,
    tok_from, flush_spec, all_digits, PhoneticUnitType, SToken, SUnit, TokenType,
};
use crate::transliterator::{
    digits_from, hasant, render_token, render_tokens_from, render_unit, render_units_from,
    render_word, reph_glyph, transliterate_spec,
};

verus! {

/// Rendering a concatenation of token sequences renders each in turn.
pub proof fn lemma_render_tokens_concat(a: Seq<SToken>, b: Seq<SToken>)
    ensures
        render_tokens_from(a + b, 0) == render_tokens_from(a, 0) + render_tokens_from(b, 0),
    decreases a.len(),
{
    if a.len() == 0 {
        assert(a + b =~= b);
        assert(render_tokens_from(a, 0) + render_tokens_from(b, 0) =~= render_tokens_from(b, 0));
    } else {
        lemma_render_tokens_index(a + b, 1);
        lemma_render_tokens_index(a, 1);
        lemma_render_tokens_concat(a.drop_first(), b);
        assert(a.subrange(1, a.len() as int) =~= a.drop_first());
        assert((a + b).subrange(1, (a + b).len() as int) =~= a.drop_first() + b);
        assert((a + b)[0] == a[0]);
        assert(render_token(a[0]) + (render_tokens_from(a.drop_first(), 0) + render_tokens_from(
            b,
            0,
        )) =~= (render_token(a[0]) + render_tokens_from(a.drop_first(), 0)) + render_tokens_from(
            b,
            0,
        ));
    }
}

/// Rendering from index `n` renders the subsequence from `n` on.
proof fn lemma_render_tokens_index(a: Seq<SToken>, n: int)
    requires
        0 <= n <= a.len(),
    ensures
        render_tokens_from(a, n) == render_tokens_from(a.subrange(n, a.len() as int), 0),
    decreases a.len() - n,
{
    let tail = a.subrange(n, a.len() as int);
    if n == a.len() {
    } else {
        lemma_render_tokens_index(a, n + 1);
        assert(a.subrange(n + 1, a.len() as int) =~= tail.drop_first());
        assert(tail[0] == a[n]);
        lemma_render_tokens_index(tail, 1);
    }
}

/// Transliterating the empty string yields the empty string.
pub proof fn lemma_transliterate_empty()
    ensures
        transliterate_spec(Seq::<char>::empty()) == Seq::<char>::empty(),
{
    let s = Seq::<char>::empty();
    assert(tok_from(s, 0, Seq::empty(), 0) == flush_spec(Seq::empty(), 0));
    assert(render_tokens_from(flush_spec(Seq::empty(), 0), 0) =~= Seq::<char>::empty());
}

/// A pure-whitespace suffix, scanned with an empty word buffer, becomes one
/// whitespace token per character, and those tokens render back to the
/// suffix itself.
proof fn lemma_ws_suffix(s: Seq<char>, i: int, bpos: int)
    requires
        0 <= i <= s.len(),
        forall|j: int| i <= j < s.len() ==> is_ws_char(s[j]),
    ensures
        render_tokens_from(tok_from(s, i, Seq::empty(), bpos), 0) == s.subrange(
            i,
            s.len() as int,
        ),
    decreases s.len() - i,
{
    if i == s.len() {
        assert(render_tokens_from(tok_from(s, i, Seq::empty(), bpos), 0) =~= s.subrange(
            i,
            s.len() as int,
        ));
    } else {
        let c = s[i];
        assert(is_ws_char(c));
        assert(c != ',' && c != '^' && c != ':' && c != '`');
        let wtok = SToken { content: seq![c], kind: TokenType::Whitespace, pos: i };
        let rest = tok_from(s, i + 1, Seq::empty(), i + 1);
        assert(tok_from(s, i, Seq::empty(), bpos) =~= seq![wtok] + rest);
        lemma_ws_suffix(s, i + 1, i + 1);
        lemma_render_tokens_concat(seq![wtok], rest);
        assert(render_tokens_from(seq![wtok], 1) =~= Seq::<char>::empty());
        assert(render_tokens_from(seq![wtok], 0) =~= seq![c]);
        assert(seq![c] + s.subrange(i + 1, s.len() as int) =~= s.subrange(i, s.len() as int));
    }
}

/// Transliterating pure whitespace returns it unchanged.
pub proof fn lemma_transliterate_whitespace(s: Seq<char>)
    requires
        forall|j: int| 0 <= j < s.len() ==> is_ws_char(s[j]),
    ensures
        transliterate_spec(s) == s,
{
    lemma_ws_suffix(s, 0, 0);
    assert(s.subrange(0, s.len() as int) =~= s);
}

/// The concatenation of the contents of the tokens from index `n` on.
pub open spec fn contents_from(ts: Seq<SToken>, n: int) -> Seq<char>
    decreases ts.len() - n,
{
    if n < 0 || n >= ts.len() {
        Seq::empty()
    } else {
        ts[n].content + contents_from(ts, n + 1)
    }
}

/// Token contents concatenate over sequence concatenation.
proof fn lemma_contents_concat(a: Seq<SToken>, b: Seq<SToken>)
    ensures
        contents_from(a + b, 0) == contents_from(a, 0) + contents_from(b, 0),
    decreases a.len(),
{
    if a.len() == 0 {
        assert(a + b =~= b);
        assert(contents_from(a, 0) + contents_from(b, 0) =~= contents_from(b, 0));
    } else {
        lemma_contents_index(a + b, 1);
        lemma_contents_index(a, 1);
        lemma_contents_concat(a.drop_first(), b);
        assert((a + b).drop_first() =~= a.drop_first() + b);
        assert((a + b)[0] == a[0]);
        assert(a[0].content + (contents_from(a.drop_first(), 0) + contents_from(b, 0)) =~= (
        a[0].content + contents_from(a.drop_first(), 0)) + contents_from(b, 0));
    }
}

/// Contents from index `n` are the contents of the subsequence from `n` on.
proof fn lemma_contents_index(a: Seq<SToken>, n: int)
    requires
        0 <= n <= a.len(),
    ensures
        contents_from(a, n) == contents_from(a.subrange(n, a.len() as int), 0),
    decreases a.len() - n,
{
    let tail = a.subrange(n, a.len() as int);
    if n == a.len() {
    } else {
        lemma_contents_index(a, n + 1);
        assert(a.subrange(n + 1, a.len() as int) =~= tail.drop_first());
        assert(tail[0] == a[n]);
        lemma_contents_index(tail, 1);
    }
}

/// Round-trip of literal structure: the tokens of a line concatenate back
/// to the line itself, word buffer included; every character of the input
/// stands in exactly one token, in order.
pub proof fn lemma_tokens_cover_input(s: Seq<char>, i: int, buf: Seq<char>, bpos: int)
    requires
        0 <= i <= s.len(),
    ensures
        contents_from(tok_from(s, i, buf, bpos), 0) == buf + s.subrange(i, s.len() as int),
    decreases s.len() - i,
{
    let whole = buf + s.subrange(i, s.len() as int);
    if i == s.len() {
        let ts = tok_from(s, i, buf, bpos);
        if buf.len() == 0 {
            assert(contents_from(ts, 0) =~= whole);
        } else {
            assert(contents_from(ts, 1) =~= Seq::<char>::empty());
            assert(contents_from(ts, 0) =~= whole);
        }
    } else {
        let c = s[i];
        if buf.len() > 0 && c == '^' {
            lemma_tokens_cover_input(s, i + 1, buf + seq!['^'], bpos);
            assert((buf + seq!['^']) + s.subrange(i + 1, s.len() as int) =~= whole);
        } else if buf.len() > 0 && c == ':' {
            lemma_tokens_cover_input(s, i + 1, buf + seq![':'], bpos);
            assert((buf + seq![':']) + s.subrange(i + 1, s.len() as int) =~= whole);
        } else if buf.len() > 0 && c == '`' && i + 2 <= s.len() && s[i + 1] == '`' && (buf[buf.len()
            - 1] == 'T' || buf[buf.len() - 1] == 't') {
            lemma_tokens_cover_input(s, i + 2, buf + seq!['`', '`'], bpos);
            assert((buf + seq!['`', '`']) + s.subrange(i + 2, s.len() as int) =~= whole);
        } else if c == ',' && i + 2 <= s.len() && s[i + 1] == ',' {
            if buf.len() > 0 {
                lemma_tokens_cover_input(s, i + 2, buf + seq![',', ','], bpos);
                assert((buf + seq![',', ',']) + s.subrange(i + 2, s.len() as int) =~= whole);
            } else {
                let ptok = SToken { content: seq![','], kind: TokenType::Punctuation, pos: i };
                let rest = tok_from(s, i + 1, Seq::empty(), i + 1);
                lemma_tokens_cover_input(s, i + 1, Seq::empty(), i + 1);
                lemma_contents_concat(seq![ptok], rest);
                assert(tok_from(s, i, buf, bpos) == seq![ptok] + rest);
                assert(contents_from(seq![ptok], 1) =~= Seq::<char>::empty());
                assert(contents_from(seq![ptok], 0) =~= seq![',']);
                assert(seq![','] + (Seq::<char>::empty() + s.subrange(i + 1, s.len() as int))
                    =~= whole);
            }
        } else if is_ws_char(c) || is_punct_char(c) || (!is_word_char(c) && buf.len() > 0) {
            let kind = if is_ws_char(c) {
                TokenType::Whitespace
            } else if is_punct_char(c) {
                TokenType::Punctuation
            } else {
                TokenType::Symbol
            };
            let ctok = SToken { content: seq![c], kind: kind, pos: i };
            let rest = tok_from(s, i + 1, Seq::empty(), i + 1);
            assert(tok_from(s, i, buf, bpos) == flush_spec(buf, bpos) + seq![ctok] + rest);
            lemma_tokens_cover_input(s, i + 1, Seq::empty(), i + 1);
            lemma_contents_concat(flush_spec(buf, bpos) + seq![ctok], rest);
            lemma_contents_concat(flush_spec(buf, bpos), seq![ctok]);
            assert(contents_from(seq![ctok], 1) =~= Seq::<char>::empty());
            assert(contents_from(seq![ctok], 0) =~= seq![c]);
            if buf.len() > 0 {
                assert(contents_from(flush_spec(buf, bpos), 1) =~= Seq::<char>::empty());
            }
            assert(contents_from(flush_spec(buf, bpos), 0) =~= buf);
            assert((buf + seq![c]) + (Seq::<char>::empty() + s.subrange(i + 1, s.len() as int))
                =~= whole);
        } else {
            lemma_tokens_cover_input(s, i + 1, buf + seq![c], if buf.len() == 0 {
                i
            } else {
                bpos
            });
            assert((buf + seq![c]) + s.subrange(i + 1, s.len() as int) =~= whole);
        }
    }
}

/// A whitespace token renders to its own content: spacing survives the
/// transliteration verbatim, in place.
pub proof fn lemma_whitespace_token_verbatim(t: SToken)
    requires
        t.kind == TokenType::Whitespace,
    ensures
        render_token(t) == t.content,
{
}

/// Reph placement: a rendered reph-over-consonant unit always begins with
/// the reph glyph, and the host consonant's letter follows it.
pub proof fn lemma_reph_precedes_host(u: SUnit, after: bool, fin: bool, host: Seq<char>)
    requires
        u.kind == PhoneticUnitType::RephOverConsonant,
        u.text.len() >= 2,
        assoc(consonant_table(), u.text.subrange(2, u.text.len() as int)) == Some(host),
    ensures
        render_unit(u, after, fin).0 == reph_glyph() + host,
        render_unit(u, after, fin).0.subrange(0, 2) == reph_glyph(),
{
    assert(render_unit(u, after, fin).0 =~= reph_glyph() + host);
    assert((reph_glyph() + host).subrange(0, 2) =~= reph_glyph());
}

/// Fallback: an unknown unit that is not a fola attachment renders to its
/// own text unchanged, whatever stands around it.
pub proof fn lemma_unknown_passthrough(u: SUnit, after: bool, fin: bool)
    requires
        u.kind == PhoneticUnitType::Unknown,
        u.text != seq!['y'] || !after,
        u.text != seq!['w'] || !after,
    ensures
        render_unit(u, after, fin) == (u.text, false),
{
}

/// A letter or a digit: accumulates into a word buffer and triggers no
/// escape of the token segmenter.
pub open spec fn is_plain_char(c: char) -> bool {
    is_letter_char(c) || is_digit_char(c)
}

/// A run of letters and digits becomes one single token: a number when all
/// of it is digits, else a word.
proof fn lemma_plain_word(s: Seq<char>, i: int, buf: Seq<char>, bpos: int)
    requires
        0 <= i <= s.len(),
        buf.len() > 0 || i < s.len(),
        forall|j: int| i <= j < s.len() ==> is_plain_char(s[j]),
    ensures
        tok_from(s, i, buf, bpos) == seq![
            SToken {
                content: buf + s.subrange(i, s.len() as int),
                kind: if all_digits(buf + s.subrange(i, s.len() as int)) {
                    TokenType::Number
                } else {
                    TokenType::Word
                },
                pos: if buf.len() == 0 {
                    i
                } else {
                    bpos
                },
            },
        ],
    decreases s.len() - i,
{
    if i == s.len() {
        assert(buf + s.subrange(i, s.len() as int) =~= buf);
    } else {
        let c = s[i];
        assert(is_plain_char(c));
        assert(!is_ws_char(c) && !is_punct_char(c) && is_word_char(c));
        assert(c != ',' && c != '^' && c != ':' && c != '`');
        let nbuf = buf + seq![c];
        let nbpos = if buf.len() == 0 {
            i
        } else {
            bpos
        };
        lemma_plain_word(s, i + 1, nbuf, nbpos);
        assert(nbuf + s.subrange(i + 1, s.len() as int) =~= buf + s.subrange(i, s.len() as int));
    }
}

/// A line whose single token is a word renders to that word's rendering.
proof fn lemma_single_token(t: SToken)
    ensures
        render_tokens_from(seq![t], 0) == render_token(t),
{
    assert(render_tokens_from(seq![t], 1) =~= Seq::<char>::empty());
    assert(render_token(t) + Seq::<char>::empty() =~= render_token(t));
}

/// No table entry from `n` on matches: the longest-match finds nothing.
proof fn lemma_longest_none<V>(t: Seq<(Seq<char>, V)>, s: Seq<char>, i: int, n: int)
    requires
        forall|m: int| n <= m < t.len() ==> !crate::chars::key_matches_at(#[trigger] t[m].0, s, i),
    ensures
        longest_from(t, s, i, n) is None,
    decreases t.len() - n,
{
    if n < 0 || n >= t.len() {
    } else {
        lemma_longest_none(t, s, i, n + 1);
    }
}

/// A matching key agrees with the scanned text character by character.
proof fn lemma_match_chars(k: Seq<char>, s: Seq<char>, i: int)
    requires
        crate::chars::key_matches_at(k, s, i),
    ensures
        i + k.len() <= s.len(),
        forall|j: int| 0 <= j < k.len() ==> k[j] == s[i + j],
{
    assert forall|j: int| 0 <= j < k.len() implies k[j] == s[i + j] by {
        assert(s.subrange(i, i + k.len() as int)[j] == s[i + j]);
    }
}


/// What a match of special entry `m` says of the characters at `i`.
proof fn lemma_special_match_opening(s: Seq<char>, i: int, m: int)
    requires
        0 <= i,
        0 <= m < special_seq_table().len(),
        crate::chars::key_matches_at(special_seq_table()[m].0, s, i),
    ensures
        m == 0 ==> i + 1 <= s.len() && s[i] == 'o',
        m == 1 ==> i + 2 <= s.len() && s[i] == 'r' && s[i + 1] == 'r',
        m == 2 ==> i + 2 <= s.len() && s[i] == ',',
        m == 3 ==> i + 1 <= s.len() && s[i] == '^',
        m == 4 ==> i + 1 <= s.len() && s[i] == ':',
        m == 5 ==> i + 3 <= s.len() && s[i] == 'T' && s[i + 1] == '`' && s[i + 2] == '`',
        m == 6 ==> i + 3 <= s.len() && s[i] == 'k' && s[i + 1] == 'k' && s[i + 2] == 'h',
        m == 7 ==> i + 2 <= s.len() && s[i] == 'g' && s[i + 1] == 'g',
        m == 8 ==> i + 2 <= s.len() && s[i] == 'h' && s[i + 1] == 'm',
        m == 9 ==> i + 3 <= s.len() && s[i] == 'a' && s[i + 1] == 'y' && s[i + 2] == 'a',
        m == 10 ==> i + 3 <= s.len() && s[i] == 't' && s[i + 1] == '`' && s[i + 2] == '`',
{
    let k = special_seq_table()[m].0;
    lemma_match_chars(k, s, i);
    if m == 0 {
        assert(s[i] == k[0]);
    } else if m == 1 {
        assert(s[i] == k[0] && s[i + 1] == k[1]);
    } else if m == 2 {
        assert(s[i] == k[0]);
    } else if m == 3 {
        assert(s[i] == k[0]);
    } else if m == 4 {
        assert(s[i] == k[0]);
    } else if m == 5 {
        assert(s[i] == k[0] && s[i + 1] == k[1] && s[i + 2] == k[2]);
    } else if m == 6 {
        assert(s[i] == k[0] && s[i + 1] == k[1] && s[i + 2] == k[2]);
    } else if m == 7 {
        assert(s[i] == k[0] && s[i + 1] == k[1]);
    } else if m == 8 {
        assert(s[i] == k[0] && s[i + 1] == k[1]);
    } else if m == 9 {
        assert(s[i] == k[0] && s[i + 1] == k[1] && s[i + 2] == k[2]);
    } else {
        assert(s[i] == k[0] && s[i + 1] == k[1] && s[i + 2] == k[2]);
    }
}

/// Scanning at a position that opens no special sequence: the special table
/// finds nothing.  The conditions name exactly the openings of its eleven
/// entries.
proof fn lemma_special_none(s: Seq<char>, i: int)
    requires
        0 <= i < s.len(),
        s[i] != 'o',
        s[i] != ',',
        s[i] != '^',
        s[i] != ':',
        !(i + 2 <= s.len() && s[i] == 'r' && s[i + 1] == 'r'),
        !(i + 3 <= s.len() && s[i] == 'T' && s[i + 1] == '`' && s[i + 2] == '`'),
        !(i + 3 <= s.len() && s[i] == 'k' && s[i + 1] == 'k' && s[i + 2] == 'h'),
        !(i + 2 <= s.len() && s[i] == 'g' && s[i + 1] == 'g'),
        !(i + 2 <= s.len() && s[i] == 'h' && s[i + 1] == 'm'),
        !(i + 3 <= s.len() && s[i] == 'a' && s[i + 1] == 'y' && s[i + 2] == 'a'),
        !(i + 3 <= s.len() && s[i] == 't' && s[i + 1] == '`' && s[i + 2] == '`'),
    ensures
        longest_key(special_seq_table(), s, i) is None,
{
    let t = special_seq_table();
    assert forall|m: int| 0 <= m < t.len() implies !crate::chars::key_matches_at(
        #[trigger] t[m].0,
        s,
        i,
    ) by {
        if crate::chars::key_matches_at(t[m].0, s, i) {
            lemma_special_match_opening(s, i, m);
        }
    }
    lemma_longest_none(t, s, i, 0);
}

/// Scanning at a terminating vowel: the special table finds exactly the
/// `o` entry.
proof fn lemma_special_at_o(s: Seq<char>, i: int)
    requires
        0 <= i < s.len(),
        s[i] == 'o',
    ensures
        longest_key(special_seq_table(), s, i) == Some(
            (seq!['o'], PhoneticUnitType::TerminatingVowel),
        ),
{
    let t = special_seq_table();
    assert forall|m: int| 1 <= m < t.len() implies !crate::chars::key_matches_at(
        #[trigger] t[m].0,
        s,
        i,
    ) by {
        if crate::chars::key_matches_at(t[m].0, s, i) {
            lemma_special_match_opening(s, i, m);
        }
    }
    lemma_longest_none(t, s, i, 1);
    assert(s.subrange(i, i + 1) =~= seq![s[i]]);
    assert(crate::chars::key_matches_at(t[0].0, s, i));
}

/// Scanning at a reph marker: the special table finds exactly the `rr`
/// entry.
proof fn lemma_special_at_rr(s: Seq<char>, i: int)
    requires
        0 <= i,
        i + 2 <= s.len(),
        s[i] == 'r',
        s[i + 1] == 'r',
    ensures
        longest_key(special_seq_table(), s, i) == Some(
            (seq!['r', 'r'], PhoneticUnitType::SpecialForm),
        ),
{
    let t = special_seq_table();
    assert(!crate::chars::key_matches_at(t[0].0, s, i)) by {
        if crate::chars::key_matches_at(t[0].0, s, i) {
            lemma_special_match_opening(s, i, 0);
        }
    }
    assert forall|m: int| 2 <= m < t.len() implies !crate::chars::key_matches_at(
        #[trigger] t[m].0,
        s,
        i,
    ) by {
        if crate::chars::key_matches_at(t[m].0, s, i) {
            lemma_special_match_opening(s, i, m);
        }
    }
    lemma_longest_none(t, s, i, 2);
    assert(s.subrange(i, i + 2) =~= seq!['r', 'r']);
    assert(crate::chars::key_matches_at(t[1].0, s, i));
    assert(longest_from(t, s, i, 1) == Some(t[1]));
    assert(longest_from(t, s, i, 0) == Some(t[1]));
}

/// When the scanned text is itself a key of the table, the longest match
/// over the whole text finds that key, bound to its first value.
proof fn lemma_longest_self<V>(t: Seq<(Seq<char>, V)>, k: Seq<char>, n: int)
    requires
        0 <= n,
        assoc_from(t, k, n) is Some,
    ensures
        longest_from(t, k, 0, n) matches Some(p) && p.0 == k && Some(p.1) == assoc_from(t, k, n),
    decreases t.len() - n,
{
    if n >= t.len() {
    } else {
        if t[n].0 == k {
            assert(k.subrange(0, k.len() as int) =~= k);
            assert(crate::chars::key_matches_at(t[n].0, k, 0));
            match longest_from(t, k, 0, n + 1) {
                None => {},
                Some(p) => {
                    crate::tokenizer::lemma_longest_matches(t, k, 0, n + 1);
                },
            }
        } else {
            lemma_longest_self(t, k, n + 1);
            let p = longest_from(t, k, 0, n + 1)->Some_0;
            if crate::chars::key_matches_at(t[n].0, k, 0) {
                if t[n].0.len() >= p.0.len() {
                    assert(t[n].0.len() == k.len());
                    assert(t[n].0 =~= k.subrange(0, t[n].0.len() as int));
                    assert(k.subrange(0, k.len() as int) =~= k);
                    assert(false);
                }
            }
        }
    }
}

/// A key that scans cleanly: non-empty, all letters or digits, opening no
/// special sequence and not the nasal escape.
pub open spec fn scans_clean(k: Seq<char>) -> bool {
    &&& k.len() >= 1
    &&& is_letter_char(k[0])
    &&& forall|j: int| 0 <= j < k.len() ==> is_plain_char(#[trigger] k[j])
    &&& k[0] != 'o'
    &&& !(k.len() >= 2 && k[0] == 'n' && k[1] == 'g')
    &&& !(k.len() >= 2 && k[0] == 'r' && k[1] == 'r')
    &&& !(k.len() >= 3 && k[0] == 'k' && k[1] == 'k' && k[2] == 'h')
    &&& !(k.len() >= 2 && k[0] == 'g' && k[1] == 'g')
    &&& !(k.len() >= 2 && k[0] == 'h' && k[1] == 'm')
    &&& !(k.len() >= 3 && k[0] == 'a' && k[1] == 'y' && k[2] == 'a')
}

/// Every consonant key scans cleanly.
proof fn lemma_consonant_keys_clean()
    ensures
        forall|i: int|
            0 <= i < consonant_table().len() ==> scans_clean(#[trigger] consonant_table()[i].0),
{
    assert forall|i: int|
        0 <= i < consonant_table().len() implies scans_clean(
        #[trigger] consonant_table()[i].0,
    ) by {
        let k = consonant_table()[i].0;
        assert(scans_clean(k)) by {
            assert(consonant_table().len() == 40);
        }
    }
}

/// Table exactness for consonants: transliterating a consonant key by
/// itself yields exactly its Bengali letter.
pub proof fn table_key_law_consonant(k: Seq<char>, v: Seq<char>)
    requires
        assoc(consonant_table(), k) == Some(v),
    ensures
        transliterate_spec(k) == v,
{
    lemma_assoc_member(consonant_table(), k, 0);
    let idx = choose|idx: int|
        0 <= idx < consonant_table().len() && consonant_table()[idx].0 == k;
    lemma_consonant_keys_clean();
    assert(scans_clean(k));
    lemma_scans_clean_word(k);
    let u = SUnit { text: k, kind: PhoneticUnitType::Consonant, pos: 0 };
    assert(step_of(k, 0) == u) by {
        lemma_special_none(k, 0);
        lemma_longest_self(consonant_table(), k, 0);
    }
    assert(phase1_from(k, 0) =~= seq![u] + phase1_from(k, k.len() as int));
    assert(phase1_from(k, 0) =~= seq![u]);
    assert(merge_units(seq![u]) == seq![u]);
    assert(render_units_from(seq![u], 1, true) =~= Seq::<char>::empty());
    assert(render_unit(u, false, false).0 == v);
    assert(render_units_from(seq![u], 0, false) =~= v);
    assert(render_word(k) == v);
}

/// Membership behind a successful lookup.
proof fn lemma_assoc_member<V>(t: Seq<(Seq<char>, V)>, k: Seq<char>, n: int)
    requires
        0 <= n,
        assoc_from(t, k, n) is Some,
    ensures
        exists|i: int| n <= i < t.len() && (#[trigger] t[i].0) == k,
    decreases t.len() - n,
{
    if n >= t.len() {
    } else if t[n].0 == k {
        assert(t[n].0 == k);
    } else {
        lemma_assoc_member(t, k, n + 1);
    }
}

/// A cleanly scanning key makes one word token, which renders through the
/// word pipeline.
proof fn lemma_scans_clean_word(k: Seq<char>)
    requires
        scans_clean(k),
    ensures
        transliterate_spec(k) == render_word(k),
{
    lemma_plain_word(k, 0, Seq::empty(), 0);
    let content = Seq::<char>::empty() + k.subrange(0, k.len() as int);
    assert(content =~= k);
    assert(!is_digit_char(k[0]));
    assert(!all_digits(k));
    let wt = SToken { content: k, kind: TokenType::Word, pos: 0 };
    assert(tok_from(k, 0, Seq::empty(), 0) == seq![wt]);
    lemma_single_token(wt);
}

/// A non-empty all-letter word transliterates through the word pipeline.
proof fn lemma_word_of_letters(s: Seq<char>)
    requires
        s.len() >= 1,
        forall|j: int| 0 <= j < s.len() ==> is_letter_char(#[trigger] s[j]),
    ensures
        transliterate_spec(s) == render_word(s),
{
    lemma_plain_word(s, 0, Seq::empty(), 0);
    let content = Seq::<char>::empty() + s.subrange(0, s.len() as int);
    assert(content =~= s);
    assert(!is_digit_char(s[0]));
    assert(!all_digits(s));
    let wt = SToken { content: s, kind: TokenType::Word, pos: 0 };
    assert(tok_from(s, 0, Seq::empty(), 0) == seq![wt]);
    lemma_single_token(wt);
}

/// The first character of any consonant key.
pub open spec fn is_consonant_initial(c: char) -> bool {
    ||| c == 'k' ||| c == 'g' ||| c == 'N' ||| c == 'c' ||| c == 'j' ||| c == 'J' ||| c == 'T'
    ||| c == 'D' ||| c == 't' ||| c == 'd' ||| c == 'n' ||| c == 'p' ||| c == 'f' ||| c == 'b'
    ||| c == 'v' ||| c == 'm' ||| c == 'z' ||| c == 'r' ||| c == 'l' ||| c == 's' ||| c == 'S'
    ||| c == 'h' ||| c == 'R' ||| c == 'y' ||| c == 'Y'
}

/// Every consonant key opens with a consonant initial.
proof fn lemma_consonant_initials()
    ensures
        forall|m: int|
            0 <= m < consonant_table().len() ==> (#[trigger] consonant_table()[m].0).len() >= 1
                && is_consonant_initial(consonant_table()[m].0[0]),
{
    assert forall|m: int|
        0 <= m < consonant_table().len() implies (#[trigger] consonant_table()[m].0).len() >= 1
        && is_consonant_initial(consonant_table()[m].0[0]) by {
        assert(consonant_table().len() == 40);
    }
}

/// At a position that opens with no consonant initial, the consonant table
/// finds nothing.
proof fn lemma_consonant_none(s: Seq<char>, i: int)
    requires
        0 <= i < s.len(),
        !is_consonant_initial(s[i]),
    ensures
        longest_key(consonant_table(), s, i) is None,
{
    let t = consonant_table();
    lemma_consonant_initials();
    assert forall|m: int| 0 <= m < t.len() implies !crate::chars::key_matches_at(
        #[trigger] t[m].0,
        s,
        i,
    ) by {
        if crate::chars::key_matches_at(t[m].0, s, i) {
            lemma_match_chars(t[m].0, s, i);
            assert(s[i] == t[m].0[0]);
        }
    }
    lemma_longest_none(t, s, i, 0);
}

/// Exactly one table entry matches: the longest-match finds it.
proof fn lemma_longest_single<V>(t: Seq<(Seq<char>, V)>, s: Seq<char>, i: int, n: int, m0: int)
    requires
        0 <= n <= m0 < t.len(),
        crate::chars::key_matches_at(t[m0].0, s, i),
        forall|m: int|
            n <= m < t.len() && m != m0 ==> !crate::chars::key_matches_at(#[trigger] t[m].0, s, i),
    ensures
        longest_from(t, s, i, n) == Some(t[m0]),
    decreases t.len() - n,
{
    if n == m0 {
        if m0 + 1 <= t.len() {
            lemma_longest_none(t, s, i, m0 + 1);
        }
    } else {
        lemma_longest_single(t, s, i, n + 1, m0);
    }
}

/// Every vowel key that is not `o` or `rri` scans as one vowel unit; the
/// structural facts of the vowel table.
proof fn lemma_vowel_keys_wf()
    ensures
        forall|m: int|
            0 <= m < vowel_table().len() ==> {
                let k = (#[trigger] vowel_table()[m].0);
                k.len() >= 1 && (forall|j: int| 0 <= j < k.len() ==> is_letter_char(#[trigger] k[j]))
            },
        forall|m: int|
            0 <= m < vowel_table().len() && (#[trigger] vowel_table()[m].0) != seq!['o'] && vowel_table()[m].0
                != seq!['r', 'r', 'i'] ==> {
                let k = vowel_table()[m].0;
                &&& k[0] != 'o'
                &&& !is_consonant_initial(k[0])
                &&& !(k.len() >= 2 && k[0] == 'n' && k[1] == 'g')
                &&& !(k.len() >= 2 && k[0] == 'r' && k[1] == 'r')
                &&& !(k.len() >= 3 && k[0] == 'k' && k[1] == 'k' && k[2] == 'h')
                &&& !(k.len() >= 2 && k[0] == 'g' && k[1] == 'g')
                &&& !(k.len() >= 2 && k[0] == 'h' && k[1] == 'm')
                &&& !(k.len() >= 3 && k[0] == 'a' && k[1] == 'y' && k[2] == 'a')
            },
{
    assert(vowel_table().len() == 12);
    assert forall|m: int|
        0 <= m < vowel_table().len() implies {
        let k = (#[trigger] vowel_table()[m].0);
        k.len() >= 1 && (forall|j: int| 0 <= j < k.len() ==> is_letter_char(#[trigger] k[j]))
    } by {
        assert(vowel_table().len() == 12);
    }
    assert forall|m: int|
        0 <= m < vowel_table().len() && (#[trigger] vowel_table()[m].0) != seq!['o']
        && vowel_table()[m].0 != seq!['r', 'r', 'i'] implies {
        let k = vowel_table()[m].0;
        &&& k[0] != 'o'
        &&& !is_consonant_initial(k[0])
        &&& !(k.len() >= 2 && k[0] == 'n' && k[1] == 'g')
        &&& !(k.len() >= 2 && k[0] == 'r' && k[1] == 'r')
        &&& !(k.len() >= 3 && k[0] == 'k' && k[1] == 'k' && k[2] == 'h')
        &&& !(k.len() >= 2 && k[0] == 'g' && k[1] == 'g')
        &&& !(k.len() >= 2 && k[0] == 'h' && k[1] == 'm')
        &&& !(k.len() >= 3 && k[0] == 'a' && k[1] == 'y' && k[2] == 'a')
    } by {
        assert(vowel_table().len() == 12);
        if vowel_table()[m].0 != seq!['o'] && vowel_table()[m].0 != seq!['r', 'r', 'i'] {
            assert(vowel_table()[0].0 =~= seq!['o']);
            assert(vowel_table()[11].0 =~= seq!['r', 'r', 'i']);
        }
    }
}

/// Table exactness for vowels: transliterating a vowel key by itself
/// yields exactly its independent form.
pub proof fn table_key_law_vowel(k: Seq<char>, e: (Seq<char>, Option<Seq<char>>))
    requires
        assoc(vowel_table(), k) == Some(e),
    ensures
        transliterate_spec(k) == e.0,
{
    lemma_assoc_member(vowel_table(), k, 0);
    lemma_vowel_keys_wf();
    let idx = choose|idx: int| 0 <= idx < vowel_table().len() && (#[trigger] vowel_table()[idx].0) == k;
    assert(k.len() >= 1);
    assert(forall|j: int| 0 <= j < k.len() ==> is_letter_char(#[trigger] k[j]));
    lemma_word_of_letters(k);
    if k == seq!['o'] {
        lemma_special_at_o(k, 0);
        let u = SUnit { text: seq!['o'], kind: PhoneticUnitType::TerminatingVowel, pos: 0 };
        assert(step_of(k, 0) == u);
        assert(phase1_from(k, 0) =~= seq![u] + phase1_from(k, 1));
        assert(phase1_from(k, 0) =~= seq![u]);
        assert(merge_units(seq![u]) == seq![u]);
        assert(u.text =~= k);
        assert(render_unit(u, false, false).0 == e.0);
        assert(render_units_from(seq![u], 1, false) =~= Seq::<char>::empty());
        assert(render_units_from(seq![u], 0, false) =~= e.0);
    } else if k == seq!['r', 'r', 'i'] {
        lemma_special_at_rr(k, 0);
        let u1 = SUnit { text: seq!['r', 'r'], kind: PhoneticUnitType::SpecialForm, pos: 0 };
        assert(step_of(k, 0) == u1);
        assert(advance_of(u1) == 2);
        // the second step scans the vowel `i`
        assert(k[2] == 'i');
        lemma_special_none(k, 2);
        lemma_consonant_none(k, 2);
        assert(crate::chars::key_matches_at(vowel_table()[3].0, k, 2)) by {
            assert(vowel_table()[3].0 =~= seq!['i']);
            assert(k.subrange(2, 3) =~= seq!['i']);
        }
        assert forall|m: int|
            0 <= m < vowel_table().len() && m != 3 implies !crate::chars::key_matches_at(
            #[trigger] vowel_table()[m].0,
            k,
            2,
        ) by {
            if crate::chars::key_matches_at(vowel_table()[m].0, k, 2) {
                lemma_match_chars(vowel_table()[m].0, k, 2);
                assert(vowel_table()[m].0.len() == 1);
                assert(vowel_table()[m].0[0] == 'i');
                assert(vowel_table()[m].0 =~= seq!['i']);
                assert(vowel_table().len() == 12);
            }
        }
        lemma_longest_single(vowel_table(), k, 2, 0, 3);
        let u2 = SUnit { text: seq!['i'], kind: PhoneticUnitType::Vowel, pos: 2 };
        assert(step_of(k, 2) == u2) by {
            assert(vowel_table()[3].0 =~= seq!['i']);
        }
        let us = phase1_from(k, 0);
        assert(advance_of(u2) == 1);
        assert(phase1_from(k, 3) =~= Seq::<SUnit>::empty());
        assert(phase1_from(k, 2) =~= seq![u2] + phase1_from(k, 3));
        assert(phase1_from(k, 0) =~= seq![u1] + phase1_from(k, 2));
        assert(us =~= seq![u1, u2]);
        // the reph marker and the vowel `i` fuse into the vocalic-r vowel
        let nu = SUnit { text: seq!['r', 'r', 'i'], kind: PhoneticUnitType::Vowel, pos: 0 };
        assert(rule_at(us, 0) == Some(crate::tokenizer::splice2(us, 0, nu)));
        assert(crate::tokenizer::splice2(us, 0, nu) =~= seq![nu]);
        assert(find_rule(us, 0) == Some(seq![nu]));
        assert(merge_units(seq![nu]) == seq![nu]);
        assert(merge_units(us) == seq![nu]);
        assert(nu.text == k);
        assert(render_unit(nu, false, false).0 == e.0);
        assert(render_units_from(seq![nu], 1, false) =~= Seq::<char>::empty());
        assert(render_units_from(seq![nu], 0, false) =~= e.0);
    } else {
        assert(vowel_table()[idx].0 == k);
        lemma_special_none(k, 0);
        lemma_consonant_none(k, 0);
        lemma_longest_self(vowel_table(), k, 0);
        let u = SUnit { text: k, kind: PhoneticUnitType::Vowel, pos: 0 };
        assert(step_of(k, 0) == u);
        assert(phase1_from(k, 0) =~= seq![u] + phase1_from(k, k.len() as int));
        assert(phase1_from(k, 0) =~= seq![u]);
        assert(merge_units(seq![u]) == seq![u]);
        assert(render_unit(u, false, false).0 == e.0);
        assert(render_units_from(seq![u], 1, false) =~= Seq::<char>::empty());
        assert(render_units_from(seq![u], 0, false) =~= e.0);
    }
}

/// Table exactness for numerals: transliterating a digit yields exactly
/// its Bengali numeral.
pub proof fn table_key_law_numeral(k: Seq<char>, v: Seq<char>)
    requires
        assoc(numeral_table(), k) == Some(v),
    ensures
        transliterate_spec(k) == v,
{
    lemma_assoc_member(numeral_table(), k, 0);
    let idx = choose|idx: int|
        0 <= idx < numeral_table().len() && (#[trigger] numeral_table()[idx].0) == k;
    assert(numeral_table().len() == 10);
    assert(k.len() == 1 && is_digit_char(k[0]));
    lemma_plain_word(k, 0, Seq::empty(), 0);
    let content = Seq::<char>::empty() + k.subrange(0, k.len() as int);
    assert(content =~= k);
    assert(all_digits(k));
    let nt = SToken { content: k, kind: TokenType::Number, pos: 0 };
    assert(tok_from(k, 0, Seq::empty(), 0) == seq![nt]);
    lemma_single_token(nt);
    assert(seq![k[0]] =~= k);
    assert(digits_from(k, 1) =~= Seq::<char>::empty());
    assert(digits_from(k, 0) =~= v);
}

/// Where the first hasant marker stands in a text.
proof fn lemma_find_dd_first(t: Seq<char>, from: int, j0: int)
    requires
        0 <= from <= j0,
        j0 + 2 <= t.len(),
        t[j0] == ',' && t[j0 + 1] == ',',
        forall|j: int| from <= j < j0 ==> t[j] != ',',
    ensures
        crate::transliterator::find_dd(t, from) == Some(j0),
    decreases j0 - from,
{
    if from == j0 {
    } else {
        lemma_find_dd_first(t, from + 1, j0);
    }
}

/// A text without commas has no hasant marker.
proof fn lemma_find_dd_none(t: Seq<char>, from: int)
    requires
        0 <= from,
        forall|j: int| from <= j < t.len() ==> t[j] != ',',
    ensures
        crate::transliterator::find_dd(t, from) is None,
    decreases t.len() - from,
{
    if from + 2 > t.len() {
    } else {
        lemma_find_dd_none(t, from + 1);
    }
}

/// The conjunct law: two consonant keys with nothing between them cluster,
/// and render as the first letter, the hasant, the second letter.  The
/// premises name exactly the pairs the scanner keeps apart: the two keys
/// must be what longest-match scanning finds (a pair like `k` and `h`,
/// whose concatenation is itself a key, merges instead), the concatenation
/// must open no special sequence and not the nasal escape, and neither key
/// may be one of the two letters that stand for pholas inside a cluster.
#[verifier::rlimit(60)]
pub proof fn conjunct_law(
    c1: Seq<char>,
    c2: Seq<char>,
    b1: Seq<char>,
    b2: Seq<char>,
)
    requires
        assoc(consonant_table(), c1) == Some(b1),
        assoc(consonant_table(), c2) == Some(b2),
        c1 != seq!['y'],
        c1 != seq!['w'],
        c2 != seq!['y'],
        c2 != seq!['w'],
        longest_key(consonant_table(), c1 + c2, 0) matches Some(p) && p.0 == c1,
        longest_key(consonant_table(), c1 + c2, c1.len() as int) matches Some(q) && q.0 == c2,
        longest_key(special_seq_table(), c1 + c2, 0) is None,
        longest_key(special_seq_table(), c1 + c2, c1.len() as int) is None,
        !((c1 + c2).len() >= 2 && (c1 + c2)[0] == 'n' && (c1 + c2)[1] == 'g'),
        !((c1 + c2).len() >= c1.len() + 2 && (c1 + c2)[c1.len() as int] == 'n' && (c1 + c2)[c1.len() + 1int] == 'g'),
    ensures
        transliterate_spec(c1 + c2) == b1 + hasant() + b2,
{
    let s = c1 + c2;
    lemma_consonant_keys_clean();
    lemma_assoc_member(consonant_table(), c1, 0);
    lemma_assoc_member(consonant_table(), c2, 0);
    assert(scans_clean(c1) && scans_clean(c2));
    assert forall|j: int| 0 <= j < s.len() implies is_letter_char(#[trigger] s[j]) by {
        if j < c1.len() {
            assert(is_plain_char(c1[j]) && !is_digit_char(c1[j]));
        } else {
            assert(is_plain_char(c2[j - c1.len()]) && !is_digit_char(c2[j - c1.len()]));
        }
    }
    lemma_word_of_letters(s);
    let u1 = SUnit { text: c1, kind: PhoneticUnitType::Consonant, pos: 0 };
    let u2 = SUnit { text: c2, kind: PhoneticUnitType::Consonant, pos: c1.len() as int };
    assert(step_of(s, 0) == u1);
    assert(step_of(s, c1.len() as int) == u2);
    assert(phase1_from(s, 0) =~= seq![u1] + phase1_from(s, c1.len() as int));
    assert(phase1_from(s, c1.len() as int) =~= seq![u2] + phase1_from(s, s.len() as int));
    let us = phase1_from(s, 0);
    assert(us =~= seq![u1, u2]);
    let nu = SUnit {
        text: c1 + crate::tokenizer::dd_marker() + c2,
        kind: PhoneticUnitType::Conjunct,
        pos: 0,
    };
    assert(rule_at(us, 0) == Some(crate::tokenizer::splice2(us, 0, nu)));
    assert(crate::tokenizer::splice2(us, 0, nu) =~= seq![nu]);
    assert(find_rule(us, 0) == Some(seq![nu]));
    assert(merge_units(seq![nu]) == seq![nu]);
    assert(merge_units(us) == seq![nu]);
    // the conjunct text splits back into the two keys
    let text = nu.text;
    assert(text.len() == c1.len() + 2 + c2.len());
    assert(text[c1.len() as int] == ',' && text[c1.len() + 1int] == ',');
    assert forall|j: int| 0 <= j < c1.len() implies text[j] != ',' by {
        assert(text[j] == c1[j]);
        assert(is_letter_char(c1[j]));
    }
    lemma_find_dd_first(text, 0, c1.len() as int);
    assert forall|j: int| 0 <= j < c2.len() implies c2[j] != ',' by {
        assert(is_letter_char(c2[j]));
    }
    lemma_find_dd_none(c2, 0);
    assert(text.subrange(0, c1.len() as int) =~= c1);
    assert(text.subrange(c1.len() + 2int, text.len() as int) =~= c2);
    let parts = crate::transliterator::split_dd(text);
    assert(crate::transliterator::split_dd(c2) =~= seq![c2]);
    assert(parts =~= seq![c1, c2]);
    assert(c2.len() >= 1);
    assert(crate::transliterator::conj_members_from(parts, 1) == Some(b2));
    assert(crate::transliterator::conj_members_from(parts, 0) == Some(b1 + hasant() + b2));
    assert(crate::transliterator::conj_out(text) == Some(b1 + hasant() + b2));
    assert(render_unit(nu, false, false).0 == b1 + hasant() + b2);
    assert(render_units_from(seq![nu], 1, true) =~= Seq::<char>::empty());
    assert(render_units_from(seq![nu], 0, false) =~= b1 + hasant() + b2);
}

/// The compound-stopper law: a lowercase `o` between two consonant keys
/// suppresses the conjunct; both consonants render with their silent
/// inherent vowel.  The premises mirror the conjunct law's, shifted past
/// the stopper, and ask that the `o` is the first vowel position of the
/// first syllable's text.
#[verifier::rlimit(60)]
pub proof fn compound_stopper_law(
    c1: Seq<char>,
    c2: Seq<char>,
    b1: Seq<char>,
    b2: Seq<char>,
)
    requires
        assoc(consonant_table(), c1) == Some(b1),
        assoc(consonant_table(), c2) == Some(b2),
        longest_key(consonant_table(), c1 + seq!['o'] + c2, 0) matches Some(p) && p.0 == c1,
        longest_key(consonant_table(), c1 + seq!['o'] + c2, c1.len() + 1int) matches Some(q) && q.0
            == c2,
        longest_key(special_seq_table(), c1 + seq!['o'] + c2, 0) is None,
        longest_key(special_seq_table(), c1 + seq!['o'] + c2, c1.len() + 1int) is None,
        !((c1 + seq!['o'] + c2).len() >= 2 && (c1 + seq!['o'] + c2)[0] == 'n' && (c1 + seq!['o']
            + c2)[1] == 'g'),
        !((c1 + seq!['o'] + c2).len() >= c1.len() + 3 && (c1 + seq!['o'] + c2)[c1.len() + 1int] == 'n'
            && (c1 + seq!['o'] + c2)[c1.len() + 2int] == 'g'),
        crate::transliterator::first_vowel_pos(c1 + seq!['o'], 0) == Some(c1.len() as int),
    ensures
        transliterate_spec(c1 + seq!['o'] + c2) == b1 + b2,
{
    let s = c1 + seq!['o'] + c2;
    lemma_consonant_keys_clean();
    lemma_assoc_member(consonant_table(), c1, 0);
    lemma_assoc_member(consonant_table(), c2, 0);
    assert(scans_clean(c1) && scans_clean(c2));
    assert forall|j: int| 0 <= j < s.len() implies is_letter_char(#[trigger] s[j]) by {
        if j < c1.len() {
            assert(s[j] == c1[j]);
            assert(is_plain_char(c1[j]) && !is_digit_char(c1[j]));
        } else if j == c1.len() {
            assert(s[j] == 'o');
        } else {
            assert(s[j] == c2[j - c1.len() - 1]);
            assert(is_plain_char(c2[j - c1.len() - 1]) && !is_digit_char(c2[j - c1.len() - 1]));
        }
    }
    lemma_word_of_letters(s);
    let u1 = SUnit { text: c1, kind: PhoneticUnitType::Consonant, pos: 0 };
    let uo = SUnit {
        text: seq!['o'],
        kind: PhoneticUnitType::TerminatingVowel,
        pos: c1.len() as int,
    };
    let u2 = SUnit { text: c2, kind: PhoneticUnitType::Consonant, pos: c1.len() + 1int };
    assert(step_of(s, 0) == u1);
    assert(s[c1.len() as int] == 'o');
    lemma_special_at_o(s, c1.len() as int);
    assert(step_of(s, c1.len() as int) == uo);
    assert(step_of(s, c1.len() + 1int) == u2);
    assert(phase1_from(s, 0) =~= seq![u1] + phase1_from(s, c1.len() as int));
    assert(phase1_from(s, c1.len() as int) =~= seq![uo] + phase1_from(s, c1.len() + 1int));
    assert(phase1_from(s, c1.len() + 1int) =~= seq![u2] + phase1_from(s, s.len() as int));
    let us = phase1_from(s, 0);
    assert(us =~= seq![u1, uo, u2]);
    let cwt = SUnit {
        text: c1 + seq!['o'],
        kind: PhoneticUnitType::ConsonantWithTerminator,
        pos: 0,
    };
    assert(rule_at(us, 0) == Some(crate::tokenizer::splice2(us, 0, cwt)));
    let us2 = crate::tokenizer::splice2(us, 0, cwt);
    assert(us2 =~= seq![cwt, u2]);
    assert(find_rule(us, 0) == Some(us2));
    assert(rule_at(us2, 0) is None);
    assert(find_rule(us2, 1) is None);
    assert(find_rule(us2, 0) is None);
    assert(merge_units(us2) == us2);
    assert(merge_units(us) == us2);
    // the first unit renders its consonant and draws nothing for the `o`
    let text = cwt.text;
    assert(text.subrange(0, c1.len() as int) =~= c1);
    assert(text.subrange(c1.len() as int, text.len() as int) =~= seq!['o']);
    assert(assoc(vowel_table(), seq!['o']) == Some((seq!['\u{985}'], None::<Seq<char>>))) by {
        assert(vowel_table()[0].0 == seq!['o']);
    }
    assert(crate::transliterator::cwv_out(text) == Some(b1 + Seq::<char>::empty()));
    assert(b1 + Seq::<char>::empty() =~= b1);
    assert(render_unit(cwt, false, false).0 == b1);
    assert(render_unit(cwt, false, false).1 == false);
    assert(render_unit(u2, false, true).0 == b2);
    assert(render_units_from(us2, 2, true) =~= Seq::<char>::empty());
    assert(render_units_from(us2, 1, false) =~= b2);
    assert(render_units_from(us2, 0, false) =~= b1 + b2);
}

/// The fallback law: one allowed letter that no table knows comes through
/// the whole transliteration unchanged.
pub proof fn unknown_letter_law(c: char)
    requires
        is_letter_char(c),
        longest_key(special_seq_table(), seq![c], 0) is None,
        longest_key(consonant_table(), seq![c], 0) is None,
        longest_key(vowel_table(), seq![c], 0) is None,
    ensures
        transliterate_spec(seq![c]) == seq![c],
{
    let s = seq![c];
    assert forall|j: int| 0 <= j < s.len() implies is_letter_char(#[trigger] s[j]) by {
        assert(s[j] == c);
    }
    lemma_word_of_letters(s);
    let u = SUnit { text: seq![c], kind: PhoneticUnitType::Unknown, pos: 0 };
    assert(step_of(s, 0) == u);
    assert(phase1_from(s, 0) =~= seq![u] + phase1_from(s, 1));
    assert(phase1_from(s, 0) =~= seq![u]);
    assert(merge_units(seq![u]) == seq![u]);
    assert(render_unit(u, false, false) == (seq![c], false));
    assert(render_units_from(seq![u], 1, false) =~= Seq::<char>::empty());
    assert(render_units_from(seq![u], 0, false) =~= seq![c]);
}

} // verus!
