//! Rendering of phonetic units into Bengali text, and the whole-line
//! transliteration built on it.
//!
//! Rendering walks the unit sequence once, left to right, carrying one
//! boolean: whether the unit before ended as a bare consonant.  A vowel
//! after a bare consonant takes its dependent form; the terminating vowel
//! draws nothing, except that a consonant-plus-terminator closing a word of
//! several units draws the o-kar; conjunct texts are split on the `,,`
//! marker and their members joined with the hasant; reph is a prefix;
//! whatever no table resolves falls back to its own Roman text.

use vstd::prelude::*;

use crate::chars::{chars_of, push_all, string_of};
use crate::definitions::{
    assoc, assoc_from, consonant_table, longest_at, longest_key, numeral_table, pair_tab_ok,
    special_rule_table, symbol_table, vowel_table,
};
use crate::sanitizer::{allows_all, cleaned, SanitizeResult, Sanitizer};
use crate::tokenizer::{
    merge_exec, scan_units, segment_word, ub_views, PhoneticUnit, PhoneticUnitType, SToken, SUnit,
    Token, TokenType, Tokenizer, UnitBuf, tok_from, token_views, unit_views,
};

verus! {

/// The hasant (virama) glyph.
pub open spec fn hasant() -> Seq<char> {
    seq!['\u{9cd}']
}

/// The reph glyph: the consonant `r` with a hasant, drawn before its host.
pub open spec fn reph_glyph() -> Seq<char> {
    seq!['\u{9b0}', '\u{9cd}']
}

/// The chandrabindu glyph.
pub open spec fn chandrabindu() -> Seq<char> {
    seq!['\u{981}']
}

/// The visarga glyph.
pub open spec fn visarga() -> Seq<char> {
    seq!['\u{983}']
}

/// The anusvara glyph.
pub open spec fn anusvara() -> Seq<char> {
    seq!['\u{982}']
}

/// The khanda-ta glyph.
pub open spec fn khanda_ta() -> Seq<char> {
    seq!['\u{9ce}']
}

/// The o-kar glyph, drawn for a terminating vowel that closes a word.
pub open spec fn okar() -> Seq<char> {
    seq!['\u{9cb}']
}

/// The letter written for a `y` standing inside a cluster: the jo-phola.
pub open spec fn ya_letter() -> Seq<char> {
    seq!['\u{9af}']
}

/// The letter written for a `w` standing inside a cluster: the bo-phola.
pub open spec fn ba_letter() -> Seq<char> {
    seq!['\u{9ac}']
}

/// The form a vowel takes right after a consonant: its dependent form; the
/// inherent vowel `o` draws nothing; a vowel without a dependent form falls
/// back to its independent form.
pub open spec fn vowel_after_consonant(key: Seq<char>, e: (Seq<char>, Option<Seq<char>>)) -> Seq<
    char,
> {
    match e.1 {
        Some(d) => d,
        None => if key == seq!['o'] {
            Seq::empty()
        } else {
            e.0
        },
    }
}

/// The first position at or after `from` where some vowel key matches.
pub open spec fn first_vowel_pos(t: Seq<char>, from: int) -> Option<int>
    decreases t.len() - from,
{
    if from < 0 || from >= t.len() {
        None
    } else if longest_key(vowel_table(), t, from) is Some {
        Some(from)
    } else {
        first_vowel_pos(t, from + 1)
    }
}

/// The first position at or after `from` whose single character is a vowel
/// key by itself.
pub open spec fn first_single_vowel_pos(t: Seq<char>, from: int) -> Option<int>
    decreases t.len() - from,
{
    if from < 0 || from >= t.len() {
        None
    } else if assoc(vowel_table(), seq![t[from]]) is Some {
        Some(from)
    } else {
        first_single_vowel_pos(t, from + 1)
    }
}

/// The first position at or after `from` where the `,,` marker stands.
pub open spec fn find_dd(t: Seq<char>, from: int) -> Option<int>
    decreases t.len() - from,
{
    if from < 0 || from + 2 > t.len() {
        None
    } else if t[from] == ',' && t[from + 1] == ',' {
        Some(from)
    } else {
        find_dd(t, from + 1)
    }
}

/// The text split on each `,,` marker.
pub open spec fn split_dd(t: Seq<char>) -> Seq<Seq<char>>
    decreases t.len(),
{
    match find_dd(t, 0) {
        None => seq![t],
        Some(j) => {
            proof {
                lemma_find_dd_bounds(t, 0);
            }
            seq![t.subrange(0, j)] + split_dd(t.subrange(j + 2, t.len() as int))
        },
    }
}

/// A found marker lies inside the text.
pub proof fn lemma_find_dd_bounds(t: Seq<char>, from: int)
    ensures
        find_dd(t, from) matches Some(j) ==> from <= j && j + 2 <= t.len(),
    decreases t.len() - from,
{
    if from < 0 || from + 2 > t.len() {
    } else if t[from] == ',' && t[from + 1] == ',' {
    } else {
        lemma_find_dd_bounds(t, from + 1);
    }
}

/// The Bengali letter a cluster member stands for: `y` is the jo-phola, `w`
/// the bo-phola, anything else its consonant.
pub open spec fn member_render(part: Seq<char>) -> Option<Seq<char>> {
    if part == seq!['y'] {
        Some(ya_letter())
    } else if part == seq!['w'] {
        Some(ba_letter())
    } else {
        assoc(consonant_table(), part)
    }
}

/// The members from index `n` on, joined with hasants; nothing when a
/// member resolves to no letter.
pub open spec fn conj_members_from(parts: Seq<Seq<char>>, n: int) -> Option<Seq<char>>
    decreases parts.len() - n,
{
    if n < 0 || n >= parts.len() {
        Some(Seq::empty())
    } else if n == parts.len() - 1 {
        member_render(parts[n])
    } else {
        match (member_render(parts[n]), conj_members_from(parts, n + 1)) {
            (Some(a), Some(b)) => Some(a + hasant() + b),
            _ => None,
        }
    }
}

/// Rendering of a conjunct text: the members joined with hasants; anything
/// irregular — fewer than two parts, or a part no table resolves — yields
/// nothing, and the unit falls back to its Roman text.
pub open spec fn conj_out(t: Seq<char>) -> Option<Seq<char>> {
    let parts = split_dd(t);
    if parts.len() < 2 {
        None
    } else {
        conj_members_from(parts, 0)
    }
}

/// Rendering of a consonant-plus-vowel text: split at the first vowel
/// position, the consonant's letter, then the vowel after a consonant; with
/// no vowel position the whole text is a consonant.
pub open spec fn cwv_out(t: Seq<char>) -> Option<Seq<char>> {
    match first_vowel_pos(t, 0) {
        Some(p) => {
            let c = t.subrange(0, p);
            let v = t.subrange(p, t.len() as int);
            match assoc(consonant_table(), c) {
                Some(cb) => Some(
                    cb + match assoc(vowel_table(), v) {
                        Some(e) => vowel_after_consonant(v, e),
                        None => v,
                    },
                ),
                None => None,
            }
        },
        None => assoc(consonant_table(), t),
    }
}

/// Rendering of a consonant-plus-terminator text that closes a word of
/// several units: as `cwv_out`, except that the terminating vowel `o`
/// draws the o-kar instead of nothing.
pub open spec fn cwt_final_out(t: Seq<char>) -> Option<Seq<char>> {
    match first_vowel_pos(t, 0) {
        Some(p) => {
            let c = t.subrange(0, p);
            let v = t.subrange(p, t.len() as int);
            match assoc(consonant_table(), c) {
                Some(cb) => if v == seq!['o'] {
                    Some(cb + okar())
                } else {
                    Some(
                        cb + match assoc(vowel_table(), v) {
                            Some(e) => vowel_after_consonant(v, e),
                            None => v,
                        },
                    )
                },
                None => None,
            }
        },
        None => assoc(consonant_table(), t),
    }
}

/// Rendering of a conjunct-plus-vowel text: the last part splits at its
/// first vowel position; the members join with hasants and the vowel
/// attaches to the last member.
pub open spec fn conj_wv_out(t: Seq<char>) -> Option<Seq<char>> {
    let parts = split_dd(t);
    if parts.len() < 2 {
        None
    } else {
        let last = parts[parts.len() - 1];
        match first_vowel_pos(last, 0) {
            Some(p) => {
                let lastc = last.subrange(0, p);
                let v = last.subrange(p, last.len() as int);
                match conj_members_from(parts.update(parts.len() - 1, lastc), 0) {
                    Some(m) => match assoc(vowel_table(), v) {
                        Some(e) => Some(m + vowel_after_consonant(v, e)),
                        None => None,
                    },
                    None => None,
                }
            },
            None => None,
        }
    }
}

/// The characters from index `n` on, every digit replaced by its Bengali
/// numeral and other characters kept.
pub open spec fn digits_from(t: Seq<char>, n: int) -> Seq<char>
    decreases t.len() - n,
{
    if n < 0 || n >= t.len() {
        Seq::empty()
    } else {
        (match assoc(numeral_table(), seq![t[n]]) {
            Some(d) => d,
            None => seq![t[n]],
        }) + digits_from(t, n + 1)
    }
}

/// Every digit replaced by its Bengali numeral; other characters stay.
pub open spec fn digits_out(t: Seq<char>) -> Seq<char> {
    digits_from(t, 0)
}

/// The special-rule keys that end in a bare consonant cluster.
pub open spec fn is_cluster_rule(t: Seq<char>) -> bool {
    t == seq!['k', 'k', 'h'] || t == seq!['g', 'g'] || t == seq!['h', 'm']
}

/// What one unit renders to, and whether it leaves a bare consonant open
/// for a following vowel or fola.  `fin` says that the unit closes a word
/// of several units: there, and only there, a consonant-plus-terminator
/// draws the o-kar.  Whatever no table resolves falls back to the unit's
/// own text.
pub open spec fn render_unit(u: SUnit, after: bool, fin: bool) -> (Seq<char>, bool) {
    match u.kind {
        PhoneticUnitType::Consonant => match assoc(consonant_table(), u.text) {
            Some(b) => (b, true),
            None => (u.text, false),
        },
        PhoneticUnitType::Vowel | PhoneticUnitType::TerminatingVowel => match assoc(
            vowel_table(),
            u.text,
        ) {
            Some(e) => (
                if after {
                    vowel_after_consonant(u.text, e)
                } else {
                    e.0
                },
                false,
            ),
            None => (u.text, false),
        },
        PhoneticUnitType::ConsonantWithVowel => match cwv_out(u.text) {
            Some(o) => (o, false),
            None => (u.text, false),
        },
        PhoneticUnitType::ConsonantWithTerminator => match (if fin {
            cwt_final_out(u.text)
        } else {
            cwv_out(u.text)
        }) {
            Some(o) => (o, false),
            None => (u.text, false),
        },
        PhoneticUnitType::ConsonantWithHasant => if u.text == seq![',', ','] {
            (hasant(), after)
        } else {
            (u.text, after)
        },
        PhoneticUnitType::Conjunct => match conj_out(u.text) {
            Some(m) => (m, true),
            None => (u.text, false),
        },
        PhoneticUnitType::ConjunctWithVowel | PhoneticUnitType::ConjunctWithTerminator => match
            conj_wv_out(u.text) {
            Some(o) => (o, false),
            None => (u.text, false),
        },
        PhoneticUnitType::RephOverConsonant => if u.text.len() < 2 {
            (u.text, false)
        } else {
            match assoc(consonant_table(), u.text.subrange(2, u.text.len() as int)) {
                Some(b) => (reph_glyph() + b, true),
                None => (u.text, false),
            }
        },
        PhoneticUnitType::RephOverConsonantWithVowel
            | PhoneticUnitType::RephOverConsonantWithTerminator => if u.text.len() < 2 {
            (u.text, false)
        } else {
            match first_single_vowel_pos(u.text, 2) {
                Some(j) => {
                    let c = u.text.subrange(2, j);
                    let v = u.text.subrange(j, u.text.len() as int);
                    match assoc(consonant_table(), c) {
                        Some(cb) => match assoc(vowel_table(), v) {
                            Some(e) => (reph_glyph() + cb + vowel_after_consonant(v, e), false),
                            None => (u.text, false),
                        },
                        None => (u.text, false),
                    }
                },
                None => match assoc(consonant_table(), u.text.subrange(2, u.text.len() as int)) {
                    Some(cb) => (reph_glyph() + cb, false),
                    None => (u.text, false),
                },
            }
        },
        PhoneticUnitType::SpecialForm => if u.text == seq!['r', 'r'] {
            (reph_glyph(), false)
        } else if u.text == seq!['^'] {
            (chandrabindu(), false)
        } else if u.text == seq![':'] {
            (visarga(), false)
        } else if u.text == seq!['T', '`', '`'] {
            (khanda_ta(), false)
        } else if u.text == seq!['t', '`', '`'] {
            (khanda_ta(), false)
        } else if u.text == seq!['n', 'g'] {
            (anusvara(), false)
        } else {
            match assoc(special_rule_table(), u.text) {
                Some(b) => (b, is_cluster_rule(u.text)),
                None => (u.text, false),
            }
        },
        PhoneticUnitType::Numeral => (digits_out(u.text), false),
        PhoneticUnitType::Symbol => match assoc(symbol_table(), u.text) {
            Some(b) => (b, false),
            None => (u.text, false),
        },
        PhoneticUnitType::Unknown => if u.text == seq!['y'] && after {
            (hasant() + ya_letter(), true)
        } else if u.text == seq!['w'] && after {
            (hasant() + ba_letter(), true)
        } else {
            (u.text, false)
        },
        PhoneticUnitType::ChandrabinduWithConsonant => if u.text.len() < 1 {
            (u.text, false)
        } else {
            let base = u.text.subrange(0, u.text.len() - 1);
            if find_dd(base, 0) is Some {
                match conj_out(base) {
                    Some(m) => (m + chandrabindu(), false),
                    None => (u.text, false),
                }
            } else {
                match assoc(consonant_table(), base) {
                    Some(b) => (b + chandrabindu(), false),
                    None => (u.text, false),
                }
            }
        },
        PhoneticUnitType::ChandrabinduWithVowel => if u.text.len() < 1 {
            (u.text, false)
        } else {
            let base = u.text.subrange(0, u.text.len() - 1);
            match assoc(vowel_table(), base) {
                Some(e) => (
                    (if after {
                        vowel_after_consonant(base, e)
                    } else {
                        e.0
                    }) + chandrabindu(),
                    false,
                ),
                None => (u.text, false),
            }
        },
        PhoneticUnitType::ChandrabinduWithConsonantAndVowel => if u.text.len() < 1 {
            (u.text, false)
        } else {
            let base = u.text.subrange(0, u.text.len() - 1);
            let o = if find_dd(base, 0) is Some {
                conj_wv_out(base)
            } else {
                cwv_out(base)
            };
            match o {
                Some(m) => (m + chandrabindu(), false),
                None => (u.text, false),
            }
        },
    }
}

/// What the units from index `n` on render to, starting in state `after`.
/// The last unit of a sequence of two or more is rendered as word-final.
pub open spec fn render_units_from(us: Seq<SUnit>, n: int, after: bool) -> Seq<char>
    decreases us.len() - n,
{
    if n < 0 || n >= us.len() {
        Seq::empty()
    } else {
        let p = render_unit(us[n], after, n == us.len() - 1 && us.len() >= 2);
        p.0 + render_units_from(us, n + 1, p.1)
    }
}

/// What one word renders to: segment it, then render the units.
pub open spec fn render_word(w: Seq<char>) -> Seq<char> {
    render_units_from(segment_word(w), 0, false)
}

/// What one token renders to: a word through the phonetic pipeline,
/// whitespace unchanged, punctuation and symbols through the symbol table,
/// a number digit by digit.
pub open spec fn render_token(t: SToken) -> Seq<char> {
    match t.kind {
        TokenType::Word => render_word(t.content),
        TokenType::Whitespace => t.content,
        TokenType::Punctuation | TokenType::Symbol => match assoc(symbol_table(), t.content) {
            Some(b) => b,
            None => t.content,
        },
        TokenType::Number => digits_out(t.content),
        _ => t.content,
    }
}

/// What the tokens from index `n` on render to, concatenated.
pub open spec fn render_tokens_from(ts: Seq<SToken>, n: int) -> Seq<char>
    decreases ts.len() - n,
{
    if n < 0 || n >= ts.len() {
        Seq::empty()
    } else {
        render_token(ts[n]) + render_tokens_from(ts, n + 1)
    }
}

/// The whole-line rendering: the text is tokenized and each token rendered.
pub open spec fn render_line(s: Seq<char>) -> Seq<char> {
    render_tokens_from(tok_from(s, 0, Seq::empty(), 0), 0)
}

/// The whole-line transliteration.  It is total over any string: a
/// character no table knows passes through unchanged at the unit level, and
/// the spans around it are still rendered.  Validation is the sanitizer's
/// separate concern.
pub open spec fn transliterate_spec(s: Seq<char>) -> Seq<char> {
    render_line(s)
}

/// The lenient transliteration: refused characters are dropped first, then
/// the rest is transliterated.
pub open spec fn transliterate_lenient_spec(san: Sanitizer, s: Seq<char>) -> Seq<char> {
    render_line(cleaned(san, s))
}

/// The lookup tables the renderer draws on.
pub struct RenderTables {
    /// Consonant keys and letters.
    pub cons: Vec<(Vec<char>, Vec<char>)>,
    /// Vowel keys with independent and dependent forms.
    pub vows: Vec<(Vec<char>, (Vec<char>, Option<Vec<char>>))>,
    /// Special-rule keys and forms.
    pub sprs: Vec<(Vec<char>, Vec<char>)>,
    /// Symbol substitutions.
    pub syms: Vec<(Vec<char>, Vec<char>)>,
    /// Digit substitutions.
    pub nums: Vec<(Vec<char>, Vec<char>)>,
}

/// The bundle holds exactly the spec tables.
pub open spec fn rt_ok(t: &RenderTables) -> bool {
    &&& pair_tab_ok(t.cons@, consonant_table())
    &&& crate::definitions::vowel_tab_ok(t.vows@, vowel_table())
    &&& pair_tab_ok(t.sprs@, special_rule_table())
    &&& pair_tab_ok(t.syms@, symbol_table())
    &&& pair_tab_ok(t.nums@, numeral_table())
}

pub(crate) fn render_tables() -> (r: RenderTables)
    ensures
        rt_ok(&r),
{
    RenderTables {
        cons: crate::definitions::consonant_chars(),
        vows: crate::definitions::vowel_chars(),
        sprs: crate::definitions::special_rule_chars(),
        syms: crate::definitions::symbol_chars(),
        nums: crate::definitions::numeral_chars(),
    }
}

/// Executable first-match lookup over the vowel table.
fn vowel_assoc(
    vows: &Vec<(Vec<char>, (Vec<char>, Option<Vec<char>>))>,
    k: &Vec<char>,
) -> (r: Option<(Vec<char>, Option<Vec<char>>)>)
    requires
        crate::definitions::vowel_tab_ok(vows@, vowel_table()),
    ensures
        match r {
            None => assoc(vowel_table(), k@) is None,
            Some(e) => assoc(vowel_table(), k@) == Some(crate::definitions::vowel_entry_view(e)),
        },
{
    let mut n: usize = 0;
    while n < vows.len()
        invariant
            crate::definitions::vowel_tab_ok(vows@, vowel_table()),
            n <= vows.len(),
            assoc(vowel_table(), k@) == assoc_from(vowel_table(), k@, n as int),
        decreases vows.len() - n,
    {
        if crate::chars::eq_chars(&vows[n].0, k) {
            let ind = vows[n].1.0.clone();
            let dep: Option<Vec<char>> = match &vows[n].1.1 {
                Some(d) => Some(d.clone()),
                None => None,
            };
            return Some((ind, dep));
        }
        n += 1;
    }
    None
}

/// Executable twin of `vowel_after_consonant`.
fn vowel_after_exec(k: &Vec<char>, e: &(Vec<char>, Option<Vec<char>>)) -> (r: Vec<char>)
    ensures
        r@ == vowel_after_consonant(k@, crate::definitions::vowel_entry_view(*e)),
{
    match &e.1 {
        Some(d) => d.clone(),
        None => {
            if crate::tokenizer::is_ch1(k, 'o') {
                Vec::new()
            } else {
                e.0.clone()
            }
        },
    }
}

/// Executable twin of `first_vowel_pos`.
fn first_vowel_pos_exec(
    t: &Vec<char>,
    from: usize,
    vows: &Vec<(Vec<char>, (Vec<char>, Option<Vec<char>>))>,
) -> (r: Option<usize>)
    requires
        crate::definitions::vowel_tab_ok(vows@, vowel_table()),
        from <= t.len(),
    ensures
        match r {
            None => first_vowel_pos(t@, from as int) is None,
            Some(j) => from <= j < t.len() && first_vowel_pos(t@, from as int) == Some(j as int),
        },
{
    let mut j: usize = from;
    while j < t.len()
        invariant
            crate::definitions::vowel_tab_ok(vows@, vowel_table()),
            from <= j <= t.len(),
            first_vowel_pos(t@, from as int) == first_vowel_pos(t@, j as int),
        decreases t.len() - j,
    {
        if longest_at::<(Vec<char>, Option<Vec<char>>), (Seq<char>, Option<Seq<char>>)>(
            vows,
            Ghost(vowel_table()),
            t,
            j,
        ).is_some() {
            return Some(j);
        }
        j += 1;
    }
    None
}

/// Executable twin of `first_single_vowel_pos`.
fn first_single_vowel_pos_exec(
    t: &Vec<char>,
    from: usize,
    vows: &Vec<(Vec<char>, (Vec<char>, Option<Vec<char>>))>,
) -> (r: Option<usize>)
    requires
        crate::definitions::vowel_tab_ok(vows@, vowel_table()),
        from <= t.len(),
    ensures
        match r {
            None => first_single_vowel_pos(t@, from as int) is None,
            Some(j) => from <= j < t.len() && first_single_vowel_pos(t@, from as int) == Some(
                j as int,
            ),
        },
{
    let mut j: usize = from;
    while j < t.len()
        invariant
            crate::definitions::vowel_tab_ok(vows@, vowel_table()),
            from <= j <= t.len(),
            first_single_vowel_pos(t@, from as int) == first_single_vowel_pos(t@, j as int),
        decreases t.len() - j,
    {
        let one: Vec<char> = vec![t[j]];
        proof {
            assert(one@ =~= seq![t@[j as int]]);
        }
        if vowel_assoc(vows, &one).is_some() {
            return Some(j);
        }
        j += 1;
    }
    None
}

/// Executable twin of `find_dd` from position zero.
fn find_dd_exec(t: &Vec<char>) -> (r: Option<usize>)
    ensures
        match r {
            None => find_dd(t@, 0) is None,
            Some(j) => j + 2 <= t.len() && find_dd(t@, 0) == Some(j as int),
        },
{
    if t.len() < 2 {
        return None;
    }
    let mut j: usize = 0;
    while j <= t.len() - 2
        invariant
            t.len() >= 2,
            j <= t.len(),
            find_dd(t@, 0) == find_dd(t@, j as int),
        decreases t.len() - j,
    {
        if t[j] == ',' && t[j + 1] == ',' {
            return Some(j);
        }
        j += 1;
    }
    None
}

/// The views of a vector of character vectors, index by index.
pub open spec fn vv_views(s: Seq<Vec<char>>) -> Seq<Seq<char>> {
    Seq::new(s.len(), |i: int| s[i]@)
}

/// Executable twin of `split_dd`.
fn split_dd_exec(t: &Vec<char>) -> (r: Vec<Vec<char>>)
    ensures
        vv_views(r@) == split_dd(t@),
    decreases t.len(),
{
    match find_dd_exec(t) {
        None => {
            let r: Vec<Vec<char>> = vec![t.clone()];
            proof {
                assert(vv_views(r@) =~= split_dd(t@));
            }
            r
        },
        Some(j) => {
            let head = crate::chars::subvec(t, 0, j);
            let rest = crate::chars::subvec(t, j + 2, t.len());
            let mut r = split_dd_exec(&rest);
            r.insert(0, head);
            proof {
                assert(vv_views(r@) =~= seq![t@.subrange(0, j as int)] + split_dd(
                    t@.subrange(j + 2, t@.len() as int),
                ));
            }
            r
        },
    }
}

/// Executable twin of `member_render`.
fn member_render_exec(part: &Vec<char>, cons: &Vec<(Vec<char>, Vec<char>)>) -> (r: Option<
    Vec<char>,
>)
    requires
        pair_tab_ok(cons@, consonant_table()),
    ensures
        match r {
            None => member_render(part@) is None,
            Some(m) => member_render(part@) == Some(m@),
        },
{
    if crate::tokenizer::is_ch1(part, 'y') {
        let m: Vec<char> = vec!['\u{9af}'];
        proof {
            assert(m@ =~= ya_letter());
        }
        Some(m)
    } else if crate::tokenizer::is_ch1(part, 'w') {
        let m: Vec<char> = vec!['\u{9ac}'];
        proof {
            assert(m@ =~= ba_letter());
        }
        Some(m)
    } else {
        crate::definitions::assoc_chars(cons, Ghost(consonant_table()), part)
    }
}

/// Executable twin of `conj_members_from`.
fn conj_members_exec(
    parts: &Vec<Vec<char>>,
    n: usize,
    cons: &Vec<(Vec<char>, Vec<char>)>,
) -> (r: Option<Vec<char>>)
    requires
        pair_tab_ok(cons@, consonant_table()),
        n <= parts.len(),
    ensures
        match r {
            None => conj_members_from(vv_views(parts@), n as int) is None,
            Some(m) => conj_members_from(vv_views(parts@), n as int) == Some(m@),
        },
    decreases parts.len() - n,
{
    if n == parts.len() {
        let m: Vec<char> = Vec::new();
        proof {
            assert(m@ =~= Seq::<char>::empty());
        }
        return Some(m);
    }
    if n == parts.len() - 1 {
        return member_render_exec(&parts[n], cons);
    }
    let a = member_render_exec(&parts[n], cons);
    let b = conj_members_exec(parts, n + 1, cons);
    match (a, b) {
        (Some(a), Some(b)) => {
            let mut m = a;
            let h: Vec<char> = vec!['\u{9cd}'];
            proof {
                assert(h@ =~= hasant());
            }
            push_all(&mut m, &h);
            push_all(&mut m, &b);
            Some(m)
        },
        _ => None,
    }
}

/// Executable twin of `conj_out`.
fn conj_out_exec(t: &Vec<char>, cons: &Vec<(Vec<char>, Vec<char>)>) -> (r: Option<Vec<char>>)
    requires
        pair_tab_ok(cons@, consonant_table()),
    ensures
        match r {
            None => conj_out(t@) is None,
            Some(m) => conj_out(t@) == Some(m@),
        },
{
    let parts = split_dd_exec(t);
    if parts.len() < 2 {
        return None;
    }
    conj_members_exec(&parts, 0, cons)
}

/// Executable twin of `cwv_out`.
fn cwv_out_exec(
    t: &Vec<char>,
    cons: &Vec<(Vec<char>, Vec<char>)>,
    vows: &Vec<(Vec<char>, (Vec<char>, Option<Vec<char>>))>,
) -> (r: Option<Vec<char>>)
    requires
        pair_tab_ok(cons@, consonant_table()),
        crate::definitions::vowel_tab_ok(vows@, vowel_table()),
    ensures
        match r {
            None => cwv_out(t@) is None,
            Some(m) => cwv_out(t@) == Some(m@),
        },
{
    match first_vowel_pos_exec(t, 0, vows) {
        Some(p) => {
            let c = crate::chars::subvec(t, 0, p);
            let v = crate::chars::subvec(t, p, t.len());
            match crate::definitions::assoc_chars(cons, Ghost(consonant_table()), &c) {
                Some(cb) => {
                    let mut m = cb;
                    match vowel_assoc(vows, &v) {
                        Some(e) => {
                            let tail = vowel_after_exec(&v, &e);
                            push_all(&mut m, &tail);
                        },
                        None => {
                            push_all(&mut m, &v);
                        },
                    }
                    Some(m)
                },
                None => None,
            }
        },
        None => crate::definitions::assoc_chars(cons, Ghost(consonant_table()), t),
    }
}

/// Executable twin of `conj_wv_out`.
fn conj_wv_out_exec(
    t: &Vec<char>,
    cons: &Vec<(Vec<char>, Vec<char>)>,
    vows: &Vec<(Vec<char>, (Vec<char>, Option<Vec<char>>))>,
) -> (r: Option<Vec<char>>)
    requires
        pair_tab_ok(cons@, consonant_table()),
        crate::definitions::vowel_tab_ok(vows@, vowel_table()),
    ensures
        match r {
            None => conj_wv_out(t@) is None,
            Some(m) => conj_wv_out(t@) == Some(m@),
        },
{
    let mut parts = split_dd_exec(t);
    if parts.len() < 2 {
        return None;
    }
    let li = parts.len() - 1;
    let last = parts[li].clone();
    match first_vowel_pos_exec(&last, 0, vows) {
        Some(p) => {
            let lastc = crate::chars::subvec(&last, 0, p);
            let v = crate::chars::subvec(&last, p, last.len());
            let ghost pv = vv_views(parts@);
            parts.set(li, lastc);
            proof {
                assert(vv_views(parts@) =~= pv.update(pv.len() - 1, last@.subrange(0, p as int)));
            }
            match conj_members_exec(&parts, 0, cons) {
                Some(m) => match vowel_assoc(vows, &v) {
                    Some(e) => {
                        let mut m = m;
                        let tail = vowel_after_exec(&v, &e);
                        push_all(&mut m, &tail);
                        Some(m)
                    },
                    None => None,
                },
                None => None,
            }
        },
        None => None,
    }
}

/// Executable twin of `digits_from` from position zero.
pub(crate) fn render_digits(t: &Vec<char>, nums: &Vec<(Vec<char>, Vec<char>)>) -> (r: Vec<char>)
    requires
        pair_tab_ok(nums@, numeral_table()),
    ensures
        r@ == digits_out(t@),
{
    let mut out: Vec<char> = Vec::new();
    let mut n: usize = 0;
    while n < t.len()
        invariant
            pair_tab_ok(nums@, numeral_table()),
            n <= t.len(),
            digits_out(t@) == out@ + digits_from(t@, n as int),
        decreases t.len() - n,
    {
        let ghost pre = out@;
        let one: Vec<char> = vec![t[n]];
        proof {
            assert(one@ =~= seq![t@[n as int]]);
        }
        match crate::definitions::assoc_chars(nums, Ghost(numeral_table()), &one) {
            Some(d) => {
                push_all(&mut out, &d);
                proof {
                    let step = assoc(numeral_table(), seq![t@[n as int]])->Some_0;
                    assert(pre + (step + digits_from(t@, n + 1)) =~= (pre + step) + digits_from(
                        t@,
                        n + 1,
                    ));
                }
            },
            None => {
                out.push(t[n]);
                proof {
                    assert(pre + (seq![t@[n as int]] + digits_from(t@, n + 1)) =~= pre.push(
                        t@[n as int],
                    ) + digits_from(t@, n + 1));
                }
            },
        }
        n += 1;
    }
    proof {
        assert(out@ + digits_from(t@, n as int) =~= out@);
    }
    out
}

/// Executable twin of `cwt_final_out`.
fn cwt_final_out_exec(
    t: &Vec<char>,
    cons: &Vec<(Vec<char>, Vec<char>)>,
    vows: &Vec<(Vec<char>, (Vec<char>, Option<Vec<char>>))>,
) -> (r: Option<Vec<char>>)
    requires
        pair_tab_ok(cons@, consonant_table()),
        crate::definitions::vowel_tab_ok(vows@, vowel_table()),
    ensures
        match r {
            None => cwt_final_out(t@) is None,
            Some(m) => cwt_final_out(t@) == Some(m@),
        },
{
    match first_vowel_pos_exec(t, 0, vows) {
        Some(p) => {
            let c = crate::chars::subvec(t, 0, p);
            let v = crate::chars::subvec(t, p, t.len());
            match crate::definitions::assoc_chars(cons, Ghost(consonant_table()), &c) {
                Some(cb) => {
                    let mut m = cb;
                    if crate::tokenizer::is_ch1(&v, 'o') {
                        let k: Vec<char> = vec!['\u{9cb}'];
                        proof {
                            assert(k@ =~= okar());
                        }
                        push_all(&mut m, &k);
                    } else {
                        match vowel_assoc(vows, &v) {
                            Some(e) => {
                                let tail = vowel_after_exec(&v, &e);
                                push_all(&mut m, &tail);
                            },
                            None => {
                                push_all(&mut m, &v);
                            },
                        }
                    }
                    Some(m)
                },
                None => None,
            }
        },
        None => crate::definitions::assoc_chars(cons, Ghost(consonant_table()), t),
    }
}

/// Executable twin of `render_unit`.
pub(crate) fn render_unit_exec(u: &UnitBuf, after: bool, fin: bool, rt: &RenderTables) -> (r: (
    Vec<char>,
    bool,
))
    requires
        rt_ok(rt),
    ensures
        r.0@ == render_unit(u@, after, fin).0,
        r.1 == render_unit(u@, after, fin).1,
{
    match u.kind {
        PhoneticUnitType::Consonant => {
            match crate::definitions::assoc_chars(&rt.cons, Ghost(consonant_table()), &u.text) {
                Some(b) => (b, true),
                None => (u.text.clone(), false),
            }
        },
        PhoneticUnitType::Vowel | PhoneticUnitType::TerminatingVowel => {
            match vowel_assoc(&rt.vows, &u.text) {
                Some(e) => {
                    if after {
                        (vowel_after_exec(&u.text, &e), false)
                    } else {
                        (e.0, false)
                    }
                },
                None => (u.text.clone(), false),
            }
        },
        PhoneticUnitType::ConsonantWithVowel => {
            match cwv_out_exec(&u.text, &rt.cons, &rt.vows) {
                Some(o) => (o, false),
                None => (u.text.clone(), false),
            }
        },
        PhoneticUnitType::ConsonantWithTerminator => {
            let o = if fin {
                cwt_final_out_exec(&u.text, &rt.cons, &rt.vows)
            } else {
                cwv_out_exec(&u.text, &rt.cons, &rt.vows)
            };
            match o {
                Some(o) => (o, false),
                None => (u.text.clone(), false),
            }
        },
        PhoneticUnitType::ConsonantWithHasant => {
            let dd: Vec<char> = vec![',', ','];
            proof {
                assert(dd@ =~= seq![',', ',']);
            }
            if crate::chars::eq_chars(&u.text, &dd) {
                let h: Vec<char> = vec!['\u{9cd}'];
                proof {
                    assert(h@ =~= hasant());
                }
                (h, after)
            } else {
                (u.text.clone(), after)
            }
        },
        PhoneticUnitType::Conjunct => {
            match conj_out_exec(&u.text, &rt.cons) {
                Some(m) => (m, true),
                None => (u.text.clone(), false),
            }
        },
        PhoneticUnitType::ConjunctWithVowel | PhoneticUnitType::ConjunctWithTerminator => {
            match conj_wv_out_exec(&u.text, &rt.cons, &rt.vows) {
                Some(o) => (o, false),
                None => (u.text.clone(), false),
            }
        },
        PhoneticUnitType::RephOverConsonant => {
            if u.text.len() < 2 {
                (u.text.clone(), false)
            } else {
                let c = crate::chars::subvec(&u.text, 2, u.text.len());
                match crate::definitions::assoc_chars(&rt.cons, Ghost(consonant_table()), &c) {
                    Some(b) => {
                        let mut m: Vec<char> = vec!['\u{9b0}', '\u{9cd}'];
                        proof {
                            assert(m@ =~= reph_glyph());
                        }
                        push_all(&mut m, &b);
                        (m, true)
                    },
                    None => (u.text.clone(), false),
                }
            }
        },
        PhoneticUnitType::RephOverConsonantWithVowel
            | PhoneticUnitType::RephOverConsonantWithTerminator => {
            if u.text.len() < 2 {
                (u.text.clone(), false)
            } else {
                match first_single_vowel_pos_exec(&u.text, 2, &rt.vows) {
                    Some(j) => {
                        let c = crate::chars::subvec(&u.text, 2, j);
                        let v = crate::chars::subvec(&u.text, j, u.text.len());
                        match crate::definitions::assoc_chars(
                            &rt.cons,
                            Ghost(consonant_table()),
                            &c,
                        ) {
                            Some(cb) => {
                                match vowel_assoc(&rt.vows, &v) {
                                    Some(e) => {
                                        let mut m: Vec<char> = vec!['\u{9b0}', '\u{9cd}'];
                                        proof {
                                            assert(m@ =~= reph_glyph());
                                        }
                                        push_all(&mut m, &cb);
                                        let tail = vowel_after_exec(&v, &e);
                                        push_all(&mut m, &tail);
                                        (m, false)
                                    },
                                    None => (u.text.clone(), false),
                                }
                            },
                            None => (u.text.clone(), false),
                        }
                    },
                    None => {
                        let c = crate::chars::subvec(&u.text, 2, u.text.len());
                        match crate::definitions::assoc_chars(
                            &rt.cons,
                            Ghost(consonant_table()),
                            &c,
                        ) {
                            Some(cb) => {
                                let mut m: Vec<char> = vec!['\u{9b0}', '\u{9cd}'];
                                proof {
                                    assert(m@ =~= reph_glyph());
                                }
                                push_all(&mut m, &cb);
                                (m, false)
                            },
                            None => (u.text.clone(), false),
                        }
                    },
                }
            }
        },
        PhoneticUnitType::SpecialForm => {
            if crate::tokenizer::is_rr_text(&u.text) {
                let m: Vec<char> = vec!['\u{9b0}', '\u{9cd}'];
                proof {
                    assert(m@ =~= reph_glyph());
                }
                (m, false)
            } else if crate::tokenizer::is_ch1(&u.text, '^') {
                let m: Vec<char> = vec!['\u{981}'];
                proof {
                    assert(m@ =~= chandrabindu());
                }
                (m, false)
            } else if crate::tokenizer::is_ch1(&u.text, ':') {
                let m: Vec<char> = vec!['\u{983}'];
                proof {
                    assert(m@ =~= visarga());
                }
                (m, false)
            } else if text_eq3(&u.text, 'T', '`', '`') {
                let m: Vec<char> = vec!['\u{9ce}'];
                proof {
                    assert(m@ =~= khanda_ta());
                }
                (m, false)
            } else if text_eq3(&u.text, 't', '`', '`') {
                let m: Vec<char> = vec!['\u{9ce}'];
                proof {
                    assert(m@ =~= khanda_ta());
                }
                (m, false)
            } else if text_eq2(&u.text, 'n', 'g') {
                let m: Vec<char> = vec!['\u{982}'];
                proof {
                    assert(m@ =~= anusvara());
                }
                (m, false)
            } else {
                match crate::definitions::assoc_chars(
                    &rt.sprs,
                    Ghost(special_rule_table()),
                    &u.text,
                ) {
                    Some(b) => {
                        let cluster = text_eq3(&u.text, 'k', 'k', 'h') || text_eq2(
                            &u.text,
                            'g',
                            'g',
                        ) || text_eq2(&u.text, 'h', 'm');
                        (b, cluster)
                    },
                    None => (u.text.clone(), false),
                }
            }
        },
        PhoneticUnitType::Numeral => (render_digits(&u.text, &rt.nums), false),
        PhoneticUnitType::Symbol => {
            match crate::definitions::assoc_chars(&rt.syms, Ghost(symbol_table()), &u.text) {
                Some(b) => (b, false),
                None => (u.text.clone(), false),
            }
        },
        PhoneticUnitType::Unknown => {
            if crate::tokenizer::is_ch1(&u.text, 'y') && after {
                let m: Vec<char> = vec!['\u{9cd}', '\u{9af}'];
                proof {
                    assert(m@ =~= hasant() + ya_letter());
                }
                (m, true)
            } else if crate::tokenizer::is_ch1(&u.text, 'w') && after {
                let m: Vec<char> = vec!['\u{9cd}', '\u{9ac}'];
                proof {
                    assert(m@ =~= hasant() + ba_letter());
                }
                (m, true)
            } else {
                (u.text.clone(), false)
            }
        },
        PhoneticUnitType::ChandrabinduWithConsonant => {
            if u.text.len() < 1 {
                (u.text.clone(), false)
            } else {
                let base = crate::chars::subvec(&u.text, 0, u.text.len() - 1);
                let ch: Vec<char> = vec!['\u{981}'];
                proof {
                    assert(ch@ =~= chandrabindu());
                }
                if find_dd_exec(&base).is_some() {
                    match conj_out_exec(&base, &rt.cons) {
                        Some(m) => {
                            let mut m = m;
                            push_all(&mut m, &ch);
                            (m, false)
                        },
                        None => (u.text.clone(), false),
                    }
                } else {
                    match crate::definitions::assoc_chars(
                        &rt.cons,
                        Ghost(consonant_table()),
                        &base,
                    ) {
                        Some(b) => {
                            let mut m = b;
                            push_all(&mut m, &ch);
                            (m, false)
                        },
                        None => (u.text.clone(), false),
                    }
                }
            }
        },
        PhoneticUnitType::ChandrabinduWithVowel => {
            if u.text.len() < 1 {
                (u.text.clone(), false)
            } else {
                let base = crate::chars::subvec(&u.text, 0, u.text.len() - 1);
                let ch: Vec<char> = vec!['\u{981}'];
                proof {
                    assert(ch@ =~= chandrabindu());
                }
                match vowel_assoc(&rt.vows, &base) {
                    Some(e) => {
                        let mut m = if after {
                            vowel_after_exec(&base, &e)
                        } else {
                            e.0
                        };
                        push_all(&mut m, &ch);
                        (m, false)
                    },
                    None => (u.text.clone(), false),
                }
            }
        },
        PhoneticUnitType::ChandrabinduWithConsonantAndVowel => {
            if u.text.len() < 1 {
                (u.text.clone(), false)
            } else {
                let base = crate::chars::subvec(&u.text, 0, u.text.len() - 1);
                let ch: Vec<char> = vec!['\u{981}'];
                proof {
                    assert(ch@ =~= chandrabindu());
                }
                let o = if find_dd_exec(&base).is_some() {
                    conj_wv_out_exec(&base, &rt.cons, &rt.vows)
                } else {
                    cwv_out_exec(&base, &rt.cons, &rt.vows)
                };
                match o {
                    Some(m) => {
                        let mut m = m;
                        push_all(&mut m, &ch);
                        (m, false)
                    },
                    None => (u.text.clone(), false),
                }
            }
        },
    }
}

/// `t` holds exactly the two given characters.
fn text_eq2(t: &Vec<char>, a: char, b: char) -> (r: bool)
    ensures
        r == (t@ == seq![a, b]),
{
    if t.len() == 2 && t[0] == a && t[1] == b {
        proof {
            assert(t@ =~= seq![a, b]);
        }
        true
    } else {
        proof {
            if t@ == seq![a, b] {
                assert(t@.len() == 2);
            }
        }
        false
    }
}

/// `t` holds exactly the three given characters.
fn text_eq3(t: &Vec<char>, a: char, b: char, c: char) -> (r: bool)
    ensures
        r == (t@ == seq![a, b, c]),
{
    if t.len() == 3 && t[0] == a && t[1] == b && t[2] == c {
        proof {
            assert(t@ =~= seq![a, b, c]);
        }
        true
    } else {
        proof {
            if t@ == seq![a, b, c] {
                assert(t@.len() == 3);
            }
        }
        false
    }
}

/// Render a unit sequence left to right, threading the bare-consonant state.
pub(crate) fn render_units_exec(units: &Vec<UnitBuf>, rt: &RenderTables) -> (r: Vec<char>)
    requires
        rt_ok(rt),
    ensures
        r@ == render_units_from(ub_views(units@), 0, false),
{
    let mut out: Vec<char> = Vec::new();
    let mut after = false;
    let mut n: usize = 0;
    while n < units.len()
        invariant
            rt_ok(rt),
            n <= units.len(),
            render_units_from(ub_views(units@), 0, false) == out@ + render_units_from(
                ub_views(units@),
                n as int,
                after,
            ),
        decreases units.len() - n,
    {
        let ghost pre = out@;
        let ghost views = ub_views(units@);
        let fin = n == units.len() - 1 && units.len() >= 2;
        let (o, a2) = render_unit_exec(&units[n], after, fin, rt);
        proof {
            assert(pre + (o@ + render_units_from(views, n + 1, a2)) =~= (pre + o@)
                + render_units_from(views, n + 1, a2));
        }
        push_all(&mut out, &o);
        after = a2;
        n += 1;
    }
    proof {
        assert(out@ + render_units_from(ub_views(units@), n as int, after) =~= out@);
    }
    out
}

/// Render one whole word: segment it, then render the units.
pub(crate) fn render_word_exec(w: &Vec<char>, rt: &RenderTables) -> (r: Vec<char>)
    requires
        rt_ok(rt),
    ensures
        r@ == render_word(w@),
{
    let flat = scan_units(w);
    let merged = merge_exec(flat);
    render_units_exec(&merged, rt)
}

/// Render a whole line: tokenize it, render each token, concatenate.
pub(crate) fn render_line_exec(text: &str) -> (r: Vec<char>)
    ensures
        r@ == render_line(text@),
{
    let tk = Tokenizer::new();
    let tokens = tk.tokenize_text(text);
    let rt = render_tables();
    let mut out: Vec<char> = Vec::new();
    let mut n: usize = 0;
    while n < tokens.len()
        invariant
            rt_ok(&rt),
            n <= tokens.len(),
            render_line(text@) == out@ + render_tokens_from(
                token_views(tokens@),
                n as int,
            ),
        decreases tokens.len() - n,
    {
        let ghost pre = out@;
        let ghost views = token_views(tokens@);
        let content = chars_of(tokens[n].content.as_str());
        let piece: Vec<char> = match tokens[n].token_type {
            TokenType::Word => render_word_exec(&content, &rt),
            TokenType::Whitespace => content,
            TokenType::Punctuation | TokenType::Symbol => {
                match crate::definitions::assoc_chars(&rt.syms, Ghost(symbol_table()), &content) {
                    Some(b) => b,
                    None => content,
                }
            },
            TokenType::Number => render_digits(&content, &rt.nums),
            _ => content,
        };
        proof {
            assert(piece@ == render_token(views[n as int]));
            assert(pre + (render_token(views[n as int]) + render_tokens_from(views, n + 1)) =~= (
            pre + render_token(views[n as int])) + render_tokens_from(views, n + 1));
        }
        push_all(&mut out, &piece);
        n += 1;
    }
    proof {
        assert(out@ + render_tokens_from(token_views(tokens@), n as int) =~= out@);
    }
    out
}

/// The whole Roman-to-Bengali transducer: sanitizer, token segmenter and
/// renderer in one.
pub struct Transliterator {
    /// Validates the input before transliteration.
    pub sanitizer: Sanitizer,
    /// Splits lines into tokens and words into phonetic units.
    pub tokenizer: Tokenizer,
}

impl Transliterator {
    /// A transducer over the standard tables with the default sanitizer.
    pub fn new() -> (r: Transliterator)
        ensures
            r.sanitizer.extra@ == Seq::<char>::empty(),
    {
        Transliterator { sanitizer: Sanitizer::new(), tokenizer: Tokenizer::new() }
    }

    /// Transliterate a line: the line is tokenized and rendered, whatever
    /// characters it holds; unresolvable spans fall out unchanged.
    pub fn transliterate(&self, text: &str) -> (r: String)
        ensures
            r@ == transliterate_spec(text@),
    {
        let out = render_line_exec(text);
        string_of(&out)
    }

    /// Split a line into tokens.
    pub fn tokenize(&self, text: &str) -> (r: Vec<Token>)
        ensures
            token_views(r@) == tok_from(text@, 0, Seq::empty(), 0),
    {
        self.tokenizer.tokenize_text(text)
    }

    /// Segment one word into phonetic units.
    pub fn tokenize_phonetic(&self, word: &str) -> (r: Vec<PhoneticUnit>)
        ensures
            unit_views(r@) == segment_word(word@),
    {
        self.tokenizer.tokenize_word(word)
    }

    /// Validate the input against the allowed character set.
    pub fn sanitize(&self, text: &str) -> (r: SanitizeResult)
        ensures
            r is Ok <==> allows_all(self.sanitizer, text@),
            r matches Ok(s) ==> s@ == text@,
            r matches Err(m) ==> m@ == crate::sanitizer::invalid_msg_prefix()
                + crate::sanitizer::offenders(self.sanitizer, text@),
    {
        self.sanitizer.sanitize(text)
    }

    /// Transliterate a line leniently: characters the sanitizer refuses are
    /// dropped first, the rest is transliterated.
    pub fn transliterate_lenient(&self, text: &str) -> (r: String)
        ensures
            r@ == transliterate_lenient_spec(self.sanitizer, text@),
    {
        let cleaned_text = self.sanitizer.clean(text);
        let out = render_line_exec(cleaned_text.as_str());
        string_of(&out)
    }
}

impl Default for Transliterator {
    fn default() -> Self {
        Transliterator::new()
    }
}

/// The phoneme kind standing for a phonetic unit kind in the analysis.
pub open spec fn unit_phoneme_kind(k: PhoneticUnitType) -> crate::phoneme::PhonemeType {
    match k {
        PhoneticUnitType::Consonant => crate::phoneme::PhonemeType::Consonant,
        PhoneticUnitType::Vowel => crate::phoneme::PhonemeType::Vowel,
        PhoneticUnitType::TerminatingVowel => crate::phoneme::PhonemeType::Vowel,
        PhoneticUnitType::ConsonantWithHasant => crate::phoneme::PhonemeType::Modifier,
        _ => crate::phoneme::PhonemeType::Other,
    }
}

/// The analysis phoneme of one phonetic unit: its Roman span, what it
/// renders to on its own, and its kind.
pub open spec fn unit_phoneme(u: SUnit) -> crate::phonology::SPhoneme {
    crate::phonology::SPhoneme {
        roman: u.text,
        ..crate::phonology::bare_phoneme(
            render_unit(u, false, false).0,
            unit_phoneme_kind(u.kind),
            None,
        )
    }
}

/// The analysis phonemes of the units from index `n` on.
pub open spec fn word_phonemes(us: Seq<SUnit>, n: int) -> Seq<crate::phonology::SPhoneme>
    decreases us.len() - n,
{
    if n < 0 || n >= us.len() {
        Seq::empty()
    } else {
        seq![unit_phoneme(us[n])] + word_phonemes(us, n + 1)
    }
}

/// The analysis phonemes of the tokens from index `n` on: a word spreads
/// into the phonemes of its units; every other token stands as one phoneme
/// of its own kind.
pub open spec fn analysis_phonemes(ts: Seq<SToken>, n: int) -> Seq<crate::phonology::SPhoneme>
    decreases ts.len() - n,
{
    if n < 0 || n >= ts.len() {
        Seq::empty()
    } else {
        let t = ts[n];
        (match t.kind {
            TokenType::Word => word_phonemes(segment_word(t.content), 0),
            TokenType::Whitespace => seq![
                crate::phonology::bare_phoneme(
                    t.content,
                    crate::phoneme::PhonemeType::Whitespace,
                    None,
                ),
            ],
            TokenType::Number => seq![
                crate::phonology::bare_phoneme(
                    t.content,
                    crate::phoneme::PhonemeType::Number,
                    None,
                ),
            ],
            TokenType::Punctuation | TokenType::Symbol => seq![
                crate::phonology::bare_phoneme(
                    t.content,
                    crate::phoneme::PhonemeType::Punctuation,
                    None,
                ),
            ],
            _ => seq![
                crate::phonology::bare_phoneme(
                    t.content,
                    crate::phoneme::PhonemeType::Other,
                    None,
                ),
            ],
        }) + analysis_phonemes(ts, n + 1)
    }
}

/// A detailed breakdown of one transliteration: the tokens, the analysis
/// phonemes, their syllables, and the output.
pub struct TransliterationAnalysis {
    /// The tokens of the line.
    pub tokens: Vec<Token>,
    /// One analysis phoneme per phonetic unit or non-word token.
    pub phonemes: Vec<crate::phoneme::Phoneme>,
    /// The phonemes grouped into syllables.
    pub syllables: Vec<crate::syllable::Syllable>,
    /// The transliterated line.
    pub output: String,
}

/// Build the analysis phonemes of one line's tokens.
pub(crate) fn analysis_phonemes_exec(tokens: &Vec<Token>, rt: &RenderTables) -> (r: Vec<
    crate::phoneme::Phoneme,
>)
    requires
        rt_ok(rt),
    ensures
        crate::phonology::ph_views(r@) == analysis_phonemes(token_views(tokens@), 0),
{
    let ghost views = token_views(tokens@);
    let mut r: Vec<crate::phoneme::Phoneme> = Vec::new();
    let mut n: usize = 0;
    proof {
        assert(crate::phonology::ph_views(r@) =~= Seq::<crate::phonology::SPhoneme>::empty());
    }
    while n < tokens.len()
        invariant
            rt_ok(rt),
            n <= tokens@.len(),
            views == token_views(tokens@),
            analysis_phonemes(views, 0) == crate::phonology::ph_views(r@) + analysis_phonemes(
                views,
                n as int,
            ),
        decreases tokens.len() - n,
    {
        let ghost pre = crate::phonology::ph_views(r@);
        let ghost step = analysis_phonemes(views, n as int).subrange(
            0,
            analysis_phonemes(views, n as int).len() - analysis_phonemes(views, n + 1).len(),
        );
        let t = &tokens[n];
        match t.token_type {
            TokenType::Word => {
                let w = chars_of(t.content.as_str());
                let flat = scan_units(&w);
                let units = merge_exec(flat);
                let ghost svs = ub_views(units@);
                let mut m: usize = 0;
                proof {
                    assert(pre + (word_phonemes(svs, 0) + analysis_phonemes(views, n + 1)) =~= (
                    pre + word_phonemes(svs, 0)) + analysis_phonemes(views, n + 1));
                }
                while m < units.len()
                    invariant
                        rt_ok(rt),
                        m <= units@.len(),
                        svs == ub_views(units@),
                        pre + word_phonemes(svs, 0) == crate::phonology::ph_views(r@)
                            + word_phonemes(svs, m as int),
                    decreases units.len() - m,
                {
                    let ghost pre2 = crate::phonology::ph_views(r@);
                    let (o, _a2) = render_unit_exec(&units[m], false, false, rt);
                    let mut ph = crate::phoneme::Phoneme::new(
                        string_of(&o),
                        unit_phoneme_kind_exec(units[m].kind),
                        None,
                    );
                    ph.roman = string_of(&units[m].text);
                    proof {
                        assert(ph@ == unit_phoneme(svs[m as int]));
                        assert(crate::phonology::ph_views(r@.push(ph)) =~= pre2.push(ph@));
                        assert(pre2 + (seq![unit_phoneme(svs[m as int])] + word_phonemes(
                            svs,
                            m + 1,
                        )) =~= pre2.push(unit_phoneme(svs[m as int])) + word_phonemes(svs, m + 1));
                    }
                    r.push(ph);
                    m += 1;
                }
                proof {
                    assert(crate::phonology::ph_views(r@) + word_phonemes(svs, m as int)
                        =~= crate::phonology::ph_views(r@));
                }
            },
            TokenType::Whitespace => {
                let ph = crate::phoneme::Phoneme::new(
                    t.content.clone(),
                    crate::phoneme::PhonemeType::Whitespace,
                    None,
                );
                proof {
                    assert(crate::phonology::ph_views(r@.push(ph)) =~= pre.push(ph@));
                    assert(pre + (seq![ph@] + analysis_phonemes(views, n + 1)) =~= pre.push(ph@)
                        + analysis_phonemes(views, n + 1));
                }
                r.push(ph);
            },
            TokenType::Number => {
                let ph = crate::phoneme::Phoneme::new(
                    t.content.clone(),
                    crate::phoneme::PhonemeType::Number,
                    None,
                );
                proof {
                    assert(crate::phonology::ph_views(r@.push(ph)) =~= pre.push(ph@));
                    assert(pre + (seq![ph@] + analysis_phonemes(views, n + 1)) =~= pre.push(ph@)
                        + analysis_phonemes(views, n + 1));
                }
                r.push(ph);
            },
            TokenType::Punctuation | TokenType::Symbol => {
                let ph = crate::phoneme::Phoneme::new(
                    t.content.clone(),
                    crate::phoneme::PhonemeType::Punctuation,
                    None,
                );
                proof {
                    assert(crate::phonology::ph_views(r@.push(ph)) =~= pre.push(ph@));
                    assert(pre + (seq![ph@] + analysis_phonemes(views, n + 1)) =~= pre.push(ph@)
                        + analysis_phonemes(views, n + 1));
                }
                r.push(ph);
            },
            _ => {
                let ph = crate::phoneme::Phoneme::new(
                    t.content.clone(),
                    crate::phoneme::PhonemeType::Other,
                    None,
                );
                proof {
                    assert(crate::phonology::ph_views(r@.push(ph)) =~= pre.push(ph@));
                    assert(pre + (seq![ph@] + analysis_phonemes(views, n + 1)) =~= pre.push(ph@)
                        + analysis_phonemes(views, n + 1));
                }
                r.push(ph);
            },
        }
        n += 1;
    }
    proof {
        assert(crate::phonology::ph_views(r@) + analysis_phonemes(views, n as int)
            =~= crate::phonology::ph_views(r@));
    }
    r
}

/// Executable twin of `unit_phoneme_kind`.
fn unit_phoneme_kind_exec(k: PhoneticUnitType) -> (r: crate::phoneme::PhonemeType)
    ensures
        r == unit_phoneme_kind(k),
{
    match k {
        PhoneticUnitType::Consonant => crate::phoneme::PhonemeType::Consonant,
        PhoneticUnitType::Vowel => crate::phoneme::PhonemeType::Vowel,
        PhoneticUnitType::TerminatingVowel => crate::phoneme::PhonemeType::Vowel,
        PhoneticUnitType::ConsonantWithHasant => crate::phoneme::PhonemeType::Modifier,
        _ => crate::phoneme::PhonemeType::Other,
    }
}

impl Transliterator {
    /// A detailed breakdown of one transliteration: its tokens, analysis
    /// phonemes, their syllables, and the output.
    pub fn analyze(&self, text: &str) -> (r: TransliterationAnalysis)
        ensures
            token_views(r.tokens@) == tok_from(text@, 0, Seq::empty(), 0),
            crate::phonology::ph_views(r.phonemes@) == analysis_phonemes(
                token_views(r.tokens@),
                0,
            ),
            crate::phonology::syl_views(r.syllables@) == crate::phonology::organized(
                crate::phonology::PhonologyEngine {
                    handle_inherent_vowels: true,
                    handle_reph: true,
                    handle_ya_phala: true,
                    handle_bo_fola: true,
                },
                crate::phonology::ph_views(r.phonemes@),
            ),
            r.output@ == transliterate_spec(text@),
    {
        let tokens = self.tokenizer.tokenize_text(text);
        let rt = render_tables();
        let phonemes = analysis_phonemes_exec(&tokens, &rt);
        let engine = crate::phonology::PhonologyEngine::new();
        let syllables = engine.organize_into_syllables(phonemes.as_slice());
        let output = self.transliterate(text);
        TransliterationAnalysis { tokens, phonemes, syllables, output }
    }
}

} // verus!
