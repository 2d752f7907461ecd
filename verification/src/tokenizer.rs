//! Token and phonetic-unit segmentation.
//!
//! A line is split into word, whitespace, punctuation, number and symbol
//! tokens; a word is segmented into typed phonetic units by longest-match
//! scanning and then merged structurally: adjacent consonants cluster into
//! conjuncts, vowels attach to the consonant or conjunct before them, the
//! reph marker `rr` fuses with its host, and a trailing `^` nasalises the
//! unit before it.  Both stages are specified as recursive transductions
//! over `Seq<char>` and the executable code is proved to compute them.

use vstd::prelude::*;

use crate::chars::{
    chars_of, digit_char, is_digit_char, is_punct_char, is_word_char, is_ws_char, key_matches_at,
    punct_char, string_of, push_all, word_char, ws_char,
};
use crate::definitions::{
    consonant_table, keys_ok, longest_at, longest_key, vowel_table,
};

verus! {

/// Kinds of token produced from a line of input.
#[derive(Debug, Clone, Copy, PartialEq, Eq, Structural)]
pub enum TokenType {
    /// A run of word characters.
    Word,
    /// One punctuation mark.
    Punctuation,
    /// One whitespace character.
    Whitespace,
    /// A run of digits.
    Number,
    /// One symbol character outside the other classes.
    Symbol,
    /// A letter-level consonant token, consumed by the phonology stage.
    Consonant,
    /// A letter-level vowel token, consumed by the phonology stage.
    Vowel,
    /// A letter-level modifier token, consumed by the phonology stage.
    Modifier,
    /// Any other letter-level token of the phonology stage.
    Other,
}

/// Position of a letter token inside its word.
#[derive(Debug, Clone, Copy, PartialEq, Eq, Structural)]
pub enum TokenPosition {
    /// The first letter of a word.
    Initial,
    /// A letter inside a word.
    Medial,
    /// The last letter of a word.
    Final,
}

/// One token of the input line.
#[derive(Debug, Clone)]
pub struct Token {
    /// The characters of the token.
    pub content: String,
    /// What kind of token this is.
    pub token_type: TokenType,
    /// Character index of the token in the input line.
    pub position: usize,
}

/// Spec-level token.
pub struct SToken {
    /// The characters of the token.
    pub content: Seq<char>,
    /// What kind of token this is.
    pub kind: TokenType,
    /// Character index of the token in the input line.
    pub pos: int,
}

impl View for Token {
    type V = SToken;

    open spec fn view(&self) -> SToken {
        SToken { content: self.content@, kind: self.token_type, pos: self.position as int }
    }
}

/// The views of a token vector, index by index.
pub open spec fn token_views(s: Seq<Token>) -> Seq<SToken> {
    Seq::new(s.len(), |i: int| s[i]@)
}

/// Kinds of phonetic unit inside a word.
#[derive(Debug, Clone, Copy, PartialEq, Eq, Structural)]
pub enum PhoneticUnitType {
    /// A single consonant key.
    Consonant,
    /// A vowel key.
    Vowel,
    /// The terminating vowel `o`, which closes a syllable silently.
    TerminatingVowel,
    /// A consonant followed by a vowel key.
    ConsonantWithVowel,
    /// A consonant followed by the terminating vowel.
    ConsonantWithTerminator,
    /// The explicit hasant marker `,,`.
    ConsonantWithHasant,
    /// Two or more consonant keys joined by hasant markers.
    Conjunct,
    /// A conjunct followed by a vowel key.
    ConjunctWithVowel,
    /// A conjunct followed by the terminating vowel.
    ConjunctWithTerminator,
    /// The reph marker `rr` over a consonant.
    RephOverConsonant,
    /// Reph over a consonant with a vowel.
    RephOverConsonantWithVowel,
    /// Reph over a consonant with the terminating vowel.
    RephOverConsonantWithTerminator,
    /// A vowel nasalised by a chandrabindu.
    ChandrabinduWithVowel,
    /// A consonant or conjunct nasalised by a chandrabindu.
    ChandrabinduWithConsonant,
    /// A consonant with vowel nasalised by a chandrabindu.
    ChandrabinduWithConsonantAndVowel,
    /// A fixed special sequence (reph marker, diacritic escape, special rule).
    SpecialForm,
    /// A run of digits inside a word.
    Numeral,
    /// A symbol carried through a word.
    Symbol,
    /// A character no table knows; carried through unchanged.
    Unknown,
}

/// One phonetic unit of a word.
#[derive(Debug, Clone)]
pub struct PhoneticUnit {
    /// The Roman span this unit was built from (hasant markers included).
    pub text: String,
    /// What kind of unit this is.
    pub unit_type: PhoneticUnitType,
    /// Character index of the unit's first character in the word.
    pub position: usize,
}

/// Spec-level phonetic unit.
pub struct SUnit {
    /// The Roman span this unit was built from.
    pub text: Seq<char>,
    /// What kind of unit this is.
    pub kind: PhoneticUnitType,
    /// Character index of the unit's first character in the word.
    pub pos: int,
}

impl View for PhoneticUnit {
    type V = SUnit;

    open spec fn view(&self) -> SUnit {
        SUnit { text: self.text@, kind: self.unit_type, pos: self.position as int }
    }
}

/// The views of a unit vector, index by index.
pub open spec fn unit_views(s: Seq<PhoneticUnit>) -> Seq<SUnit> {
    Seq::new(s.len(), |i: int| s[i]@)
}

/// Working representation of a phonetic unit over character vectors.
pub struct UnitBuf {
    /// The Roman span this unit was built from.
    pub text: Vec<char>,
    /// What kind of unit this is.
    pub kind: PhoneticUnitType,
    /// Character index of the unit's first character in the word.
    pub pos: usize,
}

impl View for UnitBuf {
    type V = SUnit;

    open spec fn view(&self) -> SUnit {
        SUnit { text: self.text@, kind: self.kind, pos: self.pos as int }
    }
}

/// The views of an internal unit vector, index by index.
pub open spec fn ub_views(s: Seq<UnitBuf>) -> Seq<SUnit> {
    Seq::new(s.len(), |i: int| s[i]@)
}

/// The special sequences of the scanner: the terminating vowel, the reph
/// marker, the explicit hasant, the standalone diacritics, the khanda-ta
/// escape in both of its spellings, and the fixed special rules.
pub open spec fn special_seq_table() -> Seq<(Seq<char>, PhoneticUnitType)> {
    seq![
        (seq!['o'], PhoneticUnitType::TerminatingVowel),
        (seq!['r', 'r'], PhoneticUnitType::SpecialForm),
        (seq![',', ','], PhoneticUnitType::ConsonantWithHasant),
        (seq!['^'], PhoneticUnitType::SpecialForm),
        (seq![':'], PhoneticUnitType::SpecialForm),
        (seq!['T', '`', '`'], PhoneticUnitType::SpecialForm),
        (seq!['k', 'k', 'h'], PhoneticUnitType::SpecialForm),
        (seq!['g', 'g'], PhoneticUnitType::SpecialForm),
        (seq!['h', 'm'], PhoneticUnitType::SpecialForm),
        (seq!['a', 'y', 'a'], PhoneticUnitType::SpecialForm),
        (seq!['t', '`', '`'], PhoneticUnitType::SpecialForm),
    ]
}

pub(crate) fn special_seq_chars() -> (r: Vec<(Vec<char>, PhoneticUnitType)>)
    ensures
        keys_ok(r@, special_seq_table()),
        forall|i: int| 0 <= i < r@.len() ==> r@[i].1 == special_seq_table()[i].1,
{
    let r: Vec<(Vec<char>, PhoneticUnitType)> = vec![
        (vec!['o'], PhoneticUnitType::TerminatingVowel),
        (vec!['r', 'r'], PhoneticUnitType::SpecialForm),
        (vec![',', ','], PhoneticUnitType::ConsonantWithHasant),
        (vec!['^'], PhoneticUnitType::SpecialForm),
        (vec![':'], PhoneticUnitType::SpecialForm),
        (vec!['T', '`', '`'], PhoneticUnitType::SpecialForm),
        (vec!['k', 'k', 'h'], PhoneticUnitType::SpecialForm),
        (vec!['g', 'g'], PhoneticUnitType::SpecialForm),
        (vec!['h', 'm'], PhoneticUnitType::SpecialForm),
        (vec!['a', 'y', 'a'], PhoneticUnitType::SpecialForm),
        (vec!['t', '`', '`'], PhoneticUnitType::SpecialForm),
    ];
    proof {
        assert forall|i: int| 0 <= i < r@.len() implies r@[i].0@ == special_seq_table()[i].0 by {
            assert(r@[0].0@ =~= special_seq_table()[0].0);
            assert(r@[1].0@ =~= special_seq_table()[1].0);
            assert(r@[2].0@ =~= special_seq_table()[2].0);
            assert(r@[3].0@ =~= special_seq_table()[3].0);
            assert(r@[4].0@ =~= special_seq_table()[4].0);
            assert(r@[5].0@ =~= special_seq_table()[5].0);
            assert(r@[6].0@ =~= special_seq_table()[6].0);
            assert(r@[7].0@ =~= special_seq_table()[7].0);
            assert(r@[8].0@ =~= special_seq_table()[8].0);
            assert(r@[9].0@ =~= special_seq_table()[9].0);
            assert(r@[10].0@ =~= special_seq_table()[10].0);
        }
    }
    r
}

/// The unit the scanner produces at position `i` of the word: the literal
/// `ng` escape first, then the longest special sequence, then the longest
/// consonant key, then the longest vowel key, else one unknown character.
pub open spec fn step_of(s: Seq<char>, i: int) -> SUnit
    recommends
        0 <= i < s.len(),
{
    if i + 2 <= s.len() && s[i] == 'n' && s[i + 1] == 'g' {
        SUnit { text: seq!['n', 'g'], kind: PhoneticUnitType::SpecialForm, pos: i }
    } else {
        match longest_key(special_seq_table(), s, i) {
            Some(p) => SUnit { text: p.0, kind: p.1, pos: i },
            None => match longest_key(consonant_table(), s, i) {
                Some(p) => SUnit { text: p.0, kind: PhoneticUnitType::Consonant, pos: i },
                None => match longest_key(vowel_table(), s, i) {
                    Some(p) => SUnit { text: p.0, kind: PhoneticUnitType::Vowel, pos: i },
                    None => SUnit { text: seq![s[i]], kind: PhoneticUnitType::Unknown, pos: i },
                },
            },
        }
    }
}

/// How far the scanner advances after the unit at `i`: the unit's length,
/// and at least one character.
pub open spec fn advance_of(u: SUnit) -> int {
    if u.text.len() == 0 {
        1
    } else {
        u.text.len() as int
    }
}

/// The flat unit sequence the scanner produces from position `i` on.
pub open spec fn phase1_from(s: Seq<char>, i: int) -> Seq<SUnit>
    decreases s.len() - i,
{
    if i < 0 || i >= s.len() {
        Seq::empty()
    } else {
        let u = step_of(s, i);
        proof {
            lemma_step_in_range(s, i);
        }
        seq![u] + phase1_from(s, i + advance_of(u))
    }
}

/// A key never reaches beyond the end of the word, so each scanner step
/// stays inside it.
pub proof fn lemma_step_in_range(s: Seq<char>, i: int)
    requires
        0 <= i < s.len(),
    ensures
        1 <= advance_of(step_of(s, i)),
        i + advance_of(step_of(s, i)) <= s.len(),
{
    let u = step_of(s, i);
    if i + 2 <= s.len() && s[i] == 'n' && s[i + 1] == 'g' {
    } else {
        match longest_key(special_seq_table(), s, i) {
            Some(p) => {
                lemma_longest_matches(special_seq_table(), s, i, 0);
            },
            None => match longest_key(consonant_table(), s, i) {
                Some(p) => {
                    lemma_longest_matches(consonant_table(), s, i, 0);
                },
                None => match longest_key(vowel_table(), s, i) {
                    Some(p) => {
                        lemma_longest_matches(vowel_table(), s, i, 0);
                    },
                    None => {},
                },
            },
        }
    }
}

/// A winning entry of the longest-match always matches at `i`.
pub proof fn lemma_longest_matches<V>(t: Seq<(Seq<char>, V)>, s: Seq<char>, i: int, n: int)
    requires
        crate::definitions::longest_from(t, s, i, n) is Some,
    ensures
        key_matches_at(crate::definitions::longest_from(t, s, i, n)->Some_0.0, s, i),
    decreases t.len() - n,
{
    if n < 0 || n >= t.len() {
    } else {
        if crate::definitions::longest_from(t, s, i, n + 1) is Some {
            lemma_longest_matches(t, s, i, n + 1);
        }
    }
}

/// One executable scanner step.
fn step_exec(
    w: &Vec<char>,
    i: usize,
    sseq: &Vec<(Vec<char>, PhoneticUnitType)>,
    cons: &Vec<(Vec<char>, Vec<char>)>,
    vows: &Vec<(Vec<char>, (Vec<char>, Option<Vec<char>>))>,
) -> (r: (UnitBuf, usize))
    requires
        i < w.len(),
        keys_ok(sseq@, special_seq_table()),
        forall|t: int| 0 <= t < sseq@.len() ==> sseq@[t].1 == special_seq_table()[t].1,
        keys_ok(cons@, consonant_table()),
        keys_ok(vows@, vowel_table()),
    ensures
        r.0@ == step_of(w@, i as int),
        r.1 == advance_of(step_of(w@, i as int)),
        1 <= r.1,
        i + r.1 <= w.len(),
{
    proof {
        lemma_step_in_range(w@, i as int);
    }
    if i + 1 < w.len() && w[i] == 'n' && w[i + 1] == 'g' {
        let u = UnitBuf { text: vec!['n', 'g'], kind: PhoneticUnitType::SpecialForm, pos: i };
        proof {
            assert(u@.text =~= step_of(w@, i as int).text);
        }
        return (u, 2);
    }
    if let Some(j) = longest_at::<PhoneticUnitType, PhoneticUnitType>(sseq, Ghost(special_seq_table()), w, i) {
        let text = sseq[j].0.clone();
        let n = text.len();
        let u = UnitBuf { text, kind: sseq[j].1, pos: i };
        return (u, n);
    }
    if let Some(j) = longest_at::<Vec<char>, Seq<char>>(cons, Ghost(consonant_table()), w, i) {
        let text = cons[j].0.clone();
        let n = text.len();
        let u = UnitBuf { text, kind: PhoneticUnitType::Consonant, pos: i };
        return (u, n);
    }
    if let Some(j) = longest_at::<(Vec<char>, Option<Vec<char>>), (Seq<char>, Option<Seq<char>>)>(vows, Ghost(vowel_table()), w, i) {
        let text = vows[j].0.clone();
        let n = text.len();
        let u = UnitBuf { text, kind: PhoneticUnitType::Vowel, pos: i };
        return (u, n);
    }
    let u = UnitBuf { text: vec![w[i]], kind: PhoneticUnitType::Unknown, pos: i };
    proof {
        assert(u@.text =~= step_of(w@, i as int).text);
    }
    (u, 1)
}

/// Scan a whole word into its flat unit sequence.
pub(crate) fn scan_units(w: &Vec<char>) -> (r: Vec<UnitBuf>)
    ensures
        ub_views(r@) == phase1_from(w@, 0),
{
    let sseq = special_seq_chars();
    let cons = crate::definitions::consonant_chars();
    let vows = crate::definitions::vowel_chars();
    let mut r: Vec<UnitBuf> = Vec::new();
    let mut i: usize = 0;
    while i < w.len()
        invariant
            i <= w.len(),
            keys_ok(sseq@, special_seq_table()),
            forall|t: int| 0 <= t < sseq@.len() ==> sseq@[t].1 == special_seq_table()[t].1,
            keys_ok(cons@, consonant_table()),
            keys_ok(vows@, vowel_table()),
            phase1_from(w@, 0) == ub_views(r@) + phase1_from(w@, i as int),
        decreases w.len() - i,
    {
        let (u, adv) = step_exec(w, i, &sseq, &cons, &vows);
        proof {
            let old_views = ub_views(r@);
            assert(phase1_from(w@, i as int) == seq![u@] + phase1_from(w@, i + adv));
            assert(ub_views(r@.push(u)) =~= old_views + seq![u@]);
            assert(old_views + (seq![u@] + phase1_from(w@, i + adv)) =~= (old_views + seq![u@])
                + phase1_from(w@, i + adv));
        }
        r.push(u);
        i += adv;
    }
    proof {
        assert(ub_views(r@) + phase1_from(w@, i as int) =~= ub_views(r@));
    }
    r
}

/// The hasant join marker written inside conjunct texts.
pub open spec fn dd_marker() -> Seq<char> {
    seq![',', ',']
}

/// What a chandrabindu turns the unit before it into.
pub open spec fn chandra_kind(k: PhoneticUnitType) -> PhoneticUnitType {
    match k {
        PhoneticUnitType::Consonant => PhoneticUnitType::ChandrabinduWithConsonant,
        PhoneticUnitType::Vowel => PhoneticUnitType::ChandrabinduWithVowel,
        PhoneticUnitType::TerminatingVowel => PhoneticUnitType::ChandrabinduWithVowel,
        PhoneticUnitType::ConsonantWithVowel => PhoneticUnitType::ChandrabinduWithConsonantAndVowel,
        PhoneticUnitType::ConsonantWithTerminator
            => PhoneticUnitType::ChandrabinduWithConsonantAndVowel,
        PhoneticUnitType::Conjunct => PhoneticUnitType::ChandrabinduWithConsonant,
        PhoneticUnitType::ConjunctWithVowel => PhoneticUnitType::ChandrabinduWithConsonantAndVowel,
        PhoneticUnitType::ConjunctWithTerminator
            => PhoneticUnitType::ChandrabinduWithConsonantAndVowel,
        _ => k,
    }
}

/// Replace `u[i]` and `u[i+1]` by one merged unit.
pub open spec fn splice2(u: Seq<SUnit>, i: int, nu: SUnit) -> Seq<SUnit> {
    u.subrange(0, i) + seq![nu] + u.subrange(i + 2, u.len() as int)
}

/// Replace `u[i]`, `u[i+1]` and `u[i+2]` by one merged unit.
pub open spec fn splice3(u: Seq<SUnit>, i: int, nu: SUnit) -> Seq<SUnit> {
    u.subrange(0, i) + seq![nu] + u.subrange(i + 3, u.len() as int)
}

/// The merge rule that fires at position `i`, if any: chandrabindu joins the
/// unit before it; `rr` fuses with a following `i` vowel or consonant; two
/// consonants cluster, with or without an explicit hasant marker between
/// them; a consonant absorbs a following vowel; conjuncts and reph units
/// absorb vowels.  A hasant marker that trails a finished conjunct stays a
/// unit of its own.
pub open spec fn rule_at(u: Seq<SUnit>, i: int) -> Option<Seq<SUnit>>
    recommends
        0 <= i,
        i + 1 < u.len(),
{
    let a = u[i];
    let b = u[i + 1];
    if b.kind == PhoneticUnitType::SpecialForm && b.text == seq!['^'] {
        Some(
            splice2(
                u,
                i,
                SUnit { text: a.text + seq!['^'], kind: chandra_kind(a.kind), pos: a.pos },
            ),
        )
    } else if a.kind == PhoneticUnitType::SpecialForm && a.text == seq!['r', 'r'] && b.kind
        == PhoneticUnitType::Vowel && b.text == seq!['i'] {
        Some(
            splice2(
                u,
                i,
                SUnit { text: seq!['r', 'r', 'i'], kind: PhoneticUnitType::Vowel, pos: a.pos },
            ),
        )
    } else if a.kind == PhoneticUnitType::SpecialForm && a.text == seq!['r', 'r'] && b.kind
        == PhoneticUnitType::Consonant {
        Some(
            splice2(
                u,
                i,
                SUnit {
                    text: a.text + b.text,
                    kind: PhoneticUnitType::RephOverConsonant,
                    pos: a.pos,
                },
            ),
        )
    } else if a.kind == PhoneticUnitType::Consonant && b.kind
        == PhoneticUnitType::ConsonantWithHasant && i + 2 < u.len() && u[i + 2].kind
        == PhoneticUnitType::Consonant {
        Some(
            splice3(
                u,
                i,
                SUnit {
                    text: a.text + dd_marker() + u[i + 2].text,
                    kind: PhoneticUnitType::Conjunct,
                    pos: a.pos,
                },
            ),
        )
    } else if a.kind == PhoneticUnitType::Consonant && b.kind == PhoneticUnitType::Vowel {
        Some(
            splice2(
                u,
                i,
                SUnit {
                    text: a.text + b.text,
                    kind: PhoneticUnitType::ConsonantWithVowel,
                    pos: a.pos,
                },
            ),
        )
    } else if a.kind == PhoneticUnitType::Consonant && b.kind
        == PhoneticUnitType::TerminatingVowel {
        Some(
            splice2(
                u,
                i,
                SUnit {
                    text: a.text + b.text,
                    kind: PhoneticUnitType::ConsonantWithTerminator,
                    pos: a.pos,
                },
            ),
        )
    } else if a.kind == PhoneticUnitType::Consonant && b.kind == PhoneticUnitType::Consonant {
        Some(
            splice2(
                u,
                i,
                SUnit {
                    text: a.text + dd_marker() + b.text,
                    kind: PhoneticUnitType::Conjunct,
                    pos: a.pos,
                },
            ),
        )
    } else if a.kind == PhoneticUnitType::Conjunct && b.kind == PhoneticUnitType::Vowel {
        Some(
            splice2(
                u,
                i,
                SUnit {
                    text: a.text + b.text,
                    kind: PhoneticUnitType::ConjunctWithVowel,
                    pos: a.pos,
                },
            ),
        )
    } else if a.kind == PhoneticUnitType::Conjunct && b.kind == PhoneticUnitType::TerminatingVowel {
        Some(
            splice2(
                u,
                i,
                SUnit {
                    text: a.text + b.text,
                    kind: PhoneticUnitType::ConjunctWithTerminator,
                    pos: a.pos,
                },
            ),
        )
    } else if a.kind == PhoneticUnitType::RephOverConsonant && b.kind == PhoneticUnitType::Vowel {
        Some(
            splice2(
                u,
                i,
                SUnit {
                    text: a.text + b.text,
                    kind: PhoneticUnitType::RephOverConsonantWithVowel,
                    pos: a.pos,
                },
            ),
        )
    } else if a.kind == PhoneticUnitType::RephOverConsonant && b.kind
        == PhoneticUnitType::TerminatingVowel {
        Some(
            splice2(
                u,
                i,
                SUnit {
                    text: a.text + b.text,
                    kind: PhoneticUnitType::RephOverConsonantWithTerminator,
                    pos: a.pos,
                },
            ),
        )
    } else {
        None
    }
}

/// The result of the leftmost rule that fires at position `i` or later.
pub open spec fn find_rule(u: Seq<SUnit>, i: int) -> Option<Seq<SUnit>>
    decreases u.len() - i,
{
    if i < 0 || i + 1 >= u.len() {
        None
    } else {
        match rule_at(u, i) {
            Some(v) => Some(v),
            None => find_rule(u, i + 1),
        }
    }
}

/// Every fired rule shortens the unit sequence.
proof fn lemma_find_rule_shrinks(u: Seq<SUnit>, i: int)
    ensures
        find_rule(u, i) matches Some(v) ==> v.len() < u.len(),
    decreases u.len() - i,
{
    if i < 0 || i + 1 >= u.len() {
    } else {
        match rule_at(u, i) {
            Some(v) => {},
            None => {
                lemma_find_rule_shrinks(u, i + 1);
            },
        }
    }
}

/// Merging to a fixed point: apply the leftmost rule until none fires.
pub open spec fn merge_units(u: Seq<SUnit>) -> Seq<SUnit>
    decreases u.len(),
    via merge_units_dec
{
    match find_rule(u, 0) {
        None => u,
        Some(v) => merge_units(v),
    }
}

#[via_fn]
proof fn merge_units_dec(u: Seq<SUnit>) {
    lemma_find_rule_shrinks(u, 0);
}

/// The full segmentation of one word.
pub open spec fn segment_word(w: Seq<char>) -> Seq<SUnit> {
    merge_units(phase1_from(w, 0))
}

/// `t` holds exactly the single character `c`.
pub(crate) fn is_ch1(t: &Vec<char>, c: char) -> (r: bool)
    ensures
        r == (t@ == seq![c]),
{
    if t.len() == 1 && t[0] == c {
        proof {
            assert(t@ =~= seq![c]);
        }
        true
    } else {
        proof {
            if t@ == seq![c] {
                assert(t@.len() == 1);
            }
        }
        false
    }
}

/// `t` holds exactly `rr`.
pub(crate) fn is_rr_text(t: &Vec<char>) -> (r: bool)
    ensures
        r == (t@ == seq!['r', 'r']),
{
    if t.len() == 2 && t[0] == 'r' && t[1] == 'r' {
        proof {
            assert(t@ =~= seq!['r', 'r']);
        }
        true
    } else {
        proof {
            if t@ == seq!['r', 'r'] {
                assert(t@.len() == 2);
            }
        }
        false
    }
}

/// Concatenation of two character vectors.
fn cat2(a: &Vec<char>, b: &Vec<char>) -> (r: Vec<char>)
    ensures
        r@ == a@ + b@,
{
    let mut r = a.clone();
    push_all(&mut r, b);
    r
}

/// Concatenation of three character vectors.
fn cat3(a: &Vec<char>, b: &Vec<char>, c: &Vec<char>) -> (r: Vec<char>)
    ensures
        r@ == a@ + b@ + c@,
{
    let mut r = a.clone();
    push_all(&mut r, b);
    push_all(&mut r, c);
    r
}

/// A fired rule, ready to be spliced in.
struct RuleHit {
    nu: UnitBuf,
    consumed: usize,
}

/// Try the merge rules at position `i`.
fn try_rule_at(units: &Vec<UnitBuf>, i: usize) -> (r: Option<RuleHit>)
    requires
        i + 1 < units.len(),
    ensures
        match r {
            None => rule_at(ub_views(units@), i as int) is None,
            Some(h) => {
                &&& 2 <= h.consumed <= 3
                &&& i + h.consumed <= units.len()
                &&& (h.consumed == 2 ==> rule_at(ub_views(units@), i as int) == Some(
                    splice2(ub_views(units@), i as int, h.nu@),
                ))
                &&& (h.consumed == 3 ==> rule_at(ub_views(units@), i as int) == Some(
                    splice3(ub_views(units@), i as int, h.nu@),
                ))
            },
        },
{
    let caret: Vec<char> = vec!['^'];
    let dd: Vec<char> = vec![',', ','];
    proof {
        assert(caret@ =~= seq!['^']);
        assert(dd@ =~= dd_marker());
    }
    let a_kind = units[i].kind;
    let b_kind = units[i + 1].kind;
    if b_kind == PhoneticUnitType::SpecialForm && is_ch1(&units[i + 1].text, '^') {
        let nu = UnitBuf {
            text: cat2(&units[i].text, &caret),
            kind: chandra_kind_exec(a_kind),
            pos: units[i].pos,
        };
        return Some(RuleHit { nu, consumed: 2 });
    }
    if a_kind == PhoneticUnitType::SpecialForm && is_rr_text(&units[i].text) && b_kind
        == PhoneticUnitType::Vowel && is_ch1(&units[i + 1].text, 'i') {
        let nu = UnitBuf {
            text: vec!['r', 'r', 'i'],
            kind: PhoneticUnitType::Vowel,
            pos: units[i].pos,
        };
        proof {
            assert(nu@.text =~= seq!['r', 'r', 'i']);
        }
        return Some(RuleHit { nu, consumed: 2 });
    }
    if a_kind == PhoneticUnitType::SpecialForm && is_rr_text(&units[i].text) && b_kind
        == PhoneticUnitType::Consonant {
        let nu = UnitBuf {
            text: cat2(&units[i].text, &units[i + 1].text),
            kind: PhoneticUnitType::RephOverConsonant,
            pos: units[i].pos,
        };
        return Some(RuleHit { nu, consumed: 2 });
    }
    if a_kind == PhoneticUnitType::Consonant && b_kind == PhoneticUnitType::ConsonantWithHasant
        && i + 2 < units.len() && units[i + 2].kind == PhoneticUnitType::Consonant {
        let nu = UnitBuf {
            text: cat3(&units[i].text, &dd, &units[i + 2].text),
            kind: PhoneticUnitType::Conjunct,
            pos: units[i].pos,
        };
        return Some(RuleHit { nu, consumed: 3 });
    }
    if a_kind == PhoneticUnitType::Consonant && b_kind == PhoneticUnitType::Vowel {
        let nu = UnitBuf {
            text: cat2(&units[i].text, &units[i + 1].text),
            kind: PhoneticUnitType::ConsonantWithVowel,
            pos: units[i].pos,
        };
        return Some(RuleHit { nu, consumed: 2 });
    }
    if a_kind == PhoneticUnitType::Consonant && b_kind == PhoneticUnitType::TerminatingVowel {
        let nu = UnitBuf {
            text: cat2(&units[i].text, &units[i + 1].text),
            kind: PhoneticUnitType::ConsonantWithTerminator,
            pos: units[i].pos,
        };
        return Some(RuleHit { nu, consumed: 2 });
    }
    if a_kind == PhoneticUnitType::Consonant && b_kind == PhoneticUnitType::Consonant {
        let nu = UnitBuf {
            text: cat3(&units[i].text, &dd, &units[i + 1].text),
            kind: PhoneticUnitType::Conjunct,
            pos: units[i].pos,
        };
        return Some(RuleHit { nu, consumed: 2 });
    }
    if a_kind == PhoneticUnitType::Conjunct && b_kind == PhoneticUnitType::Vowel {
        let nu = UnitBuf {
            text: cat2(&units[i].text, &units[i + 1].text),
            kind: PhoneticUnitType::ConjunctWithVowel,
            pos: units[i].pos,
        };
        return Some(RuleHit { nu, consumed: 2 });
    }
    if a_kind == PhoneticUnitType::Conjunct && b_kind == PhoneticUnitType::TerminatingVowel {
        let nu = UnitBuf {
            text: cat2(&units[i].text, &units[i + 1].text),
            kind: PhoneticUnitType::ConjunctWithTerminator,
            pos: units[i].pos,
        };
        return Some(RuleHit { nu, consumed: 2 });
    }
    if a_kind == PhoneticUnitType::RephOverConsonant && b_kind == PhoneticUnitType::Vowel {
        let nu = UnitBuf {
            text: cat2(&units[i].text, &units[i + 1].text),
            kind: PhoneticUnitType::RephOverConsonantWithVowel,
            pos: units[i].pos,
        };
        return Some(RuleHit { nu, consumed: 2 });
    }
    if a_kind == PhoneticUnitType::RephOverConsonant && b_kind
        == PhoneticUnitType::TerminatingVowel {
        let nu = UnitBuf {
            text: cat2(&units[i].text, &units[i + 1].text),
            kind: PhoneticUnitType::RephOverConsonantWithTerminator,
            pos: units[i].pos,
        };
        return Some(RuleHit { nu, consumed: 2 });
    }
    None
}

/// Executable twin of `chandra_kind`.
fn chandra_kind_exec(k: PhoneticUnitType) -> (r: PhoneticUnitType)
    ensures
        r == chandra_kind(k),
{
    match k {
        PhoneticUnitType::Consonant => PhoneticUnitType::ChandrabinduWithConsonant,
        PhoneticUnitType::Vowel => PhoneticUnitType::ChandrabinduWithVowel,
        PhoneticUnitType::TerminatingVowel => PhoneticUnitType::ChandrabinduWithVowel,
        PhoneticUnitType::ConsonantWithVowel => PhoneticUnitType::ChandrabinduWithConsonantAndVowel,
        PhoneticUnitType::ConsonantWithTerminator
            => PhoneticUnitType::ChandrabinduWithConsonantAndVowel,
        PhoneticUnitType::Conjunct => PhoneticUnitType::ChandrabinduWithConsonant,
        PhoneticUnitType::ConjunctWithVowel => PhoneticUnitType::ChandrabinduWithConsonantAndVowel,
        PhoneticUnitType::ConjunctWithTerminator
            => PhoneticUnitType::ChandrabinduWithConsonantAndVowel,
        other => other,
    }
}

/// Apply the leftmost rule once; report whether one fired.
fn apply_first_rule(units: &mut Vec<UnitBuf>) -> (fired: bool)
    ensures
        fired ==> find_rule(ub_views(old(units)@), 0) == Some(ub_views(final(units)@)),
        !fired ==> final(units)@ == old(units)@ && find_rule(ub_views(old(units)@), 0) is None,
{
    let ghost v0 = ub_views(units@);
    let mut i: usize = 0;
    if units.len() < 2 {
        return false;
    }
    while i + 1 < units.len()
        invariant
            units@ == old(units)@,
            v0 == ub_views(units@),
            i + 1 <= units.len(),
            find_rule(v0, 0) == find_rule(v0, i as int),
        decreases units.len() - i,
    {
        match try_rule_at(units, i) {
            Some(h) => {
                let nu = h.nu;
                let consumed = h.consumed;
                let ghost nuv = nu@;
                units.set(i, nu);
                units.remove(i + 1);
                if consumed == 3 {
                    units.remove(i + 1);
                    proof {
                        assert(ub_views(units@) =~= splice3(v0, i as int, nuv));
                    }
                } else {
                    proof {
                        assert(ub_views(units@) =~= splice2(v0, i as int, nuv));
                    }
                }
                return true;
            },
            None => {
                i += 1;
            },
        }
    }
    false
}

/// Merge a flat unit sequence to its fixed point.
pub(crate) fn merge_exec(units: Vec<UnitBuf>) -> (r: Vec<UnitBuf>)
    ensures
        ub_views(r@) == merge_units(ub_views(units@)),
    decreases units.len(),
{
    let ghost v0 = ub_views(units@);
    let mut units = units;
    let fired = apply_first_rule(&mut units);
    if fired {
        proof {
            lemma_find_rule_shrinks(v0, 0);
        }
        merge_exec(units)
    } else {
        units
    }
}

/// The token and phonetic-unit segmenter.
pub struct Tokenizer {}

impl Tokenizer {
    /// A segmenter over the standard tables.
    pub fn new() -> (r: Tokenizer) {
        Tokenizer {  }
    }

    /// Segment one word into phonetic units: longest-match scanning, then
    /// structural merging to a fixed point.
    pub fn tokenize_word(&self, word: &str) -> (r: Vec<PhoneticUnit>)
        ensures
            unit_views(r@) == segment_word(word@),
    {
        let w = chars_of(word);
        let flat = scan_units(&w);
        let merged = merge_exec(flat);
        let mut r: Vec<PhoneticUnit> = Vec::new();
        let mut n: usize = 0;
        while n < merged.len()
            invariant
                n <= merged.len(),
                r@.len() == n,
                forall|t: int| 0 <= t < n ==> #[trigger] r@[t]@ == ub_views(merged@)[t],
            decreases merged.len() - n,
        {
            let text = string_of(&merged[n].text);
            r.push(
                PhoneticUnit { text, unit_type: merged[n].kind, position: merged[n].pos },
            );
            n += 1;
        }
        proof {
            assert(unit_views(r@) =~= ub_views(merged@));
        }
        r
    }

    /// Split a line into word, whitespace, punctuation, number and symbol
    /// tokens; see `tok_from` for the exact transduction.
    pub fn tokenize_text(&self, text: &str) -> (r: Vec<Token>)
        ensures
            token_views(r@) == tok_from(text@, 0, Seq::empty(), 0),
    {
        let s = chars_of(text);
        let mut r: Vec<Token> = Vec::new();
        let mut buf: Vec<char> = Vec::new();
        let mut bpos: usize = 0;
        let mut i: usize = 0;
        while i < s.len()
            invariant
                i <= s.len(),
                bpos <= s.len(),
                tok_from(s@, 0, Seq::empty(), 0) == token_views(r@) + tok_from(
                    s@,
                    i as int,
                    buf@,
                    bpos as int,
                ),
            decreases s.len() - i,
        {
            let ghost pre_tokens = token_views(r@);
            let ghost pre_buf = buf@;
            let ghost pre_bpos = bpos as int;
            let c = s[i];
            if buf.len() > 0 && c == '^' {
                buf.push('^');
                i += 1;
                proof {
                    assert(buf@ =~= pre_buf + seq!['^']);
                }
            } else if buf.len() > 0 && c == ':' {
                buf.push(':');
                i += 1;
                proof {
                    assert(buf@ =~= pre_buf + seq![':']);
                }
            } else if buf.len() > 0 && c == '`' && i + 1 < s.len() && s[i + 1] == '`'
                && (buf[buf.len() - 1] == 'T' || buf[buf.len() - 1] == 't') {
                buf.push('`');
                buf.push('`');
                proof {
                    assert(buf@ =~= pre_buf + seq!['`', '`']);
                }
                i += 2;
            } else if c == ',' && i + 1 < s.len() && s[i + 1] == ',' {
                if buf.len() > 0 {
                    buf.push(',');
                    buf.push(',');
                    proof {
                        assert(buf@ =~= pre_buf + seq![',', ',']);
                    }
                    i += 2;
                } else {
                    let comma: Vec<char> = vec![','];
                    let t = Token {
                        content: string_of(&comma),
                        token_type: TokenType::Punctuation,
                        position: i,
                    };
                    let ghost tv = t@;
                    proof {
                        assert(tv.content =~= seq![',']);
                    }
                    r.push(t);
                    i += 1;
                    bpos = i;
                    proof {
                        assert(buf@ =~= Seq::<char>::empty());
                        assert(token_views(r@) =~= pre_tokens + seq![tv]);
                        assert(pre_tokens + (seq![tv] + tok_from(s@, i as int, buf@, bpos as int))
                            =~= (pre_tokens + seq![tv]) + tok_from(s@, i as int, buf@, bpos as int));
                    }
                }
            } else if ws_char(c) {
                flush_word(&mut r, &mut buf, bpos);
                let one: Vec<char> = vec![c];
                let t = Token {
                    content: string_of(&one),
                    token_type: TokenType::Whitespace,
                    position: i,
                };
                let ghost tv = t@;
                proof {
                    assert(tv.content =~= seq![c]);
                }
                let ghost mid = token_views(r@);
                r.push(t);
                i += 1;
                bpos = i;
                proof {
                    assert(token_views(r@) =~= mid + seq![tv]);
                    lemma_tok_group(pre_tokens, pre_buf, pre_bpos, s@, i as int, c,
                        TokenType::Whitespace, r@, buf@, bpos as int);
                }
            } else if punct_char(c) {
                flush_word(&mut r, &mut buf, bpos);
                let one: Vec<char> = vec![c];
                let t = Token {
                    content: string_of(&one),
                    token_type: TokenType::Punctuation,
                    position: i,
                };
                let ghost tv = t@;
                proof {
                    assert(tv.content =~= seq![c]);
                }
                let ghost mid = token_views(r@);
                r.push(t);
                i += 1;
                bpos = i;
                proof {
                    assert(token_views(r@) =~= mid + seq![tv]);
                    lemma_tok_group(pre_tokens, pre_buf, pre_bpos, s@, i as int, c,
                        TokenType::Punctuation, r@, buf@, bpos as int);
                }
            } else if !word_char(c) && buf.len() > 0 {
                flush_word(&mut r, &mut buf, bpos);
                let one: Vec<char> = vec![c];
                let t = Token {
                    content: string_of(&one),
                    token_type: TokenType::Symbol,
                    position: i,
                };
                let ghost tv = t@;
                proof {
                    assert(tv.content =~= seq![c]);
                }
                let ghost mid = token_views(r@);
                r.push(t);
                i += 1;
                bpos = i;
                proof {
                    assert(token_views(r@) =~= mid + seq![tv]);
                    lemma_tok_group(pre_tokens, pre_buf, pre_bpos, s@, i as int, c,
                        TokenType::Symbol, r@, buf@, bpos as int);
                }
            } else {
                if buf.len() == 0 {
                    bpos = i;
                }
                buf.push(c);
                i += 1;
                proof {
                    assert(buf@ =~= pre_buf + seq![c]);
                }
            }
        }
        let ghost pre_buf = buf@;
        flush_word(&mut r, &mut buf, bpos);
        proof {
            assert(tok_from(s@, i as int, pre_buf, bpos as int) == flush_spec(
                pre_buf,
                bpos as int,
            ));
        }
        r
    }
}

/// All characters of the buffer are digits.
pub open spec fn all_digits(buf: Seq<char>) -> bool {
    forall|j: int| 0 <= j < buf.len() ==> is_digit_char(buf[j])
}

/// The token a non-empty word buffer closes into: a number when every
/// character is a digit, else a word.
pub open spec fn flush_spec(buf: Seq<char>, bpos: int) -> Seq<SToken> {
    if buf.len() == 0 {
        Seq::empty()
    } else {
        seq![
            SToken {
                content: buf,
                kind: if all_digits(buf) {
                    TokenType::Number
                } else {
                    TokenType::Word
                },
                pos: bpos,
            },
        ]
    }
}

/// The token transduction: a pending word buffer `buf` that started at
/// `bpos`, scanning the line from position `i`.  A `^` or `:` extends an
/// open word; a double backtick extends an open word that ends in `t` or `T`; a
/// `,,` extends an open word and is otherwise one comma of punctuation;
/// whitespace and punctuation close the word and stand alone; a symbol
/// closes the word; every other character accumulates.
pub open spec fn tok_from(s: Seq<char>, i: int, buf: Seq<char>, bpos: int) -> Seq<SToken>
    decreases s.len() - i,
{
    if i < 0 || i >= s.len() {
        flush_spec(buf, bpos)
    } else {
        let c = s[i];
        if buf.len() > 0 && c == '^' {
            tok_from(s, i + 1, buf + seq!['^'], bpos)
        } else if buf.len() > 0 && c == ':' {
            tok_from(s, i + 1, buf + seq![':'], bpos)
        } else if buf.len() > 0 && c == '`' && i + 2 <= s.len() && s[i + 1] == '`' && (buf[buf.len()
            - 1] == 'T' || buf[buf.len() - 1] == 't') {
            tok_from(s, i + 2, buf + seq!['`', '`'], bpos)
        } else if c == ',' && i + 2 <= s.len() && s[i + 1] == ',' {
            if buf.len() > 0 {
                tok_from(s, i + 2, buf + seq![',', ','], bpos)
            } else {
                seq![SToken { content: seq![','], kind: TokenType::Punctuation, pos: i }]
                    + tok_from(s, i + 1, Seq::empty(), i + 1)
            }
        } else if is_ws_char(c) {
            flush_spec(buf, bpos) + seq![
                SToken { content: seq![c], kind: TokenType::Whitespace, pos: i },
            ] + tok_from(s, i + 1, Seq::empty(), i + 1)
        } else if is_punct_char(c) {
            flush_spec(buf, bpos) + seq![
                SToken { content: seq![c], kind: TokenType::Punctuation, pos: i },
            ] + tok_from(s, i + 1, Seq::empty(), i + 1)
        } else if !is_word_char(c) && buf.len() > 0 {
            flush_spec(buf, bpos) + seq![
                SToken { content: seq![c], kind: TokenType::Symbol, pos: i },
            ] + tok_from(s, i + 1, Seq::empty(), i + 1)
        } else {
            tok_from(s, i + 1, buf + seq![c], if buf.len() == 0 {
                i
            } else {
                bpos
            })
        }
    }
}

/// Close the pending word buffer into a token, if it is non-empty.
fn flush_word(r: &mut Vec<Token>, buf: &mut Vec<char>, bpos: usize)
    ensures
        token_views(final(r)@) == token_views(old(r)@) + flush_spec(old(buf)@, bpos as int),
        final(buf)@ == Seq::<char>::empty(),
{
    if buf.len() == 0 {
        proof {
            assert(token_views(r@) =~= token_views(r@) + flush_spec(buf@, bpos as int));
        }
        return;
    }
    let mut digits = true;
    let mut j: usize = 0;
    while j < buf.len()
        invariant
            j <= buf.len(),
            digits == (forall|t: int| 0 <= t < j ==> is_digit_char(buf@[t])),
        decreases buf.len() - j,
    {
        if !digit_char(buf[j]) {
            digits = false;
            proof {
                assert(!is_digit_char(buf@[j as int]));
            }
            j = buf.len();
        } else {
            j += 1;
        }
    }
    let kind = if digits {
        TokenType::Number
    } else {
        TokenType::Word
    };
    let t = Token { content: string_of(buf), token_type: kind, position: bpos };
    r.push(t);
    buf.clear();
    proof {
        assert(token_views(r@) =~= token_views(old(r)@) + flush_spec(old(buf)@, bpos as int));
    }
}

/// After closing the word and emitting the one-character token of kind
/// `kind`, the produced tokens plus the rest of the transduction still give
/// the whole transduction.
proof fn lemma_tok_group(
    pre_tokens: Seq<SToken>,
    pre_buf: Seq<char>,
    pre_bpos: int,
    s: Seq<char>,
    i: int,
    c: char,
    kind: TokenType,
    now_r: Seq<Token>,
    now_buf: Seq<char>,
    now_bpos: int,
)
    requires
        token_views(now_r) == pre_tokens + flush_spec(pre_buf, pre_bpos) + seq![
            SToken { content: seq![c], kind: kind, pos: i - 1 },
        ],
        now_buf == Seq::<char>::empty(),
        now_bpos == i,
    ensures
        pre_tokens + (flush_spec(pre_buf, pre_bpos) + seq![
            SToken { content: seq![c], kind: kind, pos: i - 1 },
        ] + tok_from(s, i, Seq::empty(), i)) == token_views(now_r) + tok_from(
            s,
            i,
            now_buf,
            now_bpos,
        ),
{
    assert(pre_tokens + (flush_spec(pre_buf, pre_bpos) + seq![
        SToken { content: seq![c], kind: kind, pos: i - 1 },
    ] + tok_from(s, i, Seq::empty(), i)) =~= (pre_tokens + flush_spec(pre_buf, pre_bpos) + seq![
        SToken { content: seq![c], kind: kind, pos: i - 1 },
    ]) + tok_from(s, i, Seq::empty(), i));
}

} // verus!
