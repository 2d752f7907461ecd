//! The phonology stage: letter-level tokens to phonemes, phonemes into
//! syllables, and syllables into Bengali text.

use vstd::prelude::*;

use crate::chars::{chars_of, push_all, string_of};
use crate::definitions::{assoc, assoc_chars, numeral_table, pair_tab_ok};
use crate::phoneme::{Phoneme, PhonemeType};
use crate::syllable::Syllable;
use crate::tokenizer::{is_ch1, TokenPosition, TokenType};
use crate::transliterator::{digits_out};

verus! {

/// One letter-level token, as the phonology stage consumes it.
#[derive(Debug, Clone)]
pub struct LetterToken {
    /// The Roman text of the token.
    pub text: String,
    /// What kind of token this is.
    pub token_type: TokenType,
    /// Where in its word the token stood.
    pub position: Option<TokenPosition>,
}

/// Spec-level letter token.
pub struct SLetterToken {
    /// The Roman text of the token.
    pub text: Seq<char>,
    /// What kind of token this is.
    pub kind: TokenType,
    /// Where in its word the token stood.
    pub pos: Option<TokenPosition>,
}

impl View for LetterToken {
    type V = SLetterToken;

    open spec fn view(&self) -> SLetterToken {
        SLetterToken { text: self.text@, kind: self.token_type, pos: self.position }
    }
}

/// The views of a letter-token vector, index by index.
pub open spec fn lt_views(s: Seq<LetterToken>) -> Seq<SLetterToken> {
    Seq::new(s.len(), |i: int| s[i]@)
}

/// Spec-level phoneme.
#[verifier::ext_equal]
pub struct SPhoneme {
    /// The Roman representation.
    pub roman: Seq<char>,
    /// The Bengali representation.
    pub bengali: Seq<char>,
    /// What kind of phoneme this is.
    pub kind: PhonemeType,
    /// Where in its word the phoneme stood.
    pub pos: Option<TokenPosition>,
    /// The vowel diacritic attached to a consonant.
    pub vowel: Option<Seq<char>>,
    /// Whether the phoneme joins a conjunct.
    pub is_conjunct_former: bool,
    /// Whether a vowel follows the conjunct this phoneme joins.
    pub has_vowel_after_conjunct: bool,
    /// Whether a jo-phola attaches to this phoneme.
    pub has_ya_phala: bool,
    /// Whether a bo-phola attaches to this phoneme.
    pub has_bo_fola: bool,
    /// Whether this phoneme is a reph.
    pub is_reph: bool,
}

impl View for Phoneme {
    type V = SPhoneme;

    open spec fn view(&self) -> SPhoneme {
        SPhoneme {
            roman: self.roman@,
            bengali: self.bengali@,
            kind: self.phoneme_type,
            pos: self.position,
            vowel: match self.vowel {
                Some(v) => Some(v@),
                None => None,
            },
            is_conjunct_former: self.is_conjunct_former,
            has_vowel_after_conjunct: self.has_vowel_after_conjunct,
            has_ya_phala: self.has_ya_phala,
            has_bo_fola: self.has_bo_fola,
            is_reph: self.is_reph,
        }
    }
}

/// The views of a phoneme vector, index by index.
pub open spec fn ph_views(s: Seq<Phoneme>) -> Seq<SPhoneme> {
    Seq::new(s.len(), |i: int| s[i]@)
}

/// A bare spec phoneme, as `Phoneme::new` builds it.
pub open spec fn bare_phoneme(
    bengali: Seq<char>,
    kind: PhonemeType,
    pos: Option<TokenPosition>,
) -> SPhoneme {
    SPhoneme {
        roman: Seq::empty(),
        bengali: bengali,
        kind: kind,
        pos: pos,
        vowel: None,
        is_conjunct_former: false,
        has_vowel_after_conjunct: false,
        has_ya_phala: false,
        has_bo_fola: false,
        is_reph: false,
    }
}

/// The phonology stage's Roman-to-Bengali consonant letters.
pub open spec fn phon_consonant_table() -> Seq<(Seq<char>, Seq<char>)> {
    seq![
        (seq!['k'], seq!['\u{995}']),
        (seq!['k', 'h'], seq!['\u{996}']),
        (seq!['g'], seq!['\u{997}']),
        (seq!['g', 'h'], seq!['\u{998}']),
        (seq!['n', 'g'], seq!['\u{999}']),
        (seq!['c'], seq!['\u{99a}']),
        (seq!['c', 'h'], seq!['\u{99a}']),
        (seq!['c', 'h', 'h'], seq!['\u{99b}']),
        (seq!['j'], seq!['\u{99c}']),
        (seq!['j', 'h'], seq!['\u{99d}']),
        (seq!['T'], seq!['\u{99f}']),
        (seq!['T', 'h'], seq!['\u{9a0}']),
        (seq!['D'], seq!['\u{9a1}']),
        (seq!['D', 'h'], seq!['\u{9a2}']),
        (seq!['N'], seq!['\u{9a3}']),
        (seq!['t'], seq!['\u{9a4}']),
        (seq!['t', 'h'], seq!['\u{9a5}']),
        (seq!['d'], seq!['\u{9a6}']),
        (seq!['d', 'h'], seq!['\u{9a7}']),
        (seq!['n'], seq!['\u{9a8}']),
        (seq!['p'], seq!['\u{9aa}']),
        (seq!['p', 'h'], seq!['\u{9ab}']),
        (seq!['f'], seq!['\u{9ab}']),
        (seq!['b'], seq!['\u{9ac}']),
        (seq!['b', 'h'], seq!['\u{9ad}']),
        (seq!['m'], seq!['\u{9ae}']),
        (seq!['y'], seq!['\u{9af}', '\u{9bc}']),
        (seq!['r'], seq!['\u{9b0}']),
        (seq!['l'], seq!['\u{9b2}']),
        (seq!['s', 'h'], seq!['\u{9b6}']),
        (seq!['S'], seq!['\u{9b7}']),
        (seq!['s'], seq!['\u{9b8}']),
        (seq!['h'], seq!['\u{9b9}']),
        (seq!['v'], seq!['\u{9ad}']),
        (seq!['w'], seq!['\u{993}']),
        (seq!['z'], seq!['\u{9af}']),
        (seq!['Y'], seq!['\u{9af}']),
        (seq!['R'], seq!['\u{9a1}', '\u{9bc}']),
        (seq!['R', 'h'], seq!['\u{9a2}', '\u{9bc}']),
    ]
}

pub(crate) fn phon_consonant_chars() -> (r: Vec<(Vec<char>, Vec<char>)>)
    ensures
        pair_tab_ok(r@, phon_consonant_table()),
{
    let r: Vec<(Vec<char>, Vec<char>)> = vec![
        (vec!['k'], vec!['\u{995}']),
        (vec!['k', 'h'], vec!['\u{996}']),
        (vec!['g'], vec!['\u{997}']),
        (vec!['g', 'h'], vec!['\u{998}']),
        (vec!['n', 'g'], vec!['\u{999}']),
        (vec!['c'], vec!['\u{99a}']),
        (vec!['c', 'h'], vec!['\u{99a}']),
        (vec!['c', 'h', 'h'], vec!['\u{99b}']),
        (vec!['j'], vec!['\u{99c}']),
        (vec!['j', 'h'], vec!['\u{99d}']),
        (vec!['T'], vec!['\u{99f}']),
        (vec!['T', 'h'], vec!['\u{9a0}']),
        (vec!['D'], vec!['\u{9a1}']),
        (vec!['D', 'h'], vec!['\u{9a2}']),
        (vec!['N'], vec!['\u{9a3}']),
        (vec!['t'], vec!['\u{9a4}']),
        (vec!['t', 'h'], vec!['\u{9a5}']),
        (vec!['d'], vec!['\u{9a6}']),
        (vec!['d', 'h'], vec!['\u{9a7}']),
        (vec!['n'], vec!['\u{9a8}']),
        (vec!['p'], vec!['\u{9aa}']),
        (vec!['p', 'h'], vec!['\u{9ab}']),
        (vec!['f'], vec!['\u{9ab}']),
        (vec!['b'], vec!['\u{9ac}']),
        (vec!['b', 'h'], vec!['\u{9ad}']),
        (vec!['m'], vec!['\u{9ae}']),
        (vec!['y'], vec!['\u{9af}', '\u{9bc}']),
        (vec!['r'], vec!['\u{9b0}']),
        (vec!['l'], vec!['\u{9b2}']),
        (vec!['s', 'h'], vec!['\u{9b6}']),
        (vec!['S'], vec!['\u{9b7}']),
        (vec!['s'], vec!['\u{9b8}']),
        (vec!['h'], vec!['\u{9b9}']),
        (vec!['v'], vec!['\u{9ad}']),
        (vec!['w'], vec!['\u{993}']),
        (vec!['z'], vec!['\u{9af}']),
        (vec!['Y'], vec!['\u{9af}']),
        (vec!['R'], vec!['\u{9a1}', '\u{9bc}']),
        (vec!['R', 'h'], vec!['\u{9a2}', '\u{9bc}']),
    ];
    proof {
        assert forall|i: int| 0 <= i < r@.len() implies r@[i].0@ == phon_consonant_table()[i].0 && r@[i].1@ == phon_consonant_table()[i].1 by {
            assert(r@[0].0@ =~= phon_consonant_table()[0].0);
            assert(r@[0].1@ =~= phon_consonant_table()[0].1);
            assert(r@[1].0@ =~= phon_consonant_table()[1].0);
            assert(r@[1].1@ =~= phon_consonant_table()[1].1);
            assert(r@[2].0@ =~= phon_consonant_table()[2].0);
            assert(r@[2].1@ =~= phon_consonant_table()[2].1);
            assert(r@[3].0@ =~= phon_consonant_table()[3].0);
            assert(r@[3].1@ =~= phon_consonant_table()[3].1);
            assert(r@[4].0@ =~= phon_consonant_table()[4].0);
            assert(r@[4].1@ =~= phon_consonant_table()[4].1);
            assert(r@[5].0@ =~= phon_consonant_table()[5].0);
            assert(r@[5].1@ =~= phon_consonant_table()[5].1);
            assert(r@[6].0@ =~= phon_consonant_table()[6].0);
            assert(r@[6].1@ =~= phon_consonant_table()[6].1);
            assert(r@[7].0@ =~= phon_consonant_table()[7].0);
            assert(r@[7].1@ =~= phon_consonant_table()[7].1);
            assert(r@[8].0@ =~= phon_consonant_table()[8].0);
            assert(r@[8].1@ =~= phon_consonant_table()[8].1);
            assert(r@[9].0@ =~= phon_consonant_table()[9].0);
            assert(r@[9].1@ =~= phon_consonant_table()[9].1);
            assert(r@[10].0@ =~= phon_consonant_table()[10].0);
            assert(r@[10].1@ =~= phon_consonant_table()[10].1);
            assert(r@[11].0@ =~= phon_consonant_table()[11].0);
            assert(r@[11].1@ =~= phon_consonant_table()[11].1);
            assert(r@[12].0@ =~= phon_consonant_table()[12].0);
            assert(r@[12].1@ =~= phon_consonant_table()[12].1);
            assert(r@[13].0@ =~= phon_consonant_table()[13].0);
            assert(r@[13].1@ =~= phon_consonant_table()[13].1);
            assert(r@[14].0@ =~= phon_consonant_table()[14].0);
            assert(r@[14].1@ =~= phon_consonant_table()[14].1);
            assert(r@[15].0@ =~= phon_consonant_table()[15].0);
            assert(r@[15].1@ =~= phon_consonant_table()[15].1);
            assert(r@[16].0@ =~= phon_consonant_table()[16].0);
            assert(r@[16].1@ =~= phon_consonant_table()[16].1);
            assert(r@[17].0@ =~= phon_consonant_table()[17].0);
            assert(r@[17].1@ =~= phon_consonant_table()[17].1);
            assert(r@[18].0@ =~= phon_consonant_table()[18].0);
            assert(r@[18].1@ =~= phon_consonant_table()[18].1);
            assert(r@[19].0@ =~= phon_consonant_table()[19].0);
            assert(r@[19].1@ =~= phon_consonant_table()[19].1);
            assert(r@[20].0@ =~= phon_consonant_table()[20].0);
            assert(r@[20].1@ =~= phon_consonant_table()[20].1);
            assert(r@[21].0@ =~= phon_consonant_table()[21].0);
            assert(r@[21].1@ =~= phon_consonant_table()[21].1);
            assert(r@[22].0@ =~= phon_consonant_table()[22].0);
            assert(r@[22].1@ =~= phon_consonant_table()[22].1);
            assert(r@[23].0@ =~= phon_consonant_table()[23].0);
            assert(r@[23].1@ =~= phon_consonant_table()[23].1);
            assert(r@[24].0@ =~= phon_consonant_table()[24].0);
            assert(r@[24].1@ =~= phon_consonant_table()[24].1);
            assert(r@[25].0@ =~= phon_consonant_table()[25].0);
            assert(r@[25].1@ =~= phon_consonant_table()[25].1);
            assert(r@[26].0@ =~= phon_consonant_table()[26].0);
            assert(r@[26].1@ =~= phon_consonant_table()[26].1);
            assert(r@[27].0@ =~= phon_consonant_table()[27].0);
            assert(r@[27].1@ =~= phon_consonant_table()[27].1);
            assert(r@[28].0@ =~= phon_consonant_table()[28].0);
            assert(r@[28].1@ =~= phon_consonant_table()[28].1);
            assert(r@[29].0@ =~= phon_consonant_table()[29].0);
            assert(r@[29].1@ =~= phon_consonant_table()[29].1);
            assert(r@[30].0@ =~= phon_consonant_table()[30].0);
            assert(r@[30].1@ =~= phon_consonant_table()[30].1);
            assert(r@[31].0@ =~= phon_consonant_table()[31].0);
            assert(r@[31].1@ =~= phon_consonant_table()[31].1);
            assert(r@[32].0@ =~= phon_consonant_table()[32].0);
            assert(r@[32].1@ =~= phon_consonant_table()[32].1);
            assert(r@[33].0@ =~= phon_consonant_table()[33].0);
            assert(r@[33].1@ =~= phon_consonant_table()[33].1);
            assert(r@[34].0@ =~= phon_consonant_table()[34].0);
            assert(r@[34].1@ =~= phon_consonant_table()[34].1);
            assert(r@[35].0@ =~= phon_consonant_table()[35].0);
            assert(r@[35].1@ =~= phon_consonant_table()[35].1);
            assert(r@[36].0@ =~= phon_consonant_table()[36].0);
            assert(r@[36].1@ =~= phon_consonant_table()[36].1);
            assert(r@[37].0@ =~= phon_consonant_table()[37].0);
            assert(r@[37].1@ =~= phon_consonant_table()[37].1);
            assert(r@[38].0@ =~= phon_consonant_table()[38].0);
            assert(r@[38].1@ =~= phon_consonant_table()[38].1);
        }
    }
    r
}

/// The phonology stage's independent vowel forms.
pub open spec fn phon_vowel_ind_table() -> Seq<(Seq<char>, Seq<char>)> {
    seq![
        (seq!['o'], seq!['\u{985}']),
        (seq!['A'], seq!['\u{986}']),
        (seq!['i'], seq!['\u{987}']),
        (seq!['I'], seq!['\u{988}']),
        (seq!['u'], seq!['\u{989}']),
        (seq!['U'], seq!['\u{98a}']),
        (seq!['e'], seq!['\u{98f}']),
        (seq!['O', 'I'], seq!['\u{990}']),
        (seq!['O'], seq!['\u{993}']),
        (seq!['O', 'U'], seq!['\u{994}']),
        (seq!['r', 'r', 'i'], seq!['\u{98b}']),
        (seq!['a'], seq!['\u{986}']),
        (seq!['a', 'a'], seq!['\u{986}']),
        (seq!['o', 'i'], seq!['\u{990}']),
        (seq!['o', 'u'], seq!['\u{994}']),
        (seq!['a', 'i'], seq!['\u{986}', '\u{987}']),
        (seq!['a', 'u'], seq!['\u{986}', '\u{989}']),
        (seq!['a', 'e'], seq!['\u{986}', '\u{98f}']),
        (seq!['a', 'o'], seq!['\u{986}', '\u{993}']),
        (seq!['i', 'a'], seq!['\u{987}', '\u{9af}', '\u{9bc}', '\u{9be}']),
        (seq!['i', 'o'], seq!['\u{987}', '\u{993}']),
        (seq!['e', 'o'], seq!['\u{98f}', '\u{993}']),
    ]
}

pub(crate) fn phon_vowel_ind_chars() -> (r: Vec<(Vec<char>, Vec<char>)>)
    ensures
        pair_tab_ok(r@, phon_vowel_ind_table()),
{
    let r: Vec<(Vec<char>, Vec<char>)> = vec![
        (vec!['o'], vec!['\u{985}']),
        (vec!['A'], vec!['\u{986}']),
        (vec!['i'], vec!['\u{987}']),
        (vec!['I'], vec!['\u{988}']),
        (vec!['u'], vec!['\u{989}']),
        (vec!['U'], vec!['\u{98a}']),
        (vec!['e'], vec!['\u{98f}']),
        (vec!['O', 'I'], vec!['\u{990}']),
        (vec!['O'], vec!['\u{993}']),
        (vec!['O', 'U'], vec!['\u{994}']),
        (vec!['r', 'r', 'i'], vec!['\u{98b}']),
        (vec!['a'], vec!['\u{986}']),
        (vec!['a', 'a'], vec!['\u{986}']),
        (vec!['o', 'i'], vec!['\u{990}']),
        (vec!['o', 'u'], vec!['\u{994}']),
        (vec!['a', 'i'], vec!['\u{986}', '\u{987}']),
        (vec!['a', 'u'], vec!['\u{986}', '\u{989}']),
        (vec!['a', 'e'], vec!['\u{986}', '\u{98f}']),
        (vec!['a', 'o'], vec!['\u{986}', '\u{993}']),
        (vec!['i', 'a'], vec!['\u{987}', '\u{9af}', '\u{9bc}', '\u{9be}']),
        (vec!['i', 'o'], vec!['\u{987}', '\u{993}']),
        (vec!['e', 'o'], vec!['\u{98f}', '\u{993}']),
    ];
    proof {
        assert forall|i: int| 0 <= i < r@.len() implies r@[i].0@ == phon_vowel_ind_table()[i].0 && r@[i].1@ == phon_vowel_ind_table()[i].1 by {
            assert(r@[0].0@ =~= phon_vowel_ind_table()[0].0);
            assert(r@[0].1@ =~= phon_vowel_ind_table()[0].1);
            assert(r@[1].0@ =~= phon_vowel_ind_table()[1].0);
            assert(r@[1].1@ =~= phon_vowel_ind_table()[1].1);
            assert(r@[2].0@ =~= phon_vowel_ind_table()[2].0);
            assert(r@[2].1@ =~= phon_vowel_ind_table()[2].1);
            assert(r@[3].0@ =~= phon_vowel_ind_table()[3].0);
            assert(r@[3].1@ =~= phon_vowel_ind_table()[3].1);
            assert(r@[4].0@ =~= phon_vowel_ind_table()[4].0);
            assert(r@[4].1@ =~= phon_vowel_ind_table()[4].1);
            assert(r@[5].0@ =~= phon_vowel_ind_table()[5].0);
            assert(r@[5].1@ =~= phon_vowel_ind_table()[5].1);
            assert(r@[6].0@ =~= phon_vowel_ind_table()[6].0);
            assert(r@[6].1@ =~= phon_vowel_ind_table()[6].1);
            assert(r@[7].0@ =~= phon_vowel_ind_table()[7].0);
            assert(r@[7].1@ =~= phon_vowel_ind_table()[7].1);
            assert(r@[8].0@ =~= phon_vowel_ind_table()[8].0);
            assert(r@[8].1@ =~= phon_vowel_ind_table()[8].1);
            assert(r@[9].0@ =~= phon_vowel_ind_table()[9].0);
            assert(r@[9].1@ =~= phon_vowel_ind_table()[9].1);
            assert(r@[10].0@ =~= phon_vowel_ind_table()[10].0);
            assert(r@[10].1@ =~= phon_vowel_ind_table()[10].1);
            assert(r@[11].0@ =~= phon_vowel_ind_table()[11].0);
            assert(r@[11].1@ =~= phon_vowel_ind_table()[11].1);
            assert(r@[12].0@ =~= phon_vowel_ind_table()[12].0);
            assert(r@[12].1@ =~= phon_vowel_ind_table()[12].1);
            assert(r@[13].0@ =~= phon_vowel_ind_table()[13].0);
            assert(r@[13].1@ =~= phon_vowel_ind_table()[13].1);
            assert(r@[14].0@ =~= phon_vowel_ind_table()[14].0);
            assert(r@[14].1@ =~= phon_vowel_ind_table()[14].1);
            assert(r@[15].0@ =~= phon_vowel_ind_table()[15].0);
            assert(r@[15].1@ =~= phon_vowel_ind_table()[15].1);
            assert(r@[16].0@ =~= phon_vowel_ind_table()[16].0);
            assert(r@[16].1@ =~= phon_vowel_ind_table()[16].1);
            assert(r@[17].0@ =~= phon_vowel_ind_table()[17].0);
            assert(r@[17].1@ =~= phon_vowel_ind_table()[17].1);
            assert(r@[18].0@ =~= phon_vowel_ind_table()[18].0);
            assert(r@[18].1@ =~= phon_vowel_ind_table()[18].1);
            assert(r@[19].0@ =~= phon_vowel_ind_table()[19].0);
            assert(r@[19].1@ =~= phon_vowel_ind_table()[19].1);
            assert(r@[20].0@ =~= phon_vowel_ind_table()[20].0);
            assert(r@[20].1@ =~= phon_vowel_ind_table()[20].1);
            assert(r@[21].0@ =~= phon_vowel_ind_table()[21].0);
            assert(r@[21].1@ =~= phon_vowel_ind_table()[21].1);
        }
    }
    r
}

/// The phonology stage's dependent vowel forms.
pub open spec fn phon_vowel_dep_table() -> Seq<(Seq<char>, Seq<char>)> {
    seq![
        (seq!['o'], seq![]),
        (seq!['A'], seq!['\u{9be}']),
        (seq!['i'], seq!['\u{9bf}']),
        (seq!['I'], seq!['\u{9c0}']),
        (seq!['u'], seq!['\u{9c1}']),
        (seq!['U'], seq!['\u{9c2}']),
        (seq!['e'], seq!['\u{9c7}']),
        (seq!['O', 'I'], seq!['\u{9c8}']),
        (seq!['O'], seq!['\u{9cb}']),
        (seq!['O', 'U'], seq!['\u{9cc}']),
        (seq!['r', 'r', 'i'], seq!['\u{9c3}']),
        (seq!['a'], seq!['\u{9be}']),
        (seq!['a', 'a'], seq!['\u{9be}']),
        (seq!['o', 'i'], seq!['\u{9c8}']),
        (seq!['o', 'u'], seq!['\u{9cc}']),
    ]
}

pub(crate) fn phon_vowel_dep_chars() -> (r: Vec<(Vec<char>, Vec<char>)>)
    ensures
        pair_tab_ok(r@, phon_vowel_dep_table()),
{
    let r: Vec<(Vec<char>, Vec<char>)> = vec![
        (vec!['o'], vec![]),
        (vec!['A'], vec!['\u{9be}']),
        (vec!['i'], vec!['\u{9bf}']),
        (vec!['I'], vec!['\u{9c0}']),
        (vec!['u'], vec!['\u{9c1}']),
        (vec!['U'], vec!['\u{9c2}']),
        (vec!['e'], vec!['\u{9c7}']),
        (vec!['O', 'I'], vec!['\u{9c8}']),
        (vec!['O'], vec!['\u{9cb}']),
        (vec!['O', 'U'], vec!['\u{9cc}']),
        (vec!['r', 'r', 'i'], vec!['\u{9c3}']),
        (vec!['a'], vec!['\u{9be}']),
        (vec!['a', 'a'], vec!['\u{9be}']),
        (vec!['o', 'i'], vec!['\u{9c8}']),
        (vec!['o', 'u'], vec!['\u{9cc}']),
    ];
    proof {
        assert forall|i: int| 0 <= i < r@.len() implies r@[i].0@ == phon_vowel_dep_table()[i].0 && r@[i].1@ == phon_vowel_dep_table()[i].1 by {
            assert(r@[0].0@ =~= phon_vowel_dep_table()[0].0);
            assert(r@[0].1@ =~= phon_vowel_dep_table()[0].1);
            assert(r@[1].0@ =~= phon_vowel_dep_table()[1].0);
            assert(r@[1].1@ =~= phon_vowel_dep_table()[1].1);
            assert(r@[2].0@ =~= phon_vowel_dep_table()[2].0);
            assert(r@[2].1@ =~= phon_vowel_dep_table()[2].1);
            assert(r@[3].0@ =~= phon_vowel_dep_table()[3].0);
            assert(r@[3].1@ =~= phon_vowel_dep_table()[3].1);
            assert(r@[4].0@ =~= phon_vowel_dep_table()[4].0);
            assert(r@[4].1@ =~= phon_vowel_dep_table()[4].1);
            assert(r@[5].0@ =~= phon_vowel_dep_table()[5].0);
            assert(r@[5].1@ =~= phon_vowel_dep_table()[5].1);
            assert(r@[6].0@ =~= phon_vowel_dep_table()[6].0);
            assert(r@[6].1@ =~= phon_vowel_dep_table()[6].1);
            assert(r@[7].0@ =~= phon_vowel_dep_table()[7].0);
            assert(r@[7].1@ =~= phon_vowel_dep_table()[7].1);
            assert(r@[8].0@ =~= phon_vowel_dep_table()[8].0);
            assert(r@[8].1@ =~= phon_vowel_dep_table()[8].1);
            assert(r@[9].0@ =~= phon_vowel_dep_table()[9].0);
            assert(r@[9].1@ =~= phon_vowel_dep_table()[9].1);
            assert(r@[10].0@ =~= phon_vowel_dep_table()[10].0);
            assert(r@[10].1@ =~= phon_vowel_dep_table()[10].1);
            assert(r@[11].0@ =~= phon_vowel_dep_table()[11].0);
            assert(r@[11].1@ =~= phon_vowel_dep_table()[11].1);
            assert(r@[12].0@ =~= phon_vowel_dep_table()[12].0);
            assert(r@[12].1@ =~= phon_vowel_dep_table()[12].1);
            assert(r@[13].0@ =~= phon_vowel_dep_table()[13].0);
            assert(r@[13].1@ =~= phon_vowel_dep_table()[13].1);
            assert(r@[14].0@ =~= phon_vowel_dep_table()[14].0);
            assert(r@[14].1@ =~= phon_vowel_dep_table()[14].1);
        }
    }
    r
}

/// Punctuation substitutions of the phonology stage.
pub open spec fn phon_punct_table() -> Seq<(Seq<char>, Seq<char>)> {
    seq![
        (seq!['.'], seq!['\u{964}']),
        (seq!['?'], seq!['?']),
        (seq!['!'], seq!['!']),
        (seq![','], seq![',']),
        (seq![';'], seq![';']),
        (seq![':'], seq![':']),
        (seq!['('], seq!['(']),
        (seq![')'], seq![')']),
        (seq!['['], seq!['[']),
        (seq![']'], seq![']']),
        (seq!['{'], seq!['{']),
        (seq!['}'], seq!['}']),
        (seq!['-'], seq!['-']),
        (seq!['_'], seq!['_']),
        (seq!['"'], seq!['"']),
        (seq!['\u{27}'], seq!['\u{27}']),
    ]
}

pub(crate) fn phon_punct_chars() -> (r: Vec<(Vec<char>, Vec<char>)>)
    ensures
        pair_tab_ok(r@, phon_punct_table()),
{
    let r: Vec<(Vec<char>, Vec<char>)> = vec![
        (vec!['.'], vec!['\u{964}']),
        (vec!['?'], vec!['?']),
        (vec!['!'], vec!['!']),
        (vec![','], vec![',']),
        (vec![';'], vec![';']),
        (vec![':'], vec![':']),
        (vec!['('], vec!['(']),
        (vec![')'], vec![')']),
        (vec!['['], vec!['[']),
        (vec![']'], vec![']']),
        (vec!['{'], vec!['{']),
        (vec!['}'], vec!['}']),
        (vec!['-'], vec!['-']),
        (vec!['_'], vec!['_']),
        (vec!['"'], vec!['"']),
        (vec!['\u{27}'], vec!['\u{27}']),
    ];
    proof {
        assert forall|i: int| 0 <= i < r@.len() implies r@[i].0@ == phon_punct_table()[i].0 && r@[i].1@ == phon_punct_table()[i].1 by {
            assert(r@[0].0@ =~= phon_punct_table()[0].0);
            assert(r@[0].1@ =~= phon_punct_table()[0].1);
            assert(r@[1].0@ =~= phon_punct_table()[1].0);
            assert(r@[1].1@ =~= phon_punct_table()[1].1);
            assert(r@[2].0@ =~= phon_punct_table()[2].0);
            assert(r@[2].1@ =~= phon_punct_table()[2].1);
            assert(r@[3].0@ =~= phon_punct_table()[3].0);
            assert(r@[3].1@ =~= phon_punct_table()[3].1);
            assert(r@[4].0@ =~= phon_punct_table()[4].0);
            assert(r@[4].1@ =~= phon_punct_table()[4].1);
            assert(r@[5].0@ =~= phon_punct_table()[5].0);
            assert(r@[5].1@ =~= phon_punct_table()[5].1);
            assert(r@[6].0@ =~= phon_punct_table()[6].0);
            assert(r@[6].1@ =~= phon_punct_table()[6].1);
            assert(r@[7].0@ =~= phon_punct_table()[7].0);
            assert(r@[7].1@ =~= phon_punct_table()[7].1);
            assert(r@[8].0@ =~= phon_punct_table()[8].0);
            assert(r@[8].1@ =~= phon_punct_table()[8].1);
            assert(r@[9].0@ =~= phon_punct_table()[9].0);
            assert(r@[9].1@ =~= phon_punct_table()[9].1);
            assert(r@[10].0@ =~= phon_punct_table()[10].0);
            assert(r@[10].1@ =~= phon_punct_table()[10].1);
            assert(r@[11].0@ =~= phon_punct_table()[11].0);
            assert(r@[11].1@ =~= phon_punct_table()[11].1);
            assert(r@[12].0@ =~= phon_punct_table()[12].0);
            assert(r@[12].1@ =~= phon_punct_table()[12].1);
            assert(r@[13].0@ =~= phon_punct_table()[13].0);
            assert(r@[13].1@ =~= phon_punct_table()[13].1);
            assert(r@[14].0@ =~= phon_punct_table()[14].0);
            assert(r@[14].1@ =~= phon_punct_table()[14].1);
            assert(r@[15].0@ =~= phon_punct_table()[15].0);
            assert(r@[15].1@ =~= phon_punct_table()[15].1);
        }
    }
    r
}


/// Whether the token at `i` is an `r` acting as a reph: a consonant
/// follows, and no vowel follows that.
pub open spec fn reph_position(toks: Seq<SLetterToken>, i: int) -> bool {
    &&& toks[i].text == seq!['r']
    &&& i + 2 < toks.len()
    &&& toks[i + 1].kind == TokenType::Consonant
    &&& toks[i + 2].kind != TokenType::Vowel
}

/// Whether the token at `i` is a `y` acting as a jo-phola on the phoneme
/// before it.
pub open spec fn yaphala_position(toks: Seq<SLetterToken>, i: int) -> bool {
    &&& toks[i].text == seq!['y']
    &&& i > 0
    &&& toks[i - 1].kind == TokenType::Consonant
    &&& toks[i].pos != Some(TokenPosition::Initial)
}

/// The phonemes the stage builds from the tokens at `i` and later, with
/// `acc` already built: a reph `r` becomes the reph phoneme; a jo-phola `y`
/// marks the phoneme before it; a consonant takes the following vowel's
/// dependent form, and a final bare consonant the hasant; a vowel is
/// independent after anything but a consonant; whitespace, punctuation and
/// numbers pass through their own substitutions; an unknown consonant key
/// adds nothing.
pub open spec fn phonemes_from(
    toks: Seq<SLetterToken>,
    i: int,
    acc: Seq<SPhoneme>,
) -> Seq<SPhoneme>
    decreases toks.len() - i,
{
    if i < 0 || i >= toks.len() {
        acc
    } else {
        let t = toks[i];
        match t.kind {
            TokenType::Consonant => {
                if reph_position(toks, i) {
                    let ph = SPhoneme {
                        vowel: Some(seq!['\u{9cd}']),
                        is_reph: true,
                        ..bare_phoneme(seq!['\u{9b0}'], PhonemeType::Consonant, t.pos)
                    };
                    phonemes_from(toks, i + 1, acc.push(ph))
                } else if yaphala_position(toks, i) && acc.len() > 0 && acc.last().kind
                    == PhonemeType::Consonant {
                    let marked = SPhoneme { has_ya_phala: true, ..acc.last() };
                    phonemes_from(toks, i + 1, acc.update(acc.len() - 1, marked))
                } else {
                    match assoc(phon_consonant_table(), t.text) {
                        Some(b) => {
                            let next_vowel: Option<Seq<char>> = if i + 1 < toks.len() && toks[i
                                + 1].kind == TokenType::Vowel {
                                Some(toks[i + 1].text)
                            } else {
                                None
                            };
                            let vowel_str: Option<Seq<char>> = match next_vowel {
                                Some(vt) => assoc(phon_vowel_dep_table(), vt),
                                None => None,
                            };
                            let stopper = next_vowel == Some(seq!['o']);
                            let vowel_final: Option<Seq<char>> = if vowel_str is None && !stopper
                                && t.pos == Some(TokenPosition::Final) {
                                Some(seq!['\u{9cd}'])
                            } else {
                                vowel_str
                            };
                            let ph = SPhoneme {
                                vowel: vowel_final,
                                ..bare_phoneme(b, PhonemeType::Consonant, t.pos)
                            };
                            if next_vowel is Some {
                                phonemes_from(toks, i + 2, acc.push(ph))
                            } else {
                                phonemes_from(toks, i + 1, acc.push(ph))
                            }
                        },
                        None => phonemes_from(toks, i + 1, acc),
                    }
                }
            },
            TokenType::Vowel => {
                let independent = i == 0 || toks[i - 1].kind != TokenType::Consonant || t.pos
                    == Some(TokenPosition::Initial);
                if independent {
                    match assoc(phon_vowel_ind_table(), t.text) {
                        Some(b) => phonemes_from(
                            toks,
                            i + 1,
                            acc.push(bare_phoneme(b, PhonemeType::Vowel, t.pos)),
                        ),
                        None => phonemes_from(toks, i + 1, acc),
                    }
                } else if t.text == seq!['o'] && i + 1 < toks.len() && toks[i + 1].kind
                    == TokenType::Vowel {
                    phonemes_from(
                        toks,
                        i + 1,
                        acc.push(
                            bare_phoneme(
                                seq!['\u{985}'],
                                PhonemeType::Vowel,
                                Some(TokenPosition::Medial),
                            ),
                        ),
                    )
                } else {
                    phonemes_from(toks, i + 1, acc)
                }
            },
            TokenType::Whitespace => phonemes_from(
                toks,
                i + 1,
                acc.push(bare_phoneme(t.text, PhonemeType::Whitespace, None)),
            ),
            TokenType::Punctuation => {
                let b = if t.text.len() > 0 {
                    match assoc(phon_punct_table(), seq![t.text[0]]) {
                        Some(v) => v,
                        None => t.text,
                    }
                } else {
                    t.text
                };
                phonemes_from(toks, i + 1, acc.push(bare_phoneme(b, PhonemeType::Punctuation, None)))
            },
            TokenType::Number => phonemes_from(
                toks,
                i + 1,
                acc.push(bare_phoneme(digits_out(t.text), PhonemeType::Number, None)),
            ),
            _ => phonemes_from(
                toks,
                i + 1,
                acc.push(bare_phoneme(t.text, PhonemeType::Other, None)),
            ),
        }
    }
}

/// The phonology engine with its rule switches.
pub struct PhonologyEngine {
    /// Whether inherent vowels are filled in.
    pub handle_inherent_vowels: bool,
    /// Whether reph formation is applied.
    pub handle_reph: bool,
    /// Whether jo-phola marking is applied.
    pub handle_ya_phala: bool,
    /// Whether bo-phola marking is applied.
    pub handle_bo_fola: bool,
}

impl PhonologyEngine {
    /// An engine with every rule on.
    pub fn new() -> (r: PhonologyEngine)
        ensures
            r.handle_inherent_vowels && r.handle_reph && r.handle_ya_phala && r.handle_bo_fola,
    {
        PhonologyEngine {
            handle_inherent_vowels: true,
            handle_reph: true,
            handle_ya_phala: true,
            handle_bo_fola: true,
        }
    }

    /// Choose whether inherent vowels are filled in.
    pub fn with_inherent_vowels(self, enable: bool) -> (r: PhonologyEngine)
        ensures
            r.handle_inherent_vowels == enable,
            r.handle_reph == self.handle_reph,
            r.handle_ya_phala == self.handle_ya_phala,
            r.handle_bo_fola == self.handle_bo_fola,
    {
        PhonologyEngine { handle_inherent_vowels: enable, ..self }
    }

    /// Choose whether reph formation is applied.
    pub fn with_reph(self, enable: bool) -> (r: PhonologyEngine)
        ensures
            r.handle_reph == enable,
            r.handle_inherent_vowels == self.handle_inherent_vowels,
            r.handle_ya_phala == self.handle_ya_phala,
            r.handle_bo_fola == self.handle_bo_fola,
    {
        PhonologyEngine { handle_reph: enable, ..self }
    }

    /// Choose whether jo-phola marking is applied.
    pub fn with_ya_phala(self, enable: bool) -> (r: PhonologyEngine)
        ensures
            r.handle_ya_phala == enable,
            r.handle_inherent_vowels == self.handle_inherent_vowels,
            r.handle_reph == self.handle_reph,
            r.handle_bo_fola == self.handle_bo_fola,
    {
        PhonologyEngine { handle_ya_phala: enable, ..self }
    }

    /// Choose whether bo-phola marking is applied.
    pub fn with_bo_fola(self, enable: bool) -> (r: PhonologyEngine)
        ensures
            r.handle_bo_fola == enable,
            r.handle_inherent_vowels == self.handle_inherent_vowels,
            r.handle_reph == self.handle_reph,
            r.handle_ya_phala == self.handle_ya_phala,
    {
        PhonologyEngine { handle_bo_fola: enable, ..self }
    }

    /// Build phonemes from letter-level tokens; see `phonemes_from` for the
    /// exact transduction.
    #[verifier::rlimit(100)]
    pub fn tokens_to_phonemes(&self, tokens: &[LetterToken]) -> (r: Vec<Phoneme>)
        ensures
            ph_views(r@) == phonemes_from(lt_views(tokens@), 0, Seq::empty()),
    {
        let cons_tab = phon_consonant_chars();
        let ind_tab = phon_vowel_ind_chars();
        let dep_tab = phon_vowel_dep_chars();
        let punct_tab = phon_punct_chars();
        let num_tab = crate::definitions::numeral_chars();
        let ghost lts = lt_views(tokens@);
        let mut produced: Vec<Phoneme> = Vec::new();
        let mut i: usize = 0;
        proof {
            assert(ph_views(produced@) =~= Seq::<SPhoneme>::empty());
        }
        while i < tokens.len()
            invariant
                i <= tokens@.len(),
                lts == lt_views(tokens@),
                pair_tab_ok(cons_tab@, phon_consonant_table()),
                pair_tab_ok(ind_tab@, phon_vowel_ind_table()),
                pair_tab_ok(dep_tab@, phon_vowel_dep_table()),
                pair_tab_ok(punct_tab@, phon_punct_table()),
                pair_tab_ok(num_tab@, numeral_table()),
                phonemes_from(lts, 0, Seq::empty()) == phonemes_from(
                    lts,
                    i as int,
                    ph_views(produced@),
                ),
            decreases tokens.len() - i,
        {
            let ghost accv = ph_views(produced@);
            let t = vstd::slice::slice_index_get(tokens, i);
            let tc = chars_of(t.text.as_str());
            match t.token_type {
                TokenType::Consonant => {
                    let is_reph = is_ch1(&tc, 'r') && tokens.len() - i > 2
                        && vstd::slice::slice_index_get(tokens, i + 1).token_type
                        == TokenType::Consonant && vstd::slice::slice_index_get(
                        tokens,
                        i + 2,
                    ).token_type != TokenType::Vowel;
                    if is_reph {
                        let rb: Vec<char> = vec!['\u{9b0}'];
                        let hv: Vec<char> = vec!['\u{9cd}'];
                        let mut ph = Phoneme::new(
                            string_of(&rb),
                            PhonemeType::Consonant,
                            t.position,
                        );
                        ph.vowel = Some(string_of(&hv));
                        ph.is_reph = true;
                        proof {
                            assert(ph@.bengali =~= seq!['\u{9b0}']);
                            assert(ph@.vowel->Some_0 =~= seq!['\u{9cd}']);
                            assert(reph_position(lts, i as int));
                            assert(ph@ == SPhoneme {
                                vowel: Some(seq!['\u{9cd}']),
                                is_reph: true,
                                ..bare_phoneme(
                                    seq!['\u{9b0}'],
                                    PhonemeType::Consonant,
                                    lts[i as int].pos,
                                )
                            });
                            assert(ph_views(produced@.push(ph)) =~= accv.push(ph@));
                        }
                        produced.push(ph);
                        i += 1;
                    } else {
                        let is_ya = is_ch1(&tc, 'y') && i > 0 && vstd::slice::slice_index_get(
                            tokens,
                            i - 1,
                        ).token_type == TokenType::Consonant && !matches!(
                            t.position,
                            Some(TokenPosition::Initial),
                        );
                        proof {
                            assert(is_ya == yaphala_position(lts, i as int));
                        }
                        let last_is_con = produced.len() > 0 && produced[produced.len()
                            - 1].phoneme_type == PhonemeType::Consonant;
                        if is_ya && last_is_con {
                            let li = produced.len() - 1;
                            let mut marked = crate::syllable::clone_phoneme(&produced[li]);
                            marked.has_ya_phala = true;
                            proof {
                                assert(accv.last() == produced@[li as int]@);
                                assert(marked@ == SPhoneme { has_ya_phala: true, ..accv.last() });
                            }
                            produced.set(li, marked);
                            proof {
                                assert(ph_views(produced@) =~= accv.update(
                                    accv.len() - 1,
                                    SPhoneme { has_ya_phala: true, ..accv.last() },
                                ));
                            }
                            i += 1;
                        } else {
                            match assoc_chars(&cons_tab, Ghost(phon_consonant_table()), &tc) {
                                Some(b) => {
                                    let next_vowel: Option<Vec<char>> = if i + 1 < tokens.len()
                                        && vstd::slice::slice_index_get(
                                        tokens,
                                        i + 1,
                                    ).token_type == TokenType::Vowel {
                                        Some(
                                            chars_of(
                                                vstd::slice::slice_index_get(
                                                    tokens,
                                                    i + 1,
                                                ).text.as_str(),
                                            ),
                                        )
                                    } else {
                                        None
                                    };
                                    let vowel_str: Option<Vec<char>> = match &next_vowel {
                                        Some(vt) => assoc_chars(
                                            &dep_tab,
                                            Ghost(phon_vowel_dep_table()),
                                            vt,
                                        ),
                                        None => None,
                                    };
                                    let stopper = match &next_vowel {
                                        Some(vt) => is_ch1(vt, 'o'),
                                        None => false,
                                    };
                                    let is_final = matches!(
                                        t.position,
                                        Some(TokenPosition::Final),
                                    );
                                    let mut ph = Phoneme::new(
                                        string_of(&b),
                                        PhonemeType::Consonant,
                                        t.position,
                                    );
                                    let had_vowel_str = vowel_str.is_some();
                                    ph.vowel = match vowel_str {
                                        Some(v) => Some(string_of(&v)),
                                        None => {
                                            if !stopper && is_final {
                                                let hv: Vec<char> = vec!['\u{9cd}'];
                                                proof {
                                                    assert(hv@ =~= seq!['\u{9cd}']);
                                                }
                                                Some(string_of(&hv))
                                            } else {
                                                None
                                            }
                                        },
                                    };
                                    let had_next = next_vowel.is_some();
                                    produced.push(ph);
                                    proof {
                                        assert(ph_views(produced@) =~= accv.push(
                                            produced@[produced@.len() - 1]@,
                                        ));
                                    }
                                    if had_next {
                                        i += 2;
                                    } else {
                                        i += 1;
                                    }
                                },
                                None => {
                                    i += 1;
                                },
                            }
                        }
                    }
                },
                TokenType::Vowel => {
                    let independent = i == 0 || vstd::slice::slice_index_get(
                        tokens,
                        i - 1,
                    ).token_type != TokenType::Consonant || matches!(
                        t.position,
                        Some(TokenPosition::Initial),
                    );
                    if independent {
                        match assoc_chars(&ind_tab, Ghost(phon_vowel_ind_table()), &tc) {
                            Some(b) => {
                                let ph = Phoneme::new(
                                    string_of(&b),
                                    PhonemeType::Vowel,
                                    t.position,
                                );
                                produced.push(ph);
                                proof {
                                    assert(ph_views(produced@) =~= accv.push(
                                        produced@[produced@.len() - 1]@,
                                    ));
                                }
                            },
                            None => {},
                        }
                        i += 1;
                    } else if is_ch1(&tc, 'o') && i + 1 < tokens.len()
                        && vstd::slice::slice_index_get(tokens, i + 1).token_type
                        == TokenType::Vowel {
                        let ib: Vec<char> = vec!['\u{985}'];
                        let ph = Phoneme::new(
                            string_of(&ib),
                            PhonemeType::Vowel,
                            Some(TokenPosition::Medial),
                        );
                        proof {
                            assert(ph@.bengali =~= seq!['\u{985}']);
                        }
                        produced.push(ph);
                        proof {
                            assert(ph_views(produced@) =~= accv.push(
                                produced@[produced@.len() - 1]@,
                            ));
                        }
                        i += 1;
                    } else {
                        i += 1;
                    }
                },
                TokenType::Whitespace => {
                    let ph = Phoneme::new(t.text.clone(), PhonemeType::Whitespace, None);
                    produced.push(ph);
                    proof {
                        assert(ph_views(produced@) =~= accv.push(produced@[produced@.len() - 1]@));
                    }
                    i += 1;
                },
                TokenType::Punctuation => {
                    let b: String = if tc.len() > 0 {
                        let one: Vec<char> = vec![tc[0]];
                        proof {
                            assert(one@ =~= seq![lts[i as int].text[0]]);
                        }
                        match assoc_chars(&punct_tab, Ghost(phon_punct_table()), &one) {
                            Some(v) => string_of(&v),
                            None => t.text.clone(),
                        }
                    } else {
                        t.text.clone()
                    };
                    let ph = Phoneme::new(b, PhonemeType::Punctuation, None);
                    produced.push(ph);
                    proof {
                        assert(ph_views(produced@) =~= accv.push(produced@[produced@.len() - 1]@));
                    }
                    i += 1;
                },
                TokenType::Number => {
                    let b = crate::transliterator::render_digits(&tc, &num_tab);
                    let ph = Phoneme::new(string_of(&b), PhonemeType::Number, None);
                    produced.push(ph);
                    proof {
                        assert(ph_views(produced@) =~= accv.push(produced@[produced@.len() - 1]@));
                    }
                    i += 1;
                },
                _ => {
                    let ph = Phoneme::new(t.text.clone(), PhonemeType::Other, None);
                    produced.push(ph);
                    proof {
                        assert(ph_views(produced@) =~= accv.push(produced@[produced@.len() - 1]@));
                    }
                    i += 1;
                },
            }
        }
        produced
    }
}

/// Spec-level syllable.
#[verifier::ext_equal]
pub struct SSyllable {
    /// Consonants, in order.
    pub consonants: Seq<SPhoneme>,
    /// The vowel, if set.
    pub vowel: Option<SPhoneme>,
    /// Modifiers, in order.
    pub modifiers: Seq<SPhoneme>,
    /// The special phoneme, if set.
    pub special: Option<SPhoneme>,
    /// Whether the syllable stands alone.
    pub standalone: bool,
    /// Whether a reph precedes it.
    pub preceding_reph: bool,
    /// Whether it carries a reph.
    pub reph: bool,
    /// Whether it carries a jo-phola.
    pub ya_phala: bool,
    /// Whether it carries a bo-phola.
    pub bo_fola: bool,
}

impl View for Syllable {
    type V = SSyllable;

    open spec fn view(&self) -> SSyllable {
        SSyllable {
            consonants: ph_views(self.consonants@),
            vowel: match self.vowel {
                Some(v) => Some(v@),
                None => None,
            },
            modifiers: ph_views(self.modifiers@),
            special: match self.special {
                Some(p) => Some(p@),
                None => None,
            },
            standalone: self.standalone,
            preceding_reph: self.preceding_reph,
            reph: self.reph,
            ya_phala: self.ya_phala,
            bo_fola: self.bo_fola,
        }
    }
}

/// The views of a syllable vector, index by index.
pub open spec fn syl_views(s: Seq<Syllable>) -> Seq<SSyllable> {
    Seq::new(s.len(), |i: int| s[i]@)
}

/// The empty spec syllable.
pub open spec fn empty_ssyl() -> SSyllable {
    SSyllable {
        consonants: Seq::empty(),
        vowel: None,
        modifiers: Seq::empty(),
        special: None,
        standalone: false,
        preceding_reph: false,
        reph: false,
        ya_phala: false,
        bo_fola: false,
    }
}

/// Whether nothing at all is set in the spec syllable.
pub open spec fn ssyl_is_empty(s: SSyllable) -> bool {
    s.consonants.len() == 0 && s.vowel is None && s.modifiers.len() == 0 && s.special is None
}

/// Whether the phoneme is the saved reph form.
pub open spec fn is_reph_phoneme(p: SPhoneme) -> bool {
    p.kind == PhonemeType::Consonant && p.bengali == seq!['\u{9b0}'] && p.vowel == Some(
        seq!['\u{9cd}'],
    ) && p.is_reph
}

/// The syllables built from the phonemes at `i` and later: a reph phoneme
/// is saved and marks the next fresh syllable; a consonant closes a
/// vowel-less syllable and starts collecting; a vowel attaches to open
/// consonants or stands alone; a modifier joins the open syllable;
/// anything else stands alone as a special syllable.
pub open spec fn syllables_from(
    ph: Seq<SPhoneme>,
    i: int,
    syls: Seq<SSyllable>,
    cur: SSyllable,
    reph: Option<SPhoneme>,
) -> Seq<SSyllable>
    decreases ph.len() - i,
{
    if i < 0 || i >= ph.len() {
        if !ssyl_is_empty(cur) {
            syls.push(cur)
        } else {
            syls
        }
    } else {
        let p = ph[i];
        if is_reph_phoneme(p) {
            syllables_from(ph, i + 1, syls, cur, Some(p))
        } else {
            match p.kind {
                PhonemeType::Consonant => {
                    let (syls1, cur1) = if cur.consonants.len() > 0 && cur.vowel is None {
                        (syls.push(cur), empty_ssyl())
                    } else {
                        (syls, cur)
                    };
                    let (cur2, reph2) = if reph is Some && cur1.consonants.len() == 0 {
                        (SSyllable { preceding_reph: true, ..cur1 }, None::<SPhoneme>)
                    } else {
                        (cur1, reph)
                    };
                    let cur3 = SSyllable { consonants: cur2.consonants.push(p), ..cur2 };
                    syllables_from(ph, i + 1, syls1, cur3, reph2)
                },
                PhonemeType::Vowel => {
                    if cur.consonants.len() > 0 {
                        syllables_from(ph, i + 1, syls, SSyllable { vowel: Some(p), ..cur }, reph)
                    } else {
                        let vs = SSyllable { vowel: Some(p), ..empty_ssyl() };
                        syllables_from(ph, i + 1, syls.push(vs), empty_ssyl(), reph)
                    }
                },
                PhonemeType::Modifier => {
                    syllables_from(
                        ph,
                        i + 1,
                        syls,
                        SSyllable { modifiers: cur.modifiers.push(p), ..cur },
                        reph,
                    )
                },
                _ => {
                    let ss = SSyllable { special: Some(p), ..empty_ssyl() };
                    syllables_from(ph, i + 1, syls.push(ss), empty_ssyl(), reph)
                },
            }
        }
    }
}

/// The syllable-level rules: fill in the inherent vowel of a bare
/// syllable, and lift the reph, jo-phola and bo-phola marks of the
/// consonants onto the syllable.
pub open spec fn rule_fill(s: SSyllable) -> SSyllable {
    let conjunct_only = sph_conjunct_only(s);
    let has_o = exists|i: int|
        0 <= i < s.consonants.len() && (#[trigger] s.consonants[i]).vowel == Some(
            Seq::<char>::empty(),
        );
    if s.consonants.len() > 0 && s.vowel is None && !conjunct_only && !has_o {
        SSyllable {
            vowel: Some(bare_phoneme(seq!['\u{985}'], PhonemeType::Vowel, None)),
            ..s
        }
    } else {
        s
    }
}

/// The reph-lifting rule.
pub open spec fn rule_reph(s: SSyllable) -> SSyllable {
    let has_ra = exists|i: int|
        0 <= i < s.consonants.len() && (#[trigger] s.consonants[i]).bengali == seq![
            '\u{9b0}',
        ];
    let has_hasanta = exists|i: int|
        0 <= i < s.consonants.len() && (#[trigger] s.consonants[i]).vowel == Some(
            seq!['\u{9cd}'],
        );
    if has_ra && has_hasanta {
        SSyllable { reph: true, ..s }
    } else {
        s
    }
}

/// The jo-phola-lifting rule.
pub open spec fn rule_ya(s: SSyllable) -> SSyllable {
    if exists|i: int| 0 <= i < s.consonants.len() && (#[trigger] s.consonants[i]).has_ya_phala {
        SSyllable { ya_phala: true, ..s }
    } else {
        s
    }
}

/// The bo-phola-lifting rule.
pub open spec fn rule_bo(s: SSyllable) -> SSyllable {
    if exists|i: int| 0 <= i < s.consonants.len() && (#[trigger] s.consonants[i]).has_bo_fola {
        SSyllable { bo_fola: true, ..s }
    } else {
        s
    }
}

/// All four syllable-level rules in order.
pub open spec fn syllable_rules(s: SSyllable) -> SSyllable {
    rule_bo(rule_ya(rule_reph(rule_fill(s))))
}

/// What `organize_into_syllables` yields: the grouping, then the
/// syllable-level rules where any of them is switched on.
pub open spec fn organized(engine: PhonologyEngine, ph: Seq<SPhoneme>) -> Seq<SSyllable> {
    let base = syllables_from(ph, 0, Seq::empty(), empty_ssyl(), None);
    if engine.handle_reph || engine.handle_ya_phala || engine.handle_bo_fola {
        Seq::new(base.len(), |i: int| syllable_rules(base[i]))
    } else {
        base
    }
}

/// A spec phoneme carrying the empty vowel: a compound stopper.
pub open spec fn sph_is_stopper(p: SPhoneme) -> bool {
    p.vowel == Some(Seq::<char>::empty())
}

/// The Bengali letters of the spec phonemes from `n` on, concatenated.
pub open spec fn sph_bengalis_from(s: Seq<SPhoneme>, n: int) -> Seq<char>
    decreases s.len() - n,
{
    if n < 0 || n >= s.len() {
        Seq::empty()
    } else {
        s[n].bengali + sph_bengalis_from(s, n + 1)
    }
}

/// The Bengali letters of the spec phonemes from `n` on, a hasant between
/// each pair.
pub open spec fn sph_joined_from(s: Seq<SPhoneme>, n: int) -> Seq<char>
    decreases s.len() - n,
{
    if n < 0 || n >= s.len() {
        Seq::empty()
    } else if n == s.len() - 1 {
        s[n].bengali
    } else {
        s[n].bengali + seq!['\u{9cd}'] + sph_joined_from(s, n + 1)
    }
}

/// The consonant text of a spec syllable.
pub open spec fn sph_consonant_text(s: Seq<SPhoneme>) -> Seq<char> {
    if s.len() == 0 {
        Seq::empty()
    } else if exists|i: int| 0 <= i < s.len() && sph_is_stopper(#[trigger] s[i]) {
        sph_bengalis_from(s, 0)
    } else if s.len() > 1 {
        sph_joined_from(s, 0)
    } else {
        s[0].bengali
    }
}

/// The conjunct text of the spec phonemes from `n` on.
pub open spec fn sph_conjunct_text_from(s: Seq<SPhoneme>, n: int) -> Seq<char>
    decreases s.len() - n,
{
    if n < 0 || n >= s.len() {
        Seq::empty()
    } else {
        let p = s[n];
        let tail = sph_conjunct_text_from(s, n + 1);
        if sph_is_stopper(p) {
            p.bengali + tail
        } else if n < s.len() - 1 {
            p.bengali + seq!['\u{9cd}'] + tail
        } else if p.vowel is None || p.vowel == Some(seq!['\u{9cd}']) {
            p.bengali + seq!['\u{9cd}'] + tail
        } else {
            p.bengali + p.vowel->Some_0 + tail
        }
    }
}

/// The dependent diacritic of an independent vowel letter; the inherent
/// vowel and anything unknown draw nothing.
pub open spec fn diacritic_of(v: Seq<char>) -> Seq<char> {
    if v == seq!['\u{985}'] {
        Seq::empty()
    } else if v == seq!['\u{986}'] {
        seq!['\u{9be}']
    } else if v == seq!['\u{987}'] {
        seq!['\u{9bf}']
    } else if v == seq!['\u{988}'] {
        seq!['\u{9c0}']
    } else if v == seq!['\u{989}'] {
        seq!['\u{9c1}']
    } else if v == seq!['\u{98a}'] {
        seq!['\u{9c2}']
    } else if v == seq!['\u{98f}'] {
        seq!['\u{9c7}']
    } else if v == seq!['\u{990}'] {
        seq!['\u{9c8}']
    } else if v == seq!['\u{993}'] {
        seq!['\u{9cb}']
    } else if v == seq!['\u{994}'] {
        seq!['\u{9cc}']
    } else if v == seq!['\u{98b}'] {
        seq!['\u{9c3}']
    } else {
        Seq::empty()
    }
}

/// Whether the syllable holds a conjunct former and no vowel.
pub open spec fn sph_conjunct_only(s: SSyllable) -> bool {
    s.consonants.len() > 0 && (exists|i: int|
        0 <= i < s.consonants.len() && (#[trigger] s.consonants[i]).is_conjunct_former)
        && s.vowel is None
}

/// What one syllable formats to: its conjunct text when it is a bare
/// conjunct; otherwise its consonant text, the pholas, the last
/// consonant's attached vowel, and the syllable vowel's diacritic; a
/// consonant-less syllable writes its vowel; a reph stands first, before
/// its host's glyphs.
pub open spec fn fmt_syl(s: SSyllable) -> Seq<char> {
    let base = if s.consonants.len() > 0 {
        if sph_conjunct_only(s) {
            sph_conjunct_text_from(s.consonants, 0)
        } else {
            let last = s.consonants[s.consonants.len() - 1];
            let attached = match last.vowel {
                Some(vs) => if vs.len() > 0 && vs != seq!['\u{9cd}'] {
                    vs
                } else {
                    Seq::<char>::empty()
                },
                None => Seq::<char>::empty(),
            };
            let last_has_real = last.vowel matches Some(vs) && vs != seq!['\u{9cd}'] && vs.len()
                > 0;
            let dia = if s.vowel is Some && !last_has_real {
                diacritic_of(s.vowel->Some_0.bengali)
            } else {
                Seq::<char>::empty()
            };
            sph_consonant_text(s.consonants) + (if s.ya_phala {
                seq!['\u{9cd}', '\u{9af}']
            } else {
                Seq::<char>::empty()
            }) + (if s.bo_fola {
                seq!['\u{9cd}', '\u{9ac}']
            } else {
                Seq::<char>::empty()
            }) + attached + dia
        }
    } else if s.vowel is Some {
        s.vowel->Some_0.bengali
    } else {
        Seq::<char>::empty()
    };
    (if s.reph {
        seq!['\u{9b0}', '\u{9cd}']
    } else {
        Seq::<char>::empty()
    }) + base
}

/// What the syllables from `n` on format to, concatenated.
pub open spec fn fmt_from(syls: Seq<SSyllable>, n: int) -> Seq<char>
    decreases syls.len() - n,
{
    if n < 0 || n >= syls.len() {
        Seq::empty()
    } else {
        fmt_syl(syls[n]) + fmt_from(syls, n + 1)
    }
}

/// The view of a saved reph phoneme.
pub open spec fn opt_ph_view(r: Option<Phoneme>) -> Option<SPhoneme> {
    match r {
        Some(p) => Some(p@),
        None => None,
    }
}

/// `bengalis_from` over phonemes is `sph_bengalis_from` over their views.
proof fn lemma_bengalis_bridge(s: Seq<Phoneme>, n: int)
    ensures
        crate::syllable::bengalis_from(s, n) == sph_bengalis_from(ph_views(s), n),
    decreases s.len() - n,
{
    if n < 0 || n >= s.len() {
    } else {
        lemma_bengalis_bridge(s, n + 1);
    }
}

/// `joined_from` over phonemes is `sph_joined_from` over their views.
proof fn lemma_joined_bridge(s: Seq<Phoneme>, n: int)
    ensures
        crate::syllable::joined_from(s, n) == sph_joined_from(ph_views(s), n),
    decreases s.len() - n,
{
    if n < 0 || n >= s.len() {
    } else {
        lemma_joined_bridge(s, n + 1);
    }
}

/// A phoneme is a stopper exactly when its view is.
proof fn lemma_stopper_bridge(s: Seq<Phoneme>)
    ensures
        forall|i: int|
            0 <= i < s.len() ==> (crate::syllable::is_stopper(#[trigger] s[i]) == sph_is_stopper(
                ph_views(s)[i],
            )),
{
    assert forall|i: int|
        0 <= i < s.len() implies (crate::syllable::is_stopper(#[trigger] s[i]) == sph_is_stopper(
        ph_views(s)[i],
    )) by {
        match s[i].vowel {
            Some(v) => {
                if v@.len() == 0 {
                    assert(v@ =~= Seq::<char>::empty());
                }
            },
            None => {},
        }
    }
}

/// `consonant_text_spec` over phonemes is `sph_consonant_text` over views.
proof fn lemma_consonant_text_bridge(s: Seq<Phoneme>)
    ensures
        crate::syllable::consonant_text_spec(s) == sph_consonant_text(ph_views(s)),
{
    lemma_stopper_bridge(s);
    lemma_bengalis_bridge(s, 0);
    lemma_joined_bridge(s, 0);
    if s.len() == 0 {
        assert(sph_consonant_text(ph_views(s)) =~= crate::syllable::consonant_text_spec(s));
    } else {
        if exists|i: int| 0 <= i < s.len() && crate::syllable::is_stopper(#[trigger] s[i]) {
            let w = choose|i: int| 0 <= i < s.len() && crate::syllable::is_stopper(#[trigger] s[i]);
            assert(sph_is_stopper(ph_views(s)[w]));
        }
        if exists|i: int| 0 <= i < ph_views(s).len() && sph_is_stopper(#[trigger] ph_views(s)[i]) {
            let w = choose|i: int|
                0 <= i < ph_views(s).len() && sph_is_stopper(#[trigger] ph_views(s)[i]);
            assert(crate::syllable::is_stopper(s[w]));
        }
    }
}

/// `conjunct_text_from` over phonemes is `sph_conjunct_text_from` over views.
proof fn lemma_conjunct_text_bridge(s: Seq<Phoneme>, n: int)
    ensures
        crate::syllable::conjunct_text_from(s, n) == sph_conjunct_text_from(ph_views(s), n),
    decreases s.len() - n,
{
    if n < 0 || n >= s.len() {
    } else {
        lemma_conjunct_text_bridge(s, n + 1);
        match s[n].vowel {
            Some(v) => {
                if v@.len() == 0 {
                    assert(v@ =~= Seq::<char>::empty());
                }
            },
            None => {},
        }
    }
}

impl PhonologyEngine {
    /// Group phonemes into syllables and apply the syllable-level rules;
    /// see `organized` for the exact grouping.
    #[verifier::rlimit(100)]
    pub fn organize_into_syllables(&self, phonemes: &[Phoneme]) -> (r: Vec<Syllable>)
        ensures
            syl_views(r@) == organized(*self, ph_views(phonemes@)),
    {
        let ghost phs = ph_views(phonemes@);
        let mut syls: Vec<Syllable> = Vec::new();
        let mut cur = Syllable::new();
        let mut reph: Option<Phoneme> = None;
        proof {
            assert(syl_views(syls@) =~= Seq::<SSyllable>::empty());
            assert(cur@ =~= empty_ssyl());
        }
        let mut i: usize = 0;
        while i < phonemes.len()
            invariant
                i <= phonemes@.len(),
                phs == ph_views(phonemes@),
                syllables_from(phs, 0, Seq::empty(), empty_ssyl(), None) == syllables_from(
                    phs,
                    i as int,
                    syl_views(syls@),
                    cur@,
                    opt_ph_view(reph),
                ),
            decreases phonemes.len() - i,
        {
            let ghost pre_syls = syl_views(syls@);
            let ghost pre_cur = cur@;
            let ghost pre_reph = opt_ph_view(reph);
            let p = vstd::slice::slice_index_get(phonemes, i);
            let bc = chars_of(p.bengali.as_str());
            let has_hasant_vowel = match &p.vowel {
                Some(v) => {
                    let vc = chars_of(v.as_str());
                    is_ch1(&vc, '\u{9cd}')
                },
                None => false,
            };
            let is_rph = p.phoneme_type == PhonemeType::Consonant && is_ch1(&bc, '\u{9b0}')
                && has_hasant_vowel && p.is_reph;
            proof {
                assert(is_rph == is_reph_phoneme(phs[i as int]));
            }
            if is_rph {
                reph = Some(crate::syllable::clone_phoneme(p));
                i += 1;
            } else {
                match p.phoneme_type {
                    PhonemeType::Consonant => {
                        if cur.has_consonants() && !cur.has_vowel() {
                            let finished = cur;
                            cur = Syllable::new();
                            syls.push(finished);
                            proof {
                                assert(syl_views(syls@) =~= pre_syls.push(pre_cur));
                                assert(cur@ =~= empty_ssyl());
                            }
                        }
                        let ghost mid_syls = syl_views(syls@);
                        let ghost mid_cur = cur@;
                        if reph.is_some() && !cur.has_consonants() {
                            cur.set_has_preceding_reph(true);
                            reph = None;
                            proof {
                                assert(cur@ =~= SSyllable { preceding_reph: true, ..mid_cur });
                            }
                        }
                        let ghost mid_cur2 = cur@;
                        cur.add_consonant(crate::syllable::clone_phoneme(p));
                        proof {
                            assert(ph_views(cur.consonants@) =~= mid_cur2.consonants.push(
                                phs[i as int],
                            ));
                            assert(cur@ =~= SSyllable {
                                consonants: mid_cur2.consonants.push(phs[i as int]),
                                ..mid_cur2
                            });
                        }
                        i += 1;
                    },
                    PhonemeType::Vowel => {
                        if cur.has_consonants() {
                            let ghost mid_cur = cur@;
                            cur.set_vowel(crate::syllable::clone_phoneme(p));
                            proof {
                                assert(cur@ =~= SSyllable {
                                    vowel: Some(phs[i as int]),
                                    ..mid_cur
                                });
                            }
                        } else {
                            let mut vs = Syllable::new();
                            vs.set_vowel(crate::syllable::clone_phoneme(p));
                            proof {
                                assert(vs@ =~= SSyllable {
                                    vowel: Some(phs[i as int]),
                                    ..empty_ssyl()
                                });
                            }
                            syls.push(vs);
                            cur = Syllable::new();
                            proof {
                                assert(syl_views(syls@) =~= pre_syls.push(
                                    SSyllable { vowel: Some(phs[i as int]), ..empty_ssyl() },
                                ));
                                assert(cur@ =~= empty_ssyl());
                            }
                        }
                        i += 1;
                    },
                    PhonemeType::Modifier => {
                        let ghost mid_cur = cur@;
                        cur.add_modifier(crate::syllable::clone_phoneme(p));
                        proof {
                            assert(ph_views(cur.modifiers@) =~= mid_cur.modifiers.push(
                                phs[i as int],
                            ));
                            assert(cur@ =~= SSyllable {
                                modifiers: mid_cur.modifiers.push(phs[i as int]),
                                ..mid_cur
                            });
                        }
                        i += 1;
                    },
                    _ => {
                        let mut ss = Syllable::new();
                        ss.add_special(crate::syllable::clone_phoneme(p));
                        proof {
                            assert(ss@ =~= SSyllable {
                                special: Some(phs[i as int]),
                                ..empty_ssyl()
                            });
                        }
                        syls.push(ss);
                        cur = Syllable::new();
                        proof {
                            assert(syl_views(syls@) =~= pre_syls.push(
                                SSyllable { special: Some(phs[i as int]), ..empty_ssyl() },
                            ));
                            assert(cur@ =~= empty_ssyl());
                        }
                        i += 1;
                    },
                }
            }
        }
        let ghost end_syls = syl_views(syls@);
        let ghost end_cur = cur@;
        if !cur.is_empty() {
            syls.push(cur);
            proof {
                assert(syl_views(syls@) =~= end_syls.push(end_cur));
            }
        }
        if self.handle_reph || self.handle_ya_phala || self.handle_bo_fola {
            self.apply_syllable_rules(&mut syls);
        }
        syls
    }
}

impl PhonologyEngine {
    /// Apply the syllable-level rules to each syllable in place.
    fn apply_syllable_rules(&self, syllables: &mut Vec<Syllable>)
        ensures
            syl_views(final(syllables)@) == Seq::new(
                syl_views(old(syllables)@).len(),
                |i: int| syllable_rules(syl_views(old(syllables)@)[i]),
            ),
    {
        let ghost pre = syl_views(syllables@);
        let mut idx: usize = 0;
        while idx < syllables.len()
            invariant
                idx <= syllables@.len(),
                syllables@.len() == pre.len(),
                forall|i: int| idx <= i < pre.len() ==> syl_views(syllables@)[i] == pre[i],
                forall|i: int|
                    0 <= i < idx ==> syl_views(syllables@)[i] == syllable_rules(pre[i]),
            decreases syllables.len() - idx,
        {
            let ghost all_pre = syl_views(syllables@);
            let mut s = syllables.remove(idx);
            let ghost s0 = s@;
            proof {
                lemma_flag_bridges(s.consonants@);
            }
            // fill in the inherent vowel of a bare syllable
            if s.has_consonants() && !s.has_vowel() && !s.has_conjunct_only() {
                if !s.has_compound_stopper() {
                    let ib: Vec<char> = vec!['\u{985}'];
                    let ph = crate::phoneme::Phoneme::new(
                        string_of(&ib),
                        PhonemeType::Vowel,
                        None,
                    );
                    proof {
                        assert(ph@.bengali =~= seq!['\u{985}']);
                        assert(ph@ == bare_phoneme(seq!['\u{985}'], PhonemeType::Vowel, None));
                    }
                    s.set_vowel(ph);
                }
            }
            proof {
                assert(s@ =~= rule_fill(s0));
            }
            let ghost s1v = s@;
            // lift the reph mark
            let ra: Vec<char> = vec!['\u{9b0}'];
            let ha: Vec<char> = vec!['\u{9cd}'];
            let ra_s = string_of(&ra);
            let ha_s = string_of(&ha);
            let ghost s1 = s@;
            proof {
                assert(ra_s@ =~= seq!['\u{9b0}']);
                assert(ha_s@ =~= seq!['\u{9cd}']);
                assert(ph_views(s.consonants@) == s0.consonants);
                lemma_flag_bridges(s.consonants@);
            }
            if s.has_consonant_with_text(ra_s.as_str()) && s.has_consonant_with_vowel(
                ha_s.as_str(),
            ) {
                s.set_has_reph(true);
            }
            proof {
                assert(s@ =~= rule_reph(s1v));
            }
            let ghost s2 = s@;
            // lift the jo-phola mark
            let mut has_ya = false;
            let mut n: usize = 0;
            while n < s.consonants.len()
                invariant
                    n <= s.consonants@.len(),
                    has_ya == exists|i: int|
                        0 <= i < n && (#[trigger] s.consonants@[i]).has_ya_phala,
                decreases s.consonants@.len() - n,
            {
                if s.consonants[n].has_ya_phala {
                    proof {
                        let wi = n as int;
                        assert((s.consonants@[wi]).has_ya_phala);
                    }
                    has_ya = true;
                }
                n += 1;
            }
            proof {
                lemma_flag_bridges(s.consonants@);
            }
            if has_ya {
                s.set_has_ya_phala(true);
            }
            proof {
                assert(s@ =~= rule_ya(s2));
            }
            let ghost s3 = s@;
            // lift the bo-phola mark
            let mut has_bo = false;
            let mut n2: usize = 0;
            while n2 < s.consonants.len()
                invariant
                    n2 <= s.consonants@.len(),
                    has_bo == exists|i: int|
                        0 <= i < n2 && (#[trigger] s.consonants@[i]).has_bo_fola,
                decreases s.consonants@.len() - n2,
            {
                if s.consonants[n2].has_bo_fola {
                    proof {
                        let wi = n2 as int;
                        assert((s.consonants@[wi]).has_bo_fola);
                    }
                    has_bo = true;
                }
                n2 += 1;
            }
            if has_bo {
                s.set_has_bo_fola(true);
            }
            proof {
                assert(s@ =~= rule_bo(s3));
                assert(s@ =~= syllable_rules(s0));
            }
            syllables.insert(idx, s);
            proof {
                assert(syl_views(syllables@) =~= all_pre.update(idx as int, syllable_rules(s0)));
            }
            idx += 1;
        }
        proof {
            assert(syl_views(syllables@) =~= Seq::new(
                pre.len(),
                |i: int| syllable_rules(pre[i]),
            ));
        }
    }

    /// Format one syllable; see `fmt_syl` for the exact text.
    #[verifier::rlimit(100)]
    fn format_syllable(&self, syllable: &Syllable) -> (r: Vec<char>)
        ensures
            r@ == fmt_syl(syllable@),
    {
        let mut out: Vec<char> = Vec::new();
        proof {
            lemma_consonant_text_bridge(syllable.consonants@);
            lemma_conjunct_text_bridge(syllable.consonants@, 0);
        }
        if syllable.has_reph() {
            out.push('\u{9b0}');
            out.push('\u{9cd}');
        }
        if syllable.has_consonants() {
            let conjunct_only = syllable.has_conjunct_only();
            proof {
                if conjunct_only {
                    let w = choose|i: int|
                        0 <= i < syllable.consonants@.len() && (
                        #[trigger] syllable.consonants@[i]).is_conjunct_former;
                    assert((ph_views(syllable.consonants@)[w]).is_conjunct_former);
                }
                if sph_conjunct_only(syllable@) {
                    let w = choose|i: int|
                        0 <= i < syllable@.consonants.len() && (
                        #[trigger] syllable@.consonants[i]).is_conjunct_former;
                    assert((syllable.consonants@[w]).is_conjunct_former);
                }
            }
            if conjunct_only {
                let t = syllable.get_conjunct_text();
                let tc = chars_of(t.as_str());
                push_all(&mut out, &tc);
            } else {
                let t = syllable.get_consonant_text();
                let tc = chars_of(t.as_str());
                push_all(&mut out, &tc);
                if syllable.has_ya_phala() {
                    out.push('\u{9cd}');
                    out.push('\u{9af}');
                }
                if syllable.has_bo_fola() {
                    out.push('\u{9cd}');
                    out.push('\u{9ac}');
                }
                let li = syllable.consonants.len() - 1;
                let last = &syllable.consonants[li];
                let mut last_has_real = false;
                match &last.vowel {
                    Some(vs) => {
                        let vc = chars_of(vs.as_str());
                        if vc.len() > 0 && !is_ch1(&vc, '\u{9cd}') {
                            push_all(&mut out, &vc);
                            last_has_real = true;
                        }
                        proof {
                            if vc@.len() == 0 {
                                assert(vc@ =~= Seq::<char>::empty());
                            }
                        }
                    },
                    None => {},
                }
                if syllable.has_vowel() && !last_has_real {
                    let vt = syllable.get_vowel_text();
                    let vtc = chars_of(vt.as_str());
                    let dia = diacritic_chars_of(&vtc);
                    push_all(&mut out, &dia);
                }
            }
        } else if syllable.has_vowel() {
            let vt = syllable.get_vowel_text();
            let vtc = chars_of(vt.as_str());
            push_all(&mut out, &vtc);
        }
        proof {
            assert(out@ =~= fmt_syl(syllable@));
        }
        out
    }

    /// Format a syllable sequence into Bengali text.
    pub fn format_syllables(&self, syllables: &[Syllable]) -> (r: String)
        ensures
            r@ == fmt_from(syl_views(syllables@), 0),
    {
        let ghost views = syl_views(syllables@);
        let mut out: Vec<char> = Vec::new();
        let mut n: usize = 0;
        while n < syllables.len()
            invariant
                n <= syllables@.len(),
                views == syl_views(syllables@),
                fmt_from(views, 0) == out@ + fmt_from(views, n as int),
            decreases syllables.len() - n,
        {
            let ghost pre = out@;
            let piece = self.format_syllable(vstd::slice::slice_index_get(syllables, n));
            proof {
                assert(pre + (fmt_syl(views[n as int]) + fmt_from(views, n + 1)) =~= (pre
                    + fmt_syl(views[n as int])) + fmt_from(views, n + 1));
            }
            push_all(&mut out, &piece);
            n += 1;
        }
        proof {
            assert(out@ + fmt_from(views, n as int) =~= out@);
        }
        string_of(&out)
    }
}

/// The dependent diacritic of an independent vowel letter, executable.
fn diacritic_chars_of(v: &Vec<char>) -> (r: Vec<char>)
    ensures
        r@ == diacritic_of(v@),
{
    if is_ch1(v, '\u{985}') {
        Vec::new()
    } else if is_ch1(v, '\u{986}') {
        vec!['\u{9be}']
    } else if is_ch1(v, '\u{987}') {
        vec!['\u{9bf}']
    } else if is_ch1(v, '\u{988}') {
        vec!['\u{9c0}']
    } else if is_ch1(v, '\u{989}') {
        vec!['\u{9c1}']
    } else if is_ch1(v, '\u{98a}') {
        vec!['\u{9c2}']
    } else if is_ch1(v, '\u{98f}') {
        vec!['\u{9c7}']
    } else if is_ch1(v, '\u{990}') {
        vec!['\u{9c8}']
    } else if is_ch1(v, '\u{993}') {
        vec!['\u{9cb}']
    } else if is_ch1(v, '\u{994}') {
        vec!['\u{9cc}']
    } else if is_ch1(v, '\u{98b}') {
        vec!['\u{9c3}']
    } else {
        Vec::new()
    }
}

/// The consonant marks of the phonemes line up with those of their views.
pub proof fn lemma_flag_bridges(c: Seq<Phoneme>)
    ensures
        (exists|i: int|
            0 <= i < c.len() && (#[trigger] c[i]).is_conjunct_former) == (exists|i: int|
            0 <= i < ph_views(c).len() && (#[trigger] ph_views(c)[i]).is_conjunct_former),
        (exists|i: int|
            0 <= i < c.len() && crate::syllable::is_stopper(#[trigger] c[i])) == (exists|i: int|
            0 <= i < ph_views(c).len() && (#[trigger] ph_views(c)[i]).vowel == Some(
                Seq::<char>::empty(),
            )),
        (exists|i: int|
            0 <= i < c.len() && (#[trigger] c[i]).bengali@ == seq!['\u{9b0}']) == (exists|i: int|
            0 <= i < ph_views(c).len() && (#[trigger] ph_views(c)[i]).bengali == seq![
                '\u{9b0}',
            ]),
        (exists|i: int|
            0 <= i < c.len() && ((#[trigger] c[i]).vowel matches Some(v) && v@ == seq![
                '\u{9cd}',
            ])) == (exists|i: int|
            0 <= i < ph_views(c).len() && (#[trigger] ph_views(c)[i]).vowel == Some(
                seq!['\u{9cd}'],
            )),
        (exists|i: int| 0 <= i < c.len() && (#[trigger] c[i]).has_ya_phala) == (exists|i: int|
            0 <= i < ph_views(c).len() && (#[trigger] ph_views(c)[i]).has_ya_phala),
        (exists|i: int| 0 <= i < c.len() && (#[trigger] c[i]).has_bo_fola) == (exists|i: int|
            0 <= i < ph_views(c).len() && (#[trigger] ph_views(c)[i]).has_bo_fola),
{
    if exists|i: int| 0 <= i < c.len() && (#[trigger] c[i]).is_conjunct_former {
        let w = choose|i: int| 0 <= i < c.len() && (#[trigger] c[i]).is_conjunct_former;
        assert((ph_views(c)[w]).is_conjunct_former);
    }
    if exists|i: int|
        0 <= i < ph_views(c).len() && (#[trigger] ph_views(c)[i]).is_conjunct_former {
        let w = choose|i: int|
            0 <= i < ph_views(c).len() && (#[trigger] ph_views(c)[i]).is_conjunct_former;
        assert((c[w]).is_conjunct_former);
    }
    if exists|i: int| 0 <= i < c.len() && crate::syllable::is_stopper(#[trigger] c[i]) {
        let w = choose|i: int| 0 <= i < c.len() && crate::syllable::is_stopper(#[trigger] c[i]);
        match c[w].vowel {
            Some(v) => {
                assert(v@ =~= Seq::<char>::empty());
                assert((ph_views(c)[w]).vowel == Some(Seq::<char>::empty()));
            },
            None => {},
        }
    }
    if exists|i: int|
        0 <= i < ph_views(c).len() && (#[trigger] ph_views(c)[i]).vowel == Some(
        Seq::<char>::empty(),
    ) {
        let w = choose|i: int|
            0 <= i < ph_views(c).len() && (#[trigger] ph_views(c)[i]).vowel == Some(
                Seq::<char>::empty(),
            );
        assert(crate::syllable::is_stopper(c[w]));
    }
    if exists|i: int| 0 <= i < c.len() && (#[trigger] c[i]).bengali@ == seq!['\u{9b0}'] {
        let w = choose|i: int| 0 <= i < c.len() && (#[trigger] c[i]).bengali@ == seq!['\u{9b0}'];
        assert((ph_views(c)[w]).bengali == seq!['\u{9b0}']);
    }
    if exists|i: int|
        0 <= i < ph_views(c).len() && (#[trigger] ph_views(c)[i]).bengali == seq!['\u{9b0}'] {
        let w = choose|i: int|
            0 <= i < ph_views(c).len() && (#[trigger] ph_views(c)[i]).bengali == seq!['\u{9b0}'];
        assert((c[w]).bengali@ == seq!['\u{9b0}']);
    }
    if exists|i: int|
        0 <= i < c.len() && ((#[trigger] c[i]).vowel matches Some(v) && v@ == seq!['\u{9cd}']) {
        let w = choose|i: int|
            0 <= i < c.len() && ((#[trigger] c[i]).vowel matches Some(v) && v@ == seq![
                '\u{9cd}',
            ]);
        assert((ph_views(c)[w]).vowel == Some(seq!['\u{9cd}']));
    }
    if exists|i: int|
        0 <= i < ph_views(c).len() && (#[trigger] ph_views(c)[i]).vowel == Some(
        seq!['\u{9cd}'],
    ) {
        let w = choose|i: int|
            0 <= i < ph_views(c).len() && (#[trigger] ph_views(c)[i]).vowel == Some(
                seq!['\u{9cd}'],
            );
        assert((c[w]).vowel matches Some(v) && v@ == seq!['\u{9cd}']);
    }
    if exists|i: int| 0 <= i < c.len() && (#[trigger] c[i]).has_ya_phala {
        let w = choose|i: int| 0 <= i < c.len() && (#[trigger] c[i]).has_ya_phala;
        assert((ph_views(c)[w]).has_ya_phala);
    }
    if exists|i: int| 0 <= i < ph_views(c).len() && (#[trigger] ph_views(c)[i]).has_ya_phala {
        let w = choose|i: int|
            0 <= i < ph_views(c).len() && (#[trigger] ph_views(c)[i]).has_ya_phala;
        assert((c[w]).has_ya_phala);
    }
    if exists|i: int| 0 <= i < c.len() && (#[trigger] c[i]).has_bo_fola {
        let w = choose|i: int| 0 <= i < c.len() && (#[trigger] c[i]).has_bo_fola;
        assert((ph_views(c)[w]).has_bo_fola);
    }
    if exists|i: int| 0 <= i < ph_views(c).len() && (#[trigger] ph_views(c)[i]).has_bo_fola {
        let w = choose|i: int|
            0 <= i < ph_views(c).len() && (#[trigger] ph_views(c)[i]).has_bo_fola;
        assert((c[w]).has_bo_fola);
    }
}

} // verus!
