//! The phoneme model: one unit of Bengali sound with its attachments.

use vstd::prelude::*;

use crate::tokenizer::TokenPosition;

verus! {

/// Kinds of phoneme.
#[derive(Debug, Clone, Copy, PartialEq, Eq, Structural)]
pub enum PhonemeType {
    /// A consonant.
    Consonant,
    /// A vowel.
    Vowel,
    /// A modifier such as the hasant.
    Modifier,
    /// Whitespace.
    Whitespace,
    /// Punctuation.
    Punctuation,
    /// A number.
    Number,
    /// Anything else.
    Other,
}

/// One phoneme with its Bengali form and attachments.
#[derive(Debug, Clone)]
pub struct Phoneme {
    /// The Roman representation.
    pub roman: String,
    /// The Bengali representation.
    pub bengali: String,
    /// What kind of phoneme this is.
    pub phoneme_type: PhonemeType,
    /// Where in its word the phoneme stood.
    pub position: Option<TokenPosition>,
    /// The vowel diacritic attached to a consonant.
    pub vowel: Option<String>,
    /// Whether the phoneme joins a conjunct.
    pub is_conjunct_former: bool,
    /// Whether a vowel follows the conjunct this phoneme joins.
    pub has_vowel_after_conjunct: bool,
    /// Whether a jo-phola attaches to this phoneme.
    pub has_ya_phala: bool,
    /// Whether a bo-phola attaches to this phoneme.
    pub has_bo_fola: bool,
    /// Whether this phoneme is a reph.
    pub is_reph: bool,
}

impl Phoneme {
    /// A bare phoneme with no attachments.
    pub fn new(bengali: String, phoneme_type: PhonemeType, position: Option<TokenPosition>) -> (r:
        Phoneme)
        ensures
            r.roman@ == Seq::<char>::empty(),
            r.bengali == bengali,
            r.phoneme_type == phoneme_type,
            r.position == position,
            r.vowel is None,
            !r.is_conjunct_former,
            !r.has_vowel_after_conjunct,
            !r.has_ya_phala,
            !r.has_bo_fola,
            !r.is_reph,
    {
        Phoneme {
            roman: String::new(),
            bengali,
            phoneme_type,
            position,
            vowel: None,
            is_conjunct_former: false,
            has_vowel_after_conjunct: false,
            has_ya_phala: false,
            has_bo_fola: false,
            is_reph: false,
        }
    }

    /// Whether this is a consonant.
    pub fn is_consonant(&self) -> (r: bool)
        ensures
            r == (self.phoneme_type == PhonemeType::Consonant),
    {
        self.phoneme_type == PhonemeType::Consonant
    }

    /// Whether this is a vowel.
    pub fn is_vowel(&self) -> (r: bool)
        ensures
            r == (self.phoneme_type == PhonemeType::Vowel),
    {
        self.phoneme_type == PhonemeType::Vowel
    }

    /// Whether this is a modifier.
    pub fn is_modifier(&self) -> (r: bool)
        ensures
            r == (self.phoneme_type == PhonemeType::Modifier),
    {
        self.phoneme_type == PhonemeType::Modifier
    }

    /// Whether this is the hasant modifier.
    pub fn is_hasanta(&self) -> (r: bool)
        ensures
            r == (self.phoneme_type == PhonemeType::Modifier && self.bengali@ == seq![
                '\u{9cd}',
            ]),
    {
        if self.phoneme_type == PhonemeType::Modifier {
            let cs = crate::chars::chars_of(self.bengali.as_str());
            crate::tokenizer::is_ch1(&cs, '\u{9cd}')
        } else {
            false
        }
    }

    /// Whether this is whitespace.
    pub fn is_whitespace(&self) -> (r: bool)
        ensures
            r == (self.phoneme_type == PhonemeType::Whitespace),
    {
        self.phoneme_type == PhonemeType::Whitespace
    }

    /// Whether this is punctuation.
    pub fn is_punctuation(&self) -> (r: bool)
        ensures
            r == (self.phoneme_type == PhonemeType::Punctuation),
    {
        self.phoneme_type == PhonemeType::Punctuation
    }

    /// The Bengali representation.
    pub fn bengali(&self) -> (r: &str)
        ensures
            r@ == self.bengali@,
    {
        self.bengali.as_str()
    }

    /// The Roman representation.
    pub fn roman(&self) -> (r: &str)
        ensures
            r@ == self.roman@,
    {
        self.roman.as_str()
    }
}

} // verus!
