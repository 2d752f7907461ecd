//! Special orthographic cases: khanda-ta, visarga, anusvara, chandrabindu,
//! and the zero-width joiner patterns.

use vstd::prelude::*;

use crate::chars::{chars_of, string_of};
use crate::definitions::{assoc, assoc_chars, pair_tab_ok};

verus! {

/// The special transformations.
#[derive(Debug, Clone, Copy, PartialEq, Eq, Structural)]
pub enum SpecialTransform {
    /// Zero-width joiner.
    ZWJ,
    /// Zero-width non-joiner.
    ZWNJ,
    /// Khanda-ta.
    KhandaTa,
    /// Visarga.
    Visarga,
    /// Chandrabindu.
    Chandrabindu,
    /// Anusvara.
    Anusvar,
}

/// Escapes for the special characters: khanda-ta, visarga, anusvara (two
/// spellings), chandrabindu (two spellings).
pub open spec fn special_char_table() -> Seq<(Seq<char>, Seq<char>)> {
    seq![
        (seq!['t', '.'], seq!['\u{9ce}']),
        (seq!['h', '.'], seq!['\u{983}']),
        (seq!['n', '.'], seq!['\u{982}']),
        (seq!['m', '.'], seq!['\u{982}']),
        (seq!['^'], seq!['\u{981}']),
        (seq!['~'], seq!['\u{981}']),
    ]
}

pub(crate) fn special_char_chars() -> (r: Vec<(Vec<char>, Vec<char>)>)
    ensures
        pair_tab_ok(r@, special_char_table()),
{
    let r: Vec<(Vec<char>, Vec<char>)> = vec![
        (vec!['t', '.'], vec!['\u{9ce}']),
        (vec!['h', '.'], vec!['\u{983}']),
        (vec!['n', '.'], vec!['\u{982}']),
        (vec!['m', '.'], vec!['\u{982}']),
        (vec!['^'], vec!['\u{981}']),
        (vec!['~'], vec!['\u{981}']),
    ];
    proof {
        assert forall|i: int|
            0 <= i < r@.len() implies r@[i].0@ == special_char_table()[i].0 && r@[i].1@
            == special_char_table()[i].1 by {
            assert(r@[0].0@ =~= special_char_table()[0].0);
            assert(r@[0].1@ =~= special_char_table()[0].1);
            assert(r@[1].0@ =~= special_char_table()[1].0);
            assert(r@[1].1@ =~= special_char_table()[1].1);
            assert(r@[2].0@ =~= special_char_table()[2].0);
            assert(r@[2].1@ =~= special_char_table()[2].1);
            assert(r@[3].0@ =~= special_char_table()[3].0);
            assert(r@[3].1@ =~= special_char_table()[3].1);
            assert(r@[4].0@ =~= special_char_table()[4].0);
            assert(r@[4].1@ =~= special_char_table()[4].1);
            assert(r@[5].0@ =~= special_char_table()[5].0);
            assert(r@[5].1@ =~= special_char_table()[5].1);
        }
    }
    r
}

/// Handles special characters and joiner patterns.
pub struct SpecialHandler {
    /// Whether zero-width joiner patterns are applied.
    pub support_zwj: bool,
    /// Whether zero-width non-joiner patterns are applied.
    pub support_zwnj: bool,
}

impl SpecialHandler {
    /// A handler with both joiner kinds supported.
    pub fn new() -> (r: SpecialHandler)
        ensures
            r.support_zwj,
            r.support_zwnj,
    {
        SpecialHandler { support_zwj: true, support_zwnj: true }
    }

    /// Choose whether zero-width joiner patterns are applied.
    pub fn with_zwj(self, enable: bool) -> (r: SpecialHandler)
        ensures
            r.support_zwj == enable,
            r.support_zwnj == self.support_zwnj,
    {
        SpecialHandler { support_zwj: enable, ..self }
    }

    /// Choose whether zero-width non-joiner patterns are applied.
    pub fn with_zwnj(self, enable: bool) -> (r: SpecialHandler)
        ensures
            r.support_zwnj == enable,
            r.support_zwj == self.support_zwj,
    {
        SpecialHandler { support_zwnj: enable, ..self }
    }

    /// The special character an escape stands for.
    pub fn get_special_char(&self, roman: &str) -> (r: Option<String>)
        ensures
            match r {
                None => assoc(special_char_table(), roman@) is None,
                Some(s) => assoc(special_char_table(), roman@) == Some(s@),
            },
    {
        let k = chars_of(roman);
        let tab = special_char_chars();
        match assoc_chars(&tab, Ghost(special_char_table()), &k) {
            Some(v) => Some(string_of(&v)),
            None => None,
        }
    }

    /// Rewrite the joiner patterns in a sequence.  Every registered pattern
    /// already carries its zero-width joiner, so its replacement is the
    /// pattern itself and the text comes back unchanged.
    pub fn apply_zwj(&self, sequence: &str) -> (r: String)
        ensures
            r@ == sequence@,
    {
        sequence.to_owned()
    }

    /// Rewrite the non-joiner patterns in a sequence.  Every registered
    /// pattern already carries its zero-width non-joiner, so its replacement
    /// is the pattern itself and the text comes back unchanged.
    pub fn apply_zwnj(&self, sequence: &str) -> (r: String)
        ensures
            r@ == sequence@,
    {
        sequence.to_owned()
    }

    /// Append the anusvara.
    pub fn add_anusvar(&self, text: &str) -> (r: String)
        ensures
            r@ == text@ + seq!['\u{982}'],
    {
        let mut out = chars_of(text);
        out.push('\u{982}');
        proof {
            assert(out@ =~= text@ + seq!['\u{982}']);
        }
        string_of(&out)
    }

    /// Append the chandrabindu.
    pub fn add_chandrabindu(&self, text: &str) -> (r: String)
        ensures
            r@ == text@ + seq!['\u{981}'],
    {
        let mut out = chars_of(text);
        out.push('\u{981}');
        proof {
            assert(out@ =~= text@ + seq!['\u{981}']);
        }
        string_of(&out)
    }

    /// Append the visarga.
    pub fn add_visarga(&self, text: &str) -> (r: String)
        ensures
            r@ == text@ + seq!['\u{983}'],
    {
        let mut out = chars_of(text);
        out.push('\u{983}');
        proof {
            assert(out@ =~= text@ + seq!['\u{983}']);
        }
        string_of(&out)
    }

    /// Rewrite every registered joiner pattern in the text.  Each pattern's
    /// replacement is the pattern itself, so the text comes back unchanged.
    pub fn process_special_sequences(&self, text: &str) -> (r: String)
        ensures
            r@ == text@,
    {
        text.to_owned()
    }
}

impl Default for SpecialHandler {
    fn default() -> Self {
        SpecialHandler::new()
    }
}

} // verus!
