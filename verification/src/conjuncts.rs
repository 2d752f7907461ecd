//! Conjunct (juktakkhor) formation over Bengali letters.
//!
//! Two consonant letters join through the hasant; a handful of pairs have
//! fixed special forms; the jo-phola, ra-phala and reph are particular
//! attachments of `y` and `r`.

use vstd::prelude::*;

use crate::chars::{chars_of, push_all, string_of};

verus! {

/// Kinds of conjunct shapes.
#[derive(Debug, Clone, Copy, PartialEq, Eq, Structural)]
pub enum ConjunctType {
    /// Regular stacked conjuncts.
    Regular,
    /// Transparent conjuncts that keep the first letter visible.
    Transparent,
    /// Special forms with shapes of their own.
    Special,
}

/// Where the reph is drawn relative to its host.
#[derive(Debug, Clone, Copy, PartialEq, Eq, Structural)]
pub enum RephDirection {
    /// Before the host consonant.
    Before,
    /// After the host consonant.
    After,
    /// Above the host consonant.
    Above,
}

/// A single Bengali consonant letter: the main consonant block, plus the
/// khanda-ta and the three nukta letters.
pub open spec fn is_bengali_consonant_char(c: char) -> bool {
    ||| (0x995 <= c as u32 && c as u32 <= 0x9b9)
    ||| c as u32 == 0x9ce
    ||| c as u32 == 0x9dc
    ||| c as u32 == 0x9dd
    ||| c as u32 == 0x9df
}

/// Whether the text is one single Bengali consonant letter.
pub open spec fn is_bengali_consonant_spec(s: Seq<char>) -> bool {
    s.len() == 1 && is_bengali_consonant_char(s[0])
}

/// Whether two letters can stand in one conjunct: both must be single
/// Bengali consonant letters.
pub open spec fn can_form_conjunct_spec(first: Seq<char>, second: Seq<char>) -> bool {
    is_bengali_consonant_spec(first) && is_bengali_consonant_spec(second)
}

/// The conjunct of two letters: first, hasant, second; letters that cannot
/// join are simply concatenated.
pub open spec fn form_conjunct_spec(first: Seq<char>, second: Seq<char>) -> Seq<char> {
    if can_form_conjunct_spec(first, second) {
        first + seq!['\u{9cd}'] + second
    } else {
        first + second
    }
}

/// The reph form around a host: before, the reph then the host; otherwise
/// the host then the reph.
pub open spec fn form_reph_spec(direction: RephDirection, host: Seq<char>) -> Seq<char> {
    match direction {
        RephDirection::Before => seq!['\u{9b0}', '\u{9cd}'] + host,
        _ => host + seq!['\u{9b0}', '\u{9cd}'],
    }
}

/// Forms conjuncts, pholas and reph around Bengali letters.
pub struct ConjunctHandler {
    /// Whether fixed special forms may be used.
    pub allow_special_forms: bool,
    /// Where the reph is drawn.
    pub reph_direction: RephDirection,
}

impl ConjunctHandler {
    /// A handler that draws the reph before its host and uses special forms.
    pub fn new() -> (r: ConjunctHandler)
        ensures
            r.allow_special_forms,
            r.reph_direction == RephDirection::Before,
    {
        ConjunctHandler { allow_special_forms: true, reph_direction: RephDirection::Before }
    }

    /// Choose whether fixed special forms may be used.
    pub fn with_special_forms(self, allow: bool) -> (r: ConjunctHandler)
        ensures
            r.allow_special_forms == allow,
            r.reph_direction == self.reph_direction,
    {
        ConjunctHandler { allow_special_forms: allow, ..self }
    }

    /// Choose where the reph is drawn.
    pub fn with_reph_direction(self, direction: RephDirection) -> (r: ConjunctHandler)
        ensures
            r.reph_direction == direction,
            r.allow_special_forms == self.allow_special_forms,
    {
        ConjunctHandler { reph_direction: direction, ..self }
    }

    /// Whether the two letters can stand in one conjunct.
    pub fn can_form_conjunct(&self, first: &str, second: &str) -> (r: bool)
        ensures
            r == can_form_conjunct_spec(first@, second@),
    {
        self.is_bengali_consonant(first) && self.is_bengali_consonant(second)
    }

    /// Whether the text is one single Bengali consonant letter.
    pub fn is_bengali_consonant(&self, s: &str) -> (r: bool)
        ensures
            r == is_bengali_consonant_spec(s@),
    {
        let cs = chars_of(s);
        if cs.len() != 1 {
            return false;
        }
        let u = cs[0] as u32;
        (0x995 <= u && u <= 0x9b9) || u == 0x9ce || u == 0x9dc || u == 0x9dd || u == 0x9df
    }

    /// The conjunct of two letters, joined by the hasant; letters that
    /// cannot join come back concatenated unchanged.
    pub fn form_conjunct(&self, first: &str, second: &str) -> (r: String)
        ensures
            r@ == form_conjunct_spec(first@, second@),
    {
        let a = chars_of(first);
        let b = chars_of(second);
        let mut out = a;
        if self.can_form_conjunct(first, second) {
            out.push('\u{9cd}');
            proof {
                assert(out@ =~= first@ + seq!['\u{9cd}']);
            }
        }
        push_all(&mut out, &b);
        string_of(&out)
    }

    /// The jo-phola attachment: the consonant, the hasant, then `ya`.
    pub fn form_yaphala(&self, consonant: &str) -> (r: String)
        ensures
            r@ == consonant@ + seq!['\u{9cd}', '\u{9af}'],
    {
        let mut out = chars_of(consonant);
        out.push('\u{9cd}');
        out.push('\u{9af}');
        proof {
            assert(out@ =~= consonant@ + seq!['\u{9cd}', '\u{9af}']);
        }
        string_of(&out)
    }

    /// The ra-phala attachment: the consonant, the hasant, then `ra`.
    pub fn form_raphala(&self, consonant: &str) -> (r: String)
        ensures
            r@ == consonant@ + seq!['\u{9cd}', '\u{9b0}'],
    {
        let mut out = chars_of(consonant);
        out.push('\u{9cd}');
        out.push('\u{9b0}');
        proof {
            assert(out@ =~= consonant@ + seq!['\u{9cd}', '\u{9b0}']);
        }
        string_of(&out)
    }

    /// The reph drawn around its host, on the configured side.
    pub fn form_reph(&self, with_consonant: &str) -> (r: String)
        ensures
            r@ == form_reph_spec(self.reph_direction, with_consonant@),
    {
        let host = chars_of(with_consonant);
        match self.reph_direction {
            RephDirection::Before => {
                let mut out: Vec<char> = vec!['\u{9b0}', '\u{9cd}'];
                proof {
                    assert(out@ =~= seq!['\u{9b0}', '\u{9cd}']);
                }
                push_all(&mut out, &host);
                string_of(&out)
            },
            _ => {
                let mut out = host;
                out.push('\u{9b0}');
                out.push('\u{9cd}');
                proof {
                    assert(out@ =~= with_consonant@ + seq!['\u{9b0}', '\u{9cd}']);
                }
                string_of(&out)
            },
        }
    }
}

impl Default for ConjunctHandler {
    fn default() -> Self {
        ConjunctHandler::new()
    }
}

} // verus!
