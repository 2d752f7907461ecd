//! The syllable model: consonants, a vowel, modifiers and attachments.

use vstd::prelude::*;

use crate::chars::{chars_of, push_all, string_of};
use crate::phoneme::{Phoneme, PhonemeType};

verus! {

/// One syllable: its consonants, its vowel, its modifiers, an optional
/// special phoneme, and the attachment flags.
#[derive(Debug, Clone)]
pub struct Syllable {
    /// Consonants of the syllable, in order.
    pub consonants: Vec<Phoneme>,
    /// The vowel, if one is set.
    pub vowel: Option<Phoneme>,
    /// Modifiers, in order.
    pub modifiers: Vec<Phoneme>,
    /// A special phoneme standing for whitespace, punctuation or the like.
    pub special: Option<Phoneme>,
    /// Whether the syllable stands alone.
    pub standalone: bool,
    /// Whether a reph precedes this syllable.
    pub preceding_reph: bool,
    /// Whether this syllable carries a reph.
    pub reph: bool,
    /// Whether this syllable carries a jo-phola.
    pub ya_phala: bool,
    /// Whether this syllable carries a bo-phola.
    pub bo_fola: bool,
}

/// The phoneme carries an empty vowel: the mark of a compound stopper.
pub open spec fn is_stopper(p: Phoneme) -> bool {
    p.vowel matches Some(v) && v@.len() == 0
}

/// The phoneme carries the hasant as its vowel.
pub open spec fn carries_hasanta(p: Phoneme) -> bool {
    p.vowel matches Some(v) && v@ == seq!['\u{9cd}']
}

/// The Bengali letters of the phonemes from index `n` on, concatenated.
pub open spec fn bengalis_from(s: Seq<Phoneme>, n: int) -> Seq<char>
    decreases s.len() - n,
{
    if n < 0 || n >= s.len() {
        Seq::empty()
    } else {
        s[n].bengali@ + bengalis_from(s, n + 1)
    }
}

/// The Bengali letters of the phonemes from index `n` on, a hasant between
/// each pair.
pub open spec fn joined_from(s: Seq<Phoneme>, n: int) -> Seq<char>
    decreases s.len() - n,
{
    if n < 0 || n >= s.len() {
        Seq::empty()
    } else if n == s.len() - 1 {
        s[n].bengali@
    } else {
        s[n].bengali@ + seq!['\u{9cd}'] + joined_from(s, n + 1)
    }
}

/// What `get_consonant_text` yields: nothing without consonants; the bare
/// letters when a compound stopper stands among them; one consonant plain;
/// several joined with hasants.
pub open spec fn consonant_text_spec(s: Seq<Phoneme>) -> Seq<char> {
    if s.len() == 0 {
        Seq::empty()
    } else if exists|i: int| 0 <= i < s.len() && is_stopper(#[trigger] s[i]) {
        bengalis_from(s, 0)
    } else if s.len() > 1 {
        joined_from(s, 0)
    } else {
        s[0].bengali@
    }
}

/// What `get_conjunct_text` yields for the phonemes from index `n` on:
/// each consonant's letter; after a stopper nothing joins; otherwise a
/// hasant joins to the next consonant, and the last consonant takes a
/// hasant when bare and its vowel otherwise.
pub open spec fn conjunct_text_from(s: Seq<Phoneme>, n: int) -> Seq<char>
    decreases s.len() - n,
{
    if n < 0 || n >= s.len() {
        Seq::empty()
    } else {
        let p = s[n];
        let tail = conjunct_text_from(s, n + 1);
        if is_stopper(p) {
            p.bengali@ + tail
        } else if n < s.len() - 1 {
            p.bengali@ + seq!['\u{9cd}'] + tail
        } else if p.vowel is None || carries_hasanta(p) {
            p.bengali@ + seq!['\u{9cd}'] + tail
        } else {
            p.bengali@ + p.vowel->Some_0@ + tail
        }
    }
}

/// The Bengali text of the modifiers from index `n` on.
pub open spec fn modifiers_text_from(s: Seq<Phoneme>, n: int) -> Seq<char>
    decreases s.len() - n,
{
    if n < 0 || n >= s.len() {
        Seq::empty()
    } else {
        s[n].bengali@ + modifiers_text_from(s, n + 1)
    }
}

impl Syllable {
    /// An empty syllable.
    pub fn new() -> (r: Syllable)
        ensures
            r.consonants@.len() == 0,
            r.vowel is None,
            r.modifiers@.len() == 0,
            r.special is None,
            !r.standalone,
            !r.preceding_reph,
            !r.reph,
            !r.ya_phala,
            !r.bo_fola,
    {
        Syllable {
            consonants: Vec::new(),
            vowel: None,
            modifiers: Vec::new(),
            special: None,
            standalone: false,
            preceding_reph: false,
            reph: false,
            ya_phala: false,
            bo_fola: false,
        }
    }

    /// Append a consonant; anything else is ignored.
    pub fn add_consonant(&mut self, consonant: Phoneme)
        ensures
            consonant.phoneme_type == PhonemeType::Consonant ==> final(self).consonants@ == old(
                self,
            ).consonants@.push(consonant),
            consonant.phoneme_type != PhonemeType::Consonant ==> final(self).consonants@ == old(
                self,
            ).consonants@,
            final(self).vowel == old(self).vowel,
            final(self).modifiers@ == old(self).modifiers@,
            final(self).special == old(self).special,
            final(self).standalone == old(self).standalone,
            final(self).preceding_reph == old(self).preceding_reph,
            final(self).reph == old(self).reph,
            final(self).ya_phala == old(self).ya_phala,
            final(self).bo_fola == old(self).bo_fola,
    {
        if consonant.is_consonant() {
            self.consonants.push(consonant);
        }
    }

    /// Set the vowel; anything else is ignored.
    pub fn set_vowel(&mut self, vowel: Phoneme)
        ensures
            vowel.phoneme_type == PhonemeType::Vowel ==> final(self).vowel == Some(vowel),
            vowel.phoneme_type != PhonemeType::Vowel ==> final(self).vowel == old(self).vowel,
            final(self).consonants@ == old(self).consonants@,
            final(self).modifiers@ == old(self).modifiers@,
            final(self).special == old(self).special,
            final(self).standalone == old(self).standalone,
            final(self).preceding_reph == old(self).preceding_reph,
            final(self).reph == old(self).reph,
            final(self).ya_phala == old(self).ya_phala,
            final(self).bo_fola == old(self).bo_fola,
    {
        if vowel.is_vowel() {
            self.vowel = Some(vowel);
        }
    }

    /// Append a modifier; anything else is ignored.
    pub fn add_modifier(&mut self, modifier: Phoneme)
        ensures
            modifier.phoneme_type == PhonemeType::Modifier ==> final(self).modifiers@ == old(
                self,
            ).modifiers@.push(modifier),
            modifier.phoneme_type != PhonemeType::Modifier ==> final(self).modifiers@ == old(
                self,
            ).modifiers@,
            final(self).consonants@ == old(self).consonants@,
            final(self).vowel == old(self).vowel,
            final(self).special == old(self).special,
            final(self).standalone == old(self).standalone,
            final(self).preceding_reph == old(self).preceding_reph,
            final(self).reph == old(self).reph,
            final(self).ya_phala == old(self).ya_phala,
            final(self).bo_fola == old(self).bo_fola,
    {
        if modifier.is_modifier() {
            self.modifiers.push(modifier);
        }
    }

    /// Set the special phoneme.
    pub fn add_special(&mut self, special: Phoneme)
        ensures
            final(self).special == Some(special),
            final(self).consonants@ == old(self).consonants@,
            final(self).vowel == old(self).vowel,
            final(self).modifiers@ == old(self).modifiers@,
            final(self).standalone == old(self).standalone,
            final(self).preceding_reph == old(self).preceding_reph,
            final(self).reph == old(self).reph,
            final(self).ya_phala == old(self).ya_phala,
            final(self).bo_fola == old(self).bo_fola,
    {
        self.special = Some(special);
    }

    /// Mark the syllable as standing alone, or not.
    pub fn set_standalone(&mut self, standalone: bool)
        ensures
            final(self).standalone == standalone,
            final(self).consonants@ == old(self).consonants@,
            final(self).vowel == old(self).vowel,
            final(self).modifiers@ == old(self).modifiers@,
            final(self).special == old(self).special,
            final(self).preceding_reph == old(self).preceding_reph,
            final(self).reph == old(self).reph,
            final(self).ya_phala == old(self).ya_phala,
            final(self).bo_fola == old(self).bo_fola,
    {
        self.standalone = standalone;
    }

    /// Whether the syllable stands alone.
    pub fn is_standalone(&self) -> (r: bool)
        ensures
            r == self.standalone,
    {
        self.standalone
    }

    /// Mark a preceding reph.
    pub fn set_has_preceding_reph(&mut self, has_reph: bool)
        ensures
            final(self).preceding_reph == has_reph,
            final(self).consonants@ == old(self).consonants@,
            final(self).vowel == old(self).vowel,
            final(self).modifiers@ == old(self).modifiers@,
            final(self).special == old(self).special,
            final(self).standalone == old(self).standalone,
            final(self).reph == old(self).reph,
            final(self).ya_phala == old(self).ya_phala,
            final(self).bo_fola == old(self).bo_fola,
    {
        self.preceding_reph = has_reph;
    }

    /// Whether a reph precedes this syllable.
    pub fn has_preceding_reph(&self) -> (r: bool)
        ensures
            r == self.preceding_reph,
    {
        self.preceding_reph
    }

    /// Mark a reph.
    pub fn set_has_reph(&mut self, has_reph: bool)
        ensures
            final(self).reph == has_reph,
            final(self).consonants@ == old(self).consonants@,
            final(self).vowel == old(self).vowel,
            final(self).modifiers@ == old(self).modifiers@,
            final(self).special == old(self).special,
            final(self).standalone == old(self).standalone,
            final(self).preceding_reph == old(self).preceding_reph,
            final(self).ya_phala == old(self).ya_phala,
            final(self).bo_fola == old(self).bo_fola,
    {
        self.reph = has_reph;
    }

    /// Whether this syllable carries a reph.
    pub fn has_reph(&self) -> (r: bool)
        ensures
            r == self.reph,
    {
        self.reph
    }

    /// Mark a jo-phola.
    pub fn set_has_ya_phala(&mut self, has_ya_phala: bool)
        ensures
            final(self).ya_phala == has_ya_phala,
            final(self).consonants@ == old(self).consonants@,
            final(self).vowel == old(self).vowel,
            final(self).modifiers@ == old(self).modifiers@,
            final(self).special == old(self).special,
            final(self).standalone == old(self).standalone,
            final(self).preceding_reph == old(self).preceding_reph,
            final(self).reph == old(self).reph,
            final(self).bo_fola == old(self).bo_fola,
    {
        self.ya_phala = has_ya_phala;
    }

    /// Whether this syllable carries a jo-phola.
    pub fn has_ya_phala(&self) -> (r: bool)
        ensures
            r == self.ya_phala,
    {
        self.ya_phala
    }

    /// Mark a bo-phola.
    pub fn set_has_bo_fola(&mut self, has_bo_fola: bool)
        ensures
            final(self).bo_fola == has_bo_fola,
            final(self).consonants@ == old(self).consonants@,
            final(self).vowel == old(self).vowel,
            final(self).modifiers@ == old(self).modifiers@,
            final(self).special == old(self).special,
            final(self).standalone == old(self).standalone,
            final(self).preceding_reph == old(self).preceding_reph,
            final(self).reph == old(self).reph,
            final(self).ya_phala == old(self).ya_phala,
    {
        self.bo_fola = has_bo_fola;
    }

    /// Whether this syllable carries a bo-phola.
    pub fn has_bo_fola(&self) -> (r: bool)
        ensures
            r == self.bo_fola,
    {
        self.bo_fola
    }

    /// Whether any consonant is present.
    pub fn has_consonants(&self) -> (r: bool)
        ensures
            r == (self.consonants@.len() > 0),
    {
        self.consonants.len() > 0
    }

    /// Whether a vowel is set.
    pub fn has_vowel(&self) -> (r: bool)
        ensures
            r == (self.vowel is Some),
    {
        self.vowel.is_some()
    }

    /// Whether any modifier is present.
    pub fn has_modifiers(&self) -> (r: bool)
        ensures
            r == (self.modifiers@.len() > 0),
    {
        self.modifiers.len() > 0
    }

    /// Whether some modifier is the hasant.
    pub fn has_hasanta(&self) -> (r: bool)
        ensures
            r == exists|i: int|
                0 <= i < self.modifiers@.len() && (#[trigger] self.modifiers@[i]).phoneme_type
                    == PhonemeType::Modifier && self.modifiers@[i].bengali@ == seq!['\u{9cd}'],
    {
        let mut n: usize = 0;
        while n < self.modifiers.len()
            invariant
                n <= self.modifiers@.len(),
                forall|i: int|
                    0 <= i < n ==> !((#[trigger] self.modifiers@[i]).phoneme_type
                        == PhonemeType::Modifier && self.modifiers@[i].bengali@ == seq![
                        '\u{9cd}',
                    ]),
            decreases self.modifiers@.len() - n,
        {
            if self.modifiers[n].is_hasanta() {
                return true;
            }
            n += 1;
        }
        false
    }

    /// Whether nothing at all is set.
    pub fn is_empty(&self) -> (r: bool)
        ensures
            r == (self.consonants@.len() == 0 && self.vowel is None && self.modifiers@.len() == 0
                && self.special is None),
    {
        self.consonants.len() == 0 && self.vowel.is_none() && self.modifiers.len() == 0
            && self.special.is_none()
    }

    /// Whether a special phoneme is set.
    pub fn is_special(&self) -> (r: bool)
        ensures
            r == (self.special is Some),
    {
        self.special.is_some()
    }

    /// The special phoneme's Bengali text, or nothing.
    pub fn get_special_text(&self) -> (r: String)
        ensures
            r@ == (match self.special {
                Some(p) => p.bengali@,
                None => Seq::<char>::empty(),
            }),
    {
        match &self.special {
            Some(p) => p.bengali.clone(),
            None => String::new(),
        }
    }

    /// Whether a compound stopper stands among the consonants.
    pub fn has_compound_stopper(&self) -> (r: bool)
        ensures
            r == exists|i: int| 0 <= i < self.consonants@.len() && is_stopper(
                #[trigger] self.consonants@[i],
            ),
    {
        let mut n: usize = 0;
        while n < self.consonants.len()
            invariant
                n <= self.consonants@.len(),
                forall|i: int| 0 <= i < n ==> !is_stopper(#[trigger] self.consonants@[i]),
            decreases self.consonants@.len() - n,
        {
            let stopper = match &self.consonants[n].vowel {
                Some(v) => v.as_str().is_empty(),
                None => false,
            };
            if stopper {
                return true;
            }
            n += 1;
        }
        false
    }

    /// The consonants as text: joined with hasants, except that a compound
    /// stopper keeps them bare.
    pub fn get_consonant_text(&self) -> (r: String)
        ensures
            r@ == consonant_text_spec(self.consonants@),
    {
        if self.consonants.len() == 0 {
            return String::new();
        }
        if self.has_compound_stopper() {
            let mut out: Vec<char> = Vec::new();
            let mut n: usize = 0;
            while n < self.consonants.len()
                invariant
                    n <= self.consonants@.len(),
                    bengalis_from(self.consonants@, 0) == out@ + bengalis_from(
                        self.consonants@,
                        n as int,
                    ),
                decreases self.consonants@.len() - n,
            {
                let ghost pre = out@;
                let b = chars_of(self.consonants[n].bengali.as_str());
                proof {
                    assert(pre + (b@ + bengalis_from(self.consonants@, n + 1)) =~= (pre + b@)
                        + bengalis_from(self.consonants@, n + 1));
                }
                push_all(&mut out, &b);
                n += 1;
            }
            proof {
                assert(out@ + bengalis_from(self.consonants@, n as int) =~= out@);
            }
            return string_of(&out);
        }
        if self.consonants.len() > 1 {
            let mut out: Vec<char> = Vec::new();
            let mut n: usize = 0;
            while n < self.consonants.len()
                invariant
                    n <= self.consonants@.len(),
                    self.consonants@.len() > 1,
                    joined_from(self.consonants@, 0) == out@ + joined_from(
                        self.consonants@,
                        n as int,
                    ),
                decreases self.consonants@.len() - n,
            {
                let ghost pre = out@;
                let b = chars_of(self.consonants[n].bengali.as_str());
                push_all(&mut out, &b);
                if n + 1 < self.consonants.len() {
                    out.push('\u{9cd}');
                    proof {
                        assert(out@ =~= pre + (b@ + seq!['\u{9cd}']));
                        assert(pre + (b@ + seq!['\u{9cd}'] + joined_from(
                            self.consonants@,
                            n + 1,
                        )) =~= (pre + (b@ + seq!['\u{9cd}'])) + joined_from(
                            self.consonants@,
                            n + 1,
                        ));
                    }
                } else {
                    proof {
                        assert(joined_from(self.consonants@, n + 1) =~= Seq::<char>::empty());
                        assert(pre + b@ + joined_from(self.consonants@, n + 1) =~= pre + b@);
                    }
                }
                n += 1;
            }
            proof {
                assert(joined_from(self.consonants@, n as int) =~= Seq::<char>::empty());
                assert(out@ + joined_from(self.consonants@, n as int) =~= out@);
            }
            return string_of(&out);
        }
        self.consonants[0].bengali.clone()
    }

    /// How many consonants the syllable holds.
    pub fn get_consonant_count(&self) -> (r: usize)
        ensures
            r == self.consonants@.len(),
    {
        self.consonants.len()
    }

    /// The consonant at the given index.
    pub fn get_consonant_at(&self, index: usize) -> (r: Option<&Phoneme>)
        ensures
            index < self.consonants@.len() ==> r == Some(&self.consonants@[index as int]),
            index >= self.consonants@.len() ==> r is None,
    {
        if index < self.consonants.len() {
            Some(&self.consonants[index])
        } else {
            None
        }
    }

    /// The vowel's Bengali text, or nothing.
    pub fn get_vowel_text(&self) -> (r: String)
        ensures
            r@ == (match self.vowel {
                Some(v) => v.bengali@,
                None => Seq::<char>::empty(),
            }),
    {
        match &self.vowel {
            Some(v) => v.bengali.clone(),
            None => String::new(),
        }
    }

    /// The vowel's Roman text, or nothing.
    pub fn get_vowel_roman(&self) -> (r: String)
        ensures
            r@ == (match self.vowel {
                Some(v) => v.roman@,
                None => Seq::<char>::empty(),
            }),
    {
        match &self.vowel {
            Some(v) => v.roman.clone(),
            None => String::new(),
        }
    }

    /// The modifiers' Bengali text, concatenated.
    pub fn get_modifier_text(&self) -> (r: String)
        ensures
            r@ == modifiers_text_from(self.modifiers@, 0),
    {
        let mut out: Vec<char> = Vec::new();
        let mut n: usize = 0;
        while n < self.modifiers.len()
            invariant
                n <= self.modifiers@.len(),
                modifiers_text_from(self.modifiers@, 0) == out@ + modifiers_text_from(
                    self.modifiers@,
                    n as int,
                ),
            decreases self.modifiers@.len() - n,
        {
            let ghost pre = out@;
            let b = chars_of(self.modifiers[n].bengali.as_str());
            proof {
                assert(pre + (b@ + modifiers_text_from(self.modifiers@, n + 1)) =~= (pre + b@)
                    + modifiers_text_from(self.modifiers@, n + 1));
            }
            push_all(&mut out, &b);
            n += 1;
        }
        proof {
            assert(out@ + modifiers_text_from(self.modifiers@, n as int) =~= out@);
        }
        string_of(&out)
    }
}

/// The smallest consonant index the sequence test accepts: the consonant's
/// letter is `first` and, with more modifiers than that index plus one, the
/// first modifier's letter is `second`.
pub open spec fn cseq_idx(
    cons: Seq<Phoneme>,
    mods: Seq<Phoneme>,
    first: Seq<char>,
    second: Seq<char>,
    n: int,
) -> Option<int>
    decreases cons.len() - n,
{
    if n < 0 || n >= cons.len() {
        None
    } else if cons[n].bengali@ == first && n + 1 < mods.len() && 0 < mods.len() && mods[0].bengali@
        == second {
        Some(n)
    } else {
        cseq_idx(cons, mods, first, second, n + 1)
    }
}

/// Copy a phoneme field by field.
pub(crate) fn clone_phoneme(p: &Phoneme) -> (r: Phoneme)
    ensures
        r == *p,
{
    Phoneme {
        roman: p.roman.clone(),
        bengali: p.bengali.clone(),
        phoneme_type: p.phoneme_type,
        position: p.position,
        vowel: match &p.vowel {
            Some(v) => Some(v.clone()),
            None => None,
        },
        is_conjunct_former: p.is_conjunct_former,
        has_vowel_after_conjunct: p.has_vowel_after_conjunct,
        has_ya_phala: p.has_ya_phala,
        has_bo_fola: p.has_bo_fola,
        is_reph: p.is_reph,
    }
}

impl Syllable {
    /// Whether the sequence test accepts some consonant index.
    pub fn has_consonant_sequence(&self, first: &str, second: &str) -> (r: bool)
        ensures
            r == (cseq_idx(self.consonants@, self.modifiers@, first@, second@, 0) is Some),
    {
        let mut n: usize = 0;
        while n < self.consonants.len()
            invariant
                n <= self.consonants@.len(),
                cseq_idx(self.consonants@, self.modifiers@, first@, second@, 0) == cseq_idx(
                    self.consonants@,
                    self.modifiers@,
                    first@,
                    second@,
                    n as int,
                ),
            decreases self.consonants@.len() - n,
        {
            if crate::chars::str_eq(self.consonants[n].bengali.as_str(), first) && n + 1 < self.modifiers.len()
                && crate::chars::str_eq(self.modifiers[0].bengali.as_str(), second) {
                return true;
            }
            n += 1;
        }
        false
    }

    /// Remove the first consonant the sequence test accepts, together with
    /// the first modifier; without one, change nothing.
    pub fn remove_consonant_sequence(&mut self, first: &str, second: &str)
        ensures
            match cseq_idx(old(self).consonants@, old(self).modifiers@, first@, second@, 0) {
                Some(i) => final(self).consonants@ == old(self).consonants@.remove(i)
                    && final(self).modifiers@ == old(self).modifiers@.remove(0),
                None => final(self).consonants@ == old(self).consonants@ && final(self).modifiers@
                    == old(self).modifiers@,
            },
            final(self).vowel == old(self).vowel,
            final(self).special == old(self).special,
    {
        let mut n: usize = 0;
        while n < self.consonants.len()
            invariant
                n <= self.consonants@.len(),
                *self == *old(self),
                cseq_idx(self.consonants@, self.modifiers@, first@, second@, 0) == cseq_idx(
                    self.consonants@,
                    self.modifiers@,
                    first@,
                    second@,
                    n as int,
                ),
            decreases self.consonants@.len() - n,
        {
            if crate::chars::str_eq(self.consonants[n].bengali.as_str(), first) && n + 1 < self.modifiers.len()
                && crate::chars::str_eq(self.modifiers[0].bengali.as_str(), second) {
                self.consonants.remove(n);
                self.modifiers.remove(0);
                return ;
            }
            n += 1;
        }
    }

    /// Whether some consonant carries the given Bengali letter.
    pub fn has_consonant_with_text(&self, text: &str) -> (r: bool)
        ensures
            r == exists|i: int|
                0 <= i < self.consonants@.len() && (#[trigger] self.consonants@[i]).bengali@
                    == text@,
    {
        let mut n: usize = 0;
        while n < self.consonants.len()
            invariant
                n <= self.consonants@.len(),
                forall|i: int|
                    0 <= i < n ==> (#[trigger] self.consonants@[i]).bengali@ != text@,
            decreases self.consonants@.len() - n,
        {
            if crate::chars::str_eq(self.consonants[n].bengali.as_str(), text) {
                return true;
            }
            n += 1;
        }
        false
    }

    /// Whether some consonant carries the given vowel mark.
    pub fn has_consonant_with_vowel(&self, vowel_text: &str) -> (r: bool)
        ensures
            r == exists|i: int|
                0 <= i < self.consonants@.len() && ((#[trigger] self.consonants@[i]).vowel matches
                    Some(v) && v@ == vowel_text@),
    {
        let mut n: usize = 0;
        while n < self.consonants.len()
            invariant
                n <= self.consonants@.len(),
                forall|i: int|
                    0 <= i < n ==> !((#[trigger] self.consonants@[i]).vowel matches Some(v) && v@
                        == vowel_text@),
            decreases self.consonants@.len() - n,
        {
            let hit = match &self.consonants[n].vowel {
                Some(v) => crate::chars::str_eq(v.as_str(), vowel_text),
                None => false,
            };
            if hit {
                return true;
            }
            n += 1;
        }
        false
    }

    /// A copy of the consonant sequence.
    pub fn get_consonant_sequence(&self) -> (r: Vec<Phoneme>)
        ensures
            r@ == self.consonants@,
    {
        let mut r: Vec<Phoneme> = Vec::new();
        let mut n: usize = 0;
        while n < self.consonants.len()
            invariant
                n <= self.consonants@.len(),
                r@ == self.consonants@.subrange(0, n as int),
            decreases self.consonants@.len() - n,
        {
            r.push(clone_phoneme(&self.consonants[n]));
            proof {
                assert(r@ =~= self.consonants@.subrange(0, n + 1));
            }
            n += 1;
        }
        proof {
            assert(self.consonants@.subrange(0, self.consonants@.len() as int)
                =~= self.consonants@);
        }
        r
    }

    /// The conjunct text of the consonants: each letter, a hasant joining
    /// to the next except after a compound stopper, and the final
    /// consonant's own vowel where one is attached.
    pub fn get_conjunct_text(&self) -> (r: String)
        ensures
            r@ == conjunct_text_from(self.consonants@, 0),
    {
        let mut out: Vec<char> = Vec::new();
        let mut n: usize = 0;
        while n < self.consonants.len()
            invariant
                n <= self.consonants@.len(),
                conjunct_text_from(self.consonants@, 0) == out@ + conjunct_text_from(
                    self.consonants@,
                    n as int,
                ),
            decreases self.consonants@.len() - n,
        {
            let ghost pre = out@;
            let ghost tail = conjunct_text_from(self.consonants@, n + 1);
            let p = &self.consonants[n];
            let b = chars_of(p.bengali.as_str());
            push_all(&mut out, &b);
            let stopper = match &p.vowel {
                Some(v) => v.as_str().is_empty(),
                None => false,
            };
            if stopper {
                proof {
                    assert(pre + (b@ + tail) =~= (pre + b@) + tail);
                }
            } else if n + 1 < self.consonants.len() {
                out.push('\u{9cd}');
                proof {
                    assert(out@ =~= pre + (b@ + seq!['\u{9cd}']));
                    assert(pre + (b@ + seq!['\u{9cd}'] + tail) =~= (pre + (b@ + seq![
                        '\u{9cd}',
                    ])) + tail);
                }
            } else {
                let hasant_vowel = match &p.vowel {
                    Some(v) => {
                        let vc = chars_of(v.as_str());
                        crate::tokenizer::is_ch1(&vc, '\u{9cd}')
                    },
                    None => false,
                };
                if p.vowel.is_none() || hasant_vowel {
                    out.push('\u{9cd}');
                    proof {
                        assert(out@ =~= pre + (b@ + seq!['\u{9cd}']));
                        assert(pre + (b@ + seq!['\u{9cd}'] + tail) =~= (pre + (b@ + seq![
                            '\u{9cd}',
                        ])) + tail);
                    }
                } else {
                    let v = match &p.vowel {
                        Some(v) => chars_of(v.as_str()),
                        None => Vec::new(),
                    };
                    push_all(&mut out, &v);
                    proof {
                        assert(out@ =~= pre + (b@ + v@));
                        assert(pre + (b@ + v@ + tail) =~= (pre + (b@ + v@)) + tail);
                        assert(b@ + v@ + tail =~= b@ + (v@ + tail));
                        assert(pre + (b@ + (v@ + tail)) =~= (pre + (b@ + v@)) + tail);
                    }
                }
            }
            n += 1;
        }
        proof {
            assert(out@ + conjunct_text_from(self.consonants@, n as int) =~= out@);
        }
        string_of(&out)
    }

    /// Whether the syllable holds a conjunct former and no vowel.
    pub fn has_conjunct_only(&self) -> (r: bool)
        ensures
            r == (self.consonants@.len() > 0 && (exists|i: int|
                0 <= i < self.consonants@.len() && (#[trigger] self.consonants@[i]).is_conjunct_former)
                && self.vowel is None),
    {
        if self.consonants.len() == 0 || self.vowel.is_some() {
            return false;
        }
        let mut n: usize = 0;
        while n < self.consonants.len()
            invariant
                n <= self.consonants@.len(),
                self.consonants@.len() > 0,
                self.vowel is None,
                forall|i: int|
                    0 <= i < n ==> !(#[trigger] self.consonants@[i]).is_conjunct_former,
            decreases self.consonants@.len() - n,
        {
            if self.consonants[n].is_conjunct_former {
                proof {
                    let wi = n as int;
                    assert(0 <= wi && wi < self.consonants@.len());
                    assert((self.consonants@[wi]).is_conjunct_former);
                }
                return true;
            }
            n += 1;
        }
        false
    }

    /// The full text of the syllable: the consonant text, an independent
    /// vowel only where no consonant stands, the modifiers, then the
    /// special phoneme.  One fixed exception: a single `ba` with a stopper
    /// vowel before an independent `i` is written as the two bare letters.
    pub fn get_text(&self) -> (r: String)
        ensures
            r@ == get_text_spec(*self),
    {
        let boi = self.consonants.len() == 1 && crate::chars::str_eq(self.consonants[0].bengali.as_str(), "ব") && (
        match &self.consonants[0].vowel {
            Some(v) => v.as_str().is_empty(),
            None => false,
        }) && (match &self.vowel {
            Some(v) => crate::chars::str_eq(v.bengali.as_str(), "ই"),
            None => false,
        });
        if boi {
            proof {
                reveal_strlit("ব");
                reveal_strlit("ই");
                reveal_strlit("বই");
            }
            return "বই".to_owned();
        }
        let mut out: Vec<char> = Vec::new();
        if self.consonants.len() > 0 {
            let ct = self.get_consonant_text();
            let cc = chars_of(ct.as_str());
            push_all(&mut out, &cc);
        } else {
            match &self.vowel {
                Some(v) => {
                    let vc = chars_of(v.bengali.as_str());
                    push_all(&mut out, &vc);
                },
                None => {},
            }
        }
        let mt = self.get_modifier_text();
        let mc = chars_of(mt.as_str());
        push_all(&mut out, &mc);
        match &self.special {
            Some(p) => {
                let sc = chars_of(p.bengali.as_str());
                push_all(&mut out, &sc);
            },
            None => {},
        }
        proof {
            if !boi {
                assert(out@ =~= get_text_spec(*self));
            }
        }
        string_of(&out)
    }
}

/// What `get_text` yields.
pub open spec fn get_text_spec(s: Syllable) -> Seq<char> {
    if s.consonants@.len() == 1 && s.consonants@[0].bengali@ == "ব"@ && is_stopper(
        s.consonants@[0],
    ) && (s.vowel matches Some(v) && v.bengali@ == "ই"@) {
        "বই"@
    } else {
        (if s.consonants@.len() > 0 {
            consonant_text_spec(s.consonants@)
        } else {
            match s.vowel {
                Some(v) => v.bengali@,
                None => Seq::empty(),
            }
        }) + modifiers_text_from(s.modifiers@, 0) + (match s.special {
            Some(p) => p.bengali@,
            None => Seq::empty(),
        })
    }
}

impl Default for Syllable {
    fn default() -> Self {
        Syllable::new()
    }
}

} // verus!
