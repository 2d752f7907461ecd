//! Vowel form selection: independent, dependent and inherent forms, and
//! two-vowel combinations.

use vstd::prelude::*;

use crate::chars::{chars_of, string_of};
use crate::definitions::{assoc, assoc_chars, pair_tab_ok};
use crate::tokenizer::is_ch1;

verus! {

/// The shape a vowel takes in context.
#[derive(Debug, Clone, Copy, PartialEq, Eq, Structural)]
pub enum VowelForm {
    /// The standalone form.
    Independent,
    /// The kar drawn after a consonant.
    Dependent,
    /// The implicit vowel after a bare consonant; draws nothing.
    Inherent,
}

/// Vowel keys and their independent forms.
pub open spec fn independent_form_table() -> Seq<(Seq<char>, Seq<char>)> {
    seq![
        (seq!['o'], seq!['\u{985}']),
        (seq!['A'], seq!['\u{986}']),
        (seq!['i'], seq!['\u{987}']),
        (seq!['I'], seq!['\u{988}']),
        (seq!['u'], seq!['\u{989}']),
        (seq!['U'], seq!['\u{98a}']),
        (seq!['e'], seq!['\u{98f}']),
        (seq!['O', 'I'], seq!['\u{990}']),
        (seq!['O'], seq!['\u{993}']),
        (seq!['O', 'U'], seq!['\u{994}']),
        (seq!['r', 'r', 'i'], seq!['\u{98b}']),
        (seq!['a'], seq!['\u{986}']),
        (seq!['a', 'a'], seq!['\u{986}']),
        (seq!['o', 'i'], seq!['\u{990}']),
        (seq!['o', 'u'], seq!['\u{994}']),
    ]
}

pub(crate) fn independent_form_chars() -> (r: Vec<(Vec<char>, Vec<char>)>)
    ensures
        pair_tab_ok(r@, independent_form_table()),
{
    let r: Vec<(Vec<char>, Vec<char>)> = vec![
        (vec!['o'], vec!['\u{985}']),
        (vec!['A'], vec!['\u{986}']),
        (vec!['i'], vec!['\u{987}']),
        (vec!['I'], vec!['\u{988}']),
        (vec!['u'], vec!['\u{989}']),
        (vec!['U'], vec!['\u{98a}']),
        (vec!['e'], vec!['\u{98f}']),
        (vec!['O', 'I'], vec!['\u{990}']),
        (vec!['O'], vec!['\u{993}']),
        (vec!['O', 'U'], vec!['\u{994}']),
        (vec!['r', 'r', 'i'], vec!['\u{98b}']),
        (vec!['a'], vec!['\u{986}']),
        (vec!['a', 'a'], vec!['\u{986}']),
        (vec!['o', 'i'], vec!['\u{990}']),
        (vec!['o', 'u'], vec!['\u{994}']),
    ];
    proof {
        assert forall|i: int| 0 <= i < r@.len() implies r@[i].0@ == independent_form_table()[i].0 && r@[i].1@ == independent_form_table()[i].1 by {
            assert(r@[0].0@ =~= independent_form_table()[0].0);
            assert(r@[0].1@ =~= independent_form_table()[0].1);
            assert(r@[1].0@ =~= independent_form_table()[1].0);
            assert(r@[1].1@ =~= independent_form_table()[1].1);
            assert(r@[2].0@ =~= independent_form_table()[2].0);
            assert(r@[2].1@ =~= independent_form_table()[2].1);
            assert(r@[3].0@ =~= independent_form_table()[3].0);
            assert(r@[3].1@ =~= independent_form_table()[3].1);
            assert(r@[4].0@ =~= independent_form_table()[4].0);
            assert(r@[4].1@ =~= independent_form_table()[4].1);
            assert(r@[5].0@ =~= independent_form_table()[5].0);
            assert(r@[5].1@ =~= independent_form_table()[5].1);
            assert(r@[6].0@ =~= independent_form_table()[6].0);
            assert(r@[6].1@ =~= independent_form_table()[6].1);
            assert(r@[7].0@ =~= independent_form_table()[7].0);
            assert(r@[7].1@ =~= independent_form_table()[7].1);
            assert(r@[8].0@ =~= independent_form_table()[8].0);
            assert(r@[8].1@ =~= independent_form_table()[8].1);
            assert(r@[9].0@ =~= independent_form_table()[9].0);
            assert(r@[9].1@ =~= independent_form_table()[9].1);
            assert(r@[10].0@ =~= independent_form_table()[10].0);
            assert(r@[10].1@ =~= independent_form_table()[10].1);
            assert(r@[11].0@ =~= independent_form_table()[11].0);
            assert(r@[11].1@ =~= independent_form_table()[11].1);
            assert(r@[12].0@ =~= independent_form_table()[12].0);
            assert(r@[12].1@ =~= independent_form_table()[12].1);
            assert(r@[13].0@ =~= independent_form_table()[13].0);
            assert(r@[13].1@ =~= independent_form_table()[13].1);
            assert(r@[14].0@ =~= independent_form_table()[14].0);
            assert(r@[14].1@ =~= independent_form_table()[14].1);
        }
    }
    r
}

/// Vowel keys and their dependent (kar) forms; the inherent vowel draws nothing.
pub open spec fn dependent_form_table() -> Seq<(Seq<char>, Seq<char>)> {
    seq![
        (seq!['o'], seq![]),
        (seq!['A'], seq!['\u{9be}']),
        (seq!['i'], seq!['\u{9bf}']),
        (seq!['I'], seq!['\u{9c0}']),
        (seq!['u'], seq!['\u{9c1}']),
        (seq!['U'], seq!['\u{9c2}']),
        (seq!['e'], seq!['\u{9c7}']),
        (seq!['O', 'I'], seq!['\u{9c8}']),
        (seq!['O'], seq!['\u{9cb}']),
        (seq!['O', 'U'], seq!['\u{9cc}']),
        (seq!['r', 'r', 'i'], seq!['\u{9c3}']),
        (seq!['a'], seq!['\u{9be}']),
        (seq!['a', 'a'], seq!['\u{9be}']),
        (seq!['o', 'i'], seq!['\u{9c8}']),
        (seq!['o', 'u'], seq!['\u{9cc}']),
    ]
}

pub(crate) fn dependent_form_chars() -> (r: Vec<(Vec<char>, Vec<char>)>)
    ensures
        pair_tab_ok(r@, dependent_form_table()),
{
    let r: Vec<(Vec<char>, Vec<char>)> = vec![
        (vec!['o'], vec![]),
        (vec!['A'], vec!['\u{9be}']),
        (vec!['i'], vec!['\u{9bf}']),
        (vec!['I'], vec!['\u{9c0}']),
        (vec!['u'], vec!['\u{9c1}']),
        (vec!['U'], vec!['\u{9c2}']),
        (vec!['e'], vec!['\u{9c7}']),
        (vec!['O', 'I'], vec!['\u{9c8}']),
        (vec!['O'], vec!['\u{9cb}']),
        (vec!['O', 'U'], vec!['\u{9cc}']),
        (vec!['r', 'r', 'i'], vec!['\u{9c3}']),
        (vec!['a'], vec!['\u{9be}']),
        (vec!['a', 'a'], vec!['\u{9be}']),
        (vec!['o', 'i'], vec!['\u{9c8}']),
        (vec!['o', 'u'], vec!['\u{9cc}']),
    ];
    proof {
        assert forall|i: int| 0 <= i < r@.len() implies r@[i].0@ == dependent_form_table()[i].0 && r@[i].1@ == dependent_form_table()[i].1 by {
            assert(r@[0].0@ =~= dependent_form_table()[0].0);
            assert(r@[0].1@ =~= dependent_form_table()[0].1);
            assert(r@[1].0@ =~= dependent_form_table()[1].0);
            assert(r@[1].1@ =~= dependent_form_table()[1].1);
            assert(r@[2].0@ =~= dependent_form_table()[2].0);
            assert(r@[2].1@ =~= dependent_form_table()[2].1);
            assert(r@[3].0@ =~= dependent_form_table()[3].0);
            assert(r@[3].1@ =~= dependent_form_table()[3].1);
            assert(r@[4].0@ =~= dependent_form_table()[4].0);
            assert(r@[4].1@ =~= dependent_form_table()[4].1);
            assert(r@[5].0@ =~= dependent_form_table()[5].0);
            assert(r@[5].1@ =~= dependent_form_table()[5].1);
            assert(r@[6].0@ =~= dependent_form_table()[6].0);
            assert(r@[6].1@ =~= dependent_form_table()[6].1);
            assert(r@[7].0@ =~= dependent_form_table()[7].0);
            assert(r@[7].1@ =~= dependent_form_table()[7].1);
            assert(r@[8].0@ =~= dependent_form_table()[8].0);
            assert(r@[8].1@ =~= dependent_form_table()[8].1);
            assert(r@[9].0@ =~= dependent_form_table()[9].0);
            assert(r@[9].1@ =~= dependent_form_table()[9].1);
            assert(r@[10].0@ =~= dependent_form_table()[10].0);
            assert(r@[10].1@ =~= dependent_form_table()[10].1);
            assert(r@[11].0@ =~= dependent_form_table()[11].0);
            assert(r@[11].1@ =~= dependent_form_table()[11].1);
            assert(r@[12].0@ =~= dependent_form_table()[12].0);
            assert(r@[12].1@ =~= dependent_form_table()[12].1);
            assert(r@[13].0@ =~= dependent_form_table()[13].0);
            assert(r@[13].1@ =~= dependent_form_table()[13].1);
            assert(r@[14].0@ =~= dependent_form_table()[14].0);
            assert(r@[14].1@ =~= dependent_form_table()[14].1);
        }
    }
    r
}

/// Two-vowel combinations and their joined forms.
pub open spec fn vowel_combination_table() -> Seq<(Seq<char>, Seq<char>)> {
    seq![
        (seq!['a', 'a'], seq!['\u{986}']),
        (seq!['a', 'i'], seq!['\u{986}', '\u{987}']),
        (seq!['a', 'u'], seq!['\u{986}', '\u{989}']),
        (seq!['a', 'e'], seq!['\u{986}', '\u{98f}']),
        (seq!['a', 'o'], seq!['\u{986}', '\u{993}']),
        (seq!['i', 'a'], seq!['\u{987}', '\u{9af}', '\u{9bc}', '\u{9be}']),
        (seq!['i', 'o'], seq!['\u{987}', '\u{993}']),
        (seq!['e', 'o'], seq!['\u{98f}', '\u{993}']),
    ]
}

pub(crate) fn vowel_combination_chars() -> (r: Vec<(Vec<char>, Vec<char>)>)
    ensures
        pair_tab_ok(r@, vowel_combination_table()),
{
    let r: Vec<(Vec<char>, Vec<char>)> = vec![
        (vec!['a', 'a'], vec!['\u{986}']),
        (vec!['a', 'i'], vec!['\u{986}', '\u{987}']),
        (vec!['a', 'u'], vec!['\u{986}', '\u{989}']),
        (vec!['a', 'e'], vec!['\u{986}', '\u{98f}']),
        (vec!['a', 'o'], vec!['\u{986}', '\u{993}']),
        (vec!['i', 'a'], vec!['\u{987}', '\u{9af}', '\u{9bc}', '\u{9be}']),
        (vec!['i', 'o'], vec!['\u{987}', '\u{993}']),
        (vec!['e', 'o'], vec!['\u{98f}', '\u{993}']),
    ];
    proof {
        assert forall|i: int| 0 <= i < r@.len() implies r@[i].0@ == vowel_combination_table()[i].0 && r@[i].1@ == vowel_combination_table()[i].1 by {
            assert(r@[0].0@ =~= vowel_combination_table()[0].0);
            assert(r@[0].1@ =~= vowel_combination_table()[0].1);
            assert(r@[1].0@ =~= vowel_combination_table()[1].0);
            assert(r@[1].1@ =~= vowel_combination_table()[1].1);
            assert(r@[2].0@ =~= vowel_combination_table()[2].0);
            assert(r@[2].1@ =~= vowel_combination_table()[2].1);
            assert(r@[3].0@ =~= vowel_combination_table()[3].0);
            assert(r@[3].1@ =~= vowel_combination_table()[3].1);
            assert(r@[4].0@ =~= vowel_combination_table()[4].0);
            assert(r@[4].1@ =~= vowel_combination_table()[4].1);
            assert(r@[5].0@ =~= vowel_combination_table()[5].0);
            assert(r@[5].1@ =~= vowel_combination_table()[5].1);
            assert(r@[6].0@ =~= vowel_combination_table()[6].0);
            assert(r@[6].1@ =~= vowel_combination_table()[6].1);
            assert(r@[7].0@ =~= vowel_combination_table()[7].0);
            assert(r@[7].1@ =~= vowel_combination_table()[7].1);
        }
    }
    r
}

/// The form `get_vowel_form` yields: the independent form from its table;
/// the dependent form from its table, with the inherent vowel drawing
/// nothing; the inherent form always empty.
pub open spec fn vowel_form_spec(handle_inherent_a: bool, roman: Seq<char>, form: VowelForm) -> Option<
    Seq<char>,
> {
    match form {
        VowelForm::Independent => assoc(independent_form_table(), roman),
        VowelForm::Dependent => if roman == seq!['o'] && handle_inherent_a {
            Some(Seq::empty())
        } else {
            assoc(dependent_form_table(), roman)
        },
        VowelForm::Inherent => Some(Seq::empty()),
    }
}

/// The form a vowel takes in context: independent where no consonant stands
/// before it; inherent for the silent `o` after a consonant; dependent
/// otherwise.
pub open spec fn determine_vowel_form_spec(
    handle_inherent_a: bool,
    roman: Seq<char>,
    after_consonant: bool,
    is_explicit: bool,
) -> VowelForm {
    if !after_consonant {
        VowelForm::Independent
    } else if roman == seq!['o'] && !is_explicit && handle_inherent_a {
        VowelForm::Inherent
    } else {
        VowelForm::Dependent
    }
}

/// Chooses vowel forms in context.
pub struct VowelHandler {
    /// Whether the inherent vowel is silent after a consonant.
    pub handle_inherent_a: bool,
}

impl VowelHandler {
    /// A handler with the inherent vowel silent.
    pub fn new() -> (r: VowelHandler)
        ensures
            r.handle_inherent_a,
    {
        VowelHandler { handle_inherent_a: true }
    }

    /// Choose whether the inherent vowel is silent after a consonant.
    pub fn with_inherent_a(self, enable: bool) -> (r: VowelHandler)
        ensures
            r.handle_inherent_a == enable,
    {
        VowelHandler { handle_inherent_a: enable }
    }

    /// The Bengali form of a vowel in the given shape.
    pub fn get_vowel_form(&self, roman: &str, form: VowelForm) -> (r: Option<String>)
        ensures
            match r {
                None => vowel_form_spec(self.handle_inherent_a, roman@, form) is None,
                Some(s) => vowel_form_spec(self.handle_inherent_a, roman@, form) == Some(s@),
            },
    {
        let k = chars_of(roman);
        match form {
            VowelForm::Independent => {
                let tab = independent_form_chars();
                match assoc_chars(&tab, Ghost(independent_form_table()), &k) {
                    Some(v) => Some(string_of(&v)),
                    None => None,
                }
            },
            VowelForm::Dependent => {
                if is_ch1(&k, 'o') && self.handle_inherent_a {
                    Some(String::new())
                } else {
                    let tab = dependent_form_chars();
                    match assoc_chars(&tab, Ghost(dependent_form_table()), &k) {
                        Some(v) => Some(string_of(&v)),
                        None => None,
                    }
                }
            },
            VowelForm::Inherent => Some(String::new()),
        }
    }

    /// The shape a vowel takes in the given context.
    pub fn determine_vowel_form(&self, roman: &str, after_consonant: bool, is_explicit: bool) -> (r:
        VowelForm)
        ensures
            r == determine_vowel_form_spec(
                self.handle_inherent_a,
                roman@,
                after_consonant,
                is_explicit,
            ),
    {
        let k = chars_of(roman);
        if !after_consonant {
            VowelForm::Independent
        } else if is_ch1(&k, 'o') && !is_explicit && self.handle_inherent_a {
            VowelForm::Inherent
        } else {
            VowelForm::Dependent
        }
    }

    /// Whether the text is a vowel key.
    pub fn is_vowel(&self, roman: &str) -> (r: bool)
        ensures
            r == (assoc(independent_form_table(), roman@) is Some),
    {
        let k = chars_of(roman);
        let tab = independent_form_chars();
        assoc_chars(&tab, Ghost(independent_form_table()), &k).is_some()
    }

    /// Every vowel key, in table order.
    pub fn get_vowel_strings(&self) -> (r: Vec<String>)
        ensures
            r@.len() == independent_form_table().len(),
            forall|i: int| 0 <= i < r@.len() ==> r@[i]@ == independent_form_table()[i].0,
    {
        let tab = independent_form_chars();
        let mut r: Vec<String> = Vec::new();
        let mut n: usize = 0;
        while n < tab.len()
            invariant
                pair_tab_ok(tab@, independent_form_table()),
                n <= tab.len(),
                r@.len() == n,
                forall|i: int| 0 <= i < n ==> r@[i]@ == independent_form_table()[i].0,
            decreases tab.len() - n,
        {
            r.push(string_of(&tab[n].0));
            n += 1;
        }
        r
    }

    /// Whether the text is a registered two-vowel combination.
    pub fn is_vowel_vowel_combination(&self, roman: &str) -> (r: bool)
        ensures
            r == (assoc(vowel_combination_table(), roman@) is Some),
    {
        let k = chars_of(roman);
        let tab = vowel_combination_chars();
        assoc_chars(&tab, Ghost(vowel_combination_table()), &k).is_some()
    }

    /// The joined form of a two-vowel combination.
    pub fn get_vowel_vowel_combination(&self, roman: &str) -> (r: Option<String>)
        ensures
            match r {
                None => assoc(vowel_combination_table(), roman@) is None,
                Some(s) => assoc(vowel_combination_table(), roman@) == Some(s@),
            },
    {
        let k = chars_of(roman);
        let tab = vowel_combination_chars();
        match assoc_chars(&tab, Ghost(vowel_combination_table()), &k) {
            Some(v) => Some(string_of(&v)),
            None => None,
        }
    }

    /// Every registered two-vowel combination key, in table order.
    pub fn get_vowel_vowel_combinations(&self) -> (r: Vec<String>)
        ensures
            r@.len() == vowel_combination_table().len(),
            forall|i: int| 0 <= i < r@.len() ==> r@[i]@ == vowel_combination_table()[i].0,
    {
        let tab = vowel_combination_chars();
        let mut r: Vec<String> = Vec::new();
        let mut n: usize = 0;
        while n < tab.len()
            invariant
                pair_tab_ok(tab@, vowel_combination_table()),
                n <= tab.len(),
                r@.len() == n,
                forall|i: int| 0 <= i < n ==> r@[i]@ == vowel_combination_table()[i].0,
            decreases tab.len() - n,
        {
            r.push(string_of(&tab[n].0));
            n += 1;
        }
        r
    }
}

impl Default for VowelHandler {
    fn default() -> Self {
        VowelHandler::new()
    }
}

} // verus!
