//! The static lookup tables: Roman keys and their Bengali forms.
//!
//! Each table exists twice: a spec-level sequence of key/value pairs that the
//! contracts and the rendering specification speak of, and an executable
//! vector proved to hold exactly those pairs.  Lookup is first-match; no
//! table repeats a key.

use vstd::prelude::*;

verus! {

/// A vowel with its independent (standalone) form and its optional dependent
/// (kar) form; the inherent vowel has no dependent form and draws nothing
/// after a consonant.
pub struct BengaliVowel {
    /// Independent form, used standalone or word-initially.
    pub independent: String,
    /// Dependent form, attached after a consonant; absent for the inherent vowel.
    pub dependent: Option<String>,
}

impl BengaliVowel {
    /// Pack the two forms of one vowel.
    pub fn new(independent: String, dependent: Option<String>) -> (r: BengaliVowel)
        ensures
            r.independent == independent,
            r.dependent == dependent,
    {
        BengaliVowel { independent, dependent }
    }
}

/// The consonants grouped by phonetic class.
pub struct ConsonantSystem {
    /// Velar consonants.
    pub velars: Vec<(String, String)>,
    /// Palatal consonants.
    pub palatals: Vec<(String, String)>,
    /// Retroflex consonants.
    pub retroflexes: Vec<(String, String)>,
    /// Dental consonants.
    pub dentals: Vec<(String, String)>,
    /// Labial consonants.
    pub labials: Vec<(String, String)>,
    /// Semivowels and liquids.
    pub semivowels: Vec<(String, String)>,
    /// Fricatives.
    pub fricatives: Vec<(String, String)>,
    /// Borrowed and modified sounds.
    pub special: Vec<(String, String)>,
}

/// The executable pair table holds exactly the spec pair table.
pub open spec fn pair_tab_ok(t: Seq<(Vec<char>, Vec<char>)>, s: Seq<(Seq<char>, Seq<char>)>) -> bool {
    &&& t.len() == s.len()
    &&& forall|i: int| 0 <= i < t.len() ==> t[i].0@ == s[i].0 && t[i].1@ == s[i].1
}

/// The executable string pair table holds exactly the spec pair table.
pub open spec fn str_pairs_ok(t: Seq<(String, String)>, s: Seq<(Seq<char>, Seq<char>)>) -> bool {
    &&& t.len() == s.len()
    &&& forall|i: int| 0 <= i < t.len() ==> t[i].0@ == s[i].0 && t[i].1@ == s[i].1
}

/// View of one executable vowel entry.
pub open spec fn vowel_entry_view(e: (Vec<char>, Option<Vec<char>>)) -> (Seq<char>, Option<
    Seq<char>,
>) {
    (
        e.0@,
        match e.1 {
            Some(d) => Some(d@),
            None => None,
        },
    )
}

/// The executable vowel table holds exactly the spec vowel table.
pub open spec fn vowel_tab_ok(
    t: Seq<(Vec<char>, (Vec<char>, Option<Vec<char>>))>,
    s: Seq<(Seq<char>, (Seq<char>, Option<Seq<char>>))>,
) -> bool {
    &&& t.len() == s.len()
    &&& forall|i: int| 0 <= i < t.len() ==> t[i].0@ == s[i].0 && vowel_entry_view(t[i].1) == s[i].1
}

/// First value bound to `k`, scanning the pairs from index `n` on.
pub open spec fn assoc_from<V>(t: Seq<(Seq<char>, V)>, k: Seq<char>, n: int) -> Option<V>
    decreases t.len() - n,
{
    if n < 0 || n >= t.len() {
        None
    } else if t[n].0 == k {
        Some(t[n].1)
    } else {
        assoc_from(t, k, n + 1)
    }
}

/// First value bound to `k` in the table.
pub open spec fn assoc<V>(t: Seq<(Seq<char>, V)>, k: Seq<char>) -> Option<V> {
    assoc_from(t, k, 0)
}

/// The entry whose key is the longest one matching in `s` at position `i`,
/// scanning from index `n`; an earlier entry wins a tie.
pub open spec fn longest_from<V>(t: Seq<(Seq<char>, V)>, s: Seq<char>, i: int, n: int) -> Option<
    (Seq<char>, V),
>
    decreases t.len() - n,
{
    if n < 0 || n >= t.len() {
        None
    } else {
        let rest = longest_from(t, s, i, n + 1);
        if crate::chars::key_matches_at(t[n].0, s, i) {
            match rest {
                None => Some(t[n]),
                Some(p) => if t[n].0.len() >= p.0.len() {
                    Some(t[n])
                } else {
                    Some(p)
                },
            }
        } else {
            rest
        }
    }
}

/// The entry whose key is the longest one matching in `s` at position `i`.
pub open spec fn longest_key<V>(t: Seq<(Seq<char>, V)>, s: Seq<char>, i: int) -> Option<
    (Seq<char>, V),
> {
    longest_from(t, s, i, 0)
}

/// Executable first-match lookup over a char pair table.
pub(crate) fn assoc_chars(
    tab: &Vec<(Vec<char>, Vec<char>)>,
    Ghost(st): Ghost<Seq<(Seq<char>, Seq<char>)>>,
    k: &Vec<char>,
) -> (r: Option<Vec<char>>)
    requires
        pair_tab_ok(tab@, st),
    ensures
        match r {
            None => assoc(st, k@) is None,
            Some(v) => assoc(st, k@) == Some(v@),
        },
{
    let mut n: usize = 0;
    while n < tab.len()
        invariant
            pair_tab_ok(tab@, st),
            n <= tab.len(),
            assoc(st, k@) == assoc_from(st, k@, n as int),
        decreases tab.len() - n,
    {
        if crate::chars::eq_chars(&tab[n].0, k) {
            return Some(tab[n].1.clone());
        }
        n += 1;
    }
    None
}

/// The executable table and the spec table agree on their keys.
pub open spec fn keys_ok<V, W>(t: Seq<(Vec<char>, V)>, s: Seq<(Seq<char>, W)>) -> bool {
    &&& t.len() == s.len()
    &&& forall|i: int| 0 <= i < t.len() ==> t[i].0@ == s[i].0
}

/// Executable longest-match over a keyed table; returns the index of the
/// winning entry.
pub(crate) fn longest_at<V, W>(
    tab: &Vec<(Vec<char>, V)>,
    Ghost(st): Ghost<Seq<(Seq<char>, W)>>,
    w: &Vec<char>,
    i: usize,
) -> (r: Option<usize>)
    requires
        keys_ok(tab@, st),
        i <= w.len(),
    ensures
        match r {
            None => longest_key(st, w@, i as int) is None,
            Some(j) => j < tab.len() && longest_key(st, w@, i as int) == Some(st[j as int]),
        },
{
    longest_at_from::<V, W>(tab, Ghost(st), w, i, 0)
}

fn longest_at_from<V, W>(
    tab: &Vec<(Vec<char>, V)>,
    Ghost(st): Ghost<Seq<(Seq<char>, W)>>,
    w: &Vec<char>,
    i: usize,
    n: usize,
) -> (r: Option<usize>)
    requires
        keys_ok(tab@, st),
        i <= w.len(),
        n <= tab.len(),
    ensures
        match r {
            None => longest_from(st, w@, i as int, n as int) is None,
            Some(j) => n <= j < tab.len() && longest_from(st, w@, i as int, n as int) == Some(
                st[j as int],
            ),
        },
    decreases tab.len() - n,
{
    if n == tab.len() {
        return None;
    }
    let rest = longest_at_from::<V, W>(tab, Ghost(st), w, i, n + 1);
    if crate::chars::match_at(&tab[n].0, w, i) {
        match rest {
            None => Some(n),
            Some(j) => {
                if tab[n].0.len() >= tab[j].0.len() {
                    Some(n)
                } else {
                    Some(j)
                }
            },
        }
    } else {
        rest
    }
}

/// Convert a char pair table to its public string form.
fn to_string_pairs(tab: &Vec<(Vec<char>, Vec<char>)>, Ghost(st): Ghost<Seq<(Seq<char>, Seq<char>)>>) -> (r: Vec<
    (String, String),
>)
    requires
        pair_tab_ok(tab@, st),
    ensures
        str_pairs_ok(r@, st),
{
    let mut r: Vec<(String, String)> = Vec::new();
    let mut n: usize = 0;
    while n < tab.len()
        invariant
            pair_tab_ok(tab@, st),
            n <= tab.len(),
            r@.len() == n,
            forall|i: int| 0 <= i < n ==> r@[i].0@ == st[i].0 && r@[i].1@ == st[i].1,
        decreases tab.len() - n,
    {
        let k = crate::chars::string_of(&tab[n].0);
        let v = crate::chars::string_of(&tab[n].1);
        r.push((k, v));
        n += 1;
    }
    r
}

pub open spec fn velar_table() -> Seq<(Seq<char>, Seq<char>)> {
    seq![
        (seq!['k'], seq!['\u{995}']),
        (seq!['k', 'h'], seq!['\u{996}']),
        (seq!['g'], seq!['\u{997}']),
        (seq!['g', 'h'], seq!['\u{998}']),
        (seq!['N', 'g'], seq!['\u{999}']),
    ]
}

pub open spec fn palatal_table() -> Seq<(Seq<char>, Seq<char>)> {
    seq![
        (seq!['c'], seq!['\u{99a}']),
        (seq!['c', 'h'], seq!['\u{99b}']),
        (seq!['j'], seq!['\u{99c}']),
        (seq!['J'], seq!['\u{99c}']),
        (seq!['j', 'h'], seq!['\u{99d}']),
        (seq!['N', 'G'], seq!['\u{99e}']),
    ]
}

pub open spec fn retroflex_table() -> Seq<(Seq<char>, Seq<char>)> {
    seq![
        (seq!['T'], seq!['\u{99f}']),
        (seq!['T', 'h'], seq!['\u{9a0}']),
        (seq!['D'], seq!['\u{9a1}']),
        (seq!['D', 'h'], seq!['\u{9a2}']),
        (seq!['N'], seq!['\u{9a3}']),
    ]
}

pub open spec fn dental_table() -> Seq<(Seq<char>, Seq<char>)> {
    seq![
        (seq!['t'], seq!['\u{9a4}']),
        (seq!['t', 'h'], seq!['\u{9a5}']),
        (seq!['d'], seq!['\u{9a6}']),
        (seq!['d', 'h'], seq!['\u{9a7}']),
        (seq!['n'], seq!['\u{9a8}']),
    ]
}

pub open spec fn labial_table() -> Seq<(Seq<char>, Seq<char>)> {
    seq![
        (seq!['p'], seq!['\u{9aa}']),
        (seq!['p', 'h'], seq!['\u{9ab}']),
        (seq!['f'], seq!['\u{9ab}']),
        (seq!['b'], seq!['\u{9ac}']),
        (seq!['b', 'h'], seq!['\u{9ad}']),
        (seq!['v'], seq!['\u{9ad}']),
        (seq!['m'], seq!['\u{9ae}']),
    ]
}

pub open spec fn semivowel_table() -> Seq<(Seq<char>, Seq<char>)> {
    seq![
        (seq!['z'], seq!['\u{9af}']),
        (seq!['r'], seq!['\u{9b0}']),
        (seq!['l'], seq!['\u{9b2}']),
    ]
}

pub open spec fn fricative_table() -> Seq<(Seq<char>, Seq<char>)> {
    seq![
        (seq!['s', 'h'], seq!['\u{9b6}']),
        (seq!['S'], seq!['\u{9b6}']),
        (seq!['S', 'h'], seq!['\u{9b7}']),
        (seq!['s'], seq!['\u{9b8}']),
        (seq!['h'], seq!['\u{9b9}']),
    ]
}

pub open spec fn special_con_table() -> Seq<(Seq<char>, Seq<char>)> {
    seq![
        (seq!['R'], seq!['\u{9a1}', '\u{9bc}']),
        (seq!['R', 'h'], seq!['\u{9a2}', '\u{9bc}']),
        (seq!['y'], seq!['\u{9af}', '\u{9bc}']),
        (seq!['Y'], seq!['\u{9af}', '\u{9bc}']),
    ]
}

/// All consonant keys with their Bengali letters, every group in order.
pub open spec fn consonant_table() -> Seq<(Seq<char>, Seq<char>)> {
    velar_table() + palatal_table() + retroflex_table() + dental_table() + labial_table() + semivowel_table() + fricative_table() + special_con_table()
}

/// Vowel keys with independent form and optional dependent (kar) form.
pub open spec fn vowel_table() -> Seq<(Seq<char>, (Seq<char>, Option<Seq<char>>))> {
    seq![
        (seq!['o'], (seq!['\u{985}'], None)),
        (seq!['a'], (seq!['\u{986}'], Some(seq!['\u{9be}']))),
        (seq!['A'], (seq!['\u{986}'], Some(seq!['\u{9be}']))),
        (seq!['i'], (seq!['\u{987}'], Some(seq!['\u{9bf}']))),
        (seq!['I'], (seq!['\u{988}'], Some(seq!['\u{9c0}']))),
        (seq!['u'], (seq!['\u{989}'], Some(seq!['\u{9c1}']))),
        (seq!['U'], (seq!['\u{98a}'], Some(seq!['\u{9c2}']))),
        (seq!['e'], (seq!['\u{98f}'], Some(seq!['\u{9c7}']))),
        (seq!['O', 'I'], (seq!['\u{990}'], Some(seq!['\u{9c8}']))),
        (seq!['O'], (seq!['\u{993}'], Some(seq!['\u{9cb}']))),
        (seq!['O', 'U'], (seq!['\u{994}'], Some(seq!['\u{9cc}']))),
        (seq!['r', 'r', 'i'], (seq!['\u{98b}'], Some(seq!['\u{9c3}']))),
    ]
}

pub open spec fn diacritic_table() -> Seq<(Seq<char>, Seq<char>)> {
    seq![
        (seq![',', ','], seq!['\u{9cd}']),
        (seq!['^'], seq!['\u{981}']),
        (seq![':'], seq!['\u{983}']),
        (seq!['T', '`', '`'], seq!['\u{9ce}']),
        (seq!['n', 'g'], seq!['\u{982}']),
    ]
}

pub open spec fn symbol_table() -> Seq<(Seq<char>, Seq<char>)> {
    seq![
        (seq!['.'], seq!['\u{964}']),
        (seq!['$'], seq!['\u{9f3}']),
    ]
}

pub open spec fn numeral_table() -> Seq<(Seq<char>, Seq<char>)> {
    seq![
        (seq!['0'], seq!['\u{9e6}']),
        (seq!['1'], seq!['\u{9e7}']),
        (seq!['2'], seq!['\u{9e8}']),
        (seq!['3'], seq!['\u{9e9}']),
        (seq!['4'], seq!['\u{9ea}']),
        (seq!['5'], seq!['\u{9eb}']),
        (seq!['6'], seq!['\u{9ec}']),
        (seq!['7'], seq!['\u{9ed}']),
        (seq!['8'], seq!['\u{9ee}']),
        (seq!['9'], seq!['\u{9ef}']),
    ]
}

pub open spec fn special_rule_table() -> Seq<(Seq<char>, Seq<char>)> {
    seq![
        (seq!['k', 'k', 'h'], seq!['\u{995}', '\u{9cd}', '\u{9b7}']),
        (seq!['g', 'g'], seq!['\u{99c}', '\u{9cd}', '\u{99e}']),
        (seq!['h', 'm'], seq!['\u{9b9}', '\u{9cd}', '\u{9ae}']),
        (seq!['a', 'y', 'a'], seq!['\u{985}', '\u{9cd}', '\u{9af}', '\u{9be}']),
    ]
}

pub(crate) fn consonant_chars() -> (r: Vec<(Vec<char>, Vec<char>)>)
    ensures
        pair_tab_ok(r@, consonant_table()),
{
    let r: Vec<(Vec<char>, Vec<char>)> = vec![
        (vec!['k'], vec!['\u{995}']),
        (vec!['k', 'h'], vec!['\u{996}']),
        (vec!['g'], vec!['\u{997}']),
        (vec!['g', 'h'], vec!['\u{998}']),
        (vec!['N', 'g'], vec!['\u{999}']),
        (vec!['c'], vec!['\u{99a}']),
        (vec!['c', 'h'], vec!['\u{99b}']),
        (vec!['j'], vec!['\u{99c}']),
        (vec!['J'], vec!['\u{99c}']),
        (vec!['j', 'h'], vec!['\u{99d}']),
        (vec!['N', 'G'], vec!['\u{99e}']),
        (vec!['T'], vec!['\u{99f}']),
        (vec!['T', 'h'], vec!['\u{9a0}']),
        (vec!['D'], vec!['\u{9a1}']),
        (vec!['D', 'h'], vec!['\u{9a2}']),
        (vec!['N'], vec!['\u{9a3}']),
        (vec!['t'], vec!['\u{9a4}']),
        (vec!['t', 'h'], vec!['\u{9a5}']),
        (vec!['d'], vec!['\u{9a6}']),
        (vec!['d', 'h'], vec!['\u{9a7}']),
        (vec!['n'], vec!['\u{9a8}']),
        (vec!['p'], vec!['\u{9aa}']),
        (vec!['p', 'h'], vec!['\u{9ab}']),
        (vec!['f'], vec!['\u{9ab}']),
        (vec!['b'], vec!['\u{9ac}']),
        (vec!['b', 'h'], vec!['\u{9ad}']),
        (vec!['v'], vec!['\u{9ad}']),
        (vec!['m'], vec!['\u{9ae}']),
        (vec!['z'], vec!['\u{9af}']),
        (vec!['r'], vec!['\u{9b0}']),
        (vec!['l'], vec!['\u{9b2}']),
        (vec!['s', 'h'], vec!['\u{9b6}']),
        (vec!['S'], vec!['\u{9b6}']),
        (vec!['S', 'h'], vec!['\u{9b7}']),
        (vec!['s'], vec!['\u{9b8}']),
        (vec!['h'], vec!['\u{9b9}']),
        (vec!['R'], vec!['\u{9a1}', '\u{9bc}']),
        (vec!['R', 'h'], vec!['\u{9a2}', '\u{9bc}']),
        (vec!['y'], vec!['\u{9af}', '\u{9bc}']),
        (vec!['Y'], vec!['\u{9af}', '\u{9bc}']),
    ];
    proof {
        assert forall|i: int| 0 <= i < r@.len() implies r@[i].0@ == consonant_table()[i].0 && r@[i].1@ == consonant_table()[i].1 by {
            assert(r@[0].0@ =~= consonant_table()[0].0);
            assert(r@[0].1@ =~= consonant_table()[0].1);
            assert(r@[1].0@ =~= consonant_table()[1].0);
            assert(r@[1].1@ =~= consonant_table()[1].1);
            assert(r@[2].0@ =~= consonant_table()[2].0);
            assert(r@[2].1@ =~= consonant_table()[2].1);
            assert(r@[3].0@ =~= consonant_table()[3].0);
            assert(r@[3].1@ =~= consonant_table()[3].1);
            assert(r@[4].0@ =~= consonant_table()[4].0);
            assert(r@[4].1@ =~= consonant_table()[4].1);
            assert(r@[5].0@ =~= consonant_table()[5].0);
            assert(r@[5].1@ =~= consonant_table()[5].1);
            assert(r@[6].0@ =~= consonant_table()[6].0);
            assert(r@[6].1@ =~= consonant_table()[6].1);
            assert(r@[7].0@ =~= consonant_table()[7].0);
            assert(r@[7].1@ =~= consonant_table()[7].1);
            assert(r@[8].0@ =~= consonant_table()[8].0);
            assert(r@[8].1@ =~= consonant_table()[8].1);
            assert(r@[9].0@ =~= consonant_table()[9].0);
            assert(r@[9].1@ =~= consonant_table()[9].1);
            assert(r@[10].0@ =~= consonant_table()[10].0);
            assert(r@[10].1@ =~= consonant_table()[10].1);
            assert(r@[11].0@ =~= consonant_table()[11].0);
            assert(r@[11].1@ =~= consonant_table()[11].1);
            assert(r@[12].0@ =~= consonant_table()[12].0);
            assert(r@[12].1@ =~= consonant_table()[12].1);
            assert(r@[13].0@ =~= consonant_table()[13].0);
            assert(r@[13].1@ =~= consonant_table()[13].1);
            assert(r@[14].0@ =~= consonant_table()[14].0);
            assert(r@[14].1@ =~= consonant_table()[14].1);
            assert(r@[15].0@ =~= consonant_table()[15].0);
            assert(r@[15].1@ =~= consonant_table()[15].1);
            assert(r@[16].0@ =~= consonant_table()[16].0);
            assert(r@[16].1@ =~= consonant_table()[16].1);
            assert(r@[17].0@ =~= consonant_table()[17].0);
            assert(r@[17].1@ =~= consonant_table()[17].1);
            assert(r@[18].0@ =~= consonant_table()[18].0);
            assert(r@[18].1@ =~= consonant_table()[18].1);
            assert(r@[19].0@ =~= consonant_table()[19].0);
            assert(r@[19].1@ =~= consonant_table()[19].1);
            assert(r@[20].0@ =~= consonant_table()[20].0);
            assert(r@[20].1@ =~= consonant_table()[20].1);
            assert(r@[21].0@ =~= consonant_table()[21].0);
            assert(r@[21].1@ =~= consonant_table()[21].1);
            assert(r@[22].0@ =~= consonant_table()[22].0);
            assert(r@[22].1@ =~= consonant_table()[22].1);
            assert(r@[23].0@ =~= consonant_table()[23].0);
            assert(r@[23].1@ =~= consonant_table()[23].1);
            assert(r@[24].0@ =~= consonant_table()[24].0);
            assert(r@[24].1@ =~= consonant_table()[24].1);
            assert(r@[25].0@ =~= consonant_table()[25].0);
            assert(r@[25].1@ =~= consonant_table()[25].1);
            assert(r@[26].0@ =~= consonant_table()[26].0);
            assert(r@[26].1@ =~= consonant_table()[26].1);
            assert(r@[27].0@ =~= consonant_table()[27].0);
            assert(r@[27].1@ =~= consonant_table()[27].1);
            assert(r@[28].0@ =~= consonant_table()[28].0);
            assert(r@[28].1@ =~= consonant_table()[28].1);
            assert(r@[29].0@ =~= consonant_table()[29].0);
            assert(r@[29].1@ =~= consonant_table()[29].1);
            assert(r@[30].0@ =~= consonant_table()[30].0);
            assert(r@[30].1@ =~= consonant_table()[30].1);
            assert(r@[31].0@ =~= consonant_table()[31].0);
            assert(r@[31].1@ =~= consonant_table()[31].1);
            assert(r@[32].0@ =~= consonant_table()[32].0);
            assert(r@[32].1@ =~= consonant_table()[32].1);
            assert(r@[33].0@ =~= consonant_table()[33].0);
            assert(r@[33].1@ =~= consonant_table()[33].1);
            assert(r@[34].0@ =~= consonant_table()[34].0);
            assert(r@[34].1@ =~= consonant_table()[34].1);
            assert(r@[35].0@ =~= consonant_table()[35].0);
            assert(r@[35].1@ =~= consonant_table()[35].1);
            assert(r@[36].0@ =~= consonant_table()[36].0);
            assert(r@[36].1@ =~= consonant_table()[36].1);
            assert(r@[37].0@ =~= consonant_table()[37].0);
            assert(r@[37].1@ =~= consonant_table()[37].1);
            assert(r@[38].0@ =~= consonant_table()[38].0);
            assert(r@[38].1@ =~= consonant_table()[38].1);
            assert(r@[39].0@ =~= consonant_table()[39].0);
            assert(r@[39].1@ =~= consonant_table()[39].1);
        }
    }
    r
}

pub(crate) fn diacritic_chars() -> (r: Vec<(Vec<char>, Vec<char>)>)
    ensures
        pair_tab_ok(r@, diacritic_table()),
{
    let r: Vec<(Vec<char>, Vec<char>)> = vec![
        (vec![',', ','], vec!['\u{9cd}']),
        (vec!['^'], vec!['\u{981}']),
        (vec![':'], vec!['\u{983}']),
        (vec!['T', '`', '`'], vec!['\u{9ce}']),
        (vec!['n', 'g'], vec!['\u{982}']),
    ];
    proof {
        assert forall|i: int| 0 <= i < r@.len() implies r@[i].0@ == diacritic_table()[i].0 && r@[i].1@ == diacritic_table()[i].1 by {
            assert(r@[0].0@ =~= diacritic_table()[0].0);
            assert(r@[0].1@ =~= diacritic_table()[0].1);
            assert(r@[1].0@ =~= diacritic_table()[1].0);
            assert(r@[1].1@ =~= diacritic_table()[1].1);
            assert(r@[2].0@ =~= diacritic_table()[2].0);
            assert(r@[2].1@ =~= diacritic_table()[2].1);
            assert(r@[3].0@ =~= diacritic_table()[3].0);
            assert(r@[3].1@ =~= diacritic_table()[3].1);
            assert(r@[4].0@ =~= diacritic_table()[4].0);
            assert(r@[4].1@ =~= diacritic_table()[4].1);
        }
    }
    r
}

pub(crate) fn symbol_chars() -> (r: Vec<(Vec<char>, Vec<char>)>)
    ensures
        pair_tab_ok(r@, symbol_table()),
{
    let r: Vec<(Vec<char>, Vec<char>)> = vec![
        (vec!['.'], vec!['\u{964}']),
        (vec!['$'], vec!['\u{9f3}']),
    ];
    proof {
        assert forall|i: int| 0 <= i < r@.len() implies r@[i].0@ == symbol_table()[i].0 && r@[i].1@ == symbol_table()[i].1 by {
            assert(r@[0].0@ =~= symbol_table()[0].0);
            assert(r@[0].1@ =~= symbol_table()[0].1);
            assert(r@[1].0@ =~= symbol_table()[1].0);
            assert(r@[1].1@ =~= symbol_table()[1].1);
        }
    }
    r
}

pub(crate) fn numeral_chars() -> (r: Vec<(Vec<char>, Vec<char>)>)
    ensures
        pair_tab_ok(r@, numeral_table()),
{
    let r: Vec<(Vec<char>, Vec<char>)> = vec![
        (vec!['0'], vec!['\u{9e6}']),
        (vec!['1'], vec!['\u{9e7}']),
        (vec!['2'], vec!['\u{9e8}']),
        (vec!['3'], vec!['\u{9e9}']),
        (vec!['4'], vec!['\u{9ea}']),
        (vec!['5'], vec!['\u{9eb}']),
        (vec!['6'], vec!['\u{9ec}']),
        (vec!['7'], vec!['\u{9ed}']),
        (vec!['8'], vec!['\u{9ee}']),
        (vec!['9'], vec!['\u{9ef}']),
    ];
    proof {
        assert forall|i: int| 0 <= i < r@.len() implies r@[i].0@ == numeral_table()[i].0 && r@[i].1@ == numeral_table()[i].1 by {
            assert(r@[0].0@ =~= numeral_table()[0].0);
            assert(r@[0].1@ =~= numeral_table()[0].1);
            assert(r@[1].0@ =~= numeral_table()[1].0);
            assert(r@[1].1@ =~= numeral_table()[1].1);
            assert(r@[2].0@ =~= numeral_table()[2].0);
            assert(r@[2].1@ =~= numeral_table()[2].1);
            assert(r@[3].0@ =~= numeral_table()[3].0);
            assert(r@[3].1@ =~= numeral_table()[3].1);
            assert(r@[4].0@ =~= numeral_table()[4].0);
            assert(r@[4].1@ =~= numeral_table()[4].1);
            assert(r@[5].0@ =~= numeral_table()[5].0);
            assert(r@[5].1@ =~= numeral_table()[5].1);
            assert(r@[6].0@ =~= numeral_table()[6].0);
            assert(r@[6].1@ =~= numeral_table()[6].1);
            assert(r@[7].0@ =~= numeral_table()[7].0);
            assert(r@[7].1@ =~= numeral_table()[7].1);
            assert(r@[8].0@ =~= numeral_table()[8].0);
            assert(r@[8].1@ =~= numeral_table()[8].1);
            assert(r@[9].0@ =~= numeral_table()[9].0);
            assert(r@[9].1@ =~= numeral_table()[9].1);
        }
    }
    r
}

pub(crate) fn special_rule_chars() -> (r: Vec<(Vec<char>, Vec<char>)>)
    ensures
        pair_tab_ok(r@, special_rule_table()),
{
    let r: Vec<(Vec<char>, Vec<char>)> = vec![
        (vec!['k', 'k', 'h'], vec!['\u{995}', '\u{9cd}', '\u{9b7}']),
        (vec!['g', 'g'], vec!['\u{99c}', '\u{9cd}', '\u{99e}']),
        (vec!['h', 'm'], vec!['\u{9b9}', '\u{9cd}', '\u{9ae}']),
        (vec!['a', 'y', 'a'], vec!['\u{985}', '\u{9cd}', '\u{9af}', '\u{9be}']),
    ];
    proof {
        assert forall|i: int| 0 <= i < r@.len() implies r@[i].0@ == special_rule_table()[i].0 && r@[i].1@ == special_rule_table()[i].1 by {
            assert(r@[0].0@ =~= special_rule_table()[0].0);
            assert(r@[0].1@ =~= special_rule_table()[0].1);
            assert(r@[1].0@ =~= special_rule_table()[1].0);
            assert(r@[1].1@ =~= special_rule_table()[1].1);
            assert(r@[2].0@ =~= special_rule_table()[2].0);
            assert(r@[2].1@ =~= special_rule_table()[2].1);
            assert(r@[3].0@ =~= special_rule_table()[3].0);
            assert(r@[3].1@ =~= special_rule_table()[3].1);
        }
    }
    r
}

pub(crate) fn vowel_chars() -> (r: Vec<(Vec<char>, (Vec<char>, Option<Vec<char>>))>)
    ensures
        vowel_tab_ok(r@, vowel_table()),
{
    let r: Vec<(Vec<char>, (Vec<char>, Option<Vec<char>>))> = vec![
        (vec!['o'], (vec!['\u{985}'], None)),
        (vec!['a'], (vec!['\u{986}'], Some(vec!['\u{9be}']))),
        (vec!['A'], (vec!['\u{986}'], Some(vec!['\u{9be}']))),
        (vec!['i'], (vec!['\u{987}'], Some(vec!['\u{9bf}']))),
        (vec!['I'], (vec!['\u{988}'], Some(vec!['\u{9c0}']))),
        (vec!['u'], (vec!['\u{989}'], Some(vec!['\u{9c1}']))),
        (vec!['U'], (vec!['\u{98a}'], Some(vec!['\u{9c2}']))),
        (vec!['e'], (vec!['\u{98f}'], Some(vec!['\u{9c7}']))),
        (vec!['O', 'I'], (vec!['\u{990}'], Some(vec!['\u{9c8}']))),
        (vec!['O'], (vec!['\u{993}'], Some(vec!['\u{9cb}']))),
        (vec!['O', 'U'], (vec!['\u{994}'], Some(vec!['\u{9cc}']))),
        (vec!['r', 'r', 'i'], (vec!['\u{98b}'], Some(vec!['\u{9c3}']))),
    ];
    proof {
        assert forall|i: int| 0 <= i < r@.len() implies r@[i].0@ == vowel_table()[i].0
            && vowel_entry_view(r@[i].1) == vowel_table()[i].1 by {
            assert(r@[0].0@ =~= vowel_table()[0].0);
            assert(r@[0].1.0@ =~= vowel_table()[0].1.0);
            assert(r@[1].0@ =~= vowel_table()[1].0);
            assert(r@[1].1.0@ =~= vowel_table()[1].1.0);
            assert(r@[1].1.1->Some_0@ =~= vowel_table()[1].1.1->Some_0);
            assert(r@[2].0@ =~= vowel_table()[2].0);
            assert(r@[2].1.0@ =~= vowel_table()[2].1.0);
            assert(r@[2].1.1->Some_0@ =~= vowel_table()[2].1.1->Some_0);
            assert(r@[3].0@ =~= vowel_table()[3].0);
            assert(r@[3].1.0@ =~= vowel_table()[3].1.0);
            assert(r@[3].1.1->Some_0@ =~= vowel_table()[3].1.1->Some_0);
            assert(r@[4].0@ =~= vowel_table()[4].0);
            assert(r@[4].1.0@ =~= vowel_table()[4].1.0);
            assert(r@[4].1.1->Some_0@ =~= vowel_table()[4].1.1->Some_0);
            assert(r@[5].0@ =~= vowel_table()[5].0);
            assert(r@[5].1.0@ =~= vowel_table()[5].1.0);
            assert(r@[5].1.1->Some_0@ =~= vowel_table()[5].1.1->Some_0);
            assert(r@[6].0@ =~= vowel_table()[6].0);
            assert(r@[6].1.0@ =~= vowel_table()[6].1.0);
            assert(r@[6].1.1->Some_0@ =~= vowel_table()[6].1.1->Some_0);
            assert(r@[7].0@ =~= vowel_table()[7].0);
            assert(r@[7].1.0@ =~= vowel_table()[7].1.0);
            assert(r@[7].1.1->Some_0@ =~= vowel_table()[7].1.1->Some_0);
            assert(r@[8].0@ =~= vowel_table()[8].0);
            assert(r@[8].1.0@ =~= vowel_table()[8].1.0);
            assert(r@[8].1.1->Some_0@ =~= vowel_table()[8].1.1->Some_0);
            assert(r@[9].0@ =~= vowel_table()[9].0);
            assert(r@[9].1.0@ =~= vowel_table()[9].1.0);
            assert(r@[9].1.1->Some_0@ =~= vowel_table()[9].1.1->Some_0);
            assert(r@[10].0@ =~= vowel_table()[10].0);
            assert(r@[10].1.0@ =~= vowel_table()[10].1.0);
            assert(r@[10].1.1->Some_0@ =~= vowel_table()[10].1.1->Some_0);
            assert(r@[11].0@ =~= vowel_table()[11].0);
            assert(r@[11].1.0@ =~= vowel_table()[11].1.0);
            assert(r@[11].1.1->Some_0@ =~= vowel_table()[11].1.1->Some_0);
        }
    }
    r
}

/// The public vowel entry holds exactly the spec vowel entry.
pub open spec fn bengali_vowel_ok(v: BengaliVowel, s: (Seq<char>, Option<Seq<char>>)) -> bool {
    &&& v.independent@ == s.0
    &&& match (v.dependent, s.1) {
        (Some(d), Some(sd)) => d@ == sd,
        (None, None) => true,
        _ => false,
    }
}

/// All consonant mappings, as strings.
pub fn consonants() -> (r: Vec<(String, String)>)
    ensures
        str_pairs_ok(r@, consonant_table()),
{
    let tab = consonant_chars();
    to_string_pairs(&tab, Ghost(consonant_table()))
}

fn to_string_pairs_range(
    tab: &Vec<(Vec<char>, Vec<char>)>,
    Ghost(st): Ghost<Seq<(Seq<char>, Seq<char>)>>,
    lo: usize,
    hi: usize,
) -> (r: Vec<(String, String)>)
    requires
        pair_tab_ok(tab@, st),
        lo <= hi <= tab@.len(),
    ensures
        str_pairs_ok(r@, st.subrange(lo as int, hi as int)),
{
    let mut r: Vec<(String, String)> = Vec::new();
    let mut n: usize = lo;
    while n < hi
        invariant
            pair_tab_ok(tab@, st),
            lo <= n <= hi <= tab@.len(),
            r@.len() == n - lo,
            forall|i: int|
                0 <= i < r@.len() ==> r@[i].0@ == st[lo + i].0 && r@[i].1@ == st[lo + i].1,
        decreases hi - n,
    {
        let k = crate::chars::string_of(&tab[n].0);
        let v = crate::chars::string_of(&tab[n].1);
        r.push((k, v));
        n += 1;
    }
    r
}

/// The consonants grouped by phonetic class.
pub fn consonant_system() -> (r: ConsonantSystem)
    ensures
        str_pairs_ok(r.velars@, velar_table()),
        str_pairs_ok(r.palatals@, palatal_table()),
        str_pairs_ok(r.retroflexes@, retroflex_table()),
        str_pairs_ok(r.dentals@, dental_table()),
        str_pairs_ok(r.labials@, labial_table()),
        str_pairs_ok(r.semivowels@, semivowel_table()),
        str_pairs_ok(r.fricatives@, fricative_table()),
        str_pairs_ok(r.special@, special_con_table()),
{
    let tab = consonant_chars();
    proof {
        assert(consonant_table().subrange(0, 5) =~= velar_table());
        assert(consonant_table().subrange(5, 11) =~= palatal_table());
        assert(consonant_table().subrange(11, 16) =~= retroflex_table());
        assert(consonant_table().subrange(16, 21) =~= dental_table());
        assert(consonant_table().subrange(21, 28) =~= labial_table());
        assert(consonant_table().subrange(28, 31) =~= semivowel_table());
        assert(consonant_table().subrange(31, 36) =~= fricative_table());
        assert(consonant_table().subrange(36, 40) =~= special_con_table());
    }
    ConsonantSystem {
        velars: to_string_pairs_range(&tab, Ghost(consonant_table()), 0, 5),
        palatals: to_string_pairs_range(&tab, Ghost(consonant_table()), 5, 11),
        retroflexes: to_string_pairs_range(&tab, Ghost(consonant_table()), 11, 16),
        dentals: to_string_pairs_range(&tab, Ghost(consonant_table()), 16, 21),
        labials: to_string_pairs_range(&tab, Ghost(consonant_table()), 21, 28),
        semivowels: to_string_pairs_range(&tab, Ghost(consonant_table()), 28, 31),
        fricatives: to_string_pairs_range(&tab, Ghost(consonant_table()), 31, 36),
        special: to_string_pairs_range(&tab, Ghost(consonant_table()), 36, 40),
    }
}

/// All vowels with both forms.
pub fn vowels() -> (r: Vec<(String, BengaliVowel)>)
    ensures
        r@.len() == vowel_table().len(),
        forall|i: int|
            0 <= i < r@.len() ==> r@[i].0@ == vowel_table()[i].0 && bengali_vowel_ok(
                r@[i].1,
                vowel_table()[i].1,
            ),
{
    let tab = vowel_chars();
    let mut r: Vec<(String, BengaliVowel)> = Vec::new();
    let mut n: usize = 0;
    while n < tab.len()
        invariant
            vowel_tab_ok(tab@, vowel_table()),
            n <= tab.len(),
            r@.len() == n,
            forall|i: int|
                0 <= i < n ==> r@[i].0@ == vowel_table()[i].0 && bengali_vowel_ok(
                    r@[i].1,
                    vowel_table()[i].1,
                ),
        decreases tab.len() - n,
    {
        let k = crate::chars::string_of(&tab[n].0);
        let ind = crate::chars::string_of(&tab[n].1.0);
        let dep: Option<String> = match &tab[n].1.1 {
            Some(d) => Some(crate::chars::string_of(d)),
            None => None,
        };
        r.push((k, BengaliVowel { independent: ind, dependent: dep }));
        n += 1;
    }
    r
}

/// The independent form of every vowel.
pub fn independent_vowels() -> (r: Vec<(String, String)>)
    ensures
        r@.len() == vowel_table().len(),
        forall|i: int|
            0 <= i < r@.len() ==> r@[i].0@ == vowel_table()[i].0 && r@[i].1@
                == vowel_table()[i].1.0,
{
    let tab = vowel_chars();
    let mut r: Vec<(String, String)> = Vec::new();
    let mut n: usize = 0;
    while n < tab.len()
        invariant
            vowel_tab_ok(tab@, vowel_table()),
            n <= tab.len(),
            r@.len() == n,
            forall|i: int|
                0 <= i < n ==> r@[i].0@ == vowel_table()[i].0 && r@[i].1@ == vowel_table()[i].1.0,
        decreases tab.len() - n,
    {
        let k = crate::chars::string_of(&tab[n].0);
        let ind = crate::chars::string_of(&tab[n].1.0);
        r.push((k, ind));
        n += 1;
    }
    r
}

/// The vowels that have a dependent form, scanning the table from `n` on.
pub open spec fn modifiers_from(
    t: Seq<(Seq<char>, (Seq<char>, Option<Seq<char>>))>,
    n: int,
) -> Seq<(Seq<char>, Seq<char>)>
    decreases t.len() - n,
{
    if n < 0 || n >= t.len() {
        Seq::empty()
    } else {
        let rest = modifiers_from(t, n + 1);
        match t[n].1.1 {
            Some(d) => seq![(t[n].0, d)] + rest,
            None => rest,
        }
    }
}

fn vowel_modifiers_from(
    tab: &Vec<(Vec<char>, (Vec<char>, Option<Vec<char>>))>,
    n: usize,
) -> (r: Vec<(String, String)>)
    requires
        vowel_tab_ok(tab@, vowel_table()),
        n <= tab.len(),
    ensures
        str_pairs_ok(r@, modifiers_from(vowel_table(), n as int)),
    decreases tab.len() - n,
{
    if n == tab.len() {
        return Vec::new();
    }
    let mut rest = vowel_modifiers_from(tab, n + 1);
    match &tab[n].1.1 {
        Some(d) => {
            let k = crate::chars::string_of(&tab[n].0);
            let v = crate::chars::string_of(d);
            rest.insert(0, (k, v));
            rest
        },
        None => rest,
    }
}

/// The dependent (kar) form of every vowel that has one.
pub fn vowel_modifiers() -> (r: Vec<(String, String)>)
    ensures
        str_pairs_ok(r@, modifiers_from(vowel_table(), 0)),
{
    let tab = vowel_chars();
    vowel_modifiers_from(&tab, 0)
}

/// The diacritic escapes: hasant, chandrabindu, visarga, khanda-ta, anusvara.
pub fn diacritics() -> (r: Vec<(String, String)>)
    ensures
        str_pairs_ok(r@, diacritic_table()),
{
    let tab = diacritic_chars();
    to_string_pairs(&tab, Ghost(diacritic_table()))
}

/// Symbols substituted one for one.
pub fn symbols() -> (r: Vec<(String, String)>)
    ensures
        str_pairs_ok(r@, symbol_table()),
{
    let tab = symbol_chars();
    to_string_pairs(&tab, Ghost(symbol_table()))
}

/// The ten digits and their Bengali numerals.
pub fn numerals() -> (r: Vec<(String, String)>)
    ensures
        str_pairs_ok(r@, numeral_table()),
{
    let tab = numeral_chars();
    to_string_pairs(&tab, Ghost(numeral_table()))
}

/// Compound sequences with fixed special forms.
pub fn special_rules() -> (r: Vec<(String, String)>)
    ensures
        str_pairs_ok(r@, special_rule_table()),
{
    let tab = special_rule_chars();
    to_string_pairs(&tab, Ghost(special_rule_table()))
}

} // verus!
