//! Input validation against the allowed character set.

use vstd::prelude::*;

use crate::chars::{digit_char, is_digit_char, is_letter_char, letter_char, string_of};

verus! {

/// Outcome of sanitizing: the input itself, or a message naming the
/// characters that are not allowed.
pub type SanitizeResult = Result<String, String>;

/// The punctuation and symbols allowed besides letters and digits.
pub open spec fn is_default_symbol(c: char) -> bool {
    ||| c == ' ' ||| c == ',' ||| c == '.' ||| c == ':' ||| c == ';' ||| c == '!' ||| c == '?'
    ||| c == '(' ||| c == ')' ||| c == '[' ||| c == ']' ||| c == '{' ||| c == '}' ||| c == '"'
    ||| c == '\'' ||| c == '`' ||| c == '-' ||| c == '_' ||| c == '+' ||| c == '=' ||| c == '/'
    ||| c == '\\' ||| c == '|' ||| c == '@' ||| c == '#' ||| c == '$' ||| c == '%' ||| c == '^'
    ||| c == '&' ||| c == '*' ||| c == '<' ||| c == '>'
}

/// The default allowed set: ASCII letters, digits, and the symbol set.
pub open spec fn is_default_allowed(c: char) -> bool {
    is_letter_char(c) || is_digit_char(c) || is_default_symbol(c)
}

fn default_symbol(c: char) -> (r: bool)
    ensures
        r == is_default_symbol(c),
{
    c == ' ' || c == ',' || c == '.' || c == ':' || c == ';' || c == '!' || c == '?' || c == '('
        || c == ')' || c == '[' || c == ']' || c == '{' || c == '}' || c == '"' || c == '\'' || c
        == '`' || c == '-' || c == '_' || c == '+' || c == '=' || c == '/' || c == '\\' || c == '|'
        || c == '@' || c == '#' || c == '$' || c == '%' || c == '^' || c == '&' || c == '*' || c
        == '<' || c == '>'
}

/// Validates input text before transliteration.
pub struct Sanitizer {
    /// Characters allowed beyond the default set.
    pub extra: Vec<char>,
}

/// Whether the sanitizer allows the character.
pub open spec fn allows(s: Sanitizer, c: char) -> bool {
    is_default_allowed(c) || s.extra@.contains(c)
}

/// Whether the sanitizer allows every character of the text.
pub open spec fn allows_all(s: Sanitizer, text: Seq<char>) -> bool {
    forall|i: int| 0 <= i < text.len() ==> allows(s, text[i])
}

/// The text with the characters the sanitizer refuses removed.
pub open spec fn cleaned(s: Sanitizer, text: Seq<char>) -> Seq<char> {
    text.filter(|c: char| allows(s, c))
}

/// The distinct characters of the first `n` of `text` that the sanitizer
/// refuses, in order of first occurrence.
pub open spec fn offenders_upto(s: Sanitizer, text: Seq<char>, n: int) -> Seq<char>
    decreases n,
{
    if n <= 0 || n > text.len() {
        Seq::empty()
    } else {
        let pre = offenders_upto(s, text, n - 1);
        if !allows(s, text[n - 1]) && !pre.contains(text[n - 1]) {
            pre.push(text[n - 1])
        } else {
            pre
        }
    }
}

/// The distinct characters of `text` that the sanitizer refuses, in order
/// of first occurrence.
pub open spec fn offenders(s: Sanitizer, text: Seq<char>) -> Seq<char> {
    offenders_upto(s, text, text.len() as int)
}

/// The prefix of the sanitizer's error message.
pub open spec fn invalid_msg_prefix() -> Seq<char> {
    seq![
        'I', 'n', 'v', 'a', 'l', 'i', 'd', ' ', 'c', 'h', 'a', 'r', 'a', 'c', 't', 'e', 'r', 's',
        ' ', 'f', 'o', 'u', 'n', 'd', ':', ' ',
    ]
}

impl Sanitizer {
    /// A sanitizer with the default allowed set.
    pub fn new() -> (r: Sanitizer)
        ensures
            r.extra@ == Seq::<char>::empty(),
    {
        Sanitizer { extra: Vec::new() }
    }

    /// Allow the given characters as well.
    pub fn with_allowed_chars(self, chars: &[char]) -> (r: Sanitizer)
        ensures
            r.extra@ == self.extra@ + chars@,
    {
        let mut extra = self.extra;
        let mut n: usize = 0;
        while n < chars.len()
            invariant
                n <= chars.len(),
                extra@ == self.extra@ + chars@.subrange(0, n as int),
            decreases chars.len() - n,
        {
            extra.push(chars[n]);
            proof {
                assert(self.extra@ + chars@.subrange(0, n + 1) =~= (self.extra@
                    + chars@.subrange(0, n as int)).push(chars@[n as int]));
            }
            n += 1;
        }
        proof {
            assert(chars@.subrange(0, chars@.len() as int) =~= chars@);
        }
        Sanitizer { extra }
    }

    fn allowed(&self, c: char) -> (r: bool)
        ensures
            r == allows(*self, c),
    {
        if letter_char(c) || digit_char(c) || default_symbol(c) {
            return true;
        }
        let mut n: usize = 0;
        while n < self.extra.len()
            invariant
                n <= self.extra.len(),
                forall|t: int| 0 <= t < n ==> self.extra@[t] != c,
            decreases self.extra.len() - n,
        {
            if self.extra[n] == c {
                return true;
            }
            n += 1;
        }
        false
    }

    /// Accept the text unchanged when every character is allowed; otherwise
    /// report the offending characters, each once, in order of first
    /// occurrence, after a fixed message prefix.
    pub fn sanitize(&self, input: &str) -> (r: SanitizeResult)
        ensures
            r is Ok <==> allows_all(*self, input@),
            r matches Ok(s) ==> s@ == input@,
            r matches Err(m) ==> m@ == invalid_msg_prefix() + offenders(*self, input@),
    {
        let chars = crate::chars::chars_of(input);
        let mut bad: Vec<char> = Vec::new();
        let mut n: usize = 0;
        while n < chars.len()
            invariant
                n <= chars.len(),
                chars@ == input@,
                bad@ == offenders_upto(*self, input@, n as int),
            decreases chars.len() - n,
        {
            let ghost pre = bad@;
            let c = chars[n];
            if !self.allowed(c) {
                let mut seen = false;
                let mut j: usize = 0;
                while j < bad.len()
                    invariant
                        j <= bad.len(),
                        seen == (exists|t: int| 0 <= t < j && bad@[t] == c),
                    decreases bad.len() - j,
                {
                    if bad[j] == c {
                        proof {
                            let wi = j as int;
                            assert(bad@[wi] == c);
                        }
                        seen = true;
                    }
                    j += 1;
                }
                proof {
                    assert(seen == pre.contains(c));
                }
                if !seen {
                    bad.push(c);
                }
            }
            proof {
                assert(bad@ =~= offenders_upto(*self, input@, n + 1));
            }
            n += 1;
        }
        proof {
            lemma_offenders_empty(*self, input@, n as int);
        }
        if bad.len() == 0 {
            Ok(input.to_owned())
        } else {
            let mut msg = chars_of_msg();
            crate::chars::push_all(&mut msg, &bad);
            Err(string_of(&msg))
        }
    }

    /// The input with every character the sanitizer refuses removed.
    pub fn clean(&self, input: &str) -> (r: String)
        ensures
            r@ == cleaned(*self, input@),
    {
        let chars = crate::chars::chars_of(input);
        let mut keep: Vec<char> = Vec::new();
        let mut n: usize = 0;
        while n < chars.len()
            invariant
                n <= chars.len(),
                chars@ == input@,
                keep@ == input@.subrange(0, n as int).filter(|c: char| allows(*self, c)),
            decreases chars.len() - n,
        {
            proof {
                reveal_with_fuel(Seq::filter, 2);
                assert(input@.subrange(0, n + 1) =~= input@.subrange(0, n as int).push(
                    input@[n as int],
                ));
                assert(input@.subrange(0, n as int).push(input@[n as int]).drop_last()
                    == input@.subrange(0, n as int));
            }
            if self.allowed(chars[n]) {
                keep.push(chars[n]);
            }
            n += 1;
        }
        proof {
            assert(input@.subrange(0, input@.len() as int) =~= input@);
        }
        string_of(&keep)
    }

    /// Whether the text holds only allowed characters.
    pub fn is_valid(&self, input: &str) -> (r: bool)
        ensures
            r == allows_all(*self, input@),
    {
        let chars = crate::chars::chars_of(input);
        let mut n: usize = 0;
        while n < chars.len()
            invariant
                n <= chars.len(),
                chars@ == input@,
                forall|t: int| 0 <= t < n ==> allows(*self, input@[t]),
            decreases chars.len() - n,
        {
            if !self.allowed(chars[n]) {
                proof {
                    assert(!allows(*self, input@[n as int]));
                }
                return false;
            }
            n += 1;
        }
        true
    }
}

impl Default for Sanitizer {
    fn default() -> Self {
        Sanitizer::new()
    }
}

/// The prefix of the sanitizer's error message, executable.
fn chars_of_msg() -> (r: Vec<char>)
    ensures
        r@ == invalid_msg_prefix(),
{
    let r: Vec<char> = vec![
        'I', 'n', 'v', 'a', 'l', 'i', 'd', ' ', 'c', 'h', 'a', 'r', 'a', 'c', 't', 'e', 'r', 's',
        ' ', 'f', 'o', 'u', 'n', 'd', ':', ' ',
    ];
    proof {
        assert(r@ =~= invalid_msg_prefix());
    }
    r
}

/// The refused characters of the first `n` are none at all exactly when
/// every one of the first `n` characters is allowed.
proof fn lemma_offenders_empty(s: Sanitizer, text: Seq<char>, n: int)
    requires
        0 <= n <= text.len(),
    ensures
        (offenders_upto(s, text, n).len() == 0) <==> (forall|t: int|
            0 <= t < n ==> allows(s, text[t])),
    decreases n,
{
    if n == 0 {
    } else {
        lemma_offenders_empty(s, text, n - 1);
        let pre = offenders_upto(s, text, n - 1);
        if !allows(s, text[n - 1]) && pre.contains(text[n - 1]) {
            assert(pre.len() > 0);
        }
    }
}

} // verus!
