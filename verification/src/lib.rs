//! Roman-to-Bengali phonetic transliteration.
//!
//! The crate turns Roman-script phonetic spellings of Bengali (Avro-style
//! input) into composed Bengali Unicode text.  A line is first split into
//! word, whitespace, punctuation, number and symbol tokens; each word is then
//! segmented into typed phonetic units by longest-match scanning followed by
//! structural merging (conjuncts, vowel attachment, reph); finally the unit
//! sequence is rendered left to right into Bengali characters.
//!
//! Every stage is specified by a spec-level transduction over character
//! sequences, and the executable pipeline is proved to compute exactly that
//! transduction.

use vstd::prelude::*;
use vstd::string::StringExecFns;

pub mod chars;
pub mod conjuncts;
pub mod definitions;
pub mod laws;
pub mod phoneme;
pub mod phonology;
pub mod sanitizer;
pub mod special;
pub mod syllable;
pub mod tokenizer;
pub mod transliterator;
pub mod vowels;

pub use sanitizer::{SanitizeResult, Sanitizer};
pub use tokenizer::{PhoneticUnit, PhoneticUnitType, Token, TokenType, Tokenizer};
pub use transliterator::Transliterator;

use transliterator::{transliterate_lenient_spec, transliterate_spec};

verus! {

/// How much detail accompanies the output.
#[derive(Debug, Clone, Copy, PartialEq, Eq, Structural)]
pub enum VerbosityLevel {
    /// Only the final output.
    Quiet,
    /// Basic information.
    Normal,
    /// Detailed analysis.
    Detailed,
    /// Full debugging information.
    Debug,
}

/// The shape the result is wrapped in.
#[derive(Debug, Clone, Copy, PartialEq, Eq, Structural)]
pub enum OutputFormat {
    /// Plain text.
    Text,
    /// JSON.
    Json,
    /// XML.
    Xml,
    /// HTML.
    Html,
    /// Markdown.
    Markdown,
}

/// The XML wrapping of an input and its output.
pub open spec fn xml_wrap(i: Seq<char>, o: Seq<char>) -> Seq<char> {
    "<result><input>"@ + i + "</input><output>"@ + o + "</output></result>"@
}

/// The HTML wrapping of an input and its output.
pub open spec fn html_wrap(i: Seq<char>, o: Seq<char>) -> Seq<char> {
    "<div class=\"transliteration\"><div class=\"input\">"@ + i + "</div><div class=\"output\">"@
        + o + "</div></div>"@
}

/// The Markdown wrapping of an input and its output.
pub open spec fn md_wrap(i: Seq<char>, o: Seq<char>) -> Seq<char> {
    "**Input:** "@ + i + "\n\n**Output:** "@ + o
}

/// One character under JSON string escaping.
pub open spec fn json_escape_char(c: char) -> Seq<char> {
    if c == '"' {
        seq!['\\', '"']
    } else if c == '\\' {
        seq!['\\', '\\']
    } else if c == '\n' {
        seq!['\\', 'n']
    } else if c == '\r' {
        seq!['\\', 'r']
    } else if c == '\t' {
        seq!['\\', 't']
    } else {
        seq![c]
    }
}

/// The characters from index `n` on, JSON-escaped.
pub open spec fn json_escape_from(s: Seq<char>, n: int) -> Seq<char>
    decreases s.len() - n,
{
    if n < 0 || n >= s.len() {
        Seq::empty()
    } else {
        json_escape_char(s[n]) + json_escape_from(s, n + 1)
    }
}

/// The JSON wrapping of an input and its output; the quiet form leaves the
/// input out.
pub open spec fn json_wrap(i: Option<Seq<char>>, o: Seq<char>) -> Seq<char> {
    match i {
        Some(i) => "{\"input\": \""@ + json_escape_from(i, 0) + "\", \"output\": \""@
            + json_escape_from(o, 0) + "\"}"@,
        None => "{\"output\": \""@ + json_escape_from(o, 0) + "\"}"@,
    }
}

fn json_escape_exec(s: &str) -> (r: String)
    ensures
        r@ == json_escape_from(s@, 0),
{
    let cs = chars::chars_of(s);
    let mut out: Vec<char> = Vec::new();
    let mut n: usize = 0;
    while n < cs.len()
        invariant
            n <= cs.len(),
            cs@ == s@,
            json_escape_from(s@, 0) == out@ + json_escape_from(s@, n as int),
        decreases cs.len() - n,
    {
        let ghost pre = out@;
        let c = cs[n];
        if c == '"' {
            out.push('\\');
            out.push('"');
        } else if c == '\\' {
            out.push('\\');
            out.push('\\');
        } else if c == '\n' {
            out.push('\\');
            out.push('n');
        } else if c == '\r' {
            out.push('\\');
            out.push('r');
        } else if c == '\t' {
            out.push('\\');
            out.push('t');
        } else {
            out.push(c);
        }
        proof {
            assert(out@ =~= pre + json_escape_char(s@[n as int]));
            assert(pre + (json_escape_char(s@[n as int]) + json_escape_from(s@, n + 1)) =~= (pre
                + json_escape_char(s@[n as int])) + json_escape_from(s@, n + 1));
        }
        n += 1;
    }
    proof {
        assert(out@ + json_escape_from(s@, n as int) =~= out@);
    }
    chars::string_of(&out)
}

/// The engine: a transducer plus output options.
pub struct ObadhEngine {
    transliterator: Transliterator,
    debug_mode: bool,
    verbosity: VerbosityLevel,
    output_format: OutputFormat,
}

impl ObadhEngine {
    /// The sanitizer the engine's transducer validates with.
    pub closed spec fn san(&self) -> Sanitizer {
        self.transliterator.sanitizer
    }

    /// The configured verbosity.
    pub closed spec fn verbosity_level(&self) -> VerbosityLevel {
        self.verbosity
    }

    /// The configured output format.
    pub closed spec fn format(&self) -> OutputFormat {
        self.output_format
    }

    /// An engine with the default transducer, text output and normal
    /// verbosity.
    pub fn new() -> (r: ObadhEngine)
        ensures
            r.san().extra@ == Seq::<char>::empty(),
            !r.is_debug(),
            r.verbosity_level() == VerbosityLevel::Normal,
            r.format() == OutputFormat::Text,
    {
        ObadhEngine {
            transliterator: Transliterator::new(),
            debug_mode: false,
            verbosity: VerbosityLevel::Normal,
            output_format: OutputFormat::Text,
        }
    }

    /// Whether debug mode is on.
    pub closed spec fn is_debug(&self) -> bool {
        self.debug_mode
    }

    /// Turn debug mode on or off.
    pub fn with_debug_mode(self, enable: bool) -> (r: ObadhEngine)
        ensures
            r.is_debug() == enable,
            r.san() == self.san(),
            r.verbosity_level() == self.verbosity_level(),
            r.format() == self.format(),
    {
        ObadhEngine { debug_mode: enable, ..self }
    }

    /// Set the verbosity level.
    pub fn with_verbosity(self, level: VerbosityLevel) -> (r: ObadhEngine)
        ensures
            r.verbosity_level() == level,
            r.san() == self.san(),
            r.is_debug() == self.is_debug(),
            r.format() == self.format(),
    {
        ObadhEngine { verbosity: level, ..self }
    }

    /// Set the output format.
    pub fn with_output_format(self, format: OutputFormat) -> (r: ObadhEngine)
        ensures
            r.format() == format,
            r.san() == self.san(),
            r.is_debug() == self.is_debug(),
            r.verbosity_level() == self.verbosity_level(),
    {
        ObadhEngine { output_format: format, ..self }
    }

    /// Whether debug mode is on.
    pub fn is_debug_mode(&self) -> (r: bool)
        ensures
            r == self.is_debug(),
    {
        self.debug_mode
    }

    /// Transliterate one line of Roman text to Bengali.
    pub fn transliterate(&self, text: &str) -> (r: String)
        ensures
            r@ == transliterate_spec(text@),
    {
        self.transliterator.transliterate(text)
    }

    /// Transliterate and wrap the result in the configured format.  The
    /// JSON form carries the input and the output alone, at every
    /// verbosity; a caller that wants the token, phoneme or syllable
    /// breakdown reads it from `analyze`.
    pub fn transliterate_as(&self, text: &str) -> (r: String)
        ensures
            self.format() == OutputFormat::Text ==> r@ == transliterate_spec(text@),
            self.format() == OutputFormat::Xml ==> r@ == xml_wrap(
                text@,
                transliterate_spec(text@),
            ),
            self.format() == OutputFormat::Html ==> r@ == html_wrap(
                text@,
                transliterate_spec(text@),
            ),
            self.format() == OutputFormat::Markdown ==> r@ == md_wrap(
                text@,
                transliterate_spec(text@),
            ),
            self.format() == OutputFormat::Json ==> r@ == json_wrap(
                if self.verbosity_level() == VerbosityLevel::Quiet {
                    None
                } else {
                    Some(text@)
                },
                transliterate_spec(text@),
            ),
    {
        let out = self.transliterate(text);
        match self.output_format {
            OutputFormat::Text => out,
            OutputFormat::Xml => {
                let mut s = String::new();
                s.append("<result><input>");
                s.append(text);
                s.append("</input><output>");
                s.append(out.as_str());
                s.append("</output></result>");
                s
            },
            OutputFormat::Html => {
                let mut s = String::new();
                s.append("<div class=\"transliteration\"><div class=\"input\">");
                s.append(text);
                s.append("</div><div class=\"output\">");
                s.append(out.as_str());
                s.append("</div></div>");
                s
            },
            OutputFormat::Markdown => {
                let mut s = String::new();
                s.append("**Input:** ");
                s.append(text);
                s.append("\n\n**Output:** ");
                s.append(out.as_str());
                s
            },
            OutputFormat::Json => {
                let eo = json_escape_exec(out.as_str());
                let mut s = String::new();
                if matches!(self.verbosity, VerbosityLevel::Quiet) {
                    s.append("{\"output\": \"");
                    s.append(eo.as_str());
                    s.append("\"}");
                } else {
                    let ei = json_escape_exec(text);
                    s.append("{\"input\": \"");
                    s.append(ei.as_str());
                    s.append("\", \"output\": \"");
                    s.append(eo.as_str());
                    s.append("\"}");
                }
                s
            },
        }
    }

    /// Transliterate each text of a batch, in order.
    pub fn batch_transliterate(&self, texts: &[&str]) -> (r: Vec<String>)
        ensures
            r@.len() == texts@.len(),
            forall|i: int|
                0 <= i < r@.len() ==> r@[i]@ == transliterate_spec(texts@[i]@),
    {
        let mut r: Vec<String> = Vec::new();
        let mut n: usize = 0;
        while n < texts.len()
            invariant
                n <= texts.len(),
                r@.len() == n,
                forall|i: int|
                    0 <= i < n ==> r@[i]@ == transliterate_spec(texts@[i]@),
            decreases texts.len() - n,
        {
            let t: &&str = vstd::slice::slice_index_get(texts, n);
            r.push(self.transliterate(*t));
            n += 1;
        }
        r
    }

    /// Transliterate each text of a batch and wrap each result in the
    /// configured format.
    pub fn batch_transliterate_as(&self, texts: &[&str]) -> (r: Vec<String>)
        ensures
            r@.len() == texts@.len(),
            self.format() == OutputFormat::Text ==> forall|i: int|
                0 <= i < r@.len() ==> r@[i]@ == transliterate_spec(texts@[i]@),
    {
        let mut r: Vec<String> = Vec::new();
        let mut n: usize = 0;
        while n < texts.len()
            invariant
                n <= texts.len(),
                r@.len() == n,
                self.format() == OutputFormat::Text ==> forall|i: int|
                    0 <= i < n ==> r@[i]@ == transliterate_spec(texts@[i]@),
            decreases texts.len() - n,
        {
            let t: &&str = vstd::slice::slice_index_get(texts, n);
            r.push(self.transliterate_as(*t));
            n += 1;
        }
        r
    }

    /// Transliterate a batch; one shared transducer serves every text, so
    /// this is the same transduction as `batch_transliterate`.
    pub fn batch_transliterate_efficient(&self, texts: &[&str]) -> (r: Vec<String>)
        ensures
            r@.len() == texts@.len(),
            forall|i: int|
                0 <= i < r@.len() ==> r@[i]@ == transliterate_spec(texts@[i]@),
    {
        self.batch_transliterate(texts)
    }

    /// Transliterate leniently: characters the sanitizer refuses are
    /// dropped, the rest is transliterated.
    pub fn transliterate_lenient(&self, text: &str) -> (r: String)
        ensures
            r@ == transliterate_lenient_spec(self.san(), text@),
    {
        self.transliterator.transliterate_lenient(text)
    }

    /// Validate a line against the allowed character set.
    pub fn sanitize(&self, text: &str) -> (r: SanitizeResult)
        ensures
            r is Ok <==> sanitizer::allows_all(self.san(), text@),
            r matches Ok(s) ==> s@ == text@,
            r matches Err(m) ==> m@ == sanitizer::invalid_msg_prefix() + sanitizer::offenders(
                self.san(),
                text@,
            ),
    {
        self.transliterator.sanitize(text)
    }

    /// Split a line into tokens.
    pub fn tokenize(&self, text: &str) -> (r: Vec<Token>)
        ensures
            tokenizer::token_views(r@) == tokenizer::tok_from(text@, 0, Seq::empty(), 0),
    {
        self.transliterator.tokenize(text)
    }

    /// Segment one word into phonetic units.
    pub fn tokenize_phonetic(&self, word: &str) -> (r: Vec<PhoneticUnit>)
        ensures
            tokenizer::unit_views(r@) == tokenizer::segment_word(word@),
    {
        self.transliterator.tokenize_phonetic(word)
    }
}

/// One indented line per token.
pub open spec fn token_lines(ts: Seq<tokenizer::SToken>, n: int) -> Seq<char>
    decreases ts.len() - n,
{
    if n < 0 || n >= ts.len() {
        Seq::empty()
    } else {
        "  "@ + ts[n].content + "\n"@ + token_lines(ts, n + 1)
    }
}

/// The diagnostic text of one analysis, by verbosity: nothing when quiet;
/// one line normally; the token list when detailed or debugging.  The list
/// gives each token's text, one per line; indices and kinds stay with
/// `analyze`'s structured result.
pub open spec fn analysis_info(
    v: VerbosityLevel,
    input: Seq<char>,
    output: Seq<char>,
    ts: Seq<tokenizer::SToken>,
) -> Seq<char> {
    match v {
        VerbosityLevel::Quiet => Seq::empty(),
        VerbosityLevel::Normal => "Input: "@ + input + ", Output: "@ + output,
        _ => "Input: "@ + input + "\nOutput: "@ + output + "\nTokens:\n"@ + token_lines(ts, 0),
    }
}

impl ObadhEngine {
    /// A detailed breakdown of the transliteration of one line.
    pub fn analyze(&self, text: &str) -> (r: transliterator::TransliterationAnalysis)
        ensures
            tokenizer::token_views(r.tokens@) == tokenizer::tok_from(text@, 0, Seq::empty(), 0),
            r.output@ == transliterate_spec(text@),
    {
        self.transliterator.analyze(text)
    }

    /// The transliteration of one line together with diagnostic text of the
    /// configured verbosity.
    pub fn analyze_with_details(&self, text: &str) -> (r: (String, String))
        ensures
            r.0@ == transliterate_spec(text@),
            r.1@ == analysis_info(
                self.verbosity_level(),
                text@,
                transliterate_spec(text@),
                tokenizer::tok_from(text@, 0, Seq::empty(), 0),
            ),
    {
        let analysis = self.analyze(text);
        let result = self.transliterate(text);
        let ghost views = tokenizer::token_views(analysis.tokens@);
        let info: String = match self.verbosity {
            VerbosityLevel::Quiet => String::new(),
            VerbosityLevel::Normal => {
                let mut s = String::new();
                s.append("Input: ");
                s.append(text);
                s.append(", Output: ");
                s.append(result.as_str());
                s
            },
            _ => {
                let mut s = String::new();
                s.append("Input: ");
                s.append(text);
                s.append("\nOutput: ");
                s.append(result.as_str());
                s.append("\nTokens:\n");
                let mut n: usize = 0;
                while n < analysis.tokens.len()
                    invariant
                        n <= analysis.tokens@.len(),
                        views == tokenizer::token_views(analysis.tokens@),
                        s@ + token_lines(views, n as int) == "Input: "@ + text@ + "\nOutput: "@
                            + result@ + "\nTokens:\n"@ + token_lines(views, 0),
                    decreases analysis.tokens.len() - n,
                {
                    let ghost pre = s@;
                    s.append("  ");
                    s.append(analysis.tokens[n].content.as_str());
                    s.append("\n");
                    proof {
                        assert(s@ =~= pre + ("  "@ + views[n as int].content + "\n"@));
                        assert(pre + ("  "@ + views[n as int].content + "\n"@ + token_lines(
                            views,
                            n + 1,
                        )) =~= (pre + ("  "@ + views[n as int].content + "\n"@)) + token_lines(
                            views,
                            n + 1,
                        ));
                    }
                    n += 1;
                }
                proof {
                    assert(s@ + token_lines(views, n as int) =~= s@);
                }
                s
            },
        };
        (result, info)
    }
}

impl Default for ObadhEngine {
    fn default() -> Self {
        ObadhEngine::new()
    }
}

} // verus!
