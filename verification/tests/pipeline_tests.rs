use obadh_engine::definitions;
use obadh_engine::special::SpecialHandler;
use obadh_engine::vowels::{VowelForm, VowelHandler};
use obadh_engine::{ObadhEngine, OutputFormat, VerbosityLevel};

#[test]
fn test_empty_and_whitespace_identity() {
    let engine = ObadhEngine::new();

    // Transliterating nothing yields nothing.
    assert_eq!(engine.transliterate(""), "");
    // Pure whitespace comes back unchanged, run lengths intact.
    assert_eq!(engine.transliterate(" "), " ");
    assert_eq!(engine.transliterate("   "), "   ");
}

#[test]
fn test_whitespace_and_punctuation_structure() {
    let engine = ObadhEngine::new();

    // One space, two terminal marks, all in place; the full stop becomes
    // the dari.
    assert_eq!(engine.transliterate("ami. tumi?"), "আমি। তুমি?");
    // A run of two spaces survives as a run of two spaces.
    assert_eq!(engine.transliterate("ki  kori"), "কি  করি");
}

#[test]
fn test_numeral_keys_standalone() {
    let engine = ObadhEngine::new();

    assert_eq!(engine.transliterate("0"), "০");
    assert_eq!(engine.transliterate("5"), "৫");
    assert_eq!(engine.transliterate("9"), "৯");
}

#[test]
fn test_conjunct_law_pairs() {
    let engine = ObadhEngine::new();

    // Two consonant keys with nothing between them cluster through the
    // hasant.
    assert_eq!(engine.transliterate("gm"), "গ্ম");
    assert_eq!(engine.transliterate("Tk"), "ট্ক");
    assert_eq!(engine.transliterate("lp"), "ল্প");
}

#[test]
fn test_compound_stopper_pairs() {
    let engine = ObadhEngine::new();

    // A lowercase `o` between two consonants suppresses the conjunct.
    assert_eq!(engine.transliterate("gom"), "গম");
    assert_eq!(engine.transliterate("lop"), "লপ");
}

#[test]
fn test_reph_placement() {
    let engine = ObadhEngine::new();

    // The reph stands before its host's glyph.
    assert_eq!(engine.transliterate("rm"), "র্ম");
    assert_eq!(engine.transliterate("rrk"), "র্ক");
}

#[test]
fn test_fixture_words() {
    let engine = ObadhEngine::new();

    assert_eq!(engine.transliterate("bhalo"), "ভালো");
    assert_eq!(engine.transliterate("bishwo"), "বিশ্ব");
    assert_eq!(engine.transliterate("biddaloy"), "বিদ্দালয়");
    assert_eq!(engine.transliterate("kOnnO"), "কোন্নো");
    assert_eq!(engine.transliterate("t``"), "ৎ");
    assert_eq!(engine.transliterate("T``"), "ৎ");
    assert_eq!(engine.transliterate("bidyut``"), "বিদ্যুৎ");
}

#[test]
fn test_word_final_terminator() {
    let engine = ObadhEngine::new();

    // The terminating vowel closing a word of several units draws the
    // o-kar on a single consonant; a bare consonant-plus-terminator word,
    // a non-final terminator and a conjunct's terminator stay silent.
    assert_eq!(engine.transliterate("bhalo"), "ভালো");
    assert_eq!(engine.transliterate("ko"), "ক");
    assert_eq!(engine.transliterate("kok"), "কক");
    assert_eq!(engine.transliterate("kokko"), "কক্ক");
    assert_eq!(engine.transliterate("boi"), "বই");
}

#[test]
fn test_fallback_unknown_character() {
    let engine = ObadhEngine::new();

    // A character no table knows appears unchanged, and the Bengali around
    // it is unaffected.
    assert_eq!(engine.transliterate("kxk"), "কxক");
    assert_eq!(engine.transliterate("x"), "x");
}

#[test]
fn test_totality_over_any_string() {
    let engine = ObadhEngine::new();

    // The transducer is total: a character outside the allowed set still
    // passes through alone while the spans around it render; the sanitizer
    // reports it, and the lenient form drops it.
    assert_eq!(engine.transliterate("ami\u{09be}"), "আমি\u{09be}");
    assert!(engine.sanitize("ami\u{09be}").is_err());
    assert_eq!(
        engine.sanitize("ami\u{09be}").unwrap_err(),
        "Invalid characters found: \u{09be}"
    );
    assert_eq!(engine.transliterate_lenient("ami\u{09be}"), "আমি");
}

#[test]
fn test_special_escapes() {
    let engine = ObadhEngine::new();

    // Visarga, chandrabindu, anusvara and the special rules.
    assert_eq!(engine.transliterate("du:kh"), "দুঃখ");
    assert_eq!(engine.transliterate("ba^dh"), "বাঁধ");
    assert_eq!(engine.transliterate("bangla"), "বাংলা");
    assert_eq!(engine.transliterate("kkhomota"), "ক্ষমতা");
    assert_eq!(engine.transliterate("ggan"), "জ্ঞান");
}

#[test]
fn test_output_format_wrappers() {
    let engine = ObadhEngine::new().with_output_format(OutputFormat::Markdown);
    assert_eq!(engine.transliterate_as("ki"), "**Input:** ki\n\n**Output:** কি");

    let engine = ObadhEngine::new().with_output_format(OutputFormat::Html);
    assert_eq!(
        engine.transliterate_as("ki"),
        "<div class=\"transliteration\"><div class=\"input\">ki</div><div class=\"output\">কি</div></div>"
    );

    let engine = ObadhEngine::new().with_output_format(OutputFormat::Json);
    assert_eq!(engine.transliterate_as("ki"), "{\"input\": \"ki\", \"output\": \"কি\"}");

    let engine = ObadhEngine::new()
        .with_output_format(OutputFormat::Json)
        .with_verbosity(VerbosityLevel::Quiet);
    assert_eq!(engine.transliterate_as("ki"), "{\"output\": \"কি\"}");
}

#[test]
fn test_engine_configuration() {
    let engine = ObadhEngine::new();
    assert!(!engine.is_debug_mode());
    let engine = engine.with_debug_mode(true);
    assert!(engine.is_debug_mode());
}

#[test]
fn test_vowel_handler_forms() {
    let handler = VowelHandler::new();
    assert!(handler.is_vowel("A"));
    assert!(!handler.is_vowel("k"));
    assert_eq!(handler.get_vowel_form("A", VowelForm::Independent), Some("আ".to_string()));
    assert_eq!(handler.get_vowel_form("A", VowelForm::Dependent), Some("\u{9be}".to_string()));
    assert_eq!(handler.get_vowel_form("o", VowelForm::Dependent), Some(String::new()));
    assert_eq!(handler.determine_vowel_form("A", false, false), VowelForm::Independent);
    assert_eq!(handler.determine_vowel_form("o", true, false), VowelForm::Inherent);
    assert_eq!(handler.determine_vowel_form("A", true, false), VowelForm::Dependent);
    assert!(handler.is_vowel_vowel_combination("ai"));
    assert_eq!(handler.get_vowel_vowel_combination("ai"), Some("আই".to_string()));
}

#[test]
fn test_special_handler_marks() {
    let handler = SpecialHandler::new();
    assert_eq!(handler.get_special_char("t."), Some("ৎ".to_string()));
    assert_eq!(handler.get_special_char("^"), Some("ঁ".to_string()));
    assert_eq!(handler.get_special_char("zz"), None);
    assert_eq!(handler.add_anusvar("বা"), "বাং");
    assert_eq!(handler.add_chandrabindu("চা"), "চাঁ");
    assert_eq!(handler.add_visarga("দু"), "দুঃ");
    assert_eq!(handler.apply_zwj("র্‍য"), "র্‍য");
    assert_eq!(handler.process_special_sequences("ন্‌ন"), "ন্‌ন");
}

#[test]
fn test_definitions_tables() {
    let cons = definitions::consonants();
    assert_eq!(cons.len(), 40);
    assert!(cons.iter().any(|(k, v)| k == "k" && v == "ক"));
    assert!(cons.iter().any(|(k, v)| k == "ch" && v == "ছ"));
    assert!(cons.iter().any(|(k, v)| k == "y" && v == "য়"));
    assert!(!cons.iter().any(|(k, _)| k == "w"));
    let vows = definitions::vowels();
    assert_eq!(vows.len(), 12);
    assert_eq!(definitions::vowel_modifiers().len(), 11);
    assert!(vows.iter().any(|(k, v)| k == "o" && v.independent == "অ" && v.dependent.is_none()));
    assert!(
        vows.iter().any(
            |(k, v)| k == "O" && v.independent == "ও" && v.dependent == Some("ো".to_string()),
        )
    );
    let system = definitions::consonant_system();
    assert_eq!(system.velars.len(), 5);
    assert_eq!(system.retroflexes[0], ("T".to_string(), "ট".to_string()));
    assert!(definitions::numerals().iter().any(|(k, v)| k == "7" && v == "৭"));
    assert!(definitions::symbols().iter().any(|(k, v)| k == "." && v == "।"));
    assert!(definitions::diacritics().iter().any(|(k, v)| k == ",," && v == "্"));
    assert!(definitions::special_rules().iter().any(|(k, v)| k == "kkh" && v == "ক্ষ"));
    assert!(definitions::independent_vowels().iter().any(|(k, v)| k == "i" && v == "ই"));
    assert!(definitions::vowel_modifiers().iter().any(|(k, v)| k == "i" && v == "ি"));
    assert!(!definitions::vowel_modifiers().iter().any(|(k, _)| k == "o"));
}
