use obadh_engine::phoneme::{Phoneme, PhonemeType};
use obadh_engine::phonology::{LetterToken, PhonologyEngine};
use obadh_engine::syllable::Syllable;
use obadh_engine::tokenizer::TokenPosition;
use obadh_engine::{ObadhEngine, TokenType};

fn letter(text: &str, kind: obadh_engine::TokenType, pos: Option<TokenPosition>) -> LetterToken {
    LetterToken { text: text.to_string(), token_type: kind, position: pos }
}

#[test]
fn test_tokens_to_phonemes_consonant_vowel() {
    let engine = PhonologyEngine::new();
    // `k` followed by `A` becomes one consonant phoneme with the aa-kar.
    let tokens = vec![
        letter("k", TokenType::Consonant, Some(TokenPosition::Initial)),
        letter("A", TokenType::Vowel, Some(TokenPosition::Final)),
    ];
    let phonemes = engine.tokens_to_phonemes(&tokens);
    assert_eq!(phonemes.len(), 1);
    assert_eq!(phonemes[0].bengali, "ক");
    assert_eq!(phonemes[0].vowel, Some("\u{9be}".to_string()));
    assert!(phonemes[0].is_consonant());
}

#[test]
fn test_tokens_to_phonemes_reph() {
    let engine = PhonologyEngine::new();
    // `r` before a consonant with no vowel after it becomes the reph.
    let tokens = vec![
        letter("r", TokenType::Consonant, Some(TokenPosition::Initial)),
        letter("m", TokenType::Consonant, Some(TokenPosition::Medial)),
        letter("t", TokenType::Consonant, Some(TokenPosition::Final)),
    ];
    let phonemes = engine.tokens_to_phonemes(&tokens);
    assert!(phonemes[0].is_reph);
    assert_eq!(phonemes[0].bengali, "র");
    assert_eq!(phonemes[0].vowel, Some("্".to_string()));
}

#[test]
fn test_tokens_to_phonemes_independent_vowel() {
    let engine = PhonologyEngine::new();
    let tokens = vec![letter("A", TokenType::Vowel, Some(TokenPosition::Initial))];
    let phonemes = engine.tokens_to_phonemes(&tokens);
    assert_eq!(phonemes.len(), 1);
    assert_eq!(phonemes[0].bengali, "আ");
    assert!(phonemes[0].is_vowel());
}

#[test]
fn test_organize_into_syllables_groups_consonants() {
    let engine = PhonologyEngine::new();
    let tokens = vec![
        letter("k", TokenType::Consonant, Some(TokenPosition::Initial)),
        letter("A", TokenType::Vowel, Some(TokenPosition::Medial)),
        letter("m", TokenType::Consonant, Some(TokenPosition::Final)),
    ];
    let phonemes = engine.tokens_to_phonemes(&tokens);
    let syllables = engine.organize_into_syllables(&phonemes);
    assert_eq!(syllables.len(), 2);
    assert_eq!(syllables[0].get_consonant_text(), "ক");
    assert_eq!(syllables[0].get_vowel_text(), "\u{985}");
    assert!(syllables[1].has_consonants());
}

#[test]
fn test_format_syllables_simple() {
    let engine = PhonologyEngine::new();
    let tokens = vec![
        letter("m", TokenType::Consonant, Some(TokenPosition::Initial)),
        letter("A", TokenType::Vowel, Some(TokenPosition::Final)),
    ];
    let phonemes = engine.tokens_to_phonemes(&tokens);
    let syllables = engine.organize_into_syllables(&phonemes);
    let out = engine.format_syllables(&syllables);
    assert_eq!(out, "মা");
}

#[test]
fn test_format_syllable_reph_precedes_host() {
    let engine = PhonologyEngine::new();
    // A syllable carrying a reph writes the reph glyph before its host's
    // letters, never after them.
    let mut s = Syllable::new();
    s.add_consonant(Phoneme::new("ম".to_string(), PhonemeType::Consonant, None));
    s.set_has_reph(true);
    let out = engine.format_syllables(&[s]);
    assert_eq!(out, "র্ম");
}

#[test]
fn test_phoneme_queries() {
    let p = Phoneme::new("ক".to_string(), PhonemeType::Consonant, None);
    assert!(p.is_consonant());
    assert!(!p.is_vowel());
    assert!(!p.is_modifier());
    assert!(!p.is_hasanta());
    assert!(!p.is_whitespace());
    assert!(!p.is_punctuation());
    assert_eq!(p.bengali(), "ক");
    assert_eq!(p.roman(), "");

    let h = Phoneme::new("্".to_string(), PhonemeType::Modifier, None);
    assert!(h.is_hasanta());
}

#[test]
fn test_syllable_construction() {
    let mut s = Syllable::new();
    assert!(s.is_empty());
    s.add_consonant(Phoneme::new("ক".to_string(), PhonemeType::Consonant, None));
    s.add_consonant(Phoneme::new("ত".to_string(), PhonemeType::Consonant, None));
    assert!(s.has_consonants());
    assert_eq!(s.get_consonant_count(), 2);
    assert_eq!(s.get_consonant_text(), "ক্ত");
    s.set_vowel(Phoneme::new("আ".to_string(), PhonemeType::Vowel, None));
    assert!(s.has_vowel());
    assert_eq!(s.get_vowel_text(), "আ");
    s.add_modifier(Phoneme::new("্".to_string(), PhonemeType::Modifier, None));
    assert!(s.has_modifiers());
    assert!(s.has_hasanta());
    assert_eq!(s.get_modifier_text(), "্");
    assert!(!s.is_special());
    s.set_has_reph(true);
    assert!(s.has_reph());
    s.set_has_ya_phala(true);
    assert!(s.has_ya_phala());
    s.set_has_bo_fola(true);
    assert!(s.has_bo_fola());
    s.set_standalone(true);
    assert!(s.is_standalone());
    s.set_has_preceding_reph(true);
    assert!(s.has_preceding_reph());
    assert!(s.has_consonant_with_text("ক"));
    assert!(!s.has_consonant_with_text("ম"));
}

#[test]
fn test_syllable_stopper_text() {
    let mut s = Syllable::new();
    let mut k = Phoneme::new("ক".to_string(), PhonemeType::Consonant, None);
    k.vowel = Some(String::new());
    s.add_consonant(k);
    s.add_consonant(Phoneme::new("ত".to_string(), PhonemeType::Consonant, None));
    // A compound stopper keeps the letters bare.
    assert!(s.has_compound_stopper());
    assert_eq!(s.get_consonant_text(), "কত");
}

#[test]
fn test_engine_analyze() {
    let engine = ObadhEngine::new();
    let analysis = engine.analyze("ami banglay gan gai");
    assert_eq!(analysis.output, engine.transliterate("ami banglay gan gai"));
    assert!(!analysis.tokens.is_empty());
    assert!(!analysis.phonemes.is_empty());
    assert!(!analysis.syllables.is_empty());

    let (result, info) = engine.analyze_with_details("ki");
    assert_eq!(result, "কি");
    assert_eq!(info, "Input: ki, Output: কি");
}
