use obadh_engine::{Tokenizer, ObadhEngine};

#[test]
fn test_real_world_phola_examples() {
    // Create engine for transliteration testing
    let engine = ObadhEngine::new();
    let tokenizer = Tokenizer::new();
    
    // Test case 1: sohy => সহ্য
    let units = tokenizer.tokenize_word("sohy");
    
    println!("Tokenization of 'sohy':");
    for unit in &units {
        println!("Unit '{}' type: {:?}", unit.text, unit.unit_type);
    }
    
    // Verify structure
    assert!(!units.is_empty());
    
    // Test the transliteration result
    let result = engine.transliterate("sohy");
    println!("'sohy' transliterates to: {}", result);
    assert_eq!(result, "সহ্য");
    
    // Test case 2: biSw => বিশ্ব
    let units = tokenizer.tokenize_word("biSw");
    
    println!("Tokenization of 'biSw':");
    for unit in &units {
        println!("Unit '{}' type: {:?}", unit.text, unit.unit_type);
    }
    
    // Verify structure
    assert!(!units.is_empty());
    
    // Test the transliteration result
    let result = engine.transliterate("biSw");
    println!("'biSw' transliterates to: {}", result);
    assert_eq!(result, "বিশ্ব");
}

#[test]
fn test_specific_phola_examples() {
    let engine = ObadhEngine::new();
    
    // Test case 1: sohy => সহ্য
    let result = engine.transliterate("sohy");
    println!("'sohy' transliterates to: {}", result);
    assert_eq!(result, "সহ্য");
    
    // Test case 2: biSw => বিশ্ব
    let result = engine.transliterate("biSw");
    println!("'biSw' transliterates to: {}", result);
    assert_eq!(result, "বিশ্ব");
}

#[test]
fn test_fola_from_renderer_state() {
    let engine = ObadhEngine::new();

    // `y` and `w` after a rendered bare consonant attach as jo-phola and
    // bo-phola, and the attachment still takes a following vowel's
    // dependent form.
    assert_eq!(engine.transliterate("tw"), "ত্ব");
    assert_eq!(engine.transliterate("twa"), "ত্বা");
    assert_eq!(engine.transliterate("biSwas"), "বিশ্বাস");
    assert_eq!(engine.transliterate("SwaSw"), "শ্বাশ্ব");
    assert_eq!(engine.transliterate("dhwoni"), "ধ্বনি");
    assert_eq!(engine.transliterate("atmbiSwas"), "আত্মবিশ্বাস");
}

#[test]
fn test_vocalic_r_case() {
    let engine = ObadhEngine::new();
    
    // Test krri => কৃ
    let result = engine.transliterate("krri");
    println!("'krri' transliterates to: {}", result);
    assert_eq!(result, "কৃ");
}
