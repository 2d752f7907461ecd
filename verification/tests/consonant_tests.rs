use obadh_engine::ObadhEngine;

#[test]
fn test_alternate_consonant_forms() {
    let engine = ObadhEngine::new();
    
    // Test alternate forms for consonants
    assert_eq!(engine.transliterate("f"), "ফ");     // Alternative for 'ph'
    assert_eq!(engine.transliterate("v"), "ভ");     // Often pronounced as 'bh' in Bengali
}

#[test]
fn test_consonant_sequences() {
    let engine = ObadhEngine::new();

    // Test consonant sequences without conjuncts
    assert_eq!(engine.transliterate("krm"), "ক্রম");
    assert_eq!(engine.transliterate("prt"), "প্রত");
    assert_eq!(engine.transliterate("sthn"), "স্থন");
}
