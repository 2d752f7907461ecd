use obadh_engine::ObadhEngine;

#[test]
fn test_numbers() {
    let engine = ObadhEngine::new();
    
    // Test Bengali numerals
    assert_eq!(engine.transliterate("0123456789"), "০১২৩৪৫৬৭৮৯");
}

#[test]
fn test_punctuation() {
    let engine = ObadhEngine::new();
    
    // Test punctuation conversion
    assert_eq!(engine.transliterate("ami."), "আমি।");
    assert_eq!(engine.transliterate("tumi?"), "তুমি?");
    assert_eq!(engine.transliterate("bhai!"), "ভাই!");
    assert_eq!(engine.transliterate("ami, tumi"), "আমি, তুমি");
}
