use obadh_engine::{ObadhEngine, PhoneticUnitType, Tokenizer};

#[test]
fn test_explicit_conjunct_formation() {
    let tokenizer = Tokenizer::new();

    // Test explicit conjunct formation with hasant (simple case)
    let units = tokenizer.tokenize_word("k,,k");

    println!("Tokenization of 'k,,k':");
    for unit in &units {
        println!("Unit '{}' type: {:?}", unit.text, unit.unit_type);
    }

    // Verify we get a conjunct
    assert!(!units.is_empty());
    assert_eq!(units.len(), 1);
    assert_eq!(units[0].unit_type, PhoneticUnitType::Conjunct);
}

#[test]
fn test_explicit_hasant_structure() {
    let tokenizer = Tokenizer::new();

    // A consonant, an explicit hasant marker and a consonant collapse into
    // one conjunct; a marker after a finished conjunct stays a unit of its
    // own, so a longer run alternates conjuncts and markers.
    let units = tokenizer.tokenize_word("n,,d,,r");
    assert_eq!(units.len(), 3);
    assert_eq!(units[0].unit_type, PhoneticUnitType::Conjunct);
    assert_eq!(units[0].text, "n,,d");
    assert_eq!(units[1].unit_type, PhoneticUnitType::ConsonantWithHasant);
    assert_eq!(units[2].unit_type, PhoneticUnitType::Consonant);

    // A trailing marker also stays separate.
    let units = tokenizer.tokenize_word("kk,,");
    assert_eq!(units.len(), 2);
    assert_eq!(units[0].unit_type, PhoneticUnitType::Conjunct);
    assert_eq!(units[0].text, "k,,k");
    assert_eq!(units[1].unit_type, PhoneticUnitType::ConsonantWithHasant);
}

#[test]
fn test_explicit_hasant_rendering() {
    let engine = ObadhEngine::new();

    // The separate marker still renders as a hasant appended to what came
    // before it, so explicit and implicit clustering read the same.
    assert_eq!(engine.transliterate("n,,d,,r"), "ন্দ্র");
    assert_eq!(engine.transliterate("k,,k"), "ক্ক");
    assert_eq!(engine.transliterate("kk,,"), "ক্ক্");
}

#[test]
fn test_mixed_hasant_notation() {
    let tokenizer = Tokenizer::new();

    // Test mixing auto and explicit hasant (k,,lr)
    let units = tokenizer.tokenize_word("k,,lr");

    println!("Tokenization of 'k,,lr':");
    for unit in &units {
        println!("Unit '{}' type: {:?}", unit.text, unit.unit_type);
    }

    // Verify the output structure
    assert!(!units.is_empty());

    // Test more complex mixed notation (n,,dr)
    let units = tokenizer.tokenize_word("n,,dr");

    println!("Tokenization of 'n,,dr':");
    for unit in &units {
        println!("Unit '{}' type: {:?}", unit.text, unit.unit_type);
    }

    // Verify the output structure
    assert!(!units.is_empty());
}
