use obadh_engine::{ObadhEngine, OutputFormat};

/// Test vectors for known working cases (from vowel tests)
fn get_test_cases() -> Vec<(&'static str, &'static str)> {
    vec![
        ("a", "আ"),
        ("e", "এ"),
        ("i", "ই"),
        ("o", "অ"),
        ("u", "উ"),
        
        ("ama", "আমা"),
        ("ele", "এলে"),
        ("ila", "ইলা"),
        ("oke", "অকে"),
        ("ura", "উরা"),
        
        ("amar", "আমার"),
        ("tOmar", "তোমার")
    ]
}
#[test]
fn test_standard_transliteration() {
    let engine = ObadhEngine::new();
    
    for &(input, expected) in &get_test_cases() {
        let result = engine.transliterate(input);
        assert_eq!(result, expected, "Failed on input: {}", input);
    }
}
#[test]
fn test_xml_output_format() {
    let engine = ObadhEngine::new()
        .with_output_format(OutputFormat::Xml);
    
    for (input, expected) in get_test_cases().into_iter().take(2) {
        let xml_result = engine.transliterate_as(input);
        
        // Simple check for XML structure
        assert!(xml_result.starts_with("<result>"), "XML should start with <result>");
        assert!(xml_result.contains(&format!("<input>{}</input>", input)), "XML should contain input");
        assert!(xml_result.contains(&format!("<output>{}</output>", expected)), "XML should contain output");
        assert!(xml_result.ends_with("</result>"), "XML should end with </result>");
    }
}
#[test]
fn test_batch_transliteration() {
    let engine = ObadhEngine::new();
    let inputs: Vec<&str> = get_test_cases().iter().map(|(input, _)| *input).collect();
    let expected: Vec<&str> = get_test_cases().iter().map(|(_, expected)| *expected).collect();
    
    // Test standard batch
    let results = engine.batch_transliterate(&inputs);
    assert_eq!(results, expected, "Batch results should match expected outputs");
    
    // Test efficient batch
    let efficient_results = engine.batch_transliterate_efficient(&inputs);
    assert_eq!(efficient_results, expected, "Efficient batch results should match expected outputs");
}
