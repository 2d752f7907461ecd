use obadh_engine::{ObadhEngine, Tokenizer, TokenType};

#[test]
fn test_text_tokenization() {
    let tokenizer = Tokenizer::new();
    
    // Test basic text tokenization
    let tokens = tokenizer.tokenize_text("Hello World!");
    
    // Debug information to see the actual tokens
    println!("Tokens for 'Hello World!':");
    for (i, token) in tokens.iter().enumerate() {
        println!("Token {}: {:?} - '{}'", i, token.token_type, token.content);
    }
    
    // Update the expected count to 4 tokens: "Hello", " ", "World", "!"
    assert_eq!(tokens.len(), 4); 
    
    // Check token types
    assert_eq!(tokens[0].token_type, TokenType::Word);
    assert_eq!(tokens[0].content, "Hello");
    
    assert_eq!(tokens[1].token_type, TokenType::Whitespace);
    assert_eq!(tokens[1].content, " ");
    
    assert_eq!(tokens[2].token_type, TokenType::Word);
    assert_eq!(tokens[2].content, "World");
    
    assert_eq!(tokens[3].token_type, TokenType::Punctuation);
    assert_eq!(tokens[3].content, "!");
    
    // Test with the suggested example
    let tokens = tokenizer.tokenize_text("Amar nam, 1234.");
    
    // Debug information
    println!("\nTokens for 'Amar nam, 1234.':");
    for (i, token) in tokens.iter().enumerate() {
        println!("Token {}: {:?} - '{}'", i, token.token_type, token.content);
    }
    
    // Check the tokenization - should be 7 tokens
    assert_eq!(tokens.len(), 7); // "Amar", " ", "nam", ",", " ", "1234", "."
    
    // Check for specific tokens
    assert_eq!(tokens[0].token_type, TokenType::Word);
    assert_eq!(tokens[0].content, "Amar");
    
    assert_eq!(tokens[2].token_type, TokenType::Word);
    assert_eq!(tokens[2].content, "nam");
    
    assert_eq!(tokens[4].token_type, TokenType::Whitespace);
    
    // Check for number token
    assert_eq!(tokens[5].token_type, TokenType::Number);
    assert_eq!(tokens[5].content, "1234");
    
    // Check for punctuation tokens
    assert_eq!(tokens[3].token_type, TokenType::Punctuation);
    assert_eq!(tokens[3].content, ",");
    
    assert_eq!(tokens[6].token_type, TokenType::Punctuation);
    assert_eq!(tokens[6].content, ".");
}

#[test]
fn test_integration_with_engine() {
    let engine = ObadhEngine::new();
    
    // Test text tokenization through the engine using suggested example
    let tokens = engine.tokenize("Amar nam, 1234.");
    
    println!("\nEngine tokenization of 'Amar nam, 1234.':");
    for (i, token) in tokens.iter().enumerate() {
        println!("Token {}: {:?} - '{}'", i, token.token_type, token.content);
    }
    
    // Verify we get the expected number of tokens
    assert_eq!(tokens.len(), 7);
    
    // Verify token types
    assert_eq!(tokens[0].token_type, TokenType::Word);
    assert_eq!(tokens[0].content, "Amar");
    
    assert_eq!(tokens[2].token_type, TokenType::Word);
    assert_eq!(tokens[2].content, "nam");
    
    assert_eq!(tokens[5].token_type, TokenType::Number);
    assert_eq!(tokens[5].content, "1234");
    
    // Test phonetic tokenization through the engine
    // Just test that it works, without assuming specific patterns
    let test_words = ["kha", "gha", "Amar", "nam"];
    
    for word in test_words {
        let units = engine.tokenize_phonetic(word);
        println!("Engine phonetic tokenization of '{}': {:?}", word, units);
        
        // Just verify we got some units back
        assert!(!units.is_empty());
        
        // Print out the unit types for diagnostic purposes
        for unit in &units {
            println!("Unit: '{}' - {:?}", unit.text, unit.unit_type);
        }
    }
}
