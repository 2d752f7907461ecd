use obadh_engine::ObadhEngine;

#[test]
fn test_reph_simple() {
    let engine = ObadhEngine::new();
    
    // Test simple reph formations
    assert_eq!(engine.transliterate("rm"), "র্ম");   // ra + hasanta + ma
    assert_eq!(engine.transliterate("rk"), "র্ক");   // ra + hasanta + ka
    assert_eq!(engine.transliterate("rg"), "র্গ");   // ra + hasanta + ga
    assert_eq!(engine.transliterate("rp"), "র্প");   // ra + hasanta + pa
}

#[test]
fn test_reph_with_vowels() {
    let engine = ObadhEngine::new();
    
    // Test reph with vowels
    assert_eq!(engine.transliterate("rma"), "র্মা");   // reph + ma + aa
    assert_eq!(engine.transliterate("rke"), "র্কে");   // reph + ka + e
    assert_eq!(engine.transliterate("rgi"), "র্গি");   // reph + ga + i
    assert_eq!(engine.transliterate("rpu"), "র্পু");   // reph + pa + u
}
