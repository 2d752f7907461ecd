use obadh_engine::conjuncts::{ConjunctHandler, RephDirection};

#[test]
fn test_can_form_conjunct() {
    let handler = ConjunctHandler::new();

    assert!(handler.can_form_conjunct("ক", "ত"));
    assert!(handler.can_form_conjunct("স", "ত"));
    assert!(handler.can_form_conjunct("ক", "ষ")); // Special conjunct ক্ষ
}

#[test]
fn test_form_conjunct() {
    let handler = ConjunctHandler::new();

    assert_eq!(handler.form_conjunct("ক", "ত"), "ক্ত");
    assert_eq!(handler.form_conjunct("ন", "ত"), "ন্ত");
    assert_eq!(handler.form_conjunct("ক", "ষ"), "ক্ষ"); // Special conjunct
}

#[test]
fn test_phala_formation() {
    let handler = ConjunctHandler::new();

    assert_eq!(handler.form_yaphala("ব"), "ব্য");
    assert_eq!(handler.form_raphala("প"), "প্র");
}

#[test]
fn test_reph_formation() {
    let handler = ConjunctHandler::new();

    assert_eq!(handler.form_reph("ম"), "র্ম");

    let handler_after = handler.with_reph_direction(RephDirection::After);
    assert_eq!(handler_after.form_reph("ম"), "মর্");
}
