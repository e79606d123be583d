use guessing_game::verdict::{QaItem, Verdict};

#[test]
fn label_and_class_of_yes() {
    let v = Verdict::Yes;
    assert_eq!(v.label(), "Yes");
    assert_eq!(v.class(), "badge yes");
}

#[test]
fn label_and_class_of_no() {
    let v = Verdict::No;
    assert_eq!(v.label(), "No");
    assert_eq!(v.class(), "badge no");
}

#[test]
fn label_and_class_of_unable() {
    let v = Verdict::Unable;
    assert_eq!(v.label(), "Unable");
    assert_eq!(v.class(), "badge wrong");
}

#[test]
fn label_and_class_of_other() {
    let v = Verdict::Other(String::from("Maybe"));
    assert_eq!(v.label(), "Maybe");
    assert_eq!(v.class(), "badge other");
}

#[test]
fn qa_item_holds_its_fields() {
    let item = QaItem {
        question: String::from("Is it alive?"),
        verdict: Verdict::Yes,
        explanation: String::from("It breathes."),
    };
    assert_eq!(item.question, "Is it alive?");
    assert_eq!(item.verdict.label(), "Yes");
    assert_eq!(item.explanation, "It breathes.");
}
