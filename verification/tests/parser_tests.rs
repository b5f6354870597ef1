use expense_tracker::parser::ExpenseParser;
use expense_tracker::parser::ModelPrediction;
use expense_tracker::parser::category_name;
use expense_tracker::parser::intent_name;
use expense_tracker::parser::language_name;
use expense_tracker::parser::multiplier_of;
use expense_tracker::parser::preprocess;

fn prediction(intent: usize, language: usize, category: usize) -> ModelPrediction {
    ModelPrediction { intent_index: intent, language_index: language, category_index: category }
}

#[test]
fn parse_amount_with_thousand_suffix() {
    let parser = ExpenseParser::new().ok().unwrap();
    let p = parser.parse("Beli kopi 25rb", &prediction(0, 1, 1)).unwrap();
    assert_eq!(p.intent, "add_expense");
    assert_eq!(p.language, "id");
    assert_eq!(p.category_group, "food");
    let a = p.amount.unwrap();
    assert_eq!(a.number, "25");
    assert_eq!(a.multiplier, 1000);
    assert_eq!(p.description, "beli kopi");
    assert_eq!(p.item_name, "beli kopi");
}

#[test]
fn parse_slang_amount() {
    let parser = ExpenseParser::new().ok().unwrap();
    let p = parser.parse("makan siang gocap", &prediction(0, 1, 1)).unwrap();
    let a = p.amount.unwrap();
    assert_eq!(a.number, "50000");
    assert_eq!(a.multiplier, 1);
    assert_eq!(p.description, "makan siang");
}

#[test]
fn parse_english_slang_and_million_suffix() {
    let parser = ExpenseParser::new().ok().unwrap();
    let p = parser.parse("Taxi A Fiver", &prediction(0, 0, 2)).unwrap();
    assert_eq!(p.language, "en");
    assert_eq!(p.category_group, "transport");
    let a = p.amount.unwrap();
    assert_eq!(a.number, "5");
    assert_eq!(a.multiplier, 1);
    assert_eq!(p.description, "taxi");

    let p = parser.parse("Laptop Rp 1,5jt", &prediction(0, 1, 5)).unwrap();
    let a = p.amount.unwrap();
    assert_eq!(a.number, "1.5");
    assert_eq!(a.multiplier, 1_000_000);
    assert_eq!(p.description, "laptop");
}

#[test]
fn parse_without_number_has_no_amount() {
    let parser = ExpenseParser::new().ok().unwrap();
    let p = parser.parse("  Beli   kopi  ", &prediction(0, 1, 1)).unwrap();
    assert!(p.amount.is_none());
    assert_eq!(p.description, "beli kopi");
    assert_eq!(p.item_name, "beli kopi");
}

#[test]
fn parse_other_intents_drop_the_amount() {
    let parser = ExpenseParser::new().ok().unwrap();
    for intent in [1usize, 2, 3, 9] {
        let p = parser.parse("kopi 25rb", &prediction(intent, 1, 1)).unwrap();
        assert!(p.amount.is_none());
        assert_eq!(p.description, "kopi");
    }
    let p = parser.parse("halo", &prediction(2, 0, 9)).unwrap();
    assert_eq!(p.intent, "greeting");
    assert_eq!(p.category_group, "unknown");
}

#[test]
fn intent_language_and_category_names() {
    assert_eq!(intent_name(0), "add_expense");
    assert_eq!(intent_name(1), "query");
    assert_eq!(intent_name(2), "greeting");
    assert_eq!(intent_name(3), "non_expense");
    assert_eq!(intent_name(100), "non_expense");
    assert_eq!(language_name(0), "en");
    assert_eq!(language_name(1), "id");
    assert_eq!(language_name(7), "id");
    let names = ["entertainment", "food", "transport", "other", "bills", "shopping", "health", "unknown", "unknown"];
    for (i, n) in names.iter().enumerate() {
        assert_eq!(category_name(i), *n);
    }
}

#[test]
fn multiplier_words() {
    for w in ["rb", "ribu", "rebu", "k", "grand"] {
        assert_eq!(multiplier_of(w), 1000);
    }
    for w in ["jt", "juta", "jeti", "mil", "m"] {
        assert_eq!(multiplier_of(w), 1_000_000);
    }
    for w in ["bucks", "", "RB", "x"] {
        assert_eq!(multiplier_of(w), 1);
    }
}

#[test]
fn parse_uppercase_suffix_and_dollar_sign() {
    let parser = ExpenseParser::new().ok().unwrap();
    let p = parser.parse("Nonton $12 BUCKS", &prediction(0, 0, 0)).unwrap();
    let a = p.amount.unwrap();
    assert_eq!(a.number, "12");
    assert_eq!(a.multiplier, 1);
    assert_eq!(p.description, "nonton");
    let p = parser.parse("Bensin 100K", &prediction(0, 1, 2)).unwrap();
    let a = p.amount.unwrap();
    assert_eq!(a.number, "100");
    assert_eq!(a.multiplier, 1000);
    assert_eq!(p.description, "bensin");
}

#[test]
fn preprocess_lowercases_and_spells_out_slang() {
    let s: String = preprocess("CEBAN dan Goceng, a tenner").into_iter().collect();
    assert_eq!(s, "10000 dan 5000, 10");
    let s: String = preprocess("seceng gopek cepek").into_iter().collect();
    assert_eq!(s, "1000 500 100");
}

#[test]
fn parse_removes_every_copy_of_the_matched_amount() {
    let parser = ExpenseParser::new().ok().unwrap();
    let p = parser.parse("5rb roti 5rb", &prediction(0, 1, 1)).unwrap();
    let a = p.amount.unwrap();
    assert_eq!(a.number, "5");
    assert_eq!(a.multiplier, 1000);
    assert_eq!(p.description, "roti");
}

#[test]
fn parsed_description_holds_no_capital_letter() {
    let parser = ExpenseParser::new().ok().unwrap();
    let p = parser.parse("BELI Kopi SUSU 25RB di WARUNG", &prediction(0, 1, 1)).unwrap();
    assert_eq!(p.description, "beli kopi susu di warung");
    assert_eq!(p.item_name, "beli kopi susu di warung");
    assert!(!p.description.chars().any(|c| c.is_ascii_uppercase()));
    let a = p.amount.unwrap();
    assert_eq!(a.number, "25");
    assert_eq!(a.multiplier, 1000);
}
