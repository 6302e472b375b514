use ingest_pipeline::error::DecodeFailure;
use ingest_pipeline::records::check_records;
use ingest_pipeline::records::is_numeric;
use ingest_pipeline::records::Transaction;

fn record(quantity: &str, unit_price: &str) -> Transaction {
    Transaction {
        invoice_no: String::from("536365"),
        stock_code: String::from("85123A"),
        description: String::from("WHITE HANGING HEART T-LIGHT HOLDER"),
        quantity: String::from(quantity),
        invoice_date: String::from("12/1/2010 8:26"),
        unit_price: String::from(unit_price),
        customer_id: String::from("17850"),
        country: String::from("United Kingdom"),
    }
}

#[test]
fn plain_numbers_are_numeric() {
    assert!(is_numeric("2"));
    assert!(is_numeric("3.50"));
    assert!(is_numeric("10.00"));
    assert!(is_numeric("-6"));
    assert!(is_numeric("+6"));
    assert!(is_numeric("007"));
}

#[test]
fn a_dot_needs_a_digit_on_one_side() {
    assert!(is_numeric("5."));
    assert!(is_numeric(".5"));
    assert!(!is_numeric("."));
    assert!(!is_numeric("-."));
    assert!(!is_numeric("1..2"));
    assert!(!is_numeric("1.2.3"));
}

#[test]
fn an_exponent_needs_digits() {
    assert!(is_numeric("2.5E10"));
    assert!(is_numeric("2.5e-10"));
    assert!(is_numeric("1e+5"));
    assert!(is_numeric("5.e3"));
    assert!(!is_numeric("1e"));
    assert!(!is_numeric("1e+"));
    assert!(!is_numeric("e5"));
    assert!(!is_numeric(".e5"));
    assert!(!is_numeric("1e5.0"));
    assert!(!is_numeric("1e1e1"));
}

#[test]
fn special_values_are_numeric_in_any_case() {
    assert!(is_numeric("inf"));
    assert!(is_numeric("-inf"));
    assert!(is_numeric("+infinity"));
    assert!(is_numeric("NaN"));
    assert!(is_numeric("iNfInItY"));
    assert!(!is_numeric("infinit"));
    assert!(!is_numeric("infx"));
    assert!(!is_numeric("na"));
}

#[test]
fn text_around_a_number_is_not_numeric() {
    assert!(!is_numeric(""));
    assert!(!is_numeric("+"));
    assert!(!is_numeric(" 1"));
    assert!(!is_numeric("1 "));
    assert!(!is_numeric("abc"));
    assert!(!is_numeric("12a"));
    assert!(!is_numeric("--1"));
    assert!(!is_numeric("1,5"));
    assert!(!is_numeric("２"));
}

#[test]
fn is_numeric_agrees_with_the_float_parser() {
    let samples = vec![
        "3.14", "-3.14", "2.5E10", "2.5e10", "2.5E-10", "5.", ".5", "0.5", "7", "007", "inf",
        "-inf", "+infinity", "NaN", "nan", "INF", "Infinity", "infinit", "", "+", "-", ".", "e5",
        "1e", "1e+", "1e+5", "1.e5", ".e5", ".5e-3", "1..2", "1.2.3", " 1", "1 ", "abc", "1_000",
        "0x10", "1f", "２", "--1", "+-1", "1e5.0", "1E5", "infx", "nanx", "+nan", "-NaN", "1e-",
        "12a", "1,5", "1e1e1", "+.5", "-.", "+.", "5.e", "5.e3", "iNfInItY", "1e0005", "00.00",
        "1e-0", "E1", "1E", "+e1", ".", "..", "0.", "-0", "+0.0e+0", "in", "infinityy", "n", "na",
        "1\n", "\t1", "1e 5", "1 e5", "٣", "1é", "é", "9999999999999999999999999999999999999999",
        "0.0000000000000000000000000000000000000000000000000001", "1e400", "-1e-400",
    ];
    for text in samples {
        assert_eq!(is_numeric(text), text.parse::<f32>().is_ok(), "on {:?}", text);
    }
}

#[test]
fn is_numeric_agrees_with_the_float_parser_on_every_short_text() {
    let alphabet = ['0', '7', '.', 'e', 'E', '+', '-', 'i', 'n', 'f', 'a', ' '];
    let mut texts = vec![String::new()];
    let mut from = 0;
    for _ in 0..5 {
        let upto = texts.len();
        for at in from..upto {
            for c in alphabet {
                let mut longer = texts[at].clone();
                longer.push(c);
                texts.push(longer);
            }
        }
        from = upto;
    }
    assert_eq!(texts.len(), 1 + 12 + 144 + 1728 + 20736 + 248832);
    for text in &texts {
        assert_eq!(is_numeric(text), text.parse::<f32>().is_ok(), "on {:?}", text);
    }
}

#[test]
fn is_numeric_agrees_with_the_float_parser_on_special_values() {
    let letters = ['i', 'I', 'n', 'N', 'f', 'F', 't', 'y', 'Y', 'a', 'A'];
    let words = ["inf", "infinity", "nan", "infinit", "in", "na", "infinityy", "nann"];
    let mut texts = Vec::new();
    for word in words {
        for sign in ["", "+", "-", "++", " "] {
            for tail in ["", " ", "0", "."] {
                texts.push(format!("{}{}{}", sign, word, tail));
                texts.push(format!("{}{}{}", sign, word.to_uppercase(), tail));
            }
        }
        // Every way of replacing one letter of the word.
        for at in 0..word.len() {
            for c in letters {
                let mut changed: Vec<char> = word.chars().collect();
                changed[at] = c;
                texts.push(changed.into_iter().collect());
            }
        }
    }
    for text in &texts {
        assert_eq!(is_numeric(text), text.parse::<f32>().is_ok(), "on {:?}", text);
    }
}

#[test]
fn check_records_counts_well_formed_records() {
    let records = vec![record("2", "3.50"), record("1", "10.00")];
    assert_eq!(check_records(&records), Ok(2));
}

#[test]
fn check_records_accepts_an_empty_list() {
    let records: Vec<Transaction> = Vec::new();
    assert_eq!(check_records(&records), Ok(0));
}

#[test]
fn check_records_names_a_bad_quantity() {
    let records = vec![record("2", "3.50"), record("two", "10.00"), record("1", "1")];
    assert_eq!(check_records(&records), Err(DecodeFailure::BadQuantity { record: 1 }));
}

#[test]
fn check_records_names_a_bad_unit_price() {
    let records = vec![record("2", "n/a")];
    assert_eq!(check_records(&records), Err(DecodeFailure::BadUnitPrice { record: 0 }));
}

#[test]
fn check_records_names_the_first_bad_record_and_its_quantity_first() {
    let records = vec![record("1", "1"), record("x", "y"), record("z", "1")];
    assert_eq!(check_records(&records), Err(DecodeFailure::BadQuantity { record: 1 }));
}
