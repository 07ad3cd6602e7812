use pdsl_lang::ident::{is_ident, Ident};
use proc_macro2::Span;

fn id(text: &str) -> Ident {
    Ident::new(text, Span::call_site()).unwrap()
}

fn try_id(text: &str) -> Option<Ident> {
    Ident::new(text, Span::call_site())
}

#[test]
fn ident_accepts_letters_digits_and_underscores() {
    for text in ["a", "A", "_", "_a", "a1", "on_transfer", "OnTransfer", "__x9__", "r2d2"] {
        assert!(is_ident(text), "{}", text);
        let ident = id(text);
        assert_eq!(ident.as_str(), text);
    }
}

#[test]
fn ident_rejects_the_empty_text() {
    assert!(!is_ident(""));
    assert!(try_id("").is_none());
}

#[test]
fn ident_rejects_a_leading_digit() {
    assert!(!is_ident("1"));
    assert!(!is_ident("9x"));
    assert!(try_id("1abc").is_none());
}

#[test]
fn ident_rejects_other_characters() {
    for text in ["a-b", "a b", " a", "a.", "r#type", "a:b", "gr\u{f6}\u{df}e", "\u{3a3}"] {
        assert!(!is_ident(text), "{}", text);
        assert!(try_id(text).is_none(), "{}", text);
    }
}

#[test]
fn ident_clone_keeps_the_text() {
    let ident = id("transfer");
    assert_eq!(ident.clone().as_str(), "transfer");
}

#[test]
fn casing_of_a_snake_case_name() {
    let name = id("on_transfer");
    assert_eq!(name.to_camel_case().unwrap().as_str(), "OnTransfer");
    let name = id("transfer_funds");
    assert_eq!(name.to_camel_case().unwrap().as_str(), "TransferFunds");
}

#[test]
fn casing_leaves_a_cased_name_unchanged() {
    let name = id("OnTransfer");
    assert_eq!(name.to_camel_case().unwrap().as_str(), "OnTransfer");
}

#[test]
fn casing_of_a_single_word() {
    let name = id("mint");
    assert_eq!(name.to_camel_case().unwrap().as_str(), "Mint");
}

#[test]
fn casing_folds_underscores_and_upper_case_runs() {
    let name = id("__get__value_");
    assert_eq!(name.to_camel_case().unwrap().as_str(), "GetValue");
    let name = id("XMLHttpRequest");
    assert_eq!(name.to_camel_case().unwrap().as_str(), "XmlHttpRequest");
    let name = id("getValue");
    assert_eq!(name.to_camel_case().unwrap().as_str(), "GetValue");
}

#[test]
fn casing_keeps_digits_inside_a_name() {
    let name = id("step_2");
    assert_eq!(name.to_camel_case().unwrap().as_str(), "Step2");
}

#[test]
fn casing_fails_where_nothing_is_left() {
    assert!(id("_").to_camel_case().is_none());
    assert!(id("___").to_camel_case().is_none());
}

#[test]
fn casing_fails_where_a_digit_comes_first() {
    assert!(id("_1").to_camel_case().is_none());
    assert!(id("_2_fast").to_camel_case().is_none());
}

#[test]
fn idents_are_equal_by_their_text() {
    assert!(id("get") == id("get"));
    assert!(id("get") != id("Get"));
    assert!(id("get") != id("get_"));
    assert!(id("get").to_camel_case().unwrap() == id("Get"));
}
