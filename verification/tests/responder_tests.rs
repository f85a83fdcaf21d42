use sockecho::responder::{classify_message, generate_fake_response, ReplyCategory};
use sockecho::text::{contains_keyword, render_usize, trim_message};

#[test]
fn classify_name_keyword() {
    assert!(classify_message("what is your name") == ReplyCategory::UserInfo);
    assert!(classify_message("USER record") == ReplyCategory::UserInfo);
    assert!(classify_message("NaMe") == ReplyCategory::UserInfo);
}

#[test]
fn classify_company_keyword() {
    assert!(classify_message("my Company here") == ReplyCategory::Company);
    assert!(classify_message("a BUSINESS plan") == ReplyCategory::Company);
}

#[test]
fn classify_quote_keyword() {
    assert!(classify_message("give me a quote") == ReplyCategory::Quote);
    assert!(classify_message("some TEXT please") == ReplyCategory::Quote);
}

#[test]
fn classify_default() {
    assert!(classify_message("hello there") == ReplyCategory::Combined);
    assert!(classify_message("") == ReplyCategory::Combined);
}

#[test]
fn classify_precedence_user_first() {
    assert!(classify_message("user of company") == ReplyCategory::UserInfo);
    assert!(classify_message("company quote") == ReplyCategory::Company);
}

#[test]
fn keyword_search_folds_case() {
    assert!(contains_keyword("AbC NaMe xyz", "name"));
    assert!(contains_keyword("USERLAND", "user"));
    assert!(!contains_keyword("nam e", "name"));
    assert!(contains_keyword("anything", ""));
    assert!(!contains_keyword("", "name"));
}

#[test]
fn trim_removes_edges_only() {
    assert_eq!(trim_message("  hi \n"), "hi");
    assert_eq!(trim_message("\t\r\n "), "");
    assert_eq!(trim_message("no blanks"), "no blanks");
    assert_eq!(trim_message(" a  b "), "a  b");
}

#[test]
fn render_decimal_digits() {
    assert_eq!(render_usize(0), "0");
    assert_eq!(render_usize(7), "7");
    assert_eq!(render_usize(22), "22");
    assert_eq!(render_usize(1234), "1234");
    assert_eq!(render_usize(1000000), "1000000");
}

#[test]
fn user_reply_has_name_and_email_shape() {
    let r = generate_fake_response("tell me a name");
    assert!(r.starts_with("Generated user: "));
    assert!(r.contains(" <"));
    assert!(r.ends_with(">"));
}

#[test]
fn company_reply_shape() {
    let r = generate_fake_response("pick a company");
    assert!(r.starts_with("Random company: "));
    assert!(r.len() > "Random company: ".len());
}

#[test]
fn quote_reply_shape() {
    let r = generate_fake_response("a quote please");
    assert!(r.starts_with("Random quote: \""));
    assert!(r.ends_with("\""));
}

#[test]
fn default_reply_echoes_trimmed_message() {
    let r = generate_fake_response("  hello world \n");
    assert!(r.starts_with("Server response for 'hello world': "));
    assert!(r.contains(" from "));
    assert!(r.contains(" says: \""));
    assert!(r.ends_with("\""));
}

#[test]
fn trimmed_message_is_classified() {
    let r = generate_fake_response("   name   ");
    assert!(r.starts_with("Generated user: "));
}
