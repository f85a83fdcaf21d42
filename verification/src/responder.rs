//! The responder: maps an inbound message to an outbound reply.
//!
//! The message is trimmed and classified by case-insensitive keywords;
//! each category fills a fixed template with randomized data drawn from
//! the `fake` crate. The random parts are unconstrained, so the
//! contract states the template shape each reply has, not its exact
//! text.
use vstd::prelude::*;
use fake::Fake;

verus! {

use vstd::string::StringExecFns;
use crate::text::{contains_seq, lower_seq, trim_spec, contains_keyword, trim_message};

/// The keyword category a message falls under.
#[derive(PartialEq, Eq, Structural)]
pub enum ReplyCategory {
    /// The message mentions "name" or "user".
    UserInfo,
    /// The message mentions "company" or "business".
    Company,
    /// The message mentions "quote" or "text".
    Quote,
    /// None of the keywords: a combined default reply.
    Combined,
}

/// The category of a (trimmed) message: keyword containment is checked
/// on the ASCII-lower-cased text, earlier categories take precedence.
pub open spec fn category_of(t: Seq<char>) -> ReplyCategory {
    let l = lower_seq(t);
    if contains_seq(l, "name"@) || contains_seq(l, "user"@) {
        ReplyCategory::UserInfo
    } else if contains_seq(l, "company"@) || contains_seq(l, "business"@) {
        ReplyCategory::Company
    } else if contains_seq(l, "quote"@) || contains_seq(l, "text"@) {
        ReplyCategory::Quote
    } else {
        ReplyCategory::Combined
    }
}

/// Classify a trimmed message by its keywords.
pub fn classify_message(t: &str) -> (c: ReplyCategory)
    ensures
        c == category_of(t@),
{
    if contains_keyword(t, "name") || contains_keyword(t, "user") {
        ReplyCategory::UserInfo
    } else if contains_keyword(t, "company") || contains_keyword(t, "business") {
        ReplyCategory::Company
    } else if contains_keyword(t, "quote") || contains_keyword(t, "text") {
        ReplyCategory::Quote
    } else {
        ReplyCategory::Combined
    }
}

/// The generated-user template: a personal name and an email address.
pub open spec fn user_reply_spec(name: Seq<char>, email: Seq<char>) -> Seq<char> {
    "Generated user: "@ + name + " <"@ + email + ">"@
}

/// The company template.
pub open spec fn company_reply_spec(company: Seq<char>) -> Seq<char> {
    "Random company: "@ + company
}

/// The quote template.
pub open spec fn quote_reply_spec(sentence: Seq<char>) -> Seq<char> {
    "Random quote: \""@ + sentence + "\""@
}

/// The combined default template, echoing the trimmed message.
pub open spec fn default_reply_spec(
    trimmed: Seq<char>,
    name: Seq<char>,
    company: Seq<char>,
    sentence: Seq<char>,
) -> Seq<char> {
    "Server response for '"@ + trimmed + "': "@ + name + " from "@ + company + " says: \""@
        + sentence + "\""@
}

/// The reply fits the responder's rule for the message: it fills the
/// template of the message's category, echoing the trimmed message in
/// the default case.
pub open spec fn reply_matches(message: Seq<char>, reply: Seq<char>) -> bool {
    let t = trim_spec(message);
    match category_of(t) {
        ReplyCategory::UserInfo => exists|n: Seq<char>, e: Seq<char>|
            reply == user_reply_spec(n, e),
        ReplyCategory::Company => exists|c: Seq<char>| reply == company_reply_spec(c),
        ReplyCategory::Quote => exists|s: Seq<char>| reply == quote_reply_spec(s),
        ReplyCategory::Combined => exists|n: Seq<char>, c: Seq<char>, s: Seq<char>|
            reply == default_reply_spec(t, n, c, s),
    }
}

/// Relies on fake's `faker::name::en::Name`: draws a random personal
/// name; nothing is promised of the text.
#[verifier::external_body]
fn fake_person_name() -> String {
    fake::faker::name::en::Name().fake::<String>()
}

/// Relies on fake's `faker::internet::en::SafeEmail`: draws a random
/// email address; nothing is promised of the text.
#[verifier::external_body]
fn fake_email() -> String {
    fake::faker::internet::en::SafeEmail().fake::<String>()
}

/// Relies on fake's `faker::company::en::CompanyName`: draws a random
/// company name; nothing is promised of the text.
#[verifier::external_body]
fn fake_company_name() -> String {
    fake::faker::company::en::CompanyName().fake::<String>()
}

/// Relies on fake's `faker::lorem::en::Sentence`: draws a random
/// sentence of `lo..hi` words; the word count is drawn from that range,
/// which must not be empty, or the draw panics.
#[verifier::external_body]
fn fake_sentence(lo: usize, hi: usize) -> String
    requires
        lo < hi,
{
    fake::faker::lorem::en::Sentence(lo..hi).fake::<String>()
}

/// Fill the generated-user template.
fn render_user_reply(name: &str, email: &str) -> (r: String)
    ensures
        r@ == user_reply_spec(name@, email@),
{
    let mut r = String::from_str("Generated user: ");
    r.append(name);
    r.append(" <");
    r.append(email);
    r.append(">");
    r
}

/// Fill the company template.
fn render_company_reply(company: &str) -> (r: String)
    ensures
        r@ == company_reply_spec(company@),
{
    let mut r = String::from_str("Random company: ");
    r.append(company);
    r
}

/// Fill the quote template.
fn render_quote_reply(sentence: &str) -> (r: String)
    ensures
        r@ == quote_reply_spec(sentence@),
{
    let mut r = String::from_str("Random quote: \"");
    r.append(sentence);
    r.append("\"");
    r
}

/// Fill the combined default template.
fn render_default_reply(trimmed: &str, name: &str, company: &str, sentence: &str) -> (r: String)
    ensures
        r@ == default_reply_spec(trimmed@, name@, company@, sentence@),
{
    let mut r = String::from_str("Server response for '");
    r.append(trimmed);
    r.append("': ");
    r.append(name);
    r.append(" from ");
    r.append(company);
    r.append(" says: \"");
    r.append(sentence);
    r.append("\"");
    r
}

/// Produce the reply to a message: trim it, classify it by keywords,
/// and fill the category's template with freshly drawn fake data.
pub fn generate_fake_response(message: &str) -> (r: String)
    ensures
        reply_matches(message@, r@),
        r@.len() > 0,
{
    let trimmed = trim_message(message);
    let category = classify_message(trimmed);
    let r = match category {
        ReplyCategory::UserInfo => {
            let name = fake_person_name();
            let email = fake_email();
            render_user_reply(name.as_str(), email.as_str())
        },
        ReplyCategory::Company => {
            let company = fake_company_name();
            render_company_reply(company.as_str())
        },
        ReplyCategory::Quote => {
            let sentence = fake_sentence(3, 8);
            render_quote_reply(sentence.as_str())
        },
        ReplyCategory::Combined => {
            let name = fake_person_name();
            let company = fake_company_name();
            let sentence = fake_sentence(2, 5);
            render_default_reply(trimmed, name.as_str(), company.as_str(), sentence.as_str())
        },
    };
    proof {
        reveal_strlit("Generated user: ");
        reveal_strlit("Random company: ");
        reveal_strlit("Random quote: \"");
        reveal_strlit("Server response for '");
    }
    r
}

/// Law: a message whose trimmed, lower-cased text mentions "name" or
/// "user" is answered with the generated-user template, a personal
/// name followed by an email address.
pub proof fn lemma_keyword_reply_shape(message: Seq<char>, reply: Seq<char>)
    requires
        reply_matches(message, reply),
        contains_seq(lower_seq(trim_spec(message)), "name"@) || contains_seq(
            lower_seq(trim_spec(message)),
            "user"@,
        ),
    ensures
        exists|n: Seq<char>, e: Seq<char>| reply == user_reply_spec(n, e),
{
}

} // verus!
