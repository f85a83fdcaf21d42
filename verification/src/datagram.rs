//! Reply construction for the datagram echo service.
//!
//! Each datagram is answered with a fixed sentence that echoes a
//! bounded preview of the received text and the full received byte
//! count. Payloads that are not valid UTF-8 are answered with a
//! placeholder marker instead of failing.
use vstd::prelude::*;

verus! {

use vstd::string::StrSliceExecFns;
use vstd::string::StringExecFns;
use vstd::utf8::{valid_utf8, decode_utf8};
use crate::text::{dec_digits, contains_seq, render_usize};

/// The most characters of the received text that a reply echoes.
pub const PREVIEW_LIMIT: usize = 50;

/// The marker used in place of text that does not decode.
pub open spec fn non_utf8_marker() -> Seq<char> {
    "non-UTF8 data"@
}

/// The echoed preview of a payload: the first `PREVIEW_LIMIT`
/// characters of its decoded text, or the whole text if shorter, or
/// the marker when the payload is not valid UTF-8.
pub open spec fn preview_spec(payload: Seq<u8>) -> Seq<char> {
    if valid_utf8(payload) {
        let d = decode_utf8(payload);
        if d.len() <= PREVIEW_LIMIT {
            d
        } else {
            d.take(PREVIEW_LIMIT as int)
        }
    } else {
        non_utf8_marker()
    }
}

/// The full reply to a datagram: the preview of its text and its
/// original byte count, in a fixed sentence.
pub open spec fn datagram_reply_spec(payload: Seq<u8>) -> Seq<char> {
    "Server response: Successfully received your message \""@ + preview_spec(payload) + "\" ("@
        + dec_digits(payload.len()) + " bytes)"@
}

/// Relies on `std::str::from_utf8`: it returns `Ok` exactly on valid
/// UTF-8 input, and the returned text holds the scalars the bytes
/// encode.
#[verifier::external_body]
fn decode_strict(payload: &[u8]) -> (r: Option<String>)
    ensures
        r is Some <==> valid_utf8(payload@),
        r is Some ==> r.unwrap()@ == decode_utf8(payload@),
{
    match std::str::from_utf8(payload) {
        Ok(s) => Some(s.to_owned()),
        Err(_) => None,
    }
}

/// Build the reply to one received datagram.
pub fn build_datagram_reply(payload: &Vec<u8>) -> (r: String)
    ensures
        r@ == datagram_reply_spec(payload@),
{
    let mut r = String::from_str("Server response: Successfully received your message \"");
    match decode_strict(payload.as_slice()) {
        Some(text) => {
            let full = text.as_str().unicode_len();
            if full <= PREVIEW_LIMIT {
                r.append(text.as_str());
            } else {
                let preview = text.as_str().substring_char(0, PREVIEW_LIMIT);
                r.append(preview);
            }
        },
        None => {
            r.append("non-UTF8 data");
        },
    }
    r.append("\" (");
    let count = render_usize(payload.len());
    r.append(count.as_str());
    r.append(" bytes)");
    proof {
        assert(r@ =~= datagram_reply_spec(payload@));
    }
    r
}

/// What the datagram server does with one received datagram.
pub enum DatagramAction {
    /// Send this reply back to the sender.
    Reply(String),
    /// An empty datagram: log it and keep receiving, no reply.
    IgnoreEmpty,
    /// No sender address came with the datagram: a reply cannot be
    /// addressed, so log it and keep receiving.
    IgnoreNoSender,
}

/// Decide the action for one received datagram: without a sender
/// address no reply is attempted, an empty payload gets none either,
/// and any other payload is answered with the echo reply.
pub fn datagram_step(payload: &Vec<u8>, has_sender: bool) -> (a: DatagramAction)
    ensures
        !has_sender ==> a is IgnoreNoSender,
        has_sender && payload@.len() == 0 ==> a is IgnoreEmpty,
        has_sender && payload@.len() > 0 ==> (a matches DatagramAction::Reply(r) && r@
            == datagram_reply_spec(payload@)),
{
    if !has_sender {
        DatagramAction::IgnoreNoSender
    } else if payload.len() == 0 {
        DatagramAction::IgnoreEmpty
    } else {
        DatagramAction::Reply(build_datagram_reply(payload))
    }
}

/// Reset a receive buffer between iterations: every byte becomes zero,
/// the length stays, so no tail of a longer earlier datagram can leak
/// into a shorter later read.
pub fn zero_fill(buf: &mut Vec<u8>)
    ensures
        final(buf)@.len() == old(buf)@.len(),
        forall|i: int| 0 <= i < final(buf)@.len() ==> final(buf)@[i] == 0u8,
{
    let n = buf.len();
    let mut i: usize = 0;
    while i < n
        invariant
            n == buf@.len(),
            i <= n,
            forall|k: int| 0 <= k < i ==> buf@[k] == 0u8,
        decreases n - i,
    {
        buf[i] = 0u8;
        i += 1;
    }
}

/// Law: the echoed preview never exceeds `PREVIEW_LIMIT` characters,
/// however long the payload is.
pub proof fn lemma_preview_bounded(payload: Seq<u8>)
    ensures
        preview_spec(payload).len() <= PREVIEW_LIMIT,
{
    reveal_strlit("non-UTF8 data");
}

/// Law: the byte count a reply reports is the full received length,
/// not the truncated preview's: the count segment renders
/// `payload.len()` itself, and that decimal rendering pins the
/// length — replies reporting the same count come from payloads of
/// the same original length.
pub proof fn lemma_reply_reports_full_length(p1: Seq<u8>, p2: Seq<u8>)
    requires
        dec_digits(p1.len()) == dec_digits(p2.len()),
    ensures
        p1.len() == p2.len(),
{
    crate::text::lemma_dec_digits_injective(p1.len(), p2.len());
}

/// Law: a payload that is not valid UTF-8 is answered all the same,
/// and its reply carries the literal marker "non-UTF8 data".
pub proof fn lemma_non_utf8_marked(payload: Seq<u8>)
    requires
        !valid_utf8(payload),
    ensures
        contains_seq(datagram_reply_spec(payload), non_utf8_marker()),
{
    let head = "Server response: Successfully received your message \""@;
    let reply = datagram_reply_spec(payload);
    assert(reply.subrange(head.len() as int, head.len() + non_utf8_marker().len() as int)
        =~= non_utf8_marker());
    assert(crate::text::matches_at(reply, non_utf8_marker(), head.len() as int));
}

} // verus!
