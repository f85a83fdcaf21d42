//! Decision logic of the stream echo service: classifying receive
//! results, driving the partial-send retry, and the per-connection
//! session that answers each message in order until the peer closes.
use vstd::prelude::*;

verus! {

use vstd::utf8::{valid_utf8, decode_utf8};
use crate::responder::{reply_matches, generate_fake_response};

/// Classification of one blocking receive on a stream connection.
///
/// A zero-byte read is an orderly peer shutdown, a timeout is "no data
/// yet", and any other failure is fatal to the connection; the three
/// are distinct variants so callers can tell them apart.
#[derive(PartialEq, Eq, Structural)]
pub enum RecvClass {
    /// The peer closed the connection in an orderly way (zero bytes).
    PeerClosed,
    /// A message of the given positive byte count arrived.
    Message(usize),
    /// The configured receive timeout expired with no data.
    TimedOut,
    /// A hard receive error with the reported OS error code.
    Failed(i32),
}

/// The class of a receive outcome: `received` is the byte count on
/// success; otherwise `errno` describes the failure and `would_block`
/// marks the timeout case.
pub open spec fn recv_class_of(received: Option<usize>, errno: i32, would_block: bool) -> RecvClass {
    match received {
        Some(n) => if n == 0 {
            RecvClass::PeerClosed
        } else {
            RecvClass::Message(n)
        },
        None => if would_block {
            RecvClass::TimedOut
        } else {
            RecvClass::Failed(errno)
        },
    }
}

/// Classify the outcome of one receive call.
pub fn classify_recv(received: Option<usize>, errno: i32, would_block: bool) -> (r: RecvClass)
    ensures
        r == recv_class_of(received, errno, would_block),
{
    match received {
        Some(0) => RecvClass::PeerClosed,
        Some(n) => RecvClass::Message(n),
        None => {
            if would_block {
                RecvClass::TimedOut
            } else {
                RecvClass::Failed(errno)
            }
        },
    }
}

/// Law: a zero-byte receive always classifies as the orderly
/// `PeerClosed` case, never as a timeout or an error, whatever the
/// accompanying error information says.
pub proof fn lemma_zero_bytes_close_cleanly(errno: i32, would_block: bool)
    ensures
        recv_class_of(Some(0usize), errno, would_block) is PeerClosed,
{
}

/// The outcome of one send call, as the OS reported it.
pub enum SendOutcome {
    /// The OS accepted this many bytes (possibly fewer than offered).
    Wrote(usize),
    /// The send failed with this OS error code.
    Failed(i32),
}

/// What the sender must do next after one send call.
#[derive(PartialEq, Eq, Structural)]
pub enum SendDirective {
    /// Bytes remain: send again from the current offset.
    Continue,
    /// The whole message has been handed to the OS.
    Complete,
    /// A zero-length write: the peer closed during the send. Distinct
    /// from an error, and never silently retried.
    ClosedDuringSend,
    /// A hard send error with the reported OS error code.
    Abort(i32),
}

/// Progress of sending one message completely, looping on partial
/// writes until every byte has been handed to the OS.
pub struct SendProgress {
    /// Bytes handed to the OS so far.
    pub sent: usize,
    /// The length of the message being sent.
    pub total: usize,
}

impl SendProgress {
    /// The progress counters are coherent.
    pub open spec fn wf(&self) -> bool {
        self.sent <= self.total
    }

    /// Bytes handed to the OS so far; the next send starts here.
    pub open spec fn spec_sent(&self) -> usize {
        self.sent
    }

    /// The length of the message being sent.
    pub open spec fn spec_total(&self) -> usize {
        self.total
    }

    /// Bytes still to send.
    pub open spec fn remaining(&self) -> int {
        self.total - self.sent
    }

    /// Start sending a message of `total` bytes.
    pub fn begin(total: usize) -> (p: SendProgress)
        ensures
            p.wf(),
            p.spec_sent() == 0,
            p.spec_total() == total,
    {
        SendProgress { sent: 0, total }
    }

    /// The offset the next send call must start from.
    pub fn offset(&self) -> (o: usize)
        ensures
            o == self.spec_sent(),
    {
        self.sent
    }

    /// Whether every byte has been handed to the OS.
    pub fn is_complete(&self) -> (c: bool)
        ensures
            c == (self.remaining() == 0),
    {
        self.sent == self.total
    }

    /// Account for one send call and decide what to do next: a
    /// zero-length write means the peer closed during the send, a
    /// positive write advances the offset (completing the send when it
    /// reaches the total), and an error aborts. On every positive
    /// write the remainder strictly shrinks, so the retry loop ends.
    pub fn advance(&mut self, outcome: SendOutcome) -> (d: SendDirective)
        requires
            old(self).wf(),
            old(self).remaining() > 0,
            outcome matches SendOutcome::Wrote(n) ==> n <= old(self).remaining(),
        ensures
            final(self).wf(),
            final(self).spec_total() == old(self).spec_total(),
            outcome == SendOutcome::Wrote(0usize) ==> d is ClosedDuringSend && *final(self)
                == *old(self),
            outcome matches SendOutcome::Wrote(n) ==> (n > 0 ==> {
                &&& final(self).spec_sent() == old(self).spec_sent() + n
                &&& final(self).remaining() < old(self).remaining()
                &&& d == (if final(self).remaining() == 0 {
                    SendDirective::Complete
                } else {
                    SendDirective::Continue
                })
            }),
            outcome matches SendOutcome::Failed(e) ==> d == SendDirective::Abort(e) && *final(self)
                == *old(self),
    {
        match outcome {
            SendOutcome::Wrote(n) => {
                if n == 0 {
                    SendDirective::ClosedDuringSend
                } else {
                    self.sent = self.sent + n;
                    if self.sent == self.total {
                        SendDirective::Complete
                    } else {
                        SendDirective::Continue
                    }
                }
            },
            SendOutcome::Failed(e) => SendDirective::Abort(e),
        }
    }
}

/// How a finished connection ended.
#[derive(PartialEq, Eq, Structural)]
pub enum CloseKind {
    /// The peer shut down in an orderly way, or idle policy closed it.
    Clean,
    /// A receive or send failure ended the connection.
    Aborted,
}

/// The lifecycle state of one accepted connection.
#[derive(PartialEq, Eq, Structural)]
pub enum SessionState {
    /// The connection is being served.
    Open,
    /// The connection is finished, with how it ended.
    Closed(CloseKind),
}

/// The characters that `from_utf8_lossy` decodes the given bytes to:
/// invalid sequences become replacement characters, so the result
/// depends on the bytes alone.
pub uninterp spec fn lossy_of(payload: Seq<u8>) -> Seq<char>;

/// Relies on `String::from_utf8_lossy`: the result is a function of
/// the bytes alone, and valid UTF-8 input decodes exactly.
#[verifier::external_body]
fn decode_lossy(payload: &[u8]) -> (r: String)
    ensures
        r@ == lossy_of(payload@),
        valid_utf8(payload@) ==> r@ == decode_utf8(payload@),
{
    String::from_utf8_lossy(payload).into_owned()
}

/// One accepted stream connection being served: messages are answered
/// one at a time, strictly in arrival order, until the peer closes or
/// an error aborts. The message and reply histories are recorded in
/// ghost state so the ordering is part of the contract.
pub struct StreamSession {
    /// The lifecycle state of the connection.
    pub state: SessionState,
    /// Whether a receive timeout closes the idle connection.
    pub close_on_idle: bool,
    /// The payloads processed so far, in arrival order.
    pub processed: Ghost<Seq<Seq<u8>>>,
    /// The reply to each processed payload, in the same order.
    pub answered: Ghost<Seq<Seq<char>>>,
}

impl StreamSession {
    /// The session's records are coherent: one reply per message, and
    /// each reply fits the responder's rule for its message.
    pub open spec fn wf(&self) -> bool {
        &&& self.answered@.len() == self.processed@.len()
        &&& forall|i: int|
            0 <= i < self.processed@.len() ==> reply_matches(
                lossy_of(self.processed@[i]),
                self.answered@[i],
            )
    }

    /// The connection is still being served.
    pub open spec fn is_open(&self) -> bool {
        self.state is Open
    }

    /// The lifecycle state.
    pub open spec fn spec_state(&self) -> SessionState {
        self.state
    }

    /// Whether a receive timeout closes the idle connection (an
    /// explicit policy choice) or is treated as "no data yet".
    pub open spec fn spec_close_on_idle(&self) -> bool {
        self.close_on_idle
    }

    /// The payloads processed so far, in arrival order.
    pub open spec fn messages(&self) -> Seq<Seq<u8>> {
        self.processed@
    }

    /// The replies produced so far, in the same order.
    pub open spec fn replies(&self) -> Seq<Seq<char>> {
        self.answered@
    }

    /// Begin serving a freshly accepted connection.
    pub fn accept(close_on_idle: bool) -> (s: StreamSession)
        ensures
            s.wf(),
            s.is_open(),
            s.spec_close_on_idle() == close_on_idle,
            s.messages() == Seq::<Seq<u8>>::empty(),
            s.replies() == Seq::<Seq<char>>::empty(),
    {
        StreamSession {
            state: SessionState::Open,
            close_on_idle,
            processed: Ghost(Seq::empty()),
            answered: Ghost(Seq::empty()),
        }
    }

    /// Answer one received message: decode it leniently, and reply by
    /// the responder's rule. The message and its reply are appended to
    /// the histories, so replies stand in strict arrival order.
    pub fn on_message(&mut self, payload: &Vec<u8>) -> (reply: String)
        requires
            old(self).wf(),
            old(self).is_open(),
            payload@.len() > 0,
        ensures
            final(self).wf(),
            final(self).is_open(),
            final(self).spec_close_on_idle() == old(self).spec_close_on_idle(),
            final(self).messages() == old(self).messages().push(payload@),
            final(self).replies() == old(self).replies().push(reply@),
            reply_matches(lossy_of(payload@), reply@),
            reply@.len() > 0,
    {
        let text = decode_lossy(payload.as_slice());
        let reply = generate_fake_response(text.as_str());
        proof {
            self.processed@ = self.processed@.push(payload@);
            self.answered@ = self.answered@.push(reply@);
        }
        reply
    }

    /// The peer closed (a zero-byte receive): finish cleanly. This is
    /// never an error; the histories stay as they are.
    pub fn on_peer_closed(&mut self)
        requires
            old(self).wf(),
            old(self).is_open(),
        ensures
            final(self).wf(),
            final(self).spec_state() == SessionState::Closed(CloseKind::Clean),
            final(self).messages() == old(self).messages(),
            final(self).replies() == old(self).replies(),
    {
        self.state = SessionState::Closed(CloseKind::Clean);
    }

    /// A hard receive failure: abort the connection.
    pub fn on_recv_failure(&mut self)
        requires
            old(self).wf(),
            old(self).is_open(),
        ensures
            final(self).wf(),
            final(self).spec_state() == SessionState::Closed(CloseKind::Aborted),
            final(self).messages() == old(self).messages(),
            final(self).replies() == old(self).replies(),
    {
        self.state = SessionState::Closed(CloseKind::Aborted);
    }

    /// A send failure or a peer close during a send: abort the
    /// connection.
    pub fn on_send_failure(&mut self)
        requires
            old(self).wf(),
            old(self).is_open(),
        ensures
            final(self).wf(),
            final(self).spec_state() == SessionState::Closed(CloseKind::Aborted),
            final(self).messages() == old(self).messages(),
            final(self).replies() == old(self).replies(),
    {
        self.state = SessionState::Closed(CloseKind::Aborted);
    }

    /// The receive timeout expired with no data. Under the
    /// close-on-idle policy the connection finishes cleanly; otherwise
    /// nothing changes and the caller receives `false`, "keep
    /// waiting".
    pub fn on_timeout(&mut self) -> (closed: bool)
        requires
            old(self).wf(),
            old(self).is_open(),
        ensures
            final(self).wf(),
            closed == old(self).spec_close_on_idle(),
            closed ==> final(self).spec_state() == SessionState::Closed(CloseKind::Clean),
            !closed ==> *final(self) == *old(self),
            final(self).messages() == old(self).messages(),
            final(self).replies() == old(self).replies(),
    {
        if self.close_on_idle {
            self.state = SessionState::Closed(CloseKind::Clean);
            true
        } else {
            false
        }
    }
}

/// Law: within one connection messages are processed strictly in
/// order. The session keeps exactly one reply per message, the reply
/// at each position answers the message at that same position, and
/// both histories only ever grow at the end — so the reply to an
/// earlier message is recorded before the reply to a later one.
pub proof fn lemma_replies_in_arrival_order(s: StreamSession)
    requires
        s.wf(),
    ensures
        s.replies().len() == s.messages().len(),
        forall|i: int|
            0 <= i < s.messages().len() ==> reply_matches(lossy_of(s.messages()[i]), s.replies()[i]),
{
}

} // verus!
