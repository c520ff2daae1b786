//! The wire text of outbound frames, and the classification of connection
//! errors that end a session.

use vstd::prelude::*;

verus! {

/// What `str::trim` returns for a given sequence of characters.
pub uninterp spec fn trimmed_of(s: Seq<char>) -> Seq<char>;

/// Relies on `str::trim`: returns the argument without leading and trailing
/// whitespace — a subslice that depends on the argument's characters alone.
#[verifier::external_body]
fn trim_str(s: &str) -> (r: &str)
    ensures
        r@ == trimmed_of(s@),
        r@.len() <= s@.len(),
        s@.len() == 0 ==> r@.len() == 0,
{
    s.trim()
}

/// The literal prefix that marks an assistant reply on the wire.
pub open spec fn spec_reply_prefix() -> Seq<char> {
    "AI: "@
}

/// The wire text of a reply: the prefix, then the trimmed generated content.
pub open spec fn spec_reply_frame(content: Seq<char>) -> Seq<char> {
    spec_reply_prefix() + trimmed_of(content)
}

/// Builds the reply frame sent to the peer for one piece of generated content.
pub fn reply_frame(content: &str) -> (r: String)
    ensures
        r@ == spec_reply_frame(content@),
{
    let mut r = String::from_str("AI: ");
    let t = trim_str(content);
    r.append(t);
    r
}

/// The fixed heartbeat marker text.
pub open spec fn spec_heartbeat_frame() -> Seq<char> {
    "Tick"@
}

/// The liveness frame sent once per heartbeat interval.
pub fn heartbeat_frame() -> (r: String)
    ensures
        r@ == spec_heartbeat_frame(),
{
    String::from_str("Tick")
}

/// The literal prefix of the frame that reports a backend failure to the peer.
pub open spec fn spec_error_prefix() -> Seq<char> {
    "Error: "@
}

/// The wire text of the user-visible error frame for a backend failure.
pub open spec fn spec_error_frame(message: Seq<char>) -> Seq<char> {
    spec_error_prefix() + message
}

/// Builds the error frame sent to the peer before closing on a backend failure.
pub fn error_frame(message: &str) -> (r: String)
    ensures
        r@ == spec_error_frame(message@),
{
    let mut r = String::from_str("Error: ");
    r.append(message);
    r
}

/// How the error that ended a connection is classified. The first three are
/// benign ways for a peer to go away; anything else is reported.
pub enum ErrorClass {
    /// The close handshake completed.
    ConnectionClosed,
    /// A protocol violation, treated as the peer closing rudely.
    Protocol,
    /// Malformed text on the wire, treated as a close.
    Utf8,
    /// Any other send or receive failure.
    Other,
}

/// Benign connection terminations end a session silently.
pub open spec fn spec_is_benign(c: ErrorClass) -> bool {
    match c {
        ErrorClass::ConnectionClosed => true,
        ErrorClass::Protocol => true,
        ErrorClass::Utf8 => true,
        ErrorClass::Other => false,
    }
}

/// Decides whether a connection ended benignly (no report owed) or with a
/// reportable error.
pub fn is_benign(c: &ErrorClass) -> (b: bool)
    ensures
        b == spec_is_benign(*c),
{
    match c {
        ErrorClass::Other => false,
        _ => true,
    }
}

} // verus!
