use vstd::prelude::*;
use vstd::string::StringExecFns;
use vstd::utf8::{decode_utf8, valid_utf8};

verus! {

/// One relayed chat line: who sent it, and the raw text of one read.
#[derive(Clone, Debug, PartialEq, Eq)]
pub struct ChatMessage {
    pub user: String,
    pub message: String,
}

impl ChatMessage {
    pub fn new(user: String, message: String) -> (r: ChatMessage)
        ensures
            r.user@ == user@,
            r.message@ == message@,
    {
        ChatMessage { user, message }
    }
}

/// Whether a text sent on the wire is followed by a NUL byte.
#[derive(Clone, Copy, Debug, PartialEq, Eq)]
pub enum Terminator {
    Plain,
    Nul,
}

pub open spec fn terminated(t: Terminator, s: Seq<char>) -> Seq<char> {
    match t {
        Terminator::Plain => s,
        Terminator::Nul => s.push('\0'),
    }
}

/// The first text a client sends: its username.
pub open spec fn join_request_text(username: Seq<char>, t: Terminator) -> Seq<char> {
    terminated(t, username)
}

/// The server's answer to a join: `joined chat as {name}`.
pub open spec fn join_ack_text(name: Seq<char>, t: Terminator) -> Seq<char> {
    terminated(t, "joined chat as "@ + name)
}

/// The text relayed for a message: `[{user}] {message}`.
pub open spec fn relay_text(user: Seq<char>, message: Seq<char>, t: Terminator) -> Seq<char> {
    terminated(t, "["@ + user + "] "@ + message)
}

fn append_terminator(s: &mut String, t: Terminator)
    ensures
        final(s)@ == terminated(t, old(s)@),
{
    match t {
        Terminator::Plain => {},
        Terminator::Nul => {
            s.append("\0");
            proof {
                reveal_strlit("\0");
            }
        },
    }
}

pub fn join_request(username: &str, t: Terminator) -> (r: String)
    ensures
        r@ == join_request_text(username@, t),
{
    let mut r = username.to_owned();
    append_terminator(&mut r, t);
    r
}

pub fn join_ack(name: &str, t: Terminator) -> (r: String)
    ensures
        r@ == join_ack_text(name@, t),
{
    let mut r = String::from_str("joined chat as ");
    r.append(name);
    append_terminator(&mut r, t);
    proof {
        reveal_strlit("joined chat as ");
    }
    r
}

pub fn relay_frame(msg: &ChatMessage, t: Terminator) -> (r: String)
    ensures
        r@ == relay_text(msg.user@, msg.message@, t),
{
    let mut r = String::from_str("[");
    r.append(msg.user.as_str());
    r.append("] ");
    r.append(msg.message.as_str());
    append_terminator(&mut r, t);
    proof {
        reveal_strlit("[");
        reveal_strlit("] ");
    }
    r
}

/// Relies on core::str::from_utf8: the bytes are accepted exactly when they
/// are valid UTF-8, and then read as the characters they encode.
pub assume_specification[ core::str::from_utf8 ](v: &[u8]) -> (r: Result<&str, core::str::Utf8Error>)
    ensures
        r is Ok <==> valid_utf8(v@),
        r is Ok ==> r->Ok_0@ == decode_utf8(v@),
;

/// The error type of core::str::from_utf8, carried only to be discarded.
#[verifier::external_type_specification]
#[verifier::external_body]
pub struct ExUtf8Error(core::str::Utf8Error);

/// The text that `bytes` encodes, or `None` where they are not UTF-8.
pub fn decode_text(bytes: &[u8]) -> (r: Option<String>)
    ensures
        r is Some <==> valid_utf8(bytes@),
        r is Some ==> r->Some_0@ == decode_utf8(bytes@),
{
    match core::str::from_utf8(bytes) {
        Ok(s) => Some(s.to_owned()),
        Err(_) => None,
    }
}

} // verus!
