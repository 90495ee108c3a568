use crate::message::decode_text;
use vstd::prelude::*;
use vstd::utf8::{decode_utf8, valid_utf8};

verus! {

/// Why a client session reports something.
#[derive(Clone, Copy, Debug, PartialEq, Eq, Structural)]
pub enum ClientNotice {
    /// A chunk (typed or received) was not UTF-8; it is discarded.
    MalformedText,
    /// Reading from the server failed.
    ReadFailed,
    /// The server closed the connection.
    ServerClosed,
}

/// What the driver of a client session does next.
#[derive(Clone, Debug, PartialEq, Eq)]
pub enum ClientAction {
    /// Write this text to the server.
    Transmit(String),
    /// Show this text to the user.
    Display(String),
    /// Report and go on.
    Log(ClientNotice),
    /// Report and end the session.
    End(ClientNotice),
}

/// The decisions of a chat client once its username has been sent: local
/// input goes to the server, server bytes go to the display.
pub struct ClientSession {
    pub ended: bool,
}

impl ClientSession {
    pub fn new() -> (r: ClientSession)
        ensures
            !r.ended,
    {
        ClientSession { ended: false }
    }

    /// A line of local input: sent as it is when it is UTF-8, else discarded.
    pub fn on_input(&mut self, line: &[u8]) -> (r: ClientAction)
        requires
            !old(self).ended,
        ensures
            !final(self).ended,
            valid_utf8(line@) ==> (r matches ClientAction::Transmit(s) && s@ == decode_utf8(line@)),
            !valid_utf8(line@) ==> r == ClientAction::Log(ClientNotice::MalformedText),
    {
        match decode_text(line) {
            Some(text) => ClientAction::Transmit(text),
            None => ClientAction::Log(ClientNotice::MalformedText),
        }
    }

    /// Bytes from the server. A zero-length read is the server closing the
    /// connection and ends the session; other chunks are displayed when they
    /// are UTF-8 and discarded otherwise.
    pub fn on_socket_read(&mut self, bytes: &[u8]) -> (r: ClientAction)
        requires
            !old(self).ended,
        ensures
            (r is End) <==> final(self).ended,
            bytes@.len() == 0 ==> r == ClientAction::End(ClientNotice::ServerClosed),
            bytes@.len() > 0 && valid_utf8(bytes@) ==> (r matches ClientAction::Display(s) && s@
                == decode_utf8(bytes@)),
            bytes@.len() > 0 && !valid_utf8(bytes@) ==> r == ClientAction::Log(
                ClientNotice::MalformedText,
            ),
    {
        if bytes.len() == 0 {
            self.ended = true;
            return ClientAction::End(ClientNotice::ServerClosed);
        }
        match decode_text(bytes) {
            Some(text) => ClientAction::Display(text),
            None => ClientAction::Log(ClientNotice::MalformedText),
        }
    }

    /// Reading from the server failed: reported, and the session goes on.
    pub fn on_socket_error(&mut self) -> (r: ClientAction)
        requires
            !old(self).ended,
        ensures
            !final(self).ended,
            r == ClientAction::Log(ClientNotice::ReadFailed),
    {
        ClientAction::Log(ClientNotice::ReadFailed)
    }
}

} // verus!
