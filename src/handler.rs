use crate::hub::HubEvent;
use crate::message::{
    decode_text, join_ack, join_ack_text, relay_frame, relay_text, ChatMessage, Terminator,
};
use vstd::prelude::*;
use vstd::utf8::{decode_utf8, valid_utf8};

verus! {

/// Where a connection stands: waiting for its username, relaying, or done.
#[derive(Clone, Copy, Debug, PartialEq, Eq, Structural)]
pub enum Phase {
    Joining,
    Relaying,
    Closed,
}

/// Why a handler reports something.
#[derive(Clone, Copy, Debug, PartialEq, Eq, Structural)]
pub enum Notice {
    /// The peer closed its write side (a zero-length read).
    PeerClosed,
    /// Reading from the connection failed.
    ReadFailed,
    /// The username bytes were not UTF-8.
    MalformedName,
    /// A chunk read while relaying was not UTF-8; it is dropped.
    MalformedText,
    /// The subscription fell behind and skipped this many messages.
    Lagged(u64),
    /// The hub has no publish handle left.
    HubClosed,
}

/// What the driver of a connection does next.
#[derive(Clone, Debug, PartialEq, Eq)]
pub enum Action {
    /// Write this text to the connection, best effort.
    Send(String),
    /// Publish this message to the hub.
    Publish(ChatMessage),
    /// Report and go on.
    Log(Notice),
    /// Report and end the connection.
    Close(Notice),
}

/// The decisions of one server-side connection: the join handshake, then
/// relaying between the peer and the hub.
pub struct ConnectionHandler {
    pub phase: Phase,
    pub client_name: String,
    pub terminator: Terminator,
}

impl ConnectionHandler {
    /// The name is set only by the handshake: it is empty until then.
    pub open spec fn wf(&self) -> bool {
        self.phase == Phase::Joining ==> self.client_name@ == Seq::<char>::empty()
    }

    /// A handler for a freshly accepted connection.
    pub fn new(terminator: Terminator) -> (r: ConnectionHandler)
        ensures
            r.phase == Phase::Joining,
            r.client_name@ == Seq::<char>::empty(),
            r.terminator == terminator,
            r.wf(),
    {
        ConnectionHandler { phase: Phase::Joining, client_name: String::new(), terminator }
    }

    pub fn is_closed(&self) -> (r: bool)
        ensures
            r == (self.phase == Phase::Closed),
    {
        match self.phase {
            Phase::Closed => true,
            _ => false,
        }
    }

    /// Bytes arrived from the peer. A zero-length read means the peer closed
    /// its write side. During the handshake the bytes are the username; a
    /// name that is not UTF-8 ends the connection. While relaying, each read
    /// is published as one message under the client's name, and a chunk that
    /// is not UTF-8 is dropped with the connection kept open.
    pub fn on_read(&mut self, bytes: &[u8]) -> (r: Action)
        requires
            old(self).phase != Phase::Closed,
            old(self).wf(),
        ensures
            final(self).wf(),
            final(self).terminator == old(self).terminator,
            (r is Close) <==> final(self).phase == Phase::Closed,
            bytes@.len() == 0 ==> r == Action::Close(Notice::PeerClosed),
            bytes@.len() > 0 && !valid_utf8(bytes@) ==> if old(self).phase == Phase::Joining {
                r == Action::Close(Notice::MalformedName)
            } else {
                r == Action::Log(Notice::MalformedText) && final(self).phase == Phase::Relaying
                    && final(self).client_name@ == old(self).client_name@
            },
            bytes@.len() > 0 && valid_utf8(bytes@) ==> final(self).phase == Phase::Relaying
                && if old(self).phase == Phase::Joining {
                final(self).client_name@ == decode_utf8(bytes@) && (r matches Action::Send(s)
                    && s@ == join_ack_text(decode_utf8(bytes@), old(self).terminator))
            } else {
                final(self).client_name@ == old(self).client_name@ && (r matches Action::Publish(m)
                    && m.user@ == old(self).client_name@ && m.message@ == decode_utf8(bytes@))
            },
    {
        if bytes.len() == 0 {
            self.phase = Phase::Closed;
            return Action::Close(Notice::PeerClosed);
        }
        let joining = match self.phase {
            Phase::Joining => true,
            _ => false,
        };
        match decode_text(bytes) {
            None => {
                if joining {
                    self.phase = Phase::Closed;
                    Action::Close(Notice::MalformedName)
                } else {
                    Action::Log(Notice::MalformedText)
                }
            },
            Some(text) => {
                if joining {
                    let ack = join_ack(text.as_str(), self.terminator);
                    self.client_name = text;
                    self.phase = Phase::Relaying;
                    Action::Send(ack)
                } else {
                    Action::Publish(ChatMessage::new(self.client_name.clone(), text))
                }
            },
        }
    }

    /// Reading from the peer failed: the connection ends.
    pub fn on_read_error(&mut self) -> (r: Action)
        requires
            old(self).phase != Phase::Closed,
            old(self).wf(),
        ensures
            final(self).wf(),
            r == Action::Close(Notice::ReadFailed),
            final(self).phase == Phase::Closed,
            final(self).terminator == old(self).terminator,
    {
        self.phase = Phase::Closed;
        Action::Close(Notice::ReadFailed)
    }

    /// The subscription produced an event. A message is relayed to the peer
    /// as `[{user}] {message}`; a lag is reported and relaying goes on; a
    /// closed hub ends the connection.
    pub fn on_hub(&mut self, event: HubEvent) -> (r: Action)
        requires
            old(self).phase == Phase::Relaying,
            old(self).wf(),
        ensures
            final(self).wf(),
            final(self).terminator == old(self).terminator,
            final(self).client_name@ == old(self).client_name@,
            (r is Close) <==> final(self).phase == Phase::Closed,
            match event {
                HubEvent::Message(m) => final(self).phase == Phase::Relaying && (r matches Action::Send(s)
                    && s@ == relay_text(m.user@, m.message@, old(self).terminator)),
                HubEvent::Lagged(n) => final(self).phase == Phase::Relaying && r == Action::Log(
                    Notice::Lagged(n),
                ),
                HubEvent::Closed => r == Action::Close(Notice::HubClosed),
            },
    {
        match event {
            HubEvent::Message(m) => Action::Send(relay_frame(&m, self.terminator)),
            HubEvent::Lagged(n) => Action::Log(Notice::Lagged(n)),
            HubEvent::Closed => {
                self.phase = Phase::Closed;
                Action::Close(Notice::HubClosed)
            },
        }
    }
}

} // verus!
