//! Decisions of a client connection: what each inbound frame turns into,
//! liveness, and what happens when the connection goes away.
use vstd::prelude::*;
use crate::matchmaking::{JoinQueue, LeaveQueue};
use crate::protocol::{ClientMessage, MessageView, ServerMessage};
use crate::session::{PlayerChoice, PlayerDisconnected};

verus! {

/// Milliseconds between two pings.
pub const HEARTBEAT_INTERVAL_MS: u64 = 5000;

/// Milliseconds without client activity after which the connection closes.
pub const CLIENT_TIMEOUT_MS: u64 = 10000;

/// What an inbound frame turns into.
pub enum ConnectionAction {
    /// Ask the matchmaking controller for a place in the queue.
    Join(JoinQueue),
    /// Ask the matchmaking controller to drop this player from the queue.
    Leave(LeaveQueue),
    /// Hand a move to the attached session.
    Choose(PlayerChoice),
    /// Answer on this connection.
    Reply(ServerMessage),
}

/// An inbound websocket event, with a text frame already parsed.
pub enum InboundFrame {
    Ping,
    Pong,
    /// A text frame: the client message, or none if it did not parse.
    Text(Option<ClientMessage>),
    Binary,
    Close,
    /// The transport reported a protocol error.
    ProtocolError,
}

/// What the connection does about an inbound event.
pub enum FrameAction {
    /// Answer a ping.
    Pong,
    /// Carry out the decision for a client message.
    Act(ConnectionAction),
    /// Close the socket and stop.
    Close,
    /// Stop without a close handshake.
    Stop,
    /// Nothing beyond noting the activity.
    Nothing,
}

/// The state of one client connection.
pub struct PlayerWsActor {
    pub user_id: String,
    pub username: String,
    pub elo: i32,
    pub is_guest: bool,
    /// When client activity was last seen, in milliseconds.
    pub hb: u64,
    /// Whether a session is attached.
    pub in_session: bool,
}

/// The decision for a parsed client message `msg` on connection `c`: a
/// join asks for a ranked match unless it says otherwise, and never for a
/// guest; a leave names this user; a move goes to the session, or is
/// answered with an error when there is none.
pub open spec fn client_decision(
    c: PlayerWsActor,
    msg: ClientMessage,
    r: ConnectionAction,
) -> bool {
    match msg {
        ClientMessage::JoinQueue { ranked } => r matches ConnectionAction::Join(j) && j.user_id
            == c.user_id && j.username == c.username && j.elo == c.elo
            && j.is_guest == c.is_guest && j.ranked == (!c.is_guest && match ranked {
            Some(b) => b,
            None => true,
        }),
        ClientMessage::LeaveQueue => r matches ConnectionAction::Leave(l) && l.user_id
            == c.user_id,
        ClientMessage::Choice { choice } => if c.in_session {
            r matches ConnectionAction::Choose(pc) && pc.user_id == c.user_id && pc.choice
                == choice
        } else {
            r matches ConnectionAction::Reply(m) && m@ == (MessageView::Error {
                message: "Not in a game"@,
            })
        },
    }
}

/// The error frame for a frame that does not parse.
pub fn invalid_frame() -> (r: ServerMessage)
    ensures
        r@ == (MessageView::Error { message: "Invalid message format"@ }),
{
    ServerMessage::Error { message: String::from_str("Invalid message format") }
}

impl PlayerWsActor {
    pub fn new(user_id: String, username: String, elo: i32, is_guest: bool, now: u64) -> (r:
        PlayerWsActor)
        ensures
            r.user_id == user_id,
            r.username == username,
            r.elo == elo,
            r.is_guest == is_guest,
            r.hb == now,
            !r.in_session,
    {
        PlayerWsActor { user_id, username, elo, is_guest, hb: now, in_session: false }
    }

    /// What a parsed client frame turns into. A join asks for a ranked match
    /// unless it says otherwise, and never for a guest; a move goes to the
    /// session, or is answered with an error when there is none.
    pub fn handle_client_message(&self, msg: ClientMessage) -> (r: ConnectionAction)
        ensures
            client_decision(*self, msg, r),
    {
        match msg {
            ClientMessage::JoinQueue { ranked } => {
                let ranked = if self.is_guest {
                    false
                } else {
                    match ranked {
                        Some(b) => b,
                        None => true,
                    }
                };
                ConnectionAction::Join(
                    JoinQueue {
                        user_id: self.user_id.clone(),
                        username: self.username.clone(),
                        elo: self.elo,
                        ranked,
                        is_guest: self.is_guest,
                    },
                )
            },
            ClientMessage::LeaveQueue => ConnectionAction::Leave(
                LeaveQueue { user_id: self.user_id.clone() },
            ),
            ClientMessage::Choice { choice } => {
                if self.in_session {
                    ConnectionAction::Choose(PlayerChoice { user_id: self.user_id.clone(), choice })
                } else {
                    ConnectionAction::Reply(
                        ServerMessage::Error { message: String::from_str("Not in a game") },
                    )
                }
            },
        }
    }

    /// An inbound event at `now`. Every frame counts as client activity; a
    /// protocol error stops the connection. A ping is answered; a parsed
    /// text frame is decided by [`Self::handle_client_message`]; one that
    /// does not parse is answered with an error; a close ends the
    /// connection.
    pub fn on_frame(&mut self, frame: InboundFrame, now: u64) -> (r: FrameAction)
        ensures
            final(self).user_id == old(self).user_id,
            final(self).username == old(self).username,
            final(self).elo == old(self).elo,
            final(self).is_guest == old(self).is_guest,
            final(self).in_session == old(self).in_session,
            frame is ProtocolError ==> final(self).hb == old(self).hb && r is Stop,
            !(frame is ProtocolError) ==> final(self).hb == now,
            frame is Ping ==> r is Pong,
            frame is Pong || frame is Binary ==> r is Nothing,
            frame is Close ==> r is Close,
            frame matches InboundFrame::Text(Some(m)) ==> (r matches FrameAction::Act(a)
                && client_decision(*old(self), m, a)),
            frame matches InboundFrame::Text(None) ==> (r matches FrameAction::Act(
                ConnectionAction::Reply(m),
            ) && m@ == (MessageView::Error { message: "Invalid message format"@ })),
    {
        match frame {
            InboundFrame::ProtocolError => FrameAction::Stop,
            InboundFrame::Ping => {
                self.hb = now;
                FrameAction::Pong
            },
            InboundFrame::Pong => {
                self.hb = now;
                FrameAction::Nothing
            },
            InboundFrame::Binary => {
                self.hb = now;
                FrameAction::Nothing
            },
            InboundFrame::Close => {
                self.hb = now;
                FrameAction::Close
            },
            InboundFrame::Text(parsed) => {
                self.hb = now;
                match parsed {
                    Some(msg) => FrameAction::Act(self.handle_client_message(msg)),
                    None => FrameAction::Act(ConnectionAction::Reply(invalid_frame())),
                }
            },
        }
    }

    /// Client activity (any inbound frame, a pong included) at `now`.
    pub fn record_activity(&mut self, now: u64)
        ensures
            *final(self) == (PlayerWsActor { hb: now, ..*old(self) }),
    {
        self.hb = now;
    }

    /// The periodic liveness check at `now`: true when the client has been
    /// silent for longer than the timeout and the connection is to close;
    /// false when a ping is to be sent.
    pub fn heartbeat_expired(&self, now: u64) -> (r: bool)
        ensures
            r == (now > self.hb && now - self.hb > CLIENT_TIMEOUT_MS),
    {
        now > self.hb && now - self.hb > CLIENT_TIMEOUT_MS
    }

    /// A session is attached.
    pub fn attach_session(&mut self)
        ensures
            *final(self) == (PlayerWsActor { in_session: true, ..*old(self) }),
    {
        self.in_session = true;
    }

    /// What the connection sends on its way out: always a leave request
    /// (harmless when not queued), and a disconnection notice to the
    /// attached session if any.
    pub fn teardown(&self) -> (r: (LeaveQueue, Option<PlayerDisconnected>))
        ensures
            r.0.user_id == self.user_id,
            match r.1 {
                Some(d) => self.in_session && d.user_id == self.user_id,
                None => !self.in_session,
            },
    {
        let leave = LeaveQueue { user_id: self.user_id.clone() };
        if self.in_session {
            (leave, Some(PlayerDisconnected { user_id: self.user_id.clone() }))
        } else {
            (leave, None)
        }
    }
}

} // verus!
