//! Logging in at the gateway: what to do with each message that arrives
//! until the session is ready.
//!
//! The caller holds the connection. It hands every frame that it reads to
//! the gateway and does what the gateway answers.

use vstd::prelude::*;
use crate::discord::models::{DiscordUser, GatewayPayload, DISPATCH, HELLO};
use crate::text::same_text;

verus! {

/// How far the login is.
#[derive(Debug, Clone, Copy, PartialEq, Eq, Structural)]
pub enum LoginStage {
    /// Nothing was read yet: the greeting is expected.
    AwaitingHello,
    /// The client has identified itself and waits for the session.
    AwaitingReady,
    /// The session is ready.
    LoggedIn,
    /// The login has failed.
    Failed,
}

/// A login at the gateway.
#[derive(Debug, Clone)]
pub struct DiscordGateway {
    token: String,
    user: Option<DiscordUser>,
    stage: LoginStage,
    last_seq: Option<u64>,
}

/// What the connection handed over.
pub enum GatewayFrame {
    /// A text frame that reads as a message.
    Payload(GatewayPayload),
    /// A text frame that does not read as a message.
    Unreadable,
    /// A close frame, with code and reason where it gives them.
    Close(Option<(u16, String)>),
    /// Any other frame.
    Other,
    /// The connection has ended.
    End,
}

/// Why a login failed.
#[derive(Debug, Clone, Copy, PartialEq, Eq, Structural)]
pub enum GatewayError {
    /// The gateway did not begin with a greeting.
    NoHello,
    /// The greeting names no heartbeat interval.
    NoHeartbeatInterval,
    /// A frame does not read as a message.
    Unreadable,
    /// The ready event does not read as a session.
    NoSession,
    /// The gateway closed the connection.
    Closed,
}

/// What the caller is to do next.
#[derive(Debug, Clone, Copy, PartialEq, Eq, Structural)]
pub enum GatewayAction {
    /// Start sending heartbeats at this interval, in milliseconds, and send
    /// the identification.
    Identify { heartbeat_interval: u64 },
    /// Read on.
    Continue,
    /// Stop reading: the session is ready.
    Done,
    /// Stop reading: the login has failed.
    Fail(GatewayError),
}

/// Whether a message is the ready event.
pub open spec fn is_ready_event(payload: GatewayPayload) -> bool {
    payload.op == DISPATCH && (payload.t matches Some(name) && name@ == "READY"@)
}

/// What a frame leads to at a stage: the stage after it and the action for
/// the caller.
pub open spec fn login_step(stage: LoginStage, frame: GatewayFrame) -> (LoginStage, GatewayAction) {
    match stage {
        LoginStage::AwaitingHello => match frame {
            GatewayFrame::Payload(payload) => if payload.op == HELLO {
                match payload.heartbeat_interval {
                    Some(interval) => (
                        LoginStage::AwaitingReady,
                        GatewayAction::Identify { heartbeat_interval: interval },
                    ),
                    None => (
                        LoginStage::Failed,
                        GatewayAction::Fail(GatewayError::NoHeartbeatInterval),
                    ),
                }
            } else {
                (LoginStage::Failed, GatewayAction::Fail(GatewayError::NoHello))
            },
            GatewayFrame::Unreadable => (
                LoginStage::Failed,
                GatewayAction::Fail(GatewayError::Unreadable),
            ),
            _ => (LoginStage::Failed, GatewayAction::Fail(GatewayError::NoHello)),
        },
        LoginStage::AwaitingReady => match frame {
            GatewayFrame::Payload(payload) => if is_ready_event(payload) {
                if payload.ready is Some {
                    (LoginStage::LoggedIn, GatewayAction::Done)
                } else {
                    (LoginStage::Failed, GatewayAction::Fail(GatewayError::NoSession))
                }
            } else {
                (LoginStage::AwaitingReady, GatewayAction::Continue)
            },
            GatewayFrame::Unreadable => (
                LoginStage::Failed,
                GatewayAction::Fail(GatewayError::Unreadable),
            ),
            GatewayFrame::Close(_) => (LoginStage::Failed, GatewayAction::Fail(GatewayError::Closed)),
            GatewayFrame::Other => (LoginStage::AwaitingReady, GatewayAction::Continue),
            GatewayFrame::End => (LoginStage::Failed, GatewayAction::Fail(GatewayError::NoHello)),
        },
        LoginStage::LoggedIn => (LoginStage::LoggedIn, GatewayAction::Done),
        LoginStage::Failed => (LoginStage::Failed, GatewayAction::Fail(GatewayError::Closed)),
    }
}

/// The sequence number to send with the next heartbeat, after a frame.
pub open spec fn seq_after(stage: LoginStage, last_seq: Option<u64>, frame: GatewayFrame) -> Option<
    u64,
> {
    match (stage, frame) {
        (LoginStage::AwaitingReady, GatewayFrame::Payload(payload)) => match payload.s {
            Some(s) => Some(s),
            None => last_seq,
        },
        _ => last_seq,
    }
}

impl DiscordGateway {
    /// How far the login is.
    pub closed spec fn stage(&self) -> LoginStage {
        self.stage
    }

    /// The sequence number of the last message that had one.
    pub closed spec fn last_seq(&self) -> Option<u64> {
        self.last_seq
    }

    /// The user that is logged in.
    pub closed spec fn user(&self) -> Option<DiscordUser> {
        self.user
    }

    /// The token to log in with.
    pub closed spec fn token(&self) -> Seq<char> {
        self.token@
    }

    /// A login that is yet to begin.
    pub fn new(token: String) -> (gateway: DiscordGateway)
        ensures
            gateway.token() == token@,
            gateway.stage() == LoginStage::AwaitingHello,
            gateway.user() is None,
            gateway.last_seq() is None,
    {
        DiscordGateway { token, user: None, stage: LoginStage::AwaitingHello, last_seq: None }
    }

    /// The user that is logged in, once the session is ready.
    pub fn get_user(&self) -> (user: Option<&DiscordUser>)
        ensures
            match user {
                Some(u) => self.user() == Some(*u),
                None => self.user() is None,
            },
    {
        self.user.as_ref()
    }

    /// The token to log in with.
    pub fn token_text(&self) -> (token: &str)
        ensures
            token@ == self.token(),
    {
        self.token.as_str()
    }

    /// The sequence number to send with the next heartbeat.
    pub fn heartbeat_seq(&self) -> (seq: Option<u64>)
        ensures
            seq == self.last_seq(),
    {
        self.last_seq
    }

    /// How far the login is.
    pub fn login_stage(&self) -> (stage: LoginStage)
        ensures
            stage == self.stage(),
    {
        self.stage
    }

    /// Takes a frame and says what to do next. The user is known from the
    /// moment the session is ready.
    pub fn handle_frame(&mut self, frame: GatewayFrame) -> (action: GatewayAction)
        ensures
            (final(self).stage(), action) == login_step(old(self).stage(), frame),
            final(self).last_seq() == seq_after(old(self).stage(), old(self).last_seq(), frame),
            final(self).token() == old(self).token(),
            final(self).user() == if old(self).stage() == LoginStage::AwaitingReady
                && final(self).stage() == LoginStage::LoggedIn {
                match frame {
                    GatewayFrame::Payload(payload) => Some(payload.ready->0.user),
                    _ => old(self).user(),
                }
            } else {
                old(self).user()
            },
    {
        match self.stage {
            LoginStage::AwaitingHello => match frame {
                GatewayFrame::Payload(payload) => {
                    if payload.op == HELLO {
                        match payload.heartbeat_interval {
                            Some(interval) => {
                                self.stage = LoginStage::AwaitingReady;
                                GatewayAction::Identify { heartbeat_interval: interval }
                            },
                            None => {
                                self.stage = LoginStage::Failed;
                                GatewayAction::Fail(GatewayError::NoHeartbeatInterval)
                            },
                        }
                    } else {
                        self.stage = LoginStage::Failed;
                        GatewayAction::Fail(GatewayError::NoHello)
                    }
                },
                GatewayFrame::Unreadable => {
                    self.stage = LoginStage::Failed;
                    GatewayAction::Fail(GatewayError::Unreadable)
                },
                _ => {
                    self.stage = LoginStage::Failed;
                    GatewayAction::Fail(GatewayError::NoHello)
                },
            },
            LoginStage::AwaitingReady => match frame {
                GatewayFrame::Payload(payload) => {
                    match payload.s {
                        Some(s) => {
                            self.last_seq = Some(s);
                        },
                        None => {},
                    }
                    let is_ready = payload.op == DISPATCH && match &payload.t {
                        Some(name) => same_text(name.as_str(), "READY"),
                        None => false,
                    };
                    if is_ready {
                        match payload.ready {
                            Some(session) => {
                                self.user = Some(session.user);
                                self.stage = LoginStage::LoggedIn;
                                GatewayAction::Done
                            },
                            None => {
                                self.stage = LoginStage::Failed;
                                GatewayAction::Fail(GatewayError::NoSession)
                            },
                        }
                    } else {
                        GatewayAction::Continue
                    }
                },
                GatewayFrame::Unreadable => {
                    self.stage = LoginStage::Failed;
                    GatewayAction::Fail(GatewayError::Unreadable)
                },
                GatewayFrame::Close(_) => {
                    self.stage = LoginStage::Failed;
                    GatewayAction::Fail(GatewayError::Closed)
                },
                GatewayFrame::Other => GatewayAction::Continue,
                GatewayFrame::End => {
                    self.stage = LoginStage::Failed;
                    GatewayAction::Fail(GatewayError::NoHello)
                },
            },
            LoginStage::LoggedIn => GatewayAction::Done,
            LoginStage::Failed => GatewayAction::Fail(GatewayError::Closed),
        }
    }
}

} // verus!
