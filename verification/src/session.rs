//! Per-user session records and the machine states they move through.

use vstd::prelude::*;

use crate::ids::MessageId;
use crate::protocol::GameStatus;
use crate::protocol::WordleEvent;

verus! {

/// Guesses a user may consume before the session is lost.
pub const TRIES_LIMIT: u8 = 6;

/// Where in the protocol a session currently stands.
///
/// `ReplyReceived` is a transient shape a reply passes through; the
/// orchestrator collapses it into `WaitUserInput` or `GameOver` before
/// control returns, so a stored session never holds it.
#[derive(Clone, Debug, PartialEq)]
pub enum SessionStatus {
    Init,
    WaitUserInput,
    WaitWordleStartReply,
    WaitWordleCheckWordReply,
    ReplyReceived(WordleEvent),
    GameOver(GameStatus),
}

/// One user's record: the identifiers of the messages it is correlated
/// with, the guesses consumed, and the machine state.
#[derive(Clone, Debug, PartialEq)]
pub struct SessionInfo {
    /// Minted when the session (re)starts; a scheduled timeout is
    /// honoured only while this still matches the one it carries.
    pub session_id: MessageId,
    /// The user-facing message currently being processed or suspended.
    pub original_msg_id: MessageId,
    /// The outbound request awaiting a collaborator reply.
    pub send_to_wordle_msg_id: MessageId,
    /// Guesses consumed so far.
    pub tries: u8,
    /// The machine state.
    pub session_status: SessionStatus,
}

impl SessionInfo {
    /// The session is suspended on an outstanding collaborator request.
    pub open spec fn spec_is_wait_reply(self) -> bool {
        self.session_status is WaitWordleStartReply || self.session_status
            is WaitWordleCheckWordReply
    }

    /// Decides [`SessionInfo::spec_is_wait_reply`].
    pub fn is_wait_reply_status(&self) -> (r: bool)
        ensures
            r == self.spec_is_wait_reply(),
    {
        match self.session_status {
            SessionStatus::WaitWordleStartReply => true,
            SessionStatus::WaitWordleCheckWordReply => true,
            _ => false,
        }
    }

    /// Internal consistency of a stored record: the guess counter never
    /// exceeds the limit, a session awaiting user input always has a
    /// guess left (otherwise it would already be lost), and the
    /// transient `ReplyReceived` shape is never stored.
    pub open spec fn wf(self) -> bool {
        &&& self.tries <= TRIES_LIMIT
        &&& self.session_status is WaitUserInput ==> self.tries < TRIES_LIMIT
        &&& !(self.session_status is ReplyReceived)
    }
}

impl Default for SessionInfo {
    /// A fresh record: zero ids, no guesses, machine state `Init`.
    fn default() -> (r: SessionInfo)
        ensures
            r.session_id.id == 0,
            r.original_msg_id.id == 0,
            r.send_to_wordle_msg_id.id == 0,
            r.tries == 0,
            r.session_status is Init,
            r.wf(),
    {
        SessionInfo {
            session_id: MessageId { id: 0 },
            original_msg_id: MessageId { id: 0 },
            send_to_wordle_msg_id: MessageId { id: 0 },
            tries: 0,
            session_status: SessionStatus::Init,
        }
    }
}

/// Copies a stored session record.  On well-formed records the copy is
/// the same value: every field is plain data once `ReplyReceived` is
/// ruled out.
pub fn copy_session_info(s: &SessionInfo) -> (r: SessionInfo)
    requires
        s.wf(),
    ensures
        r == *s,
{
    let status = match &s.session_status {
        SessionStatus::Init => SessionStatus::Init,
        SessionStatus::WaitUserInput => SessionStatus::WaitUserInput,
        SessionStatus::WaitWordleStartReply => SessionStatus::WaitWordleStartReply,
        SessionStatus::WaitWordleCheckWordReply => SessionStatus::WaitWordleCheckWordReply,
        SessionStatus::GameOver(outcome) => SessionStatus::GameOver(*outcome),
        SessionStatus::ReplyReceived(_) => {
            // ruled out by well-formedness
            proof {
                assert(false);
            }
            SessionStatus::Init
        },
    };
    SessionInfo {
        session_id: s.session_id,
        original_msg_id: s.original_msg_id,
        send_to_wordle_msg_id: s.send_to_wordle_msg_id,
        tries: s.tries,
        session_status: status,
    }
}

} // verus!
