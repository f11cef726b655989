//! Laws of the session state machine, stated over the spec-level
//! transitions that the entry points' contracts are written with.
//!
//! Each entry point already pins its whole effect down: on acceptance
//! the store becomes `old@.insert(user, f(old@[user]))` for the
//! transition `f` it names, and on rejection the store is unchanged.
//! The lemmas here state, once and in one place, the protocol
//! guarantees those contracts add up to.

use vstd::prelude::*;

use crate::game::GameSession;
use crate::game::checking_session;
use crate::game::map_accepts_reply;
use crate::game::map_can_check;
use crate::game::map_can_start;
use crate::game::map_timeout_applies;
use crate::game::resolved_session;
use crate::game::timed_out_session;
use crate::ids::ActorId;
use crate::ids::MessageId;
use crate::protocol::GameStatus;
use crate::protocol::WordleEvent;
use crate::session::SessionInfo;
use crate::session::SessionStatus;
use crate::session::TRIES_LIMIT;

verus! {

/// The guess counter never falls.  An accepted guess raises it by
/// exactly one; an accepted reply and an honoured timeout leave it
/// untouched.  (Only a fresh `StartGame` resets it, with the session's
/// whole record.)
pub proof fn lemma_attempts_step(
    s: SessionInfo,
    event: WordleEvent,
    msg_id: MessageId,
    outbound_id: MessageId,
)
    ensures
        s.wf() && s.session_status is WaitUserInput ==> checking_session(
            s,
            msg_id,
            outbound_id,
        ).tries == s.tries + 1,
        resolved_session(s, event).tries == s.tries,
        timed_out_session(s).tries == s.tries,
{
}

/// Once a session is over it stays over: no guess, no reply and no
/// timeout is accepted for it, so by the entry points' contracts no
/// message moves it — only a new `StartGame`, which the first clause
/// shows is allowed.
pub proof fn lemma_game_over_stable(
    g: GameSession,
    user: ActorId,
    reply_to: MessageId,
    event: WordleEvent,
    session_id: MessageId,
)
    requires
        g@.dom().contains(user),
        g@[user].session_status is GameOver,
    ensures
        map_can_start(g@, user),
        !map_can_check(g@, user),
        event.spec_user() == user ==> !map_accepts_reply(g@, reply_to, event),
        !map_timeout_applies(g@, user, session_id),
{
}

/// A reply that reports all five positions correct finishes the game as
/// a win, whatever the guess counter holds.
pub proof fn lemma_full_match_wins(s: SessionInfo, event: WordleEvent)
    requires
        event.spec_has_guessed(),
    ensures
        resolved_session(s, event).session_status == SessionStatus::GameOver(GameStatus::Win),
{
}

/// A non-winning reply to the last allowed guess loses the game.
pub proof fn lemma_exhausted_tries_lose(s: SessionInfo, event: WordleEvent)
    requires
        !event.spec_has_guessed(),
        s.tries >= TRIES_LIMIT,
    ensures
        resolved_session(s, event).session_status == SessionStatus::GameOver(GameStatus::Lose),
{
}

/// A reply whose correlation id differs from the session's pending
/// request, and a timeout whose generation differs from the session's
/// current one, are never accepted; by the entry points' contracts the
/// rejected message leaves the store unchanged.
pub proof fn lemma_mismatch_rejected(
    g: GameSession,
    user: ActorId,
    reply_to: MessageId,
    event: WordleEvent,
    session_id: MessageId,
)
    requires
        g@.dom().contains(user),
    ensures
        event.spec_user() == user && reply_to != g@[user].send_to_wordle_msg_id
            ==> !map_accepts_reply(g@, reply_to, event),
        session_id != g@[user].session_id ==> !map_timeout_applies(g@, user, session_id),
{
}

/// An accepted reply moves the session out of its waiting state, so
/// delivering the same reply a second time is rejected: replies are not
/// replayable.
pub proof fn lemma_reply_not_replayable(
    m: Map<ActorId, SessionInfo>,
    reply_to: MessageId,
    event: WordleEvent,
)
    requires
        map_accepts_reply(m, reply_to, event),
    ensures
        !map_accepts_reply(
            m.insert(event.spec_user(), resolved_session(m[event.spec_user()], event)),
            reply_to,
            event,
        ),
{
}

} // verus!
