//! The orchestrator: process-wide state, the guarded transitions of the
//! session state machine, reply correlation and the timeout rule.
//!
//! Every entry point is a pure transition.  The runtime around the
//! library supplies the identities it minted for the current inbound
//! message (`msg_id`) and for the outbound request about to be sent
//! (`outbound_id`), and performs the effects an entry point returns:
//! sending the request, scheduling the timeout, suspending the current
//! handler, waking a suspended one, and delivering events to users.

use vstd::prelude::*;

use crate::ids::ActorId;
use crate::ids::MessageId;
use crate::protocol::GameSessionAction;
use crate::protocol::GameSessionEvent;
use crate::protocol::GameStatus;
use crate::protocol::WordleAction;
use crate::protocol::WordleEvent;
use crate::protocol::valid_word;
use crate::protocol::forwards_reply;
use crate::protocol::word_is_valid;
use crate::session::SessionInfo;
use crate::session::SessionStatus;
use crate::session::TRIES_LIMIT;
use crate::session::copy_session_info;
use crate::store::find_session;
use crate::store::keys_unique;
use crate::store::lemma_keys_unique_after;
use crate::store::lemma_map_of_dom;
use crate::store::lemma_map_of_index;
use crate::store::lemma_map_of_push;
use crate::store::lemma_map_of_update;
use crate::store::map_of;

verus! {

/// Ticks a session may wait on the collaborator before its scheduled
/// timeout forces it over.
pub const TIMEOUT_DELAY_BLOCKS: u32 = 200;

/// Configuration the orchestrator is created with.
#[derive(Clone, Copy, Debug, PartialEq, Eq, Structural)]
pub struct GameSessionInit {
    pub wordle_program_id: ActorId,
}

impl GameSessionInit {
    /// The collaborator's id must not be the reserved zero id.
    pub open spec fn is_valid(self) -> bool {
        self.wordle_program_id.id != 0
    }

    /// Callers establish [`GameSessionInit::is_valid`] before creating
    /// the orchestrator; a zero collaborator id is rejected up front.
    pub fn assert_valid(&self)
        requires
            self.is_valid(),
    {
    }
}

/// Why an inbound message was rejected.  A rejection aborts that
/// message alone and leaves the store exactly as it was.
#[derive(Clone, Copy, Debug, PartialEq, Eq, Structural)]
pub enum SessionError {
    /// `StartGame` from a session that is neither fresh nor finished.
    InvalidStateForStart,
    /// `CheckWord` from a session that is not awaiting a guess.
    InvalidStateForCheck,
    /// The guess is not five lowercase letters.
    InvalidWord,
    /// A collaborator reply names a user with no session.
    SessionNotFound,
    /// A reply whose correlation id does not match the pending request,
    /// or one delivered while the session is not waiting.
    UnexpectedReply,
}

/// The delayed self-addressed message that implements the timeout.
#[derive(Clone, Copy, Debug, PartialEq, Eq, Structural)]
pub struct TimeoutRequest {
    pub user: ActorId,
    /// The session generation this timeout belongs to; a stale one is
    /// ignored on delivery.
    pub session_id: MessageId,
    pub delay_blocks: u32,
}

/// What the runtime must do after an accepted action.
#[derive(Debug)]
pub enum HandleOutcome {
    /// Send the request, schedule the timeout, suspend this handler.
    Started { request: WordleAction, timeout: TimeoutRequest },
    /// Send the request and suspend this handler.
    Checking { request: WordleAction },
    /// A timeout fired: push the notice to the user.
    TimeoutExpired { user: ActorId, notice: GameSessionEvent },
    /// A timeout arrived stale, or from a foreign sender: do nothing.
    TimeoutIgnored,
}

/// What the runtime must do after an accepted collaborator reply: wake
/// the handler suspended on `wake_msg_id` and let it answer its user
/// with `reply`.
#[derive(Debug)]
pub struct ReplyOutcome {
    pub wake_msg_id: MessageId,
    pub reply: GameSessionEvent,
}

/// The record a freshly (re)started session holds: the inbound message
/// mints the new generation and is itself the suspended request.
pub open spec fn started_session(msg_id: MessageId, outbound_id: MessageId) -> SessionInfo {
    SessionInfo {
        session_id: msg_id,
        original_msg_id: msg_id,
        send_to_wordle_msg_id: outbound_id,
        tries: 0,
        session_status: SessionStatus::WaitWordleStartReply,
    }
}

/// The record after an accepted guess: one more try consumed, the new
/// request pending, the generation unchanged.
pub open spec fn checking_session(s: SessionInfo, msg_id: MessageId, outbound_id: MessageId) -> SessionInfo {
    SessionInfo {
        session_id: s.session_id,
        original_msg_id: msg_id,
        send_to_wordle_msg_id: outbound_id,
        tries: (s.tries + 1) as u8,
        session_status: SessionStatus::WaitWordleCheckWordReply,
    }
}

/// The machine state an accepted reply lands in: a fully correct guess
/// wins regardless of the counter; an exhausted counter loses;
/// otherwise the user may guess again.
pub open spec fn resolved_status(s: SessionInfo, event: WordleEvent) -> SessionStatus {
    if event.spec_has_guessed() {
        SessionStatus::GameOver(GameStatus::Win)
    } else if s.tries >= TRIES_LIMIT {
        SessionStatus::GameOver(GameStatus::Lose)
    } else {
        SessionStatus::WaitUserInput
    }
}

/// The record after an accepted reply: only the machine state moves.
pub open spec fn resolved_session(s: SessionInfo, event: WordleEvent) -> SessionInfo {
    SessionInfo { session_status: resolved_status(s, event), ..s }
}

/// The record after an honoured timeout: the session is forced over.
pub open spec fn timed_out_session(s: SessionInfo) -> SessionInfo {
    SessionInfo { session_status: SessionStatus::GameOver(GameStatus::Lose), ..s }
}

/// The reply a resumed handler delivers: the outcome when the game just
/// ended, the forwarded collaborator reply otherwise.
pub open spec fn reply_for(status: SessionStatus, event: WordleEvent, out: GameSessionEvent) -> bool {
    match status {
        SessionStatus::GameOver(outcome) => out == GameSessionEvent::GameOver(outcome),
        _ => forwards_reply(event, out),
    }
}

/// `StartGame` is accepted while the user's session is fresh or
/// finished (a finished game may be restarted), or does not exist.
pub open spec fn map_can_start(m: Map<ActorId, SessionInfo>, user: ActorId) -> bool {
    m.dom().contains(user) ==> (m[user].session_status is Init || m[user].session_status
        is GameOver)
}

/// `CheckWord` is accepted while the user's session awaits a guess.
pub open spec fn map_can_check(m: Map<ActorId, SessionInfo>, user: ActorId) -> bool {
    &&& m.dom().contains(user)
    &&& (m[user].session_status is WaitUserInput || m[user].session_status is ReplyReceived)
}

/// A reply is accepted only when its correlation id equals the
/// session's pending request and the session is suspended on it.
pub open spec fn map_accepts_reply(
    m: Map<ActorId, SessionInfo>,
    reply_to: MessageId,
    event: WordleEvent,
) -> bool {
    &&& m.dom().contains(event.spec_user())
    &&& reply_to == m[event.spec_user()].send_to_wordle_msg_id
    &&& m[event.spec_user()].spec_is_wait_reply()
}

/// A delivered timeout is honoured only while its generation still
/// matches and the game is not already over.
pub open spec fn map_timeout_applies(
    m: Map<ActorId, SessionInfo>,
    user: ActorId,
    session_id: MessageId,
) -> bool {
    &&& m.dom().contains(user)
    &&& m[user].session_id == session_id
    &&& !(m[user].session_status is GameOver)
}

/// The whole orchestrator state: the collaborator's identity and one
/// session per user.
#[derive(Debug)]
pub struct GameSession {
    pub wordle_program_id: ActorId,
    pub sessions: Vec<(ActorId, SessionInfo)>,
}

impl View for GameSession {
    type V = Map<ActorId, SessionInfo>;

    open spec fn view(&self) -> Map<ActorId, SessionInfo> {
        map_of(self.sessions@)
    }
}

impl GameSession {
    /// One session per user, each internally consistent.
    pub open spec fn wf(self) -> bool {
        &&& keys_unique(self.sessions@)
        &&& forall|i: int|
            0 <= i < self.sessions@.len() ==> (#[trigger] self.sessions@[i]).1.wf()
    }

    /// [`map_can_start`] on this store.
    pub open spec fn can_start(self, user: ActorId) -> bool {
        map_can_start(self@, user)
    }

    /// [`map_can_check`] on this store.
    pub open spec fn can_check(self, user: ActorId) -> bool {
        map_can_check(self@, user)
    }

    /// [`map_accepts_reply`] on this store.
    pub open spec fn accepts_reply(self, reply_to: MessageId, event: WordleEvent) -> bool {
        map_accepts_reply(self@, reply_to, event)
    }

    /// [`map_timeout_applies`] on this store.
    pub open spec fn timeout_applies(self, user: ActorId, session_id: MessageId) -> bool {
        map_timeout_applies(self@, user, session_id)
    }

    /// A fresh orchestrator with no sessions.
    pub fn new(init: GameSessionInit) -> (r: GameSession)
        ensures
            r.wf(),
            r.wordle_program_id == init.wordle_program_id,
            r@ == Map::<ActorId, SessionInfo>::empty(),
    {
        let r = GameSession { wordle_program_id: init.wordle_program_id, sessions: Vec::new() };
        proof {
            assert(r@ =~= Map::<ActorId, SessionInfo>::empty());
        }
        r
    }

    /// Begins (or restarts) the user's game.  `msg_id` identifies the
    /// inbound message, which becomes both the new session generation
    /// and the suspended request; `outbound_id` identifies the
    /// `StartGame` request the runtime is about to send to the
    /// collaborator.
    pub fn start_game(&mut self, user: ActorId, msg_id: MessageId, outbound_id: MessageId) -> (r:
        Result<(), SessionError>)
        requires
            old(self).wf(),
        ensures
            final(self).wf(),
            final(self).wordle_program_id == old(self).wordle_program_id,
            match r {
                Ok(()) => {
                    &&& old(self).can_start(user)
                    &&& final(self)@ == old(self)@.insert(user, started_session(msg_id, outbound_id))
                },
                Err(e) => {
                    &&& e == SessionError::InvalidStateForStart
                    &&& !old(self).can_start(user)
                    &&& *final(self) == *old(self)
                },
            },
    {
        let fresh = SessionInfo {
            session_id: msg_id,
            original_msg_id: msg_id,
            send_to_wordle_msg_id: outbound_id,
            tries: 0,
            session_status: SessionStatus::WaitWordleStartReply,
        };
        match find_session(&self.sessions, user) {
            None => {
                proof {
                    lemma_map_of_dom(self.sessions@, user);
                    lemma_keys_unique_after(self.sessions@, user, fresh);
                    lemma_map_of_push(self.sessions@, user, fresh);
                }
                self.sessions.push((user, fresh));
                Ok(())
            },
            Some(i) => {
                proof {
                    lemma_map_of_index(self.sessions@, i as int);
                }
                let restartable = match self.sessions[i].1.session_status {
                    SessionStatus::Init => true,
                    SessionStatus::GameOver(_) => true,
                    _ => false,
                };
                if restartable {
                    proof {
                        lemma_keys_unique_after(self.sessions@, user, fresh);
                        lemma_map_of_update(self.sessions@, i as int, fresh);
                    }
                    self.sessions[i] = (user, fresh);
                    Ok(())
                } else {
                    Err(SessionError::InvalidStateForStart)
                }
            },
        }
    }

    /// Consumes a guess.  The session must be awaiting user input and
    /// the word must be five lowercase letters; the guess counter rises
    /// by exactly one and the returned request must be sent to the
    /// collaborator, with this handler suspended on `msg_id`.
    pub fn check_word(&mut self, user: ActorId, word: String, msg_id: MessageId, outbound_id: MessageId)
        -> (r: Result<WordleAction, SessionError>)
        requires
            old(self).wf(),
        ensures
            final(self).wf(),
            final(self).wordle_program_id == old(self).wordle_program_id,
            match r {
                Ok(request) => {
                    &&& old(self).can_check(user)
                    &&& valid_word(word@)
                    &&& final(self)@ == old(self)@.insert(
                        user,
                        checking_session(old(self)@[user], msg_id, outbound_id),
                    )
                    &&& request matches WordleAction::CheckWord { user: u, word: w } && u == user
                        && w@ == word@
                },
                Err(SessionError::InvalidStateForCheck) => {
                    &&& !old(self).can_check(user)
                    &&& *final(self) == *old(self)
                },
                Err(SessionError::InvalidWord) => {
                    &&& old(self).can_check(user)
                    &&& !valid_word(word@)
                    &&& *final(self) == *old(self)
                },
                Err(_) => false,
            },
    {
        match find_session(&self.sessions, user) {
            None => {
                proof {
                    lemma_map_of_dom(self.sessions@, user);
                }
                Err(SessionError::InvalidStateForCheck)
            },
            Some(i) => {
                proof {
                    lemma_map_of_index(self.sessions@, i as int);
                }
                let awaiting = match self.sessions[i].1.session_status {
                    SessionStatus::WaitUserInput => true,
                    SessionStatus::ReplyReceived(_) => true,
                    _ => false,
                };
                if !awaiting {
                    return Err(SessionError::InvalidStateForCheck);
                }
                if !word_is_valid(word.as_str()) {
                    return Err(SessionError::InvalidWord);
                }
                let next = SessionInfo {
                    session_id: self.sessions[i].1.session_id,
                    original_msg_id: msg_id,
                    send_to_wordle_msg_id: outbound_id,
                    tries: self.sessions[i].1.tries + 1,
                    session_status: SessionStatus::WaitWordleCheckWordReply,
                };
                proof {
                    lemma_keys_unique_after(self.sessions@, user, next);
                    lemma_map_of_update(self.sessions@, i as int, next);
                }
                self.sessions[i] = (user, next);
                Ok(WordleAction::CheckWord { user, word })
            },
        }
    }

    /// Correlates a collaborator reply with the session it answers and
    /// resolves that session.  The runtime must wake the handler
    /// suspended on the returned id and deliver the returned reply.
    pub fn handle_reply(&mut self, reply_to: MessageId, event: WordleEvent) -> (r: Result<
        ReplyOutcome,
        SessionError,
    >)
        requires
            old(self).wf(),
        ensures
            final(self).wf(),
            final(self).wordle_program_id == old(self).wordle_program_id,
            match r {
                Ok(out) => {
                    let user = event.spec_user();
                    let s = old(self)@[user];
                    &&& old(self).accepts_reply(reply_to, event)
                    &&& final(self)@ == old(self)@.insert(user, resolved_session(s, event))
                    &&& out.wake_msg_id == s.original_msg_id
                    &&& reply_for(resolved_status(s, event), event, out.reply)
                },
                Err(SessionError::SessionNotFound) => {
                    &&& !old(self)@.dom().contains(event.spec_user())
                    &&& *final(self) == *old(self)
                },
                Err(SessionError::UnexpectedReply) => {
                    &&& old(self)@.dom().contains(event.spec_user())
                    &&& !old(self).accepts_reply(reply_to, event)
                    &&& *final(self) == *old(self)
                },
                Err(_) => false,
            },
    {
        let user = *event.get_user();
        match find_session(&self.sessions, user) {
            None => {
                proof {
                    lemma_map_of_dom(self.sessions@, user);
                }
                Err(SessionError::SessionNotFound)
            },
            Some(i) => {
                proof {
                    lemma_map_of_index(self.sessions@, i as int);
                }
                let correlated = self.sessions[i].1.send_to_wordle_msg_id == reply_to;
                let waiting = self.sessions[i].1.is_wait_reply_status();
                if !(correlated && waiting) {
                    return Err(SessionError::UnexpectedReply);
                }
                let won = event.has_guessed();
                let tries = self.sessions[i].1.tries;
                let status = if won {
                    SessionStatus::GameOver(GameStatus::Win)
                } else if tries >= TRIES_LIMIT {
                    SessionStatus::GameOver(GameStatus::Lose)
                } else {
                    SessionStatus::WaitUserInput
                };
                let reply = match &status {
                    SessionStatus::GameOver(outcome) => GameSessionEvent::GameOver(*outcome),
                    _ => GameSessionEvent::of_wordle_event(&event),
                };
                let resolved = SessionInfo {
                    session_id: self.sessions[i].1.session_id,
                    original_msg_id: self.sessions[i].1.original_msg_id,
                    send_to_wordle_msg_id: self.sessions[i].1.send_to_wordle_msg_id,
                    tries,
                    session_status: status,
                };
                let wake_msg_id = resolved.original_msg_id;
                proof {
                    lemma_keys_unique_after(self.sessions@, user, resolved);
                    lemma_map_of_update(self.sessions@, i as int, resolved);
                }
                self.sessions[i] = (user, resolved);
                Ok(ReplyOutcome { wake_msg_id, reply })
            },
        }
    }

    /// Applies a delivered timeout.  Stale generations and already
    /// finished sessions make it a no-op; otherwise the session is
    /// forced over and the returned notice must be pushed to the user.
    pub fn handle_timeout(&mut self, user: ActorId, session_id: MessageId) -> (r: Option<
        GameSessionEvent,
    >)
        requires
            old(self).wf(),
        ensures
            final(self).wf(),
            final(self).wordle_program_id == old(self).wordle_program_id,
            if old(self).timeout_applies(user, session_id) {
                &&& r matches Some(notice) && notice == GameSessionEvent::GameOver(GameStatus::Lose)
                &&& final(self)@ == old(self)@.insert(user, timed_out_session(old(self)@[user]))
            } else {
                &&& r is None
                &&& *final(self) == *old(self)
            },
    {
        match find_session(&self.sessions, user) {
            None => {
                proof {
                    lemma_map_of_dom(self.sessions@, user);
                }
                None
            },
            Some(i) => {
                proof {
                    lemma_map_of_index(self.sessions@, i as int);
                }
                let same_generation = self.sessions[i].1.session_id == session_id;
                let over = match self.sessions[i].1.session_status {
                    SessionStatus::GameOver(_) => true,
                    _ => false,
                };
                if same_generation && !over {
                    let lost = SessionInfo {
                        session_id: self.sessions[i].1.session_id,
                        original_msg_id: self.sessions[i].1.original_msg_id,
                        send_to_wordle_msg_id: self.sessions[i].1.send_to_wordle_msg_id,
                        tries: self.sessions[i].1.tries,
                        session_status: SessionStatus::GameOver(GameStatus::Lose),
                    };
                    proof {
                        lemma_keys_unique_after(self.sessions@, user, lost);
                        lemma_map_of_update(self.sessions@, i as int, lost);
                    }
                    self.sessions[i] = (user, lost);
                    Some(GameSessionEvent::GameOver(GameStatus::Lose))
                } else {
                    None
                }
            },
        }
    }

    /// The top-level entry point for an inbound message.  `source` is
    /// the sender the runtime read from the envelope — never a
    /// caller-supplied field — and `self_id` is the orchestrator's own
    /// address, so that only its own delayed message can fire a
    /// timeout.
    pub fn handle(
        &mut self,
        source: ActorId,
        self_id: ActorId,
        action: GameSessionAction,
        msg_id: MessageId,
        outbound_id: MessageId,
    ) -> (r: Result<HandleOutcome, SessionError>)
        requires
            old(self).wf(),
        ensures
            final(self).wf(),
            final(self).wordle_program_id == old(self).wordle_program_id,
            match action {
                GameSessionAction::StartGame => match r {
                    Ok(out) => {
                        &&& old(self).can_start(source)
                        &&& final(self)@ == old(self)@.insert(
                            source,
                            started_session(msg_id, outbound_id),
                        )
                        &&& out matches HandleOutcome::Started { request, timeout }
                        &&& request == (WordleAction::StartGame { user: source })
                        &&& timeout == (TimeoutRequest {
                            user: source,
                            session_id: msg_id,
                            delay_blocks: TIMEOUT_DELAY_BLOCKS,
                        })
                    },
                    Err(e) => {
                        &&& e == SessionError::InvalidStateForStart
                        &&& !old(self).can_start(source)
                        &&& *final(self) == *old(self)
                    },
                },
                GameSessionAction::CheckWord { word } => match r {
                    Ok(out) => {
                        &&& old(self).can_check(source)
                        &&& valid_word(word@)
                        &&& final(self)@ == old(self)@.insert(
                            source,
                            checking_session(old(self)@[source], msg_id, outbound_id),
                        )
                        &&& out matches HandleOutcome::Checking { request }
                        &&& request matches WordleAction::CheckWord { user: u, word: w }
                        &&& u == source
                        &&& w@ == word@
                    },
                    Err(SessionError::InvalidStateForCheck) => {
                        &&& !old(self).can_check(source)
                        &&& *final(self) == *old(self)
                    },
                    Err(SessionError::InvalidWord) => {
                        &&& old(self).can_check(source)
                        &&& !valid_word(word@)
                        &&& *final(self) == *old(self)
                    },
                    Err(_) => false,
                },
                GameSessionAction::CheckGameStatus { user, session_id } => match r {
                    Ok(out) => {
                        if source == self_id && old(self).timeout_applies(user, session_id) {
                            &&& out matches HandleOutcome::TimeoutExpired { user: u, notice }
                            &&& u == user
                            &&& notice == GameSessionEvent::GameOver(GameStatus::Lose)
                            &&& final(self)@ == old(self)@.insert(
                                user,
                                timed_out_session(old(self)@[user]),
                            )
                        } else {
                            &&& out is TimeoutIgnored
                            &&& *final(self) == *old(self)
                        }
                    },
                    Err(_) => false,
                },
            },
    {
        match action {
            GameSessionAction::StartGame => {
                match self.start_game(source, msg_id, outbound_id) {
                    Ok(()) => Ok(HandleOutcome::Started {
                        request: WordleAction::StartGame { user: source },
                        timeout: TimeoutRequest {
                            user: source,
                            session_id: msg_id,
                            delay_blocks: TIMEOUT_DELAY_BLOCKS,
                        },
                    }),
                    Err(e) => Err(e),
                }
            },
            GameSessionAction::CheckWord { word } => {
                match self.check_word(source, word, msg_id, outbound_id) {
                    Ok(request) => Ok(HandleOutcome::Checking { request }),
                    Err(e) => Err(e),
                }
            },
            GameSessionAction::CheckGameStatus { user, session_id } => {
                if source == self_id {
                    match self.handle_timeout(user, session_id) {
                        Some(notice) => Ok(HandleOutcome::TimeoutExpired { user, notice }),
                        None => Ok(HandleOutcome::TimeoutIgnored),
                    }
                } else {
                    Ok(HandleOutcome::TimeoutIgnored)
                }
            },
        }
    }

    /// A read-only snapshot of the whole store, for the state query.
    pub fn state(&self) -> (r: GameSessionState)
        requires
            self.wf(),
        ensures
            r.wordle_program_id == self.wordle_program_id,
            r.game_sessions@ == self.sessions@,
    {
        GameSessionState::from_session(self)
    }
}

/// The answer to the read-only state query: every known user with its
/// session record.
#[derive(Debug)]
pub struct GameSessionState {
    pub wordle_program_id: ActorId,
    pub game_sessions: Vec<(ActorId, SessionInfo)>,
}

impl GameSessionState {
    /// Copies the store into a snapshot.
    pub fn from_session(g: &GameSession) -> (r: GameSessionState)
        requires
            g.wf(),
        ensures
            r.wordle_program_id == g.wordle_program_id,
            r.game_sessions@ == g.sessions@,
    {
        let n = g.sessions.len();
        let mut game_sessions: Vec<(ActorId, SessionInfo)> = Vec::new();
        let mut i: usize = 0;
        while i < n
            invariant
                n == g.sessions@.len(),
                0 <= i <= n,
                g.wf(),
                game_sessions@ =~= g.sessions@.subrange(0, i as int),
            decreases n - i,
        {
            let user = g.sessions[i].0;
            let info = copy_session_info(&g.sessions[i].1);
            game_sessions.push((user, info));
            proof {
                assert(game_sessions@ =~= g.sessions@.subrange(0, i + 1));
            }
            i += 1;
        }
        proof {
            assert(game_sessions@ =~= g.sessions@);
        }
        GameSessionState { wordle_program_id: g.wordle_program_id, game_sessions }
    }
}

} // verus!
