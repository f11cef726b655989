use game_session::game::GameSession;
use game_session::game::GameSessionInit;
use game_session::game::GameSessionState;
use game_session::game::SessionError;
use game_session::ids::ActorId;
use game_session::ids::MessageId;
use game_session::protocol::GameSessionAction;
use game_session::protocol::GameSessionEvent;
use game_session::protocol::WordleEvent;
use game_session::protocol::word_is_valid;
use game_session::session::SessionInfo;
use game_session::session::SessionStatus;

fn actor(id: u64) -> ActorId {
    ActorId { id }
}

fn msg(id: u64) -> MessageId {
    MessageId { id }
}

#[test]
fn word_validity() {
    assert!(word_is_valid("apple"));
    assert!(word_is_valid("zzzzz"));
    assert!(!word_is_valid("Apple"));
    assert!(!word_is_valid("appl"));
    assert!(!word_is_valid("apples"));
    assert!(!word_is_valid("app1e"));
    assert!(!word_is_valid("app e"));
    assert!(!word_is_valid(""));
    assert!(!word_is_valid("äpple"));
}

#[test]
fn invalid_word_is_a_domain_error() {
    let mut game = GameSession::new(GameSessionInit { wordle_program_id: actor(1) });
    let r = game.handle(actor(10), actor(2), GameSessionAction::StartGame, msg(100), msg(101));
    assert!(r.is_ok());
    let reply = game.handle_reply(msg(101), WordleEvent::GameStarted { user: actor(10) });
    assert!(reply.is_ok());
    let r = game.handle(
        actor(10),
        actor(2),
        GameSessionAction::CheckWord { word: "Apple".to_string() },
        msg(102),
        msg(103),
    );
    assert_eq!(r.unwrap_err(), SessionError::InvalidWord);
    // the rejected guess consumed nothing
    let info = &game.state().game_sessions[0].1;
    assert_eq!(info.tries, 0);
    assert!(matches!(info.session_status, SessionStatus::WaitUserInput));
}

#[test]
fn reply_for_unknown_user_is_rejected() {
    let mut game = GameSession::new(GameSessionInit { wordle_program_id: actor(1) });
    let reply = game.handle_reply(msg(101), WordleEvent::GameStarted { user: actor(10) });
    assert_eq!(reply.unwrap_err(), SessionError::SessionNotFound);
}

#[test]
fn has_guessed_requires_all_five_positions() {
    let won = WordleEvent::WordChecked {
        user: actor(10),
        correct_positions: vec![0, 1, 2, 3, 4],
        contained_in_word: vec![],
    };
    assert!(won.has_guessed());
    let partial = WordleEvent::WordChecked {
        user: actor(10),
        correct_positions: vec![0, 1, 2, 3],
        contained_in_word: vec![],
    };
    assert!(!partial.has_guessed());
    let reordered = WordleEvent::WordChecked {
        user: actor(10),
        correct_positions: vec![4, 3, 2, 1, 0],
        contained_in_word: vec![],
    };
    assert!(!reordered.has_guessed());
    let started = WordleEvent::GameStarted { user: actor(10) };
    assert!(!started.has_guessed());
}

#[test]
fn get_user_names_the_replied_user() {
    let started = WordleEvent::GameStarted { user: actor(7) };
    assert_eq!(*started.get_user(), actor(7));
    let checked = WordleEvent::WordChecked {
        user: actor(8),
        correct_positions: vec![],
        contained_in_word: vec![],
    };
    assert_eq!(*checked.get_user(), actor(8));
}

#[test]
fn wait_reply_statuses() {
    let mut info = SessionInfo::default();
    assert!(!info.is_wait_reply_status());
    info.session_status = SessionStatus::WaitWordleStartReply;
    assert!(info.is_wait_reply_status());
    info.session_status = SessionStatus::WaitWordleCheckWordReply;
    assert!(info.is_wait_reply_status());
    info.session_status = SessionStatus::WaitUserInput;
    assert!(!info.is_wait_reply_status());
}

#[test]
fn default_session_is_fresh() {
    let info = SessionInfo::default();
    assert_eq!(info.session_id, msg(0));
    assert_eq!(info.original_msg_id, msg(0));
    assert_eq!(info.send_to_wordle_msg_id, msg(0));
    assert_eq!(info.tries, 0);
    assert!(matches!(info.session_status, SessionStatus::Init));
}

#[test]
fn forwarded_reply_keeps_positions() {
    let checked = WordleEvent::WordChecked {
        user: actor(10),
        correct_positions: vec![1, 3],
        contained_in_word: vec![0, 4],
    };
    let out = GameSessionEvent::of_wordle_event(&checked);
    assert_eq!(
        out,
        GameSessionEvent::CheckWordResult {
            correct_positions: vec![1, 3],
            contained_in_word: vec![0, 4],
        }
    );
    let started = WordleEvent::GameStarted { user: actor(10) };
    assert_eq!(GameSessionEvent::of_wordle_event(&started), GameSessionEvent::StartSuccess);
}

#[test]
fn snapshot_lists_every_session() {
    let mut game = GameSession::new(GameSessionInit { wordle_program_id: actor(1) });
    assert!(game.handle(actor(10), actor(2), GameSessionAction::StartGame, msg(100), msg(101)).is_ok());
    assert!(game.handle(actor(11), actor(2), GameSessionAction::StartGame, msg(102), msg(103)).is_ok());
    let state: GameSessionState = game.state();
    assert_eq!(state.wordle_program_id, actor(1));
    assert_eq!(state.game_sessions.len(), 2);
    assert_eq!(state.game_sessions[0].0, actor(10));
    assert_eq!(state.game_sessions[0].1.session_id, msg(100));
    assert_eq!(state.game_sessions[1].0, actor(11));
    assert_eq!(state.game_sessions[1].1.session_id, msg(102));
}

#[test]
fn init_validity() {
    let init = GameSessionInit { wordle_program_id: actor(1) };
    assert!(!init.wordle_program_id.is_zero());
    init.assert_valid();
    assert!(ActorId::zero().is_zero());
    assert_eq!(MessageId::zero(), msg(0));
}
