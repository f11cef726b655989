//! Message schemas: user-facing actions and events, and the
//! collaborator-facing requests and replies, together with the word
//! validity rule and the winning-guess test.

use vstd::prelude::*;

use crate::ids::ActorId;
use crate::ids::MessageId;

verus! {

/// Number of letters a guess must have; also the number of positions a
/// fully correct reply reports.
pub const WORD_LENGTH: usize = 5;

/// How the game ended.
#[derive(Clone, Copy, Debug, PartialEq, Eq, Structural)]
pub enum GameStatus {
    Win,
    Lose,
}

/// An action a user sends to the orchestrator.  `CheckGameStatus` is
/// the payload of the self-addressed delayed message that implements
/// the timeout; it is honoured only when it arrives from the
/// orchestrator itself.
#[derive(Clone, Debug, PartialEq)]
pub enum GameSessionAction {
    StartGame,
    CheckWord { word: String },
    CheckGameStatus { user: ActorId, session_id: MessageId },
}

/// A request the orchestrator sends to the word-checking collaborator.
#[derive(Clone, Debug, PartialEq)]
pub enum WordleAction {
    StartGame { user: ActorId },
    CheckWord { user: ActorId, word: String },
}

/// A reply the collaborator sends back.
#[derive(Clone, Debug, PartialEq)]
pub enum WordleEvent {
    GameStarted { user: ActorId },
    WordChecked { user: ActorId, correct_positions: Vec<u8>, contained_in_word: Vec<u8> },
}

/// The event the orchestrator finally delivers to the user.
#[derive(Clone, Debug, PartialEq)]
pub enum GameSessionEvent {
    StartSuccess,
    CheckWordResult { correct_positions: Vec<u8>, contained_in_word: Vec<u8> },
    GameOver(GameStatus),
}

/// A guess is valid when it is exactly five characters, all lowercase
/// letters.
pub open spec fn valid_word(w: Seq<char>) -> bool {
    &&& w.len() == WORD_LENGTH
    &&& forall|i: int| 0 <= i < w.len() ==> 'a' <= #[trigger] w[i] <= 'z'
}

/// Decides [`valid_word`] for a guess.
pub fn word_is_valid(word: &str) -> (r: bool)
    ensures
        r == valid_word(word@),
{
    let n = word.unicode_len();
    if n != WORD_LENGTH {
        return false;
    }
    let mut i: usize = 0;
    while i < n
        invariant
            n == word@.len(),
            0 <= i <= n,
            forall|j: int| 0 <= j < i ==> 'a' <= #[trigger] word@[j] <= 'z',
        decreases n - i,
    {
        let c = word.get_char(i);
        if c < 'a' || c > 'z' {
            return false;
        }
        i += 1;
    }
    true
}

impl WordleEvent {
    /// The user this reply concerns.
    pub open spec fn spec_user(self) -> ActorId {
        match self {
            WordleEvent::GameStarted { user } => user,
            WordleEvent::WordChecked { user, .. } => user,
        }
    }

    /// The user this reply concerns.
    pub fn get_user(&self) -> (r: &ActorId)
        ensures
            *r == self.spec_user(),
    {
        match self {
            WordleEvent::GameStarted { user } => user,
            WordleEvent::WordChecked { user, .. } => user,
        }
    }

    /// A reply announces a win exactly when it reports every one of the
    /// five positions as correct, in order.
    pub open spec fn spec_has_guessed(self) -> bool {
        &&& self matches WordleEvent::WordChecked { correct_positions, .. }
        &&& correct_positions@ == seq![0u8, 1u8, 2u8, 3u8, 4u8]
    }

    /// Decides [`WordleEvent::spec_has_guessed`].
    pub fn has_guessed(&self) -> (r: bool)
        ensures
            r == self.spec_has_guessed(),
    {
        match self {
            WordleEvent::WordChecked { correct_positions, .. } => {
                let won = correct_positions.len() == 5 && correct_positions[0] == 0
                    && correct_positions[1] == 1 && correct_positions[2] == 2
                    && correct_positions[3] == 3 && correct_positions[4] == 4;
                proof {
                    if won {
                        assert(correct_positions@ =~= seq![0u8, 1u8, 2u8, 3u8, 4u8]);
                    }
                }
                won
            },
            _ => false,
        }
    }
}

/// The user-facing event that forwards a collaborator reply unchanged:
/// `StartSuccess` for a started game, the reported positions for a
/// checked word.
pub open spec fn forwards_reply(ev: WordleEvent, out: GameSessionEvent) -> bool {
    match ev {
        WordleEvent::GameStarted { .. } => out is StartSuccess,
        WordleEvent::WordChecked { correct_positions, contained_in_word, .. } => {
            &&& out matches GameSessionEvent::CheckWordResult {
                correct_positions: cp,
                contained_in_word: cw,
            }
            &&& cp@ == correct_positions@
            &&& cw@ == contained_in_word@
        },
    }
}

impl GameSessionEvent {
    /// The user-facing event for a collaborator reply.
    pub fn of_wordle_event(ev: &WordleEvent) -> (r: GameSessionEvent)
        ensures
            forwards_reply(*ev, r),
    {
        match ev {
            WordleEvent::GameStarted { .. } => GameSessionEvent::StartSuccess,
            WordleEvent::WordChecked { correct_positions, contained_in_word, .. } => {
                GameSessionEvent::CheckWordResult {
                    correct_positions: clone_bytes(correct_positions),
                    contained_in_word: clone_bytes(contained_in_word),
                }
            },
        }
    }
}

/// Copies a byte vector, keeping its contents.
fn clone_bytes(v: &Vec<u8>) -> (r: Vec<u8>)
    ensures
        r@ == v@,
{
    let r = v.clone();
    proof {
        assert forall|i: int| 0 <= i < v@.len() implies r@[i] == v@[i] by {
            assert(cloned::<u8>(v[i], r[i]));
        }
        assert(r@ =~= v@);
    }
    r
}

} // verus!
