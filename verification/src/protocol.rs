//! The caller-facing protocol of the session coordinator: inbound actions,
//! outbound events, the queryable game status, and the conversions between
//! the session's event shape and the word-checking service's event shape.

use vstd::prelude::*;

use crate::env::ActorId;
use crate::wordle;

verus! {

/// An inbound caller action. `CheckGameStatus` shares the entry point with the
/// player-issued actions but is normally delivered by the self-scheduled
/// delayed message.
#[derive(Debug, Clone, PartialEq)]
pub enum Action {
    StartGame,
    CheckWord { word: String },
    CheckGameStatus,
}

/// The terminal outcome of a finished game.
#[derive(Clone, Copy, Debug, PartialEq, Eq, Structural)]
pub enum GameResult {
    Win,
    Lose,
    TimeOut,
}

/// The queryable snapshot of a game's progress.
#[derive(Clone, Copy, Debug, PartialEq, Eq, Structural)]
pub enum GameStatus {
    NotStarted,
    InProgress { attempts: u8, start_height: u32 },
    Finished(GameResult),
}

/// An outbound reply to a caller.
#[derive(Debug, Clone, PartialEq)]
pub enum Event {
    GameStarted,
    MoveMade { correct_positions: Vec<u8>, contained_in_word: Vec<u8> },
    WordChecked { player: ActorId, correct_positions: Vec<u8>, contained_letters: Vec<u8> },
    GameOver(GameResult),
    GameError(String),
}

/// The initialization payload: the identity of the word-checking service to
/// bind for the lifetime of the session.
#[derive(Debug, Clone, PartialEq)]
pub enum MetadataInit {
    Init(ActorId),
}

/// The shape of a state query's reply.
#[derive(Debug, Clone, PartialEq)]
pub enum MetadataState {
    GameStatus(GameStatus),
}

/// Initialization data naming the dictionary service.
#[derive(Debug, Clone, PartialEq)]
pub struct InitContractData {
    pub dictionary: ActorId,
}

/// A session event re-tagged for consumers that speak the word-checking
/// service's event shape.
#[derive(Debug, Clone, PartialEq)]
pub enum WordleEvent {
    GameStarted,
    WordChecked { player: ActorId, correct_positions: Vec<u8>, contained_letters: Vec<u8> },
    GameOver(GameResult),
    GameError(String),
}

/// Model of an inbound caller action.
pub enum ActionModel {
    StartGame,
    CheckWord { word: Seq<char> },
    CheckGameStatus,
}

/// Model of an outbound caller event.
pub enum EventModel {
    GameStarted,
    MoveMade { correct_positions: Seq<u8>, contained_in_word: Seq<u8> },
    WordChecked { player: ActorId, correct_positions: Seq<u8>, contained_letters: Seq<u8> },
    GameOver(GameResult),
    GameError(Seq<char>),
}

/// Model of a re-tagged session event.
pub enum WordleEventModel {
    GameStarted,
    WordChecked { player: ActorId, correct_positions: Seq<u8>, contained_letters: Seq<u8> },
    GameOver(GameResult),
    GameError(Seq<char>),
}

impl View for Action {
    type V = ActionModel;

    open spec fn view(&self) -> ActionModel {
        match self {
            Action::StartGame => ActionModel::StartGame,
            Action::CheckWord { word } => ActionModel::CheckWord { word: word@ },
            Action::CheckGameStatus => ActionModel::CheckGameStatus,
        }
    }
}

impl View for Event {
    type V = EventModel;

    open spec fn view(&self) -> EventModel {
        match self {
            Event::GameStarted => EventModel::GameStarted,
            Event::MoveMade { correct_positions, contained_in_word } => EventModel::MoveMade {
                correct_positions: correct_positions@,
                contained_in_word: contained_in_word@,
            },
            Event::WordChecked { player, correct_positions, contained_letters } => {
                EventModel::WordChecked {
                    player: *player,
                    correct_positions: correct_positions@,
                    contained_letters: contained_letters@,
                }
            },
            Event::GameOver(result) => EventModel::GameOver(*result),
            Event::GameError(message) => EventModel::GameError(message@),
        }
    }
}

impl View for WordleEvent {
    type V = WordleEventModel;

    open spec fn view(&self) -> WordleEventModel {
        match self {
            WordleEvent::GameStarted => WordleEventModel::GameStarted,
            WordleEvent::WordChecked { player, correct_positions, contained_letters } => {
                WordleEventModel::WordChecked {
                    player: *player,
                    correct_positions: correct_positions@,
                    contained_letters: contained_letters@,
                }
            },
            WordleEvent::GameOver(result) => WordleEventModel::GameOver(*result),
            WordleEvent::GameError(message) => WordleEventModel::GameError(message@),
        }
    }
}

/// What re-tagging a session event yields: every recognized variant carries
/// its fields across, and anything else becomes a defensive error tag.
pub open spec fn wordle_event_of(e: EventModel) -> WordleEventModel {
    match e {
        EventModel::GameStarted => WordleEventModel::GameStarted,
        EventModel::WordChecked { player, correct_positions, contained_letters } => {
            WordleEventModel::WordChecked { player, correct_positions, contained_letters }
        },
        EventModel::GameOver(result) => WordleEventModel::GameOver(result),
        EventModel::GameError(message) => WordleEventModel::GameError(message),
        EventModel::MoveMade { .. } => WordleEventModel::GameError("Unknown event"@),
    }
}

impl WordleEvent {
    /// Re-tags a session event; an unrecognized variant becomes a defensive
    /// `GameError`.
    pub fn from(event: Event) -> (w: WordleEvent)
        ensures
            w@ == wordle_event_of(event@),
    {
        match event {
            Event::GameStarted => WordleEvent::GameStarted,
            Event::WordChecked { player, correct_positions, contained_letters } => {
                WordleEvent::WordChecked { player, correct_positions, contained_letters }
            },
            Event::GameOver(result) => WordleEvent::GameOver(result),
            Event::GameError(message) => WordleEvent::GameError(message),
            Event::MoveMade { .. } => WordleEvent::GameError("Unknown event".to_owned()),
        }
    }
}

/// Conversion into the session's own event shape.
pub trait IntoGameSessionEvent: Sized {
    /// The session event this value converts to.
    spec fn game_session_event_model(&self) -> EventModel;

    /// Performs the conversion.
    fn into_game_session_event(self) -> (e: Event)
        ensures
            e@ == self.game_session_event_model(),
    ;
}

impl IntoGameSessionEvent for wordle::Event {
    open spec fn game_session_event_model(&self) -> EventModel {
        match self@ {
            wordle::ReplyModel::GameStarted { .. } => EventModel::GameStarted,
            wordle::ReplyModel::WordChecked { user, correct_positions, contained_in_word } => {
                EventModel::WordChecked {
                    player: user,
                    correct_positions,
                    contained_letters: contained_in_word,
                }
            },
        }
    }

    fn into_game_session_event(self) -> (e: Event) {
        match self {
            wordle::Event::GameStarted { user: _ } => Event::GameStarted,
            wordle::Event::WordChecked { user, correct_positions, contained_in_word } => {
                Event::WordChecked {
                    player: user,
                    correct_positions,
                    contained_letters: contained_in_word,
                }
            },
        }
    }
}

} // verus!
