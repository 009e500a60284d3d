//! The request/reply protocol of the word-checking service, together with its
//! mathematical model.

use vstd::prelude::*;

use crate::env::ActorId;

verus! {

/// A request sent to the word-checking service.
#[derive(Debug, Clone, PartialEq)]
pub enum Action {
    StartGame { user: ActorId },
    CheckWord { user: ActorId, word: String },
}

/// A reply received from the word-checking service.
///
/// `correct_positions` lists the letter slots that match the secret exactly;
/// `contained_in_word` lists slots whose letter occurs elsewhere in the
/// secret but not at that slot.
#[derive(Debug, Clone, PartialEq)]
pub enum Event {
    GameStarted { user: ActorId },
    WordChecked { user: ActorId, correct_positions: Vec<u8>, contained_in_word: Vec<u8> },
}

/// Model of a request to the word-checking service.
pub enum RequestModel {
    StartGame { user: ActorId },
    CheckWord { user: ActorId, word: Seq<char> },
}

/// Model of a reply from the word-checking service.
pub enum ReplyModel {
    GameStarted { user: ActorId },
    WordChecked { user: ActorId, correct_positions: Seq<u8>, contained_in_word: Seq<u8> },
}

impl View for Action {
    type V = RequestModel;

    open spec fn view(&self) -> RequestModel {
        match self {
            Action::StartGame { user } => RequestModel::StartGame { user: *user },
            Action::CheckWord { user, word } => RequestModel::CheckWord {
                user: *user,
                word: word@,
            },
        }
    }
}

impl View for Event {
    type V = ReplyModel;

    open spec fn view(&self) -> ReplyModel {
        match self {
            Event::GameStarted { user } => ReplyModel::GameStarted { user: *user },
            Event::WordChecked { user, correct_positions, contained_in_word } => {
                ReplyModel::WordChecked {
                    user: *user,
                    correct_positions: correct_positions@,
                    contained_in_word: contained_in_word@,
                }
            },
        }
    }
}

} // verus!
