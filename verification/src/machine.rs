//! The mathematical model of the session coordinator: the abstract session
//! state, the transition function applied by each handler invocation, and the
//! transition applied when a reply from the word-checking service arrives.

use vstd::prelude::*;

use crate::env::{ActorId, MessageContext, MessageId};
use crate::protocol::{ActionModel, EventModel, GameResult, GameStatus};
use crate::wordle::{ReplyModel, RequestModel};

verus! {

/// A game ends in a loss once this many word checks have gone through without
/// a win.
pub const MAX_ATTEMPTS: u8 = 6;

/// A game in progress times out this many logical ticks (block heights) after
/// it started.
pub const MAX_BLOCKS: u32 = 200;

/// A fatal precondition violation: the handler invocation aborts, no reply is
/// produced, and the session is left unchanged.
#[derive(Clone, Copy, Debug, PartialEq, Eq, Structural)]
pub enum HandleError {
    /// `StartGame` arrived but a game already exists.
    GameAlreadyInProgress,
    /// `CheckWord` arrived with a word that is not five lowercase ASCII
    /// letters.
    InvalidWordFormat,
    /// `CheckWord` arrived but no game is in progress.
    NoActiveGame,
    /// `CheckWord` arrived after the attempt budget was used up.
    AttemptsExhausted,
}

/// Model of the in-flight-request part of the session.
pub enum SessionStatusModel {
    /// No request is in flight; caller actions are accepted.
    Waiting,
    /// A request has been sent and its reply has not arrived yet.
    MessageSent,
    /// A matching reply has arrived and the suspended caller is about to be
    /// resumed against it.
    ReplyReceived(ReplyModel),
}

/// Model of the whole session.
pub struct SessionModel {
    /// Identity of the word-checking service.
    pub wordle_program: ActorId,
    /// The game's lifecycle state.
    pub status: GameStatus,
    /// While a request is in flight: its identifier, paired with the
    /// identifier of the suspended caller message to wake on arrival of the
    /// reply.
    pub msg_ids: Option<(MessageId, MessageId)>,
    /// The in-flight-request state.
    pub session_status: SessionStatusModel,
}

/// Model of what a handler invocation asks the environment to do.
pub enum EffectModel {
    /// Send `request` to `to` under the context's outbound identifier, then
    /// suspend the current invocation until it is woken.
    SendAndWait { to: ActorId, request: RequestModel },
    /// Reply to the inbound message.
    Reply(EventModel),
    /// Reply to the inbound message and schedule a delayed `CheckGameStatus`
    /// self-message to arrive `delay` ticks later.
    ReplyAndScheduleStatusCheck { reply: EventModel, delay: u32 },
    /// Do nothing observable.
    Silent,
    /// Abort the invocation without replying.
    Failed(HandleError),
}

/// A word a player may submit: exactly five lowercase ASCII letters.
pub open spec fn valid_word(word: Seq<char>) -> bool {
    &&& word.len() == 5
    &&& forall|i: int| 0 <= i < word.len() ==> is_lowercase_letter(#[trigger] word[i])
}

/// A lowercase ASCII letter.
pub open spec fn is_lowercase_letter(c: char) -> bool {
    'a' as u32 <= c as u32 <= 'z' as u32
}

impl SessionModel {
    /// Well-formedness: the stored correlation pair exists exactly while a
    /// request is in flight, and a game in progress never exceeds the attempt
    /// budget.
    pub open spec fn wf(self) -> bool {
        &&& self.msg_ids is Some <==> self.session_status is MessageSent
        &&& self.status matches GameStatus::InProgress { attempts, .. } ==> attempts
            <= MAX_ATTEMPTS
    }
}

/// The transition a handler invocation applies to the session, together with
/// the effect it asks of the environment.
///
/// While `Waiting`, the action itself is dispatched; while `MessageSent`,
/// every caller action is rejected as busy; while `ReplyReceived`, the stored
/// reply is dispatched (the action is the re-delivered suspended message and
/// is not inspected).
pub open spec fn handle_step(s: SessionModel, action: ActionModel, ctx: MessageContext) -> (
    SessionModel,
    EffectModel,
) {
    match s.session_status {
        SessionStatusModel::Waiting => match action {
            ActionModel::StartGame => {
                if s.status is NotStarted {
                    (
                        SessionModel {
                            msg_ids: Some((ctx.outbound_message_id, ctx.message_id)),
                            session_status: SessionStatusModel::MessageSent,
                            ..s
                        },
                        EffectModel::SendAndWait {
                            to: s.wordle_program,
                            request: RequestModel::StartGame { user: ctx.source },
                        },
                    )
                } else {
                    (s, EffectModel::Failed(HandleError::GameAlreadyInProgress))
                }
            },
            ActionModel::CheckWord { word } => {
                if !valid_word(word) {
                    (s, EffectModel::Failed(HandleError::InvalidWordFormat))
                } else {
                    match s.status {
                        GameStatus::InProgress { attempts, .. } => {
                            if attempts >= MAX_ATTEMPTS {
                                (s, EffectModel::Failed(HandleError::AttemptsExhausted))
                            } else {
                                (
                                    SessionModel {
                                        msg_ids: Some((ctx.outbound_message_id, ctx.message_id)),
                                        session_status: SessionStatusModel::MessageSent,
                                        ..s
                                    },
                                    EffectModel::SendAndWait {
                                        to: s.wordle_program,
                                        request: RequestModel::CheckWord {
                                            user: ctx.source,
                                            word,
                                        },
                                    },
                                )
                            }
                        },
                        _ => (s, EffectModel::Failed(HandleError::NoActiveGame)),
                    }
                }
            },
            ActionModel::CheckGameStatus => {
                match s.status {
                    GameStatus::InProgress { start_height, .. } => {
                        if ctx.block_height >= start_height + MAX_BLOCKS {
                            (
                                SessionModel {
                                    status: GameStatus::Finished(GameResult::TimeOut),
                                    ..s
                                },
                                EffectModel::Reply(EventModel::GameOver(GameResult::TimeOut)),
                            )
                        } else {
                            (s, EffectModel::Silent)
                        }
                    },
                    _ => (s, EffectModel::Silent),
                }
            },
        },
        SessionStatusModel::MessageSent => (
            s,
            EffectModel::Reply(EventModel::GameError("Message already sent"@)),
        ),
        SessionStatusModel::ReplyReceived(reply) => {
            let resumed = SessionModel { session_status: SessionStatusModel::Waiting, ..s };
            match reply {
                ReplyModel::GameStarted { .. } => (
                    SessionModel {
                        status: GameStatus::InProgress {
                            attempts: 0,
                            start_height: ctx.block_height,
                        },
                        ..resumed
                    },
                    EffectModel::ReplyAndScheduleStatusCheck {
                        reply: EventModel::GameStarted,
                        delay: MAX_BLOCKS,
                    },
                ),
                ReplyModel::WordChecked { user, correct_positions, contained_in_word } => {
                    match s.status {
                        GameStatus::InProgress { attempts, start_height } => {
                            let next_attempts = (attempts + 1) as u8;
                            if correct_positions.len() == 5 {
                                (
                                    SessionModel {
                                        status: GameStatus::Finished(GameResult::Win),
                                        ..resumed
                                    },
                                    EffectModel::Reply(EventModel::GameOver(GameResult::Win)),
                                )
                            } else if next_attempts >= MAX_ATTEMPTS {
                                (
                                    SessionModel {
                                        status: GameStatus::Finished(GameResult::Lose),
                                        ..resumed
                                    },
                                    EffectModel::Reply(EventModel::GameOver(GameResult::Lose)),
                                )
                            } else {
                                (
                                    SessionModel {
                                        status: GameStatus::InProgress {
                                            attempts: next_attempts,
                                            start_height,
                                        },
                                        ..resumed
                                    },
                                    EffectModel::Reply(
                                        EventModel::WordChecked {
                                            player: user,
                                            correct_positions,
                                            contained_letters: contained_in_word,
                                        },
                                    ),
                                )
                            }
                        },
                        _ => (resumed, EffectModel::Silent),
                    }
                },
            }
        },
    }
}

/// The transition applied when a reply from the word-checking service
/// arrives: a reply is accepted only if a request is in flight and the
/// reply's correlation identifier matches the stored outbound identifier;
/// anything else is discarded without effect. An accepted reply is stored and
/// the suspended caller message is woken.
pub open spec fn reply_step(s: SessionModel, reply: ReplyModel, reply_to: MessageId) -> (
    SessionModel,
    Option<MessageId>,
) {
    match s.msg_ids {
        Some((sent_msg_id, original_msg_id)) => {
            if reply_to == sent_msg_id && s.session_status is MessageSent {
                (
                    SessionModel {
                        msg_ids: None,
                        session_status: SessionStatusModel::ReplyReceived(reply),
                        ..s
                    },
                    Some(original_msg_id),
                )
            } else {
                (s, None)
            }
        },
        None => (s, None),
    }
}

/// Every handler invocation leaves a well-formed session well-formed.
pub proof fn lemma_handle_step_preserves_wf(
    s: SessionModel,
    action: ActionModel,
    ctx: MessageContext,
)
    requires
        s.wf(),
    ensures
        handle_step(s, action, ctx).0.wf(),
{
}

/// Accepting or discarding a reply leaves a well-formed session well-formed.
pub proof fn lemma_reply_step_preserves_wf(s: SessionModel, reply: ReplyModel, reply_to: MessageId)
    requires
        s.wf(),
    ensures
        reply_step(s, reply, reply_to).0.wf(),
{
}

} // verus!
