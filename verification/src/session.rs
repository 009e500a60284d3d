//! The executable session coordinator. Each handler takes the session and the
//! message context as plain values and returns the effect the environment
//! should perform; its contract says that session and effect follow the
//! transition functions of `machine`.

use vstd::prelude::*;
use vstd::string::StrSliceExecFns;

use crate::env::{ActorId, MessageContext, MessageId};
use crate::machine::{
    handle_step, lemma_handle_step_preserves_wf, lemma_reply_step_preserves_wf, reply_step,
    valid_word, EffectModel, HandleError, SessionModel, SessionStatusModel, MAX_ATTEMPTS,
    MAX_BLOCKS,
};
use crate::protocol::{Action, Event, GameResult, GameStatus};
use crate::wordle;

verus! {

/// The in-flight-request state of the session.
#[derive(Debug, PartialEq)]
pub enum SessionStatus {
    /// No request is in flight.
    Waiting,
    /// A request has been sent; its reply has not arrived yet.
    MessageSent,
    /// A matching reply has arrived; the suspended caller is about to be
    /// resumed against it.
    ReplyReceived(wordle::Event),
}

/// One game session: the bound word-checking service, the game's lifecycle
/// state, the correlation pair of the request in flight (if any), and the
/// in-flight-request state.
pub struct GameSession {
    pub wordle_program: ActorId,
    pub status: GameStatus,
    pub msg_ids: Option<(MessageId, MessageId)>,
    pub session_status: SessionStatus,
}

/// What a handler invocation asks the environment to do.
#[derive(Debug, PartialEq)]
pub enum HandleEffect {
    /// Send `request` to `to` under the context's outbound identifier, then
    /// suspend this invocation until it is woken.
    SendAndWait { to: ActorId, request: wordle::Action },
    /// Reply to the inbound message.
    Reply(Event),
    /// Reply to the inbound message and schedule a delayed `CheckGameStatus`
    /// self-message to arrive `delay` ticks later.
    ReplyAndScheduleStatusCheck { reply: Event, delay: u32 },
    /// Do nothing observable.
    Silent,
    /// Abort this invocation without replying.
    Failed(HandleError),
}

impl View for SessionStatus {
    type V = SessionStatusModel;

    open spec fn view(&self) -> SessionStatusModel {
        match self {
            SessionStatus::Waiting => SessionStatusModel::Waiting,
            SessionStatus::MessageSent => SessionStatusModel::MessageSent,
            SessionStatus::ReplyReceived(reply) => SessionStatusModel::ReplyReceived(reply@),
        }
    }
}

impl View for GameSession {
    type V = SessionModel;

    open spec fn view(&self) -> SessionModel {
        SessionModel {
            wordle_program: self.wordle_program,
            status: self.status,
            msg_ids: self.msg_ids,
            session_status: self.session_status@,
        }
    }
}

impl View for HandleEffect {
    type V = EffectModel;

    open spec fn view(&self) -> EffectModel {
        match self {
            HandleEffect::SendAndWait { to, request } => EffectModel::SendAndWait {
                to: *to,
                request: request@,
            },
            HandleEffect::Reply(event) => EffectModel::Reply(event@),
            HandleEffect::ReplyAndScheduleStatusCheck { reply, delay } => {
                EffectModel::ReplyAndScheduleStatusCheck { reply: reply@, delay: *delay }
            },
            HandleEffect::Silent => EffectModel::Silent,
            HandleEffect::Failed(error) => EffectModel::Failed(*error),
        }
    }
}

/// Creates the session bound to the given word-checking service, with no game
/// started and no request in flight.
pub fn init(wordle_program: ActorId) -> (game: GameSession)
    ensures
        game@.wf(),
        game@ == (SessionModel {
            wordle_program,
            status: GameStatus::NotStarted,
            msg_ids: None,
            session_status: SessionStatusModel::Waiting,
        }),
{
    GameSession {
        wordle_program,
        status: GameStatus::NotStarted,
        msg_ids: None,
        session_status: SessionStatus::Waiting,
    }
}

/// Whether `word` is exactly five lowercase ASCII letters.
pub fn word_is_valid(word: &str) -> (ok: bool)
    ensures
        ok == valid_word(word@),
{
    let len = word.unicode_len();
    if len != 5 {
        return false;
    }
    let mut i: usize = 0;
    while i < 5
        invariant
            word@.len() == 5,
            0 <= i <= 5,
            forall|j: int| 0 <= j < i ==> crate::machine::is_lowercase_letter(#[trigger] word@[j]),
        decreases 5 - i,
    {
        let c = word.get_char(i);
        let code = c as u32;
        if code < 97 || code > 122 {
            return false;
        }
        i = i + 1;
    }
    true
}

/// Dispatches one inbound message against the session and returns the effect
/// the environment must perform, exactly as `handle_step` prescribes.
///
/// While `Waiting`, the action is dispatched; while `MessageSent`, any caller
/// action gets a busy `GameError` reply; while `ReplyReceived`, the stored
/// reply is dispatched and the session returns to `Waiting`.
pub fn handle(game: &mut GameSession, action: Action, ctx: MessageContext) -> (effect:
    HandleEffect)
    requires
        old(game)@.wf(),
        old(game)@.status matches GameStatus::InProgress { start_height, .. } ==> start_height
            <= ctx.block_height,
    ensures
        final(game)@ == handle_step(old(game)@, action@, ctx).0,
        effect@ == handle_step(old(game)@, action@, ctx).1,
        final(game)@.wf(),
{
    proof {
        lemma_handle_step_preserves_wf(old(game)@, action@, ctx);
    }
    let mut current = SessionStatus::Waiting;
    core::mem::swap(&mut game.session_status, &mut current);
    match current {
        SessionStatus::Waiting => match action {
            Action::StartGame => {
                if let GameStatus::NotStarted = game.status {
                    game.msg_ids = Some((ctx.outbound_message_id, ctx.message_id));
                    game.session_status = SessionStatus::MessageSent;
                    HandleEffect::SendAndWait {
                        to: game.wordle_program,
                        request: wordle::Action::StartGame { user: ctx.source },
                    }
                } else {
                    HandleEffect::Failed(HandleError::GameAlreadyInProgress)
                }
            },
            Action::CheckWord { word } => {
                if !word_is_valid(word.as_str()) {
                    HandleEffect::Failed(HandleError::InvalidWordFormat)
                } else if let GameStatus::InProgress { attempts, .. } = game.status {
                    if attempts >= MAX_ATTEMPTS {
                        HandleEffect::Failed(HandleError::AttemptsExhausted)
                    } else {
                        game.msg_ids = Some((ctx.outbound_message_id, ctx.message_id));
                        game.session_status = SessionStatus::MessageSent;
                        HandleEffect::SendAndWait {
                            to: game.wordle_program,
                            request: wordle::Action::CheckWord { user: ctx.source, word },
                        }
                    }
                } else {
                    HandleEffect::Failed(HandleError::NoActiveGame)
                }
            },
            Action::CheckGameStatus => {
                if let GameStatus::InProgress { start_height, .. } = game.status {
                    if ctx.block_height - start_height >= MAX_BLOCKS {
                        game.status = GameStatus::Finished(GameResult::TimeOut);
                        HandleEffect::Reply(Event::GameOver(GameResult::TimeOut))
                    } else {
                        HandleEffect::Silent
                    }
                } else {
                    HandleEffect::Silent
                }
            },
        },
        SessionStatus::MessageSent => {
            game.session_status = SessionStatus::MessageSent;
            HandleEffect::Reply(Event::GameError("Message already sent".to_owned()))
        },
        SessionStatus::ReplyReceived(reply) => match reply {
            wordle::Event::GameStarted { user: _ } => {
                game.status = GameStatus::InProgress {
                    attempts: 0,
                    start_height: ctx.block_height,
                };
                HandleEffect::ReplyAndScheduleStatusCheck {
                    reply: Event::GameStarted,
                    delay: MAX_BLOCKS,
                }
            },
            wordle::Event::WordChecked { user, correct_positions, contained_in_word } => {
                if let GameStatus::InProgress { attempts, start_height } = game.status {
                    let next_attempts = attempts + 1;
                    if correct_positions.len() == 5 {
                        game.status = GameStatus::Finished(GameResult::Win);
                        HandleEffect::Reply(Event::GameOver(GameResult::Win))
                    } else if next_attempts >= MAX_ATTEMPTS {
                        game.status = GameStatus::Finished(GameResult::Lose);
                        HandleEffect::Reply(Event::GameOver(GameResult::Lose))
                    } else {
                        game.status = GameStatus::InProgress {
                            attempts: next_attempts,
                            start_height,
                        };
                        HandleEffect::Reply(
                            Event::WordChecked {
                                player: user,
                                correct_positions,
                                contained_letters: contained_in_word,
                            },
                        )
                    }
                } else {
                    HandleEffect::Silent
                }
            },
        },
    }
}

/// Applies a reply from the word-checking service, exactly as `reply_step`
/// prescribes: a reply is accepted only while a request is in flight and its
/// correlation identifier matches the stored outbound identifier, and then
/// the identifier of the suspended caller message to wake is returned;
/// anything else is discarded without effect.
pub fn handle_reply(game: &mut GameSession, reply: wordle::Event, reply_to: MessageId) -> (wake:
    Option<MessageId>)
    requires
        old(game)@.wf(),
    ensures
        final(game)@ == reply_step(old(game)@, reply@, reply_to).0,
        wake == reply_step(old(game)@, reply@, reply_to).1,
        final(game)@.wf(),
{
    proof {
        lemma_reply_step_preserves_wf(old(game)@, reply@, reply_to);
    }
    match game.msg_ids {
        Some((sent_msg_id, original_msg_id)) => {
            let in_flight = match &game.session_status {
                SessionStatus::MessageSent => true,
                _ => false,
            };
            if reply_to == sent_msg_id && in_flight {
                game.msg_ids = None;
                game.session_status = SessionStatus::ReplyReceived(reply);
                Some(original_msg_id)
            } else {
                None
            }
        },
        None => None,
    }
}

/// The queryable snapshot of the game's progress; reading it does not mutate
/// the session.
pub fn state(game: &GameSession) -> (status: GameStatus)
    ensures
        status == game.status,
{
    game.status
}

} // verus!
