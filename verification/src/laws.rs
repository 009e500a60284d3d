//! The laws of the session coordinator, stated over the transition functions
//! of `machine` and proved once and for all.

use vstd::prelude::*;

use crate::env::{MessageContext, MessageId};
use crate::machine::{
    handle_step, reply_step, valid_word, EffectModel, SessionModel, SessionStatusModel,
    MAX_ATTEMPTS, MAX_BLOCKS,
};
use crate::protocol::{ActionModel, EventModel, GameResult, GameStatus};
use crate::wordle::{ReplyModel, RequestModel};

verus! {

/// Law: a `CheckWord` issued while a game is in progress with attempts left
/// sends a check request and suspends the caller; once the matching
/// word-check reply arrives and the caller is resumed, the session is waiting
/// again and the game is either still in progress with exactly one more
/// attempt, or finished.
pub proof fn lemma_check_word_round_trip(
    s: SessionModel,
    attempts: u8,
    start_height: u32,
    word: Seq<char>,
    ctx1: MessageContext,
    reply: ReplyModel,
    resume_action: ActionModel,
    ctx2: MessageContext,
)
    requires
        s.wf(),
        s.session_status is Waiting,
        s.status == (GameStatus::InProgress { attempts, start_height }),
        attempts < MAX_ATTEMPTS,
        valid_word(word),
        reply matches ReplyModel::WordChecked { .. },
    ensures
        ({
            let (sent, send_effect) = handle_step(s, ActionModel::CheckWord { word }, ctx1);
            let (resumed, wake) = reply_step(sent, reply, ctx1.outbound_message_id);
            let (done, _) = handle_step(resumed, resume_action, ctx2);
            &&& sent.session_status is MessageSent
            &&& send_effect == (EffectModel::SendAndWait {
                to: s.wordle_program,
                request: RequestModel::CheckWord { user: ctx1.source, word },
            })
            &&& wake == Some(ctx1.message_id)
            &&& resumed.session_status is ReplyReceived
            &&& done.session_status is Waiting
            &&& (done.status == (GameStatus::InProgress {
                attempts: (attempts + 1) as u8,
                start_height,
            }) || done.status is Finished)
        }),
{
}

/// Law: a reply whose correlation identifier does not match the stored
/// pending request (or that arrives while nothing is pending) leaves every
/// session field unchanged and wakes nobody.
pub proof fn lemma_stale_reply_ignored(s: SessionModel, reply: ReplyModel, reply_to: MessageId)
    requires
        match s.msg_ids {
            Some((sent_msg_id, _)) => reply_to != sent_msg_id,
            None => true,
        },
    ensures
        reply_step(s, reply, reply_to).0 == s,
        reply_step(s, reply, reply_to).1 is None,
{
}

/// Law: applying an accepted or discarded reply never changes the game's
/// lifecycle state or the bound word-checking service.
pub proof fn lemma_reply_step_keeps_game(s: SessionModel, reply: ReplyModel, reply_to: MessageId)
    ensures
        reply_step(s, reply, reply_to).0.status == s.status,
        reply_step(s, reply, reply_to).0.wordle_program == s.wordle_program,
{
}

/// Law: resuming against a word-check reply whose `correct_positions` covers
/// all five letters finishes the game with a win, whatever the attempt count.
pub proof fn lemma_win_detection(
    s: SessionModel,
    user: crate::env::ActorId,
    correct_positions: Seq<u8>,
    contained_in_word: Seq<u8>,
    attempts: u8,
    start_height: u32,
    resume_action: ActionModel,
    ctx: MessageContext,
)
    requires
        s.session_status == SessionStatusModel::ReplyReceived(
            ReplyModel::WordChecked { user, correct_positions, contained_in_word },
        ),
        s.status == (GameStatus::InProgress { attempts, start_height }),
        correct_positions.len() == 5,
    ensures
        handle_step(s, resume_action, ctx).0.status == GameStatus::Finished(GameResult::Win),
        handle_step(s, resume_action, ctx).0.session_status is Waiting,
        handle_step(s, resume_action, ctx).1 == EffectModel::Reply(
            EventModel::GameOver(GameResult::Win),
        ),
{
}

/// Law: resuming against an unsuccessful word-check reply that brings the
/// attempt count to the budget finishes the game with a loss.
pub proof fn lemma_loss_detection(
    s: SessionModel,
    user: crate::env::ActorId,
    correct_positions: Seq<u8>,
    contained_in_word: Seq<u8>,
    attempts: u8,
    start_height: u32,
    resume_action: ActionModel,
    ctx: MessageContext,
)
    requires
        s.wf(),
        s.session_status == SessionStatusModel::ReplyReceived(
            ReplyModel::WordChecked { user, correct_positions, contained_in_word },
        ),
        s.status == (GameStatus::InProgress { attempts, start_height }),
        correct_positions.len() != 5,
        attempts + 1 >= MAX_ATTEMPTS,
    ensures
        handle_step(s, resume_action, ctx).0.status == GameStatus::Finished(GameResult::Lose),
        handle_step(s, resume_action, ctx).0.session_status is Waiting,
        handle_step(s, resume_action, ctx).1 == EffectModel::Reply(
            EventModel::GameOver(GameResult::Lose),
        ),
{
}

/// Law: a `CheckGameStatus` delivered while a game is in progress and at
/// least `MAX_BLOCKS` ticks past its start finishes the game as timed out.
pub proof fn lemma_timeout_fires(
    s: SessionModel,
    attempts: u8,
    start_height: u32,
    ctx: MessageContext,
)
    requires
        s.session_status is Waiting,
        s.status == (GameStatus::InProgress { attempts, start_height }),
        ctx.block_height >= start_height + MAX_BLOCKS,
    ensures
        handle_step(s, ActionModel::CheckGameStatus, ctx).0 == (SessionModel {
            status: GameStatus::Finished(GameResult::TimeOut),
            ..s
        }),
        handle_step(s, ActionModel::CheckGameStatus, ctx).1 == EffectModel::Reply(
            EventModel::GameOver(GameResult::TimeOut),
        ),
{
}

/// Law: a `CheckGameStatus` delivered before the tick budget is spent, or
/// once the game is no longer in progress, changes nothing and stays silent.
pub proof fn lemma_timeout_idle(s: SessionModel, ctx: MessageContext)
    requires
        s.session_status is Waiting,
        !(s.status matches GameStatus::InProgress { start_height, .. } && ctx.block_height
            >= start_height + MAX_BLOCKS),
    ensures
        handle_step(s, ActionModel::CheckGameStatus, ctx).0 == s,
        handle_step(s, ActionModel::CheckGameStatus, ctx).1 == EffectModel::Silent,
{
}

/// Law: any caller action delivered while a request is in flight gets a busy
/// `GameError` reply and mutates nothing.
pub proof fn lemma_busy_rejection(s: SessionModel, action: ActionModel, ctx: MessageContext)
    requires
        s.session_status is MessageSent,
    ensures
        handle_step(s, action, ctx).0 == s,
        handle_step(s, action, ctx).1 == EffectModel::Reply(
            EventModel::GameError("Message already sent"@),
        ),
{
}

/// How far along its lifecycle a game is.
pub open spec fn status_rank(status: GameStatus) -> int {
    match status {
        GameStatus::NotStarted => 0,
        GameStatus::InProgress { .. } => 1,
        GameStatus::Finished(_) => 2,
    }
}

/// The lifecycle only moves forward, and within a game the attempt count
/// never decreases.
pub open spec fn status_progresses(before: GameStatus, after: GameStatus) -> bool {
    &&& status_rank(before) <= status_rank(after)
    &&& match (before, after) {
        (
            GameStatus::InProgress { attempts: before_attempts, .. },
            GameStatus::InProgress { attempts: after_attempts, .. },
        ) => before_attempts <= after_attempts,
        _ => true,
    }
}

/// Law: every handler invocation moves the game's lifecycle forward, except
/// the resume against a game-start reply, which initializes the game afresh.
pub proof fn lemma_status_monotone(s: SessionModel, action: ActionModel, ctx: MessageContext)
    requires
        s.wf(),
        !(s.session_status matches SessionStatusModel::ReplyReceived(
            ReplyModel::GameStarted { .. },
        )),
    ensures
        status_progresses(s.status, handle_step(s, action, ctx).0.status),
{
}

} // verus!
