use game_session::env::{ActorId, MessageContext, MessageId};
use game_session::machine::HandleError;
use game_session::protocol::{
    Action, Event, GameResult, GameStatus, IntoGameSessionEvent, WordleEvent,
};
use game_session::session::{
    handle, handle_reply, init, state, GameSession, HandleEffect, SessionStatus,
};
use game_session::wordle;

const USER: u64 = 10;
const WORDLE_PROGRAM_ID: u64 = 2;

/// An in-memory stand-in for the hosting environment: it owns the session,
/// counts blocks, assigns message identifiers, answers requests like the
/// word-checking service would, and delivers the delayed status check.
struct Driver {
    game: GameSession,
    block: u32,
    next_id: u64,
    secret: &'static str,
    timeout_at: Option<u32>,
}

fn new_driver(secret: &'static str, start_block: u32) -> Driver {
    Driver {
        game: init(ActorId(WORDLE_PROGRAM_ID)),
        block: start_block,
        next_id: 1000,
        secret,
        timeout_at: None,
    }
}

/// Per-slot feedback the word-checking service computes for a guess.
fn service_feedback(secret: &str, word: &str) -> (Vec<u8>, Vec<u8>) {
    let secret: Vec<char> = secret.chars().collect();
    let word: Vec<char> = word.chars().collect();
    let mut correct_positions = Vec::new();
    let mut contained_in_word = Vec::new();
    for (i, c) in word.iter().enumerate() {
        if secret.get(i) == Some(c) {
            correct_positions.push(i as u8);
        } else if secret.contains(c) {
            contained_in_word.push(i as u8);
        }
    }
    (correct_positions, contained_in_word)
}

fn service_reply(secret: &str, request: &wordle::Action) -> wordle::Event {
    match request {
        wordle::Action::StartGame { user } => wordle::Event::GameStarted { user: *user },
        wordle::Action::CheckWord { user, word } => {
            let (correct_positions, contained_in_word) = service_feedback(secret, word);
            wordle::Event::WordChecked {
                user: *user,
                correct_positions,
                contained_in_word,
            }
        }
    }
}

/// Delivers one inbound message at the driver's current block: dispatches it,
/// and if the session suspended on a request, answers the request and resumes
/// the suspended message. Returns the effect of the last handler invocation.
fn deliver_at_current_block(d: &mut Driver, action: Action) -> HandleEffect {
    let ctx = MessageContext {
        source: ActorId(USER),
        message_id: MessageId(d.next_id),
        block_height: d.block,
        outbound_message_id: MessageId(d.next_id + 1),
    };
    d.next_id += 2;
    let effect = handle(&mut d.game, action.clone(), ctx);
    if let HandleEffect::SendAndWait { to, request } = &effect {
        assert_eq!(*to, ActorId(WORDLE_PROGRAM_ID));
        let reply = service_reply(d.secret, request);
        let wake = handle_reply(&mut d.game, reply, ctx.outbound_message_id);
        assert_eq!(wake, Some(ctx.message_id));
        let resumed = handle(&mut d.game, action, ctx);
        if let HandleEffect::ReplyAndScheduleStatusCheck { reply: _, delay } = &resumed {
            d.timeout_at = Some(d.block + delay);
        }
        resumed
    } else {
        effect
    }
}

/// One block passes, then the message is delivered.
fn deliver(d: &mut Driver, action: Action) -> HandleEffect {
    d.block += 1;
    deliver_at_current_block(d, action)
}

/// Advances the clock, delivering the scheduled status check when its block
/// is reached.
fn run_to_block(d: &mut Driver, target: u32) {
    if let Some(at) = d.timeout_at {
        if at <= target {
            d.block = at;
            d.timeout_at = None;
            let _ = deliver_at_current_block(d, Action::CheckGameStatus);
        }
    }
    d.block = target;
}

fn check_word(d: &mut Driver, word: &str) -> HandleEffect {
    deliver(
        d,
        Action::CheckWord {
            word: word.to_string(),
        },
    )
}

#[test]
fn test_game_start_and_lose() {
    let mut d = new_driver("house", 2);
    let started = deliver(&mut d, Action::StartGame);
    assert_eq!(
        started,
        HandleEffect::ReplyAndScheduleStatusCheck {
            reply: Event::GameStarted,
            delay: 200,
        }
    );
    assert_eq!(
        state(&d.game),
        GameStatus::InProgress {
            attempts: 0,
            start_height: 3
        }
    );

    check_word(&mut d, "apple");
    for _ in 0..6 {
        check_word(&mut d, "apple");
    }
    assert_eq!(state(&d.game), GameStatus::Finished(GameResult::Lose));
}

#[test]
fn test_game_timeout() {
    let mut d = new_driver("house", 2);
    deliver(&mut d, Action::StartGame);
    assert_eq!(
        state(&d.game),
        GameStatus::InProgress {
            attempts: 0,
            start_height: 3
        }
    );

    check_word(&mut d, "apple");
    run_to_block(&mut d, 300);
    assert_eq!(state(&d.game), GameStatus::Finished(GameResult::TimeOut));
}

#[test]
fn test_game_win() {
    let mut d = new_driver("house", 2);
    deliver(&mut d, Action::StartGame);
    assert_eq!(
        state(&d.game),
        GameStatus::InProgress {
            attempts: 0,
            start_height: 3
        }
    );

    check_word(&mut d, "apple");
    check_word(&mut d, "human");
    check_word(&mut d, "horse");
    check_word(&mut d, "house");
    assert_eq!(state(&d.game), GameStatus::Finished(GameResult::Win));
}

#[test]
fn test_check_word_round_trip_increments_attempts() {
    let mut d = new_driver("house", 0);
    deliver(&mut d, Action::StartGame);
    let effect = check_word(&mut d, "horse");
    assert_eq!(
        effect,
        HandleEffect::Reply(Event::WordChecked {
            player: ActorId(USER),
            correct_positions: vec![0, 1, 3, 4],
            contained_letters: vec![],
        })
    );
    assert!(matches!(d.game.session_status, SessionStatus::Waiting));
    assert_eq!(
        state(&d.game),
        GameStatus::InProgress {
            attempts: 1,
            start_height: 1
        }
    );
}

#[test]
fn test_win_on_first_attempt() {
    let mut d = new_driver("house", 0);
    deliver(&mut d, Action::StartGame);
    let effect = check_word(&mut d, "house");
    assert_eq!(
        effect,
        HandleEffect::Reply(Event::GameOver(GameResult::Win))
    );
    assert_eq!(state(&d.game), GameStatus::Finished(GameResult::Win));
}

#[test]
fn test_sixth_failed_attempt_loses() {
    let mut d = new_driver("house", 0);
    deliver(&mut d, Action::StartGame);
    for attempt in 1..=5u8 {
        let effect = check_word(&mut d, "apple");
        assert!(matches!(effect, HandleEffect::Reply(Event::WordChecked { .. })));
        assert_eq!(
            state(&d.game),
            GameStatus::InProgress {
                attempts: attempt,
                start_height: 1
            }
        );
    }
    let effect = check_word(&mut d, "apple");
    assert_eq!(
        effect,
        HandleEffect::Reply(Event::GameOver(GameResult::Lose))
    );
    assert_eq!(state(&d.game), GameStatus::Finished(GameResult::Lose));
}

#[test]
fn test_busy_rejection() {
    let mut game = init(ActorId(WORDLE_PROGRAM_ID));
    let ctx = MessageContext {
        source: ActorId(USER),
        message_id: MessageId(1),
        block_height: 5,
        outbound_message_id: MessageId(2),
    };
    let sent = handle(&mut game, Action::StartGame, ctx);
    assert!(matches!(sent, HandleEffect::SendAndWait { .. }));
    assert!(matches!(game.session_status, SessionStatus::MessageSent));

    let ctx2 = MessageContext {
        source: ActorId(USER),
        message_id: MessageId(3),
        block_height: 6,
        outbound_message_id: MessageId(4),
    };
    let busy = handle(
        &mut game,
        Action::CheckWord {
            word: "apple".to_string(),
        },
        ctx2,
    );
    assert_eq!(
        busy,
        HandleEffect::Reply(Event::GameError("Message already sent".to_string()))
    );
    assert!(matches!(game.session_status, SessionStatus::MessageSent));
    assert_eq!(game.msg_ids, Some((MessageId(2), MessageId(1))));
    assert_eq!(state(&game), GameStatus::NotStarted);
}

#[test]
fn test_stale_reply_ignored() {
    let mut game = init(ActorId(WORDLE_PROGRAM_ID));
    let ctx = MessageContext {
        source: ActorId(USER),
        message_id: MessageId(1),
        block_height: 5,
        outbound_message_id: MessageId(2),
    };
    handle(&mut game, Action::StartGame, ctx);

    let stale = wordle::Event::GameStarted { user: ActorId(USER) };
    let wake = handle_reply(&mut game, stale, MessageId(77));
    assert_eq!(wake, None);
    assert!(matches!(game.session_status, SessionStatus::MessageSent));
    assert_eq!(game.msg_ids, Some((MessageId(2), MessageId(1))));
    assert_eq!(state(&game), GameStatus::NotStarted);
}

#[test]
fn test_reply_without_pending_request_ignored() {
    let mut game = init(ActorId(WORDLE_PROGRAM_ID));
    let reply = wordle::Event::GameStarted { user: ActorId(USER) };
    let wake = handle_reply(&mut game, reply, MessageId(1));
    assert_eq!(wake, None);
    assert!(matches!(game.session_status, SessionStatus::Waiting));
    assert_eq!(game.msg_ids, None);
    assert_eq!(state(&game), GameStatus::NotStarted);
}

#[test]
fn test_start_game_already_in_progress_fails() {
    let mut d = new_driver("house", 0);
    deliver(&mut d, Action::StartGame);
    let effect = deliver(&mut d, Action::StartGame);
    assert_eq!(
        effect,
        HandleEffect::Failed(HandleError::GameAlreadyInProgress)
    );
    assert_eq!(
        state(&d.game),
        GameStatus::InProgress {
            attempts: 0,
            start_height: 1
        }
    );
}

#[test]
fn test_invalid_word_rejected() {
    let mut d = new_driver("house", 0);
    deliver(&mut d, Action::StartGame);
    for bad in ["appl", "apples", "Apple", "app1e", "ap le", ""] {
        let effect = check_word(&mut d, bad);
        assert_eq!(effect, HandleEffect::Failed(HandleError::InvalidWordFormat));
    }
    assert_eq!(
        state(&d.game),
        GameStatus::InProgress {
            attempts: 0,
            start_height: 1
        }
    );
}

#[test]
fn test_check_word_without_game_fails() {
    let mut d = new_driver("house", 0);
    let effect = check_word(&mut d, "apple");
    assert_eq!(effect, HandleEffect::Failed(HandleError::NoActiveGame));
    assert_eq!(state(&d.game), GameStatus::NotStarted);
}

#[test]
fn test_attempts_exhausted_fails() {
    let mut game = GameSession {
        wordle_program: ActorId(WORDLE_PROGRAM_ID),
        status: GameStatus::InProgress {
            attempts: 6,
            start_height: 3,
        },
        msg_ids: None,
        session_status: SessionStatus::Waiting,
    };
    let ctx = MessageContext {
        source: ActorId(USER),
        message_id: MessageId(1),
        block_height: 10,
        outbound_message_id: MessageId(2),
    };
    let effect = handle(
        &mut game,
        Action::CheckWord {
            word: "apple".to_string(),
        },
        ctx,
    );
    assert_eq!(effect, HandleEffect::Failed(HandleError::AttemptsExhausted));
    assert_eq!(
        state(&game),
        GameStatus::InProgress {
            attempts: 6,
            start_height: 3
        }
    );
}

#[test]
fn test_status_check_before_deadline_is_silent() {
    let mut d = new_driver("house", 0);
    deliver(&mut d, Action::StartGame);
    d.block = 200;
    let effect = deliver_at_current_block(&mut d, Action::CheckGameStatus);
    assert_eq!(effect, HandleEffect::Silent);
    assert_eq!(
        state(&d.game),
        GameStatus::InProgress {
            attempts: 0,
            start_height: 1
        }
    );
}

#[test]
fn test_status_check_at_deadline_times_out() {
    let mut d = new_driver("house", 0);
    deliver(&mut d, Action::StartGame);
    d.block = 201;
    let effect = deliver_at_current_block(&mut d, Action::CheckGameStatus);
    assert_eq!(
        effect,
        HandleEffect::Reply(Event::GameOver(GameResult::TimeOut))
    );
    assert_eq!(state(&d.game), GameStatus::Finished(GameResult::TimeOut));
}

#[test]
fn test_status_check_after_finish_is_silent() {
    let mut d = new_driver("house", 0);
    deliver(&mut d, Action::StartGame);
    check_word(&mut d, "house");
    assert_eq!(state(&d.game), GameStatus::Finished(GameResult::Win));
    run_to_block(&mut d, 400);
    assert_eq!(state(&d.game), GameStatus::Finished(GameResult::Win));
}

#[test]
fn test_scenario_full_game() {
    // A game started at tick 0 begins in progress with no attempts spent.
    let mut lose = new_driver("house", 0);
    deliver_at_current_block(&mut lose, Action::StartGame);
    assert_eq!(
        state(&lose.game),
        GameStatus::InProgress {
            attempts: 0,
            start_height: 0
        }
    );
    // Six consecutive non-winning checks lose the game.
    for _ in 0..6 {
        check_word(&mut lose, "apple");
    }
    assert_eq!(state(&lose.game), GameStatus::Finished(GameResult::Lose));

    // A winning check at any attempt count within the budget wins the game.
    let mut win = new_driver("house", 0);
    deliver(&mut win, Action::StartGame);
    check_word(&mut win, "apple");
    check_word(&mut win, "human");
    check_word(&mut win, "house");
    assert_eq!(state(&win.game), GameStatus::Finished(GameResult::Win));

    // No further activity for the whole tick budget times the game out.
    let mut idle = new_driver("house", 0);
    deliver(&mut idle, Action::StartGame);
    run_to_block(&mut idle, 250);
    assert_eq!(state(&idle.game), GameStatus::Finished(GameResult::TimeOut));
}

#[test]
fn test_wordle_event_from_session_event() {
    assert_eq!(
        WordleEvent::from(Event::GameStarted),
        WordleEvent::GameStarted
    );
    assert_eq!(
        WordleEvent::from(Event::WordChecked {
            player: ActorId(USER),
            correct_positions: vec![0, 2],
            contained_letters: vec![1],
        }),
        WordleEvent::WordChecked {
            player: ActorId(USER),
            correct_positions: vec![0, 2],
            contained_letters: vec![1],
        }
    );
    assert_eq!(
        WordleEvent::from(Event::GameOver(GameResult::Win)),
        WordleEvent::GameOver(GameResult::Win)
    );
    assert_eq!(
        WordleEvent::from(Event::GameError("boom".to_string())),
        WordleEvent::GameError("boom".to_string())
    );
    assert_eq!(
        WordleEvent::from(Event::MoveMade {
            correct_positions: vec![0],
            contained_in_word: vec![1],
        }),
        WordleEvent::GameError("Unknown event".to_string())
    );
}

#[test]
fn test_wordle_reply_into_game_session_event() {
    assert_eq!(
        wordle::Event::GameStarted { user: ActorId(USER) }.into_game_session_event(),
        Event::GameStarted
    );
    assert_eq!(
        wordle::Event::WordChecked {
            user: ActorId(USER),
            correct_positions: vec![0, 4],
            contained_in_word: vec![2],
        }
        .into_game_session_event(),
        Event::WordChecked {
            player: ActorId(USER),
            correct_positions: vec![0, 4],
            contained_letters: vec![2],
        }
    );
}
