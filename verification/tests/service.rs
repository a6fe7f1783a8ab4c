use paper_scissors_stone::game::GameState;
use paper_scissors_stone::model::{
    AdvanceMetadata, AdvanceRequest, FinishStatus, GameError, GameRequest, GameWinner, Notice,
    PlayerAction, Rejection, RollupResponse,
};
use paper_scissors_stone::service::{advance_state, Action, Event, Phase, Session};

fn game_request(operation: &str, player_name: &str) -> GameRequest {
    GameRequest { operation: operation.to_string(), player_name: player_name.to_string() }
}

fn rollup_response(request_type: &str, payload: &str) -> RollupResponse {
    RollupResponse {
        request_type: request_type.to_string(),
        data: AdvanceRequest {
            metadata: AdvanceMetadata {
                msg_sender: "0xf39fd6e51aad88f6f4ce6ab8827279cfffb92266".to_string(),
                epoch_index: 0,
                input_index: 7,
                block_number: 42,
                time_stamp: 1_650_000_000,
            },
            payload: payload.to_string(),
        },
    }
}

fn payload_of(operation: &str, player_name: &str) -> String {
    let json = format!("{{\"operation\":\"{operation}\",\"playerName\":\"{player_name}\"}}");
    format!("0x{}", hex::encode(json))
}

/// Reads a game request out of JSON, as a driver of the session would.
fn read_game_request(bytes: &[u8]) -> Option<GameRequest> {
    let value: serde_json::Value = serde_json::from_slice(bytes).ok()?;
    let operation = value.get("operation")?.as_str()?;
    let player_name = value.get("playerName")?.as_str()?;
    Some(game_request(operation, player_name))
}

/// Puts one advance request through the session, with a dispatcher that
/// acknowledges every notice, and returns the last action.
fn advance(session: &mut Session, payload: &str) -> Action {
    assert_eq!(session.phase(), Phase::Polling);
    let mut action = session.step(Event::Request(rollup_response("advance_state", payload)));
    if let Action::Parse(bytes) = &action {
        assert_eq!(session.phase(), Phase::Decoding);
        let parsed = read_game_request(bytes);
        action = session.step(Event::Parsed(parsed));
    }
    if let Action::Publish(game) = &action {
        assert_eq!(session.phase(), Phase::Publishing);
        assert_eq!(game, session.game());
        action = session.step(Event::Published(true));
    }
    assert_eq!(session.phase(), Phase::Polling);
    action
}

fn accepted() -> Action {
    Action::Poll { verdict: FinishStatus::Accept, rejection: None }
}

fn rejected(reason: Rejection) -> Action {
    Action::Poll { verdict: FinishStatus::Reject, rejection: Some(reason) }
}

fn hp(session: &Session, name: &str) -> u16 {
    session.game().player(name).expect("the player is enrolled").hp
}

#[test]
fn session_starts_polling_with_accept() {
    let session = Session::new();
    assert_eq!(session.phase(), Phase::Polling);
    assert_eq!(session.verdict(), FinishStatus::Accept);
    assert_eq!(*session.game(), GameState::new());
}

#[test]
fn nothing_fetched_polls_again() {
    let mut session = Session::new();
    assert_eq!(session.step(Event::FetchFailed), accepted());
    assert_eq!(session.step(Event::NothingPending), accepted());
    assert_eq!(session.phase(), Phase::Polling);
    assert_eq!(*session.game(), GameState::new());

    assert_eq!(advance(&mut session, "0xzz"), rejected(Rejection::InvalidHex));
    let unchanged = Action::Poll { verdict: FinishStatus::Reject, rejection: None };
    assert_eq!(session.step(Event::FetchFailed), unchanged);
    assert_eq!(session.step(Event::NothingPending), unchanged);
    assert_eq!(session.verdict(), FinishStatus::Reject);
}

#[test]
fn inspect_request_changes_nothing() {
    let mut session = Session::new();
    let payload = payload_of("find_game", "alice");
    assert_eq!(
        session.step(Event::Request(rollup_response("inspect_state", &payload))),
        accepted()
    );
    assert_eq!(*session.game(), GameState::new());
    assert_eq!(session.phase(), Phase::Polling);

    assert_eq!(advance(&mut session, "0xzz"), rejected(Rejection::InvalidHex));
    assert_eq!(
        session.step(Event::Request(rollup_response("inspect_state", "not even hex"))),
        Action::Poll { verdict: FinishStatus::Reject, rejection: None }
    );
    assert_eq!(session.verdict(), FinishStatus::Reject);
}

#[test]
fn unknown_request_kind_changes_nothing() {
    let mut session = Session::new();
    let payload = payload_of("find_game", "alice");
    for kind in ["", "advance", "ADVANCE_STATE", "voucher"] {
        assert_eq!(session.step(Event::Request(rollup_response(kind, &payload))), accepted());
        assert_eq!(*session.game(), GameState::new());
        assert_eq!(session.phase(), Phase::Polling);
    }
}

#[test]
fn join_is_applied_published_and_accepted() {
    let mut session = Session::new();
    let request = rollup_response("advance_state", &payload_of("find_game", "alice"));

    let action = session.step(Event::Request(request));
    let expected = b"{\"operation\":\"find_game\",\"playerName\":\"alice\"}".to_vec();
    assert_eq!(action, Action::Parse(expected));
    assert_eq!(session.phase(), Phase::Decoding);
    assert_eq!(*session.game(), GameState::new());

    let action = session.step(Event::Parsed(Some(game_request("find_game", "alice"))));
    match action {
        Action::Publish(game) => {
            assert_eq!(game.players().len(), 1);
            assert_eq!(game.players()[0].name, "alice");
            assert_eq!(game.players()[0].hp, 1000);
            assert_eq!(game, *session.game());
        }
        other => panic!("expected a notice, got {other:?}"),
    }
    assert_eq!(session.phase(), Phase::Publishing);
    assert_eq!(session.verdict(), FinishStatus::Accept);

    assert_eq!(session.step(Event::Published(true)), accepted());
    assert_eq!(session.phase(), Phase::Polling);
    assert_eq!(hp(&session, "alice"), 1000);
}

#[test]
fn unpublished_notice_is_rejected_but_the_match_has_moved() {
    let mut session = Session::new();
    let request = rollup_response("advance_state", &payload_of("find_game", "alice"));
    assert!(matches!(session.step(Event::Request(request)), Action::Parse(_)));
    let action = session.step(Event::Parsed(Some(game_request("find_game", "alice"))));
    assert!(matches!(action, Action::Publish(_)));
    assert_eq!(session.step(Event::Published(false)), rejected(Rejection::NoticeFailed));
    assert_eq!(session.verdict(), FinishStatus::Reject);
    assert_eq!(session.phase(), Phase::Polling);
    assert_eq!(session.game().players().len(), 1);
}

#[test]
fn verdict_recovers_with_the_next_accepted_request() {
    let mut session = Session::new();
    assert_eq!(advance(&mut session, "0x123"), rejected(Rejection::InvalidHex));
    assert_eq!(session.verdict(), FinishStatus::Reject);
    assert_eq!(advance(&mut session, &payload_of("find_game", "alice")), accepted());
    assert_eq!(session.verdict(), FinishStatus::Accept);
}

#[test]
fn payload_that_is_no_hex_is_rejected() {
    let mut session = Session::new();
    for payload in ["0xzz", "0x123", "hello", "0x0x7b7d"] {
        assert_eq!(advance(&mut session, payload), rejected(Rejection::InvalidHex));
        assert_eq!(*session.game(), GameState::new());
    }
}

#[test]
fn payload_without_prefix_is_taken() {
    let mut session = Session::new();
    let payload = payload_of("find_game", "alice");
    assert_eq!(advance(&mut session, payload.trim_start_matches("0x")), accepted());
    assert_eq!(hp(&session, "alice"), 1000);
}

#[test]
fn bytes_that_are_no_game_request_are_rejected() {
    let mut session = Session::new();
    let payloads = [
        format!("0x{}", hex::encode("not json")),
        format!("0x{}", hex::encode("{\"operation\":\"paper\"}")),
        format!("0x{}", hex::encode("{\"operation\":7,\"playerName\":\"alice\"}")),
        format!("0x{}", hex::encode([0xff, 0xfe])),
        "0x".to_string(),
        String::new(),
    ];
    for payload in payloads {
        assert_eq!(advance(&mut session, &payload), rejected(Rejection::InvalidRequest));
        assert_eq!(*session.game(), GameState::new());
    }
}

#[test]
fn unknown_operation_is_rejected() {
    let mut session = Session::new();
    assert_eq!(advance(&mut session, &payload_of("find_game", "alice")), accepted());
    assert_eq!(advance(&mut session, &payload_of("find_game", "bob")), accepted());
    let before = session.game().clone();

    assert_eq!(
        advance(&mut session, &payload_of("rock", "alice")),
        rejected(Rejection::UnknownOperation)
    );
    assert_eq!(session.verdict(), FinishStatus::Reject);
    assert_eq!(*session.game(), before);
}

#[test]
fn rule_violations_are_rejected_with_their_reason() {
    let mut session = Session::new();
    let game_error = |reason| rejected(Rejection::Game(reason));

    assert_eq!(
        advance(&mut session, &payload_of("paper", "alice")),
        game_error(GameError::UnknownPlayer)
    );
    assert_eq!(advance(&mut session, &payload_of("find_game", "alice")), accepted());
    assert_eq!(
        advance(&mut session, &payload_of("find_game", "alice")),
        game_error(GameError::AlreadyInMatch)
    );
    assert_eq!(
        advance(&mut session, &payload_of("stone", "alice")),
        game_error(GameError::WaitingForOpponent)
    );
    assert_eq!(advance(&mut session, &payload_of("find_game", "bob")), accepted());
    assert_eq!(
        advance(&mut session, &payload_of("find_game", "carol")),
        game_error(GameError::RoomFull)
    );
    assert_eq!(
        advance(&mut session, &payload_of("scissors", "carol")),
        game_error(GameError::UnknownPlayer)
    );
    for _ in 0..4 {
        assert_eq!(advance(&mut session, &payload_of("paper", "alice")), accepted());
        assert_eq!(advance(&mut session, &payload_of("stone", "bob")), accepted());
    }
    let ended = session.game().clone();
    assert_eq!(
        advance(&mut session, &payload_of("paper", "alice")),
        game_error(GameError::MatchEnded)
    );
    assert_eq!(*session.game(), ended);
    assert_eq!(session.verdict(), FinishStatus::Reject);
}

#[test]
fn whole_match_through_the_session() {
    let mut session = Session::new();
    assert_eq!(advance(&mut session, &payload_of("find_game", "alice")), accepted());
    assert_eq!(advance(&mut session, &payload_of("FIND_GAME", "bob")), accepted());
    assert_eq!(hp(&session, "alice"), 1000);
    assert_eq!(hp(&session, "bob"), 1000);

    let mut seen = Vec::new();
    for _ in 0..4 {
        assert_eq!(advance(&mut session, &payload_of("paper", "alice")), accepted());
        assert_eq!(hp(&session, "bob"), seen.last().copied().unwrap_or(1000));
        assert_eq!(advance(&mut session, &payload_of("Stone", "bob")), accepted());
        seen.push(hp(&session, "bob"));
    }
    assert_eq!(seen, vec![700, 400, 100, 0]);
    assert_eq!(hp(&session, "alice"), 1000);
    assert_eq!(*session.game().round_result(), GameWinner::Player("alice".to_string()));
    assert_eq!(*session.game().game_result(), GameWinner::Player("alice".to_string()));
}

#[test]
fn draw_through_the_session() {
    let mut session = Session::new();
    assert_eq!(advance(&mut session, &payload_of("find_game", "alice")), accepted());
    assert_eq!(advance(&mut session, &payload_of("find_game", "bob")), accepted());
    assert_eq!(advance(&mut session, &payload_of("paper", "alice")), accepted());
    assert_eq!(advance(&mut session, &payload_of("paper", "bob")), accepted());
    assert_eq!(hp(&session, "alice"), 900);
    assert_eq!(hp(&session, "bob"), 900);
    assert_eq!(*session.game().round_result(), GameWinner::Draw);
    assert_eq!(*session.game().game_result(), GameWinner::Undecided);
}

#[test]
fn event_out_of_turn_while_polling_is_ignored() {
    let mut session = Session::new();
    assert_eq!(session.step(Event::Parsed(Some(game_request("find_game", "alice")))), accepted());
    assert_eq!(session.step(Event::Parsed(None)), accepted());
    assert_eq!(session.step(Event::Published(true)), accepted());
    assert_eq!(session.step(Event::Published(false)), accepted());
    assert_eq!(*session.game(), GameState::new());
    assert_eq!(session.phase(), Phase::Polling);
    assert_eq!(session.verdict(), FinishStatus::Accept);
}

#[test]
fn event_out_of_turn_while_decoding_fails_the_request() {
    let events = [
        Event::FetchFailed,
        Event::NothingPending,
        Event::Published(true),
        Event::Request(rollup_response("advance_state", &payload_of("find_game", "bob"))),
    ];
    for event in events {
        let mut session = Session::new();
        let request = rollup_response("advance_state", &payload_of("find_game", "alice"));
        assert!(matches!(session.step(Event::Request(request)), Action::Parse(_)));
        assert_eq!(session.step(event), rejected(Rejection::InvalidRequest));
        assert_eq!(*session.game(), GameState::new());
        assert_eq!(session.phase(), Phase::Polling);
    }
}

#[test]
fn event_out_of_turn_while_publishing_fails_the_notice() {
    let events = [
        Event::FetchFailed,
        Event::NothingPending,
        Event::Parsed(Some(game_request("find_game", "bob"))),
        Event::Request(rollup_response("advance_state", &payload_of("find_game", "bob"))),
    ];
    for event in events {
        let mut session = Session::new();
        let request = rollup_response("advance_state", &payload_of("find_game", "alice"));
        assert!(matches!(session.step(Event::Request(request)), Action::Parse(_)));
        let action = session.step(Event::Parsed(Some(game_request("find_game", "alice"))));
        assert!(matches!(action, Action::Publish(_)));
        assert_eq!(session.step(event), rejected(Rejection::NoticeFailed));
        assert_eq!(session.game().players().len(), 1);
        assert_eq!(session.phase(), Phase::Polling);
    }
}

#[test]
fn advance_state_joins_and_moves() {
    let mut game = GameState::new();
    assert_eq!(advance_state(&mut game, game_request("find_game", "alice")), Ok(()));
    assert_eq!(advance_state(&mut game, game_request("find_game", "bob")), Ok(()));
    assert_eq!(advance_state(&mut game, game_request("scissors", "alice")), Ok(()));
    assert_eq!(
        game.player("alice").map(|player| player.current_action),
        Some(Some(PlayerAction::Scissors))
    );
    assert_eq!(advance_state(&mut game, game_request("stone", "bob")), Ok(()));
    assert_eq!(game.player("alice").map(|player| player.hp), Some(700));
    assert_eq!(*game.round_result(), GameWinner::Player("bob".to_string()));
}

#[test]
fn advance_state_turns_down_what_it_cannot_apply() {
    let mut game = GameState::new();
    assert_eq!(
        advance_state(&mut game, game_request("rock", "alice")),
        Err(Rejection::UnknownOperation)
    );
    assert_eq!(
        advance_state(&mut game, game_request("", "alice")),
        Err(Rejection::UnknownOperation)
    );
    assert_eq!(
        advance_state(&mut game, game_request("paper", "alice")),
        Err(Rejection::Game(GameError::UnknownPlayer))
    );
    assert_eq!(game, GameState::new());
}

#[test]
fn published_match_can_be_sent_as_a_notice() {
    let mut session = Session::new();
    let request = rollup_response("advance_state", &payload_of("find_game", "alice"));
    assert!(matches!(session.step(Event::Request(request)), Action::Parse(_)));
    let action = session.step(Event::Parsed(Some(game_request("find_game", "alice"))));
    let Action::Publish(game) = action else {
        panic!("expected a notice");
    };
    let json = format!("{{\"round\":{},\"players\":{}}}", game.round(), game.players().len());
    let notice = Notice::new(json.as_bytes());
    assert_eq!(notice.payload, format!("0x{}", hex::encode(&json)));
    assert_eq!(notice.payload, "0x7b22726f756e64223a312c22706c6179657273223a317d");
}
