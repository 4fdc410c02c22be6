use chessbik_server::board::{board_admits, opponent_can_move, BoardStatus, CellFacts, MoveFacts};
use chessbik_server::engine::{EngineAction, EngineActor, EngineEvent};
use chessbik_server::clock::Timestamp;
use chessbik_server::game::Game;
use chessbik_server::messages::{Effect, Notice};
use chessbik_server::player::{Player, PlayerColor, PlayerRecord, Players};
use chessbik_server::requests::DataServerMessage;
use chessbik_server::session::{ClientMessage, Routed, Ws};
use chessbik_server::subscribers::Subscribers;

#[test]
fn turn_follows_the_status() {
    assert!(BoardStatus::WhitesMove.is_turn_of(PlayerColor::White));
    assert!(!BoardStatus::WhitesMove.is_turn_of(PlayerColor::Black));
    assert!(BoardStatus::BlacksMove.is_turn_of(PlayerColor::Black));
    assert!(!BoardStatus::Mate.is_turn_of(PlayerColor::White));
    assert!(!BoardStatus::Mate.is_turn_of(PlayerColor::Black));
}

#[test]
fn opposite_colors() {
    assert_eq!(PlayerColor::White.opposite(), PlayerColor::Black);
    assert_eq!(PlayerColor::Black.opposite(), PlayerColor::White);
}

#[test]
fn board_admits_checks_piece_and_listing() {
    let f = |status, piece, listed| MoveFacts { status, piece_at_from: piece, move_listed: listed };
    assert!(board_admits(&f(BoardStatus::BlacksMove, Some(PlayerColor::Black), true), PlayerColor::Black));
    assert!(!board_admits(&f(BoardStatus::BlacksMove, Some(PlayerColor::White), true), PlayerColor::Black));
    assert!(!board_admits(&f(BoardStatus::BlacksMove, None, false), PlayerColor::Black));
    assert!(!board_admits(&f(BoardStatus::WhitesMove, None, true), PlayerColor::Black));
}

#[test]
fn opponent_moves_are_found() {
    let c = |piece, moves| CellFacts { piece, moves };
    assert!(!opponent_can_move(&vec![], PlayerColor::White));
    assert!(!opponent_can_move(&vec![c(Some(PlayerColor::White), 5), c(None, 9)], PlayerColor::White));
    assert!(opponent_can_move(&vec![c(None, 0), c(Some(PlayerColor::Black), 1)], PlayerColor::White));
    assert!(!opponent_can_move(&vec![c(Some(PlayerColor::Black), 0)], PlayerColor::White));
    assert!(opponent_can_move(&vec![c(Some(PlayerColor::White), 2)], PlayerColor::Black));
}

#[test]
fn playing_gives_the_seat_of_a_color() {
    let mut players = Players::new();
    *players.playing(PlayerColor::Black) = Player::Opponent { token: "t".to_string(), name: "n".to_string() };
    assert!(matches!(players.white, Player::Empty));
    assert!(matches!(players.black, Player::Opponent { .. }));
    *players.playing(PlayerColor::White) = Player::Engine { token: "e".to_string(), owner: "t".to_string() };
    assert!(matches!(players.seat(PlayerColor::White), Player::Engine { .. }));
}

#[test]
fn default_player_is_a_free_seat() {
    assert!(matches!(Player::default(), Player::Empty));
}

#[test]
fn seat_records() {
    let human = Player::Opponent { token: "t".to_string(), name: "Ann".to_string() };
    assert!(matches!(human.record_for(&"t".to_string()), PlayerRecord::Opponent(n, true) if n == "Ann"));
    assert!(matches!(human.record_for(&"u".to_string()), PlayerRecord::Opponent(_, false)));
    let engine = Player::Engine { token: "e".to_string(), owner: "t".to_string() };
    assert!(matches!(engine.record_for(&"t".to_string()), PlayerRecord::Engine(true)));
    assert!(matches!(engine.record_for(&"e".to_string()), PlayerRecord::Engine(false)));
    assert!(matches!(Player::Empty.record_for(&"t".to_string()), PlayerRecord::Empty));
}

#[test]
fn subscribers_keep_one_entry_per_token() {
    let mut subs = Subscribers::new();
    subs.insert("a".to_string(), 1);
    subs.insert("b".to_string(), 2);
    subs.insert("a".to_string(), 3);
    assert_eq!(subs.len(), 2);
    assert_eq!(subs.recipients(), vec![2, 3]);
    subs.remove(&"b".to_string());
    assert_eq!(subs.recipients(), vec![3]);
    subs.remove(&"zzz".to_string());
    assert_eq!(subs.len(), 1);
}

#[test]
fn game_notifies_in_subscription_order() {
    let mut game = Game::new(Timestamp { secs: 42, nanos: 0 });
    assert_eq!(game.last_interaction, Timestamp { secs: 42, nanos: 0 });
    game.subscribe("x".to_string(), 7);
    game.subscribe("y".to_string(), 8);
    let out = game.notify_subscribers(Notice::ConsiderRequestingBoard);
    assert_eq!(out.len(), 2);
    assert!(matches!(&out[0], Effect::Send { to: 7, notice: Notice::ConsiderRequestingBoard }));
    assert!(matches!(&out[1], Effect::Send { to: 8, notice: Notice::ConsiderRequestingBoard }));
}

#[test]
fn game_expiry() {
    let t = |secs: i64, nanos: u32| Timestamp { secs, nanos };
    let mut game = Game::new(t(0, 0));
    assert!(!game.is_expired(t(43_200, 0)));
    assert!(game.is_expired(t(43_200, 1)));
    assert!(!game.is_expired(t(i64::MIN, 0)));
    assert!(Game::new(t(i64::MIN, 0)).is_expired(t(i64::MAX, 999_999_999)));
    game.players.white = Player::Engine { token: "a".to_string(), owner: "o".to_string() };
    game.players.black = Player::Engine { token: "b".to_string(), owner: "o".to_string() };
    game.subscribe("a".to_string(), 1);
    assert!(!game.is_expired(t(0, 0)));
    game.subscribe("b".to_string(), 2);
    assert!(game.is_expired(t(0, 0)));
}

fn engine() -> EngineActor {
    EngineActor { color: PlayerColor::Black, lobby: "L".to_string(), token: "eng".to_string(), conn: 9 }
}

#[test]
fn engine_moves_only_on_its_turn() {
    let mut e = engine();
    assert_eq!(e.handle(EngineEvent::Board(BoardStatus::BlacksMove)), EngineAction::PlanMove);
    assert_eq!(e.handle(EngineEvent::Board(BoardStatus::WhitesMove)), EngineAction::Ignore);
    assert_eq!(e.handle(EngineEvent::Board(BoardStatus::Mate)), EngineAction::Ignore);
    assert_eq!(e.handle(EngineEvent::BoardChanged), EngineAction::RequestBoard);
    assert_eq!(e.handle(EngineEvent::Other), EngineAction::Ignore);
}

#[test]
fn engine_subscribes_then_asks_for_the_board() {
    let e = engine();
    let reqs = e.on_start();
    assert_eq!(reqs.len(), 2);
    assert!(matches!(&reqs[0], DataServerMessage::RequestGameSubscription(m) if m.0 == "L" && m.1 == "eng" && m.2 == 9));
    assert!(matches!(&reqs[1], DataServerMessage::RequestBoard(m) if m.0 == "L" && m.1 == 9));
    assert!(matches!(e.on_stop(), DataServerMessage::RequestGameUnsubscription(m) if m.0 == "L" && m.1 == "eng"));
    assert!(matches!(e.board_request(), DataServerMessage::RequestBoard(m) if m.0 == "L" && m.1 == 9));
}

#[test]
fn generated_ids_are_alphanumeric() {
    for _ in 0..20 {
        let id = chessbik_server::ids::generate_id();
        assert_eq!(id.len(), chessbik_server::ids::ID_LEN);
        assert!(id.chars().all(|c| c.is_ascii_alphanumeric()));
    }
}

#[test]
fn session_routes_requests_with_its_connection() {
    let ws = Ws::new("1.2.3.4".to_string(), 12);
    assert!(matches!(ws.handle_ws_message(ClientMessage::CreateGame), Routed::Request(DataServerMessage::CreateGame(m)) if m.0 == 12));
    assert!(matches!(
        ws.handle_ws_message(ClientMessage::RequestPlayerToken),
        Routed::Request(DataServerMessage::RequestPlayerToken(m)) if m.0 == "1.2.3.4" && m.1 == 12
    ));
    assert!(matches!(
        ws.handle_ws_message(ClientMessage::RequestGameSubscription("L".to_string(), "t".to_string())),
        Routed::Request(DataServerMessage::RequestGameSubscription(m)) if m.0 == "L" && m.1 == "t" && m.2 == 12
    ));
    assert!(matches!(
        ws.handle_ws_message(ClientMessage::RequestPlayerNameUpdate("L".to_string(), PlayerColor::White, "t".to_string(), "n".to_string())),
        Routed::Request(DataServerMessage::RequestOpponentNameUpdate(m)) if m.0 == "L" && m.1 == PlayerColor::White && m.2 == "t" && m.3 == "n"
    ));
    assert!(matches!(
        ws.handle_ws_message(ClientMessage::RequestMakeMove("L".to_string(), PlayerColor::Black, "t".to_string())),
        Routed::Move(m) if m.lobby == "L" && m.color == PlayerColor::Black && m.token == "t"
    ));
    assert!(matches!(ws.handle_ws_message(ClientMessage::ServerOnly), Routed::Ignore));
    assert!(matches!(
        ws.handle_ws_message(ClientMessage::RequestBoard("L".to_string())),
        Routed::Request(DataServerMessage::RequestBoard(m)) if m.0 == "L" && m.1 == 12
    ));
}

#[test]
fn engine_move_request_is_for_its_own_seat() {
    let m = engine().move_request();
    assert_eq!(m.lobby, "L");
    assert_eq!(m.color, PlayerColor::Black);
    assert_eq!(m.token, "eng");
}

#[test]
fn engine_handling_keeps_its_seat() {
    let mut e = engine();
    e.handle(EngineEvent::Board(BoardStatus::BlacksMove));
    e.handle(EngineEvent::BoardChanged);
    e.handle(EngineEvent::Other);
    assert_eq!(e.color, PlayerColor::Black);
    assert_eq!(e.lobby, "L");
    assert_eq!(e.token, "eng");
    assert_eq!(e.conn, 9);
}
