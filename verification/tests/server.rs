use chessbik_server::board::{BoardStatus, CellFacts, MoveFacts};
use chessbik_server::clock::{Timestamp, IDLE_LIMIT_NANOS};
use chessbik_server::ids::ID_LEN;
use chessbik_server::messages::{Effect, Notice};
use chessbik_server::player::{Player, PlayerColor, PlayerRecord};
use chessbik_server::requests::{
    CreateGameMessage, DataServerMessage, RequestBoardMessage, RequestGameSubscriptionMessage,
    RequestPlayerTokenMessage, RequestPlayersMessage,
};
use chessbik_server::server::DataServer;

/// Twelve hours in seconds.
const LIMIT_SECS: i64 = 43_200;

fn at(secs: i64) -> Timestamp {
    Timestamp { secs, nanos: 0 }
}

fn s(x: &str) -> String {
    x.to_string()
}

fn server_with_game(lobby: &str, now: i64) -> DataServer {
    let mut server = DataServer::new();
    server.create_game_with(s(lobby), 1, at(now));
    server
}

fn is_id(x: &str) -> bool {
    x.len() == ID_LEN && x.chars().all(|c| c.is_ascii_alphanumeric())
}

fn sends_to(effects: &[Effect]) -> Vec<u64> {
    effects
        .iter()
        .filter_map(|e| match e {
            Effect::Send { to, .. } => Some(*to),
            _ => None,
        })
        .collect()
}

#[test]
fn create_game_with_sets_up_board_and_tells_creator() {
    let mut server = DataServer::new();
    let out = server.create_game_with(s("lobbyA"), 7, at(100));
    assert_eq!(out.len(), 2);
    assert!(matches!(&out[0], Effect::NewBoard(l) if l == "lobbyA"));
    assert!(matches!(&out[1], Effect::Send { to: 7, notice: Notice::ConsiderSubscription(l) } if l == "lobbyA"));
    let game = server.games.get("lobbyA").unwrap();
    assert_eq!(game.last_interaction, at(100));
    assert!(matches!(game.players.white, Player::Empty));
    assert!(matches!(game.players.black, Player::Empty));
    assert_eq!(game.subscribers.len(), 0);
}

#[test]
fn create_game_draws_a_fourteen_character_lobby() {
    let mut server = DataServer::new();
    let out = server.create_game(3, at(5));
    let lobby = match &out[0] {
        Effect::NewBoard(l) => l.clone(),
        other => panic!("unexpected {:?}", other),
    };
    assert!(is_id(&lobby));
    assert!(matches!(&out[1], Effect::Send { to: 3, notice: Notice::ConsiderSubscription(l) } if *l == lobby));
    assert!(server.games.contains_key(&lobby));
}

#[test]
fn seating_a_human_notifies_every_subscriber() {
    let mut server = server_with_game("L", 0);
    server.subscribe(&s("L"), s("tokA"), 10, at(1));
    server.subscribe(&s("L"), s("tokB"), 11, at(2));
    let out = server.add_opponent(&s("L"), PlayerColor::White, s("tokA"), s("Ann"), at(3));
    assert_eq!(sends_to(&out), vec![10, 11]);
    assert!(out.iter().all(|e| matches!(e, Effect::Send { notice: Notice::ConsiderRequestingPlayers, .. })));
    let game = server.games.get("L").unwrap();
    assert!(matches!(&game.players.white, Player::Opponent { token, name } if token == "tokA" && name == "Ann"));
    assert_eq!(game.last_interaction, at(3));
}

#[test]
fn taken_seat_is_not_overwritten() {
    let mut server = server_with_game("L", 0);
    server.add_opponent(&s("L"), PlayerColor::Black, s("tokA"), s("Ann"), at(1));
    let out = server.add_opponent(&s("L"), PlayerColor::Black, s("tokB"), s("Bob"), at(2));
    assert!(out.is_empty());
    let out = server.add_engine_with(&s("L"), PlayerColor::Black, s("tokB"), s("engine"), at(3));
    assert!(out.is_empty());
    let game = server.games.get("L").unwrap();
    assert!(matches!(&game.players.black, Player::Opponent { token, .. } if token == "tokA"));
    assert_eq!(game.last_interaction, at(3));
}

#[test]
fn only_the_holder_removes_a_human() {
    let mut server = server_with_game("L", 0);
    server.subscribe(&s("L"), s("watcher"), 20, at(0));
    server.add_opponent(&s("L"), PlayerColor::White, s("tokA"), s("Ann"), at(0));
    let out = server.remove_player(&s("L"), PlayerColor::White, &s("tokB"), at(1));
    assert!(out.is_empty());
    assert!(matches!(server.games.get("L").unwrap().players.white, Player::Opponent { .. }));
    let out = server.remove_player(&s("L"), PlayerColor::White, &s("tokA"), at(2));
    assert_eq!(sends_to(&out), vec![20]);
    assert!(matches!(server.games.get("L").unwrap().players.white, Player::Empty));
}

#[test]
fn engine_is_started_and_released_by_its_owner() {
    let mut server = server_with_game("L", 0);
    server.subscribe(&s("L"), s("owner"), 30, at(0));
    let out = server.add_engine(&s("L"), PlayerColor::Black, s("owner"), at(1));
    assert_eq!(out.len(), 2);
    let token = match &out[0] {
        Effect::StartEngine { lobby, color: PlayerColor::Black, token } if lobby == "L" => token.clone(),
        other => panic!("unexpected {:?}", other),
    };
    assert!(is_id(&token));
    assert!(matches!(&out[1], Effect::Send { to: 30, notice: Notice::ConsiderRequestingPlayers }));
    assert!(matches!(&server.games.get("L").unwrap().players.black, Player::Engine { token: t, owner } if *t == token && owner == "owner"));

    let out = server.remove_player(&s("L"), PlayerColor::Black, &token, at(2));
    assert!(out.is_empty());
    let out = server.remove_player(&s("L"), PlayerColor::Black, &s("owner"), at(3));
    assert!(matches!(&out[0], Effect::ReleaseEngine(t) if *t == token));
    assert!(matches!(&out[1], Effect::Send { to: 30, notice: Notice::ConsiderRequestingPlayers }));
    assert!(matches!(server.games.get("L").unwrap().players.black, Player::Empty));
}

#[test]
fn only_the_holder_renames() {
    let mut server = server_with_game("L", 0);
    server.add_opponent(&s("L"), PlayerColor::White, s("tokA"), s("Ann"), at(0));
    let out = server.rename_opponent(&s("L"), PlayerColor::White, &s("tokB"), s("Eve"), at(1));
    assert!(out.is_empty());
    server.subscribe(&s("L"), s("tokA"), 40, at(1));
    let out = server.rename_opponent(&s("L"), PlayerColor::White, &s("tokA"), s("Annie"), at(2));
    assert_eq!(sends_to(&out), vec![40]);
    assert!(matches!(&server.games.get("L").unwrap().players.white, Player::Opponent { token, name } if token == "tokA" && name == "Annie"));
}

#[test]
fn renaming_an_engine_seat_does_nothing() {
    let mut server = server_with_game("L", 0);
    server.add_engine_with(&s("L"), PlayerColor::White, s("owner"), s("eng"), at(0));
    let out = server.rename_opponent(&s("L"), PlayerColor::White, &s("eng"), s("X"), at(1));
    assert!(out.is_empty());
    assert!(matches!(&server.games.get("L").unwrap().players.white, Player::Engine { .. }));
}

#[test]
fn unsubscribing_frees_human_seats_but_not_engines() {
    let mut server = server_with_game("L", 0);
    server.subscribe(&s("L"), s("tokA"), 1, at(0));
    server.subscribe(&s("L"), s("tokB"), 2, at(0));
    server.add_opponent(&s("L"), PlayerColor::White, s("tokA"), s("Ann"), at(0));
    server.add_opponent(&s("L"), PlayerColor::Black, s("tokA"), s("Ann"), at(0));
    let out = server.unsubscribe(&s("L"), &s("tokA"), at(5));
    assert_eq!(sends_to(&out), vec![2]);
    let game = server.games.get("L").unwrap();
    assert!(matches!(game.players.white, Player::Empty));
    assert!(matches!(game.players.black, Player::Empty));
    assert_eq!(game.subscribers.recipients(), vec![2]);
    drop(game);

    server.add_engine_with(&s("L"), PlayerColor::White, s("tokB"), s("eng"), at(6));
    let out = server.unsubscribe(&s("L"), &s("eng"), at(7));
    assert!(out.is_empty());
    assert!(matches!(server.games.get("L").unwrap().players.white, Player::Engine { .. }));
}

#[test]
fn resubscribing_replaces_the_connection() {
    let mut server = server_with_game("L", 0);
    server.subscribe(&s("L"), s("tokA"), 1, at(0));
    server.subscribe(&s("L"), s("tokA"), 9, at(0));
    let game = server.games.get("L").unwrap();
    assert_eq!(game.subscribers.len(), 1);
    assert_eq!(game.subscribers.recipients(), vec![9]);
}

#[test]
fn players_record_marks_the_requesters_seats() {
    let mut server = server_with_game("L", 0);
    server.add_opponent(&s("L"), PlayerColor::White, s("tokA"), s("Ann"), at(0));
    server.add_engine_with(&s("L"), PlayerColor::Black, s("tokA"), s("eng"), at(0));
    let out = server.request_players(&s("L"), &s("tokA"), 4, at(1));
    match &out[..] {
        [Effect::Send { to: 4, notice: Notice::Players(rec) }] => {
            assert!(matches!(&rec.white, PlayerRecord::Opponent(name, true) if name == "Ann"));
            assert!(matches!(rec.black, PlayerRecord::Engine(true)));
        },
        other => panic!("unexpected {:?}", other),
    }
    let out = server.request_players(&s("L"), &s("tokZ"), 4, at(1));
    match &out[..] {
        [Effect::Send { notice: Notice::Players(rec), .. }] => {
            assert!(matches!(&rec.white, PlayerRecord::Opponent(_, false)));
            assert!(matches!(rec.black, PlayerRecord::Engine(false)));
        },
        other => panic!("unexpected {:?}", other),
    }
}

#[test]
fn new_game_reports_free_seats() {
    let mut server = server_with_game("L", 0);
    let out = server.request_players(&s("L"), &s("anyone"), 2, at(1));
    match &out[..] {
        [Effect::Send { to: 2, notice: Notice::Players(rec) }] => {
            assert!(matches!(rec.white, PlayerRecord::Empty));
            assert!(matches!(rec.black, PlayerRecord::Empty));
        },
        other => panic!("unexpected {:?}", other),
    }
}

#[test]
fn board_request_goes_to_the_requester() {
    let mut server = server_with_game("L", 0);
    let out = server.request_board(&s("L"), 8, at(9));
    assert!(matches!(&out[..], [Effect::Send { to: 8, notice: Notice::Board(l) }] if l == "L"));
    assert_eq!(server.games.get("L").unwrap().last_interaction, at(9));
}

#[test]
fn player_token_is_kept_per_address() {
    let mut server = DataServer::new();
    let first = server.request_player_token(s("10.0.0.1"), 1);
    let token = match &first[..] {
        [Effect::Send { to: 1, notice: Notice::PlayerToken(t) }] => t.clone(),
        other => panic!("unexpected {:?}", other),
    };
    assert!(is_id(&token));
    let second = server.request_player_token(s("10.0.0.1"), 2);
    assert!(matches!(&second[..], [Effect::Send { to: 2, notice: Notice::PlayerToken(t) }] if *t == token));
    let other = server.request_player_token(s("10.0.0.2"), 3);
    assert!(matches!(&other[..], [Effect::Send { to: 3, notice: Notice::PlayerToken(_) }]));
    assert_eq!(server.tokens.len(), 2);
}

#[test]
fn player_token_with_uses_fresh_only_for_unknown_addresses() {
    let mut server = DataServer::new();
    let out = server.request_player_token_with(s("a"), 1, s("first"));
    assert!(matches!(&out[..], [Effect::Send { notice: Notice::PlayerToken(t), .. }] if t == "first"));
    let out = server.request_player_token_with(s("a"), 1, s("second"));
    assert!(matches!(&out[..], [Effect::Send { notice: Notice::PlayerToken(t), .. }] if t == "first"));
}

#[test]
fn requests_about_unknown_lobbies_are_ignored() {
    let mut server = server_with_game("L", 0);
    assert!(server.request_board(&s("nope"), 1, at(5)).is_empty());
    assert!(server.add_opponent(&s("nope"), PlayerColor::White, s("t"), s("n"), at(5)).is_empty());
    assert!(server.subscribe(&s("nope"), s("t"), 1, at(5)).is_empty());
    assert!(!server.games.contains_key("nope"));
    assert_eq!(server.games.get("L").unwrap().last_interaction, at(0));
}

fn facts(status: BoardStatus, piece: Option<PlayerColor>, listed: bool) -> MoveFacts {
    MoveFacts { status, piece_at_from: piece, move_listed: listed }
}

#[test]
fn move_is_played_only_by_the_seat_holder_on_its_turn() {
    let mut server = server_with_game("L", 0);
    server.add_opponent(&s("L"), PlayerColor::White, s("tokA"), s("Ann"), at(0));
    let ok = facts(BoardStatus::WhitesMove, Some(PlayerColor::White), true);
    let out = server.request_move(&s("L"), PlayerColor::White, &s("tokA"), ok, at(1));
    assert!(matches!(&out[..], [Effect::ApplyMove(l)] if l == "L"));
    assert!(server.request_move(&s("L"), PlayerColor::White, &s("tokB"), ok, at(2)).is_empty());
    assert!(server.request_move(&s("L"), PlayerColor::Black, &s("tokA"), ok, at(3)).is_empty());
    let black_turn = facts(BoardStatus::BlacksMove, Some(PlayerColor::White), true);
    assert!(server.request_move(&s("L"), PlayerColor::White, &s("tokA"), black_turn, at(4)).is_empty());
    let mate = facts(BoardStatus::Mate, Some(PlayerColor::White), true);
    assert!(server.request_move(&s("L"), PlayerColor::White, &s("tokA"), mate, at(5)).is_empty());
    let enemy = facts(BoardStatus::WhitesMove, Some(PlayerColor::Black), true);
    assert!(server.request_move(&s("L"), PlayerColor::White, &s("tokA"), enemy, at(6)).is_empty());
    let unlisted = facts(BoardStatus::WhitesMove, Some(PlayerColor::White), false);
    assert!(server.request_move(&s("L"), PlayerColor::White, &s("tokA"), unlisted, at(7)).is_empty());
    let empty_cell = facts(BoardStatus::WhitesMove, None, true);
    assert_eq!(server.request_move(&s("L"), PlayerColor::White, &s("tokA"), empty_cell, at(8)).len(), 1);
    assert_eq!(server.games.get("L").unwrap().last_interaction, at(8));
}

#[test]
fn engine_token_may_move_for_its_seat() {
    let mut server = server_with_game("L", 0);
    server.add_engine_with(&s("L"), PlayerColor::Black, s("owner"), s("eng"), at(0));
    let ok = facts(BoardStatus::BlacksMove, Some(PlayerColor::Black), true);
    assert_eq!(server.request_move(&s("L"), PlayerColor::Black, &s("eng"), ok, at(1)).len(), 1);
    assert!(server.request_move(&s("L"), PlayerColor::Black, &s("owner"), ok, at(1)).is_empty());
}

fn cell(piece: Option<PlayerColor>, moves: usize) -> CellFacts {
    CellFacts { piece, moves }
}

#[test]
fn conclusion_marks_mate_when_the_other_side_is_stuck() {
    let mut server = server_with_game("L", 0);
    server.subscribe(&s("L"), s("w"), 5, at(0));
    let stuck = vec![cell(Some(PlayerColor::White), 3), cell(Some(PlayerColor::Black), 0), cell(None, 0)];
    let out = server.conclude_move(&s("L"), PlayerColor::White, &stuck);
    assert!(matches!(&out[0], Effect::SetMate(l) if l == "L"));
    assert!(matches!(&out[1], Effect::Send { to: 5, notice: Notice::ConsiderRequestingBoard }));
    assert_eq!(out.len(), 2);

    let free = vec![cell(Some(PlayerColor::White), 3), cell(Some(PlayerColor::Black), 1)];
    let out = server.conclude_move(&s("L"), PlayerColor::White, &free);
    assert!(matches!(&out[..], [Effect::Send { to: 5, notice: Notice::ConsiderRequestingBoard }]));
    assert!(server.conclude_move(&s("nope"), PlayerColor::White, &free).is_empty());
}

#[test]
fn sweep_drops_idle_games_and_engine_only_games() {
    let mut server = DataServer::new();
    server.create_game_with(s("old"), 1, at(0));
    server.create_game_with(s("edge"), 1, at(1));
    server.create_game_with(s("bots"), 1, at(LIMIT_SECS));
    server.create_game_with(s("live"), 1, at(LIMIT_SECS));
    server.add_engine_with(&s("bots"), PlayerColor::White, s("o"), s("e1"), at(LIMIT_SECS));
    server.add_engine_with(&s("bots"), PlayerColor::Black, s("o"), s("e2"), at(LIMIT_SECS));
    server.subscribe(&s("bots"), s("e1"), 2, at(LIMIT_SECS));
    server.subscribe(&s("bots"), s("e2"), 3, at(LIMIT_SECS));
    server.add_engine_with(&s("live"), PlayerColor::White, s("o"), s("e3"), at(LIMIT_SECS));
    server.add_engine_with(&s("live"), PlayerColor::Black, s("o"), s("e4"), at(LIMIT_SECS));
    server.subscribe(&s("live"), s("e3"), 4, at(LIMIT_SECS));

    let out = server.sweep_at(at(LIMIT_SECS + 1));
    assert!(!server.games.contains_key("old"));
    assert!(server.games.contains_key("edge"));
    assert!(!server.games.contains_key("bots"));
    assert!(server.games.contains_key("live"));
    let dropped: Vec<String> = out
        .iter()
        .filter_map(|e| match e {
            Effect::DropBoard(l) => Some(l.clone()),
            _ => None,
        })
        .collect();
    assert_eq!(dropped.len(), 2);
    assert!(dropped.contains(&s("old")) && dropped.contains(&s("bots")));
    let released: Vec<String> = out
        .iter()
        .filter_map(|e| match e {
            Effect::ReleaseEngine(t) => Some(t.clone()),
            _ => None,
        })
        .collect();
    assert_eq!(released, vec![s("e1"), s("e2")]);
    assert_eq!(out.len(), 4);
}

#[test]
fn sweep_counts_nanoseconds() {
    assert_eq!(IDLE_LIMIT_NANOS, LIMIT_SECS as i128 * 1_000_000_000);
    let mut server = server_with_game("L", 1);
    server.create_game_with(s("M"), 1, Timestamp { secs: 1, nanos: 2 });
    let out = server.sweep_at(Timestamp { secs: 1 + LIMIT_SECS, nanos: 1 });
    assert!(matches!(&out[..], [Effect::DropBoard(l)] if l == "L"));
    assert!(server.games.contains_key("M"));
}

#[test]
fn with_game_keeps_the_game_in_place() {
    let mut server = server_with_game("L", 0);
    server.add_opponent(&s("L"), PlayerColor::White, s("tokA"), s("Ann"), at(0));
    assert!(server.with_game(&s("L"), at(77)));
    let game = server.games.get("L").unwrap();
    assert_eq!(game.last_interaction, at(77));
    assert!(matches!(&game.players.white, Player::Opponent { token, .. } if token == "tokA"));
    drop(game);
    assert!(!server.with_game(&s("nope"), at(78)));
    assert_eq!(server.games.len(), 1);
}

#[test]
fn sweep_keeps_everything_fresh() {
    let mut server = server_with_game("L", 50);
    assert!(server.sweep_at(at(50 + LIMIT_SECS)).is_empty());
    assert!(server.games.contains_key("L"));
}

#[test]
fn handle_at_dispatches_requests() {
    let mut server = DataServer::new();
    let out = server.handle_at(DataServerMessage::CreateGame(CreateGameMessage(1)), at(10));
    let lobby = match &out[0] {
        Effect::NewBoard(l) => l.clone(),
        other => panic!("unexpected {:?}", other),
    };
    let out = server.handle_at(
        DataServerMessage::RequestGameSubscription(RequestGameSubscriptionMessage(lobby.clone(), s("t"), 2)), at(11));
    assert!(out.is_empty());
    let out = server.handle_at(DataServerMessage::RequestBoard(RequestBoardMessage(lobby.clone(), 3)), at(12));
    assert!(matches!(&out[..], [Effect::Send { to: 3, notice: Notice::Board(l) }] if *l == lobby));
    let out = server.handle_at(DataServerMessage::RequestPlayers(RequestPlayersMessage(lobby.clone(), s("t"), 4)), at(13));
    assert!(matches!(&out[..], [Effect::Send { to: 4, notice: Notice::Players(_) }]));
    let out = server.handle_at(DataServerMessage::RequestPlayerToken(RequestPlayerTokenMessage(s("addr"), 5)), at(14));
    assert!(matches!(&out[..], [Effect::Send { to: 5, notice: Notice::PlayerToken(_) }]));
    assert_eq!(server.games.get(&lobby).unwrap().last_interaction, at(13));
}

#[test]
fn handle_uses_the_clock() {
    let mut server = server_with_game("L", 0);
    let out = server.handle(DataServerMessage::RequestBoard(RequestBoardMessage(s("L"), 1)));
    assert_eq!(out.len(), 1);
    assert!(server.games.get("L").unwrap().last_interaction.secs > 1_600_000_000);
}

#[test]
fn sweep_by_the_clock_drops_games_from_long_ago() {
    let mut server = server_with_game("L", 0);
    let out = server.sweep();
    assert!(matches!(&out[..], [Effect::DropBoard(l)] if l == "L"));
    assert!(server.games.is_empty());
}
