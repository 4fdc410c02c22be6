//! What each request does, stated over the request's own fields and the
//! server model, independently of the spec functions the handlers are
//! written against.
use vstd::prelude::*;
use crate::board::{BoardStatus, CellFacts};
use crate::clock::Timestamp;
use crate::game::{GameV, teardown_effects};
use crate::engine::{EngineAction, EngineEvent, reaction};
use crate::session::{ClientMessage, Routed, Ws, route_of};
use crate::messages::{EffectV, NoticeV};
use crate::player::{PlayerColor, PlayerV, PlayerRecordV, PlayersV};
use crate::requests::DataServerMessage;
use crate::server::{ServerV, step, conclusion, survivors};
use crate::subscribers::SubscriberSeq;

verus! {

/// The seat a colour plays from.
pub open spec fn seat_for(p: PlayersV, color: PlayerColor) -> PlayerV {
    if color == PlayerColor::White { p.white } else { p.black }
}

/// The seat of the other colour.
pub open spec fn seat_against(p: PlayersV, color: PlayerColor) -> PlayerV {
    if color == PlayerColor::White { p.black } else { p.white }
}

/// `effects` sends `notice` to each subscriber of `subs`, in order, and nothing else.
pub open spec fn tells_each(effects: Seq<EffectV>, subs: SubscriberSeq, notice: NoticeV) -> bool {
    &&& effects.len() == subs.len()
    &&& forall|k: int| 0 <= k < subs.len() ==> #[trigger] effects[k] == EffectV::Send { to: subs[k].1, notice }
}

/// The time as a count of nanoseconds since the epoch.
pub open spec fn clock_nanos(t: Timestamp) -> int {
    t.secs * 1_000_000_000 + t.nanos
}

/// Moving: the request is turned into "play it" exactly when the lobby has a
/// game, the seat of the requested colour is held — by a human or an engine —
/// with the requesting token (whoever sits in the other seat), it is that
/// colour's turn, the starting cell holds no piece of the other colour, and
/// the board lists the move. Otherwise nothing is sent. The game itself only
/// records the time.
pub proof fn law_move_is_played_exactly_when_admitted(s: ServerV, msg: DataServerMessage, now: Timestamp, fresh: Seq<char>)
    requires
        msg is RequestMakeMove,
    ensures
        ({
            let m = msg->RequestMakeMove_0;
            let lobby = m.0@;
            let color = m.1;
            let token = m.2@;
            let facts = m.3;
            let (after, effects) = step(s, msg, now, fresh);
            let held = s.games.contains_key(lobby) && match seat_for(s.games[lobby].players, color) {
                PlayerV::Empty => false,
                PlayerV::Opponent { token: t, .. } => t == token,
                PlayerV::Engine { token: t, .. } => t == token,
            };
            let turn = (facts.status == BoardStatus::WhitesMove && color == PlayerColor::White)
                || (facts.status == BoardStatus::BlacksMove && color == PlayerColor::Black);
            let from_ok = match facts.piece_at_from {
                Some(c) => c == color,
                None => true,
            };
            &&& effects == if held && turn && from_ok && facts.move_listed {
                seq![EffectV::ApplyMove(lobby)]
            } else {
                Seq::<EffectV>::empty()
            }
            &&& s.games.contains_key(lobby) ==> after.games[lobby] == (GameV { last_interaction: now, ..s.games[lobby] })
        }),
{
}

/// After a move: the game is marked finished exactly when no cell, at any
/// position, holds a piece of the side that did not move with a listed move;
/// then every subscriber, in order, is told to ask for the board.
pub proof fn law_mate_exactly_when_no_reply(s: ServerV, lobby: Seq<char>, mover: PlayerColor, cells: Seq<CellFacts>)
    requires
        s.games.contains_key(lobby),
    ensures
        ({
            let e = conclusion(s, lobby, mover, cells);
            let subs = s.games[lobby].subscribers;
            let can_reply = exists|i: int| 0 <= i < cells.len()
                && ((#[trigger] cells[i]).piece matches Some(c) && c != mover) && cells[i].moves > 0;
            &&& can_reply ==> tells_each(e, subs, NoticeV::ConsiderRequestingBoard)
            &&& !can_reply ==> e.len() == subs.len() + 1 && e[0] == EffectV::SetMate(lobby)
                && tells_each(e.drop_first(), subs, NoticeV::ConsiderRequestingBoard)
        }),
{
    let e = conclusion(s, lobby, mover, cells);
    let subs = s.games[lobby].subscribers;
    let can_reply = exists|i: int| 0 <= i < cells.len()
        && ((#[trigger] cells[i]).piece matches Some(c) && c != mover) && cells[i].moves > 0;
    if !can_reply {
        assert(e.drop_first() =~= crate::game::notify_all(subs, NoticeV::ConsiderRequestingBoard));
    }
}

/// Sweeping: a game survives exactly when it has had a request within the
/// last twelve hours (to the nanosecond) and is not a game of two engines
/// watched by exactly two subscribers; survivors are unchanged.
pub proof fn law_sweep_drops_exactly_expired(games: Map<Seq<char>, GameV>, now: Timestamp, lobby: Seq<char>)
    ensures
        ({
            let g = games[lobby];
            let idle = clock_nanos(now) - clock_nanos(g.last_interaction) > 43_200_000_000_000;
            let bots_only = g.subscribers.len() == 2 && g.players.white is Engine && g.players.black is Engine;
            &&& survivors(games, now).contains_key(lobby) <==> (games.contains_key(lobby) && !idle && !bots_only)
            &&& survivors(games, now).contains_key(lobby) ==> survivors(games, now)[lobby] == g
        }),
{
}

/// Leaving: only the leaver's subscription ends, a seat is freed exactly when
/// a human holds it with the leaver's token, and the remaining subscribers
/// are told about the seats exactly when one was freed.
pub proof fn law_leaving_frees_only_own_seats(s: ServerV, msg: DataServerMessage, now: Timestamp, fresh: Seq<char>)
    requires
        msg is RequestGameUnsubscription,
        s.games.contains_key((msg->RequestGameUnsubscription_0).0@),
    ensures
        ({
            let m = msg->RequestGameUnsubscription_0;
            let lobby = m.0@;
            let token = m.1@;
            let (after, effects) = step(s, msg, now, fresh);
            let g = s.games[lobby];
            let h = after.games[lobby];
            let white_leaves = g.players.white matches PlayerV::Opponent { token: t, .. } && t == token;
            let black_leaves = g.players.black matches PlayerV::Opponent { token: t, .. } && t == token;
            &&& h.players.white == if white_leaves { PlayerV::Empty } else { g.players.white }
            &&& h.players.black == if black_leaves { PlayerV::Empty } else { g.players.black }
            &&& forall|e: (Seq<char>, u64)| #[trigger] h.subscribers.contains(e) <==> (g.subscribers.contains(e) && e.0 != token)
            &&& h.last_interaction == now
            &&& (white_leaves || black_leaves) ==> tells_each(effects, h.subscribers, NoticeV::ConsiderRequestingPlayers)
            &&& !(white_leaves || black_leaves) ==> effects.len() == 0
        }),
{
    let m = msg->RequestGameUnsubscription_0;
    let token = m.1@;
    let g = s.games[m.0@];
    let h = step(s, msg, now, fresh).0.games[m.0@];
    let pred = crate::subscribers::other_than(token);
    assert(h.subscribers == g.subscribers.filter(pred));
    assert forall|e: (Seq<char>, u64)| #[trigger] h.subscribers.contains(e) <==> (g.subscribers.contains(e) && e.0 != token) by {
        if h.subscribers.contains(e) {
            g.subscribers.lemma_filter_contains_rev(pred, e);
            let k = choose|k: int| 0 <= k < h.subscribers.len() && h.subscribers[k] == e;
            g.subscribers.lemma_filter_pred(pred, k);
        }
        if g.subscribers.contains(e) && e.0 != token {
            let k = choose|k: int| 0 <= k < g.subscribers.len() && g.subscribers[k] == e;
            g.subscribers.lemma_filter_contains(pred, k);
        }
    }
}

/// Seating a human: on a free seat of the requested colour the message's
/// token and name are seated there, in that order; the other seat and the
/// subscribers stay, and every subscriber is told about the seats. A taken
/// seat is left as it was and nothing is sent.
pub proof fn law_opponent_request_seats_its_sender(s: ServerV, msg: DataServerMessage, now: Timestamp, fresh: Seq<char>)
    requires
        msg is RequestOpponentAddition,
        s.games.contains_key((msg->RequestOpponentAddition_0).0@),
    ensures
        ({
            let m = msg->RequestOpponentAddition_0;
            let (after, effects) = step(s, msg, now, fresh);
            let g = s.games[m.0@];
            let h = after.games[m.0@];
            &&& seat_for(g.players, m.1) is Empty ==> {
                &&& seat_for(h.players, m.1) == PlayerV::Opponent { token: m.2@, name: m.3@ }
                &&& tells_each(effects, g.subscribers, NoticeV::ConsiderRequestingPlayers)
            }
            &&& !(seat_for(g.players, m.1) is Empty) ==> h.players == g.players && effects.len() == 0
            &&& seat_against(h.players, m.1) == seat_against(g.players, m.1)
            &&& h.subscribers == g.subscribers
            &&& h.last_interaction == now
        }),
{
}

/// Asking for an engine: on a free seat of the requested colour an engine
/// with the drawn token, owned by the message's token, is seated; it is
/// started for that lobby, colour and token, then every subscriber is told
/// about the seats. A taken seat is left as it was and nothing is sent.
pub proof fn law_engine_request_seats_an_owned_engine(s: ServerV, msg: DataServerMessage, now: Timestamp, fresh: Seq<char>)
    requires
        msg is RequestEngineAddition,
        s.games.contains_key((msg->RequestEngineAddition_0).0@),
    ensures
        ({
            let m = msg->RequestEngineAddition_0;
            let (after, effects) = step(s, msg, now, fresh);
            let g = s.games[m.0@];
            let h = after.games[m.0@];
            &&& seat_for(g.players, m.1) is Empty ==> {
                &&& seat_for(h.players, m.1) == PlayerV::Engine { token: fresh, owner: m.2@ }
                &&& effects.len() >= 1
                &&& effects[0] == EffectV::StartEngine { lobby: m.0@, color: m.1, token: fresh }
                &&& tells_each(effects.drop_first(), g.subscribers, NoticeV::ConsiderRequestingPlayers)
            }
            &&& !(seat_for(g.players, m.1) is Empty) ==> h.players == g.players && effects.len() == 0
            &&& seat_against(h.players, m.1) == seat_against(g.players, m.1)
            &&& h.subscribers == g.subscribers
            &&& h.last_interaction == now
        }),
{
    let m = msg->RequestEngineAddition_0;
    let effects = step(s, msg, now, fresh).1;
    let g = s.games[m.0@];
    if seat_for(g.players, m.1) is Empty {
        assert(effects.drop_first() =~= crate::game::seats_changed(crate::game::touched(g, now)));
    }
}

/// Renaming: when a human holds the seat of the requested colour with the
/// message's token, that seat gets the message's name and keeps the token,
/// and every subscriber is told; otherwise nothing changes or is sent.
pub proof fn law_rename_request_renames_own_seat(s: ServerV, msg: DataServerMessage, now: Timestamp, fresh: Seq<char>)
    requires
        msg is RequestOpponentNameUpdate,
        s.games.contains_key((msg->RequestOpponentNameUpdate_0).0@),
    ensures
        ({
            let m = msg->RequestOpponentNameUpdate_0;
            let (after, effects) = step(s, msg, now, fresh);
            let g = s.games[m.0@];
            let h = after.games[m.0@];
            let holder = seat_for(g.players, m.1) matches PlayerV::Opponent { token: t, .. } && t == m.2@;
            &&& holder ==> seat_for(h.players, m.1) == PlayerV::Opponent { token: m.2@, name: m.3@ }
                && tells_each(effects, g.subscribers, NoticeV::ConsiderRequestingPlayers)
            &&& !holder ==> h.players == g.players && effects.len() == 0
            &&& seat_against(h.players, m.1) == seat_against(g.players, m.1)
            &&& h.subscribers == g.subscribers
            &&& h.last_interaction == now
        }),
{
}

/// Removing: the seat of the requested colour is freed exactly when a human
/// holds it with the message's token or an engine there is owned by that
/// token; a freed engine is let go first, then every subscriber is told.
pub proof fn law_removal_request_frees_only_own_seat(s: ServerV, msg: DataServerMessage, now: Timestamp, fresh: Seq<char>)
    requires
        msg is RequestPlayerRemoval,
        s.games.contains_key((msg->RequestPlayerRemoval_0).0@),
    ensures
        ({
            let m = msg->RequestPlayerRemoval_0;
            let (after, effects) = step(s, msg, now, fresh);
            let g = s.games[m.0@];
            let h = after.games[m.0@];
            let human = seat_for(g.players, m.1) matches PlayerV::Opponent { token: t, .. } && t == m.2@;
            let engine = seat_for(g.players, m.1) matches PlayerV::Engine { owner: o, .. } && o == m.2@;
            &&& human ==> seat_for(h.players, m.1) is Empty && tells_each(effects, g.subscribers, NoticeV::ConsiderRequestingPlayers)
            &&& engine ==> seat_for(h.players, m.1) is Empty && effects.len() >= 1
                && effects[0] == EffectV::ReleaseEngine(seat_for(g.players, m.1)->Engine_token)
                && tells_each(effects.drop_first(), g.subscribers, NoticeV::ConsiderRequestingPlayers)
            &&& !human && !engine ==> h.players == g.players && effects.len() == 0
            &&& seat_against(h.players, m.1) == seat_against(g.players, m.1)
            &&& h.subscribers == g.subscribers
            &&& h.last_interaction == now
        }),
{
    let m = msg->RequestPlayerRemoval_0;
    let effects = step(s, msg, now, fresh).1;
    let g = s.games[m.0@];
    if seat_for(g.players, m.1) matches PlayerV::Engine { owner: o, .. } && o == m.2@ {
        assert(effects.drop_first() =~= crate::game::seats_changed(crate::game::touched(g, now)));
    }
}

/// Subscribing: afterwards the message's token is subscribed with the
/// message's connection and with no other; every other entry stays; seats
/// stay; nothing is sent.
pub proof fn law_subscription_request_registers_connection(s: ServerV, msg: DataServerMessage, now: Timestamp, fresh: Seq<char>)
    requires
        msg is RequestGameSubscription,
        s.games.contains_key((msg->RequestGameSubscription_0).0@),
    ensures
        ({
            let m = msg->RequestGameSubscription_0;
            let (after, effects) = step(s, msg, now, fresh);
            let g = s.games[m.0@];
            let h = after.games[m.0@];
            &&& h.subscribers.contains((m.1@, m.2))
            &&& forall|e: (Seq<char>, u64)| #[trigger] h.subscribers.contains(e) && e.0 == m.1@ ==> e.1 == m.2
            &&& forall|e: (Seq<char>, u64)| e.0 != m.1@ ==> (#[trigger] h.subscribers.contains(e) <==> g.subscribers.contains(e))
            &&& h.players == g.players
            &&& h.last_interaction == now
            &&& effects.len() == 0
        }),
{
    let m = msg->RequestGameSubscription_0;
    let token = m.1@;
    let g = s.games[m.0@];
    let h = step(s, msg, now, fresh).0.games[m.0@];
    let pred = crate::subscribers::other_than(token);
    let w = g.subscribers.filter(pred);
    assert(h.subscribers == w.push((token, m.2)));
    assert(h.subscribers[w.len() as int] == (token, m.2));
    assert forall|e: (Seq<char>, u64)| #[trigger] h.subscribers.contains(e) && e.0 == token implies e.1 == m.2 by {
        let k = choose|k: int| 0 <= k < h.subscribers.len() && h.subscribers[k] == e;
        if k < w.len() {
            assert(w[k] == e);
            g.subscribers.lemma_filter_pred(pred, k);
        }
    }
    assert forall|e: (Seq<char>, u64)| e.0 != token implies (#[trigger] h.subscribers.contains(e) <==> g.subscribers.contains(e)) by {
        if h.subscribers.contains(e) {
            let k = choose|k: int| 0 <= k < h.subscribers.len() && h.subscribers[k] == e;
            assert(k < w.len());
            assert(w[k] == e);
            assert(w.contains(e));
            g.subscribers.lemma_filter_contains_rev(pred, e);
        }
        if g.subscribers.contains(e) {
            let k = choose|k: int| 0 <= k < g.subscribers.len() && g.subscribers[k] == e;
            g.subscribers.lemma_filter_contains(pred, k);
            let j = choose|j: int| 0 <= j < w.len() && w[j] == e;
            assert(h.subscribers[j] == e);
        }
    }
}

/// Asking for the board: the board of the message's lobby is sent to the
/// message's connection, and only the game's time changes.
pub proof fn law_board_request_answers_the_requester(s: ServerV, msg: DataServerMessage, now: Timestamp, fresh: Seq<char>)
    requires
        msg is RequestBoard,
        s.games.contains_key((msg->RequestBoard_0).0@),
    ensures
        ({
            let m = msg->RequestBoard_0;
            let (after, effects) = step(s, msg, now, fresh);
            &&& effects == seq![EffectV::Send { to: m.1, notice: NoticeV::Board(m.0@) }]
            &&& after.games[m.0@] == (GameV { last_interaction: now, ..s.games[m.0@] })
        }),
{
}

/// What one seat looks like to `requester`: humans by name, with whether the
/// requester holds the seat; engines with whether the requester owns them.
pub open spec fn seen_by(who: PlayerV, requester: Seq<char>) -> PlayerRecordV {
    match who {
        PlayerV::Empty => PlayerRecordV::Empty,
        PlayerV::Engine { token: _, owner } => PlayerRecordV::Engine(owner == requester),
        PlayerV::Opponent { token, name } => PlayerRecordV::Opponent(name, token == requester),
    }
}

/// Asking for the seats: the message's connection gets both seats as the
/// message's token sees them, and only the game's time changes.
pub proof fn law_players_request_reports_as_seen(s: ServerV, msg: DataServerMessage, now: Timestamp, fresh: Seq<char>)
    requires
        msg is RequestPlayers,
        s.games.contains_key((msg->RequestPlayers_0).0@),
    ensures
        ({
            let m = msg->RequestPlayers_0;
            let (after, effects) = step(s, msg, now, fresh);
            let p = s.games[m.0@].players;
            &&& effects.len() == 1
            &&& effects[0] matches EffectV::Send { to, notice: NoticeV::Players(r) }
                && to == m.2 && r.white == seen_by(p.white, m.1@) && r.black == seen_by(p.black, m.1@)
            &&& after.games[m.0@] == (GameV { last_interaction: now, ..s.games[m.0@] })
        }),
{
}

/// Asking for a player token: a known address is sent its token and nothing
/// changes; an unknown address is given the drawn token, which is stored for
/// it and sent. The token goes to the message's connection; games stay.
pub proof fn law_token_request_answers_with_the_address_token(s: ServerV, msg: DataServerMessage, now: Timestamp, fresh: Seq<char>)
    requires
        msg is RequestPlayerToken,
    ensures
        ({
            let m = msg->RequestPlayerToken_0;
            let (after, effects) = step(s, msg, now, fresh);
            &&& after.games == s.games
            &&& after.tokens.contains_key(m.0@)
            &&& s.tokens.contains_key(m.0@) ==> after.tokens == s.tokens
            &&& !s.tokens.contains_key(m.0@) ==> after.tokens == s.tokens.insert(m.0@, fresh)
            &&& effects == seq![EffectV::Send { to: m.1, notice: NoticeV::PlayerToken(after.tokens[m.0@]) }]
        }),
{
}

/// Creating a game: a game with both seats free, no subscribers and the
/// current time is stored under the drawn lobby (replacing any game there);
/// a board is asked for, then the message's connection is told the lobby.
/// Other games and the tokens stay.
pub proof fn law_create_request_makes_an_empty_game(s: ServerV, msg: DataServerMessage, now: Timestamp, fresh: Seq<char>)
    requires
        msg is CreateGame,
    ensures
        ({
            let m = msg->CreateGame_0;
            let (after, effects) = step(s, msg, now, fresh);
            let g = after.games[fresh];
            &&& after.games.contains_key(fresh)
            &&& g.players.white is Empty && g.players.black is Empty
            &&& g.subscribers.len() == 0
            &&& g.last_interaction == now
            &&& forall|l: Seq<char>| l != fresh ==> (#[trigger] after.games.contains_key(l) == s.games.contains_key(l))
            &&& forall|l: Seq<char>| l != fresh && s.games.contains_key(l) ==> #[trigger] after.games[l] == s.games[l]
            &&& after.tokens == s.tokens
            &&& effects == seq![EffectV::NewBoard(fresh), EffectV::Send { to: m.0, notice: NoticeV::ConsiderSubscription(fresh) }]
        }),
{
}

/// Dropping a game asks first for its board to go, then lets go of exactly
/// the engines seated in it, each once.
pub proof fn law_teardown_releases_seated_engines(g: GameV, lobby: Seq<char>, token: Seq<char>)
    ensures
        ({
            let e = teardown_effects(g, lobby);
            let engines = (if g.players.white is Engine { 1int } else { 0int }) + (if g.players.black is Engine { 1int } else { 0int });
            &&& e.len() == 1 + engines
            &&& e[0] == EffectV::DropBoard(lobby)
            &&& e.contains(EffectV::ReleaseEngine(token)) <==> (
                (g.players.white matches PlayerV::Engine { token: t, .. } && t == token)
                || (g.players.black matches PlayerV::Engine { token: t, .. } && t == token))
            &&& forall|i: int| 1 <= i < e.len() ==> #[trigger] e[i] is ReleaseEngine
        }),
{
    let e = teardown_effects(g, lobby);
    if e.contains(EffectV::ReleaseEngine(token)) {
        let k = choose|k: int| 0 <= k < e.len() && e[k] == EffectV::ReleaseEngine(token);
        assert(k >= 1);
    }
    if g.players.white matches PlayerV::Engine { token: t, .. } && t == token {
        assert(e[1] == EffectV::ReleaseEngine(token));
    } else if g.players.black matches PlayerV::Engine { token: t, .. } && t == token {
        assert(e[e.len() - 1] == EffectV::ReleaseEngine(token));
    }
}

/// An engine plans a move exactly on a board where its own colour is to
/// move, asks for the board exactly when told it changed, and otherwise
/// does nothing.
pub proof fn law_engine_moves_only_on_its_turn(event: EngineEvent, color: PlayerColor)
    ensures
        (reaction(event, color) == EngineAction::PlanMove) <==> (
            (event matches EngineEvent::Board(st) && st == BoardStatus::WhitesMove && color == PlayerColor::White)
            || (event matches EngineEvent::Board(st) && st == BoardStatus::BlacksMove && color == PlayerColor::Black)),
        (reaction(event, color) == EngineAction::RequestBoard) <==> (event is BoardChanged),
{
}

/// The lobby a client message names, if any.
pub open spec fn client_lobby(msg: ClientMessage) -> Option<Seq<char>> {
    match msg {
        ClientMessage::RequestBoard(l) => Some(l@),
        ClientMessage::RequestOpponentAddition(l, _, _, _) => Some(l@),
        ClientMessage::RequestEngineAddition(l, _, _) => Some(l@),
        ClientMessage::RequestPlayerRemoval(l, _, _) => Some(l@),
        ClientMessage::RequestGameSubscription(l, _) => Some(l@),
        ClientMessage::RequestGameUnsubscription(l, _) => Some(l@),
        ClientMessage::RequestPlayers(l, _) => Some(l@),
        ClientMessage::RequestPlayerNameUpdate(l, _, _, _) => Some(l@),
        ClientMessage::RequestMakeMove(l, _, _) => Some(l@),
        _ => None,
    }
}

/// The player token a client message carries, if any.
pub open spec fn client_token(msg: ClientMessage) -> Option<Seq<char>> {
    match msg {
        ClientMessage::RequestOpponentAddition(_, _, t, _) => Some(t@),
        ClientMessage::RequestEngineAddition(_, _, t) => Some(t@),
        ClientMessage::RequestPlayerRemoval(_, _, t) => Some(t@),
        ClientMessage::RequestGameSubscription(_, t) => Some(t@),
        ClientMessage::RequestGameUnsubscription(_, t) => Some(t@),
        ClientMessage::RequestPlayers(_, t) => Some(t@),
        ClientMessage::RequestPlayerNameUpdate(_, _, t, _) => Some(t@),
        ClientMessage::RequestMakeMove(_, _, t) => Some(t@),
        _ => None,
    }
}

/// The lobby, token and connection a data-server request carries, if any.
pub open spec fn request_fields(r: DataServerMessage) -> (Option<Seq<char>>, Option<Seq<char>>, Option<u64>) {
    match r {
        DataServerMessage::CreateGame(m) => (None, None, Some(m.0)),
        DataServerMessage::RequestGameSubscription(m) => (Some(m.0@), Some(m.1@), Some(m.2)),
        DataServerMessage::RequestGameUnsubscription(m) => (Some(m.0@), Some(m.1@), None),
        DataServerMessage::RequestBoard(m) => (Some(m.0@), None, Some(m.1)),
        DataServerMessage::RequestEngineAddition(m) => (Some(m.0@), Some(m.2@), None),
        DataServerMessage::RequestMakeMove(m) => (Some(m.0@), Some(m.2@), None),
        DataServerMessage::RequestOpponentAddition(m) => (Some(m.0@), Some(m.2@), None),
        DataServerMessage::RequestOpponentNameUpdate(m) => (Some(m.0@), Some(m.2@), None),
        DataServerMessage::RequestPlayerRemoval(m) => (Some(m.0@), Some(m.2@), None),
        DataServerMessage::RequestPlayerToken(m) => (None, None, Some(m.1)),
        DataServerMessage::RequestPlayers(m) => (Some(m.0@), Some(m.1@), Some(m.2)),
    }
}

/// The colour and name a client message carries, if any.
pub open spec fn client_color_name(msg: ClientMessage) -> (Option<PlayerColor>, Option<Seq<char>>) {
    match msg {
        ClientMessage::RequestOpponentAddition(_, c, _, n) => (Some(c), Some(n@)),
        ClientMessage::RequestEngineAddition(_, c, _) => (Some(c), None),
        ClientMessage::RequestPlayerRemoval(_, c, _) => (Some(c), None),
        ClientMessage::RequestPlayerNameUpdate(_, c, _, n) => (Some(c), Some(n@)),
        ClientMessage::RequestMakeMove(_, c, _) => (Some(c), None),
        _ => (None, None),
    }
}

/// The colour and name a data-server request carries, if any.
pub open spec fn request_color_name(r: DataServerMessage) -> (Option<PlayerColor>, Option<Seq<char>>) {
    match r {
        DataServerMessage::RequestEngineAddition(m) => (Some(m.1), None),
        DataServerMessage::RequestMakeMove(m) => (Some(m.1), None),
        DataServerMessage::RequestOpponentAddition(m) => (Some(m.1), Some(m.3@)),
        DataServerMessage::RequestOpponentNameUpdate(m) => (Some(m.1), Some(m.3@)),
        DataServerMessage::RequestPlayerRemoval(m) => (Some(m.1), None),
        _ => (None, None),
    }
}

/// A routed client message keeps the lobby, token, colour and name it named, and every
/// reply goes to the session's own connection; only the server's own
/// messages are dropped.
pub proof fn law_routing_keeps_lobby_token_and_connection(ws: Ws, msg: ClientMessage)
    ensures
        route_of(ws, msg) is Ignore <==> msg is ServerOnly,
        route_of(ws, msg) matches Routed::Request(r) ==> {
            &&& request_fields(r).0 == client_lobby(msg)
            &&& request_fields(r).1 == client_token(msg)
            &&& request_fields(r).2 matches Some(c) ==> c == ws.conn
            &&& request_color_name(r) == client_color_name(msg)
        },
        route_of(ws, msg) matches Routed::Move(mv) ==> client_lobby(msg) == Some(mv.lobby@)
            && client_token(msg) == Some(mv.token@) && client_color_name(msg).0 == Some(mv.color),
{
}

} // verus!
