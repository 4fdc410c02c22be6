//! Properties of the server that span requests.
use vstd::prelude::*;
use crate::clock::Timestamp;
use crate::board::{CellFacts, MoveFacts, turn_of, reply_exists};
use crate::game::{GameV, holds_seat, expired, touched, after_unsubscribe};
use crate::messages::{EffectV, NoticeV};
use crate::player::{
    PlayerColor, PlayersV, other_side, PlayerV, PlayerRecordV, PlayersRecordV, seat, seat_is_free,
    seat_opponent, seat_engine, clear_seat, may_clear, vacate, seat_record, seats_record,
};
use crate::requests::DataServerMessage;
use crate::server::{
    ServerV, token_outcome, creation_outcome, players_outcome, move_outcome,
    unsubscription_outcome, survivors, step, conclusion, with_game,
};
use crate::subscribers::{SubscriberSeq, keys_unique, with_subscriber, has_token, lemma_without_token};

verus! {

/// A human who takes a free seat and then asks to leave it frees it again:
/// the seats are as before.
pub proof fn law_seat_then_remove_restores(p: PlayersV, color: PlayerColor, token: Seq<char>, name: Seq<char>)
    requires
        seat_is_free(p, color),
    ensures
        clear_seat(seat_opponent(p, color, token, name), color, token) == p,
{
}

/// The owner of an engine seated on a free seat can remove it again: the
/// seats are as before.
pub proof fn law_engine_owner_removes(p: PlayersV, color: PlayerColor, engine_token: Seq<char>, owner: Seq<char>)
    requires
        seat_is_free(p, color),
    ensures
        clear_seat(seat_engine(p, color, engine_token, owner), color, owner) == p,
{
}

/// A taken seat is never given to someone else: seating on it changes nothing.
pub proof fn law_taken_seat_is_kept(p: PlayersV, color: PlayerColor, token: Seq<char>, name: Seq<char>, owner: Seq<char>)
    requires
        !seat_is_free(p, color),
    ensures
        seat_opponent(p, color, token, name) == p,
        seat_engine(p, color, token, owner) == p,
{
}

/// A seat is only freed by its holder (a human) or its owner (an engine),
/// and freeing never touches the other seat.
pub proof fn law_only_holder_frees(p: PlayersV, color: PlayerColor, requester: Seq<char>)
    ensures
        clear_seat(p, color, requester) != p ==> may_clear(p, color, requester),
        seat(clear_seat(p, color, requester), other_side(color)) == seat(p, other_side(color)),
{
}

/// After the holder of a token leaves, no human seat is held with that token,
/// and engine seats are kept.
pub proof fn law_leaver_holds_no_seat(p: PlayersV, token: Seq<char>)
    ensures
        !(vacate(p, token).white matches PlayerV::Opponent { token: t, .. } && t == token),
        !(vacate(p, token).black matches PlayerV::Opponent { token: t, .. } && t == token),
        p.white is Engine ==> vacate(p, token).white == p.white,
        p.black is Engine ==> vacate(p, token).black == p.black,
{
}

/// A human who took a free seat sees it as theirs, under their name.
pub proof fn law_own_seat_is_reported_as_own(p: PlayersV, color: PlayerColor, token: Seq<char>, name: Seq<char>)
    requires
        seat_is_free(p, color),
    ensures
        seat_record(seat(seat_opponent(p, color, token, name), color), token) == PlayerRecordV::Opponent(name, true),
{
}

/// An engine seated on a free seat holds it with its own token, so the
/// moves it sends for that side are judged, not refused outright.
pub proof fn law_seated_engine_holds_its_seat(p: PlayersV, color: PlayerColor, engine_token: Seq<char>, owner: Seq<char>)
    requires
        seat_is_free(p, color),
    ensures
        holds_seat(seat_engine(p, color, engine_token, owner), color, engine_token),
{
}

/// Subscribing keeps subscriber tokens unique and the token is subscribed
/// afterwards; subscribing again with the same token does not add an entry.
pub proof fn law_subscription_keeps_tokens_unique(s: SubscriberSeq, token: Seq<char>, conn: u64, conn2: u64)
    requires
        keys_unique(s),
    ensures
        keys_unique(with_subscriber(s, token, conn)),
        has_token(with_subscriber(s, token, conn), token),
        with_subscriber(with_subscriber(s, token, conn), token, conn2).len() == with_subscriber(s, token, conn).len(),
{
    lemma_without_token(s, token);
    let once = with_subscriber(s, token, conn);
    let w = crate::subscribers::without_token(s, token);
    assert(once[w.len() as int].0 == token);
    assert forall|i: int, j: int| 0 <= i < j < once.len() implies #[trigger] once[i].0 != #[trigger] once[j].0 by {
        if j == w.len() {
            assert(once[i] == w[i]);
            assert(!has_token(w, token));
        } else {
            assert(once[i] == w[i] && once[j] == w[j]);
        }
    }
    lemma_without_token(once, token);
    lemma_removing_present_token_shrinks(once, token);
}

/// Removing a token that occurs exactly once shortens the list by one.
proof fn lemma_removing_present_token_shrinks(s: SubscriberSeq, token: Seq<char>)
    requires
        keys_unique(s),
        s.len() > 0,
        s.last().0 == token,
    ensures
        crate::subscribers::without_token(s, token).len() + 1 == s.len(),
{
    let init = s.drop_last();
    assert(init.push(s.last()) =~= s);
    init.lemma_filter_push(s.last(), crate::subscribers::other_than(token));
    assert forall|i: int| 0 <= i < init.len() implies crate::subscribers::other_than(token)(init[i]) by {
        assert(s[i] == init[i]);
    }
    lemma_filter_all_pass(init, crate::subscribers::other_than(token));
}

/// Filtering a sequence whose every element passes gives the sequence back.
proof fn lemma_filter_all_pass(s: SubscriberSeq, pred: spec_fn((Seq<char>, u64)) -> bool)
    requires
        forall|i: int| 0 <= i < s.len() ==> pred(#[trigger] s[i]),
    ensures
        s.filter(pred) == s,
    decreases s.len(),
{
    if s.len() == 0 {
        reveal(Seq::filter);
    } else {
        let init = s.drop_last();
        assert(init.push(s.last()) =~= s);
        assert forall|i: int| 0 <= i < init.len() implies pred(#[trigger] init[i]) by {
            assert(s[i] == init[i]);
        }
        lemma_filter_all_pass(init, pred);
        init.lemma_filter_push(s.last(), pred);
    }
}

/// The player token of an address never changes: asking twice gives the same
/// token and the second request changes nothing.
pub proof fn law_token_is_stable(s: ServerV, addr: Seq<char>, conn1: u64, conn2: u64, fresh1: Seq<char>, fresh2: Seq<char>)
    ensures
        ({
            let (s1, e1) = token_outcome(s, addr, conn1, fresh1);
            let (s2, e2) = token_outcome(s1, addr, conn2, fresh2);
            &&& s2 == s1
            &&& s1.tokens.contains_key(addr)
            &&& e1 == seq![EffectV::Send { to: conn1, notice: NoticeV::PlayerToken(s1.tokens[addr]) }]
            &&& e2 == seq![EffectV::Send { to: conn2, notice: NoticeV::PlayerToken(s1.tokens[addr]) }]
        }),
{
}

/// A game just created has both seats free.
pub proof fn law_new_game_has_free_seats(s: ServerV, lobby: Seq<char>, conn: u64, now: Timestamp, token: Seq<char>, conn2: u64, now2: Timestamp)
    ensures
        players_outcome(creation_outcome(s, lobby, conn, now).0, lobby, token, conn2, now2).1 == seq![
            EffectV::Send {
                to: conn2,
                notice: NoticeV::Players(PlayersRecordV { white: PlayerRecordV::Empty, black: PlayerRecordV::Empty }),
            },
        ],
{
}

/// A move is only played for a seat held by the requesting token, on that
/// side's turn, from a cell without an enemy piece, when the board lists it.
pub proof fn law_move_needs_seat_and_turn(s: ServerV, lobby: Seq<char>, color: PlayerColor, token: Seq<char>, facts: MoveFacts, now: Timestamp)
    ensures
        move_outcome(s, lobby, color, token, facts, now).1.len() > 0 ==> {
            &&& s.games.contains_key(lobby)
            &&& holds_seat(s.games[lobby].players, color, token)
            &&& turn_of(facts.status, color)
            &&& !(facts.piece_at_from matches Some(c) && c != color)
            &&& facts.move_listed
        },
{
}

/// After a move in an existing game, the game is marked finished exactly when
/// the other side has no piece with a move; either way every subscriber is
/// told to ask for the board.
pub proof fn law_mate_iff_stuck(s: ServerV, lobby: Seq<char>, mover: PlayerColor, cells: Seq<CellFacts>)
    requires
        s.games.contains_key(lobby),
    ensures
        ({
            let e = conclusion(s, lobby, mover, cells);
            let n = s.games[lobby].subscribers.len();
            &&& !reply_exists(cells, mover) ==> e.len() == n + 1 && e[0] == EffectV::SetMate(lobby)
            &&& reply_exists(cells, mover) ==> e.len() == n
            &&& forall|i: int| 0 <= i < e.len() ==> (#[trigger] e[i] is SetMate) ==> i == 0 && !reply_exists(cells, mover)
        }),
{
}

/// After a token unsubscribes from a game, it no longer watches the game and
/// holds no human seat in it.
pub proof fn law_unsubscribed_token_is_gone(s: ServerV, lobby: Seq<char>, token: Seq<char>, now: Timestamp)
    requires
        s.games.contains_key(lobby),
        keys_unique(s.games[lobby].subscribers),
    ensures
        ({
            let g = unsubscription_outcome(s, lobby, token, now).0.games[lobby];
            &&& !has_token(g.subscribers, token)
            &&& !(g.players.white matches PlayerV::Opponent { token: t, .. } && t == token)
            &&& !(g.players.black matches PlayerV::Opponent { token: t, .. } && t == token)
        }),
{
    let g0 = touched(s.games[lobby], now);
    lemma_without_token(g0.subscribers, token);
    assert(unsubscription_outcome(s, lobby, token, now).0.games[lobby] == after_unsubscribe(g0, token));
}

/// The sweep keeps exactly the games that are not expired, unchanged.
pub proof fn law_sweep_keeps_live_games(games: Map<Seq<char>, GameV>, now: Timestamp, lobby: Seq<char>)
    ensures
        survivors(games, now).contains_key(lobby) <==> (games.contains_key(lobby) && !expired(games[lobby], now)),
        survivors(games, now).contains_key(lobby) ==> survivors(games, now)[lobby] == games[lobby],
{
}

/// Recording a request about a game keeps it in the table: the same lobbies,
/// the same seats and subscribers, only its last interaction becomes `now`,
/// and no other game or token changes.
pub proof fn law_touch_keeps_game_in_place(s: ServerV, lobby: Seq<char>, now: Timestamp)
    requires
        s.games.contains_key(lobby),
    ensures
        ({
            let t = with_game(s, lobby, touched(s.games[lobby], now));
            &&& t.games.dom() == s.games.dom()
            &&& t.games[lobby].last_interaction == now
            &&& t.games[lobby].players == s.games[lobby].players
            &&& t.games[lobby].subscribers == s.games[lobby].subscribers
            &&& forall|k: Seq<char>| k != lobby && s.games.contains_key(k) ==> #[trigger] t.games[k] == s.games[k]
            &&& t.tokens == s.tokens
        }),
{
    let t = with_game(s, lobby, touched(s.games[lobby], now));
    assert(t.games.dom() =~= s.games.dom());
}

/// The lobby a request is about, if it is about one.
pub open spec fn lobby_of(msg: DataServerMessage) -> Option<Seq<char>> {
    match msg {
        DataServerMessage::CreateGame(_) => None,
        DataServerMessage::RequestGameSubscription(m) => Some(m.0@),
        DataServerMessage::RequestGameUnsubscription(m) => Some(m.0@),
        DataServerMessage::RequestBoard(m) => Some(m.0@),
        DataServerMessage::RequestEngineAddition(m) => Some(m.0@),
        DataServerMessage::RequestMakeMove(m) => Some(m.0@),
        DataServerMessage::RequestOpponentAddition(m) => Some(m.0@),
        DataServerMessage::RequestOpponentNameUpdate(m) => Some(m.0@),
        DataServerMessage::RequestPlayerRemoval(m) => Some(m.0@),
        DataServerMessage::RequestPlayerToken(_) => None,
        DataServerMessage::RequestPlayers(m) => Some(m.0@),
    }
}

/// A request about a lobby without a game changes nothing and sends nothing.
pub proof fn law_unknown_lobby_is_ignored(s: ServerV, msg: DataServerMessage, now: Timestamp, fresh: Seq<char>)
    requires
        lobby_of(msg) matches Some(l) && !s.games.contains_key(l),
    ensures
        step(s, msg, now, fresh).0 == s,
        step(s, msg, now, fresh).1.len() == 0,
{
}

/// A request about an existing game touches that game at `now` and leaves
/// every other game and every token as they were.
pub proof fn law_request_touches_only_its_game(s: ServerV, msg: DataServerMessage, now: Timestamp, fresh: Seq<char>)
    requires
        lobby_of(msg) matches Some(l) && s.games.contains_key(l),
    ensures
        ({
            let l = lobby_of(msg)->Some_0;
            let after = step(s, msg, now, fresh).0;
            &&& after.games.contains_key(l)
            &&& after.games[l].last_interaction == now
            &&& after.tokens == s.tokens
            &&& forall|k: Seq<char>| k != l ==> (#[trigger] after.games.contains_key(k) == s.games.contains_key(k))
            &&& forall|k: Seq<char>| k != l && s.games.contains_key(k) ==> #[trigger] after.games[k] == s.games[k]
        }),
{
}

} // verus!
