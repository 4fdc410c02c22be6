//! The data server: every game by lobby and every player token by peer
//! address, and the answer to each request.
use vstd::prelude::*;
use dashmap::DashMap;
use crate::board::{CellFacts, MoveFacts, board_admits, move_allowed, opponent_can_move, reply_exists};
use crate::clock::{Timestamp, clock_now};
use crate::game::{
    Game, GameV, touched, with_players, fresh_game, after_unsubscribe, unsubscribe_effects,
    engine_effects, removal_effects, seats_changed, holds_seat, notify_all, expired,
    teardown_effects,
};
use crate::ids::{generate_id, is_generated_id};
use crate::messages::{Effect, EffectV, Notice, NoticeV, effects_view};
use crate::player::{
    PlayerColor, seat_engine, seat_opponent, seat_is_free, clear_seat, rename_seat, may_rename,
    seats_record,
};
use crate::requests::DataServerMessage;
use crate::subscribers::with_subscriber;
use crate::table::{
    games_held, tokens_held, games_new, games_take, games_put, games_lobbies, tokens_new,
    tokens_lookup, tokens_put,
};

verus! {

/// A shared table of games by lobby.
pub struct ChessbikData {
    pub games: DashMap<String, Game>,
}

impl ChessbikData {
    /// An empty table.
    pub fn new() -> (data: ChessbikData)
        ensures
            games_held(data.games).dom().is_empty(),
    {
        ChessbikData { games: games_new() }
    }
}

/// The server's state.
pub struct DataServer {
    pub games: DashMap<String, Game>,
    pub tokens: DashMap<String, String>,
}

/// The model of the server: games by lobby, player tokens by peer address.
#[verifier::ext_equal]
pub struct ServerV {
    pub games: Map<Seq<char>, GameV>,
    pub tokens: Map<Seq<char>, Seq<char>>,
}

/// The models of the games of a table.
pub open spec fn games_view(m: Map<Seq<char>, Game>) -> Map<Seq<char>, GameV> {
    m.map_values(|g: Game| g@)
}

impl View for DataServer {
    type V = ServerV;

    open spec fn view(&self) -> ServerV {
        ServerV { games: games_view(games_held(self.games)), tokens: tokens_held(self.tokens) }
    }
}

/// The server with the game under `lobby` set to `g`.
pub open spec fn with_game(s: ServerV, lobby: Seq<char>, g: GameV) -> ServerV {
    ServerV { games: s.games.insert(lobby, g), tokens: s.tokens }
}

/// A request about the game under `lobby`: when the game exists it is touched
/// at `now` and `f` gives its new value and the effects; otherwise nothing
/// changes and nothing is sent.
pub open spec fn on_game(
    s: ServerV,
    lobby: Seq<char>,
    now: Timestamp,
    f: spec_fn(GameV) -> (GameV, Seq<EffectV>),
) -> (ServerV, Seq<EffectV>) {
    if s.games.contains_key(lobby) {
        let (g, effects) = f(touched(s.games[lobby], now));
        (with_game(s, lobby, g), effects)
    } else {
        (s, Seq::empty())
    }
}

/// Creating a game under `lobby`: a fresh game replaces whatever was there; a
/// board is set up and the creator is told the lobby.
pub open spec fn creation_outcome(s: ServerV, lobby: Seq<char>, conn: u64, now: Timestamp) -> (ServerV, Seq<EffectV>) {
    (
        with_game(s, lobby, fresh_game(now)),
        seq![EffectV::NewBoard(lobby), EffectV::Send { to: conn, notice: NoticeV::ConsiderSubscription(lobby) }],
    )
}

/// Subscribing `token` through `conn`.
pub open spec fn subscription_outcome(s: ServerV, lobby: Seq<char>, token: Seq<char>, conn: u64, now: Timestamp) -> (ServerV, Seq<EffectV>) {
    on_game(s, lobby, now, |g: GameV| (GameV { subscribers: with_subscriber(g.subscribers, token, conn), ..g }, Seq::empty()))
}

/// Unsubscribing `token`.
pub open spec fn unsubscription_outcome(s: ServerV, lobby: Seq<char>, token: Seq<char>, now: Timestamp) -> (ServerV, Seq<EffectV>) {
    on_game(s, lobby, now, |g: GameV| (after_unsubscribe(g, token), unsubscribe_effects(g, token)))
}

/// Asking for the board: it is sent to `conn`.
pub open spec fn board_outcome(s: ServerV, lobby: Seq<char>, conn: u64, now: Timestamp) -> (ServerV, Seq<EffectV>) {
    on_game(s, lobby, now, |g: GameV| (g, seq![EffectV::Send { to: conn, notice: NoticeV::Board(lobby) }]))
}

/// Asking for an engine with token `engine_token` owned by `owner`.
pub open spec fn engine_outcome(
    s: ServerV,
    lobby: Seq<char>,
    color: PlayerColor,
    owner: Seq<char>,
    engine_token: Seq<char>,
    now: Timestamp,
) -> (ServerV, Seq<EffectV>) {
    on_game(
        s,
        lobby,
        now,
        |g: GameV| (with_players(g, seat_engine(g.players, color, engine_token, owner)), engine_effects(g, lobby, color, engine_token)),
    )
}

/// A move request: it is played when `token` holds the seat of `color` and
/// the board admits the move.
pub open spec fn move_outcome(
    s: ServerV,
    lobby: Seq<char>,
    color: PlayerColor,
    token: Seq<char>,
    facts: MoveFacts,
    now: Timestamp,
) -> (ServerV, Seq<EffectV>) {
    on_game(
        s,
        lobby,
        now,
        |g: GameV|
            (
                g,
                if holds_seat(g.players, color, token) && move_allowed(facts, color) {
                    seq![EffectV::ApplyMove(lobby)]
                } else {
                    Seq::empty()
                },
            ),
    )
}

/// Asking to seat a human.
pub open spec fn opponent_outcome(
    s: ServerV,
    lobby: Seq<char>,
    color: PlayerColor,
    token: Seq<char>,
    name: Seq<char>,
    now: Timestamp,
) -> (ServerV, Seq<EffectV>) {
    on_game(
        s,
        lobby,
        now,
        |g: GameV|
            (
                with_players(g, seat_opponent(g.players, color, token, name)),
                if seat_is_free(g.players, color) { seats_changed(g) } else { Seq::empty() },
            ),
    )
}

/// Asking to rename a human.
pub open spec fn rename_outcome(
    s: ServerV,
    lobby: Seq<char>,
    color: PlayerColor,
    token: Seq<char>,
    name: Seq<char>,
    now: Timestamp,
) -> (ServerV, Seq<EffectV>) {
    on_game(
        s,
        lobby,
        now,
        |g: GameV|
            (
                with_players(g, rename_seat(g.players, color, token, name)),
                if may_rename(g.players, color, token) { seats_changed(g) } else { Seq::empty() },
            ),
    )
}

/// Asking to free a seat.
pub open spec fn removal_outcome(s: ServerV, lobby: Seq<char>, color: PlayerColor, token: Seq<char>, now: Timestamp) -> (ServerV, Seq<EffectV>) {
    on_game(s, lobby, now, |g: GameV| (with_players(g, clear_seat(g.players, color, token)), removal_effects(g, color, token)))
}

/// Asking for the seats: their record for `token` is sent to `conn`.
pub open spec fn players_outcome(s: ServerV, lobby: Seq<char>, token: Seq<char>, conn: u64, now: Timestamp) -> (ServerV, Seq<EffectV>) {
    on_game(
        s,
        lobby,
        now,
        |g: GameV| (g, seq![EffectV::Send { to: conn, notice: NoticeV::Players(seats_record(g.players, token)) }]),
    )
}

/// Asking for the player token of `addr`: a known address keeps its token,
/// an unknown one is given `fresh`; the token is sent to `conn`.
pub open spec fn token_outcome(s: ServerV, addr: Seq<char>, conn: u64, fresh: Seq<char>) -> (ServerV, Seq<EffectV>) {
    if s.tokens.contains_key(addr) {
        (s, seq![EffectV::Send { to: conn, notice: NoticeV::PlayerToken(s.tokens[addr]) }])
    } else {
        (
            ServerV { games: s.games, tokens: s.tokens.insert(addr, fresh) },
            seq![EffectV::Send { to: conn, notice: NoticeV::PlayerToken(fresh) }],
        )
    }
}

/// After a move was played on the board of `lobby`, with `cells` read from
/// the board: the game is marked finished when the other side cannot move,
/// and the subscribers are told to ask for the board.
pub open spec fn conclusion(s: ServerV, lobby: Seq<char>, mover: PlayerColor, cells: Seq<CellFacts>) -> Seq<EffectV> {
    if s.games.contains_key(lobby) {
        (if reply_exists(cells, mover) { Seq::empty() } else { seq![EffectV::SetMate(lobby)] })
            + notify_all(s.games[lobby].subscribers, NoticeV::ConsiderRequestingBoard)
    } else {
        Seq::empty()
    }
}

/// The effects of dropping the games of `order`, in that order.
pub open spec fn teardowns(games: Map<Seq<char>, GameV>, order: Seq<Seq<char>>) -> Seq<EffectV>
    decreases order.len(),
{
    if order.len() == 0 {
        Seq::empty()
    } else {
        teardowns(games, order.drop_last()) + teardown_effects(games[order.last()], order.last())
    }
}

/// The lobbies whose games the sweep at `now` drops.
pub open spec fn expired_in(games: Map<Seq<char>, GameV>, now: Timestamp) -> spec_fn(Seq<char>) -> bool {
    |l: Seq<char>| expired(games[l], now)
}

/// The games that survive the sweep at `now`.
pub open spec fn survivors(games: Map<Seq<char>, GameV>, now: Timestamp) -> Map<Seq<char>, GameV> {
    games.restrict(games.dom().filter(|l: Seq<char>| !expired(games[l], now)))
}

/// The answer to `msg` at `now`; `fresh` is the identifier drawn for it, when
/// it draws one (see `draws_id`).
pub open spec fn step(s: ServerV, msg: DataServerMessage, now: Timestamp, fresh: Seq<char>) -> (ServerV, Seq<EffectV>) {
    match msg {
        DataServerMessage::CreateGame(m) => creation_outcome(s, fresh, m.0, now),
        DataServerMessage::RequestGameSubscription(m) => subscription_outcome(s, m.0@, m.1@, m.2, now),
        DataServerMessage::RequestGameUnsubscription(m) => unsubscription_outcome(s, m.0@, m.1@, now),
        DataServerMessage::RequestBoard(m) => board_outcome(s, m.0@, m.1, now),
        DataServerMessage::RequestEngineAddition(m) => engine_outcome(s, m.0@, m.1, m.2@, fresh, now),
        DataServerMessage::RequestMakeMove(m) => move_outcome(s, m.0@, m.1, m.2@, m.3, now),
        DataServerMessage::RequestOpponentAddition(m) => opponent_outcome(s, m.0@, m.1, m.2@, m.3@, now),
        DataServerMessage::RequestOpponentNameUpdate(m) => rename_outcome(s, m.0@, m.1, m.2@, m.3@, now),
        DataServerMessage::RequestPlayerRemoval(m) => removal_outcome(s, m.0@, m.1, m.2@, now),
        DataServerMessage::RequestPlayerToken(m) => token_outcome(s, m.0@, m.1, fresh),
        DataServerMessage::RequestPlayers(m) => players_outcome(s, m.0@, m.1@, m.2, now),
    }
}

/// Whether answering `msg` draws a fresh identifier: a new lobby, the token
/// of an engine that takes a free seat, or the token of an address not seen
/// before.
pub open spec fn draws_id(s: ServerV, msg: DataServerMessage) -> bool {
    match msg {
        DataServerMessage::CreateGame(_) => true,
        DataServerMessage::RequestEngineAddition(m) => s.games.contains_key(m.0@) && seat_is_free(s.games[m.0@].players, m.1),
        DataServerMessage::RequestPlayerToken(m) => !s.tokens.contains_key(m.0@),
        _ => false,
    }
}

impl DataServer {
    /// No games, no tokens.
    pub fn new() -> (server: DataServer)
        ensures
            server@.games.is_empty(),
            server@.tokens.is_empty(),
    {
        let server = DataServer { games: games_new(), tokens: tokens_new() };
        assert(server@.games.dom() =~= games_held(server.games).dom());
        server
    }

    /// Takes the game of `lobby` out of the table.
    fn take_game(&mut self, lobby: &String) -> (taken: Option<Game>)
        ensures
            match taken {
                Some(g) => {
                    &&& old(self)@.games.contains_key(lobby@)
                    &&& g@ == old(self)@.games[lobby@]
                    &&& final(self)@ == (ServerV { games: old(self)@.games.remove(lobby@), tokens: old(self)@.tokens })
                },
                None => !old(self)@.games.contains_key(lobby@) && final(self)@ == old(self)@,
            },
    {
        let taken = games_take(&mut self.games, lobby);
        assert(self@.games =~= old(self)@.games.remove(lobby@));
        taken
    }

    /// Puts `game` under `lobby`.
    fn put_game(&mut self, lobby: String, game: Game)
        ensures
            final(self)@ == with_game(old(self)@, lobby@, game@),
    {
        let ghost v = game@;
        let ghost l = lobby@;
        games_put(&mut self.games, lobby, game);
        assert(self@.games =~= old(self)@.games.insert(l, v));
    }

    /// Takes the game of `lobby` out of the table, touched at `now`; the
    /// handlers put it back with `restore`.
    fn take_touched(&mut self, lobby: &String, now: Timestamp) -> (taken: Option<Game>)
        ensures
            match taken {
                Some(g) => {
                    &&& old(self)@.games.contains_key(lobby@)
                    &&& g@ == touched(old(self)@.games[lobby@], now)
                    &&& final(self)@ == (ServerV { games: old(self)@.games.remove(lobby@), tokens: old(self)@.tokens })
                },
                None => !old(self)@.games.contains_key(lobby@) && final(self)@ == old(self)@,
            },
    {
        match self.take_game(lobby) {
            Some(mut game) => {
                game.last_interaction = now;
                Some(game)
            },
            None => None,
        }
    }

    /// Records a request about the game of `lobby` at `now`: the game stays in
    /// the table with `now` as its last interaction. Returns whether the lobby
    /// has a game.
    pub fn with_game(&mut self, lobby: &String, now: Timestamp) -> (found: bool)
        ensures
            found == old(self)@.games.contains_key(lobby@),
            found ==> final(self)@ == with_game(old(self)@, lobby@, touched(old(self)@.games[lobby@], now)),
            !found ==> final(self)@ == old(self)@,
    {
        match self.take_touched(lobby, now) {
            Some(game) => {
                self.restore(lobby, game);
                assert(self@ =~= with_game(old(self)@, lobby@, touched(old(self)@.games[lobby@], now)));
                true
            },
            None => false,
        }
    }

    /// Returns the game under `lobby`, which `take_touched` took out, to the table.
    fn restore(&mut self, lobby: &String, game: Game)
        requires
            !old(self)@.games.contains_key(lobby@),
        ensures
            final(self)@ == with_game(old(self)@, lobby@, game@),
    {
        self.put_game(lobby.clone(), game);
    }

    /// `token` subscribes to the game of `lobby` and is notified through `conn`.
    pub fn subscribe(&mut self, lobby: &String, token: String, conn: u64, now: Timestamp) -> (out: Vec<Effect>)
        ensures
            final(self)@ == subscription_outcome(old(self)@, lobby@, token@, conn, now).0,
            effects_view(out@) == subscription_outcome(old(self)@, lobby@, token@, conn, now).1,
    {
        let out: Vec<Effect> = Vec::new();
        assert(effects_view(out@) =~= Seq::<EffectV>::empty());
        if let Some(mut game) = self.take_touched(lobby, now) {
            game.subscribe(token, conn);
            self.restore(lobby, game);
            assert(self@ =~= subscription_outcome(old(self)@, lobby@, token@, conn, now).0);
        }
        out
    }

    /// `token` stops watching the game of `lobby` and leaves the seats it holds.
    pub fn unsubscribe(&mut self, lobby: &String, token: &String, now: Timestamp) -> (out: Vec<Effect>)
        ensures
            final(self)@ == unsubscription_outcome(old(self)@, lobby@, token@, now).0,
            effects_view(out@) == unsubscription_outcome(old(self)@, lobby@, token@, now).1,
    {
        if let Some(mut game) = self.take_touched(lobby, now) {
            let out = game.unsubscribe(token);
            self.restore(lobby, game);
            assert(self@ =~= unsubscription_outcome(old(self)@, lobby@, token@, now).0);
            out
        } else {
            let out: Vec<Effect> = Vec::new();
            assert(effects_view(out@) =~= Seq::<EffectV>::empty());
            out
        }
    }

    /// The board of `lobby` is sent to `conn`.
    pub fn request_board(&mut self, lobby: &String, conn: u64, now: Timestamp) -> (out: Vec<Effect>)
        ensures
            final(self)@ == board_outcome(old(self)@, lobby@, conn, now).0,
            effects_view(out@) == board_outcome(old(self)@, lobby@, conn, now).1,
    {
        let mut out: Vec<Effect> = Vec::new();
        if let Some(game) = self.take_touched(lobby, now) {
            self.restore(lobby, game);
            assert(self@ =~= board_outcome(old(self)@, lobby@, conn, now).0);
            let send = Effect::Send { to: conn, notice: Notice::Board(lobby.clone()) };
            out.push(send);
            assert(effects_view(out@) =~= seq![send@]);
        } else {
            assert(effects_view(out@) =~= Seq::<EffectV>::empty());
        }
        out
    }

    /// The seats of `lobby`, as `token` sees them, are sent to `conn`.
    pub fn request_players(&mut self, lobby: &String, token: &String, conn: u64, now: Timestamp) -> (out: Vec<Effect>)
        ensures
            final(self)@ == players_outcome(old(self)@, lobby@, token@, conn, now).0,
            effects_view(out@) == players_outcome(old(self)@, lobby@, token@, conn, now).1,
    {
        let mut out: Vec<Effect> = Vec::new();
        if let Some(game) = self.take_touched(lobby, now) {
            let record = game.players.record_for(token);
            let send = Effect::Send { to: conn, notice: Notice::Players(record) };
            out.push(send);
            assert(effects_view(out@) =~= seq![send@]);
            self.restore(lobby, game);
            assert(self@ =~= players_outcome(old(self)@, lobby@, token@, conn, now).0);
        } else {
            assert(effects_view(out@) =~= Seq::<EffectV>::empty());
        }
        out
    }

    /// Seats a human holding `token`, named `name`, for `color` in `lobby`,
    /// when that seat is free.
    pub fn add_opponent(&mut self, lobby: &String, color: PlayerColor, token: String, name: String, now: Timestamp) -> (out: Vec<Effect>)
        ensures
            final(self)@ == opponent_outcome(old(self)@, lobby@, color, token@, name@, now).0,
            effects_view(out@) == opponent_outcome(old(self)@, lobby@, color, token@, name@, now).1,
    {
        let ghost (t, n) = (token@, name@);
        if let Some(mut game) = self.take_touched(lobby, now) {
            let out = game.seat_opponent(color, token, name);
            self.restore(lobby, game);
            assert(self@ =~= opponent_outcome(old(self)@, lobby@, color, t, n, now).0);
            out
        } else {
            let out: Vec<Effect> = Vec::new();
            assert(effects_view(out@) =~= Seq::<EffectV>::empty());
            out
        }
    }

    /// Renames the human of `color` in `lobby` when `token` holds that seat.
    pub fn rename_opponent(&mut self, lobby: &String, color: PlayerColor, token: &String, name: String, now: Timestamp) -> (out: Vec<Effect>)
        ensures
            final(self)@ == rename_outcome(old(self)@, lobby@, color, token@, name@, now).0,
            effects_view(out@) == rename_outcome(old(self)@, lobby@, color, token@, name@, now).1,
    {
        let ghost n = name@;
        if let Some(mut game) = self.take_touched(lobby, now) {
            let out = game.rename(color, token, name);
            self.restore(lobby, game);
            assert(self@ =~= rename_outcome(old(self)@, lobby@, color, token@, n, now).0);
            out
        } else {
            let out: Vec<Effect> = Vec::new();
            assert(effects_view(out@) =~= Seq::<EffectV>::empty());
            out
        }
    }

    /// Frees the seat of `color` in `lobby` when `token` holds it or owns its engine.
    pub fn remove_player(&mut self, lobby: &String, color: PlayerColor, token: &String, now: Timestamp) -> (out: Vec<Effect>)
        ensures
            final(self)@ == removal_outcome(old(self)@, lobby@, color, token@, now).0,
            effects_view(out@) == removal_outcome(old(self)@, lobby@, color, token@, now).1,
    {
        if let Some(mut game) = self.take_touched(lobby, now) {
            let out = game.remove_player(color, token);
            self.restore(lobby, game);
            assert(self@ =~= removal_outcome(old(self)@, lobby@, color, token@, now).0);
            out
        } else {
            let out: Vec<Effect> = Vec::new();
            assert(effects_view(out@) =~= Seq::<EffectV>::empty());
            out
        }
    }

    /// Creates a fresh game under `lobby`, replacing any game there, and tells
    /// `conn` the lobby.
    pub fn create_game_with(&mut self, lobby: String, conn: u64, now: Timestamp) -> (out: Vec<Effect>)
        ensures
            final(self)@ == creation_outcome(old(self)@, lobby@, conn, now).0,
            effects_view(out@) == creation_outcome(old(self)@, lobby@, conn, now).1,
    {
        let mut out: Vec<Effect> = Vec::new();
        let board = Effect::NewBoard(lobby.clone());
        let send = Effect::Send { to: conn, notice: Notice::ConsiderSubscription(lobby.clone()) };
        out.push(board);
        out.push(send);
        assert(effects_view(out@) =~= seq![board@, send@]);
        self.put_game(lobby, Game::new(now));
        out
    }

    /// Creates a game under a freshly drawn lobby and tells `conn` the lobby.
    pub fn create_game(&mut self, conn: u64, now: Timestamp) -> (out: Vec<Effect>)
        ensures
            exists|lobby: Seq<char>| {
                &&& is_generated_id(lobby)
                &&& final(self)@ == creation_outcome(old(self)@, lobby, conn, now).0
                &&& effects_view(out@) == creation_outcome(old(self)@, lobby, conn, now).1
            },
    {
        let lobby = generate_id();
        let ghost l = lobby@;
        let out = self.create_game_with(lobby, conn, now);
        assert(is_generated_id(l) && final(self)@ == creation_outcome(old(self)@, l, conn, now).0);
        out
    }

    /// Seats an engine with token `engine_token`, owned by `owner`, for
    /// `color` in `lobby`, when that seat is free.
    pub fn add_engine_with(
        &mut self,
        lobby: &String,
        color: PlayerColor,
        owner: String,
        engine_token: String,
        now: Timestamp,
    ) -> (out: Vec<Effect>)
        ensures
            final(self)@ == engine_outcome(old(self)@, lobby@, color, owner@, engine_token@, now).0,
            effects_view(out@) == engine_outcome(old(self)@, lobby@, color, owner@, engine_token@, now).1,
    {
        let ghost (o, t) = (owner@, engine_token@);
        if let Some(mut game) = self.take_touched(lobby, now) {
            let out = game.seat_engine(lobby, color, owner, engine_token);
            self.restore(lobby, game);
            assert(self@ =~= engine_outcome(old(self)@, lobby@, color, o, t, now).0);
            out
        } else {
            let out: Vec<Effect> = Vec::new();
            assert(effects_view(out@) =~= Seq::<EffectV>::empty());
            out
        }
    }

    /// Whether the game of `lobby` exists and its seat of `color` is free.
    fn seat_free_in(&mut self, lobby: &String, color: PlayerColor) -> (free: bool)
        ensures
            final(self)@ == old(self)@,
            free == (old(self)@.games.contains_key(lobby@) && seat_is_free(old(self)@.games[lobby@].players, color)),
    {
        match self.take_game(lobby) {
            Some(game) => {
                let free = game.seat_free(color);
                self.restore(lobby, game);
                assert(self@ =~= old(self)@);
                free
            },
            None => false,
        }
    }

    /// Seats an engine owned by `owner` for `color` in `lobby` when that seat
    /// is free; its token is drawn afresh then.
    pub fn add_engine(&mut self, lobby: &String, color: PlayerColor, owner: String, now: Timestamp) -> (out: Vec<Effect>)
        ensures
            exists|engine_token: Seq<char>|
                #![trigger engine_outcome(old(self)@, lobby@, color, owner@, engine_token, now)]
            {
                &&& (old(self)@.games.contains_key(lobby@) && seat_is_free(old(self)@.games[lobby@].players, color))
                    ==> is_generated_id(engine_token)
                &&& final(self)@ == engine_outcome(old(self)@, lobby@, color, owner@, engine_token, now).0
                &&& effects_view(out@) == engine_outcome(old(self)@, lobby@, color, owner@, engine_token, now).1
            },
    {
        let engine_token = if self.seat_free_in(lobby, color) { generate_id() } else { String::new() };
        let ghost t = engine_token@;
        let ghost o = owner@;
        let out = self.add_engine_with(lobby, color, owner, engine_token, now);
        assert({
            &&& (old(self)@.games.contains_key(lobby@) && seat_is_free(old(self)@.games[lobby@].players, color))
                ==> is_generated_id(t)
            &&& final(self)@ == engine_outcome(old(self)@, lobby@, color, o, t, now).0
            &&& effects_view(out@) == engine_outcome(old(self)@, lobby@, color, o, t, now).1
        });
        out
    }

    /// Judges a move for `color` in `lobby` requested with `token`, on facts
    /// read from the board before the move; asks for it to be played when the
    /// token holds that seat and the board admits it.
    pub fn request_move(&mut self, lobby: &String, color: PlayerColor, token: &String, facts: MoveFacts, now: Timestamp) -> (out: Vec<Effect>)
        ensures
            final(self)@ == move_outcome(old(self)@, lobby@, color, token@, facts, now).0,
            effects_view(out@) == move_outcome(old(self)@, lobby@, color, token@, facts, now).1,
    {
        let mut out: Vec<Effect> = Vec::new();
        if let Some(game) = self.take_touched(lobby, now) {
            if game.holds_seat(color, token) && board_admits(&facts, color) {
                let play = Effect::ApplyMove(lobby.clone());
                out.push(play);
                assert(effects_view(out@) =~= seq![play@]);
            } else {
                assert(effects_view(out@) =~= Seq::<EffectV>::empty());
            }
            self.restore(lobby, game);
            assert(self@ =~= move_outcome(old(self)@, lobby@, color, token@, facts, now).0);
        } else {
            assert(effects_view(out@) =~= Seq::<EffectV>::empty());
        }
        out
    }

    /// After a move by `mover` was played on the board of `lobby`: marks the
    /// game finished when no cell of `cells` holds a piece of the other side
    /// with a move, and tells the subscribers to ask for the board.
    pub fn conclude_move(&mut self, lobby: &String, mover: PlayerColor, cells: &Vec<CellFacts>) -> (out: Vec<Effect>)
        ensures
            final(self)@ == old(self)@,
            effects_view(out@) == conclusion(old(self)@, lobby@, mover, cells@),
    {
        let mut out: Vec<Effect> = Vec::new();
        if let Some(game) = self.take_game(lobby) {
            if !opponent_can_move(cells, mover) {
                let mate = Effect::SetMate(lobby.clone());
                out.push(mate);
                assert(effects_view(out@) =~= seq![mate@]);
            } else {
                assert(effects_view(out@) =~= Seq::<EffectV>::empty());
            }
            game.notify_into(&Notice::ConsiderRequestingBoard, &mut out);
            self.restore(lobby, game);
            assert(self@ =~= old(self)@);
        } else {
            assert(effects_view(out@) =~= Seq::<EffectV>::empty());
        }
        out
    }

    /// Sends `conn` the player token of `addr`; an unknown address is given `fresh`.
    pub fn request_player_token_with(&mut self, addr: String, conn: u64, fresh: String) -> (out: Vec<Effect>)
        ensures
            final(self)@ == token_outcome(old(self)@, addr@, conn, fresh@).0,
            effects_view(out@) == token_outcome(old(self)@, addr@, conn, fresh@).1,
    {
        let token = match tokens_lookup(&self.tokens, &addr) {
            Some(known) => known,
            None => {
                tokens_put(&mut self.tokens, addr, fresh.clone());
                fresh
            },
        };
        let mut out: Vec<Effect> = Vec::new();
        let send = Effect::Send { to: conn, notice: Notice::PlayerToken(token) };
        out.push(send);
        assert(effects_view(out@) =~= seq![send@]);
        out
    }

    /// Sends `conn` the player token of `addr`; an unknown address is given a
    /// freshly drawn token, which it keeps.
    pub fn request_player_token(&mut self, addr: String, conn: u64) -> (out: Vec<Effect>)
        ensures
            exists|fresh: Seq<char>|
                #![trigger token_outcome(old(self)@, addr@, conn, fresh)]
            {
                &&& !old(self)@.tokens.contains_key(addr@) ==> is_generated_id(fresh)
                &&& final(self)@ == token_outcome(old(self)@, addr@, conn, fresh).0
                &&& effects_view(out@) == token_outcome(old(self)@, addr@, conn, fresh).1
            },
    {
        let fresh = match tokens_lookup(&self.tokens, &addr) {
            Some(_) => String::new(),
            None => generate_id(),
        };
        let ghost f = fresh@;
        assert(!old(self)@.tokens.contains_key(addr@) ==> is_generated_id(f));
        let out = self.request_player_token_with(addr, conn, fresh);
        assert({
            &&& !old(self)@.tokens.contains_key(addr@) ==> is_generated_id(f)
            &&& final(self)@ == token_outcome(old(self)@, addr@, conn, f).0
            &&& effects_view(out@) == token_outcome(old(self)@, addr@, conn, f).1
        });
        out
    }

    /// Drops every game that is expired at `now` (see `expired`), lobby by
    /// lobby in the table's own order; asks for the boards and engines of the
    /// dropped games to go.
    pub fn sweep_at(&mut self, now: Timestamp) -> (out: Vec<Effect>)
        ensures
            final(self)@.games == survivors(old(self)@.games, now),
            final(self)@.tokens == old(self)@.tokens,
            exists|order: Seq<Seq<char>>| {
                &&& order.no_duplicates()
                &&& order.to_set() == old(self)@.games.dom()
                &&& effects_view(out@) == teardowns(old(self)@.games, order.filter(expired_in(old(self)@.games, now)))
            },
    {
        let lobbies = games_lobbies(&self.games);
        let ghost order = lobbies@.map_values(|l: String| l@);
        let ghost start = self@.games;
        let mut out: Vec<Effect> = Vec::new();
        assert(order.take(0).filter(expired_in(start, now)) =~= Seq::<Seq<char>>::empty()) by {
            reveal(Seq::filter);
        }
        assert(effects_view(out@) =~= Seq::<EffectV>::empty());
        let mut i: usize = 0;
        while i < lobbies.len()
            invariant
                i <= lobbies.len(),
                order == lobbies@.map_values(|l: String| l@),
                order.no_duplicates(),
                order.to_set() == start.dom(),
                start == old(self)@.games,
                self@.tokens == old(self)@.tokens,
                forall|k: Seq<char>| #[trigger] self@.games.contains_key(k) <==>
                    (start.contains_key(k) && !(order.take(i as int).contains(k) && expired(start[k], now))),
                forall|k: Seq<char>| #[trigger] self@.games.contains_key(k) ==> self@.games[k] == start[k],
                effects_view(out@) == teardowns(start, order.take(i as int).filter(expired_in(start, now))),
            decreases lobbies.len() - i,
        {
            let lobby = &lobbies[i];
            let ghost k = lobby@;
            assert(order[i as int] == k);
            assert(order.to_set().contains(k));
            assert(!order.take(i as int).contains(k)) by {
                if order.take(i as int).contains(k) {
                    let j = choose|j: int| 0 <= j < i && order.take(i as int)[j] == k;
                    assert(order[j] == order[i as int]);
                }
            }
            assert(order.take(i + 1) =~= order.take(i as int).push(k));
            proof {
                order.take(i as int).lemma_filter_push(k, expired_in(start, now));
            }
            let ghost prev = order.take(i as int);
            let ghost next = order.take(i + 1);
            assert forall|x: Seq<char>| #[trigger] next.contains(x) <==> (prev.contains(x) || x == k) by {
                if next.contains(x) {
                    let j = choose|j: int| 0 <= j < next.len() && next[j] == x;
                    if j < prev.len() {
                        assert(prev[j] == x);
                    }
                }
                if prev.contains(x) {
                    let j = choose|j: int| 0 <= j < prev.len() && prev[j] == x;
                    assert(next[j] == x);
                }
                if x == k {
                    assert(next[prev.len() as int] == x);
                }
            }
            let ghost before = out@;
            let ghost prefix = order.take(i as int).filter(expired_in(start, now));
            match self.take_game(lobby) {
                Some(game) => {
                    if game.is_expired(now) {
                        let mut gone = game.teardown(lobby);
                        out.append(&mut gone);
                        assert(prefix.push(k).drop_last() =~= prefix);
                        assert(effects_view(out@) =~= effects_view(before) + teardown_effects(start[k], k));
                        assert(self@.games.contains_key(k) == false);
                    } else {
                        self.restore(lobby, game);
                    }
                },
                None => {
                    assert(false);
                },
            }
            i = i + 1;
        }
        assert(order.take(lobbies.len() as int) =~= order);
        assert(self@.games =~= survivors(start, now));
        out
    }

    /// Drops the games that are expired now, by the system clock.
    pub fn sweep(&mut self) -> (out: Vec<Effect>)
        ensures
            final(self)@.tokens == old(self)@.tokens,
            exists|now: Timestamp, order: Seq<Seq<char>>| {
                &&& now.secs >= 0
                &&& now.nanos < 1_000_000_000
                &&& final(self)@.games == survivors(old(self)@.games, now)
                &&& order.no_duplicates()
                &&& order.to_set() == old(self)@.games.dom()
                &&& effects_view(out@) == teardowns(old(self)@.games, order.filter(expired_in(old(self)@.games, now)))
            },
    {
        let now = clock_now();
        self.sweep_at(now)
    }

    /// Answers `msg` at time `now`.
    pub fn handle_at(&mut self, msg: DataServerMessage, now: Timestamp) -> (out: Vec<Effect>)
        ensures
            exists|fresh: Seq<char>|
                #![trigger step(old(self)@, msg, now, fresh)]
            {
                &&& draws_id(old(self)@, msg) ==> is_generated_id(fresh)
                &&& final(self)@ == step(old(self)@, msg, now, fresh).0
                &&& effects_view(out@) == step(old(self)@, msg, now, fresh).1
            },
    {
        let ghost m = msg;
        match msg {
            DataServerMessage::CreateGame(req) => {
                let out = self.create_game(req.0, now);
                let ghost l = choose|lobby: Seq<char>| {
                    &&& is_generated_id(lobby)
                    &&& final(self)@ == creation_outcome(old(self)@, lobby, req.0, now).0
                    &&& effects_view(out@) == creation_outcome(old(self)@, lobby, req.0, now).1
                };
                assert(step(old(self)@, m, now, l) == creation_outcome(old(self)@, l, req.0, now));
                out
            },
            DataServerMessage::RequestGameSubscription(req) => {
                let out = self.subscribe(&req.0, req.1, req.2, now);
                assert(step(old(self)@, m, now, Seq::empty()) == subscription_outcome(old(self)@, req.0@, req.1@, req.2, now));
                out
            },
            DataServerMessage::RequestGameUnsubscription(req) => {
                let out = self.unsubscribe(&req.0, &req.1, now);
                assert(step(old(self)@, m, now, Seq::empty()) == unsubscription_outcome(old(self)@, req.0@, req.1@, now));
                out
            },
            DataServerMessage::RequestBoard(req) => {
                let out = self.request_board(&req.0, req.1, now);
                assert(step(old(self)@, m, now, Seq::empty()) == board_outcome(old(self)@, req.0@, req.1, now));
                out
            },
            DataServerMessage::RequestEngineAddition(req) => {
                let out = self.add_engine(&req.0, req.1, req.2, now);
                let ghost t = choose|engine_token: Seq<char>| {
                    &&& (old(self)@.games.contains_key(req.0@) && seat_is_free(old(self)@.games[req.0@].players, req.1))
                        ==> is_generated_id(engine_token)
                    &&& final(self)@ == engine_outcome(old(self)@, req.0@, req.1, req.2@, engine_token, now).0
                    &&& effects_view(out@) == engine_outcome(old(self)@, req.0@, req.1, req.2@, engine_token, now).1
                };
                assert(step(old(self)@, m, now, t) == engine_outcome(old(self)@, req.0@, req.1, req.2@, t, now));
                out
            },
            DataServerMessage::RequestMakeMove(req) => {
                let out = self.request_move(&req.0, req.1, &req.2, req.3, now);
                assert(step(old(self)@, m, now, Seq::empty()) == move_outcome(old(self)@, req.0@, req.1, req.2@, req.3, now));
                out
            },
            DataServerMessage::RequestOpponentAddition(req) => {
                let out = self.add_opponent(&req.0, req.1, req.2, req.3, now);
                assert(step(old(self)@, m, now, Seq::empty()) == opponent_outcome(old(self)@, req.0@, req.1, req.2@, req.3@, now));
                out
            },
            DataServerMessage::RequestOpponentNameUpdate(req) => {
                let out = self.rename_opponent(&req.0, req.1, &req.2, req.3, now);
                assert(step(old(self)@, m, now, Seq::empty()) == rename_outcome(old(self)@, req.0@, req.1, req.2@, req.3@, now));
                out
            },
            DataServerMessage::RequestPlayerRemoval(req) => {
                let out = self.remove_player(&req.0, req.1, &req.2, now);
                assert(step(old(self)@, m, now, Seq::empty()) == removal_outcome(old(self)@, req.0@, req.1, req.2@, now));
                out
            },
            DataServerMessage::RequestPlayerToken(req) => {
                let out = self.request_player_token(req.0, req.1);
                let ghost f = choose|fresh: Seq<char>| {
                    &&& !old(self)@.tokens.contains_key(req.0@) ==> is_generated_id(fresh)
                    &&& final(self)@ == token_outcome(old(self)@, req.0@, req.1, fresh).0
                    &&& effects_view(out@) == token_outcome(old(self)@, req.0@, req.1, fresh).1
                };
                assert(step(old(self)@, m, now, f) == token_outcome(old(self)@, req.0@, req.1, f));
                out
            },
            DataServerMessage::RequestPlayers(req) => {
                let out = self.request_players(&req.0, &req.1, req.2, now);
                assert(step(old(self)@, m, now, Seq::empty()) == players_outcome(old(self)@, req.0@, req.1@, req.2, now));
                out
            },
        }
    }

    /// Answers `msg`, reading the time from the system clock.
    pub fn handle(&mut self, msg: DataServerMessage) -> (out: Vec<Effect>)
        ensures
            exists|now: Timestamp, fresh: Seq<char>|
                #![trigger step(old(self)@, msg, now, fresh)]
            {
                &&& now.secs >= 0
                &&& now.nanos < 1_000_000_000
                &&& draws_id(old(self)@, msg) ==> is_generated_id(fresh)
                &&& final(self)@ == step(old(self)@, msg, now, fresh).0
                &&& effects_view(out@) == step(old(self)@, msg, now, fresh).1
            },
    {
        let now = clock_now();
        self.handle_at(msg, now)
    }
}

} // verus!
