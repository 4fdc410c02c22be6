//! One game: its seats, the time it was last touched and its subscribers.
use vstd::prelude::*;
use crate::clock::{IDLE_LIMIT_NANOS, Timestamp, elapsed_nanos, nanos_since_epoch};
use crate::messages::{Effect, EffectV, Notice, NoticeV, effects_view};
use crate::player::{
    Player, Players, PlayersV, PlayerV, PlayerColor, empty_seats, vacate, leaves, seat, seat_is_free, may_clear,
    may_rename, seat_opponent, seat_engine, clear_seat, rename_seat,
};
use crate::subscribers::{Subscribers, SubscriberSeq, connections, without_token, with_subscriber};

verus! {

/// A game on the server.
#[derive(Debug)]
pub struct Game {
    pub players: Players,
    /// The time of the last request about this game.
    pub last_interaction: Timestamp,
    pub subscribers: Subscribers,
}

/// The model of a game.
pub struct GameV {
    pub players: PlayersV,
    pub last_interaction: Timestamp,
    pub subscribers: SubscriberSeq,
}

impl View for Game {
    type V = GameV;

    open spec fn view(&self) -> GameV {
        GameV { players: self.players@, last_interaction: self.last_interaction, subscribers: self.subscribers@ }
    }
}

/// A game created at `now`: free seats, nobody subscribed.
pub open spec fn fresh_game(now: Timestamp) -> GameV {
    GameV { players: empty_seats(), last_interaction: now, subscribers: Seq::empty() }
}

/// The game touched at `now`.
pub open spec fn touched(g: GameV, now: Timestamp) -> GameV {
    GameV { last_interaction: now, ..g }
}

/// The game with other seats.
pub open spec fn with_players(g: GameV, p: PlayersV) -> GameV {
    GameV { players: p, ..g }
}

/// `notice` sent to every subscriber, in list order.
pub open spec fn notify_all(subs: SubscriberSeq, notice: NoticeV) -> Seq<EffectV> {
    connections(subs).map_values(|c: u64| EffectV::Send { to: c, notice })
}

/// Subscribers are told to ask for the seats again.
pub open spec fn seats_changed(g: GameV) -> Seq<EffectV> {
    notify_all(g.subscribers, NoticeV::ConsiderRequestingPlayers)
}

/// The game after the holder of `token` unsubscribes.
pub open spec fn after_unsubscribe(g: GameV, token: Seq<char>) -> GameV {
    GameV { players: vacate(g.players, token), last_interaction: g.last_interaction, subscribers: without_token(g.subscribers, token) }
}

/// What an unsubscription announces: the seats, when it freed one.
pub open spec fn unsubscribe_effects(g: GameV, token: Seq<char>) -> Seq<EffectV> {
    if leaves(g.players.white, token) || leaves(g.players.black, token) {
        seats_changed(after_unsubscribe(g, token))
    } else {
        Seq::empty()
    }
}

/// What seating an engine announces: the engine is started, then the seats.
pub open spec fn engine_effects(g: GameV, lobby: Seq<char>, color: PlayerColor, token: Seq<char>) -> Seq<EffectV> {
    if seat_is_free(g.players, color) {
        seq![EffectV::StartEngine { lobby, color, token }] + seats_changed(g)
    } else {
        Seq::empty()
    }
}

/// What a removal announces: a removed engine is let go, then the seats.
pub open spec fn removal_effects(g: GameV, color: PlayerColor, requester: Seq<char>) -> Seq<EffectV> {
    if may_clear(g.players, color, requester) {
        match seat(g.players, color) {
            PlayerV::Engine { token, .. } => seq![EffectV::ReleaseEngine(token)] + seats_changed(g),
            _ => seats_changed(g),
        }
    } else {
        Seq::empty()
    }
}

/// The engine tokens seated in a game, white first.
pub open spec fn seated_engines(p: PlayersV) -> Seq<Seq<char>> {
    let w: Seq<Seq<char>> = match p.white {
        PlayerV::Engine { token, .. } => seq![token],
        _ => Seq::empty(),
    };
    let b: Seq<Seq<char>> = match p.black {
        PlayerV::Engine { token, .. } => seq![token],
        _ => Seq::empty(),
    };
    w + b
}

/// What dropping a game asks for: its board goes, then its engines.
pub open spec fn teardown_effects(g: GameV, lobby: Seq<char>) -> Seq<EffectV> {
    seq![EffectV::DropBoard(lobby)] + seated_engines(g.players).map_values(|t: Seq<char>| EffectV::ReleaseEngine(t))
}

/// No request about the game for more than twelve hours.
pub open spec fn idle_too_long(g: GameV, now: Timestamp) -> bool {
    nanos_since_epoch(now) - nanos_since_epoch(g.last_interaction) > IDLE_LIMIT_NANOS
}

/// Two engines play each other and only they watch.
pub open spec fn engines_alone(g: GameV) -> bool {
    &&& g.subscribers.len() == 2
    &&& g.players.white is Engine
    &&& g.players.black is Engine
}

/// The sweep drops a game that is idle too long or left to two engines.
pub open spec fn expired(g: GameV, now: Timestamp) -> bool {
    idle_too_long(g, now) || engines_alone(g)
}

/// The seat of `color` holds a player with token `token`, human or engine:
/// only such a request may move for that side.
pub open spec fn holds_seat(p: PlayersV, color: PlayerColor, token: Seq<char>) -> bool {
    match seat(p, color) {
        PlayerV::Empty => false,
        PlayerV::Opponent { token: t, .. } => t == token,
        PlayerV::Engine { token: t, .. } => t == token,
    }
}

impl Game {
    /// A game created at `datetime`.
    pub fn new(datetime: Timestamp) -> (g: Game)
        ensures
            g@ == fresh_game(datetime),
    {
        Game { players: Players::new(), last_interaction: datetime, subscribers: Subscribers::new() }
    }

    /// Appends `event` for every subscriber to `out`.
    pub fn notify_into(&self, event: &Notice, out: &mut Vec<Effect>)
        ensures
            effects_view(final(out)@) == effects_view(old(out)@) + notify_all(self@.subscribers, event@),
    {
        let conns = self.subscribers.recipients();
        let ghost start = effects_view(out@);
        let mut i: usize = 0;
        while i < conns.len()
            invariant
                i <= conns.len(),
                conns@ == connections(self@.subscribers),
                effects_view(out@) == start + notify_all(self@.subscribers, event@).take(i as int),
            decreases conns.len() - i,
        {
            let ghost prior = out@;
            let e = Effect::Send { to: conns[i], notice: event.duplicate() };
            out.push(e);
            assert(out@ =~= prior.push(e));
            assert(effects_view(out@) =~= effects_view(prior).push(e@));
            assert(notify_all(self@.subscribers, event@).take(i + 1) =~= notify_all(self@.subscribers, event@).take(i as int).push(EffectV::Send { to: conns@[i as int], notice: event@ }));
            assert(effects_view(out@) =~= start + notify_all(self@.subscribers, event@).take(i + 1));
            i = i + 1;
        }
        assert(notify_all(self@.subscribers, event@).take(conns.len() as int) =~= notify_all(self@.subscribers, event@));
    }

    /// `event` for every subscriber.
    pub fn notify_subscribers(&self, event: Notice) -> (out: Vec<Effect>)
        ensures
            effects_view(out@) == notify_all(self@.subscribers, event@),
    {
        let mut out: Vec<Effect> = Vec::new();
        assert(effects_view(out@) =~= Seq::<EffectV>::empty());
        self.notify_into(&event, &mut out);
        assert(Seq::<EffectV>::empty() + notify_all(self@.subscribers, event@) =~= notify_all(self@.subscribers, event@));
        out
    }

    /// Subscribes `token` through `conn`; an earlier subscription of the token
    /// is replaced.
    pub fn subscribe(&mut self, token: String, conn: u64)
        ensures
            final(self)@ == (GameV { subscribers: with_subscriber(old(self)@.subscribers, token@, conn), ..old(self)@ }),
    {
        self.subscribers.insert(token, conn);
    }

    /// The holder of `token` leaves: their subscription ends and every human
    /// seat held with that token is freed.
    pub fn unsubscribe(&mut self, token: &String) -> (out: Vec<Effect>)
        ensures
            final(self)@ == after_unsubscribe(old(self)@, token@),
            effects_view(out@) == unsubscribe_effects(old(self)@, token@),
    {
        self.subscribers.remove(token);
        let mut should_notify = false;
        let white_leaves = match &self.players.white {
            Player::Opponent { token: t, .. } => *t == *token,
            _ => false,
        };
        if white_leaves {
            self.players.white = Player::Empty;
            should_notify = true;
        }
        let black_leaves = match &self.players.black {
            Player::Opponent { token: t, .. } => *t == *token,
            _ => false,
        };
        if black_leaves {
            self.players.black = Player::Empty;
            should_notify = true;
        }
        assert(self@ == after_unsubscribe(old(self)@, token@));
        if should_notify {
            self.notify_subscribers(Notice::ConsiderRequestingPlayers)
        } else {
            let out: Vec<Effect> = Vec::new();
            assert(effects_view(out@) =~= Seq::<EffectV>::empty());
            out
        }
    }

    /// Whether the seat of `color` is free.
    pub fn seat_free(&self, color: PlayerColor) -> (free: bool)
        ensures
            free == seat_is_free(self@.players, color),
    {
        match self.players.seat(color) {
            Player::Empty => true,
            _ => false,
        }
    }

    /// Seats a human on a free seat and tells the subscribers.
    pub fn seat_opponent(&mut self, color: PlayerColor, token: String, name: String) -> (out: Vec<Effect>)
        ensures
            final(self)@ == with_players(old(self)@, seat_opponent(old(self)@.players, color, token@, name@)),
            effects_view(out@) == if seat_is_free(old(self)@.players, color) {
                seats_changed(old(self)@)
            } else {
                Seq::empty()
            },
    {
        if self.seat_free(color) {
            *self.players.playing(color) = Player::Opponent { token, name };
            self.notify_subscribers(Notice::ConsiderRequestingPlayers)
        } else {
            let out: Vec<Effect> = Vec::new();
            assert(effects_view(out@) =~= Seq::<EffectV>::empty());
            out
        }
    }

    /// Seats an engine with token `engine_token`, owned by `owner`, on a free
    /// seat; asks for the engine to be started and tells the subscribers.
    pub fn seat_engine(&mut self, lobby: &String, color: PlayerColor, owner: String, engine_token: String) -> (out: Vec<Effect>)
        ensures
            final(self)@ == with_players(old(self)@, seat_engine(old(self)@.players, color, engine_token@, owner@)),
            effects_view(out@) == engine_effects(old(self)@, lobby@, color, engine_token@),
    {
        if self.seat_free(color) {
            let mut out: Vec<Effect> = Vec::new();
            let start = Effect::StartEngine { lobby: lobby.clone(), color, token: engine_token.clone() };
            out.push(start);
            assert(effects_view(out@) =~= seq![start@]);
            *self.players.playing(color) = Player::Engine { token: engine_token, owner };
            self.notify_into(&Notice::ConsiderRequestingPlayers, &mut out);
            out
        } else {
            let out: Vec<Effect> = Vec::new();
            assert(effects_view(out@) =~= Seq::<EffectV>::empty());
            out
        }
    }

    /// Frees the seat of `color` when `requester` holds it (a human) or owns
    /// it (an engine); a freed engine is let go and the subscribers are told.
    pub fn remove_player(&mut self, color: PlayerColor, requester: &String) -> (out: Vec<Effect>)
        ensures
            final(self)@ == with_players(old(self)@, clear_seat(old(self)@.players, color, requester@)),
            effects_view(out@) == removal_effects(old(self)@, color, requester@),
    {
        let mut out: Vec<Effect> = Vec::new();
        assert(effects_view(out@) =~= Seq::<EffectV>::empty());
        let allowed = match self.players.seat(color) {
            Player::Empty => false,
            Player::Opponent { token, .. } => *token == *requester,
            Player::Engine { token, owner } => {
                if *owner == *requester {
                    let release = Effect::ReleaseEngine(token.clone());
                    out.push(release);
                    assert(effects_view(out@) =~= seq![release@]);
                    true
                } else {
                    false
                }
            },
        };
        if allowed {
            *self.players.playing(color) = Player::Empty;
            self.notify_into(&Notice::ConsiderRequestingPlayers, &mut out);
        }
        out
    }

    /// Renames the human in the seat of `color` when `requester` holds it, and
    /// tells the subscribers.
    pub fn rename(&mut self, color: PlayerColor, requester: &String, new_name: String) -> (out: Vec<Effect>)
        ensures
            final(self)@ == with_players(old(self)@, rename_seat(old(self)@.players, color, requester@, new_name@)),
            effects_view(out@) == if may_rename(old(self)@.players, color, requester@) {
                seats_changed(old(self)@)
            } else {
                Seq::empty()
            },
    {
        match self.players.playing(color) {
            Player::Opponent { token, name } => {
                if *token == *requester {
                    *name = new_name;
                    return self.notify_subscribers(Notice::ConsiderRequestingPlayers);
                }
            },
            _ => {},
        }
        let out: Vec<Effect> = Vec::new();
        assert(effects_view(out@) =~= Seq::<EffectV>::empty());
        out
    }

    /// Whether `token` is the token of the player in the seat of `color`.
    pub fn holds_seat(&self, color: PlayerColor, token: &String) -> (yes: bool)
        ensures
            yes == holds_seat(self@.players, color, token@),
    {
        match self.players.seat(color) {
            Player::Empty => false,
            Player::Opponent { token: t, .. } => *t == *token,
            Player::Engine { token: t, .. } => *t == *token,
        }
    }

    /// Whether the sweep at `now` drops this game.
    pub fn is_expired(&self, now: Timestamp) -> (yes: bool)
        ensures
            yes == expired(self@, now),
    {
        let idle = elapsed_nanos(self.last_interaction, now) > IDLE_LIMIT_NANOS;
        let engines = match (&self.players.white, &self.players.black) {
            (Player::Engine { .. }, Player::Engine { .. }) => true,
            _ => false,
        };
        idle || (self.subscribers.len() == 2 && engines)
    }

    /// What dropping this game under `lobby` asks for.
    pub fn teardown(&self, lobby: &String) -> (out: Vec<Effect>)
        ensures
            effects_view(out@) == teardown_effects(self@, lobby@),
    {
        let mut out: Vec<Effect> = Vec::new();
        let drop_board = Effect::DropBoard(lobby.clone());
        out.push(drop_board);
        assert(effects_view(out@) =~= seq![drop_board@]);
        match &self.players.white {
            Player::Engine { token, .. } => {
                let e = Effect::ReleaseEngine(token.clone());
                out.push(e);
            },
            _ => {},
        }
        match &self.players.black {
            Player::Engine { token, .. } => {
                let e = Effect::ReleaseEngine(token.clone());
                out.push(e);
            },
            _ => {},
        }
        assert(effects_view(out@) =~= teardown_effects(self@, lobby@));
        out
    }
}

} // verus!
