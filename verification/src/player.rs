//! The two seats of a game and who sits in them.
use vstd::prelude::*;

verus! {

/// The side a seat plays; also the colour of a piece.
#[derive(Clone, Copy, Debug, PartialEq, Eq, Structural)]
pub enum PlayerColor {
    White,
    Black,
}

/// The other side.
pub open spec fn other_side(c: PlayerColor) -> PlayerColor {
    match c {
        PlayerColor::White => PlayerColor::Black,
        PlayerColor::Black => PlayerColor::White,
    }
}

impl PlayerColor {
    /// The other side.
    pub fn opposite(self) -> (other: PlayerColor)
        ensures
            other == other_side(self),
    {
        match self {
            PlayerColor::White => PlayerColor::Black,
            PlayerColor::Black => PlayerColor::White,
        }
    }
}

/// Who occupies a seat.
#[derive(Debug)]
pub enum Player {
    /// The seat is free.
    Empty,
    /// A computer player. `token` is the engine's own token, `owner` the token
    /// of the player who asked for it.
    Engine { token: String, owner: String },
    /// A human player with the token that seated it and a display name.
    Opponent { token: String, name: String },
}

/// The mathematical model of a seat.
pub enum PlayerV {
    Empty,
    Engine { token: Seq<char>, owner: Seq<char> },
    Opponent { token: Seq<char>, name: Seq<char> },
}

impl View for Player {
    type V = PlayerV;

    open spec fn view(&self) -> PlayerV {
        match self {
            Player::Empty => PlayerV::Empty,
            Player::Engine { token, owner } => PlayerV::Engine { token: token@, owner: owner@ },
            Player::Opponent { token, name } => PlayerV::Opponent { token: token@, name: name@ },
        }
    }
}

impl Default for Player {
    /// A free seat.
    fn default() -> (free: Player)
        ensures
            free@ == PlayerV::Empty,
    {
        Player::Empty
    }
}

impl Player {
    /// The same seat, with its strings copied.
    pub fn duplicate(&self) -> (copy: Player)
        ensures
            copy@ == self@,
    {
        match self {
            Player::Empty => Player::Empty,
            Player::Engine { token, owner } => Player::Engine { token: token.clone(), owner: owner.clone() },
            Player::Opponent { token, name } => Player::Opponent { token: token.clone(), name: name.clone() },
        }
    }
}

/// What a requester is told about one seat: whether it is theirs.
#[derive(Debug)]
pub enum PlayerRecord {
    Empty,
    /// An engine; `true` when the requester owns it.
    Engine(bool),
    /// A human with this name; `true` when the requester sits there.
    Opponent(String, bool),
}

/// The model of a seat record.
pub enum PlayerRecordV {
    Empty,
    Engine(bool),
    Opponent(Seq<char>, bool),
}

impl View for PlayerRecord {
    type V = PlayerRecordV;

    open spec fn view(&self) -> PlayerRecordV {
        match self {
            PlayerRecord::Empty => PlayerRecordV::Empty,
            PlayerRecord::Engine(mine) => PlayerRecordV::Engine(*mine),
            PlayerRecord::Opponent(name, mine) => PlayerRecordV::Opponent(name@, *mine),
        }
    }
}

impl PlayerRecord {
    /// The same record, with its name copied.
    pub fn duplicate(&self) -> (copy: PlayerRecord)
        ensures
            copy@ == self@,
    {
        match self {
            PlayerRecord::Empty => PlayerRecord::Empty,
            PlayerRecord::Engine(mine) => PlayerRecord::Engine(*mine),
            PlayerRecord::Opponent(name, mine) => PlayerRecord::Opponent(name.clone(), *mine),
        }
    }
}

/// What a requester is told about both seats.
#[derive(Debug)]
pub struct PlayersRecord {
    pub white: PlayerRecord,
    pub black: PlayerRecord,
}

/// The model of a record of both seats.
pub struct PlayersRecordV {
    pub white: PlayerRecordV,
    pub black: PlayerRecordV,
}

impl View for PlayersRecord {
    type V = PlayersRecordV;

    open spec fn view(&self) -> PlayersRecordV {
        PlayersRecordV { white: self.white@, black: self.black@ }
    }
}

impl PlayersRecord {
    /// The same record, copied.
    pub fn duplicate(&self) -> (copy: PlayersRecord)
        ensures
            copy@ == self@,
    {
        PlayersRecord { white: self.white.duplicate(), black: self.black.duplicate() }
    }
}

/// The record of one seat for `requester`: engines are theirs when they own
/// them, humans when they hold the seat's token.
pub open spec fn seat_record(who: PlayerV, requester: Seq<char>) -> PlayerRecordV {
    match who {
        PlayerV::Empty => PlayerRecordV::Empty,
        PlayerV::Engine { owner, .. } => PlayerRecordV::Engine(owner == requester),
        PlayerV::Opponent { token, name } => PlayerRecordV::Opponent(name, token == requester),
    }
}

/// The record of both seats for `requester`.
pub open spec fn seats_record(p: PlayersV, requester: Seq<char>) -> PlayersRecordV {
    PlayersRecordV { white: seat_record(p.white, requester), black: seat_record(p.black, requester) }
}

impl Player {
    /// The record of this seat for `requester`.
    pub fn record_for(&self, requester: &String) -> (rec: PlayerRecord)
        ensures
            rec@ == seat_record(self@, requester@),
    {
        match self {
            Player::Empty => PlayerRecord::Empty,
            Player::Engine { owner, .. } => PlayerRecord::Engine(*requester == *owner),
            Player::Opponent { token, name } => PlayerRecord::Opponent(name.clone(), *requester == *token),
        }
    }
}

/// The seats of one game.
#[derive(Debug)]
pub struct Players {
    pub white: Player,
    pub black: Player,
}

/// The model of both seats.
pub struct PlayersV {
    pub white: PlayerV,
    pub black: PlayerV,
}

impl View for Players {
    type V = PlayersV;

    open spec fn view(&self) -> PlayersV {
        PlayersV { white: self.white@, black: self.black@ }
    }
}

/// Both seats free.
pub open spec fn empty_seats() -> PlayersV {
    PlayersV { white: PlayerV::Empty, black: PlayerV::Empty }
}

/// The seat of `color`.
pub open spec fn seat(p: PlayersV, color: PlayerColor) -> PlayerV {
    match color {
        PlayerColor::White => p.white,
        PlayerColor::Black => p.black,
    }
}

/// `p` with the seat of `color` replaced by `who`.
pub open spec fn with_seat(p: PlayersV, color: PlayerColor, who: PlayerV) -> PlayersV {
    match color {
        PlayerColor::White => PlayersV { white: who, black: p.black },
        PlayerColor::Black => PlayersV { white: p.white, black: who },
    }
}

/// A seat can be taken only while it is free.
pub open spec fn seat_is_free(p: PlayersV, color: PlayerColor) -> bool {
    seat(p, color) is Empty
}

/// Seating a human: it happens only on a free seat.
pub open spec fn seat_opponent(p: PlayersV, color: PlayerColor, token: Seq<char>, name: Seq<char>) -> PlayersV {
    if seat_is_free(p, color) {
        with_seat(p, color, PlayerV::Opponent { token, name })
    } else {
        p
    }
}

/// Seating an engine owned by `owner`: it happens only on a free seat.
pub open spec fn seat_engine(p: PlayersV, color: PlayerColor, token: Seq<char>, owner: Seq<char>) -> PlayersV {
    if seat_is_free(p, color) {
        with_seat(p, color, PlayerV::Engine { token, owner })
    } else {
        p
    }
}

/// A seat is cleared on request by the human who sits there, or by the owner
/// of the engine that sits there.
pub open spec fn may_clear(p: PlayersV, color: PlayerColor, requester: Seq<char>) -> bool {
    match seat(p, color) {
        PlayerV::Empty => false,
        PlayerV::Opponent { token, .. } => token == requester,
        PlayerV::Engine { owner, .. } => owner == requester,
    }
}

/// The seats after a removal request.
pub open spec fn clear_seat(p: PlayersV, color: PlayerColor, requester: Seq<char>) -> PlayersV {
    if may_clear(p, color, requester) {
        with_seat(p, color, PlayerV::Empty)
    } else {
        p
    }
}

/// Only the human sitting in a seat may rename it.
pub open spec fn may_rename(p: PlayersV, color: PlayerColor, requester: Seq<char>) -> bool {
    seat(p, color) matches PlayerV::Opponent { token, .. } && token == requester
}

/// The seats after a rename request.
pub open spec fn rename_seat(p: PlayersV, color: PlayerColor, requester: Seq<char>, name: Seq<char>) -> PlayersV {
    if may_rename(p, color, requester) {
        with_seat(p, color, PlayerV::Opponent { token: requester, name })
    } else {
        p
    }
}

/// A human with token `leaver` leaves this seat when they leave the game.
pub open spec fn leaves(who: PlayerV, leaver: Seq<char>) -> bool {
    who matches PlayerV::Opponent { token, .. } && token == leaver
}

/// The seats after the holder of `leaver` unsubscribes: every human seat held
/// with that token is freed; engines stay.
pub open spec fn vacate(p: PlayersV, leaver: Seq<char>) -> PlayersV {
    PlayersV {
        white: if leaves(p.white, leaver) { PlayerV::Empty } else { p.white },
        black: if leaves(p.black, leaver) { PlayerV::Empty } else { p.black },
    }
}

impl Players {
    /// Two free seats.
    pub fn new() -> (p: Players)
        ensures
            p@ == empty_seats(),
    {
        Players { white: Player::Empty, black: Player::Empty }
    }

    /// The seat of `color`, to be changed in place.
    pub fn playing(&mut self, color: PlayerColor) -> (who: &mut Player)
        ensures
            who@ == seat(old(self)@, color),
            final(self)@ == with_seat(old(self)@, color, final(who)@),
    {
        match color {
            PlayerColor::White => &mut self.white,
            PlayerColor::Black => &mut self.black,
        }
    }

    /// The record of both seats for `requester`.
    pub fn record_for(&self, requester: &String) -> (rec: PlayersRecord)
        ensures
            rec@ == seats_record(self@, requester@),
    {
        PlayersRecord { white: self.white.record_for(requester), black: self.black.record_for(requester) }
    }

    /// The seat of `color`, to be read.
    pub fn seat(&self, color: PlayerColor) -> (who: &Player)
        ensures
            who@ == seat(self@, color),
    {
        match color {
            PlayerColor::White => &self.white,
            PlayerColor::Black => &self.black,
        }
    }
}

} // verus!
