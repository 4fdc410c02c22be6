//! What the server sends and what it asks its surroundings to do.
use vstd::prelude::*;
use crate::player::{PlayerColor, PlayersRecord, PlayersRecordV};

verus! {

/// A message for a websocket connection, already serialised to text.
pub struct InternalWsMessage(pub String);

/// A message for a client connection.
#[derive(Debug)]
pub enum Notice {
    /// A game was created under this lobby; the client may subscribe to it.
    ConsiderSubscription(String),
    /// The seats of a game changed.
    ConsiderRequestingPlayers,
    /// The board of a game changed.
    ConsiderRequestingBoard,
    /// The player token of the client.
    PlayerToken(String),
    /// The seats of a game, as seen by the requester.
    Players(PlayersRecord),
    /// The board of the game under this lobby.
    Board(String),
}

/// The model of a notice.
pub enum NoticeV {
    ConsiderSubscription(Seq<char>),
    ConsiderRequestingPlayers,
    ConsiderRequestingBoard,
    PlayerToken(Seq<char>),
    Players(PlayersRecordV),
    Board(Seq<char>),
}

impl View for Notice {
    type V = NoticeV;

    open spec fn view(&self) -> NoticeV {
        match self {
            Notice::ConsiderSubscription(l) => NoticeV::ConsiderSubscription(l@),
            Notice::ConsiderRequestingPlayers => NoticeV::ConsiderRequestingPlayers,
            Notice::ConsiderRequestingBoard => NoticeV::ConsiderRequestingBoard,
            Notice::PlayerToken(t) => NoticeV::PlayerToken(t@),
            Notice::Players(r) => NoticeV::Players(r@),
            Notice::Board(l) => NoticeV::Board(l@),
        }
    }
}

impl Notice {
    /// The same notice, copied.
    pub fn duplicate(&self) -> (copy: Notice)
        ensures
            copy@ == self@,
    {
        match self {
            Notice::ConsiderSubscription(l) => Notice::ConsiderSubscription(l.clone()),
            Notice::ConsiderRequestingPlayers => Notice::ConsiderRequestingPlayers,
            Notice::ConsiderRequestingBoard => Notice::ConsiderRequestingBoard,
            Notice::PlayerToken(t) => Notice::PlayerToken(t.clone()),
            Notice::Players(r) => Notice::Players(r.duplicate()),
            Notice::Board(l) => Notice::Board(l.clone()),
        }
    }
}

/// Outside work the server asks for, in the order given.
#[derive(Debug)]
pub enum Effect {
    /// Send `notice` to the connection `to`.
    Send { to: u64, notice: Notice },
    /// Set up a fresh board for the game under this lobby.
    NewBoard(String),
    /// Discard the board of the game under this lobby.
    DropBoard(String),
    /// Start an engine playing `color` in the lobby, with its own token.
    StartEngine { lobby: String, color: PlayerColor, token: String },
    /// The engine with this token has lost its seat; let it go.
    ReleaseEngine(String),
    /// Play the requested move on the board of this lobby, then report the
    /// board with `DataServer::conclude_move`.
    ApplyMove(String),
    /// Mark the board of this lobby as finished.
    SetMate(String),
}

/// The model of an effect.
pub enum EffectV {
    Send { to: u64, notice: NoticeV },
    NewBoard(Seq<char>),
    DropBoard(Seq<char>),
    StartEngine { lobby: Seq<char>, color: PlayerColor, token: Seq<char> },
    ReleaseEngine(Seq<char>),
    ApplyMove(Seq<char>),
    SetMate(Seq<char>),
}

impl View for Effect {
    type V = EffectV;

    open spec fn view(&self) -> EffectV {
        match self {
            Effect::Send { to, notice } => EffectV::Send { to: *to, notice: notice@ },
            Effect::NewBoard(l) => EffectV::NewBoard(l@),
            Effect::DropBoard(l) => EffectV::DropBoard(l@),
            Effect::StartEngine { lobby, color, token } => EffectV::StartEngine {
                lobby: lobby@,
                color: *color,
                token: token@,
            },
            Effect::ReleaseEngine(t) => EffectV::ReleaseEngine(t@),
            Effect::ApplyMove(l) => EffectV::ApplyMove(l@),
            Effect::SetMate(l) => EffectV::SetMate(l@),
        }
    }
}

/// The models of a list of effects.
pub open spec fn effects_view(effects: Seq<Effect>) -> Seq<EffectV> {
    effects.map_values(|e: Effect| e@)
}

} // verus!
