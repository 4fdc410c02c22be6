//! The requests the data server answers.
use vstd::prelude::*;
use crate::board::MoveFacts;
use crate::player::PlayerColor;

verus! {

/// Create a game; the creator listens on the connection.
pub struct CreateGameMessage(pub u64);

/// Subscribe to a lobby with a player token, receiving on a connection.
pub struct RequestGameSubscriptionMessage(pub String, pub String, pub u64);

/// End the subscription of a player token to a lobby.
pub struct RequestGameUnsubscriptionMessage(pub String, pub String);

/// Ask for the board of a lobby, to be sent to a connection.
pub struct RequestBoardMessage(pub String, pub u64);

/// Seat an engine for a colour in a lobby, owned by a player token.
pub struct RequestEngineAdditionMessage(pub String, pub PlayerColor, pub String);

/// Move for a colour in a lobby with a player token; the facts are read from
/// the lobby's board before the move.
pub struct RequestMakeMoveMessage(pub String, pub PlayerColor, pub String, pub MoveFacts);

/// Seat a human for a colour in a lobby: token, then name.
pub struct RequestOpponentAdditionMessage(pub String, pub PlayerColor, pub String, pub String);

/// Rename the human of a colour in a lobby: token, then new name.
pub struct RequestOpponentNameUpdateMessage(pub String, pub PlayerColor, pub String, pub String);

/// Free the seat of a colour in a lobby, with a player token.
pub struct RequestPlayerRemovalMessage(pub String, pub PlayerColor, pub String);

/// Ask for the player token of a peer address, to be sent to a connection.
pub struct RequestPlayerTokenMessage(pub String, pub u64);

/// Ask for the seats of a lobby as seen by a player token, to be sent to a connection.
pub struct RequestPlayersMessage(pub String, pub String, pub u64);

/// A move to be judged once the board of the lobby is read: lobby, colour
/// and token; the move itself travels beside it.
pub struct MoveRequest {
    pub lobby: String,
    pub color: PlayerColor,
    pub token: String,
}

/// Any request of the data server.
pub enum DataServerMessage {
    CreateGame(CreateGameMessage),
    RequestGameSubscription(RequestGameSubscriptionMessage),
    RequestGameUnsubscription(RequestGameUnsubscriptionMessage),
    RequestBoard(RequestBoardMessage),
    RequestEngineAddition(RequestEngineAdditionMessage),
    RequestMakeMove(RequestMakeMoveMessage),
    RequestOpponentAddition(RequestOpponentAdditionMessage),
    RequestOpponentNameUpdate(RequestOpponentNameUpdateMessage),
    RequestPlayerRemoval(RequestPlayerRemovalMessage),
    RequestPlayerToken(RequestPlayerTokenMessage),
    RequestPlayers(RequestPlayersMessage),
}

} // verus!
