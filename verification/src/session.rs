//! A client session: which data-server request each client message becomes.
use vstd::prelude::*;
use crate::player::PlayerColor;
use crate::requests::{
    CreateGameMessage, DataServerMessage, MoveRequest, RequestBoardMessage, RequestEngineAdditionMessage,
    RequestGameSubscriptionMessage, RequestGameUnsubscriptionMessage,
    RequestOpponentAdditionMessage, RequestOpponentNameUpdateMessage, RequestPlayerRemovalMessage,
    RequestPlayerTokenMessage, RequestPlayersMessage,
};

verus! {

/// A message received from a client, with the fields the server reads.
pub enum ClientMessage {
    CreateGame,
    /// Lobby.
    RequestBoard(String),
    RequestPlayerToken,
    /// Lobby, colour, token, name.
    RequestOpponentAddition(String, PlayerColor, String, String),
    /// Lobby, colour, owner token.
    RequestEngineAddition(String, PlayerColor, String),
    /// Lobby, colour, token.
    RequestPlayerRemoval(String, PlayerColor, String),
    /// Lobby, token.
    RequestGameSubscription(String, String),
    /// Lobby, token.
    RequestGameUnsubscription(String, String),
    /// Lobby, token.
    RequestPlayers(String, String),
    /// Lobby, colour, token, new name.
    RequestPlayerNameUpdate(String, PlayerColor, String, String),
    /// Lobby, colour, token; the move itself travels beside the message.
    RequestMakeMove(String, PlayerColor, String),
    /// A message only the server sends (a callback, a hint or a heartbeat).
    ServerOnly,
}

/// Where a client message goes.
pub enum Routed {
    /// To the data server as this request.
    Request(DataServerMessage),
    /// To the data server as a move, once the board of the lobby is read.
    Move(MoveRequest),
    /// Nowhere: the message is logged and dropped.
    Ignore,
}

/// A websocket client: its peer address and its connection number.
pub struct Ws {
    pub addr: String,
    pub conn: u64,
}

/// The route of `msg` from the client `ws`: every request goes to the data
/// server with the client's connection (and, for a token, its address);
/// messages that only the server sends are dropped.
pub open spec fn route_of(ws: Ws, msg: ClientMessage) -> Routed {
    match msg {
        ClientMessage::CreateGame => Routed::Request(DataServerMessage::CreateGame(CreateGameMessage(ws.conn))),
        ClientMessage::RequestBoard(lobby) => Routed::Request(
            DataServerMessage::RequestBoard(RequestBoardMessage(lobby, ws.conn)),
        ),
        ClientMessage::RequestPlayerToken => Routed::Request(
            DataServerMessage::RequestPlayerToken(RequestPlayerTokenMessage(ws.addr, ws.conn)),
        ),
        ClientMessage::RequestOpponentAddition(lobby, color, token, name) => Routed::Request(
            DataServerMessage::RequestOpponentAddition(RequestOpponentAdditionMessage(lobby, color, token, name)),
        ),
        ClientMessage::RequestEngineAddition(lobby, color, token) => Routed::Request(
            DataServerMessage::RequestEngineAddition(RequestEngineAdditionMessage(lobby, color, token)),
        ),
        ClientMessage::RequestPlayerRemoval(lobby, color, token) => Routed::Request(
            DataServerMessage::RequestPlayerRemoval(RequestPlayerRemovalMessage(lobby, color, token)),
        ),
        ClientMessage::RequestGameSubscription(lobby, token) => Routed::Request(
            DataServerMessage::RequestGameSubscription(RequestGameSubscriptionMessage(lobby, token, ws.conn)),
        ),
        ClientMessage::RequestGameUnsubscription(lobby, token) => Routed::Request(
            DataServerMessage::RequestGameUnsubscription(RequestGameUnsubscriptionMessage(lobby, token)),
        ),
        ClientMessage::RequestPlayers(lobby, token) => Routed::Request(
            DataServerMessage::RequestPlayers(RequestPlayersMessage(lobby, token, ws.conn)),
        ),
        ClientMessage::RequestPlayerNameUpdate(lobby, color, token, name) => Routed::Request(
            DataServerMessage::RequestOpponentNameUpdate(RequestOpponentNameUpdateMessage(lobby, color, token, name)),
        ),
        ClientMessage::RequestMakeMove(lobby, color, token) => Routed::Move(MoveRequest { lobby, color, token }),
        ClientMessage::ServerOnly => Routed::Ignore,
    }
}

impl Ws {
    /// A session for the peer at `addr`, on connection `conn`.
    pub fn new(addr: String, conn: u64) -> (ws: Ws)
        ensures
            ws.addr == addr,
            ws.conn == conn,
    {
        Ws { addr, conn }
    }

    /// Where `msg` goes.
    pub fn handle_ws_message(&self, msg: ClientMessage) -> (routed: Routed)
        ensures
            routed == route_of(*self, msg),
    {
        match msg {
            ClientMessage::CreateGame => Routed::Request(DataServerMessage::CreateGame(CreateGameMessage(self.conn))),
            ClientMessage::RequestBoard(lobby) => Routed::Request(
                DataServerMessage::RequestBoard(RequestBoardMessage(lobby, self.conn)),
            ),
            ClientMessage::RequestPlayerToken => Routed::Request(
                DataServerMessage::RequestPlayerToken(RequestPlayerTokenMessage(self.addr.clone(), self.conn)),
            ),
            ClientMessage::RequestOpponentAddition(lobby, color, token, name) => Routed::Request(
                DataServerMessage::RequestOpponentAddition(RequestOpponentAdditionMessage(lobby, color, token, name)),
            ),
            ClientMessage::RequestEngineAddition(lobby, color, token) => Routed::Request(
                DataServerMessage::RequestEngineAddition(RequestEngineAdditionMessage(lobby, color, token)),
            ),
            ClientMessage::RequestPlayerRemoval(lobby, color, token) => Routed::Request(
                DataServerMessage::RequestPlayerRemoval(RequestPlayerRemovalMessage(lobby, color, token)),
            ),
            ClientMessage::RequestGameSubscription(lobby, token) => Routed::Request(
                DataServerMessage::RequestGameSubscription(RequestGameSubscriptionMessage(lobby, token, self.conn)),
            ),
            ClientMessage::RequestGameUnsubscription(lobby, token) => Routed::Request(
                DataServerMessage::RequestGameUnsubscription(RequestGameUnsubscriptionMessage(lobby, token)),
            ),
            ClientMessage::RequestPlayers(lobby, token) => Routed::Request(
                DataServerMessage::RequestPlayers(RequestPlayersMessage(lobby, token, self.conn)),
            ),
            ClientMessage::RequestPlayerNameUpdate(lobby, color, token, name) => Routed::Request(
                DataServerMessage::RequestOpponentNameUpdate(RequestOpponentNameUpdateMessage(lobby, color, token, name)),
            ),
            ClientMessage::RequestMakeMove(lobby, color, token) => Routed::Move(MoveRequest { lobby, color, token }),
            ClientMessage::ServerOnly => Routed::Ignore,
        }
    }
}

} // verus!
