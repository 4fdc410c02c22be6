//! The decisions of a computer player: when to think about a move and which
//! requests it sends to the data server. The search for a move is done
//! outside the library.
use vstd::prelude::*;
use crate::board::{BoardStatus, turn_of};
use crate::player::PlayerColor;
use crate::requests::{
    DataServerMessage, MoveRequest, RequestBoardMessage, RequestGameSubscriptionMessage,
    RequestGameUnsubscriptionMessage,
};

verus! {

/// Delay, in milliseconds, before an engine answers a board on which it is to move.
pub const THINK_DELAY_MILLIS: u64 = 1500;

/// Depth of the engine's search.
pub const SEARCH_DEPTH: usize = 4;

/// A computer player seated in a game. Its side, lobby, token and connection
/// stay what they were when it was started: `handle` is proved to leave them,
/// and every other method reads it only.
pub struct EngineActor {
    /// The side it plays.
    pub color: PlayerColor,
    /// The lobby of its game.
    pub lobby: String,
    /// Its own player token.
    pub token: String,
    /// The connection on which it receives notices.
    pub conn: u64,
}

/// What reaches an engine.
pub enum EngineEvent {
    /// The board of its game, with this status.
    Board(BoardStatus),
    /// Its game's board changed.
    BoardChanged,
    /// Any other notice.
    Other,
}

/// What an engine does about an event.
#[derive(Debug, PartialEq, Eq, Structural)]
pub enum EngineAction {
    /// Search a move on the board just received and send it after the delay.
    PlanMove,
    /// Ask the data server for the board.
    RequestBoard,
    /// Nothing.
    Ignore,
}

/// An engine moves only on boards where its side is to move, asks for the
/// board whenever it changed, and ignores everything else.
pub open spec fn reaction(event: EngineEvent, color: PlayerColor) -> EngineAction {
    match event {
        EngineEvent::Board(status) => if turn_of(status, color) { EngineAction::PlanMove } else { EngineAction::Ignore },
        EngineEvent::BoardChanged => EngineAction::RequestBoard,
        EngineEvent::Other => EngineAction::Ignore,
    }
}

impl EngineActor {
    /// What the engine does about `event`. Handling an event never changes
    /// the engine: its side, lobby, token and connection stay as they were.
    pub fn handle(&mut self, event: EngineEvent) -> (action: EngineAction)
        ensures
            *final(self) == *old(self),
            action == reaction(event, old(self).color),
    {
        match event {
            EngineEvent::Board(status) => {
                if status.is_turn_of(self.color) {
                    EngineAction::PlanMove
                } else {
                    EngineAction::Ignore
                }
            },
            EngineEvent::BoardChanged => EngineAction::RequestBoard,
            EngineEvent::Other => EngineAction::Ignore,
        }
    }

    /// The requests an engine sends when it starts: subscribe to its game
    /// with its token, then ask for the board.
    pub fn on_start(&self) -> (requests: Vec<DataServerMessage>)
        ensures
            requests@.len() == 2,
            requests@[0] matches DataServerMessage::RequestGameSubscription(m)
                && m.0@ == self.lobby@ && m.1@ == self.token@ && m.2 == self.conn,
            requests@[1] matches DataServerMessage::RequestBoard(m) && m.0@ == self.lobby@ && m.1 == self.conn,
    {
        let mut requests: Vec<DataServerMessage> = Vec::new();
        requests.push(DataServerMessage::RequestGameSubscription(
            RequestGameSubscriptionMessage(self.lobby.clone(), self.token.clone(), self.conn),
        ));
        requests.push(DataServerMessage::RequestBoard(RequestBoardMessage(self.lobby.clone(), self.conn)));
        requests
    }

    /// The request an engine sends when it stops: end its subscription.
    pub fn on_stop(&self) -> (request: DataServerMessage)
        ensures
            request matches DataServerMessage::RequestGameUnsubscription(m) && m.0@ == self.lobby@ && m.1@ == self.token@,
    {
        DataServerMessage::RequestGameUnsubscription(
            RequestGameUnsubscriptionMessage(self.lobby.clone(), self.token.clone()),
        )
    }

    /// The move request an engine sends after its search, for its own lobby,
    /// side and token.
    pub fn move_request(&self) -> (request: MoveRequest)
        ensures
            request.lobby@ == self.lobby@,
            request.color == self.color,
            request.token@ == self.token@,
    {
        MoveRequest { lobby: self.lobby.clone(), color: self.color, token: self.token.clone() }
    }

    /// The request that asks the data server for the board.
    pub fn board_request(&self) -> (request: DataServerMessage)
        ensures
            request matches DataServerMessage::RequestBoard(m) && m.0@ == self.lobby@ && m.1 == self.conn,
    {
        DataServerMessage::RequestBoard(RequestBoardMessage(self.lobby.clone(), self.conn))
    }
}

} // verus!
