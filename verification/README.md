# chessbik_server

The game-table logic of the chessbik websocket server, verified with Verus.

* `src/` is the library. `DataServer` keeps every game (seats, subscribers,
  time of last request) by lobby and every player token by peer address. Each
  request is answered by a verified function that returns the new state and a
  list of `Effect`s: notices for connections, boards to create or drop, engines
  to start or let go, a move to play. Contracts state both exactly, over the
  models in `ServerV`, `GameV` and `PlayersV`; `laws.rs` proves properties that
  span requests.
* `app/` is the program: HTTP routes, websocket and engine actors, the boards of
  the games (chessbik_board) and the wire format (chessbik_commons). It turns
  client messages into library requests and performs the returned effects.
