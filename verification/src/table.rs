//! The concurrent maps that hold the server's games and player tokens
//! (dashmap's `DashMap`), behind contracts over what each map holds.
use vstd::prelude::*;
use dashmap::DashMap;
use crate::game::Game;

verus! {

#[verifier::external_type_specification]
#[verifier::external_body]
#[verifier::reject_recursive_types(K)]
#[verifier::reject_recursive_types(V)]
#[verifier::reject_recursive_types(S)]
pub struct ExDashMap<K, V, S>(DashMap<K, V, S>);

/// The games a table holds, by lobby.
pub uninterp spec fn games_held(table: DashMap<String, Game>) -> Map<Seq<char>, Game>;

/// The player tokens a table holds, by peer address.
pub uninterp spec fn tokens_held(table: DashMap<String, String>) -> Map<Seq<char>, Seq<char>>;

/// `DashMap::new`: an empty map.
#[verifier::external_body]
pub(crate) fn games_new() -> (table: DashMap<String, Game>)
    ensures
        games_held(table).dom().is_empty(),
{
    DashMap::new()
}

/// `DashMap::remove`: takes the game of `lobby` out of the table. The map is
/// keyed by `String`'s `Eq`, which compares the characters, so the entry found
/// is the one whose key has the same characters as `lobby`.
#[verifier::external_body]
pub(crate) fn games_take(table: &mut DashMap<String, Game>, lobby: &String) -> (taken: Option<Game>)
    ensures
        games_held(*final(table)) == games_held(*old(table)).remove(lobby@),
        match taken {
            Some(g) => games_held(*old(table)).contains_key(lobby@) && g == games_held(*old(table))[lobby@],
            None => !games_held(*old(table)).contains_key(lobby@),
        },
{
    table.remove(lobby).map(|entry| entry.1)
}

/// `DashMap::insert`: puts `game` under `lobby`, replacing what was there.
#[verifier::external_body]
pub(crate) fn games_put(table: &mut DashMap<String, Game>, lobby: String, game: Game)
    ensures
        games_held(*final(table)) == games_held(*old(table)).insert(lobby@, game),
{
    table.insert(lobby, game);
}

/// `DashMap::iter`, keeping each entry's key: every lobby of the table, each
/// once (the map holds one entry per key), in an order the map chooses.
#[verifier::external_body]
pub(crate) fn games_lobbies(table: &DashMap<String, Game>) -> (lobbies: Vec<String>)
    ensures
        lobbies@.map_values(|l: String| l@).no_duplicates(),
        lobbies@.map_values(|l: String| l@).to_set() == games_held(*table).dom(),
{
    table.iter().map(|entry| entry.key().clone()).collect()
}

/// `DashMap::new`: an empty map.
#[verifier::external_body]
pub(crate) fn tokens_new() -> (table: DashMap<String, String>)
    ensures
        tokens_held(table).dom().is_empty(),
{
    DashMap::new()
}

/// `DashMap::get`, copying the value: the token stored for `addr`, if any.
#[verifier::external_body]
pub(crate) fn tokens_lookup(table: &DashMap<String, String>, addr: &String) -> (found: Option<String>)
    ensures
        match found {
            Some(t) => tokens_held(*table).contains_key(addr@) && t@ == tokens_held(*table)[addr@],
            None => !tokens_held(*table).contains_key(addr@),
        },
{
    table.get(addr).map(|entry| entry.value().clone())
}

/// `DashMap::insert`: stores `token` for `addr`, replacing what was there.
#[verifier::external_body]
pub(crate) fn tokens_put(table: &mut DashMap<String, String>, addr: String, token: String)
    ensures
        tokens_held(*final(table)) == tokens_held(*old(table)).insert(addr@, token@),
{
    table.insert(addr, token);
}

} // verus!
