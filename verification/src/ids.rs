//! Identifiers handed out by the server: lobbies, player tokens and engine tokens.
use vstd::prelude::*;
use rand::Rng;

verus! {

/// Number of characters in every lobby name and token the server generates.
pub const ID_LEN: usize = 14;

/// An ASCII letter (upper or lower case) or an ASCII digit.
pub open spec fn is_alphanumeric(c: char) -> bool {
    ('a' <= c && c <= 'z') || ('A' <= c && c <= 'Z') || ('0' <= c && c <= '9')
}

/// What every generated identifier looks like: `ID_LEN` alphanumeric characters.
pub open spec fn is_generated_id(s: Seq<char>) -> bool {
    &&& s.len() == ID_LEN as nat
    &&& forall|i: int| 0 <= i < s.len() ==> is_alphanumeric(#[trigger] s[i])
}

/// Draws `len` characters from rand's `Alphanumeric` distribution with the
/// thread-local generator. rand documents that distribution as uniform over
/// `a-z`, `A-Z` and `0-9`, and `take(len)` yields exactly `len` samples, so the
/// result has `len` characters, each alphanumeric. Which characters come out is
/// chance and is not stated.
#[verifier::external_body]
fn random_alphanumeric(len: usize) -> (drawn: String)
    ensures
        drawn@.len() == len as nat,
        forall|i: int| 0 <= i < drawn@.len() ==> is_alphanumeric(#[trigger] drawn@[i]),
{
    rand::thread_rng().sample_iter(&rand::distributions::Alphanumeric).take(len).map(char::from).collect()
}

/// A fresh random identifier, as used for lobbies and tokens.
pub fn generate_id() -> (id: String)
    ensures
        is_generated_id(id@),
{
    random_alphanumeric(ID_LEN)
}

} // verus!
