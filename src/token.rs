//! Session tokens.

use vstd::prelude::*;

verus! {

/// Length of every session token, in characters.
pub const TOKEN_LEN: usize = 32;

/// A character of the URL-safe alphabet that tokens are drawn from.
pub open spec fn is_token_char(c: char) -> bool {
    ('a' <= c && c <= 'z') || ('A' <= c && c <= 'Z') || ('0' <= c && c <= '9') || c == '_'
        || c == '-'
}

/// A well-formed session token: exactly `TOKEN_LEN` characters of the alphabet.
pub open spec fn is_token(t: Seq<char>) -> bool {
    &&& t.len() == TOKEN_LEN
    &&& forall|i: int| 0 <= i < t.len() ==> is_token_char(#[trigger] t[i])
}

/// Relies on nanoid::format with nanoid's default random source and its
/// SAFE alphabet (`_`, `-`, digits, ASCII letters): it returns exactly
/// `size` characters, each taken from the alphabet. With `size` zero its
/// loop never returns.
#[verifier::external_body]
fn safe_nanoid(size: usize) -> (r: String)
    requires
        size > 0,
    ensures
        r@.len() == size,
        forall|i: int| 0 <= i < r@.len() ==> is_token_char(#[trigger] r@[i]),
{
    nanoid::format(nanoid::rngs::default, &nanoid::alphabet::SAFE, size)
}

/// A fresh random session token.
pub fn token_generator() -> (r: String)
    ensures
        is_token(r@),
{
    safe_nanoid(TOKEN_LEN)
}

} // verus!
