//! The token by which the client logs in, as the keyring hands it over.

use vstd::prelude::*;
use crate::text::{trim, trimmed};

verus! {

/// The keyring of the platform.
pub struct DiscordAuth;

/// Why no token was had.
#[derive(Debug, Clone, Copy, PartialEq, Eq, Structural)]
pub enum TokenError {
    /// The keyring holds no token.
    NotFound,
    /// The keyring holds an empty token.
    Empty,
}

/// What the answer of the keyring's lookup command amounts to: the text it
/// printed, without the white space around it, is the token, unless the
/// command failed or printed nothing else.
pub open spec fn token_of(succeeded: bool, printed: Seq<char>) -> Result<Seq<char>, TokenError> {
    if !succeeded {
        Err(TokenError::NotFound)
    } else if trimmed(printed).len() == 0 {
        Err(TokenError::Empty)
    } else {
        Ok(trimmed(printed))
    }
}

impl DiscordAuth {
    /// Takes the answer of the keyring's lookup command: whether it
    /// succeeded, and what it printed.
    pub fn token_from_output(succeeded: bool, printed: &str) -> (out: Result<String, TokenError>)
        ensures
            match token_of(succeeded, printed@) {
                Ok(token) => out matches Ok(t) && t@ == token,
                Err(e) => out matches Err(f) && f == e,
            },
    {
        if !succeeded {
            return Err(TokenError::NotFound);
        }
        let token = trim(printed);
        if token.as_str().unicode_len() == 0 {
            Err(TokenError::Empty)
        } else {
            Ok(token)
        }
    }

    /// What to tell the user who has stored no token yet.
    pub fn setup_hint() -> (hint: &'static str)
        ensures
            hint@ == "secret-tool store --label=\"Discord Token\" service remycord username token"@,
    {
        "secret-tool store --label=\"Discord Token\" service remycord username token"
    }
}

} // verus!
