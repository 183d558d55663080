use vstd::prelude::*;

use crate::text::{is_clean, lemma_trim_clean, lemma_trim_idempotent, trim_whitespace, trimmed, Strip};

verus! {

/// Name of the token file inside the application's data directory.
pub const TOKEN_FILE: &'static str = "auth.dat";

/// Unix permission bits of the token file: read and write for its owner only.
pub const OWNER_ONLY_MODE: u32 = 0o600;

/// The permission bits to set on the token file after writing it: on Unix
/// owner-only access; elsewhere nothing (the per-user data directory is
/// already private to the user).
pub fn lock_perms(unix: bool) -> (mode: Option<u32>)
    ensures
        mode == (if unix {
            Some(OWNER_ONLY_MODE)
        } else {
            None
        }),
{
    if unix {
        Some(OWNER_ONLY_MODE)
    } else {
        None
    }
}

/// The token a token file with `contents` holds: the contents without
/// surrounding whitespace, or no token when nothing else is left.
pub open spec fn spec_stored_token(contents: Seq<char>) -> Option<Seq<char>> {
    let t = trimmed(contents, Strip::Whitespace);
    if t.len() == 0 {
        None
    } else {
        Some(t)
    }
}

/// The token held by a token file whose text is `contents`.
pub fn stored_token(contents: &str) -> (token: Option<String>)
    ensures
        token is None <==> spec_stored_token(contents@) is None,
        token matches Some(t) ==> spec_stored_token(contents@) == Some(t@),
{
    let t = trim_whitespace(contents);
    if t.as_str().is_empty() {
        None
    } else {
        Some(t)
    }
}

/// What reading the token file gave.
pub enum TokenRead {
    /// The file's text.
    Contents(String),
    /// There is no token file.
    Missing,
    /// Reading failed otherwise; the message says how.
    Failed(String),
}

/// The answer to "which token is stored?" given what reading the token file
/// gave: a missing file means no token, a failed read is an error.
pub fn token_from_read(read: TokenRead) -> (res: Result<Option<String>, String>)
    ensures
        match read {
            TokenRead::Contents(c) => match res {
                Ok(Some(t)) => spec_stored_token(c@) == Some(t@),
                Ok(None) => spec_stored_token(c@) is None,
                Err(_) => false,
            },
            TokenRead::Missing => res == Ok::<Option<String>, String>(None),
            TokenRead::Failed(msg) => res matches Err(m) && m@ == msg@,
        },
{
    match read {
        TokenRead::Contents(c) => Ok(stored_token(c.as_str())),
        TokenRead::Missing => Ok(None),
        TokenRead::Failed(msg) => Err(msg),
    }
}

/// What removing the token file gave.
pub enum TokenRemove {
    /// The file was removed.
    Removed,
    /// There was no token file.
    Missing,
    /// Removing failed otherwise; the message says how.
    Failed(String),
}

/// The outcome of deleting the stored token: deleting when there is no
/// token file is a success.
pub fn token_delete_result(removal: TokenRemove) -> (res: Result<(), String>)
    ensures
        match removal {
            TokenRemove::Removed => res is Ok,
            TokenRemove::Missing => res is Ok,
            TokenRemove::Failed(msg) => res matches Err(m) && m@ == msg@,
        },
{
    match removal {
        TokenRemove::Removed => Ok(()),
        TokenRemove::Missing => Ok(()),
        TokenRemove::Failed(msg) => Err(msg),
    }
}

/// A non-empty token without surrounding whitespace, once saved as the
/// token file's text, reads back unchanged.
pub proof fn lemma_saved_token_reads_back(token: Seq<char>)
    requires
        token.len() > 0,
        is_clean(token, Strip::Whitespace),
    ensures
        spec_stored_token(token) == Some(token),
{
    lemma_trim_clean(token, Strip::Whitespace);
}

/// A token read from the token file, saved again, reads back as itself.
pub proof fn lemma_stored_token_is_stable(contents: Seq<char>)
    ensures
        spec_stored_token(contents) matches Some(t) ==> spec_stored_token(t) == Some(t),
{
    lemma_trim_idempotent(contents, Strip::Whitespace);
}

} // verus!
