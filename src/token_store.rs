use crate::text::opt_text;
use vstd::prelude::*;

verus! {

/// The single cell that holds the access token, if one has been captured.
///
/// Last write wins: there is no history, expiry or revocation. Callers that
/// share it between tasks put it behind a mutual-exclusion lock and hold the
/// lock only while they call `set` or `get`.
pub struct TokenStore {
    token: Option<String>,
}

impl View for TokenStore {
    type V = Option<Seq<char>>;

    closed spec fn view(&self) -> Option<Seq<char>> {
        opt_text(self.token)
    }
}

impl TokenStore {
    /// An empty store: no token until the first `set`.
    pub fn new() -> (s: TokenStore)
        ensures
            s@ is None,
    {
        TokenStore { token: None }
    }

    /// Overwrites whatever token was stored.
    pub fn set(&mut self, token: String)
        ensures
            final(self)@ == stored_after_set(old(self)@, token@),
    {
        self.token = Some(token);
    }

    /// A copy of the stored token, or `None` if none was ever set.
    pub fn get(&self) -> (r: Option<String>)
        ensures
            opt_text(r) == self@,
    {
        match &self.token {
            Some(t) => Some(t.clone()),
            None => None,
        }
    }
}

/// The store's state after `set(x)`, whatever it held before.
pub open spec fn stored_after_set(before: Option<Seq<char>>, x: Seq<char>) -> Option<Seq<char>> {
    Some(x)
}

/// After `set(x)`, `get()` returns `x`; after `set(x)` and then `set(y)`, it
/// returns `y`.
pub proof fn lemma_last_write_wins(s: TokenStore, x: String, y: String)
    ensures
        stored_after_set(s@, x@) == Some(x@),
        stored_after_set(stored_after_set(s@, x@), y@) == Some(y@),
{
}

} // verus!
