//! The session store: a single optional token, persisted across reloads.
//!
//! The store holds at most one opaque session token. Absence is a normal
//! outcome, not an error: loading from a store that was never saved to
//! yields nothing. The durable backing (browser-local storage) lives outside
//! this library; this type is the store handed to the session flow, and any
//! durable backend must behave as these contracts say.

use vstd::prelude::*;

verus! {

/// Holds at most one session token. Viewed as the optional sequence of
/// characters currently stored.
#[derive(Clone, Debug, PartialEq)]
pub struct TokenStore {
    token: Option<String>,
}

impl View for TokenStore {
    type V = Option<Seq<char>>;

    closed spec fn view(&self) -> Option<Seq<char>> {
        self.token.deep_view()
    }
}

impl TokenStore {
    /// A store that was never saved to: it holds nothing.
    pub fn new() -> (s: Self)
        ensures
            s@ is None,
    {
        TokenStore { token: None }
    }

    /// A store already holding `token`, as after a reload with a persisted
    /// session.
    pub fn holding(token: String) -> (s: Self)
        ensures
            s@ == Some(token@),
    {
        TokenStore { token: Some(token) }
    }

    /// Overwrites whatever was stored with `token`.
    pub fn save(&mut self, token: String)
        ensures
            final(self)@ == Some(token@),
    {
        self.token = Some(token);
    }

    /// Reads the stored token back; yields nothing if none was ever saved.
    /// The result is determined by the store's contents alone.
    pub fn load(&self) -> (r: Option<String>)
        ensures
            r.deep_view() == self@,
    {
        match &self.token {
            Some(t) => Some(t.clone()),
            None => None,
        }
    }
}

/// Loading twice in a row without an intervening save yields the same token
/// both times: each load is determined by the store's unchanged contents.
pub proof fn lemma_load_idempotent(
    store: TokenStore,
    first: Option<String>,
    second: Option<String>,
)
    requires
        first.deep_view() == store@,
        second.deep_view() == store@,
    ensures
        first.deep_view() == second.deep_view(),
{
}

} // verus!
