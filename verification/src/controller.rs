//! The session controller: the request lifecycle of the game screen.
//!
//! A game-screen instance is in one of three states: no token (redirect to
//! the start screen and render nothing further), token present and idle, or
//! token present with one question submission in flight. The controller is a
//! pure transition function: the surrounding UI performs the action each
//! transition decides on (redirect, fetch, submit) and hands the settled
//! outcome back as the next event. At most one submission is in flight at a
//! time; while one is, further submit attempts decide on nothing.

use crate::api::ApiError;
use crate::store::TokenStore;
use vstd::prelude::*;

verus! {

/// The client-side screens.
#[derive(Clone, Copy, Debug, PartialEq, Eq, Structural)]
pub enum Route {
    Home,
    Game,
    Error,
    NotFound,
}

/// The state of a game-screen instance.
#[derive(Clone, Copy, Debug, PartialEq, Eq, Structural)]
pub enum SessionPhase {
    /// No stored token was found: redirect to the start screen.
    NoToken,
    /// A token is present and no submission is in flight.
    TokenPresentIdle,
    /// A token is present and one submission has been dispatched and has not
    /// yet settled.
    TokenPresentInFlight,
}

/// What the surrounding UI must do after a transition.
#[derive(Clone, Debug, PartialEq)]
pub enum Action {
    /// Leave the game screen for the start screen.
    RedirectStart,
    /// Fetch the state text of the session behind `token`, once, and hand
    /// the outcome back through [`Controller::state_fetched`].
    FetchState { token: String },
    /// Post `text` as a question against `token` and hand the outcome back
    /// through [`Controller::submit_settled`].
    SubmitQuestion { token: String, text: String },
    /// Nothing to do.
    Stay,
}

/// One game-screen instance: its phase, its token, and the session state
/// text currently displayed.
#[derive(Clone, Debug, PartialEq)]
pub struct Controller {
    pub phase: SessionPhase,
    pub token: Option<String>,
    pub display: String,
}

impl Controller {
    /// A token is held exactly outside the no-token state.
    pub open spec fn wf(self) -> bool {
        (self.token is None) <==> (self.phase is NoToken)
    }

    /// Entry to the game screen with whatever the store held. Without a
    /// token the one action is the redirect to the start screen — no network
    /// call is made. With a token, the one action is the single state fetch
    /// for exactly that token.
    pub fn mount(stored: Option<String>) -> (r: (Controller, Action))
        ensures
            r.0.wf(),
            r.0.token.deep_view() == stored.deep_view(),
            r.0.display@ == Seq::<char>::empty(),
            stored is None ==> r.0.phase is NoToken
                && r.1 is RedirectStart,
            stored matches Some(t) ==> r.0.phase is TokenPresentIdle
                && (r.1 matches Action::FetchState { token } && token@ == t@),
    {
        match stored {
            None => (
                Controller {
                    phase: SessionPhase::NoToken,
                    token: None,
                    display: String::new(),
                },
                Action::RedirectStart,
            ),
            Some(t) => (
                Controller {
                    phase: SessionPhase::TokenPresentIdle,
                    token: Some(t.clone()),
                    display: String::new(),
                },
                Action::FetchState { token: t },
            ),
        }
    }

    /// The one-time session-state fetch settled. Success replaces the
    /// displayed text; failure leaves the display as it was (the caller may
    /// log it). Phase and token are untouched either way.
    pub fn state_fetched(&mut self, outcome: Result<String, ApiError>)
        ensures
            final(self).phase == old(self).phase,
            final(self).token == old(self).token,
            outcome matches Ok(text) ==> final(self).display == text,
            outcome is Err ==> final(self).display == old(self).display,
    {
        match outcome {
            Ok(text) => self.display = text,
            Err(_) => (),
        }
    }

    /// A submit attempt with the ask control's text. Only from the idle
    /// token-present state does it dispatch anything: the text is handed on
    /// unmodified and the phase moves to in-flight. While a submission is in
    /// flight, or without a token, the attempt decides on nothing and
    /// changes nothing — no second concurrent submission can be produced.
    pub fn submit(&mut self, text: String) -> (a: Action)
        requires
            old(self).wf(),
        ensures
            final(self).wf(),
            final(self).token == old(self).token,
            final(self).display == old(self).display,
            old(self).phase is TokenPresentIdle ==> {
                &&& final(self).phase is TokenPresentInFlight
                &&& a matches Action::SubmitQuestion { token, text: sent }
                    && Some(token@) == old(self).token.deep_view()
                    && sent == text
            },
            !(old(self).phase is TokenPresentIdle) ==> {
                &&& final(self).phase == old(self).phase
                &&& a is Stay
            },
    {
        match self.phase {
            SessionPhase::TokenPresentIdle => {
                let token = match &self.token {
                    Some(t) => t.clone(),
                    None => unreached(),  // wf: idle implies a token is held
                };
                self.phase = SessionPhase::TokenPresentInFlight;
                Action::SubmitQuestion { token, text }
            },
            _ => Action::Stay,
        }
    }

    /// The dispatched submission settled, with success or failure. Either
    /// way the screen returns to idle and the displayed text is unchanged:
    /// failures are swallowed (the caller may log them), and answer text is
    /// not wired into the display.
    pub fn submit_settled(&mut self, _outcome: &Result<String, ApiError>)
        requires
            old(self).wf(),
            old(self).phase is TokenPresentInFlight,
        ensures
            final(self).wf(),
            final(self).phase is TokenPresentIdle,
            final(self).token == old(self).token,
            final(self).display == old(self).display,
    {
        self.phase = SessionPhase::TokenPresentIdle;
    }

    /// Whether a submission is in flight — the ask control is disabled
    /// exactly then.
    pub fn is_in_flight(&self) -> (b: bool)
        ensures
            b == (self.phase is TokenPresentInFlight),
    {
        match self.phase {
            SessionPhase::TokenPresentInFlight => true,
            _ => false,
        }
    }
}

/// The start screen's new-game action settled. A token acquired is persisted
/// and the game screen is next; a failure persists nothing and leads to the
/// error screen.
pub fn complete_create_session(store: &mut TokenStore, outcome: Result<String, ApiError>) -> (dest:
    Route)
    ensures
        outcome matches Ok(token) ==> final(store)@ == Some(token@) && dest is Game,
        outcome is Err ==> final(store)@ == old(store)@ && dest is Error,
{
    match outcome {
        Ok(token) => {
            store.save(token);
            Route::Game
        },
        Err(_) => Route::Error,
    }
}

} // verus!
