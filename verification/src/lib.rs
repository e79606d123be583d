//! Client-side session flow for a small guessing-game UI.
//!
//! The library holds the decision logic of the game client: how verdicts are
//! rendered as badges, how HTTP responses are classified, how the session
//! token is stored and read back, how the game screen's request lifecycle
//! moves between its states, and how the ask-box prepares a draft for
//! submission. The browser plumbing around it (rendering, routing, the actual
//! network and storage calls) performs the actions this logic decides on.

pub mod api;
pub mod ask_box;
pub mod controller;
pub mod store;
pub mod verdict;
