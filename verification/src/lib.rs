//! A verified session orchestrator for a multi-round word-guessing game.
//!
//! The library models the state kept for each player, the guarded
//! transitions that user actions, collaborator replies and scheduled
//! timeouts may take, and the correlation rules that reject stale or
//! misdirected messages.  All messaging itself (sending requests to the
//! word-checking collaborator, suspending and resuming handlers,
//! delivering delayed timeout messages) is left to the surrounding
//! runtime: every entry point here is a pure transition that receives
//! the identities the runtime minted and returns the effects the
//! runtime must perform.

pub mod ids;
pub mod protocol;
pub mod session;
pub mod store;
pub mod game;
pub mod laws;
