//! Coordination core for two-party, turn-based chess sessions.
//!
//! A session is a state machine (`chess_match`) driven by typed commands
//! (`command`) that arrive on a shared event bus. The chess rules themselves
//! are supplied by an external oracle (`oracle`); this crate owns the
//! per-session state, the turn and clock authority, and the command-dispatch
//! decisions, all of which are verified.

pub mod chess_match;
pub mod command;
pub mod oracle;
