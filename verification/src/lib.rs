//! The boundary between a desktop shell and a chess engine: a position text is
//! decoded into a board, the engine searches it, and what the engine found is
//! shaped into the response that the shell receives.
//!
//! `position` decodes and rejects position texts; `response` turns the engine's
//! output into the published envelope. The engine itself is not part of this
//! library: a caller hands its board to the engine and the engine's output back.

pub mod position;
pub mod response;
