//! A turn-based chess session: the move notation, the colours, and the
//! state machine that drives one game between two players and a crowd of
//! spectators. The chess rules themselves and all I/O live outside.

pub mod color;
pub mod notation;
pub mod session;
