//! Round-based scatter/gather coordination for proof-of-capacity slot
//! notifications.
//!
//! A slot event is broadcast to every live subscriber; the round then
//! resolves to the first candidate solution submitted, to "no solution"
//! once every notified subscriber has explicitly declined, or to "no
//! solution" when the round's deadline elapses — whichever comes first.

pub mod dispatch;
pub mod laws;
pub mod registry;
pub mod round;
pub mod types;
