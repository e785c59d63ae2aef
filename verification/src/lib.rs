//! A ticketed raffle: a creator opens a raffle with a fixed ticket price and
//! capacity, buyers purchase numbered tickets paying into a pooled escrow, the
//! owner draws a pseudorandom winner once the raffle is sold out, and the
//! winning ticket's holder claims the pool exactly once.

pub mod draw;
pub mod engine;
pub mod errors;
pub mod reactions;
pub mod shapes;
pub mod state;
pub mod vault;
