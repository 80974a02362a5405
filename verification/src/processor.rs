//! The instructions of the raffle, each a transition on the records it is given.

pub mod buy;
pub mod close;
pub mod create;
pub mod update;
