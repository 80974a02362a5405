//! Properties that hold across the instructions of the raffle, stated over the
//! answers and records that the instructions' contracts name.

pub mod lifecycle;
pub mod purchase;
