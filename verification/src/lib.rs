//! The rules of a raffle: lotteries are opened by a creator, buyers take
//! tickets (optionally at a discount), and the lottery is closed with its
//! winners. Every instruction is a transition on plain account records; the
//! surrounding program moves funds and stores the records.

pub mod error;
pub mod key;
pub mod laws;
pub mod metadata;
pub mod processor;
pub mod state;

pub use error::ErrorCode;
pub use key::Key;
pub use processor::buy::{BuyTicketWithSolAccount, BuyTicketWithSplAccount, DiscountAccount};
pub use processor::close::{CloseAccount, CloseLottery};
pub use processor::create::{CreateSolLotteryAccount, CreateSplLotteryAccount, CreateTicketAccount};
pub use processor::update::{UpdateDiscountAccount, UpdateLotteryAccount};
pub use state::{Discount, Lottery, LotteryStatus, Ticket};
