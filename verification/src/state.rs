use vstd::prelude::*;

use crate::key::Key;

verus! {

/// Largest number of winners a lottery can name.
pub const MAX_WINNERS: u64 = 10;

/// `Discount::discount_type` of a discount for holders of an NFT by a given creator.
pub const DISCOUNT_NFT_HOLDER: u8 = 0;

/// `Discount::discount_type` of a discount for one wallet.
pub const DISCOUNT_WALLET: u8 = 1;

/// Where a lottery is in its life.
#[derive(Clone, Copy, Debug, PartialEq, Eq, Structural)]
pub enum LotteryStatus {
    Opened,
    Closed,
    Completed,
}

/// The record of one lottery.
#[derive(Clone, Copy, Debug, PartialEq, Eq)]
pub struct Lottery {
    /// current lottery status
    pub status: LotteryStatus,
    /// creator of the lottery
    pub creator: Key,
    /// token mint the tickets are paid in; `None` when they are paid in lamports
    pub mint: Option<Key>,
    /// vault that receives the ticket payments
    pub vault: Key,
    /// open date (unix seconds)
    pub start_date: i64,
    /// close date (unix seconds)
    pub end_date: i64,
    /// price of one ticket
    pub ticket_price: u64,
    /// number of tickets offered
    pub ticket_numbers: u64,
    /// tickets not sold yet
    pub remain_tickets: u64,
    /// most tickets one buyer may hold
    pub limit_tickets: u64,
    /// winners, set when the lottery is closed
    pub winners: [Key; 10],
    /// number of winners to draw
    pub winner_numbers: u64,
    /// bump seed of the lottery address
    pub bump: u8,
    /// key the lottery address is derived from
    pub lottery_key: Key,
}

impl Lottery {
    /// Account size: discriminator and fields.
    pub const LEN: usize = 8 + 1 + 32 + 33 + 32 + 8 + 8 + 8 + 8 + 8 + 8 + 32 * 10 + 8 + 1 + 32;
}

/// The tickets one buyer holds in one lottery.
#[derive(Clone, Copy, Debug, PartialEq, Eq)]
pub struct Ticket {
    /// owner of the ticket
    pub owner: Key,
    /// address of the lottery
    pub lottery: Key,
    /// number of tickets held
    pub tickets: u64,
    /// bump seed of the ticket address
    pub bump: u8,
}

impl Ticket {
    /// Account size: discriminator and fields.
    pub const LEN: usize = 8 + 32 + 32 + 8 + 1;
}

/// A discount offered on the tickets of a lottery.
#[derive(Clone, Copy, Debug, PartialEq, Eq)]
pub struct Discount {
    /// 0: holders of an NFT whose creators include `verifier`;
    /// 1: the single wallet `verifier`
    pub discount_type: u8,
    /// NFT creator or wallet the discount is for
    pub verifier: Key,
    /// discount in percent of the ticket price
    pub discount: u8,
    /// address of the lottery
    pub lottery: Key,
    /// bump seed of the discount address
    pub bump: u8,
    /// creator of the discount
    pub creator: Key,
}

impl Discount {
    /// Account size: discriminator and fields.
    pub const LEN: usize = 8 + 1 + 32 + 1 + 32 + 1 + 32;
}

} // verus!
