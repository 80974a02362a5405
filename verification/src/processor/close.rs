//! Closing a lottery and releasing ticket records, once its end date has passed.

use vstd::prelude::*;

use crate::error::ErrorCode;
use crate::key::Key;
use crate::state::{Lottery, LotteryStatus};

verus! {

/// What closing `lottery` at time `now` is answered: only an open lottery whose end
/// date has passed can be closed.
pub open spec fn closing_check(lottery: Lottery, now: i64) -> Result<(), ErrorCode> {
    if lottery.status != LotteryStatus::Opened {
        Err(ErrorCode::LotteryNotOpen)
    } else if now < lottery.end_date {
        Err(ErrorCode::LotteryNotEnded)
    } else {
        Ok(())
    }
}

/// What releasing a ticket record of `lottery` at time `now` is answered: only the
/// records of a closed lottery whose end date has passed can be released.
pub open spec fn release_check(lottery: Lottery, now: i64) -> Result<(), ErrorCode> {
    if lottery.status != LotteryStatus::Closed {
        Err(ErrorCode::LotteryOpened)
    } else if now < lottery.end_date {
        Err(ErrorCode::LotteryNotEnded)
    } else {
        Ok(())
    }
}

/// The lottery after it was closed with `winners`.
pub open spec fn closed_lottery(lottery: Lottery, winners: [Key; 10]) -> Lottery {
    Lottery { status: LotteryStatus::Closed, winners, ..lottery }
}

/// Closing a lottery with its winners.
#[derive(Clone, Copy, Debug, PartialEq, Eq)]
pub struct CloseLottery {
    /// the lottery
    pub lottery: Lottery,
    /// the clock's unix timestamp
    pub now: i64,
}

impl CloseLottery {
    /// Closes an open lottery whose end date has passed and records its winners.
    /// Refused, changing nothing, otherwise.
    pub fn process(&mut self, winners: [Key; 10]) -> (r: Result<(), ErrorCode>)
        ensures
            r == closing_check(old(self).lottery, old(self).now),
            r is Ok ==> final(self).lottery == closed_lottery(old(self).lottery, winners),
            r is Err ==> *final(self) == *old(self),
            final(self).now == old(self).now,
    {
        match self.lottery.status {
            LotteryStatus::Opened => {},
            _ => {
                return Err(ErrorCode::LotteryNotOpen);
            },
        }
        if self.now < self.lottery.end_date {
            return Err(ErrorCode::LotteryNotEnded);
        }
        self.lottery.status = LotteryStatus::Closed;
        self.lottery.winners = winners;
        Ok(())
    }
}

/// Releasing a buyer's ticket record once its lottery is over.
#[derive(Clone, Copy, Debug, PartialEq, Eq)]
pub struct CloseAccount {
    /// the lottery
    pub lottery: Lottery,
    /// the clock's unix timestamp
    pub now: i64,
}

impl CloseAccount {
    /// Allows the ticket record to be deleted, its rent going to the receiver, only
    /// once the lottery is closed and its end date has passed.
    pub fn process(&self) -> (r: Result<(), ErrorCode>)
        ensures
            r == release_check(self.lottery, self.now),
    {
        match self.lottery.status {
            LotteryStatus::Closed => {},
            _ => {
                return Err(ErrorCode::LotteryOpened);
            },
        }
        if self.now < self.lottery.end_date {
            return Err(ErrorCode::LotteryNotEnded);
        }
        Ok(())
    }
}

} // verus!
