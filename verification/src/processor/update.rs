//! Changing the terms of a lottery before it starts.

use vstd::prelude::*;

use crate::error::ErrorCode;
use crate::state::{Discount, Lottery, MAX_WINNERS};

verus! {

/// What a change of terms is answered, from the clock, the lottery's current dates
/// and the number of winners asked for. The new dates are not checked.
pub open spec fn update_check(now: i64, lottery: Lottery, winners: u64) -> Result<(), ErrorCode> {
    if winners > MAX_WINNERS {
        Err(ErrorCode::MaxWinnerError)
    } else if now >= lottery.end_date {
        Err(ErrorCode::ExpireDateInThePast)
    } else if lottery.start_date >= lottery.end_date {
        Err(ErrorCode::ExpireDateInThePast)
    } else if now >= lottery.start_date {
        Err(ErrorCode::ExpireDateInThePast)
    } else {
        Ok(())
    }
}

/// The lottery with its terms replaced; all tickets are on offer again.
pub open spec fn updated_lottery(
    lottery: Lottery,
    start_date: i64,
    end_date: i64,
    ticket_price: u64,
    ticket_numbers: u64,
    limit_tickets: u64,
    winners: u64,
) -> Lottery {
    Lottery {
        start_date,
        end_date,
        ticket_price,
        ticket_numbers,
        remain_tickets: ticket_numbers,
        limit_tickets,
        winner_numbers: winners,
        ..lottery
    }
}

/// What changing a discount of `lottery` at time `now` is answered.
pub open spec fn discount_update_check(lottery: Lottery, now: i64) -> Result<(), ErrorCode> {
    if now >= lottery.start_date {
        Err(ErrorCode::ExpireDateInThePast)
    } else {
        Ok(())
    }
}

/// The discount with its percentage replaced.
pub open spec fn updated_discount(discount: Discount, discount_value: u8) -> Discount {
    Discount { discount: discount_value, ..discount }
}

/// Changing the terms of a lottery.
#[derive(Clone, Copy, Debug, PartialEq, Eq)]
pub struct UpdateLotteryAccount {
    /// the lottery
    pub lottery: Lottery,
    /// the clock's unix timestamp
    pub now: i64,
}

impl UpdateLotteryAccount {
    /// Replaces the dates, price, ticket counts and number of winners of a lottery
    /// that has not started; all tickets are on offer again. Refused, changing
    /// nothing, as `update_check` says.
    pub fn process(
        &mut self,
        start_date: i64,
        end_date: i64,
        ticket_price: u64,
        ticket_numbers: u64,
        limit_tickets: u64,
        winners: u64,
    ) -> (r: Result<(), ErrorCode>)
        ensures
            r == update_check(old(self).now, old(self).lottery, winners),
            r is Ok ==> final(self).lottery == updated_lottery(
                old(self).lottery,
                start_date,
                end_date,
                ticket_price,
                ticket_numbers,
                limit_tickets,
                winners,
            ),
            r is Err ==> final(self).lottery == old(self).lottery,
            final(self).now == old(self).now,
    {
        if winners > MAX_WINNERS {
            return Err(ErrorCode::MaxWinnerError);
        }
        if self.now >= self.lottery.end_date {
            return Err(ErrorCode::ExpireDateInThePast);
        }
        if self.lottery.start_date >= self.lottery.end_date {
            return Err(ErrorCode::ExpireDateInThePast);
        }
        if self.now >= self.lottery.start_date {
            return Err(ErrorCode::ExpireDateInThePast);
        }
        self.lottery.start_date = start_date;
        self.lottery.end_date = end_date;
        self.lottery.ticket_price = ticket_price;
        self.lottery.ticket_numbers = ticket_numbers;
        self.lottery.remain_tickets = ticket_numbers;
        self.lottery.limit_tickets = limit_tickets;
        self.lottery.winner_numbers = winners;
        Ok(())
    }
}

/// Changing the percentage of a discount.
#[derive(Clone, Copy, Debug, PartialEq, Eq)]
pub struct UpdateDiscountAccount {
    /// the lottery the discount belongs to
    pub lottery: Lottery,
    /// the discount
    pub discount: Discount,
    /// the clock's unix timestamp
    pub now: i64,
}

impl UpdateDiscountAccount {
    /// Sets the discount's percentage, while the lottery has not started. Refused,
    /// changing nothing, once it has.
    pub fn process(&mut self, discount_value: u8) -> (r: Result<(), ErrorCode>)
        ensures
            r == discount_update_check(old(self).lottery, old(self).now),
            r is Ok ==> final(self).discount == updated_discount(old(self).discount, discount_value),
            r is Err ==> final(self).discount == old(self).discount,
            final(self).lottery == old(self).lottery,
            final(self).now == old(self).now,
    {
        if self.now >= self.lottery.start_date {
            return Err(ErrorCode::ExpireDateInThePast);
        }
        self.discount.discount = discount_value;
        Ok(())
    }
}

} // verus!
