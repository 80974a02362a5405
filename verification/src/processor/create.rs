//! Opening lotteries and ticket records.

use vstd::prelude::*;

use crate::error::ErrorCode;
use crate::key::Key;
use crate::state::{Lottery, LotteryStatus, Ticket, MAX_WINNERS};

verus! {

/// What opening a lottery is answered, from the clock, the dates and the number of
/// winners asked for.
pub open spec fn opening_check(now: i64, start_date: i64, end_date: i64, winners: u64) -> Result<(), ErrorCode> {
    if winners > MAX_WINNERS {
        Err(ErrorCode::MaxWinnerError)
    } else if now >= end_date {
        Err(ErrorCode::ExpireDateInThePast)
    } else if start_date >= end_date {
        Err(ErrorCode::ExpireDateInThePast)
    } else {
        Ok(())
    }
}

/// The lottery record that opening writes; the winners list is left as it was.
pub open spec fn opened_lottery(
    base: Lottery,
    creator: Key,
    mint: Option<Key>,
    vault: Key,
    bump: u8,
    lottery_key: Key,
    start_date: i64,
    end_date: i64,
    ticket_price: u64,
    ticket_numbers: u64,
    limit_tickets: u64,
    winners: u64,
) -> Lottery {
    Lottery {
        status: LotteryStatus::Opened,
        creator,
        mint,
        vault,
        start_date,
        end_date,
        ticket_price,
        ticket_numbers,
        remain_tickets: ticket_numbers,
        limit_tickets,
        winners: base.winners,
        winner_numbers: winners,
        bump,
        lottery_key,
    }
}

fn open_lottery(
    lottery: &mut Lottery,
    creator: Key,
    mint: Option<Key>,
    vault: Key,
    now: i64,
    bump: u8,
    lottery_key: Key,
    start_date: i64,
    end_date: i64,
    ticket_price: u64,
    ticket_numbers: u64,
    limit_tickets: u64,
    winners: u64,
) -> (r: Result<(), ErrorCode>)
    ensures
        r == opening_check(now, start_date, end_date, winners),
        r is Ok ==> *final(lottery) == opened_lottery(
            *old(lottery),
            creator,
            mint,
            vault,
            bump,
            lottery_key,
            start_date,
            end_date,
            ticket_price,
            ticket_numbers,
            limit_tickets,
            winners,
        ),
        r is Err ==> *final(lottery) == *old(lottery),
{
    if winners > MAX_WINNERS {
        return Err(ErrorCode::MaxWinnerError);
    }
    if now >= end_date {
        return Err(ErrorCode::ExpireDateInThePast);
    }
    if start_date >= end_date {
        return Err(ErrorCode::ExpireDateInThePast);
    }
    lottery.status = LotteryStatus::Opened;
    lottery.creator = creator;
    lottery.mint = mint;
    lottery.vault = vault;
    lottery.start_date = start_date;
    lottery.end_date = end_date;
    lottery.ticket_price = ticket_price;
    lottery.ticket_numbers = ticket_numbers;
    lottery.remain_tickets = ticket_numbers;
    lottery.limit_tickets = limit_tickets;
    lottery.winner_numbers = winners;
    lottery.bump = bump;
    lottery.lottery_key = lottery_key;
    Ok(())
}

/// Opening a lottery whose tickets are paid in lamports.
#[derive(Clone, Copy, Debug, PartialEq, Eq)]
pub struct CreateSolLotteryAccount {
    /// the lottery record, freshly allocated
    pub lottery: Lottery,
    /// the creator of the lottery
    pub creator: Key,
    /// the account that will receive the ticket payments
    pub vault: Key,
    /// the clock's unix timestamp
    pub now: i64,
}

impl CreateSolLotteryAccount {
    /// Opens the lottery with the given terms. Refused, changing nothing, when more
    /// than `MAX_WINNERS` winners are asked for, when the end date has passed, or
    /// when the start date is not before the end date.
    pub fn process(
        &mut self,
        lottery_bump: u8,
        lottery_key: Key,
        start_date: i64,
        end_date: i64,
        ticket_price: u64,
        ticket_numbers: u64,
        limit_tickets: u64,
        winners: u64,
    ) -> (r: Result<(), ErrorCode>)
        ensures
            r == opening_check(old(self).now, start_date, end_date, winners),
            r is Ok ==> final(self).lottery == opened_lottery(
                old(self).lottery,
                old(self).creator,
                old(self).lottery.mint,
                old(self).vault,
                lottery_bump,
                lottery_key,
                start_date,
                end_date,
                ticket_price,
                ticket_numbers,
                limit_tickets,
                winners,
            ),
            r is Err ==> final(self).lottery == old(self).lottery,
            final(self).creator == old(self).creator,
            final(self).vault == old(self).vault,
            final(self).now == old(self).now,
    {
        let mint = self.lottery.mint;
        open_lottery(
            &mut self.lottery,
            self.creator,
            mint,
            self.vault,
            self.now,
            lottery_bump,
            lottery_key,
            start_date,
            end_date,
            ticket_price,
            ticket_numbers,
            limit_tickets,
            winners,
        )
    }
}

/// Opening a lottery whose tickets are paid in tokens of a mint.
#[derive(Clone, Copy, Debug, PartialEq, Eq)]
pub struct CreateSplLotteryAccount {
    /// the lottery record, freshly allocated
    pub lottery: Lottery,
    /// the creator of the lottery
    pub creator: Key,
    /// the mint of the tokens the tickets are paid in
    pub mint: Key,
    /// the token account that will receive the ticket payments
    pub vault: Key,
    /// the clock's unix timestamp
    pub now: i64,
}

impl CreateSplLotteryAccount {
    /// Opens the lottery with the given terms, paid in tokens of `mint`. Refused,
    /// changing nothing, as `CreateSolLotteryAccount::process` is.
    pub fn process(
        &mut self,
        lottery_bump: u8,
        lottery_key: Key,
        start_date: i64,
        end_date: i64,
        ticket_price: u64,
        ticket_numbers: u64,
        limit_tickets: u64,
        winners: u64,
    ) -> (r: Result<(), ErrorCode>)
        ensures
            r == opening_check(old(self).now, start_date, end_date, winners),
            r is Ok ==> final(self).lottery == opened_lottery(
                old(self).lottery,
                old(self).creator,
                Some(old(self).mint),
                old(self).vault,
                lottery_bump,
                lottery_key,
                start_date,
                end_date,
                ticket_price,
                ticket_numbers,
                limit_tickets,
                winners,
            ),
            r is Err ==> final(self).lottery == old(self).lottery,
            final(self).creator == old(self).creator,
            final(self).mint == old(self).mint,
            final(self).vault == old(self).vault,
            final(self).now == old(self).now,
    {
        open_lottery(
            &mut self.lottery,
            self.creator,
            Some(self.mint),
            self.vault,
            self.now,
            lottery_bump,
            lottery_key,
            start_date,
            end_date,
            ticket_price,
            ticket_numbers,
            limit_tickets,
            winners,
        )
    }
}

/// The ticket record a buyer starts a lottery with: no tickets yet.
pub open spec fn fresh_ticket(owner: Key, lottery: Key, bump: u8) -> Ticket {
    Ticket { owner, lottery, tickets: 0, bump }
}

/// What opening a ticket record in `lottery` at time `now` is answered.
pub open spec fn ticket_opening_check(lottery: Lottery, now: i64) -> Result<(), ErrorCode> {
    if now >= lottery.end_date {
        Err(ErrorCode::ExpireDateInThePast)
    } else {
        Ok(())
    }
}

/// Opening a buyer's ticket record in a lottery.
#[derive(Clone, Copy, Debug, PartialEq, Eq)]
pub struct CreateTicketAccount {
    /// the lottery
    pub lottery: Lottery,
    /// the address of the lottery
    pub lottery_address: Key,
    /// the ticket record, freshly allocated
    pub ticket: Ticket,
    /// the buyer
    pub buyer: Key,
    /// the clock's unix timestamp
    pub now: i64,
}

impl CreateTicketAccount {
    /// Starts the buyer's record with no tickets. Refused, changing nothing, once the
    /// lottery's end date has come.
    pub fn process(&mut self, bump: u8) -> (r: Result<(), ErrorCode>)
        ensures
            r == ticket_opening_check(old(self).lottery, old(self).now),
            r is Ok ==> final(self).ticket == fresh_ticket(old(self).buyer, old(self).lottery_address, bump),
            r is Err ==> final(self).ticket == old(self).ticket,
            final(self).lottery == old(self).lottery,
            final(self).lottery_address == old(self).lottery_address,
            final(self).buyer == old(self).buyer,
            final(self).now == old(self).now,
    {
        if self.now >= self.lottery.end_date {
            return Err(ErrorCode::ExpireDateInThePast);
        }
        self.ticket.owner = self.buyer;
        self.ticket.lottery = self.lottery_address;
        self.ticket.tickets = 0;
        self.ticket.bump = bump;
        Ok(())
    }
}

} // verus!
