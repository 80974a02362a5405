//! Buying tickets, paid in lamports or in tokens.

use vstd::prelude::*;

use crate::error::ErrorCode;
use crate::key::Key;
use crate::metadata::{creator_check, decoded_metadata_creators, metadata_lists_creator};
use crate::state::{
    Discount, Lottery, LotteryStatus, Ticket, DISCOUNT_NFT_HOLDER, DISCOUNT_WALLET,
};

verus! {

/// The account passed as the discount of a purchase.
#[derive(Clone, Copy, Debug, PartialEq, Eq)]
pub enum DiscountAccount {
    /// No discount: the lottery's own address stands in its place.
    Absent,
    /// An account that could not be read as a discount record.
    Unreadable,
    /// A discount record.
    Found(Discount),
}

/// The bytes of an optional account, by value.
pub open spec fn bytes_view(data: Option<Vec<u8>>) -> Option<Seq<u8>> {
    match data {
        Some(v) => Some(v@),
        None => None,
    }
}

/// Whether `discount` applies to a purchase by `buyer`, given the token-metadata
/// account passed along (if any). `None` where the instruction aborts: an empty
/// metadata account cannot be decoded at all.
pub open spec fn discount_eligibility(discount: Discount, metadata: Option<Seq<u8>>, buyer: Key) -> Option<Result<bool, ErrorCode>> {
    if discount.discount_type == DISCOUNT_NFT_HOLDER {
        match metadata {
            None => Some(Ok(false)),
            Some(data) => if data.len() == 0 {
                None
            } else {
                Some(creator_check(decoded_metadata_creators(data), discount.verifier@))
            },
        }
    } else if discount.discount_type == DISCOUNT_WALLET {
        Some(Ok(discount.verifier == buyer))
    } else {
        Some(Ok(false))
    }
}

/// `percent` percent of `price`, rounded down; `None` when `price * percent` does not fit
/// in a `u64`.
pub open spec fn percent_of_spec(price: u64, percent: u8) -> Option<u64> {
    if price * percent > u64::MAX {
        None
    } else {
        Some(((price * percent) / 100) as u64)
    }
}

/// The amount taken off the price of one ticket; `None` where the instruction aborts.
pub open spec fn discount_due(discount: DiscountAccount, metadata: Option<Seq<u8>>, buyer: Key, price: u64) -> Option<Result<u64, ErrorCode>> {
    match discount {
        DiscountAccount::Absent => Some(Ok(0u64)),
        DiscountAccount::Unreadable => Some(Err(ErrorCode::DiscountUnreadable)),
        DiscountAccount::Found(d) => match discount_eligibility(d, metadata, buyer) {
            None => None,
            Some(Err(e)) => Some(Err(e)),
            Some(Ok(false)) => Some(Ok(0u64)),
            Some(Ok(true)) => match percent_of_spec(price, d.discount) {
                None => None,
                Some(x) => Some(Ok(x)),
            },
        },
    }
}

/// What a purchase of `amount` tickets is answered: `Some(Ok(cost))` with the sum the
/// buyer pays into the vault, `Some(Err(..))` when it is refused, and `None` where the
/// instruction aborts on an arithmetic overflow, an oversold lottery or an empty
/// metadata account.
pub open spec fn purchase(
    lottery: Lottery,
    ticket: Ticket,
    buyer: Key,
    discount: DiscountAccount,
    metadata: Option<Seq<u8>>,
    now: i64,
    amount: u8,
) -> Option<Result<u64, ErrorCode>> {
    if lottery.status != LotteryStatus::Opened {
        Some(Err(ErrorCode::LotteryNotOpen))
    } else {
        match discount_due(discount, metadata, buyer, lottery.ticket_price) {
            None => None,
            Some(Err(e)) => Some(Err(e)),
            Some(Ok(off)) => if now >= lottery.end_date {
                Some(Err(ErrorCode::ExpireDateInThePast))
            } else if ticket.tickets + amount > u64::MAX {
                None
            } else if ticket.tickets + amount > lottery.limit_tickets {
                Some(Err(ErrorCode::TicketLimited))
            } else if amount > lottery.remain_tickets {
                None
            } else if off > lottery.ticket_price {
                None
            } else if (lottery.ticket_price - off) * amount > u64::MAX {
                None
            } else {
                Some(Ok(((lottery.ticket_price - off) * amount) as u64))
            },
        }
    }
}

/// The lottery after `amount` of its tickets were sold.
pub open spec fn lottery_after_sale(lottery: Lottery, amount: u8) -> Lottery {
    Lottery { remain_tickets: (lottery.remain_tickets - amount) as u64, ..lottery }
}

/// The buyer's ticket record after buying `amount` more tickets.
pub open spec fn ticket_after_sale(ticket: Ticket, amount: u8) -> Ticket {
    Ticket { tickets: (ticket.tickets + amount) as u64, ..ticket }
}

/// `percent` percent of `price`, rounded down; `None` when `price * percent` overflows.
pub fn percent_of(price: u64, percent: u8) -> (r: Option<u64>)
    ensures
        r == percent_of_spec(price, percent),
{
    match price.checked_mul(percent as u64) {
        None => None,
        Some(p) => Some(p / 100),
    }
}

fn discount_off(discount: &DiscountAccount, metadata: &Option<Vec<u8>>, buyer: &Key, price: u64) -> (r: Option<Result<u64, ErrorCode>>)
    ensures
        r == discount_due(*discount, bytes_view(*metadata), *buyer, price),
{
    match discount {
        DiscountAccount::Absent => Some(Ok(0)),
        DiscountAccount::Unreadable => Some(Err(ErrorCode::DiscountUnreadable)),
        DiscountAccount::Found(d) => {
            let eligible: bool = if d.discount_type == DISCOUNT_NFT_HOLDER {
                match metadata {
                    None => false,
                    Some(data) => {
                        if data.len() == 0 {
                            return None;
                        }
                        match metadata_lists_creator(data.as_slice(), &d.verifier) {
                            Err(e) => {
                                return Some(Err(e));
                            },
                            Ok(listed) => listed,
                        }
                    },
                }
            } else if d.discount_type == DISCOUNT_WALLET {
                d.verifier.same_as(buyer)
            } else {
                false
            };
            if eligible {
                match percent_of(price, d.discount) {
                    None => None,
                    Some(x) => Some(Ok(x)),
                }
            } else {
                Some(Ok(0))
            }
        },
    }
}

fn quote(
    lottery: &Lottery,
    ticket: &Ticket,
    buyer: &Key,
    discount: &DiscountAccount,
    metadata: &Option<Vec<u8>>,
    now: i64,
    amount: u8,
) -> (r: Option<Result<u64, ErrorCode>>)
    ensures
        r == purchase(*lottery, *ticket, *buyer, *discount, bytes_view(*metadata), now, amount),
{
    match lottery.status {
        LotteryStatus::Opened => {},
        _ => {
            return Some(Err(ErrorCode::LotteryNotOpen));
        },
    }
    let off: u64 = match discount_off(discount, metadata, buyer, lottery.ticket_price) {
        None => {
            return None;
        },
        Some(Err(e)) => {
            return Some(Err(e));
        },
        Some(Ok(x)) => x,
    };
    if now >= lottery.end_date {
        return Some(Err(ErrorCode::ExpireDateInThePast));
    }
    let held: u64 = match ticket.tickets.checked_add(amount as u64) {
        None => {
            return None;
        },
        Some(h) => h,
    };
    if held > lottery.limit_tickets {
        return Some(Err(ErrorCode::TicketLimited));
    }
    if (amount as u64) > lottery.remain_tickets {
        return None;
    }
    let unit: u64 = match lottery.ticket_price.checked_sub(off) {
        None => {
            return None;
        },
        Some(u) => u,
    };
    match unit.checked_mul(amount as u64) {
        None => None,
        Some(cost) => Some(Ok(cost)),
    }
}

/// The lottery once a purchase has been answered `answer`: tickets leave it only when
/// the purchase is accepted.
pub open spec fn lottery_after_purchase(lottery: Lottery, amount: u8, answer: Option<Result<u64, ErrorCode>>) -> Lottery {
    if answer matches Some(Ok(_)) {
        lottery_after_sale(lottery, amount)
    } else {
        lottery
    }
}

/// The buyer's ticket record once a purchase has been answered `answer`.
pub open spec fn ticket_after_purchase(ticket: Ticket, amount: u8, answer: Option<Result<u64, ErrorCode>>) -> Ticket {
    if answer matches Some(Ok(_)) {
        ticket_after_sale(ticket, amount)
    } else {
        ticket
    }
}

fn purchase_tickets(
    lottery: &mut Lottery,
    ticket: &mut Ticket,
    buyer: &Key,
    discount: &DiscountAccount,
    metadata: &Option<Vec<u8>>,
    now: i64,
    amount: u8,
) -> (r: Result<u64, ErrorCode>)
    requires
        purchase(*old(lottery), *old(ticket), *buyer, *discount, bytes_view(*metadata), now, amount) is Some,
    ensures
        r == purchase(*old(lottery), *old(ticket), *buyer, *discount, bytes_view(*metadata), now, amount).unwrap(),
        *final(lottery) == lottery_after_purchase(*old(lottery), amount, Some(r)),
        *final(ticket) == ticket_after_purchase(*old(ticket), amount, Some(r)),
{
    let answer = quote(lottery, ticket, buyer, discount, metadata, now, amount).unwrap();
    match answer {
        Ok(cost) => {
            ticket.tickets = ticket.tickets + amount as u64;
            lottery.remain_tickets = lottery.remain_tickets - amount as u64;
            Ok(cost)
        },
        Err(e) => Err(e),
    }
}

/// A purchase of tickets paid in lamports, with the accounts it reads and writes.
#[derive(Clone, Debug, PartialEq, Eq)]
pub struct BuyTicketWithSolAccount {
    /// the lottery
    pub lottery: Lottery,
    /// the buyer's ticket record in that lottery
    pub ticket: Ticket,
    /// the buyer
    pub buyer: Key,
    /// the discount passed along
    pub discount: DiscountAccount,
    /// data of the first extra account, read as token metadata for an NFT-holder discount
    pub nft_metadata: Option<Vec<u8>>,
    /// the clock's unix timestamp
    pub now: i64,
}

impl BuyTicketWithSolAccount {
    /// What buying `amount` tickets is answered (see `purchase`).
    pub open spec fn outcome(&self, amount: u8) -> Option<Result<u64, ErrorCode>> {
        purchase(self.lottery, self.ticket, self.buyer, self.discount, bytes_view(self.nft_metadata), self.now, amount)
    }

    /// Sells `amount` tickets and returns the lamports the buyer owes the vault.
    /// On success the buyer holds `amount` more tickets and the lottery has `amount`
    /// fewer left; a refused purchase changes nothing.
    pub fn process(&mut self, amount: u8) -> (r: Result<u64, ErrorCode>)
        requires
            old(self).outcome(amount) is Some,
        ensures
            r == old(self).outcome(amount).unwrap(),
            final(self).lottery == lottery_after_purchase(old(self).lottery, amount, Some(r)),
            final(self).ticket == ticket_after_purchase(old(self).ticket, amount, Some(r)),
            final(self).lottery.remain_tickets + final(self).ticket.tickets
                == old(self).lottery.remain_tickets + old(self).ticket.tickets,
            final(self).buyer == old(self).buyer,
            final(self).discount == old(self).discount,
            final(self).nft_metadata == old(self).nft_metadata,
            final(self).now == old(self).now,
    {
        purchase_tickets(&mut self.lottery, &mut self.ticket, &self.buyer, &self.discount, &self.nft_metadata, self.now, amount)
    }

    /// Like `process`, but answers `None`, changing nothing, where the purchase would
    /// abort (see `purchase`).
    pub fn try_process(&mut self, amount: u8) -> (r: Option<Result<u64, ErrorCode>>)
        ensures
            r == old(self).outcome(amount),
            final(self).lottery == lottery_after_purchase(old(self).lottery, amount, r),
            final(self).ticket == ticket_after_purchase(old(self).ticket, amount, r),
            final(self).lottery.remain_tickets + final(self).ticket.tickets
                == old(self).lottery.remain_tickets + old(self).ticket.tickets,
            final(self).buyer == old(self).buyer,
            final(self).discount == old(self).discount,
            final(self).nft_metadata == old(self).nft_metadata,
            final(self).now == old(self).now,
    {
        if quote(&self.lottery, &self.ticket, &self.buyer, &self.discount, &self.nft_metadata, self.now, amount).is_none() {
            None
        } else {
            Some(self.process(amount))
        }
    }
}

/// A purchase of tickets paid in tokens of the lottery's mint, with the accounts it
/// reads and writes.
#[derive(Clone, Debug, PartialEq, Eq)]
pub struct BuyTicketWithSplAccount {
    /// the lottery
    pub lottery: Lottery,
    /// the buyer's ticket record in that lottery
    pub ticket: Ticket,
    /// the buyer
    pub buyer: Key,
    /// the discount passed along
    pub discount: DiscountAccount,
    /// data of the first extra account, read as token metadata for an NFT-holder discount
    pub nft_metadata: Option<Vec<u8>>,
    /// the clock's unix timestamp
    pub now: i64,
}

impl BuyTicketWithSplAccount {
    /// What buying `amount` tickets is answered (see `purchase`).
    pub open spec fn outcome(&self, amount: u8) -> Option<Result<u64, ErrorCode>> {
        purchase(self.lottery, self.ticket, self.buyer, self.discount, bytes_view(self.nft_metadata), self.now, amount)
    }

    /// Sells `amount` tickets and returns the tokens the buyer owes the vault.
    /// On success the buyer holds `amount` more tickets and the lottery has `amount`
    /// fewer left; a refused purchase changes nothing.
    pub fn process(&mut self, amount: u8) -> (r: Result<u64, ErrorCode>)
        requires
            old(self).outcome(amount) is Some,
        ensures
            r == old(self).outcome(amount).unwrap(),
            final(self).lottery == lottery_after_purchase(old(self).lottery, amount, Some(r)),
            final(self).ticket == ticket_after_purchase(old(self).ticket, amount, Some(r)),
            final(self).lottery.remain_tickets + final(self).ticket.tickets
                == old(self).lottery.remain_tickets + old(self).ticket.tickets,
            final(self).buyer == old(self).buyer,
            final(self).discount == old(self).discount,
            final(self).nft_metadata == old(self).nft_metadata,
            final(self).now == old(self).now,
    {
        purchase_tickets(&mut self.lottery, &mut self.ticket, &self.buyer, &self.discount, &self.nft_metadata, self.now, amount)
    }

    /// Like `process`, but answers `None`, changing nothing, where the purchase would
    /// abort (see `purchase`).
    pub fn try_process(&mut self, amount: u8) -> (r: Option<Result<u64, ErrorCode>>)
        ensures
            r == old(self).outcome(amount),
            final(self).lottery == lottery_after_purchase(old(self).lottery, amount, r),
            final(self).ticket == ticket_after_purchase(old(self).ticket, amount, r),
            final(self).lottery.remain_tickets + final(self).ticket.tickets
                == old(self).lottery.remain_tickets + old(self).ticket.tickets,
            final(self).buyer == old(self).buyer,
            final(self).discount == old(self).discount,
            final(self).nft_metadata == old(self).nft_metadata,
            final(self).now == old(self).now,
    {
        if quote(&self.lottery, &self.ticket, &self.buyer, &self.discount, &self.nft_metadata, self.now, amount).is_none() {
            None
        } else {
            Some(self.process(amount))
        }
    }
}

} // verus!
