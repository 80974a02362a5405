//! Opening, changing and closing lotteries and ticket records.

use vstd::prelude::*;

use crate::error::ErrorCode;
use crate::key::Key;
use crate::processor::close::{closed_lottery, closing_check, release_check};
use crate::processor::create::{fresh_ticket, opened_lottery, opening_check, ticket_opening_check};
use crate::processor::update::{
    discount_update_check, update_check, updated_discount, updated_lottery,
};
use crate::state::{Discount, Lottery, LotteryStatus, MAX_WINNERS};

verus! {

/// Opening a lottery is accepted exactly when at most `MAX_WINNERS` winners are asked
/// for, the end date is still ahead and the start date comes before it; how the start
/// date stands to the clock plays no part. Too many winners is `MaxWinnerError`, any
/// other refusal `ExpireDateInThePast`.
pub proof fn lemma_opening_accepted_exactly(now: i64, start_date: i64, end_date: i64, winners: u64)
    ensures
        opening_check(now, start_date, end_date, winners) is Ok <==> winners <= MAX_WINNERS && now < end_date
            && start_date < end_date,
        winners > MAX_WINNERS ==> opening_check(now, start_date, end_date, winners)
            == Err::<(), ErrorCode>(ErrorCode::MaxWinnerError),
        winners <= MAX_WINNERS && !(now < end_date && start_date < end_date) ==> opening_check(
            now,
            start_date,
            end_date,
            winners,
        ) == Err::<(), ErrorCode>(ErrorCode::ExpireDateInThePast),
{
}

/// An opened lottery is open and carries exactly the terms it was opened with, with all
/// of its tickets on offer; only its winners list is kept from before.
pub proof fn lemma_opened_lottery_terms(
    base: Lottery,
    creator: Key,
    mint: Option<Key>,
    vault: Key,
    bump: u8,
    lottery_key: Key,
    start_date: i64,
    end_date: i64,
    ticket_price: u64,
    ticket_numbers: u64,
    limit_tickets: u64,
    winners: u64,
)
    ensures
        ({
            let l = opened_lottery(
                base,
                creator,
                mint,
                vault,
                bump,
                lottery_key,
                start_date,
                end_date,
                ticket_price,
                ticket_numbers,
                limit_tickets,
                winners,
            );
            &&& l.status == LotteryStatus::Opened
            &&& l.creator == creator
            &&& l.mint == mint
            &&& l.vault == vault
            &&& l.bump == bump
            &&& l.lottery_key == lottery_key
            &&& l.start_date == start_date
            &&& l.end_date == end_date
            &&& l.ticket_price == ticket_price
            &&& l.ticket_numbers == ticket_numbers
            &&& l.remain_tickets == ticket_numbers
            &&& l.limit_tickets == limit_tickets
            &&& l.winner_numbers == winners
            &&& l.winners == base.winners
        }),
{
}

/// A ticket record can be opened exactly while the lottery's end date is ahead, and
/// starts with no tickets, owned by the buyer, in the given lottery.
pub proof fn lemma_ticket_opening(lottery: Lottery, now: i64, owner: Key, address: Key, bump: u8)
    ensures
        ticket_opening_check(lottery, now) is Ok <==> now < lottery.end_date,
        now >= lottery.end_date ==> ticket_opening_check(lottery, now) == Err::<(), ErrorCode>(
            ErrorCode::ExpireDateInThePast,
        ),
        fresh_ticket(owner, address, bump).tickets == 0,
        fresh_ticket(owner, address, bump).owner == owner,
        fresh_ticket(owner, address, bump).lottery == address,
        fresh_ticket(owner, address, bump).bump == bump,
{
}

/// A change of terms is accepted exactly when at most `MAX_WINNERS` winners are asked
/// for and, by the lottery's current dates, it has not started, has not ended and its
/// dates are in order. Too many winners is `MaxWinnerError`, any other refusal
/// `ExpireDateInThePast`.
pub proof fn lemma_update_accepted_exactly(now: i64, lottery: Lottery, winners: u64)
    ensures
        update_check(now, lottery, winners) is Ok <==> winners <= MAX_WINNERS && now < lottery.start_date
            && lottery.start_date < lottery.end_date,
        winners > MAX_WINNERS ==> update_check(now, lottery, winners) == Err::<(), ErrorCode>(
            ErrorCode::MaxWinnerError,
        ),
        winners <= MAX_WINNERS && !(now < lottery.start_date && lottery.start_date < lottery.end_date)
            ==> update_check(now, lottery, winners) == Err::<(), ErrorCode>(ErrorCode::ExpireDateInThePast),
{
}

/// A change of terms replaces the dates, price, ticket counts, limit and number of
/// winners, puts every ticket on offer again, and keeps everything else.
pub proof fn lemma_updated_lottery_terms(
    lottery: Lottery,
    start_date: i64,
    end_date: i64,
    ticket_price: u64,
    ticket_numbers: u64,
    limit_tickets: u64,
    winners: u64,
)
    ensures
        ({
            let l = updated_lottery(
                lottery,
                start_date,
                end_date,
                ticket_price,
                ticket_numbers,
                limit_tickets,
                winners,
            );
            &&& l.start_date == start_date
            &&& l.end_date == end_date
            &&& l.ticket_price == ticket_price
            &&& l.ticket_numbers == ticket_numbers
            &&& l.remain_tickets == ticket_numbers
            &&& l.limit_tickets == limit_tickets
            &&& l.winner_numbers == winners
            &&& l.status == lottery.status
            &&& l.creator == lottery.creator
            &&& l.mint == lottery.mint
            &&& l.vault == lottery.vault
            &&& l.winners == lottery.winners
            &&& l.bump == lottery.bump
            &&& l.lottery_key == lottery.lottery_key
        }),
{
}

/// A discount can be changed exactly before the lottery starts; the change sets its
/// percentage and keeps everything else.
pub proof fn lemma_discount_update(lottery: Lottery, now: i64, discount: Discount, value: u8)
    ensures
        discount_update_check(lottery, now) is Ok <==> now < lottery.start_date,
        now >= lottery.start_date ==> discount_update_check(lottery, now) == Err::<(), ErrorCode>(
            ErrorCode::ExpireDateInThePast,
        ),
        updated_discount(discount, value).discount == value,
        (Discount { discount: discount.discount, ..updated_discount(discount, value) }) == discount,
{
}

/// A lottery can be closed exactly when it is open and its end date has passed; a
/// lottery that is not open is refused with `LotteryNotOpen`, an open one before its end
/// date with `LotteryNotEnded`.
pub proof fn lemma_closing_accepted_exactly(lottery: Lottery, now: i64)
    ensures
        closing_check(lottery, now) is Ok <==> lottery.status == LotteryStatus::Opened && now
            >= lottery.end_date,
        lottery.status != LotteryStatus::Opened ==> closing_check(lottery, now) == Err::<(), ErrorCode>(
            ErrorCode::LotteryNotOpen,
        ),
        lottery.status == LotteryStatus::Opened && now < lottery.end_date ==> closing_check(lottery, now)
            == Err::<(), ErrorCode>(ErrorCode::LotteryNotEnded),
{
}

/// Closing records the winners exactly as given, position by position, marks the
/// lottery closed and changes nothing else.
pub proof fn lemma_closing_records_winners(lottery: Lottery, winners: [Key; 10])
    ensures
        closed_lottery(lottery, winners).status == LotteryStatus::Closed,
        closed_lottery(lottery, winners).winners == winners,
        forall|i: int| 0 <= i < 10 ==> #[trigger] closed_lottery(lottery, winners).winners@[i] == winners@[i],
        (Lottery {
            status: lottery.status,
            winners: lottery.winners,
            ..closed_lottery(lottery, winners)
        }) == lottery,
{
}

/// A ticket record can be released only for a closed lottery: for any lottery that is
/// not closed the answer is `LotteryOpened`, at any time; for a closed one it is
/// allowed once the end date has passed, and `LotteryNotEnded` before.
pub proof fn lemma_release_needs_closed_lottery(lottery: Lottery, now: i64)
    ensures
        lottery.status != LotteryStatus::Closed ==> release_check(lottery, now) == Err::<(), ErrorCode>(
            ErrorCode::LotteryOpened,
        ),
        release_check(lottery, now) is Ok <==> lottery.status == LotteryStatus::Closed && now
            >= lottery.end_date,
        lottery.status == LotteryStatus::Closed && now < lottery.end_date ==> release_check(lottery, now)
            == Err::<(), ErrorCode>(ErrorCode::LotteryNotEnded),
{
}

} // verus!
