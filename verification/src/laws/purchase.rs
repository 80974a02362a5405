//! What a ticket purchase is answered and what it does to the records.

use metaplex_token_metadata::solana_program::program_error::ProgramError;
use vstd::prelude::*;

use crate::error::ErrorCode;
use crate::key::Key;
use crate::metadata::{creator_check, creators_view, decoded_metadata_creators, key_views};
use crate::processor::buy::{
    bytes_view, discount_due, lottery_after_purchase, lottery_after_sale, percent_of_spec, purchase,
    ticket_after_purchase, ticket_after_sale, BuyTicketWithSolAccount, BuyTicketWithSplAccount,
    DiscountAccount,
};
use crate::processor::close::{closed_lottery, closing_check, release_check};
use crate::state::{Discount, Lottery, LotteryStatus, Ticket, DISCOUNT_NFT_HOLDER, DISCOUNT_WALLET};

verus! {

/// A sale moves tickets from the lottery to the buyer: what the buyer holds plus what
/// the lottery has left is the same before and after an accepted purchase, and the
/// lottery is never sold below zero.
pub proof fn lemma_sale_conserves_tickets(
    lottery: Lottery,
    ticket: Ticket,
    buyer: Key,
    discount: DiscountAccount,
    metadata: Option<Seq<u8>>,
    now: i64,
    amount: u8,
)
    requires
        purchase(lottery, ticket, buyer, discount, metadata, now, amount) matches Some(Ok(_)),
    ensures
        ticket_after_sale(ticket, amount).tickets + lottery_after_sale(lottery, amount).remain_tickets
            == ticket.tickets + lottery.remain_tickets,
        amount <= lottery.remain_tickets,
        lottery_after_sale(lottery, amount).remain_tickets <= lottery.remain_tickets,
{
}

/// An accepted purchase never takes a buyer past the lottery's per-buyer limit, and
/// happens only while the lottery is open and before its end date.
pub proof fn lemma_sale_within_limit(
    lottery: Lottery,
    ticket: Ticket,
    buyer: Key,
    discount: DiscountAccount,
    metadata: Option<Seq<u8>>,
    now: i64,
    amount: u8,
)
    requires
        purchase(lottery, ticket, buyer, discount, metadata, now, amount) matches Some(Ok(_)),
    ensures
        ticket_after_sale(ticket, amount).tickets <= lottery.limit_tickets,
        lottery.status == LotteryStatus::Opened,
        now < lottery.end_date,
{
}

/// A discount never raises the price: an accepted purchase costs at most the full
/// price of its tickets, and exactly that without a discount.
pub proof fn lemma_discount_never_raises_cost(
    lottery: Lottery,
    ticket: Ticket,
    buyer: Key,
    discount: DiscountAccount,
    metadata: Option<Seq<u8>>,
    now: i64,
    amount: u8,
)
    requires
        purchase(lottery, ticket, buyer, discount, metadata, now, amount) matches Some(Ok(_)),
    ensures
        purchase(lottery, ticket, buyer, discount, metadata, now, amount)->Some_0->Ok_0 <= lottery.ticket_price * amount,
        discount == DiscountAccount::Absent ==> purchase(lottery, ticket, buyer, discount, metadata, now, amount)->Some_0->Ok_0
            == lottery.ticket_price * amount,
{
    let off = discount_due(discount, metadata, buyer, lottery.ticket_price)->Some_0->Ok_0;
    assert((lottery.ticket_price - off) * amount <= lottery.ticket_price * amount) by (nonlinear_arith)
        requires
            0 <= off <= lottery.ticket_price,
            0 <= amount,
    ;
}

/// A wallet discount is for its wallet alone: anyone else pays the full price.
pub proof fn lemma_wallet_discount_only_for_its_wallet(
    lottery: Lottery,
    ticket: Ticket,
    buyer: Key,
    discount: Discount,
    metadata: Option<Seq<u8>>,
    now: i64,
    amount: u8,
)
    requires
        discount.discount_type == DISCOUNT_WALLET,
        discount.verifier != buyer,
        purchase(lottery, ticket, buyer, DiscountAccount::Found(discount), metadata, now, amount)
            matches Some(Ok(_)),
    ensures
        purchase(lottery, ticket, buyer, DiscountAccount::Found(discount), metadata, now, amount)->Some_0->Ok_0
            == lottery.ticket_price * amount,
{
}

/// An NFT-holder discount needs its creator among the NFT's creators: when the decoded
/// metadata does not list it, the buyer pays the full price.
pub proof fn lemma_nft_discount_needs_listed_creator(
    lottery: Lottery,
    ticket: Ticket,
    buyer: Key,
    discount: Discount,
    data: Seq<u8>,
    now: i64,
    amount: u8,
)
    requires
        discount.discount_type == DISCOUNT_NFT_HOLDER,
        !(decoded_metadata_creators(data) matches Ok(Some(cs)) && cs.contains(discount.verifier@)),
        purchase(lottery, ticket, buyer, DiscountAccount::Found(discount), Some(data), now, amount)
            matches Some(Ok(_)),
    ensures
        purchase(lottery, ticket, buyer, DiscountAccount::Found(discount), Some(data), now, amount)->Some_0->Ok_0
            == lottery.ticket_price * amount,
{
}

/// A closed lottery sells no tickets, cannot be closed a second time, and lets its
/// ticket records be released; while it was open they could not be.
pub proof fn lemma_closed_lottery_is_final(
    lottery: Lottery,
    winners: [Key; 10],
    now: i64,
    later: i64,
    ticket: Ticket,
    buyer: Key,
    discount: DiscountAccount,
    metadata: Option<Seq<u8>>,
    amount: u8,
)
    requires
        closing_check(lottery, now) is Ok,
        now <= later,
    ensures
        purchase(closed_lottery(lottery, winners), ticket, buyer, discount, metadata, later, amount)
            == Some(Err::<u64, ErrorCode>(ErrorCode::LotteryNotOpen)),
        closing_check(closed_lottery(lottery, winners), later) == Err::<(), ErrorCode>(ErrorCode::LotteryNotOpen),
        release_check(closed_lottery(lottery, winners), later) is Ok,
        release_check(lottery, later) == Err::<(), ErrorCode>(ErrorCode::LotteryOpened),
{
}

/// Whatever a purchase is answered, tickets only move between the lottery and the
/// buyer: what the buyer holds plus what the lottery has left stays the same, and no
/// other term of the lottery changes.
pub proof fn lemma_purchase_conserves_tickets(
    lottery: Lottery,
    ticket: Ticket,
    buyer: Key,
    discount: DiscountAccount,
    metadata: Option<Seq<u8>>,
    now: i64,
    amount: u8,
)
    ensures
        lottery_after_purchase(lottery, amount, purchase(lottery, ticket, buyer, discount, metadata, now, amount)).remain_tickets
            + ticket_after_purchase(ticket, amount, purchase(lottery, ticket, buyer, discount, metadata, now, amount)).tickets
            == lottery.remain_tickets + ticket.tickets,
        lottery_after_purchase(lottery, amount, purchase(lottery, ticket, buyer, discount, metadata, now, amount))
            == (Lottery {
                remain_tickets: lottery_after_purchase(lottery, amount, purchase(lottery, ticket, buyer, discount, metadata, now, amount)).remain_tickets,
                ..lottery
            }),
{
}


/// Only an open lottery sells tickets: any purchase from a lottery that is not open is
/// refused with `LotteryNotOpen`, whatever else is passed.
pub proof fn lemma_purchase_needs_open_lottery(
    lottery: Lottery,
    ticket: Ticket,
    buyer: Key,
    discount: DiscountAccount,
    metadata: Option<Seq<u8>>,
    now: i64,
    amount: u8,
)
    requires
        lottery.status != LotteryStatus::Opened,
    ensures
        purchase(lottery, ticket, buyer, discount, metadata, now, amount)
            == Some(Err::<u64, ErrorCode>(ErrorCode::LotteryNotOpen)),
{
}

/// An accepted purchase happens while the lottery is open and before its end date,
/// keeps the buyer within the per-buyer limit and never sells more tickets than remain.
pub proof fn lemma_accepted_purchase_respects_the_terms(
    lottery: Lottery,
    ticket: Ticket,
    buyer: Key,
    discount: DiscountAccount,
    metadata: Option<Seq<u8>>,
    now: i64,
    amount: u8,
)
    requires
        purchase(lottery, ticket, buyer, discount, metadata, now, amount) matches Some(Ok(_)),
    ensures
        lottery.status == LotteryStatus::Opened,
        now < lottery.end_date,
        ticket.tickets + amount <= lottery.limit_tickets,
        amount <= lottery.remain_tickets,
{
}

/// Without a discount, a purchase that meets every term is accepted at the full price
/// of its tickets.
pub proof fn lemma_full_price_purchase_accepted(
    lottery: Lottery,
    ticket: Ticket,
    buyer: Key,
    metadata: Option<Seq<u8>>,
    now: i64,
    amount: u8,
)
    requires
        lottery.status == LotteryStatus::Opened,
        now < lottery.end_date,
        ticket.tickets + amount <= lottery.limit_tickets,
        amount <= lottery.remain_tickets,
        lottery.ticket_price * amount <= u64::MAX,
    ensures
        purchase(lottery, ticket, buyer, DiscountAccount::Absent, metadata, now, amount)
            == Some(Ok::<u64, ErrorCode>((lottery.ticket_price * amount) as u64)),
{
}

/// Once the end date has come, an open lottery refuses a purchase with
/// `ExpireDateInThePast`, before looking at the limit or the tickets left.
pub proof fn lemma_purchase_after_end_date_refused(
    lottery: Lottery,
    ticket: Ticket,
    buyer: Key,
    metadata: Option<Seq<u8>>,
    now: i64,
    amount: u8,
)
    requires
        lottery.status == LotteryStatus::Opened,
        now >= lottery.end_date,
    ensures
        purchase(lottery, ticket, buyer, DiscountAccount::Absent, metadata, now, amount)
            == Some(Err::<u64, ErrorCode>(ErrorCode::ExpireDateInThePast)),
{
}

/// A purchase that would take the buyer past the per-buyer limit is refused with
/// `TicketLimited`, before looking at the tickets left.
pub proof fn lemma_purchase_past_limit_refused(
    lottery: Lottery,
    ticket: Ticket,
    buyer: Key,
    metadata: Option<Seq<u8>>,
    now: i64,
    amount: u8,
)
    requires
        lottery.status == LotteryStatus::Opened,
        now < lottery.end_date,
        ticket.tickets + amount <= u64::MAX,
        ticket.tickets + amount > lottery.limit_tickets,
    ensures
        purchase(lottery, ticket, buyer, DiscountAccount::Absent, metadata, now, amount)
            == Some(Err::<u64, ErrorCode>(ErrorCode::TicketLimited)),
{
}

/// A purchase of more tickets than remain, within the limit and before the end date,
/// aborts the instruction.
pub proof fn lemma_oversold_purchase_aborts(
    lottery: Lottery,
    ticket: Ticket,
    buyer: Key,
    metadata: Option<Seq<u8>>,
    now: i64,
    amount: u8,
)
    requires
        lottery.status == LotteryStatus::Opened,
        now < lottery.end_date,
        ticket.tickets + amount <= lottery.limit_tickets,
        amount > lottery.remain_tickets,
    ensures
        purchase(lottery, ticket, buyer, DiscountAccount::Absent, metadata, now, amount) is None,
{
}

/// An unreadable discount account makes an open lottery refuse the purchase with
/// `DiscountUnreadable`.
pub proof fn lemma_unreadable_discount_refused(
    lottery: Lottery,
    ticket: Ticket,
    buyer: Key,
    metadata: Option<Seq<u8>>,
    now: i64,
    amount: u8,
)
    requires
        lottery.status == LotteryStatus::Opened,
    ensures
        purchase(lottery, ticket, buyer, DiscountAccount::Unreadable, metadata, now, amount)
            == Some(Err::<u64, ErrorCode>(ErrorCode::DiscountUnreadable)),
{
}

/// A wallet discount used by its own wallet takes its percentage (rounded down) off
/// each ticket: an accepted purchase costs `(price - price * p / 100) * n`.
pub proof fn lemma_wallet_discount_price(
    lottery: Lottery,
    ticket: Ticket,
    discount: Discount,
    metadata: Option<Seq<u8>>,
    now: i64,
    amount: u8,
    cost: u64,
)
    requires
        discount.discount_type == DISCOUNT_WALLET,
        purchase(lottery, ticket, discount.verifier, DiscountAccount::Found(discount), metadata, now, amount)
            == Some(Ok::<u64, ErrorCode>(cost)),
    ensures
        cost == (lottery.ticket_price - (lottery.ticket_price * discount.discount) / 100) * amount,
{
}

/// An NFT-holder discount applies when its creator stands anywhere in the creator list
/// of the NFT's metadata: an accepted purchase then costs `(price - price * p / 100) * n`.
pub proof fn lemma_nft_discount_price_for_listed_creator(
    lottery: Lottery,
    ticket: Ticket,
    buyer: Key,
    discount: Discount,
    data: Seq<u8>,
    creators: Seq<Seq<u8>>,
    position: int,
    now: i64,
    amount: u8,
    cost: u64,
)
    requires
        discount.discount_type == DISCOUNT_NFT_HOLDER,
        data.len() > 0,
        decoded_metadata_creators(data) == Ok::<Option<Seq<Seq<u8>>>, ProgramError>(Some(creators)),
        0 <= position < creators.len(),
        creators[position] == discount.verifier@,
        purchase(lottery, ticket, buyer, DiscountAccount::Found(discount), Some(data), now, amount)
            == Some(Ok::<u64, ErrorCode>(cost)),
    ensures
        cost == (lottery.ticket_price - (lottery.ticket_price * discount.discount) / 100) * amount,
{
    assert(creators.contains(discount.verifier@));
}

/// An NFT-holder discount whose creator stands anywhere in the NFT's creator list is
/// granted: with a percentage of at most 100 and every term met, the purchase is accepted
/// at the discounted price.
pub proof fn lemma_nft_discount_granted_for_listed_creator(
    lottery: Lottery,
    ticket: Ticket,
    buyer: Key,
    discount: Discount,
    data: Seq<u8>,
    creators: Seq<Seq<u8>>,
    position: int,
    now: i64,
    amount: u8,
)
    requires
        discount.discount_type == DISCOUNT_NFT_HOLDER,
        discount.discount <= 100,
        data.len() > 0,
        decoded_metadata_creators(data) == Ok::<Option<Seq<Seq<u8>>>, ProgramError>(Some(creators)),
        0 <= position < creators.len(),
        creators[position] == discount.verifier@,
        lottery.status == LotteryStatus::Opened,
        now < lottery.end_date,
        ticket.tickets + amount <= lottery.limit_tickets,
        amount <= lottery.remain_tickets,
        lottery.ticket_price * discount.discount <= u64::MAX,
        lottery.ticket_price * amount <= u64::MAX,
    ensures
        purchase(lottery, ticket, buyer, DiscountAccount::Found(discount), Some(data), now, amount)
            == Some(Ok::<u64, ErrorCode>(
                ((lottery.ticket_price - (lottery.ticket_price * discount.discount) / 100) * amount) as u64,
            )),
{
    let price = lottery.ticket_price;
    let p = discount.discount;
    assert(creators.contains(discount.verifier@));
    assert(price * p <= price * 100) by (nonlinear_arith)
        requires
            p <= 100,
    ;
    assert((price * p) / 100 <= price) by (nonlinear_arith)
        requires
            price * p <= price * 100,
            price >= 0,
            p >= 0,
    ;
    assert((price - (price * p) / 100) * amount <= price * amount) by (nonlinear_arith)
        requires
            0 <= (price * p) / 100 <= price,
            amount >= 0,
    ;
    assert(percent_of_spec(price, p) == Some(((price * p) / 100) as u64));
    assert(discount_due(DiscountAccount::Found(discount), Some(data), buyer, price)
        == Some(Ok::<u64, ErrorCode>(((price * p) / 100) as u64)));
}

/// When the NFT's metadata cannot be decoded, an open lottery refuses an NFT-holder
/// discount purchase with the decoder's own error.
pub proof fn lemma_nft_discount_decoder_error_passed_on(
    lottery: Lottery,
    ticket: Ticket,
    buyer: Key,
    discount: Discount,
    data: Seq<u8>,
    now: i64,
    amount: u8,
)
    requires
        discount.discount_type == DISCOUNT_NFT_HOLDER,
        data.len() > 0,
        decoded_metadata_creators(data) is Err,
        lottery.status == LotteryStatus::Opened,
    ensures
        purchase(lottery, ticket, buyer, DiscountAccount::Found(discount), Some(data), now, amount)
            == Some(Err::<u64, ErrorCode>(ErrorCode::MetadataUnreadable(decoded_metadata_creators(data)->Err_0))),
{
}

/// An NFT-holder discount with an empty metadata account aborts the purchase of an open
/// lottery.
pub proof fn lemma_nft_discount_empty_metadata_aborts(
    lottery: Lottery,
    ticket: Ticket,
    buyer: Key,
    discount: Discount,
    now: i64,
    amount: u8,
)
    requires
        discount.discount_type == DISCOUNT_NFT_HOLDER,
        lottery.status == LotteryStatus::Opened,
    ensures
        purchase(lottery, ticket, buyer, DiscountAccount::Found(discount), Some(Seq::<u8>::empty()), now, amount) is None,
{
}

/// Whether the decoded metadata in `data` lists `verifier` among its creators.
pub open spec fn names_creator(data: Seq<u8>, verifier: Seq<u8>) -> bool {
    decoded_metadata_creators(data) matches Ok(Some(cs)) && cs.contains(verifier)
}

/// A discount that does not apply is no discount: an NFT-holder discount without a
/// metadata account or whose creator the NFT does not list, a wallet discount used by
/// another wallet, and a discount of an unknown kind are all answered as a purchase
/// without a discount.
pub proof fn lemma_inapplicable_discount_is_no_discount(
    lottery: Lottery,
    ticket: Ticket,
    buyer: Key,
    discount: Discount,
    metadata: Option<Seq<u8>>,
    now: i64,
    amount: u8,
)
    requires
        discount.discount_type == DISCOUNT_NFT_HOLDER ==> (metadata is None || (metadata->Some_0.len() > 0
            && decoded_metadata_creators(metadata->Some_0) is Ok
            && !names_creator(metadata->Some_0, discount.verifier@))),
        discount.discount_type == DISCOUNT_WALLET ==> discount.verifier != buyer,
    ensures
        purchase(lottery, ticket, buyer, DiscountAccount::Found(discount), metadata, now, amount)
            == purchase(lottery, ticket, buyer, DiscountAccount::Absent, metadata, now, amount),
{
}

/// `percent_of_spec` is the percentage rounded down: `None` exactly when
/// `price * percent` overflows, and otherwise the `x` with
/// `100 * x <= price * percent < 100 * (x + 1)`.
pub proof fn lemma_percent_rounds_down(price: u64, percent: u8)
    ensures
        percent_of_spec(price, percent) is None <==> price * percent > u64::MAX,
        percent_of_spec(price, percent) matches Some(x) ==> 100 * x <= price * percent < 100 * (x + 1),
{
}

/// An accepted purchase takes exactly `amount` tickets from the lottery and gives them to
/// the buyer, and changes nothing else; any other answer changes nothing.
pub proof fn lemma_purchase_effect(lottery: Lottery, ticket: Ticket, amount: u8, answer: Option<Result<u64, ErrorCode>>)
    requires
        answer matches Some(Ok(_)) ==> amount <= lottery.remain_tickets && ticket.tickets + amount <= u64::MAX,
    ensures
        answer matches Some(Ok(_)) ==> {
            &&& lottery_after_purchase(lottery, amount, answer).remain_tickets == lottery.remain_tickets - amount
            &&& ticket_after_purchase(ticket, amount, answer).tickets == ticket.tickets + amount
        },
        !(answer matches Some(Ok(_))) ==> lottery_after_purchase(lottery, amount, answer) == lottery
            && ticket_after_purchase(ticket, amount, answer) == ticket,
        (Lottery { remain_tickets: lottery.remain_tickets, ..lottery_after_purchase(lottery, amount, answer) }) == lottery,
        (Ticket { tickets: ticket.tickets, ..ticket_after_purchase(ticket, amount, answer) }) == ticket,
{
}

/// A token purchase is answered as a lamport purchase with the same accounts, both by
/// `purchase` over the bytes of the metadata account passed.
pub proof fn lemma_token_purchase_as_lamport_purchase(
    spl: BuyTicketWithSplAccount,
    sol: BuyTicketWithSolAccount,
    amount: u8,
)
    requires
        sol.lottery == spl.lottery,
        sol.ticket == spl.ticket,
        sol.buyer == spl.buyer,
        sol.discount == spl.discount,
        sol.nft_metadata == spl.nft_metadata,
        sol.now == spl.now,
    ensures
        spl.outcome(amount) == sol.outcome(amount),
        spl.nft_metadata matches Some(v) ==> spl.outcome(amount)
            == purchase(spl.lottery, spl.ticket, spl.buyer, spl.discount, Some(v@), spl.now, amount),
        spl.nft_metadata is None ==> spl.outcome(amount)
            == purchase(spl.lottery, spl.ticket, spl.buyer, spl.discount, None, spl.now, amount),
        sol.nft_metadata matches Some(v) ==> sol.outcome(amount)
            == purchase(sol.lottery, sol.ticket, sol.buyer, sol.discount, Some(v@), sol.now, amount),
        sol.nft_metadata is None ==> sol.outcome(amount)
            == purchase(sol.lottery, sol.ticket, sol.buyer, sol.discount, None, sol.now, amount),
{
}

/// A decoded creator list names the verifier exactly when the verifier stands at some
/// position of it; no list and a failed decoding name nobody, the latter answering the
/// decoder's error.
pub proof fn lemma_creator_check_finds_any_position(creators: Seq<Seq<u8>>, verifier: Seq<u8>, position: int)
    ensures
        0 <= position < creators.len() && creators[position] == verifier
            ==> creator_check(Ok(Some(creators)), verifier) == Ok::<bool, ErrorCode>(true),
        (forall|i: int| 0 <= i < creators.len() ==> creators[i] != verifier)
            ==> creator_check(Ok(Some(creators)), verifier) == Ok::<bool, ErrorCode>(false),
        creator_check(Ok(None), verifier) == Ok::<bool, ErrorCode>(false),
{
    if 0 <= position < creators.len() && creators[position] == verifier {
        assert(creators.contains(verifier));
    }
}

/// Keys are taken by address one for one, in order.
pub proof fn lemma_key_views_in_order(keys: Seq<Key>)
    ensures
        key_views(keys).len() == keys.len(),
        forall|i: int| 0 <= i < keys.len() ==> #[trigger] key_views(keys)[i] == keys[i]@,
{
}

/// An optional account's bytes are its bytes.
pub proof fn lemma_bytes_view(data: Option<Vec<u8>>)
    ensures
        data matches Some(v) ==> bytes_view(data) == Some(v@),
        data is None ==> bytes_view(data) is None,
{
}

/// A wallet discount used by its own wallet is granted: with a percentage of at most 100
/// and every term met, the purchase is accepted at the discounted price.
pub proof fn lemma_wallet_discount_granted(
    lottery: Lottery,
    ticket: Ticket,
    discount: Discount,
    metadata: Option<Seq<u8>>,
    now: i64,
    amount: u8,
)
    requires
        discount.discount_type == DISCOUNT_WALLET,
        discount.discount <= 100,
        lottery.status == LotteryStatus::Opened,
        now < lottery.end_date,
        ticket.tickets + amount <= lottery.limit_tickets,
        amount <= lottery.remain_tickets,
        lottery.ticket_price * discount.discount <= u64::MAX,
        lottery.ticket_price * amount <= u64::MAX,
    ensures
        purchase(lottery, ticket, discount.verifier, DiscountAccount::Found(discount), metadata, now, amount)
            == Some(Ok::<u64, ErrorCode>(
                ((lottery.ticket_price - (lottery.ticket_price * discount.discount) / 100) * amount) as u64,
            )),
{
    let price = lottery.ticket_price;
    let p = discount.discount;
    assert(price * p <= price * 100) by (nonlinear_arith)
        requires
            p <= 100,
    ;
    assert((price * p) / 100 <= price) by (nonlinear_arith)
        requires
            price * p <= price * 100,
            price >= 0,
            p >= 0,
    ;
    assert((price - (price * p) / 100) * amount <= price * amount) by (nonlinear_arith)
        requires
            0 <= (price * p) / 100 <= price,
            amount >= 0,
    ;
    assert(percent_of_spec(price, p) == Some(((price * p) / 100) as u64));
}

/// A purchase that would overflow the buyer's ticket count aborts, once the lottery is
/// open and before its end date.
pub proof fn lemma_ticket_count_overflow_aborts(
    lottery: Lottery,
    ticket: Ticket,
    buyer: Key,
    metadata: Option<Seq<u8>>,
    now: i64,
    amount: u8,
)
    requires
        lottery.status == LotteryStatus::Opened,
        now < lottery.end_date,
        ticket.tickets + amount > u64::MAX,
    ensures
        purchase(lottery, ticket, buyer, DiscountAccount::Absent, metadata, now, amount) is None,
{
}

/// A purchase whose full price overflows aborts, even when every other term is met.
pub proof fn lemma_cost_overflow_aborts(
    lottery: Lottery,
    ticket: Ticket,
    buyer: Key,
    metadata: Option<Seq<u8>>,
    now: i64,
    amount: u8,
)
    requires
        lottery.status == LotteryStatus::Opened,
        now < lottery.end_date,
        ticket.tickets + amount <= lottery.limit_tickets,
        amount <= lottery.remain_tickets,
        lottery.ticket_price * amount > u64::MAX,
    ensures
        purchase(lottery, ticket, buyer, DiscountAccount::Absent, metadata, now, amount) is None,
{
}

/// A wallet discount that would take more than the price off a ticket aborts the
/// purchase, even when every other term is met.
pub proof fn lemma_discount_above_price_aborts(
    lottery: Lottery,
    ticket: Ticket,
    discount: Discount,
    metadata: Option<Seq<u8>>,
    now: i64,
    amount: u8,
)
    requires
        discount.discount_type == DISCOUNT_WALLET,
        lottery.status == LotteryStatus::Opened,
        now < lottery.end_date,
        ticket.tickets + amount <= lottery.limit_tickets,
        amount <= lottery.remain_tickets,
        lottery.ticket_price * discount.discount <= u64::MAX,
        (lottery.ticket_price * discount.discount) / 100 > lottery.ticket_price,
    ensures
        purchase(lottery, ticket, discount.verifier, DiscountAccount::Found(discount), metadata, now, amount) is None,
{
}

/// A decoding outcome hands out the creators' addresses one for one, in order.
pub proof fn lemma_creators_view(creators: Option<Vec<Key>>)
    ensures
        creators is None ==> creators_view(creators) is None,
        creators matches Some(v) ==> creators_view(creators) matches Some(cs) && cs.len() == v@.len()
            && forall|i: int| 0 <= i < v@.len() ==> #[trigger] cs[i] == v@[i]@,
{
}

} // verus!
