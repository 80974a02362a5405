use metaplex_token_metadata::error::MetadataError;
use metaplex_token_metadata::solana_program::program_error::ProgramError;
use raffle::error::ErrorCode;
use raffle::key::Key;
use raffle::processor::buy::{percent_of, BuyTicketWithSolAccount, BuyTicketWithSplAccount, DiscountAccount};
use raffle::processor::close::{CloseAccount, CloseLottery};
use raffle::processor::create::{CreateSolLotteryAccount, CreateSplLotteryAccount, CreateTicketAccount};
use raffle::processor::update::{UpdateDiscountAccount, UpdateLotteryAccount};
use raffle::state::{Discount, Lottery, LotteryStatus, Ticket, DISCOUNT_NFT_HOLDER, DISCOUNT_WALLET};

fn key(b: u8) -> Key {
    Key::new([b; 32])
}

fn blank_lottery() -> Lottery {
    Lottery {
        status: LotteryStatus::Opened,
        creator: key(0),
        mint: None,
        vault: key(0),
        start_date: 0,
        end_date: 0,
        ticket_price: 0,
        ticket_numbers: 0,
        remain_tickets: 0,
        limit_tickets: 0,
        winners: [key(0); 10],
        winner_numbers: 0,
        bump: 0,
        lottery_key: key(0),
    }
}

fn open_lottery() -> Lottery {
    Lottery {
        status: LotteryStatus::Opened,
        creator: key(1),
        mint: None,
        vault: key(2),
        start_date: 100,
        end_date: 200,
        ticket_price: 1_000,
        ticket_numbers: 50,
        remain_tickets: 50,
        limit_tickets: 5,
        winners: [key(0); 10],
        winner_numbers: 3,
        bump: 7,
        lottery_key: key(9),
    }
}

fn ticket(held: u64) -> Ticket {
    Ticket { owner: key(3), lottery: key(8), tickets: held, bump: 4 }
}

fn wallet_discount(verifier: Key, pct: u8) -> Discount {
    Discount { discount_type: DISCOUNT_WALLET, verifier, discount: pct, lottery: key(8), bump: 1, creator: key(1) }
}

fn sol_purchase(discount: DiscountAccount, held: u64, now: i64) -> BuyTicketWithSolAccount {
    BuyTicketWithSolAccount {
        lottery: open_lottery(),
        ticket: ticket(held),
        buyer: key(3),
        discount,
        nft_metadata: None,
        now,
    }
}

/// Token-metadata account bytes listing the given creators, padded to the account size.
fn metadata_bytes(creators: Option<&[Key]>) -> Vec<u8> {
    let mut v: Vec<u8> = vec![4];
    v.extend_from_slice(&[5u8; 32]);
    v.extend_from_slice(&[6u8; 32]);
    for s in ["Raffle NFT", "RNFT", "https://example.com/nft.json"] {
        v.extend_from_slice(&(s.len() as u32).to_le_bytes());
        v.extend_from_slice(s.as_bytes());
    }
    v.extend_from_slice(&500u16.to_le_bytes());
    match creators {
        None => v.push(0),
        Some(cs) => {
            v.push(1);
            v.extend_from_slice(&(cs.len() as u32).to_le_bytes());
            for c in cs {
                v.extend_from_slice(&c.bytes);
                v.push(1);
                v.push(100 / cs.len() as u8);
            }
        }
    }
    v.push(0);
    v.push(1);
    v.push(0);
    v.resize(679, 0);
    v
}

fn nft_purchase(verifier: Key, pct: u8, metadata: Option<Vec<u8>>) -> BuyTicketWithSolAccount {
    let d = Discount { discount_type: DISCOUNT_NFT_HOLDER, verifier, discount: pct, lottery: key(8), bump: 1, creator: key(1) };
    BuyTicketWithSolAccount {
        lottery: open_lottery(),
        ticket: ticket(0),
        buyer: key(3),
        discount: DiscountAccount::Found(d),
        nft_metadata: metadata,
        now: 150,
    }
}

#[test]
fn create_sol_lottery_opens_with_all_tickets() {
    let mut acc = CreateSolLotteryAccount { lottery: blank_lottery(), creator: key(1), vault: key(2), now: 50 };
    assert_eq!(acc.process(7, key(9), 100, 200, 1_000, 50, 5, 3), Ok(()));
    let mut expected = open_lottery();
    expected.mint = None;
    assert_eq!(acc.lottery, expected);
    assert_eq!(acc.lottery.remain_tickets, acc.lottery.ticket_numbers);
}

#[test]
fn create_spl_lottery_records_mint() {
    let mut acc = CreateSplLotteryAccount { lottery: blank_lottery(), creator: key(1), mint: key(11), vault: key(2), now: 50 };
    assert_eq!(acc.process(7, key(9), 100, 200, 1_000, 50, 5, 3), Ok(()));
    let mut expected = open_lottery();
    expected.mint = Some(key(11));
    assert_eq!(acc.lottery, expected);
}

#[test]
fn create_refuses_too_many_winners() {
    let mut acc = CreateSolLotteryAccount { lottery: blank_lottery(), creator: key(1), vault: key(2), now: 50 };
    assert_eq!(acc.process(7, key(9), 100, 200, 1_000, 50, 5, 11), Err(ErrorCode::MaxWinnerError));
    assert_eq!(acc.lottery, blank_lottery());
    assert_eq!(acc.process(7, key(9), 100, 200, 1_000, 50, 5, 10), Ok(()));
}

#[test]
fn create_refuses_past_end_date() {
    let mut acc = CreateSplLotteryAccount { lottery: blank_lottery(), creator: key(1), mint: key(11), vault: key(2), now: 200 };
    assert_eq!(acc.process(7, key(9), 100, 200, 1_000, 50, 5, 3), Err(ErrorCode::ExpireDateInThePast));
    assert_eq!(acc.lottery, blank_lottery());
}

#[test]
fn create_refuses_start_not_before_end() {
    let mut acc = CreateSolLotteryAccount { lottery: blank_lottery(), creator: key(1), vault: key(2), now: 50 };
    assert_eq!(acc.process(7, key(9), 200, 200, 1_000, 50, 5, 3), Err(ErrorCode::ExpireDateInThePast));
    assert_eq!(acc.lottery, blank_lottery());
}

#[test]
fn create_ticket_starts_empty() {
    let mut acc = CreateTicketAccount {
        lottery: open_lottery(),
        lottery_address: key(8),
        ticket: Ticket { owner: key(0), lottery: key(0), tickets: 77, bump: 0 },
        buyer: key(3),
        now: 150,
    };
    assert_eq!(acc.process(4), Ok(()));
    assert_eq!(acc.ticket, ticket(0));
}

#[test]
fn create_ticket_refused_after_end() {
    let before = Ticket { owner: key(0), lottery: key(0), tickets: 0, bump: 0 };
    let mut acc = CreateTicketAccount { lottery: open_lottery(), lottery_address: key(8), ticket: before, buyer: key(3), now: 200 };
    assert_eq!(acc.process(4), Err(ErrorCode::ExpireDateInThePast));
    assert_eq!(acc.ticket, before);
}

#[test]
fn buy_without_discount_pays_full_price() {
    let mut acc = sol_purchase(DiscountAccount::Absent, 1, 150);
    assert_eq!(acc.process(3), Ok(3_000));
    assert_eq!(acc.ticket.tickets, 4);
    assert_eq!(acc.lottery.remain_tickets, 47);
}

#[test]
fn buy_with_wallet_discount() {
    let mut acc = sol_purchase(DiscountAccount::Found(wallet_discount(key(3), 10)), 0, 150);
    assert_eq!(acc.process(2), Ok(1_800));
}

#[test]
fn wallet_discount_for_another_wallet_is_ignored() {
    let mut acc = sol_purchase(DiscountAccount::Found(wallet_discount(key(4), 10)), 0, 150);
    assert_eq!(acc.process(2), Ok(2_000));
}

#[test]
fn unknown_discount_type_is_ignored() {
    let mut d = wallet_discount(key(3), 10);
    d.discount_type = 2;
    let mut acc = sol_purchase(DiscountAccount::Found(d), 0, 150);
    assert_eq!(acc.process(1), Ok(1_000));
}

#[test]
fn buy_refused_when_not_open() {
    let mut acc = sol_purchase(DiscountAccount::Absent, 0, 150);
    acc.lottery.status = LotteryStatus::Closed;
    let before = acc.clone();
    assert_eq!(acc.process(1), Err(ErrorCode::LotteryNotOpen));
    assert_eq!(acc, before);
}

#[test]
fn buy_refused_for_unreadable_discount() {
    let mut acc = sol_purchase(DiscountAccount::Unreadable, 0, 150);
    assert_eq!(acc.process(1), Err(ErrorCode::DiscountUnreadable));
}

#[test]
fn buy_refused_after_end_date() {
    let mut acc = sol_purchase(DiscountAccount::Absent, 0, 200);
    assert_eq!(acc.process(1), Err(ErrorCode::ExpireDateInThePast));
    assert_eq!(acc.ticket.tickets, 0);
}

#[test]
fn buy_refused_past_ticket_limit() {
    let mut acc = sol_purchase(DiscountAccount::Absent, 4, 150);
    assert_eq!(acc.process(2), Err(ErrorCode::TicketLimited));
    assert_eq!(acc.ticket.tickets, 4);
    assert_eq!(acc.process(1), Ok(1_000));
    assert_eq!(acc.ticket.tickets, 5);
}

#[test]
fn buy_aborts_when_oversold() {
    let mut acc = sol_purchase(DiscountAccount::Absent, 0, 150);
    acc.lottery.remain_tickets = 1;
    let before = acc.clone();
    assert_eq!(acc.try_process(2), None);
    assert_eq!(acc, before);
}

#[test]
fn buy_aborts_on_discount_above_hundred_percent() {
    let mut acc = sol_purchase(DiscountAccount::Found(wallet_discount(key(3), 150)), 0, 150);
    assert_eq!(acc.try_process(1), None);
}

#[test]
fn buy_aborts_on_cost_overflow() {
    let mut acc = sol_purchase(DiscountAccount::Absent, 0, 150);
    acc.lottery.ticket_price = u64::MAX;
    assert_eq!(acc.try_process(2), None);
    assert_eq!(acc.try_process(1), Some(Ok(u64::MAX)));
}

#[test]
fn buy_aborts_on_discount_overflow() {
    let mut acc = sol_purchase(DiscountAccount::Found(wallet_discount(key(3), 2)), 0, 150);
    acc.lottery.ticket_price = u64::MAX;
    assert_eq!(acc.try_process(1), None);
}

#[test]
fn try_process_agrees_with_process() {
    let mut a = sol_purchase(DiscountAccount::Found(wallet_discount(key(3), 25)), 2, 150);
    let mut b = a.clone();
    assert_eq!(a.try_process(3), Some(b.process(3)));
    assert_eq!(a, b);
    assert_eq!(a.ticket.tickets, 5);
}

#[test]
fn spl_purchase_costs_the_same() {
    let mut acc = BuyTicketWithSplAccount {
        lottery: open_lottery(),
        ticket: ticket(0),
        buyer: key(3),
        discount: DiscountAccount::Found(wallet_discount(key(3), 50)),
        nft_metadata: None,
        now: 150,
    };
    assert_eq!(acc.process(4), Ok(2_000));
    assert_eq!(acc.lottery.remain_tickets, 46);
    assert_eq!(acc.try_process(2), Some(Err(ErrorCode::TicketLimited)));
}

#[test]
fn nft_discount_for_listed_creator() {
    let data = metadata_bytes(Some(&[key(20), key(21)]));
    let mut acc = nft_purchase(key(21), 20, Some(data));
    assert_eq!(acc.process(1), Ok(800));
}

#[test]
fn nft_discount_for_unlisted_creator_is_ignored() {
    let data = metadata_bytes(Some(&[key(20), key(21)]));
    let mut acc = nft_purchase(key(22), 20, Some(data));
    assert_eq!(acc.process(1), Ok(1_000));
}

#[test]
fn nft_discount_without_creators_is_ignored() {
    let mut acc = nft_purchase(key(21), 20, Some(metadata_bytes(None)));
    assert_eq!(acc.process(1), Ok(1_000));
}

#[test]
fn nft_discount_without_metadata_account_is_ignored() {
    let mut acc = nft_purchase(key(21), 20, None);
    assert_eq!(acc.process(1), Ok(1_000));
}

#[test]
fn nft_discount_refused_for_wrong_length_metadata() {
    let mut data = metadata_bytes(Some(&[key(21)]));
    data.push(0);
    let mut acc = nft_purchase(key(21), 20, Some(data));
    assert_eq!(acc.process(1), Err(ErrorCode::MetadataUnreadable(ProgramError::from(MetadataError::DataTypeMismatch))));
    assert_eq!(acc.ticket.tickets, 0);
}

#[test]
fn nft_discount_refused_with_decoder_error_for_bad_body() {
    let mut data = metadata_bytes(Some(&[key(21)]));
    data[65..69].copy_from_slice(&u32::MAX.to_le_bytes());
    let mut acc = nft_purchase(key(21), 20, Some(data));
    assert!(matches!(acc.process(1), Err(ErrorCode::MetadataUnreadable(ProgramError::BorshIoError(_)))));
    assert_eq!(acc.ticket.tickets, 0);
}

#[test]
fn nft_discount_refused_for_wrong_tag() {
    let mut data = metadata_bytes(Some(&[key(21)]));
    data[0] = 6;
    let mut acc = nft_purchase(key(21), 20, Some(data));
    assert_eq!(acc.process(1), Err(ErrorCode::MetadataUnreadable(ProgramError::from(MetadataError::DataTypeMismatch))));
}

#[test]
fn nft_discount_aborts_on_empty_metadata() {
    let mut acc = nft_purchase(key(21), 20, Some(Vec::new()));
    assert_eq!(acc.try_process(1), None);
}

#[test]
fn percent_of_rounds_down() {
    assert_eq!(percent_of(1_000, 10), Some(100));
    assert_eq!(percent_of(999, 33), Some(329));
    assert_eq!(percent_of(7, 0), Some(0));
    assert_eq!(percent_of(u64::MAX, 2), None);
}

#[test]
fn close_lottery_records_winners() {
    let mut acc = CloseLottery { lottery: open_lottery(), now: 200 };
    let winners = [key(30); 10];
    assert_eq!(acc.process(winners), Ok(()));
    assert_eq!(acc.lottery.status, LotteryStatus::Closed);
    assert_eq!(acc.lottery.winners, winners);
    assert_eq!(acc.process([key(31); 10]), Err(ErrorCode::LotteryNotOpen));
    assert_eq!(acc.lottery.winners, winners);
}

#[test]
fn close_lottery_refused_before_end_date() {
    let mut acc = CloseLottery { lottery: open_lottery(), now: 199 };
    assert_eq!(acc.process([key(30); 10]), Err(ErrorCode::LotteryNotEnded));
    assert_eq!(acc.lottery, open_lottery());
}

#[test]
fn close_account_needs_closed_lottery() {
    let mut lottery = open_lottery();
    assert_eq!(CloseAccount { lottery, now: 300 }.process(), Err(ErrorCode::LotteryOpened));
    lottery.status = LotteryStatus::Completed;
    assert_eq!(CloseAccount { lottery, now: 300 }.process(), Err(ErrorCode::LotteryOpened));
    lottery.status = LotteryStatus::Closed;
    assert_eq!(CloseAccount { lottery, now: 300 }.process(), Ok(()));
    assert_eq!(CloseAccount { lottery, now: 200 }.process(), Ok(()));
    assert_eq!(CloseAccount { lottery, now: 199 }.process(), Err(ErrorCode::LotteryNotEnded));
}

#[test]
fn update_lottery_before_start() {
    let mut acc = UpdateLotteryAccount { lottery: open_lottery(), now: 50 };
    acc.lottery.remain_tickets = 10;
    assert_eq!(acc.process(120, 300, 2_000, 80, 8, 4), Ok(()));
    let l = acc.lottery;
    assert_eq!((l.start_date, l.end_date, l.ticket_price), (120, 300, 2_000));
    assert_eq!((l.ticket_numbers, l.remain_tickets, l.limit_tickets, l.winner_numbers), (80, 80, 8, 4));
    assert_eq!(l.creator, key(1));
}

#[test]
fn update_lottery_refusals() {
    let mut acc = UpdateLotteryAccount { lottery: open_lottery(), now: 50 };
    assert_eq!(acc.process(120, 300, 2_000, 80, 8, 11), Err(ErrorCode::MaxWinnerError));
    acc.now = 100;
    assert_eq!(acc.process(120, 300, 2_000, 80, 8, 4), Err(ErrorCode::ExpireDateInThePast));
    acc.now = 250;
    assert_eq!(acc.process(120, 300, 2_000, 80, 8, 4), Err(ErrorCode::ExpireDateInThePast));
    acc.now = 10;
    acc.lottery.start_date = 200;
    assert_eq!(acc.process(120, 300, 2_000, 80, 8, 4), Err(ErrorCode::ExpireDateInThePast));
    let mut expected = open_lottery();
    expected.start_date = 200;
    assert_eq!(acc.lottery, expected);
}

#[test]
fn update_lottery_does_not_check_new_dates() {
    let mut acc = UpdateLotteryAccount { lottery: open_lottery(), now: 50 };
    assert_eq!(acc.process(500, 300, 1, 1, 1, 1), Ok(()));
    assert_eq!((acc.lottery.start_date, acc.lottery.end_date), (500, 300));
}

#[test]
fn update_discount_before_start_only() {
    let mut acc = UpdateDiscountAccount { lottery: open_lottery(), discount: wallet_discount(key(3), 10), now: 99 };
    assert_eq!(acc.process(30), Ok(()));
    assert_eq!(acc.discount.discount, 30);
    acc.now = 100;
    assert_eq!(acc.process(40), Err(ErrorCode::ExpireDateInThePast));
    assert_eq!(acc.discount.discount, 30);
}

#[test]
fn keys_compare_by_bytes() {
    let mut b = [7u8; 32];
    assert!(Key::new(b).same_as(&Key::new(b)));
    b[31] = 8;
    assert!(!Key::new(b).same_as(&Key::new([7u8; 32])));
}

#[test]
fn account_sizes() {
    assert_eq!(Lottery::LEN, 8 + 1 + 32 + 33 + 32 + 8 + 8 + 8 + 8 + 8 + 8 + 320 + 8 + 1 + 32);
    assert_eq!(Ticket::LEN, 81);
    assert_eq!(Discount::LEN, 107);
}
