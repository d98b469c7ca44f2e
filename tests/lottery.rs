use token_lottery::address::Address;
use token_lottery::lottery::{
    buy_ticket, choose_winner, choose_winner_with, claim_prize, commit_randomness, commit_randomness_with,
    initialize_config, CollectionMark, ErrorCode, TicketCredential, TokenLottery,
};
use token_lottery::oracle::{OracleRecord, RECORD_LEN};
use token_lottery::ticket::ticket_name_bytes;

fn key(b: u8) -> Address {
    Address { bytes: [b; 32] }
}

fn record_bytes(seed_slot: u64, reveal_slot: u64, first_value_byte: u8) -> Vec<u8> {
    let mut data = vec![0u8; RECORD_LEN];
    data[..8].copy_from_slice(&[10, 66, 229, 135, 220, 239, 217, 114]);
    data[104..112].copy_from_slice(&seed_slot.to_le_bytes());
    data[144..152].copy_from_slice(&reveal_slot.to_le_bytes());
    data[152] = first_value_byte;
    data
}

fn fresh() -> TokenLottery {
    initialize_config(100, 200, 50, key(1), 254).unwrap()
}

fn ticket(number: u64, collection: Address) -> TicketCredential {
    let mut name = ticket_name_bytes(number);
    name.extend_from_slice(&[0, 0, 0]);
    TicketCredential { collection: Some(CollectionMark { verified: true, key: collection }), name, amount: 1 }
}

fn drawn(total: u64, winner_value: u8) -> TokenLottery {
    let mut l = fresh();
    l.total_tickets = total;
    l.lottery_pot_amount = total * 50;
    l.randomness_account = Some(key(9));
    let rec = OracleRecord { seed_slot: 200, reveal_slot: 201, value: [winner_value; 32] };
    choose_winner_with(&mut l, &key(1), 201, &key(9), Some(rec)).unwrap();
    l
}

#[test]
fn configure_sets_an_empty_lottery() {
    let l = fresh();
    assert_eq!(l.start_time, 100);
    assert_eq!(l.end_time, 200);
    assert_eq!(l.ticket_price, 50);
    assert_eq!(l.authority, key(1));
    assert_eq!(l.bump, 254);
    assert_eq!(l.lottery_pot_amount, 0);
    assert_eq!(l.total_tickets, 0);
    assert_eq!(l.randomness_account, None);
    assert!(!l.winner_chosen);
}

#[test]
fn configure_refuses_an_empty_window_or_free_tickets() {
    assert_eq!(initialize_config(200, 200, 50, key(1), 0), Err(ErrorCode::InvalidSchedule));
    assert_eq!(initialize_config(300, 200, 50, key(1), 0), Err(ErrorCode::InvalidSchedule));
    assert_eq!(initialize_config(100, 200, 0, key(1), 0), Err(ErrorCode::InvalidSchedule));
}

#[test]
fn sales_count_tickets_and_fill_the_pot() {
    let mut l = fresh();
    for n in 0..10u64 {
        assert_eq!(buy_ticket(&mut l, 100 + n * 10), Ok(n));
        assert_eq!(l.total_tickets, n + 1);
        assert_eq!(l.lottery_pot_amount, (n + 1) * 50);
    }
}

#[test]
fn sales_outside_the_window_are_refused() {
    let mut l = fresh();
    let before = l;
    assert_eq!(buy_ticket(&mut l, 99), Err(ErrorCode::LotteryNotOpen));
    assert_eq!(l, before);
    assert_eq!(buy_ticket(&mut l, 201), Err(ErrorCode::LotteryNotOpen));
    assert_eq!(l, before);
    assert_eq!(buy_ticket(&mut l, 100), Ok(0));
    assert_eq!(buy_ticket(&mut l, 200), Ok(1));
}

#[test]
fn commit_by_a_stranger_is_refused() {
    let mut l = fresh();
    let before = l;
    let data = record_bytes(200, 201, 5);
    assert_eq!(commit_randomness(&mut l, &key(2), 201, &key(9), &data), Err(ErrorCode::NotAuthorized));
    assert_eq!(l, before);
    assert_eq!(l.randomness_account, None);
}

#[test]
fn commit_needs_a_record_seeded_by_the_previous_slot() {
    let mut l = fresh();
    let stale = record_bytes(150, 0, 0);
    assert_eq!(commit_randomness(&mut l, &key(1), 201, &key(9), &stale), Err(ErrorCode::RandomnessAlreadyRevealed));
    assert_eq!(l.randomness_account, None);
    let fresh_record = record_bytes(200, 0, 0);
    assert_eq!(commit_randomness(&mut l, &key(1), 201, &key(9), &fresh_record), Ok(()));
    assert_eq!(l.randomness_account, Some(key(9)));
}

#[test]
fn commit_at_slot_zero_is_refused() {
    let mut l = fresh();
    let rec = OracleRecord { seed_slot: 0, reveal_slot: 0, value: [0; 32] };
    assert_eq!(commit_randomness_with(&mut l, &key(1), 0, &key(9), Some(rec)), Err(ErrorCode::RandomnessAlreadyRevealed));
}

#[test]
fn commit_refuses_data_that_is_no_record() {
    let mut l = fresh();
    let short = record_bytes(200, 0, 0)[..RECORD_LEN - 1].to_vec();
    assert_eq!(commit_randomness(&mut l, &key(1), 201, &key(9), &short), Err(ErrorCode::RandomnessAccountUnreadable));
    let mut wrong_tag = record_bytes(200, 0, 0);
    wrong_tag[0] = 11;
    assert_eq!(commit_randomness(&mut l, &key(1), 201, &key(9), &wrong_tag), Err(ErrorCode::RandomnessAccountUnreadable));
    assert_eq!(commit_randomness(&mut l, &key(1), 201, &key(9), &[]), Err(ErrorCode::RandomnessAccountUnreadable));
    assert_eq!(l.randomness_account, None);
}

#[test]
fn winner_is_the_revealed_value_modulo_the_ticket_count() {
    let l = drawn(7, 23);
    assert!(l.winner_chosen);
    assert_eq!(l.winner, 2);
}

#[test]
fn winner_cannot_be_chosen_twice() {
    let mut l = drawn(7, 23);
    let rec = OracleRecord { seed_slot: 200, reveal_slot: 300, value: [4; 32] };
    assert_eq!(choose_winner_with(&mut l, &key(1), 300, &key(9), Some(rec)), Err(ErrorCode::WinnerChosen));
    assert_eq!(l.winner, 2);
    assert!(l.winner_chosen);
}

#[test]
fn choose_winner_checks_in_order() {
    let mut l = fresh();
    l.total_tickets = 3;
    let rec = OracleRecord { seed_slot: 200, reveal_slot: 201, value: [5; 32] };
    assert_eq!(choose_winner_with(&mut l, &key(2), 201, &key(9), Some(rec)), Err(ErrorCode::NotAuthorized));
    assert_eq!(choose_winner_with(&mut l, &key(1), 201, &key(9), Some(rec)), Err(ErrorCode::IncorrectRandomnessAccount));
    l.randomness_account = Some(key(9));
    assert_eq!(choose_winner_with(&mut l, &key(1), 201, &key(8), Some(rec)), Err(ErrorCode::IncorrectRandomnessAccount));
    assert_eq!(choose_winner_with(&mut l, &key(1), 199, &key(9), Some(rec)), Err(ErrorCode::LotteryNotCompleted));
    assert_eq!(choose_winner_with(&mut l, &key(1), 201, &key(9), None), Err(ErrorCode::RandomnessAccountUnreadable));
    assert_eq!(choose_winner_with(&mut l, &key(1), 202, &key(9), Some(rec)), Err(ErrorCode::RandomnessNotResolved));
    assert!(!l.winner_chosen);
    assert_eq!(choose_winner_with(&mut l, &key(1), 201, &key(9), Some(rec)), Ok(2));
}

#[test]
fn choose_winner_without_tickets_is_refused() {
    let mut l = fresh();
    l.randomness_account = Some(key(9));
    let rec = OracleRecord { seed_slot: 200, reveal_slot: 201, value: [5; 32] };
    let before = l;
    assert_eq!(choose_winner_with(&mut l, &key(1), 202, &key(9), Some(rec)), Err(ErrorCode::RandomnessNotResolved));
    assert_eq!(choose_winner_with(&mut l, &key(1), 201, &key(9), None), Err(ErrorCode::RandomnessAccountUnreadable));
    assert_eq!(choose_winner_with(&mut l, &key(1), 201, &key(9), Some(rec)), Err(ErrorCode::NoTicketsSold));
    assert_eq!(l, before);
}

#[test]
fn a_second_commitment_is_refused() {
    let mut l = fresh();
    assert_eq!(commit_randomness(&mut l, &key(1), 201, &key(9), &record_bytes(200, 0, 0)), Ok(()));
    assert_eq!(commit_randomness(&mut l, &key(1), 301, &key(8), &record_bytes(300, 0, 0)), Err(ErrorCode::RandomnessAlreadyCommitted));
    assert_eq!(commit_randomness(&mut l, &key(1), 301, &key(8), &[]), Err(ErrorCode::RandomnessAccountUnreadable));
    assert_eq!(commit_randomness(&mut l, &key(1), 301, &key(8), &record_bytes(250, 0, 0)), Err(ErrorCode::RandomnessAlreadyRevealed));
    assert_eq!(l.randomness_account, Some(key(9)));
    assert_eq!(commit_randomness(&mut l, &key(2), 301, &key(8), &record_bytes(300, 0, 0)), Err(ErrorCode::NotAuthorized));
}

#[test]
fn a_sale_that_would_overflow_is_refused() {
    let mut l = fresh();
    l.lottery_pot_amount = u64::MAX - 49;
    l.total_tickets = 3;
    let before = l;
    assert_eq!(buy_ticket(&mut l, 150), Err(ErrorCode::SaleOverflow));
    assert_eq!(l, before);
    l.lottery_pot_amount = u64::MAX - 50;
    assert_eq!(buy_ticket(&mut l, 150), Ok(3));
    assert_eq!(l.lottery_pot_amount, u64::MAX);
    let mut full = fresh();
    full.total_tickets = u64::MAX;
    let before = full;
    assert_eq!(buy_ticket(&mut full, 150), Err(ErrorCode::SaleOverflow));
    assert_eq!(full, before);
    assert_eq!(buy_ticket(&mut full, 201), Err(ErrorCode::LotteryNotOpen));
}

#[test]
fn parsing_does_not_depend_on_where_the_bytes_sit() {
    for shift in 0..8usize {
        let mut padded = vec![0u8; shift];
        padded.extend_from_slice(&record_bytes(200, 0, 0));
        let mut l = fresh();
        assert_eq!(commit_randomness(&mut l, &key(1), 201, &key(9), &padded[shift..]), Ok(()));
        assert_eq!(l.randomness_account, Some(key(9)));
    }
}
