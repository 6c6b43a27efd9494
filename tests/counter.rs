use bib::item::{atoi, ParseError, TransactionItem};
use bib::transaction::Transaction;

fn row(id: u32) -> TransactionItem {
    let mut r = TransactionItem::default();
    r.id = id;
    r
}

#[test]
fn ring_counter_wraps_to_one() {
    let mut t = Transaction::new(3, 0);
    let ids: Vec<u32> = (0..4).map(|_| t.next()).collect();
    assert_eq!(ids, vec![1, 2, 3, 1]);
    assert_eq!(t.counter, 1);
}

#[test]
fn ring_counter_stays_in_bounds() {
    let mut t = Transaction::new(5, 0);
    let mut seen = vec![];
    for _ in 0..12 {
        let id = t.next();
        assert!(id >= 1 && id <= 5);
        seen.push(id);
    }
    for k in 0..7 {
        assert_eq!(seen[k], seen[k + 5]);
    }
}

#[test]
fn ring_counter_seed_beyond_bound() {
    let mut t = Transaction::new(4, 7);
    assert_eq!(t.next(), 3);
    assert_eq!(t.next(), 4);
    assert_eq!(t.next(), 1);
    let mut t = Transaction::new(4, 9);
    assert_eq!(t.next(), 1);
    assert_eq!(t.next(), 2);
}

#[test]
fn ring_counter_zero_bound_issues_one() {
    let mut t = Transaction::new(0, 0);
    assert_eq!(t.next(), 1);
    assert_eq!(t.next(), 1);
}

#[test]
fn ring_counter_at_largest_bound() {
    let mut t = Transaction::new(u32::MAX, u32::MAX - 1);
    assert_eq!(t.next(), u32::MAX);
    assert_eq!(t.next(), 1);
}

#[test]
fn seed_is_largest_ledger_id() {
    assert_eq!(Transaction::seed(&vec![]), 0);
    assert_eq!(Transaction::seed(&vec![row(3), row(17), row(5)]), 17);
}

#[test]
fn atoi_reads_decimal_ids() {
    assert_eq!(atoi("123"), Ok(123));
    assert_eq!(atoi("+7"), Ok(7));
    assert_eq!(atoi("007"), Ok(7));
    assert_eq!(atoi("4294967295"), Ok(u32::MAX));
}

#[test]
fn atoi_refuses_malformed_ids() {
    assert_eq!(atoi(""), Err(ParseError::Empty));
    assert_eq!(atoi("+"), Err(ParseError::InvalidDigit));
    assert_eq!(atoi("-1"), Err(ParseError::InvalidDigit));
    assert_eq!(atoi("12a"), Err(ParseError::InvalidDigit));
    assert_eq!(atoi(" 1"), Err(ParseError::InvalidDigit));
    assert_eq!(atoi("4294967296"), Err(ParseError::PosOverflow));
    assert_eq!(atoi("99999999999x"), Err(ParseError::PosOverflow));
}

#[test]
fn parse_error_messages_match_std() {
    for text in ["", "x", "99999999999"] {
        let std_msg = text.parse::<u32>().unwrap_err().to_string();
        assert_eq!(atoi(text).unwrap_err().message(), std_msg);
    }
}
