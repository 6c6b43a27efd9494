use bib::clock::Zone;
use bib::error::BibErrorResponse;
use bib::item::{BorrowedBook, User};
use bib::overdue::{check_deadline, delayed_list};

fn loan(id: u32, deadline: &str) -> BorrowedBook {
    let mut l = BorrowedBook::default();
    l.book_id = id;
    l.return_deadline = deadline.to_string();
    l
}

fn member(id: u32, loans: Vec<BorrowedBook>) -> User {
    let mut u = User::default();
    u.id = id;
    u.name = format!("m{}", id);
    u.borrowed_books = loans;
    u
}

const DAY: i64 = 86_400;

#[test]
fn deadline_passed_only_after_the_minute() {
    // 1970/01/15 09:00 in Tokyo is 14 days after the epoch.
    assert_eq!(check_deadline("1970/01/15 09:00", 14 * DAY, Zone::Tokyo), Ok(false));
    assert_eq!(check_deadline("1970/01/15 09:00", 14 * DAY + 59, Zone::Tokyo), Ok(false));
    assert_eq!(check_deadline("1970/01/15 09:00", 14 * DAY + 60, Zone::Tokyo), Ok(true));
    assert_eq!(check_deadline("1970/01/15 09:00", 14 * DAY + 60, Zone::Berlin), Ok(false));
    assert!(matches!(
        check_deadline("15 Jan 1970", 0, Zone::Tokyo),
        Err(BibErrorResponse::SystemError(_))
    ));
}

#[test]
fn overdue_loans_listed_by_member() {
    let users = vec![
        member(1, vec![loan(10, "1970/01/02 09:00"), loan(11, "1970/02/01 09:00")]),
        member(2, vec![]),
        member(3, vec![loan(12, "1970/01/01 09:30")]),
    ];
    let list = delayed_list(&users, 10 * DAY, Zone::Tokyo).unwrap();
    let rows: Vec<(u32, &str, u32)> = list.iter().map(|d| (d.user_id, d.user_name.as_str(), d.book.book_id)).collect();
    assert_eq!(rows, vec![(1, "m1", 10), (3, "m3", 12)]);
}

#[test]
fn no_overdue_loans_is_not_found() {
    let users = vec![member(1, vec![loan(10, "1970/02/01 09:00")])];
    assert_eq!(delayed_list(&users, 0, Zone::Tokyo).unwrap_err(), BibErrorResponse::DataNotFound(String::new()));
    assert_eq!(delayed_list(&vec![], 0, Zone::Tokyo).unwrap_err(), BibErrorResponse::DataNotFound(String::new()));
}

#[test]
fn unreadable_deadline_is_a_system_error() {
    let users = vec![member(1, vec![loan(10, "soon")])];
    assert!(matches!(delayed_list(&users, 0, Zone::Tokyo), Err(BibErrorResponse::SystemError(_))));
}
