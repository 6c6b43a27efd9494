use bib::cache::Cache;
use bib::clock::Zone;
use bib::error::BibErrorResponse;
use bib::item::{Book, RentalSetting, User};
use bib::lending::{
    check_borrow_limit, single_book, single_setting, single_user, BorrowCommit, BorrowStage, ReturnCommit,
    ReturnStage, Tenant,
};

fn tenant(max_books: u32, days: u32) -> Tenant {
    let mut rental = RentalSetting::default();
    rental.num_books = max_books;
    rental.num_days = days;
    Tenant::new(100, 0, rental, Zone::Tokyo)
}

fn member(id: u32) -> User {
    let mut u = User::default();
    u.id = id;
    u.name = format!("member{}", id);
    u
}

fn book(id: u32) -> Book {
    let mut b = Book::default();
    b.id = id;
    b.title = format!("title{}", id);
    b.location = "shelf A".to_string();
    b
}

/// Borrows and writes everything out successfully.
fn lend(t: &mut Tenant, u: &mut User, id: u32, now: i64) -> Result<(), BibErrorResponse> {
    let plan = t.begin_borrow(u, id, vec![book(id)], now)?;
    let mut commit = BorrowCommit::new(plan);
    commit.advance(&mut t.cache, Ok(()));
    commit.advance(&mut t.cache, Ok(()));
    commit.advance(&mut t.cache, Ok(()));
    match commit.stage {
        BorrowStage::Done(r) => r,
        _ => panic!("commit did not finish"),
    }
}

/// Returns and writes everything out successfully.
fn give_back(t: &mut Tenant, u: &mut User, id: u32, now: i64) -> Result<(String, u32), BibErrorResponse> {
    let plan = t.begin_return(u, &book(id), now)?;
    let mut commit = ReturnCommit::new(plan);
    commit.advance(&mut t.cache, Ok(()));
    commit.advance(&mut t.cache, Ok(()));
    match commit.stage {
        ReturnStage::Done(r) => r,
        _ => panic!("commit did not finish"),
    }
}

#[test]
fn borrow_records_loan_ledger_and_mirror() {
    let mut t = tenant(5, 14);
    let mut u = member(7);
    let plan = t.begin_borrow(&mut u, 10, vec![book(10)], 0).unwrap();
    assert_eq!(plan.user_id, 7);
    assert_eq!(plan.loan.book_id, 10);
    assert_eq!(plan.loan.transaction_id, 1);
    assert_eq!(plan.loan.book_title, "title10");
    assert_eq!(plan.loan.location, "shelf A");
    assert_eq!(plan.loan.borrowed_date, "1970/01/01 09:00");
    assert_eq!(plan.loan.return_deadline, "1970/01/15 09:00");
    assert_eq!(plan.book.borrowed_count, 1);
    assert_eq!(plan.record.id, 1);
    assert_eq!(plan.record.user_id, 7);
    assert_eq!(plan.record.user_name, "member7");
    assert_eq!(plan.record.book_id, 10);
    assert_eq!(plan.record.book_title, "title10");
    assert_eq!(plan.record.borrowed_date, "1970/01/01 09:00");
    assert_eq!(plan.record.returned_date, "");
    assert_eq!(u.borrowed_books.len(), 1);
    assert_eq!(u.borrowed_count, 1);
    assert_eq!(t.counter.counter, 1);
    assert!(t.cache.get(10).is_none());
    let mut commit = BorrowCommit::new(plan);
    commit.advance(&mut t.cache, Ok(()));
    commit.advance(&mut t.cache, Ok(()));
    assert!(t.cache.get(10).is_none());
    commit.advance(&mut t.cache, Ok(()));
    assert!(matches!(commit.stage, BorrowStage::Done(Ok(()))));
    let entry = t.cache.get(10).unwrap();
    assert_eq!(entry.owner_id, 7);
    assert_eq!(entry.return_deadline, "1970/01/15 09:00");
}

#[test]
fn berlin_tenant_stamps_in_berlin_time() {
    let mut t = tenant(5, 1);
    t.zone = Zone::Berlin;
    let mut u = member(1);
    let plan = t.begin_borrow(&mut u, 3, vec![book(3)], 1_700_000_000).unwrap();
    assert_eq!(plan.loan.borrowed_date, "2023/11/14 23:13");
    assert_eq!(plan.loan.return_deadline, "2023/11/15 23:13");
}

#[test]
fn second_borrow_of_same_book_is_refused() {
    let mut t = tenant(5, 14);
    let mut u = member(1);
    lend(&mut t, &mut u, 4, 0).unwrap();
    let before = u.borrowed_books.len();
    let r = t.begin_borrow(&mut u, 4, vec![book(4)], 0);
    assert!(matches!(r, Err(BibErrorResponse::BookNotReturned)));
    assert_eq!(u.borrowed_books.len(), before);
    assert_eq!(t.counter.counter, 1);
}

#[test]
fn forbidden_book_is_refused_without_change() {
    let mut t = tenant(5, 14);
    let mut u = member(1);
    let mut b = book(8);
    b.forbidden = "禁帯出".to_string();
    let r = t.begin_borrow(&mut u, 8, vec![b], 0);
    assert!(matches!(r, Err(BibErrorResponse::NotAllowedToBorrow)));
    assert_eq!(u.borrowed_books.len(), 0);
    assert_eq!(u.borrowed_count, 0);
    assert_eq!(t.counter.counter, 0);
    assert_eq!(t.cache.len(), 0);
}

#[test]
fn book_held_by_another_member_until_returned() {
    let mut t = tenant(5, 14);
    let mut a = member(1);
    let mut b = member(2);
    lend(&mut t, &mut a, 10, 0).unwrap();
    let r = t.begin_borrow(&mut b, 10, vec![book(10)], 60);
    assert!(matches!(r, Err(BibErrorResponse::BookNotReturned)));
    assert_eq!(b.borrowed_books.len(), 0);
    assert_eq!(give_back(&mut t, &mut a, 10, 120).unwrap(), ("title10".to_string(), 10));
    assert!(t.cache.get(10).is_none());
    lend(&mut t, &mut b, 10, 180).unwrap();
    assert_eq!(t.cache.get(10).unwrap().owner_id, 2);
}

#[test]
fn member_at_limit_is_refused_whatever_the_book() {
    let mut t = tenant(2, 14);
    let mut u = member(1);
    lend(&mut t, &mut u, 1, 0).unwrap();
    lend(&mut t, &mut u, 2, 0).unwrap();
    let r = t.begin_borrow(&mut u, 3, vec![book(3)], 0);
    assert!(matches!(r, Err(BibErrorResponse::OverBorrowingLimit)));
    let r = t.begin_borrow(&mut u, 99, vec![], 0);
    assert!(matches!(r, Err(BibErrorResponse::OverBorrowingLimit)));
    assert_eq!(check_borrow_limit(&u, 2), Err(BibErrorResponse::OverBorrowingLimit));
    assert_eq!(check_borrow_limit(&u, 3), Ok(()));
    assert_eq!(u.borrowed_books.len(), 2);
}

#[test]
fn loans_never_exceed_limit() {
    let mut t = tenant(3, 14);
    let mut u = member(1);
    for id in 1..=10u32 {
        let _ = lend(&mut t, &mut u, id, 0);
        assert!(u.borrowed_books.len() <= 3);
    }
    assert_eq!(u.borrowed_books.len(), 3);
}

#[test]
fn missing_and_duplicated_books() {
    let mut t = tenant(5, 14);
    let mut u = member(1);
    let r = t.begin_borrow(&mut u, 5, vec![], 0);
    assert!(matches!(r, Err(BibErrorResponse::BookNotFound(5))));
    let r = t.begin_borrow(&mut u, 5, vec![book(5), book(5)], 0);
    assert!(matches!(r, Err(BibErrorResponse::DataDuplicated(5))));
    assert!(matches!(single_book(vec![], 4), Err(BibErrorResponse::BookNotFound(4))));
    assert_eq!(single_book(vec![book(4)], 4).unwrap().id, 4);
    assert!(matches!(single_user(vec![], 9), Err(BibErrorResponse::UserNotFound(9))));
    assert!(matches!(single_user(vec![member(9), member(9)], 9), Err(BibErrorResponse::UserNotFound(9))));
    assert_eq!(single_user(vec![member(9)], 9).unwrap().id, 9);
    assert_eq!(single_setting(vec![7u32]), Ok(7));
    assert_eq!(single_setting::<u32>(vec![]), Err(BibErrorResponse::DataDuplicated(0)));
    assert_eq!(single_setting(vec![1u32, 2]), Err(BibErrorResponse::DataDuplicated(0)));
}

#[test]
fn deadline_beyond_calendar_is_refused() {
    let mut t = tenant(5, u32::MAX);
    let mut u = member(1);
    let r = t.begin_borrow(&mut u, 5, vec![book(5)], 0);
    assert!(matches!(r, Err(BibErrorResponse::SystemError(_))));
    assert_eq!(t.counter.counter, 0);
    assert_eq!(u.borrowed_books.len(), 0);
}

#[test]
fn failed_member_write_aborts_borrow() {
    let mut t = tenant(5, 14);
    let mut u = member(1);
    let plan = t.begin_borrow(&mut u, 6, vec![book(6)], 0).unwrap();
    let mut commit = BorrowCommit::new(plan);
    commit.advance(&mut t.cache, Err("write failed".to_string()));
    assert!(matches!(&commit.stage, BorrowStage::Done(Err(BibErrorResponse::SystemError(m))) if m == "write failed"));
    commit.advance(&mut t.cache, Ok(()));
    assert!(t.cache.get(6).is_none());
}

#[test]
fn failed_book_write_is_passed_over() {
    let mut t = tenant(5, 14);
    let mut u = member(1);
    let plan = t.begin_borrow(&mut u, 6, vec![book(6)], 0).unwrap();
    let mut commit = BorrowCommit::new(plan);
    commit.advance(&mut t.cache, Ok(()));
    commit.advance(&mut t.cache, Err("count failed".to_string()));
    assert!(matches!(commit.stage, BorrowStage::SaveLedger));
    commit.advance(&mut t.cache, Ok(()));
    assert!(matches!(commit.stage, BorrowStage::Done(Ok(()))));
    assert_eq!(t.cache.get(6).unwrap().owner_id, 1);
}

#[test]
fn failed_ledger_write_leaves_mirror_alone() {
    let mut t = tenant(5, 14);
    let mut u = member(1);
    let plan = t.begin_borrow(&mut u, 6, vec![book(6)], 0).unwrap();
    let mut commit = BorrowCommit::new(plan);
    commit.advance(&mut t.cache, Ok(()));
    commit.advance(&mut t.cache, Ok(()));
    commit.advance(&mut t.cache, Err("ledger failed".to_string()));
    assert!(matches!(commit.stage, BorrowStage::Done(Err(BibErrorResponse::SystemError(_)))));
    assert!(t.cache.get(6).is_none());
}

#[test]
fn return_by_book_finds_holder() {
    let mut t = tenant(5, 14);
    let mut u = member(3);
    lend(&mut t, &mut u, 12, 0).unwrap();
    assert_eq!(t.return_holder(0, 12), Ok(3));
    assert_eq!(t.return_holder(5, 12), Ok(5));
    assert_eq!(t.return_holder(0, 13), Err(BibErrorResponse::BookNotBorrowed));
}

#[test]
fn return_closes_ledger_row() {
    let mut t = tenant(5, 14);
    let mut u = member(3);
    lend(&mut t, &mut u, 1, 0).unwrap();
    lend(&mut t, &mut u, 2, 0).unwrap();
    let plan = t.begin_return(&mut u, &book(1), 86_400).unwrap();
    assert_eq!(plan.record.id, 1);
    assert_eq!(plan.record.book_id, 1);
    assert_eq!(plan.record.user_id, 3);
    assert_eq!(plan.record.borrowed_date, "1970/01/01 09:00");
    assert_eq!(plan.record.returned_date, "1970/01/02 09:00");
    assert_eq!(plan.loan.transaction_id, 1);
    assert_eq!(u.borrowed_books.len(), 1);
    assert_eq!(u.borrowed_books[0].book_id, 2);
    assert_eq!(u.borrowed_count, 2);
}

#[test]
fn return_of_book_not_held_is_refused() {
    let t = tenant(5, 14);
    let mut u = member(3);
    let r = t.begin_return(&mut u, &book(1), 0);
    assert!(matches!(r, Err(BibErrorResponse::BookNotBorrowed)));
}

#[test]
fn failed_return_writes_keep_mirror() {
    let mut t = tenant(5, 14);
    let mut u = member(3);
    lend(&mut t, &mut u, 1, 0).unwrap();
    let plan = t.begin_return(&mut u, &book(1), 0).unwrap();
    let mut commit = ReturnCommit::new(plan);
    commit.advance(&mut t.cache, Err("down".to_string()));
    assert!(matches!(commit.stage, ReturnStage::Done(Err(BibErrorResponse::SystemError(_)))));
    assert!(t.cache.get(1).is_some());
    let plan = t.begin_return(&mut member_with_loan(&t, 1), &book(1), 0).unwrap();
    let mut commit = ReturnCommit::new(plan);
    commit.advance(&mut t.cache, Ok(()));
    commit.advance(&mut t.cache, Err("ledger down".to_string()));
    assert!(matches!(commit.stage, ReturnStage::Done(Err(BibErrorResponse::SystemError(_)))));
    assert!(t.cache.get(1).is_some());
}

fn member_with_loan(t: &Tenant, id: u32) -> User {
    let mut t2 = tenant(5, 14);
    t2.zone = t.zone;
    let mut u = member(3);
    lend(&mut t2, &mut u, id, 0).unwrap();
    u
}

#[test]
fn mirror_matches_members_after_mixed_work() {
    let mut t = tenant(5, 14);
    let mut a = member(1);
    let mut b = member(2);
    lend(&mut t, &mut a, 1, 0).unwrap();
    lend(&mut t, &mut b, 2, 0).unwrap();
    lend(&mut t, &mut a, 3, 0).unwrap();
    give_back(&mut t, &mut a, 1, 0).unwrap();
    let _ = lend(&mut t, &mut b, 3, 0);
    for id in 0..5u32 {
        let held = a.borrowed_books.iter().any(|l| l.book_id == id)
            || b.borrowed_books.iter().any(|l| l.book_id == id);
        assert_eq!(t.cache.get(id).is_some(), held);
    }
    let mut rebuilt = Cache::new();
    rebuilt.construct(&vec![member(9), a, b]);
    assert_eq!(rebuilt.len(), 2);
    assert_eq!(rebuilt.get(3).unwrap().owner_id, 1);
    assert_eq!(rebuilt.get(2).unwrap().owner_id, 2);
}
