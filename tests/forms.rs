use bib::barcode::{id_range, GenBookBarcodeForm, GenUserBarcodeForm};
use bib::book_search::{annotate_loans, FormData as BookQuery};
use bib::cache::Cache;
use bib::edit::{
    check_book_delete, check_registration, check_user_delete, edit_op, EditOp, Form1Data as UserEdit,
    Form2Data as BookEdit,
};
use bib::error::BibErrorResponse;
use bib::history::FormData as HistoryQuery;
use bib::item::{Book, BorrowedBook, TransactionItem, User};
use bib::query::{book_query, ledger_query, user_query, Clause, Field, Query};
use bib::setting::{
    set_system_limits, Form1Data as RentalForm, Form2Data as BarcodeForm, MonthlyPlan, SystemSetting,
};
use bib::user_search::FormData as UserQuery;
use bib::work::{optional_id, FormData as WorkForm};

fn s(t: &str) -> String {
    t.to_string()
}

#[test]
fn error_bodies_carry_codes_and_messages() {
    let b = BibErrorResponse::UserNotFound(42).response_body();
    assert!(!b.success);
    assert_eq!(b.errcode, 106);
    assert_eq!(b.message, "ID(42)が見つかりません");
    assert_eq!(b.reason, "");
    let b = BibErrorResponse::BookNotFound(0).response_body();
    assert_eq!((b.errcode, b.message.as_str()), (107, "該当図書が見つかりません(ID = 0)"));
    let b = BibErrorResponse::DataDuplicated(4294967295).response_body();
    assert_eq!((b.errcode, b.message.as_str()), (108, "該当するデータが複数存在しています(4294967295)"));
    let b = BibErrorResponse::ExceedLimit(500).response_body();
    assert_eq!((b.errcode, b.message.as_str()), (113, "追加できる上限を超えています(500)"));
    let b = BibErrorResponse::ExceedLimitInParallel(1000).response_body();
    assert_eq!((b.errcode, b.message.as_str()), (115, "一度に追加できる上限を超えています(1000)"));
    let b = BibErrorResponse::SystemError(s("disk")).response_body();
    assert_eq!((b.errcode, b.message.as_str(), b.reason.as_str()), (112, "システムエラーが発生しました", "disk"));
    let b = BibErrorResponse::InvalidArgument(s("x")).response_body();
    assert_eq!((b.errcode, b.reason.as_str()), (104, "x"));
    let codes: Vec<u16> = vec![
        BibErrorResponse::NotImplemented,
        BibErrorResponse::NotAuthorized,
        BibErrorResponse::LoginFailed,
        BibErrorResponse::DbConnectionError(s("c")),
        BibErrorResponse::DataNotFound(s("d")),
        BibErrorResponse::OverBorrowingLimit,
        BibErrorResponse::BookNotReturned,
        BibErrorResponse::BookNotBorrowed,
        BibErrorResponse::NotPossibleToDelete,
        BibErrorResponse::NotAllowedToBorrow,
        BibErrorResponse::BarcodeDigitsOutOfRange,
    ]
    .iter()
    .map(|e| e.response_body().errcode)
    .collect();
    assert_eq!(codes, vec![100, 101, 102, 103, 105, 109, 110, 111, 114, 116, 117]);
    assert_eq!(BibErrorResponse::NotAuthorized.response_body().message, "このアクセスは認証されていません");
    assert_eq!(BibErrorResponse::OverBorrowingLimit.response_body().message, "貸出できる上限を超えています");
    assert_eq!(BibErrorResponse::DbConnectionError(s("c")).response_body().reason, "c");
}

#[test]
fn plan_limits_per_subscription() {
    let mut st = SystemSetting::default();
    assert_eq!(st.time_zone, "Tokyo");
    set_system_limits(&mut st, &MonthlyPlan::Free);
    assert_eq!((st.max_registered_users, st.max_registered_books, st.max_num_transactions), (50, 500, 5000));
    set_system_limits(&mut st, &MonthlyPlan::Light);
    assert_eq!((st.max_registered_users, st.max_registered_books, st.max_num_transactions), (100, 1000, 10000));
    set_system_limits(&mut st, &MonthlyPlan::Standard);
    assert_eq!((st.max_registered_users, st.max_registered_books, st.max_num_transactions), (1000, 10000, 50000));
    assert_eq!(st.num_threads, 10);
}

#[test]
fn setting_forms() {
    let r = RentalForm { num_books: s("5"), num_days: s("7") }.to_setting().unwrap();
    assert_eq!((r.num_books, r.num_days), (5, 7));
    assert!(RentalForm { num_books: s("five"), num_days: s("7") }.to_setting().is_err());
    let b = BarcodeForm { user_keta_min: s("1"), user_keta_max: s("2"), book_keta_min: s("3"), book_keta_max: s("4") }
        .to_setting()
        .unwrap();
    assert_eq!((b.user_keta_min, b.user_keta_max, b.book_keta_min, b.book_keta_max), (1, 2, 3, 4));
    assert!(BarcodeForm { user_keta_min: s("1"), user_keta_max: s(""), book_keta_min: s("3"), book_keta_max: s("4") }
        .to_setting()
        .is_err());
}

#[test]
fn edit_forms() {
    assert_eq!(edit_op("update"), Ok(EditOp::Update));
    assert_eq!(edit_op("delete"), Ok(EditOp::Delete));
    assert_eq!(edit_op("remove"), Err(BibErrorResponse::NotImplemented));
    assert_eq!(check_registration(49, 50), Ok(()));
    assert_eq!(check_registration(50, 50), Err(BibErrorResponse::ExceedLimit(50)));
    let mut u = User::default();
    assert_eq!(check_user_delete(&u), Ok(()));
    u.borrowed_books.push(BorrowedBook::default());
    assert_eq!(check_user_delete(&u), Err(BibErrorResponse::NotPossibleToDelete));
    let mut c = Cache::new();
    assert_eq!(check_book_delete(&c, 3), Ok(()));
    c.borrow(3, 1, s("d"));
    assert_eq!(check_book_delete(&c, 3), Err(BibErrorResponse::NotPossibleToDelete));

    let form = UserEdit {
        user_id: s("1"),
        user_name: s("n"),
        user_kana: s("k"),
        user_category: s("c"),
        user_remark: s("r"),
        operation: s("update"),
        user_register_date: s("d"),
    };
    form.apply_to(&mut u);
    assert_eq!((u.name.as_str(), u.kana.as_str(), u.register_date.as_str()), ("n", "k", "d"));
    assert_eq!(u.borrowed_books.len(), 1);

    let form = BookEdit {
        book_id: s("2"),
        book_title: s("t"),
        book_kana: s("k"),
        book_series: s("se"),
        book_author: s("a"),
        book_publisher: s("p"),
        book_char: s("shelf"),
        book_remark: s("r"),
        book_recommendation: s("rec"),
        book_register_type: s("rt"),
        book_register_date: s("rd"),
        book_status: s("st"),
        operation: s("delete"),
    };
    let mut b = Book::default();
    b.id = 2;
    b.borrowed_count = 4;
    form.apply_to(&mut b);
    assert_eq!((b.id, b.title.as_str(), b.location.as_str(), b.borrowed_count), (2, "t", "shelf", 4));
}

#[test]
fn search_queries() {
    let q = HistoryQuery { user_id: s("3"), user_name: s("a"), book_id: s(""), book_title: s("b") }
        .to_query()
        .unwrap();
    assert_eq!((q.id, q.user_id, q.book_id, q.user_name.as_str(), q.book_title.as_str()), (0, 3, 0, "a", "b"));
    assert!(matches!(
        HistoryQuery { user_id: s(""), user_name: s(""), book_id: s("x"), book_title: s("") }.to_query(),
        Err(BibErrorResponse::InvalidArgument(_))
    ));
    let q = UserQuery { id: s(""), name: s("n"), kana: s(""), category: s("c") }.to_query().unwrap();
    assert_eq!((q.id, q.name.as_str(), q.category.as_str()), (0, "n", "c"));
    assert!(UserQuery { id: s("-2"), name: s(""), kana: s(""), category: s("") }.to_query().is_err());
    let f = BookQuery { id: s("9"), title: s("t"), kana: s(""), author: s("a"), user_id: s("0") };
    let q = f.to_query().unwrap();
    assert_eq!((q.id, q.title.as_str(), q.author.as_str()), (9, "t", "a"));
    assert_eq!(f.searcher(), Ok(0));
    let f = BookQuery { id: s(""), title: s(""), kana: s(""), author: s(""), user_id: s("u1") };
    assert_eq!(f.searcher(), Err(BibErrorResponse::InvalidArgument(s("u1"))));
    assert_eq!(optional_id(""), Ok(0));
    assert_eq!(optional_id("15"), Ok(15));
}

#[test]
fn search_results_show_loans() {
    let mut c = Cache::new();
    c.borrow(2, 7, s("2024/01/01 10:00"));
    let mut books = vec![];
    for id in 1..=3u32 {
        let mut b = Book::default();
        b.id = id;
        books.push(b);
    }
    annotate_loans(&c, &mut books);
    assert_eq!(books[0].owner_id, None);
    assert_eq!(books[1].owner_id, Some(7));
    assert_eq!(books[1].return_deadline.as_deref(), Some("2024/01/01 10:00"));
    assert_eq!(books[2].return_deadline, None);
}

#[test]
fn barcode_sheet_forms() {
    let f = GenUserBarcodeForm { user_id_start: s("10"), user_id_end: s("20"), barcode_size: s("3") };
    assert_eq!(f.range(), Ok((10, 20)));
    assert_eq!(f.size(), Ok(3));
    let f = GenBookBarcodeForm { book_id_start: s("1"), book_id_end: s("x"), barcode_size: s("") };
    assert_eq!(f.range(), Err(BibErrorResponse::InvalidArgument(s("invalid digit found in string"))));
    assert_eq!(
        f.size(),
        Err(BibErrorResponse::InvalidArgument(s("cannot parse integer from empty string")))
    );
    assert_eq!(id_range("5", "6"), Ok((5, 6)));
}

#[test]
fn form_encoded_request() {
    let r = WorkForm { user_id: s("1"), borrowed_book_id: s("2"), returned_book_id: s("") }.into_request();
    assert_eq!((r.user_id.as_str(), r.borrowed_book_id.as_str(), r.returned_book_id.as_str()), ("1", "2", ""));
}

#[test]
fn store_queries() {
    let mut u = User::default();
    assert!(matches!(user_query(&u), Query::All));
    u.category = s("c");
    assert!(matches!(user_query(&u), Query::Matches(Field::Category, ref p) if p == "c"));
    u.name = s("n");
    assert!(matches!(user_query(&u), Query::Matches(Field::Name, ref p) if p == "n"));
    u.id = 4;
    assert!(matches!(user_query(&u), Query::IdIs(4)));
    let mut b = Book::default();
    b.author = s("a");
    assert!(matches!(book_query(&b), Query::Matches(Field::Author, _)));
    b.kana = s("k");
    assert!(matches!(book_query(&b), Query::Matches(Field::Kana, _)));
    let mut t = TransactionItem::default();
    assert!(matches!(ledger_query(&t), Query::All));
    t.book_id = 3;
    match ledger_query(&t) {
        Query::AnyOf(c) => {
            assert_eq!(c.len(), 2);
            assert!(matches!(c[0], Clause::UserIs(0)));
            assert!(matches!(c[1], Clause::BookIs(3)));
        }
        other => panic!("{:?}", other),
    }
    t.user_name = s("x");
    t.book_title = s("y");
    match ledger_query(&t) {
        Query::AnyOf(c) => {
            assert_eq!(c.len(), 4);
            assert!(matches!(&c[1], Clause::UserNameMatches(p) if p == "x"));
            assert!(matches!(&c[3], Clause::BookTitleMatches(p) if p == "y"));
        }
        other => panic!("{:?}", other),
    }
}
