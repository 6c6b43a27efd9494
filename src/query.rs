use crate::item::{Book, TransactionItem, User};
use vstd::prelude::*;

verus! {

/// A text field a search may match by pattern.
#[derive(Clone, Copy, Debug, PartialEq, Eq, Structural)]
pub enum Field {
    Name,
    Kana,
    Category,
    Title,
    Author,
}

/// One alternative of a ledger search.
#[derive(Debug)]
pub enum Clause {
    UserIs(u32),
    UserNameMatches(String),
    BookIs(u32),
    BookTitleMatches(String),
}

/// What a search asks the store for.
#[derive(Debug)]
pub enum Query {
    /// Every record with a positive id.
    All,
    /// The record with this id.
    IdIs(u32),
    /// Records whose field matches the pattern.
    Matches(Field, String),
    /// Ledger rows meeting any of the clauses.
    AnyOf(Vec<Clause>),
}

/// The search a member record stands for: its id if set, else the first text
/// field set among name, kana and category, else every member.
pub fn user_query(user: &User) -> (r: Query)
    ensures
        user.id != 0 ==> r == Query::IdIs(user.id),
        user.id == 0 && user.name@.len() > 0 ==> r == Query::Matches(Field::Name, user.name),
        user.id == 0 && user.name@.len() == 0 && user.kana@.len() > 0 ==> r == Query::Matches(
            Field::Kana,
            user.kana,
        ),
        user.id == 0 && user.name@.len() == 0 && user.kana@.len() == 0 && user.category@.len() > 0
            ==> r == Query::Matches(Field::Category, user.category),
        user.id == 0 && user.name@.len() == 0 && user.kana@.len() == 0 && user.category@.len() == 0
            ==> r == Query::All,
{
    if user.id != 0 {
        Query::IdIs(user.id)
    } else if !user.name.as_str().is_empty() {
        Query::Matches(Field::Name, user.name.clone())
    } else if !user.kana.as_str().is_empty() {
        Query::Matches(Field::Kana, user.kana.clone())
    } else if !user.category.as_str().is_empty() {
        Query::Matches(Field::Category, user.category.clone())
    } else {
        Query::All
    }
}

/// The search a book record stands for: its id if set, else the first text
/// field set among title, kana and author, else every book.
pub fn book_query(book: &Book) -> (r: Query)
    ensures
        book.id != 0 ==> r == Query::IdIs(book.id),
        book.id == 0 && book.title@.len() > 0 ==> r == Query::Matches(Field::Title, book.title),
        book.id == 0 && book.title@.len() == 0 && book.kana@.len() > 0 ==> r == Query::Matches(
            Field::Kana,
            book.kana,
        ),
        book.id == 0 && book.title@.len() == 0 && book.kana@.len() == 0 && book.author@.len() > 0
            ==> r == Query::Matches(Field::Author, book.author),
        book.id == 0 && book.title@.len() == 0 && book.kana@.len() == 0 && book.author@.len() == 0
            ==> r == Query::All,
{
    if book.id != 0 {
        Query::IdIs(book.id)
    } else if !book.title.as_str().is_empty() {
        Query::Matches(Field::Title, book.title.clone())
    } else if !book.kana.as_str().is_empty() {
        Query::Matches(Field::Kana, book.kana.clone())
    } else if !book.author.as_str().is_empty() {
        Query::Matches(Field::Author, book.author.clone())
    } else {
        Query::All
    }
}

/// The clauses of a ledger search for `item`: its member and book ids, and each
/// of the name and title patterns that is set.
pub open spec fn ledger_clauses(item: TransactionItem) -> Seq<Clause> {
    let named = item.user_name@.len() > 0;
    let titled = item.book_title@.len() > 0;
    if named && titled {
        seq![
            Clause::UserIs(item.user_id),
            Clause::UserNameMatches(item.user_name),
            Clause::BookIs(item.book_id),
            Clause::BookTitleMatches(item.book_title),
        ]
    } else if named {
        seq![
            Clause::UserIs(item.user_id),
            Clause::UserNameMatches(item.user_name),
            Clause::BookIs(item.book_id),
        ]
    } else if titled {
        seq![
            Clause::UserIs(item.user_id),
            Clause::BookIs(item.book_id),
            Clause::BookTitleMatches(item.book_title),
        ]
    } else {
        seq![Clause::UserIs(item.user_id), Clause::BookIs(item.book_id)]
    }
}

/// The search a ledger row stands for: every row when nothing is set, else the
/// rows that meet any of its clauses.
pub fn ledger_query(item: &TransactionItem) -> (r: Query)
    ensures
        item.user_name@.len() == 0 && item.book_title@.len() == 0 && item.user_id == 0
            && item.book_id == 0 ==> r == Query::All,
        !(item.user_name@.len() == 0 && item.book_title@.len() == 0 && item.user_id == 0
            && item.book_id == 0) ==> (r matches Query::AnyOf(c) && c@ == ledger_clauses(*item)),
{
    let named = !item.user_name.as_str().is_empty();
    let titled = !item.book_title.as_str().is_empty();
    if !named && !titled && item.user_id == 0 && item.book_id == 0 {
        return Query::All;
    }
    let mut clauses: Vec<Clause> = Vec::new();
    clauses.push(Clause::UserIs(item.user_id));
    if named {
        clauses.push(Clause::UserNameMatches(item.user_name.clone()));
    }
    clauses.push(Clause::BookIs(item.book_id));
    if titled {
        clauses.push(Clause::BookTitleMatches(item.book_title.clone()));
    }
    assert(clauses@ =~= ledger_clauses(*item));
    Query::AnyOf(clauses)
}

} // verus!
