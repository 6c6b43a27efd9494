use crate::cache::Cache;
use crate::error::BibErrorResponse;
use crate::item::{Book, User};
use vstd::prelude::*;

verus! {

/// What an edit form asks to do with the record.
#[derive(Debug, PartialEq, Eq, Structural)]
pub enum EditOp {
    Update,
    Delete,
}

/// A member edit: the member's fields and the operation, as text.
#[derive(Debug)]
pub struct Form1Data {
    pub user_id: String,
    pub user_name: String,
    pub user_kana: String,
    pub user_category: String,
    pub user_remark: String,
    pub operation: String,
    pub user_register_date: String,
}

/// A book edit: the book's fields and the operation, as text. `book_char`
/// is the shelf location.
#[derive(Debug)]
pub struct Form2Data {
    pub book_id: String,
    pub book_title: String,
    pub book_kana: String,
    pub book_series: String,
    pub book_author: String,
    pub book_publisher: String,
    pub book_char: String,
    pub book_remark: String,
    pub book_recommendation: String,
    pub book_register_type: String,
    pub book_register_date: String,
    pub book_status: String,
    pub operation: String,
}

/// The operation an edit form names: "update" or "delete"; anything else is not implemented.
pub fn edit_op(operation: &str) -> (r: Result<EditOp, BibErrorResponse>)
    ensures
        operation@ == "update"@ ==> r == Ok::<EditOp, BibErrorResponse>(EditOp::Update),
        operation@ == "delete"@ ==> r == Ok::<EditOp, BibErrorResponse>(EditOp::Delete),
        operation@ != "update"@ && operation@ != "delete"@ ==> r == Err::<EditOp, BibErrorResponse>(
            BibErrorResponse::NotImplemented,
        ),
{
    proof {
        reveal_strlit("update");
        reveal_strlit("delete");
        assert("update"@[0] != "delete"@[0]);
    }
    let given = operation.to_owned();
    if given == "update".to_owned() {
        Ok(EditOp::Update)
    } else if given == "delete".to_owned() {
        Ok(EditOp::Delete)
    } else {
        Err(BibErrorResponse::NotImplemented)
    }
}

/// Refuses a new record once `registered` records reach the tenant's limit.
pub fn check_registration(registered: usize, max_registered: u32) -> (r: Result<(), BibErrorResponse>)
    ensures
        registered >= max_registered ==> r == Err::<(), BibErrorResponse>(
            BibErrorResponse::ExceedLimit(max_registered),
        ),
        registered < max_registered ==> r == Ok::<(), BibErrorResponse>(()),
{
    if registered >= max_registered as usize {
        Err(BibErrorResponse::ExceedLimit(max_registered))
    } else {
        Ok(())
    }
}

/// A member who still holds loans cannot be deleted.
pub fn check_user_delete(user: &User) -> (r: Result<(), BibErrorResponse>)
    ensures
        user.borrowed_books@.len() > 0 ==> r == Err::<(), BibErrorResponse>(
            BibErrorResponse::NotPossibleToDelete,
        ),
        user.borrowed_books@.len() == 0 ==> r == Ok::<(), BibErrorResponse>(()),
{
    if user.borrowed_books.len() > 0 {
        Err(BibErrorResponse::NotPossibleToDelete)
    } else {
        Ok(())
    }
}

/// A book on loan cannot be deleted.
pub fn check_book_delete(cache: &Cache, book_id: u32) -> (r: Result<(), BibErrorResponse>)
    ensures
        cache@.contains_key(book_id) ==> r == Err::<(), BibErrorResponse>(
            BibErrorResponse::NotPossibleToDelete,
        ),
        !cache@.contains_key(book_id) ==> r == Ok::<(), BibErrorResponse>(()),
{
    if cache.get(book_id).is_some() {
        Err(BibErrorResponse::NotPossibleToDelete)
    } else {
        Ok(())
    }
}

impl Form1Data {
    /// Writes the edited fields over a stored member, keeping its id and loans.
    pub fn apply_to(&self, user: &mut User)
        ensures
            final(user).name@ == self.user_name@,
            final(user).kana@ == self.user_kana@,
            final(user).category@ == self.user_category@,
            final(user).remark@ == self.user_remark@,
            final(user).register_date@ == self.user_register_date@,
            final(user).id == old(user).id,
            final(user).grade == old(user).grade,
            final(user).reserved == old(user).reserved,
            final(user).borrowed_count == old(user).borrowed_count,
            final(user).borrowed_books == old(user).borrowed_books,
    {
        user.name = self.user_name.clone();
        user.kana = self.user_kana.clone();
        user.category = self.user_category.clone();
        user.remark = self.user_remark.clone();
        user.register_date = self.user_register_date.clone();
    }
}

impl Form2Data {
    /// Writes the edited fields over a stored book, keeping its id and loan count.
    pub fn apply_to(&self, book: &mut Book)
        ensures
            final(book).title@ == self.book_title@,
            final(book).kana@ == self.book_kana@,
            final(book).series@ == self.book_series@,
            final(book).author@ == self.book_author@,
            final(book).publisher@ == self.book_publisher@,
            final(book).location@ == self.book_char@,
            final(book).remark@ == self.book_remark@,
            final(book).register_date@ == self.book_register_date@,
            final(book).register_type@ == self.book_register_type@,
            final(book).status@ == self.book_status@,
            final(book).id == old(book).id,
            final(book).forbidden == old(book).forbidden,
            final(book).borrowed_count == old(book).borrowed_count,
    {
        book.title = self.book_title.clone();
        book.kana = self.book_kana.clone();
        book.series = self.book_series.clone();
        book.author = self.book_author.clone();
        book.publisher = self.book_publisher.clone();
        book.location = self.book_char.clone();
        book.remark = self.book_remark.clone();
        book.register_date = self.book_register_date.clone();
        book.register_type = self.book_register_type.clone();
        book.status = self.book_status.clone();
    }
}

} // verus!
