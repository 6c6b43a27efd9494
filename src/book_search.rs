use crate::cache::Cache;
use crate::error::BibErrorResponse;
use crate::history::wanted_id;
use crate::item::{atoi, decimal_u32, Book};
use crate::work::optional_id;
use vstd::prelude::*;

verus! {

/// A catalogue search: each field may be left empty; `user_id` is 0 for staff.
#[derive(Debug)]
pub struct FormData {
    pub id: String,
    pub title: String,
    pub kana: String,
    pub author: String,
    pub user_id: String,
}

impl FormData {
    /// Who is searching: 0 for staff, else a member; a malformed id is an
    /// invalid argument that quotes it.
    pub fn searcher(&self) -> (r: Result<u32, BibErrorResponse>)
        ensures
            decimal_u32(self.user_id@) is Ok ==> r == Ok::<u32, BibErrorResponse>(
                decimal_u32(self.user_id@)->Ok_0,
            ),
            decimal_u32(self.user_id@) is Err ==> (r matches Err(
                BibErrorResponse::InvalidArgument(m),
            ) && m@ == self.user_id@),
    {
        match atoi(self.user_id.as_str()) {
            Ok(v) => Ok(v),
            Err(_) => Err(BibErrorResponse::InvalidArgument(self.user_id.clone())),
        }
    }

    /// The book record used as the query; a malformed id is an invalid argument.
    pub fn to_query(&self) -> (r: Result<Book, BibErrorResponse>)
        ensures
            self.id@.len() > 0 && decimal_u32(self.id@) is Err ==> (r is Err
                && r->Err_0 is InvalidArgument),
            self.id@.len() == 0 || decimal_u32(self.id@) is Ok ==> (r matches Ok(q) && q.id
                == wanted_id(self.id@) && q.title@ == self.title@ && q.kana@ == self.kana@
                && q.author@ == self.author@),
    {
        let id = match optional_id(self.id.as_str()) {
            Ok(v) => v,
            Err(e) => return Err(e),
        };
        let mut book = Book::default();
        book.id = id;
        book.title = self.title.clone();
        book.kana = self.kana.clone();
        book.author = self.author.clone();
        Ok(book)
    }
}

/// Marks each book of a search result that is on loan with its holder and deadline,
/// as the mirror has them.
pub fn annotate_loans(cache: &Cache, books: &mut Vec<Book>)
    ensures
        final(books)@.len() == old(books)@.len(),
        forall|i: int|
            0 <= i < old(books)@.len() ==> {
                let before = #[trigger] old(books)@[i];
                let after = final(books)@[i];
                &&& after.id == before.id
                &&& after.title == before.title
                &&& after.borrowed_count == before.borrowed_count
                &&& cache@.contains_key(before.id) ==> after.owner_id == Some(
                    cache@[before.id].owner_id,
                ) && after.return_deadline == Some(cache@[before.id].return_deadline)
                &&& !cache@.contains_key(before.id) ==> after.owner_id == before.owner_id
                    && after.return_deadline == before.return_deadline
            },
{
    let ghost start = books@;
    let mut i: usize = 0;
    while i < books.len()
        invariant
            i <= books@.len(),
            books@.len() == start.len(),
            forall|k: int| i <= k < start.len() ==> #[trigger] books@[k] == start[k],
            forall|k: int|
                0 <= k < i ==> {
                    let before = #[trigger] start[k];
                    let after = books@[k];
                    &&& after.id == before.id
                    &&& after.title == before.title
                    &&& after.borrowed_count == before.borrowed_count
                    &&& cache@.contains_key(before.id) ==> after.owner_id == Some(
                        cache@[before.id].owner_id,
                    ) && after.return_deadline == Some(cache@[before.id].return_deadline)
                    &&& !cache@.contains_key(before.id) ==> after.owner_id == before.owner_id
                        && after.return_deadline == before.return_deadline
                },
        decreases start.len() - i,
    {
        let id = books[i].id;
        if let Some(info) = cache.get(id) {
            let mut book = books.remove(i);
            book.owner_id = Some(info.owner_id);
            book.return_deadline = Some(info.return_deadline);
            books.insert(i, book);
        }
        i = i + 1;
    }
}

} // verus!
