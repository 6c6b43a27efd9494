use crate::error::BibErrorResponse;
use crate::item::{decimal_u32, TransactionItem};
use crate::work::optional_id;
use vstd::prelude::*;

verus! {

/// A ledger search: each field may be left empty.
#[derive(Debug)]
pub struct FormData {
    pub user_id: String,
    pub user_name: String,
    pub book_id: String,
    pub book_title: String,
}

/// The id a search field asks for: 0 when empty, else its decimal value.
pub open spec fn wanted_id(text: Seq<char>) -> u32 {
    if text.len() == 0 {
        0
    } else {
        decimal_u32(text)->Ok_0
    }
}

impl FormData {
    /// The ledger row used as the query; a malformed id is an invalid argument.
    pub fn to_query(&self) -> (r: Result<TransactionItem, BibErrorResponse>)
        ensures
            self.user_id@.len() > 0 && decimal_u32(self.user_id@) is Err ==> r is Err,
            (self.user_id@.len() == 0 || decimal_u32(self.user_id@) is Ok) && self.book_id@.len() > 0
                && decimal_u32(self.book_id@) is Err ==> r is Err,
            r is Err ==> r->Err_0 is InvalidArgument,
            (self.user_id@.len() == 0 || decimal_u32(self.user_id@) is Ok) && (self.book_id@.len()
                == 0 || decimal_u32(self.book_id@) is Ok) ==> (r matches Ok(q) && q.id == 0
                && q.user_id == wanted_id(self.user_id@) && q.book_id == wanted_id(self.book_id@)
                && q.user_name@ == self.user_name@ && q.book_title@ == self.book_title@
                && q.borrowed_date@.len() == 0 && q.returned_date@.len() == 0),
    {
        let user_id = match optional_id(self.user_id.as_str()) {
            Ok(v) => v,
            Err(e) => return Err(e),
        };
        let book_id = match optional_id(self.book_id.as_str()) {
            Ok(v) => v,
            Err(e) => return Err(e),
        };
        Ok(TransactionItem::new(user_id, self.user_name.as_str(), book_id, self.book_title.as_str()))
    }
}

} // verus!
