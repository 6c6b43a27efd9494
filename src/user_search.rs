use crate::error::BibErrorResponse;
use crate::history::wanted_id;
use crate::item::{decimal_u32, User};
use crate::work::optional_id;
use vstd::prelude::*;

verus! {

/// A member search: each field may be left empty.
#[derive(Debug)]
pub struct FormData {
    pub id: String,
    pub name: String,
    pub kana: String,
    pub category: String,
}

impl FormData {
    /// The member record used as the query; a malformed id is an invalid argument.
    pub fn to_query(&self) -> (r: Result<User, BibErrorResponse>)
        ensures
            self.id@.len() > 0 && decimal_u32(self.id@) is Err ==> (r is Err
                && r->Err_0 is InvalidArgument),
            self.id@.len() == 0 || decimal_u32(self.id@) is Ok ==> (r matches Ok(q) && q.id
                == wanted_id(self.id@) && q.name@ == self.name@ && q.kana@ == self.kana@
                && q.category@ == self.category@ && q.borrowed_books@.len() == 0),
    {
        let id = match optional_id(self.id.as_str()) {
            Ok(v) => v,
            Err(e) => return Err(e),
        };
        let mut user = User::default();
        user.id = id;
        user.name = self.name.clone();
        user.kana = self.kana.clone();
        user.category = self.category.clone();
        Ok(user)
    }
}

} // verus!
