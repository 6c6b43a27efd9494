use crate::barcode::{
    byte_count, check_digits_of_book_barcodes, check_digits_of_user_barcodes, digits_verdict,
    BarcodeSetting,
};
use crate::error::BibErrorResponse;
use crate::item::{atoi, decimal_u32, parse_message, BorrowedBook};
use vstd::prelude::*;

verus! {

/// A counter request: the member's barcode (empty for a return by book only),
/// the barcode of a book to lend and that of a book coming back (each may be empty).
#[derive(Debug)]
pub struct ProcessWorkForm {
    pub user_id: String,
    pub borrowed_book_id: String,
    pub returned_book_id: String,
}

/// The same counter request as the form-encoded variant of the endpoint sends it.
#[derive(Debug)]
pub struct FormData {
    pub user_id: String,
    pub borrowed_book_id: String,
    pub returned_book_id: String,
}

impl FormData {
    /// The request this form carries.
    pub fn into_request(self) -> (r: ProcessWorkForm)
        ensures
            r.user_id == self.user_id,
            r.borrowed_book_id == self.borrowed_book_id,
            r.returned_book_id == self.returned_book_id,
    {
        ProcessWorkForm {
            user_id: self.user_id,
            borrowed_book_id: self.borrowed_book_id,
            returned_book_id: self.returned_book_id,
        }
    }
}

/// What a counter request asks for once its barcodes have passed.
#[derive(Debug, PartialEq, Eq, Structural)]
pub enum WorkPlan {
    /// Return of a book whose holder the mirror names.
    ReturnOnly,
    /// Work for one member: a borrow, a return, both (borrow first) or neither.
    ForMember { user_id: u32, borrow: bool, give_back: bool },
}

/// Reads a decimal identifier of a request; a malformed one is an invalid argument
/// that carries the reason.
pub fn parse_id(text: &str) -> (r: Result<u32, BibErrorResponse>)
    ensures
        decimal_u32(text@) is Ok ==> r == Ok::<u32, BibErrorResponse>(decimal_u32(text@)->Ok_0),
        decimal_u32(text@) is Err ==> (r matches Err(BibErrorResponse::InvalidArgument(m)) && m@
            == parse_message(decimal_u32(text@)->Err_0)),
{
    match atoi(text) {
        Ok(v) => Ok(v),
        Err(e) => Err(BibErrorResponse::InvalidArgument(e.message())),
    }
}

/// Reads an identifier that may be left empty, which stands for 0 (any).
pub fn optional_id(text: &str) -> (r: Result<u32, BibErrorResponse>)
    ensures
        text@.len() == 0 ==> r == Ok::<u32, BibErrorResponse>(0),
        text@.len() > 0 && decimal_u32(text@) is Ok ==> r == Ok::<u32, BibErrorResponse>(
            decimal_u32(text@)->Ok_0,
        ),
        text@.len() > 0 && decimal_u32(text@) is Err ==> (r matches Err(
            BibErrorResponse::InvalidArgument(m),
        ) && m@ == parse_message(decimal_u32(text@)->Err_0)),
{
    if text.is_empty() {
        Ok(0)
    } else {
        parse_id(text)
    }
}

/// Whether the request is a return by book only.
pub open spec fn returns_by_book(form: ProcessWorkForm) -> bool {
    form.user_id@.len() == 0 && form.borrowed_book_id@.len() == 0 && form.returned_book_id@.len()
        > 0
}

/// Checks the barcodes of a counter request, in the order member, lent book,
/// returned book, and tells what it asks for.
pub fn plan_work(form: &ProcessWorkForm, setting: &BarcodeSetting) -> (r: Result<
    WorkPlan,
    BibErrorResponse,
>)
    ensures
        ({
            let user_check = digits_verdict(
                setting.user_keta_min,
                setting.user_keta_max,
                byte_count(form.user_id@) as nat,
            );
            let lend_check = digits_verdict(
                setting.book_keta_min,
                setting.book_keta_max,
                byte_count(form.borrowed_book_id@) as nat,
            );
            let back_check = digits_verdict(
                setting.book_keta_min,
                setting.book_keta_max,
                byte_count(form.returned_book_id@) as nat,
            );
            if user_check is Err {
                r == Err::<WorkPlan, BibErrorResponse>(user_check->Err_0)
            } else if lend_check is Err {
                r == Err::<WorkPlan, BibErrorResponse>(lend_check->Err_0)
            } else if back_check is Err {
                r == Err::<WorkPlan, BibErrorResponse>(back_check->Err_0)
            } else if returns_by_book(*form) {
                r == Ok::<WorkPlan, BibErrorResponse>(WorkPlan::ReturnOnly)
            } else if decimal_u32(form.user_id@) is Err {
                r matches Err(BibErrorResponse::InvalidArgument(m)) && m@ == parse_message(
                    decimal_u32(form.user_id@)->Err_0,
                )
            } else {
                r == Ok::<WorkPlan, BibErrorResponse>(
                    WorkPlan::ForMember {
                        user_id: decimal_u32(form.user_id@)->Ok_0,
                        borrow: form.borrowed_book_id@.len() > 0,
                        give_back: form.returned_book_id@.len() > 0,
                    },
                )
            }
        }),
{
    if let Err(e) = check_digits_of_user_barcodes(setting, form.user_id.as_str()) {
        return Err(e);
    }
    if let Err(e) = check_digits_of_book_barcodes(setting, form.borrowed_book_id.as_str()) {
        return Err(e);
    }
    if let Err(e) = check_digits_of_book_barcodes(setting, form.returned_book_id.as_str()) {
        return Err(e);
    }
    let no_user = form.user_id.as_str().is_empty();
    let no_lend = form.borrowed_book_id.as_str().is_empty();
    let no_back = form.returned_book_id.as_str().is_empty();
    if no_user && no_lend && !no_back {
        return Ok(WorkPlan::ReturnOnly);
    }
    let user_id = match parse_id(form.user_id.as_str()) {
        Ok(v) => v,
        Err(e) => return Err(e),
    };
    Ok(WorkPlan::ForMember { user_id, borrow: !no_lend, give_back: !no_back })
}

/// The loans of a member, most recent first.
pub fn newest_first(loans: &Vec<BorrowedBook>) -> (r: Vec<BorrowedBook>)
    ensures
        r@ == loans@.reverse(),
{
    let mut r: Vec<BorrowedBook> = Vec::new();
    let mut i: usize = loans.len();
    while i > 0
        invariant
            i <= loans@.len(),
            r@ == loans@.subrange(i as int, loans@.len() as int).reverse(),
        decreases i,
    {
        i = i - 1;
        r.push(loans[i].duplicate());
        assert(r@ =~= loans@.subrange(i as int, loans@.len() as int).reverse());
    }
    assert(loans@.subrange(0, loans@.len() as int) =~= loans@);
    r
}

} // verus!
