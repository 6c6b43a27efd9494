use crate::error::BibErrorResponse;
use crate::item::{atoi, decimal_u32, parse_message, ParseError};
use crate::work::parse_id;
use vstd::prelude::*;

verus! {

/// How many characters a member's and a book's barcode may have.
#[derive(Debug)]
pub struct BarcodeSetting {
    pub id: u32,
    pub user_keta_min: u32,
    pub user_keta_max: u32,
    pub book_keta_min: u32,
    pub book_keta_max: u32,
}

/// Verdict on a barcode of `len` bytes: an empty one is always let through.
pub open spec fn digits_verdict(keta_min: u32, keta_max: u32, len: nat) -> Result<
    (),
    BibErrorResponse,
> {
    if len == 0 {
        Ok(())
    } else if keta_min <= len <= keta_max {
        Ok(())
    } else {
        Err(BibErrorResponse::BarcodeDigitsOutOfRange)
    }
}

/// Length in bytes of a text, as `str::len` reports it.
pub open spec fn byte_count(text: Seq<char>) -> usize {
    vstd::utf8::encode_utf8(text).len() as usize
}

/// Checks the length in bytes of the barcode `data` against `[keta_min, keta_max]`.
pub fn check_digits_of_barcodes(keta_min: u32, keta_max: u32, data: &str) -> (r: Result<
    (),
    BibErrorResponse,
>)
    ensures
        r == digits_verdict(keta_min, keta_max, byte_count(data@) as nat),
{
    let n = data.len();
    if n == 0 {
        return Ok(());
    }
    if keta_min as usize <= n && n <= keta_max as usize {
        Ok(())
    } else {
        Err(BibErrorResponse::BarcodeDigitsOutOfRange)
    }
}

/// Checks a member's barcode against the setting.
pub fn check_digits_of_user_barcodes(setting: &BarcodeSetting, data: &str) -> (r: Result<
    (),
    BibErrorResponse,
>)
    ensures
        r == digits_verdict(setting.user_keta_min, setting.user_keta_max, byte_count(data@) as nat),
{
    check_digits_of_barcodes(setting.user_keta_min, setting.user_keta_max, data)
}

/// Checks a book's barcode against the setting.
pub fn check_digits_of_book_barcodes(setting: &BarcodeSetting, data: &str) -> (r: Result<
    (),
    BibErrorResponse,
>)
    ensures
        r == digits_verdict(setting.book_keta_min, setting.book_keta_max, byte_count(data@) as nat),
{
    check_digits_of_barcodes(setting.book_keta_min, setting.book_keta_max, data)
}

impl BarcodeSetting {
    /// A setting that lets any barcode through.
    pub fn default() -> (r: Self)
        ensures
            r.id == 0,
            r.user_keta_min == 0,
            r.user_keta_max == u32::MAX,
            r.book_keta_min == 0,
            r.book_keta_max == u32::MAX,
    {
        BarcodeSetting {
            id: 0,
            user_keta_min: 0,
            user_keta_max: u32::MAX,
            book_keta_min: 0,
            book_keta_max: u32::MAX,
        }
    }

    /// Barcode bounds from their text, read in the order given.
    pub fn new(user_keta_min: &str, user_keta_max: &str, book_keta_min: &str, book_keta_max: &str) -> (r:
        Result<Self, ParseError>)
        ensures
            decimal_u32(user_keta_min@) is Err ==> r == Err::<Self, ParseError>(
                decimal_u32(user_keta_min@)->Err_0,
            ),
            decimal_u32(user_keta_min@) is Ok && decimal_u32(user_keta_max@) is Err ==> r == Err::<
                Self,
                ParseError,
            >(decimal_u32(user_keta_max@)->Err_0),
            decimal_u32(user_keta_min@) is Ok && decimal_u32(user_keta_max@) is Ok && decimal_u32(
                book_keta_min@,
            ) is Err ==> r == Err::<Self, ParseError>(decimal_u32(book_keta_min@)->Err_0),
            decimal_u32(user_keta_min@) is Ok && decimal_u32(user_keta_max@) is Ok && decimal_u32(
                book_keta_min@,
            ) is Ok && decimal_u32(book_keta_max@) is Err ==> r == Err::<Self, ParseError>(
                decimal_u32(book_keta_max@)->Err_0,
            ),
            r is Ok ==> r == Ok::<Self, ParseError>(
                BarcodeSetting {
                    id: 1,
                    user_keta_min: decimal_u32(user_keta_min@)->Ok_0,
                    user_keta_max: decimal_u32(user_keta_max@)->Ok_0,
                    book_keta_min: decimal_u32(book_keta_min@)->Ok_0,
                    book_keta_max: decimal_u32(book_keta_max@)->Ok_0,
                },
            ),
            (decimal_u32(user_keta_min@) is Ok && decimal_u32(user_keta_max@) is Ok && decimal_u32(
                book_keta_min@,
            ) is Ok && decimal_u32(book_keta_max@) is Ok) ==> r is Ok,
    {
        let user_keta_min = match atoi(user_keta_min) {
            Ok(v) => v,
            Err(e) => return Err(e),
        };
        let user_keta_max = match atoi(user_keta_max) {
            Ok(v) => v,
            Err(e) => return Err(e),
        };
        let book_keta_min = match atoi(book_keta_min) {
            Ok(v) => v,
            Err(e) => return Err(e),
        };
        let book_keta_max = match atoi(book_keta_max) {
            Ok(v) => v,
            Err(e) => return Err(e),
        };
        Ok(BarcodeSetting { id: 1, user_keta_min, user_keta_max, book_keta_min, book_keta_max })
    }
}

/// A request for a sheet of member barcodes: an id range and a symbol size, as text.
#[derive(Debug)]
pub struct GenUserBarcodeForm {
    pub user_id_start: String,
    pub user_id_end: String,
    pub barcode_size: String,
}

/// A request for a sheet of book barcodes: an id range and a symbol size, as text.
#[derive(Debug)]
pub struct GenBookBarcodeForm {
    pub book_id_start: String,
    pub book_id_end: String,
    pub barcode_size: String,
}

/// Reads an inclusive id range; the first malformed bound is an invalid argument.
pub fn id_range(start: &str, end: &str) -> (r: Result<(u32, u32), BibErrorResponse>)
    ensures
        decimal_u32(start@) is Ok && decimal_u32(end@) is Ok ==> r == Ok::<
            (u32, u32),
            BibErrorResponse,
        >((decimal_u32(start@)->Ok_0, decimal_u32(end@)->Ok_0)),
        decimal_u32(start@) is Err ==> (r matches Err(BibErrorResponse::InvalidArgument(m)) && m@
            == parse_message(decimal_u32(start@)->Err_0)),
        decimal_u32(start@) is Ok && decimal_u32(end@) is Err ==> (r matches Err(
            BibErrorResponse::InvalidArgument(m),
        ) && m@ == parse_message(decimal_u32(end@)->Err_0)),
{
    let first = match parse_id(start) {
        Ok(v) => v,
        Err(e) => return Err(e),
    };
    let last = match parse_id(end) {
        Ok(v) => v,
        Err(e) => return Err(e),
    };
    Ok((first, last))
}

impl GenUserBarcodeForm {
    /// The member ids asked for.
    pub fn range(&self) -> (r: Result<(u32, u32), BibErrorResponse>)
        ensures
            decimal_u32(self.user_id_start@) is Ok && decimal_u32(self.user_id_end@) is Ok ==> r
                == Ok::<(u32, u32), BibErrorResponse>(
                (decimal_u32(self.user_id_start@)->Ok_0, decimal_u32(self.user_id_end@)->Ok_0),
            ),
            !(decimal_u32(self.user_id_start@) is Ok && decimal_u32(self.user_id_end@) is Ok) ==> (r
                is Err && r->Err_0 is InvalidArgument),
    {
        id_range(self.user_id_start.as_str(), self.user_id_end.as_str())
    }

    /// The symbol size asked for.
    pub fn size(&self) -> (r: Result<u32, BibErrorResponse>)
        ensures
            decimal_u32(self.barcode_size@) is Ok ==> r == Ok::<u32, BibErrorResponse>(
                decimal_u32(self.barcode_size@)->Ok_0,
            ),
            decimal_u32(self.barcode_size@) is Err ==> (r is Err && r->Err_0 is InvalidArgument),
    {
        parse_id(self.barcode_size.as_str())
    }
}

impl GenBookBarcodeForm {
    /// The book ids asked for.
    pub fn range(&self) -> (r: Result<(u32, u32), BibErrorResponse>)
        ensures
            decimal_u32(self.book_id_start@) is Ok && decimal_u32(self.book_id_end@) is Ok ==> r
                == Ok::<(u32, u32), BibErrorResponse>(
                (decimal_u32(self.book_id_start@)->Ok_0, decimal_u32(self.book_id_end@)->Ok_0),
            ),
            !(decimal_u32(self.book_id_start@) is Ok && decimal_u32(self.book_id_end@) is Ok) ==> (r
                is Err && r->Err_0 is InvalidArgument),
    {
        id_range(self.book_id_start.as_str(), self.book_id_end.as_str())
    }

    /// The symbol size asked for.
    pub fn size(&self) -> (r: Result<u32, BibErrorResponse>)
        ensures
            decimal_u32(self.barcode_size@) is Ok ==> r == Ok::<u32, BibErrorResponse>(
                decimal_u32(self.barcode_size@)->Ok_0,
            ),
            decimal_u32(self.barcode_size@) is Err ==> (r is Err && r->Err_0 is InvalidArgument),
    {
        parse_id(self.barcode_size.as_str())
    }
}

} // verus!
