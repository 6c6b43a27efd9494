use crate::clock::{days_later, stamp, stamp_text, Zone};
use vstd::prelude::*;

verus! {

/// Why a decimal identifier was refused.
#[derive(Clone, Copy, Debug, PartialEq, Eq, Structural)]
pub enum ParseError {
    Empty,
    InvalidDigit,
    PosOverflow,
}

pub open spec fn is_digit(c: char) -> bool {
    '0' <= c <= '9'
}

/// Left-to-right reading of a run of decimal digits into a `u32`: the first
/// character that is no digit, or the first digit that overflows, decides the error.
pub open spec fn digits_scan(s: Seq<char>) -> Result<int, ParseError>
    decreases s.len(),
{
    if s.len() == 0 {
        Ok(0)
    } else {
        match digits_scan(s.drop_last()) {
            Err(e) => Err(e),
            Ok(acc) => {
                let c = s.last();
                if !is_digit(c) {
                    Err(ParseError::InvalidDigit)
                } else if acc * 10 + (c as int - '0' as int) > u32::MAX {
                    Err(ParseError::PosOverflow)
                } else {
                    Ok(acc * 10 + (c as int - '0' as int))
                }
            }
        }
    }
}

/// Value of a decimal text as an unsigned 32-bit identifier: an optional `+`,
/// then at least one digit.
pub open spec fn decimal_u32(s: Seq<char>) -> Result<u32, ParseError> {
    if s.len() == 0 {
        Err(ParseError::Empty)
    } else if s.len() == 1 && (s[0] == '+' || s[0] == '-') {
        Err(ParseError::InvalidDigit)
    } else {
        let body = if s[0] == '+' {
            s.drop_first()
        } else {
            s
        };
        match digits_scan(body) {
            Ok(v) => Ok(v as u32),
            Err(e) => Err(e),
        }
    }
}

pub open spec fn parse_message(e: ParseError) -> Seq<char> {
    match e {
        ParseError::Empty => "cannot parse integer from empty string"@,
        ParseError::InvalidDigit => "invalid digit found in string"@,
        ParseError::PosOverflow => "number too large to fit in target type"@,
    }
}

impl ParseError {
    pub fn message(&self) -> (r: String)
        ensures
            r@ == parse_message(*self),
    {
        match self {
            ParseError::Empty => "cannot parse integer from empty string".to_owned(),
            ParseError::InvalidDigit => "invalid digit found in string".to_owned(),
            ParseError::PosOverflow => "number too large to fit in target type".to_owned(),
        }
    }
}

/// Reads a decimal identifier.
pub fn atoi(a: &str) -> (r: Result<u32, ParseError>)
    ensures
        r == decimal_u32(a@),
{
    let n = a.unicode_len();
    if n == 0 {
        return Err(ParseError::Empty);
    }
    let first = a.get_char(0);
    if n == 1 && (first == '+' || first == '-') {
        return Err(ParseError::InvalidDigit);
    }
    let start: usize = if first == '+' {
        1
    } else {
        0
    };
    let ghost body = if first == '+' {
        a@.drop_first()
    } else {
        a@
    };
    assert(body =~= a@.subrange(start as int, n as int));
    let mut acc: u32 = 0;
    let mut i: usize = start;
    while i < n
        invariant
            start <= i <= n,
            n == a@.len(),
            start <= 1,
            n > 0,
            !(n == 1 && (a@[0] == '+' || a@[0] == '-')),
            body == (if a@[0] == '+' {
                a@.drop_first()
            } else {
                a@
            }),
            body =~= a@.subrange(start as int, n as int),
            digits_scan(a@.subrange(start as int, i as int)) == Ok::<int, ParseError>(acc as int),
        decreases n - i,
    {
        let c = a.get_char(i);
        proof {
            let pre = a@.subrange(start as int, i as int);
            lemma_scan_step(pre, c, acc as int);
            assert(a@.subrange(start as int, i as int + 1) =~= pre.push(c));
        }
        if !('0' <= c && c <= '9') {
            proof {
                let whole = a@.subrange(start as int, n as int);
                assert(whole.subrange(0, (i - start) + 1) =~= a@.subrange(start as int, i as int + 1));
                lemma_scan_stops(whole, (i - start) as int);
            }
            return Err(ParseError::InvalidDigit);
        }
        let d: u32 = (c as u32) - ('0' as u32);
        if acc > 429_496_729 || (acc == 429_496_729 && d > 5) {
            proof {
                assert(acc as int * 10 + d as int > u32::MAX) by (nonlinear_arith)
                    requires
                        acc > 429_496_729 || (acc == 429_496_729 && d > 5),
                ;
                let whole = a@.subrange(start as int, n as int);
                assert(whole.subrange(0, (i - start) + 1) =~= a@.subrange(start as int, i as int + 1));
                lemma_scan_stops(whole, (i - start) as int);
            }
            return Err(ParseError::PosOverflow);
        }
        assert(acc as int * 10 + d as int <= u32::MAX) by (nonlinear_arith)
            requires
                d <= 9,
                acc < 429_496_729 || (acc == 429_496_729 && d <= 5),
        ;
        acc = acc * 10 + d;
        i = i + 1;
    }
    assert(a@.subrange(start as int, n as int) =~= body);
    Ok(acc)
}

proof fn lemma_scan_step(pre: Seq<char>, c: char, acc: int)
    requires
        digits_scan(pre) == Ok::<int, ParseError>(acc),
    ensures
        digits_scan(pre.push(c)) == (if !is_digit(c) {
            Err(ParseError::InvalidDigit)
        } else if acc * 10 + (c as int - '0' as int) > u32::MAX {
            Err(ParseError::PosOverflow)
        } else {
            Ok(acc * 10 + (c as int - '0' as int))
        }),
{
    assert(pre.push(c).drop_last() =~= pre);
}

/// Once the scan of a prefix has failed, the scan of the whole fails the same way.
proof fn lemma_scan_stops(s: Seq<char>, k: int)
    requires
        0 <= k < s.len(),
        digits_scan(s.subrange(0, k + 1)) is Err,
    ensures
        digits_scan(s) == digits_scan(s.subrange(0, k + 1)),
    decreases s.len() - k,
{
    if k + 1 < s.len() {
        assert(s.subrange(0, k + 2).drop_last() =~= s.subrange(0, k + 1));
        lemma_scan_stops(s, k + 1);
    } else {
        assert(s.subrange(0, k + 1) =~= s);
    }
}

/// A loan as it stands in the borrower's record: a snapshot of the book taken
/// when it was lent.
#[derive(Debug)]
pub struct BorrowedBook {
    pub book_id: u32,
    pub book_title: String,
    pub borrowed_date: String,
    pub return_deadline: String,
    pub transaction_id: u32,
    pub location: String,
}

/// A library member.
#[derive(Debug)]
pub struct User {
    pub id: u32,
    pub name: String,
    pub kana: String,
    pub category: String,
    pub grade: String,
    pub remark: String,
    pub register_date: String,
    pub borrowed_count: u32,
    pub reserved: String,
    pub borrowed_books: Vec<BorrowedBook>,
}

/// A catalogued book.
#[derive(Debug)]
pub struct Book {
    pub id: u32,
    pub title: String,
    pub location: String,
    pub category: String,
    pub status: String,
    pub author: String,
    pub publisher: String,
    pub published_date: String,
    pub series: String,
    pub page: String,
    pub volume: String,
    pub kana: String,
    pub category_symbol: String,
    pub library_symbol: String,
    pub volume_symbol: String,
    pub forbidden: String,
    pub remark: String,
    pub register_type: String,
    pub register_date: String,
    pub borrowed_count: u32,
    pub owner_id: Option<u32>,
    pub return_deadline: Option<String>,
}

/// Loan rules of a tenant: how many books a member may hold and for how many days.
#[derive(Debug)]
pub struct RentalSetting {
    pub id: u32,
    pub num_books: u32,
    pub num_days: u32,
}

/// A row of the ledger, upserted by its transaction id.
#[derive(Debug)]
pub struct TransactionItem {
    pub id: u32,
    pub user_id: u32,
    pub user_name: String,
    pub book_id: u32,
    pub book_title: String,
    pub borrowed_date: String,
    pub returned_date: String,
}

/// Mark that a book's `forbidden` field holds when the book may not leave the library.
pub open spec fn not_for_loan() -> Seq<char> {
    "禁帯出"@
}

/// Whether a list of loans holds the book `book_id`.
pub open spec fn holds(loans: Seq<BorrowedBook>, book_id: u32) -> bool {
    exists|i: int| 0 <= i < loans.len() && #[trigger] loans[i].book_id == book_id
}

/// Same member record apart from the loans and the loan count.
pub open spec fn same_member(a: User, b: User) -> bool {
    &&& a.id == b.id
    &&& a.name == b.name
    &&& a.kana == b.kana
    &&& a.category == b.category
    &&& a.grade == b.grade
    &&& a.remark == b.remark
    &&& a.register_date == b.register_date
    &&& a.reserved == b.reserved
}

/// Same book record apart from the loan count.
pub open spec fn same_book(a: Book, b: Book) -> bool {
    &&& a.id == b.id
    &&& a.title == b.title
    &&& a.location == b.location
    &&& a.category == b.category
    &&& a.status == b.status
    &&& a.author == b.author
    &&& a.publisher == b.publisher
    &&& a.published_date == b.published_date
    &&& a.series == b.series
    &&& a.page == b.page
    &&& a.volume == b.volume
    &&& a.kana == b.kana
    &&& a.category_symbol == b.category_symbol
    &&& a.library_symbol == b.library_symbol
    &&& a.volume_symbol == b.volume_symbol
    &&& a.forbidden == b.forbidden
    &&& a.remark == b.remark
    &&& a.register_type == b.register_type
    &&& a.register_date == b.register_date
    &&& a.owner_id == b.owner_id
    &&& a.return_deadline == b.return_deadline
}

/// A counter raised by one, held at `u32::MAX`.
pub open spec fn bumped(n: u32) -> u32 {
    if n == u32::MAX {
        n
    } else {
        (n + 1) as u32
    }
}

impl BorrowedBook {
    pub fn default() -> (r: Self)
        ensures
            r.book_id == 0,
            r.transaction_id == 0,
            r.book_title@.len() == 0,
            r.borrowed_date@.len() == 0,
            r.return_deadline@.len() == 0,
            r.location@.len() == 0,
    {
        BorrowedBook {
            book_id: 0,
            book_title: String::new(),
            borrowed_date: String::new(),
            return_deadline: String::new(),
            transaction_id: 0,
            location: String::new(),
        }
    }

    /// Loan of book `id` made at `now`, due `borrowing_days` days later, both
    /// written in the wall clock of `zone`.
    pub fn new(
        id: u32,
        title: &str,
        now: i64,
        zone: Zone,
        borrowing_days: u32,
        transaction_id: u32,
        location: String,
    ) -> (r: Self)
        requires
            crate::clock::clock_range(now as int),
            crate::clock::clock_range(days_later(now as int, borrowing_days)),
        ensures
            r.book_id == id,
            r.book_title@ == title@,
            r.borrowed_date@ == stamp(zone, now as int),
            r.return_deadline@ == stamp(zone, days_later(now as int, borrowing_days)),
            r.transaction_id == transaction_id,
            r.location == location,
    {
        let deadline: i64 = now + borrowing_days as i64 * crate::clock::SECS_PER_DAY;
        BorrowedBook {
            book_id: id,
            book_title: title.to_owned(),
            borrowed_date: stamp_text(zone, now),
            return_deadline: stamp_text(zone, deadline),
            transaction_id,
            location,
        }
    }

    /// A copy of this loan.
    pub fn duplicate(&self) -> (r: Self)
        ensures
            r == *self,
    {
        BorrowedBook {
            book_id: self.book_id,
            book_title: self.book_title.clone(),
            borrowed_date: self.borrowed_date.clone(),
            return_deadline: self.return_deadline.clone(),
            transaction_id: self.transaction_id,
            location: self.location.clone(),
        }
    }
}

impl User {
    pub fn default() -> (r: Self)
        ensures
            r.id == 0,
            r.borrowed_count == 0,
            r.borrowed_books@.len() == 0,
            r.name@.len() == 0,
    {
        User {
            id: 0,
            name: String::new(),
            kana: String::new(),
            category: String::new(),
            grade: String::new(),
            remark: String::new(),
            register_date: String::new(),
            borrowed_count: 0,
            reserved: String::new(),
            borrowed_books: Vec::new(),
        }
    }

    /// A member without loans, from the text of each field.
    pub fn new(
        id: &str,
        name: &str,
        kana: &str,
        category: &str,
        grade: &str,
        remark: &str,
        register_date: &str,
    ) -> (r: Result<Self, ParseError>)
        ensures
            decimal_u32(id@) is Err ==> r == Err::<Self, ParseError>(decimal_u32(id@)->Err_0),
            decimal_u32(id@) is Ok ==> (r matches Ok(u) && u.id == decimal_u32(id@)->Ok_0
                && u.name@ == name@ && u.kana@ == kana@ && u.category@ == category@
                && u.grade@ == grade@ && u.remark@ == remark@ && u.register_date@ == register_date@
                && u.borrowed_count == 0 && u.reserved@.len() == 0 && u.borrowed_books@.len() == 0),
    {
        let id = match atoi(id) {
            Ok(v) => v,
            Err(e) => return Err(e),
        };
        Ok(
            User {
                id,
                name: name.to_owned(),
                kana: kana.to_owned(),
                category: category.to_owned(),
                grade: grade.to_owned(),
                remark: remark.to_owned(),
                register_date: register_date.to_owned(),
                borrowed_count: 0,
                reserved: String::new(),
                borrowed_books: Vec::new(),
            },
        )
    }

    /// Whether the member has the book `book_id` on loan.
    pub fn holds_book(&self, book_id: u32) -> (r: bool)
        ensures
            r == holds(self.borrowed_books@, book_id),
    {
        let mut i: usize = 0;
        while i < self.borrowed_books.len()
            invariant
                i <= self.borrowed_books@.len(),
                forall|j: int| 0 <= j < i ==> self.borrowed_books@[j].book_id != book_id,
            decreases self.borrowed_books@.len() - i,
        {
            if self.borrowed_books[i].book_id == book_id {
                return true;
            }
            i = i + 1;
        }
        false
    }
}

impl Book {
    pub fn default() -> (r: Self)
        ensures
            r.id == 0,
            r.borrowed_count == 0,
            r.title@.len() == 0,
            r.forbidden@.len() == 0,
            r.owner_id is None,
            r.return_deadline is None,
    {
        Book {
            id: 0,
            title: String::new(),
            location: String::new(),
            category: String::new(),
            status: String::new(),
            author: String::new(),
            publisher: String::new(),
            published_date: String::new(),
            series: String::new(),
            page: String::new(),
            volume: String::new(),
            kana: String::new(),
            category_symbol: String::new(),
            library_symbol: String::new(),
            volume_symbol: String::new(),
            forbidden: String::new(),
            remark: String::new(),
            register_type: String::new(),
            register_date: String::new(),
            borrowed_count: 0,
            owner_id: None,
            return_deadline: None,
        }
    }

    /// A book that was never lent, from the text of each field.
    pub fn new(
        id: &str,
        title: &str,
        location: &str,
        category: &str,
        status: &str,
        author: &str,
        publisher: &str,
        published_date: &str,
        series: &str,
        volume: &str,
        page: &str,
        kana: &str,
        category_symbol: &str,
        library_symbol: &str,
        volume_symbol: &str,
        forbidden: &str,
        remark: &str,
        register_date: &str,
        register_type: &str,
    ) -> (r: Result<Self, ParseError>)
        ensures
            decimal_u32(id@) is Err ==> r == Err::<Self, ParseError>(decimal_u32(id@)->Err_0),
            decimal_u32(id@) is Ok ==> (r matches Ok(b) && b.id == decimal_u32(id@)->Ok_0
                && b.title@ == title@ && b.location@ == location@ && b.category@ == category@
                && b.status@ == status@ && b.author@ == author@ && b.publisher@ == publisher@
                && b.published_date@ == published_date@ && b.series@ == series@
                && b.volume@ == volume@ && b.page@ == page@ && b.kana@ == kana@
                && b.category_symbol@ == category_symbol@ && b.library_symbol@ == library_symbol@
                && b.volume_symbol@ == volume_symbol@ && b.forbidden@ == forbidden@
                && b.remark@ == remark@ && b.register_date@ == register_date@
                && b.register_type@ == register_type@ && b.borrowed_count == 0
                && b.owner_id is None && b.return_deadline is None),
    {
        let id = match atoi(id) {
            Ok(v) => v,
            Err(e) => return Err(e),
        };
        Ok(
            Book {
                id,
                title: title.to_owned(),
                location: location.to_owned(),
                category: category.to_owned(),
                status: status.to_owned(),
                author: author.to_owned(),
                publisher: publisher.to_owned(),
                published_date: published_date.to_owned(),
                series: series.to_owned(),
                page: page.to_owned(),
                volume: volume.to_owned(),
                kana: kana.to_owned(),
                category_symbol: category_symbol.to_owned(),
                library_symbol: library_symbol.to_owned(),
                volume_symbol: volume_symbol.to_owned(),
                forbidden: forbidden.to_owned(),
                remark: remark.to_owned(),
                register_type: register_type.to_owned(),
                register_date: register_date.to_owned(),
                borrowed_count: 0,
                owner_id: None,
                return_deadline: None,
            },
        )
    }

    /// Whether the book is marked as not to be lent.
    pub fn is_forbidden(&self) -> (r: bool)
        ensures
            r == (self.forbidden@ == not_for_loan()),
    {
        let mark = "禁帯出".to_owned();
        self.forbidden == mark
    }
}

impl RentalSetting {
    pub fn default() -> (r: Self)
        ensures
            r.id == 0,
            r.num_books == 10,
            r.num_days == 14,
    {
        RentalSetting { id: 0, num_books: 10, num_days: 14 }
    }

    /// Loan rules from their text.
    pub fn new(num_books: &str, num_days: &str) -> (r: Result<Self, ParseError>)
        ensures
            decimal_u32(num_books@) is Err ==> r == Err::<Self, ParseError>(
                decimal_u32(num_books@)->Err_0,
            ),
            decimal_u32(num_books@) is Ok && decimal_u32(num_days@) is Err ==> r == Err::<
                Self,
                ParseError,
            >(decimal_u32(num_days@)->Err_0),
            decimal_u32(num_books@) is Ok && decimal_u32(num_days@) is Ok ==> r == Ok::<
                Self,
                ParseError,
            >(
                RentalSetting {
                    id: 0,
                    num_books: decimal_u32(num_books@)->Ok_0,
                    num_days: decimal_u32(num_days@)->Ok_0,
                },
            ),
    {
        let num_books = match atoi(num_books) {
            Ok(v) => v,
            Err(e) => return Err(e),
        };
        let num_days = match atoi(num_days) {
            Ok(v) => v,
            Err(e) => return Err(e),
        };
        Ok(RentalSetting { id: 0, num_books, num_days })
    }
}

impl TransactionItem {
    pub fn default() -> (r: Self)
        ensures
            r.id == 0,
            r.user_id == 0,
            r.book_id == 0,
            r.user_name@.len() == 0,
            r.book_title@.len() == 0,
            r.borrowed_date@.len() == 0,
            r.returned_date@.len() == 0,
    {
        TransactionItem {
            id: 0,
            user_id: 0,
            user_name: String::new(),
            book_id: 0,
            book_title: String::new(),
            borrowed_date: String::new(),
            returned_date: String::new(),
        }
    }

    /// A query row for the ledger with no id and no dates.
    pub fn new(user_id: u32, user_name: &str, book_id: u32, book_title: &str) -> (r: Self)
        ensures
            r.id == 0,
            r.user_id == user_id,
            r.user_name@ == user_name@,
            r.book_id == book_id,
            r.book_title@ == book_title@,
            r.borrowed_date@.len() == 0,
            r.returned_date@.len() == 0,
    {
        TransactionItem {
            id: 0,
            user_id,
            user_name: user_name.to_owned(),
            book_id,
            book_title: book_title.to_owned(),
            borrowed_date: String::new(),
            returned_date: String::new(),
        }
    }
}

} // verus!
