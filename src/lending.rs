use crate::cache::{BorrowCache, Cache};
use crate::clock::{clock_range, days_later, deadline_after, in_clock_range, stamp, Zone};
use crate::error::BibErrorResponse;
use crate::item::{
    bumped, holds, same_book, same_member, Book, BorrowedBook, RentalSetting, TransactionItem, User,
};
use crate::transaction::{closed_row, next_id, opened_row, Transaction};
use vstd::prelude::*;

verus! {

/// Reason given when a loan's deadline falls outside the calendar's range.
pub open spec fn deadline_out_of_range() -> Seq<char> {
    "loan deadline lies outside the calendar range"@
}

/// Reason given when the clock reads outside the calendar's range.
pub open spec fn clock_out_of_range() -> Seq<char> {
    "clock reads outside the calendar range"@
}

/// The state one tenant keeps in memory for lending.
pub struct Tenant {
    pub cache: Cache,
    pub counter: Transaction,
    pub rental: RentalSetting,
    pub zone: Zone,
}

/// Outcome of the lookup of a book by id: exactly one record is owed.
pub open spec fn lookup_refusal(found_len: nat, book_id: u32) -> Option<BibErrorResponse> {
    if found_len == 0 {
        Some(BibErrorResponse::BookNotFound(book_id))
    } else if found_len > 1 {
        Some(BibErrorResponse::DataDuplicated(book_id))
    } else {
        None
    }
}

/// Why a borrow is refused before anything changes, checked in this order: the
/// member's limit, the lookup of the book, the book's mark, and the mirror.
pub open spec fn borrow_refusal(
    cache: Map<u32, BorrowCache>,
    held: nat,
    max_books: u32,
    found: Seq<Book>,
    book_id: u32,
) -> Option<BibErrorResponse> {
    if held >= max_books {
        Some(BibErrorResponse::OverBorrowingLimit)
    } else if lookup_refusal(found.len(), book_id) is Some {
        lookup_refusal(found.len(), book_id)
    } else if found[0].forbidden@ == crate::item::not_for_loan() {
        Some(BibErrorResponse::NotAllowedToBorrow)
    } else if cache.contains_key(found[0].id) {
        Some(BibErrorResponse::BookNotReturned)
    } else {
        None
    }
}

/// What a granted borrow has prepared for the store and the mirror.
pub struct BorrowPlan {
    pub user_id: u32,
    pub book: Book,
    pub loan: BorrowedBook,
    pub record: TransactionItem,
}

/// What a granted return has prepared for the store and the mirror.
pub struct ReturnPlan {
    pub user_id: u32,
    pub book_id: u32,
    pub book_title: String,
    pub loan: BorrowedBook,
    pub record: TransactionItem,
}

/// `plan` takes off `before`'s record its first loan of `book`, leaving `after`.
pub open spec fn return_granted(
    before: User,
    after: User,
    book: Book,
    plan: ReturnPlan,
    now: int,
    zone: Zone,
) -> bool {
    let loans = before.borrowed_books@;
    &&& exists|i: int|
        0 <= i < loans.len() && #[trigger] loans[i].book_id == book.id && first_loan_at(
            loans,
            book.id,
            i,
        ) && after.borrowed_books@ == loans.remove(i) && plan.loan == loans[i]
    &&& closed_row(plan.record, plan.loan.transaction_id, before, book, plan.loan.borrowed_date, now, zone)
    &&& plan.user_id == before.id
    &&& plan.book_id == book.id
    &&& plan.book_title == book.title
    &&& same_member(after, before)
    &&& after.borrowed_count == before.borrowed_count
}

/// No loan of `book_id` stands before position `i`.
pub open spec fn first_loan_at(loans: Seq<BorrowedBook>, book_id: u32, i: int) -> bool {
    forall|j: int| 0 <= j < i ==> #[trigger] loans[j].book_id != book_id
}

/// The single record a lookup by id is owed.
pub fn single_book(found: Vec<Book>, book_id: u32) -> (r: Result<Book, BibErrorResponse>)
    ensures
        lookup_refusal(found@.len(), book_id) is Some ==> r == Err::<Book, BibErrorResponse>(
            lookup_refusal(found@.len(), book_id)->0,
        ),
        lookup_refusal(found@.len(), book_id) is None ==> r == Ok::<Book, BibErrorResponse>(
            found@[0],
        ),
{
    let mut found = found;
    if found.len() == 0 {
        return Err(BibErrorResponse::BookNotFound(book_id));
    }
    if found.len() > 1 {
        return Err(BibErrorResponse::DataDuplicated(book_id));
    }
    match found.pop() {
        Some(book) => Ok(book),
        None => Err(BibErrorResponse::BookNotFound(book_id)),
    }
}

/// The single member record a lookup by id is owed.
pub fn single_user(found: Vec<User>, user_id: u32) -> (r: Result<User, BibErrorResponse>)
    ensures
        found@.len() != 1 ==> r == Err::<User, BibErrorResponse>(
            BibErrorResponse::UserNotFound(user_id),
        ),
        found@.len() == 1 ==> r == Ok::<User, BibErrorResponse>(found@[0]),
{
    let mut found = found;
    if found.len() != 1 {
        return Err(BibErrorResponse::UserNotFound(user_id));
    }
    match found.pop() {
        Some(user) => Ok(user),
        None => Err(BibErrorResponse::UserNotFound(user_id)),
    }
}

/// The single settings record of a tenant; none or several is a duplication fault.
pub fn single_setting<T>(found: Vec<T>) -> (r: Result<T, BibErrorResponse>)
    ensures
        found@.len() != 1 ==> r == Err::<T, BibErrorResponse>(BibErrorResponse::DataDuplicated(0)),
        found@.len() == 1 ==> r == Ok::<T, BibErrorResponse>(found@[0]),
{
    let mut found = found;
    if found.len() != 1 {
        return Err(BibErrorResponse::DataDuplicated(0));
    }
    match found.pop() {
        Some(item) => Ok(item),
        None => Err(BibErrorResponse::DataDuplicated(0)),
    }
}

/// Refuses a borrow by a member who already holds `max_books` loans.
pub fn check_borrow_limit(user: &User, max_books: u32) -> (r: Result<(), BibErrorResponse>)
    ensures
        user.borrowed_books@.len() >= max_books ==> r == Err::<(), BibErrorResponse>(
            BibErrorResponse::OverBorrowingLimit,
        ),
        user.borrowed_books@.len() < max_books ==> r == Ok::<(), BibErrorResponse>(()),
{
    if user.borrowed_books.len() >= max_books as usize {
        Err(BibErrorResponse::OverBorrowingLimit)
    } else {
        Ok(())
    }
}

impl Tenant {
    pub fn new(max_counter: u32, counter: u32, rental: RentalSetting, zone: Zone) -> (r: Self)
        ensures
            r.cache@ == Map::<u32, BorrowCache>::empty(),
            r.counter.max_counter == max_counter,
            r.counter.counter == counter,
            r.rental == rental,
            r.zone == zone,
    {
        Tenant { cache: Cache::new(), counter: Transaction::new(max_counter, counter), rental, zone }
    }

    /// Validates a borrow of `book_id` by `user` against the lookup result `found`
    /// and, when granted, allocates its transaction id and adds the loan to `user`.
    pub fn begin_borrow(&mut self, user: &mut User, book_id: u32, found: Vec<Book>, now: i64) -> (r:
        Result<BorrowPlan, BibErrorResponse>)
        ensures
            ({
                let refusal = borrow_refusal(
                    old(self).cache@,
                    old(user).borrowed_books@.len(),
                    old(self).rental.num_books,
                    found@,
                    book_id,
                );
                let book = found@[0];
                let days = old(self).rental.num_days;
                let zone = old(self).zone;
                let id = next_id(old(self).counter.counter, old(self).counter.max_counter);
                if refusal is Some {
                    &&& r == Err::<BorrowPlan, BibErrorResponse>(refusal->0)
                    &&& *final(self) == *old(self)
                    &&& *final(user) == *old(user)
                } else if !clock_range(now as int) || !clock_range(days_later(now as int, days)) {
                    &&& r matches Err(BibErrorResponse::SystemError(m)) && m@
                        == deadline_out_of_range()
                    &&& *final(self) == *old(self)
                    &&& *final(user) == *old(user)
                } else {
                    &&& r matches Ok(plan) && {
                        &&& plan.user_id == old(user).id
                        &&& plan.loan.book_id == book.id
                        &&& plan.loan.book_title@ == book.title@
                        &&& plan.loan.borrowed_date@ == stamp(zone, now as int)
                        &&& plan.loan.return_deadline@ == stamp(
                            zone,
                            days_later(now as int, days),
                        )
                        &&& plan.loan.transaction_id == id
                        &&& plan.loan.location == book.location
                        &&& final(user).borrowed_books@ == old(user).borrowed_books@.push(
                            plan.loan,
                        )
                        &&& same_book(plan.book, book)
                        &&& plan.book.borrowed_count == bumped(book.borrowed_count)
                        &&& opened_row(plan.record, id, *old(user), book, now as int, zone)
                    }
                    &&& same_member(*final(user), *old(user))
                    &&& final(user).borrowed_count == bumped(old(user).borrowed_count)
                    &&& final(self).counter.counter == id
                    &&& final(self).counter.max_counter == old(self).counter.max_counter
                    &&& final(self).cache == old(self).cache
                    &&& final(self).rental == old(self).rental
                    &&& final(self).zone == old(self).zone
                }
            }),
    {
        if let Err(e) = check_borrow_limit(user, self.rental.num_books) {
            return Err(e);
        }
        let mut book = match single_book(found, book_id) {
            Ok(b) => b,
            Err(e) => return Err(e),
        };
        if book.is_forbidden() {
            return Err(BibErrorResponse::NotAllowedToBorrow);
        }
        if self.cache.get(book.id).is_some() {
            return Err(BibErrorResponse::BookNotReturned);
        }
        let days = self.rental.num_days;
        if deadline_after(now, days).is_none() {
            return Err(BibErrorResponse::SystemError("loan deadline lies outside the calendar range".to_owned()));
        }
        let id = self.counter.next();
        let loan = BorrowedBook::new(book.id, book.title.as_str(), now, self.zone, days, id, book.location.clone());
        let kept = loan.duplicate();
        let record = Transaction::borrow(id, user, &book, now, self.zone);
        user.borrowed_books.push(loan);
        if user.borrowed_count < u32::MAX {
            user.borrowed_count = user.borrowed_count + 1;
        }
        if book.borrowed_count < u32::MAX {
            book.borrowed_count = book.borrowed_count + 1;
        }
        Ok(BorrowPlan { user_id: user.id, book, loan: kept, record })
    }

    /// Who is returning `book_id`: the member given, or with none given (0), the
    /// holder the mirror names.
    pub fn return_holder(&self, user_id: u32, book_id: u32) -> (r: Result<u32, BibErrorResponse>)
        ensures
            user_id != 0 ==> r == Ok::<u32, BibErrorResponse>(user_id),
            user_id == 0 && self.cache@.contains_key(book_id) ==> r == Ok::<u32, BibErrorResponse>(
                self.cache@[book_id].owner_id,
            ),
            user_id == 0 && !self.cache@.contains_key(book_id) ==> r == Err::<
                u32,
                BibErrorResponse,
            >(BibErrorResponse::BookNotBorrowed),
    {
        if user_id != 0 {
            return Ok(user_id);
        }
        match self.cache.get(book_id) {
            Some(info) => Ok(info.owner_id),
            None => Err(BibErrorResponse::BookNotBorrowed),
        }
    }

    /// Takes the loan of `book` off `user`'s record, preparing the closed ledger row.
    pub fn begin_return(&self, user: &mut User, book: &Book, now: i64) -> (r: Result<
        ReturnPlan,
        BibErrorResponse,
    >)
        ensures
            !holds(old(user).borrowed_books@, book.id) ==> r == Err::<
                ReturnPlan,
                BibErrorResponse,
            >(BibErrorResponse::BookNotBorrowed) && *final(user) == *old(user),
            holds(old(user).borrowed_books@, book.id) && !clock_range(now as int) ==> (r matches Err(
                BibErrorResponse::SystemError(m),
            ) && m@ == clock_out_of_range() && *final(user) == *old(user)),
            holds(old(user).borrowed_books@, book.id) && clock_range(now as int) ==> (r matches Ok(
                plan,
            ) && return_granted(*old(user), *final(user), *book, plan, now as int, self.zone)),
    {
        let mut pos: usize = 0;
        let n = user.borrowed_books.len();
        while pos < n && user.borrowed_books[pos].book_id != book.id
            invariant
                n == user.borrowed_books@.len(),
                pos <= n,
                forall|j: int| 0 <= j < pos ==> user.borrowed_books@[j].book_id != book.id,
            decreases n - pos,
        {
            pos = pos + 1;
        }
        if pos == n {
            return Err(BibErrorResponse::BookNotBorrowed);
        }
        assert(user.borrowed_books@[pos as int].book_id == book.id);
        if !in_clock_range(now) {
            return Err(BibErrorResponse::SystemError("clock reads outside the calendar range".to_owned()));
        }
        let loan = user.borrowed_books.remove(pos);
        let record = Transaction::unborrow(
            loan.transaction_id,
            user,
            book,
            loan.borrowed_date.clone(),
            now,
            self.zone,
        );
        Ok(ReturnPlan { user_id: user.id, book_id: book.id, book_title: book.title.clone(), loan, record })
    }
}

/// Where a granted borrow stands in being written out.
#[derive(Debug)]
pub enum BorrowStage {
    SaveUser,
    SaveBook,
    SaveLedger,
    Done(Result<(), BibErrorResponse>),
}

/// Where a granted return stands in being written out.
#[derive(Debug)]
pub enum ReturnStage {
    SaveUser,
    SaveLedger,
    Done(Result<(String, u32), BibErrorResponse>),
}

/// Writes out a granted borrow in a fixed order: the member record (a failure
/// aborts), the book's loan count (a failure is passed over), the ledger row (a
/// failure aborts), and only then the mirror.
pub struct BorrowCommit {
    pub plan: BorrowPlan,
    pub stage: BorrowStage,
}

/// Writes out a granted return: the member record, then the ledger row (either
/// failure aborts), and only then the mirror.
pub struct ReturnCommit {
    pub plan: ReturnPlan,
    pub stage: ReturnStage,
}

impl BorrowCommit {
    pub fn new(plan: BorrowPlan) -> (r: Self)
        ensures
            r.plan == plan,
            r.stage is SaveUser,
    {
        BorrowCommit { plan, stage: BorrowStage::SaveUser }
    }

    /// Takes the outcome of the write the current stage asked for.
    pub fn advance(&mut self, cache: &mut Cache, written: Result<(), String>)
        ensures
            final(self).plan == old(self).plan,
            match old(self).stage {
                BorrowStage::SaveUser => match written {
                    Ok(_) => final(self).stage is SaveBook,
                    Err(e) => final(self).stage == BorrowStage::Done(
                        Err(BibErrorResponse::SystemError(e)),
                    ),
                },
                BorrowStage::SaveBook => final(self).stage is SaveLedger,
                BorrowStage::SaveLedger => match written {
                    Ok(_) => final(self).stage == BorrowStage::Done(Ok(())),
                    Err(e) => final(self).stage == BorrowStage::Done(
                        Err(BibErrorResponse::SystemError(e)),
                    ),
                },
                BorrowStage::Done(_) => final(self).stage == old(self).stage,
            },
            (old(self).stage is SaveLedger && written is Ok) ==> final(cache)@ == old(cache)@.insert(
                old(self).plan.loan.book_id,
                BorrowCache {
                    owner_id: old(self).plan.user_id,
                    return_deadline: old(self).plan.loan.return_deadline,
                },
            ),
            !(old(self).stage is SaveLedger && written is Ok) ==> *final(cache) == *old(cache),
    {
        match self.stage {
            BorrowStage::SaveUser => {
                match written {
                    Ok(_) => {
                        self.stage = BorrowStage::SaveBook;
                    },
                    Err(e) => {
                        self.stage = BorrowStage::Done(Err(BibErrorResponse::SystemError(e)));
                    },
                }
            },
            BorrowStage::SaveBook => {
                self.stage = BorrowStage::SaveLedger;
            },
            BorrowStage::SaveLedger => {
                match written {
                    Ok(_) => {
                        cache.borrow(
                            self.plan.loan.book_id,
                            self.plan.user_id,
                            self.plan.loan.return_deadline.clone(),
                        );
                        self.stage = BorrowStage::Done(Ok(()));
                    },
                    Err(e) => {
                        self.stage = BorrowStage::Done(Err(BibErrorResponse::SystemError(e)));
                    },
                }
            },
            BorrowStage::Done(_) => {},
        }
    }
}

impl ReturnCommit {
    pub fn new(plan: ReturnPlan) -> (r: Self)
        ensures
            r.plan == plan,
            r.stage is SaveUser,
    {
        ReturnCommit { plan, stage: ReturnStage::SaveUser }
    }

    /// Takes the outcome of the write the current stage asked for.
    pub fn advance(&mut self, cache: &mut Cache, written: Result<(), String>)
        ensures
            final(self).plan == old(self).plan,
            match old(self).stage {
                ReturnStage::SaveUser => match written {
                    Ok(_) => final(self).stage is SaveLedger,
                    Err(e) => final(self).stage == ReturnStage::Done(
                        Err(BibErrorResponse::SystemError(e)),
                    ),
                },
                ReturnStage::SaveLedger => match written {
                    Ok(_) => final(self).stage == ReturnStage::Done(
                        Ok((old(self).plan.book_title, old(self).plan.book_id)),
                    ),
                    Err(e) => final(self).stage == ReturnStage::Done(
                        Err(BibErrorResponse::SystemError(e)),
                    ),
                },
                ReturnStage::Done(_) => final(self).stage == old(self).stage,
            },
            (old(self).stage is SaveLedger && written is Ok) ==> final(cache)@ == old(cache)@.remove(
                old(self).plan.book_id,
            ),
            !(old(self).stage is SaveLedger && written is Ok) ==> *final(cache) == *old(cache),
    {
        match self.stage {
            ReturnStage::SaveUser => {
                match written {
                    Ok(_) => {
                        self.stage = ReturnStage::SaveLedger;
                    },
                    Err(e) => {
                        self.stage = ReturnStage::Done(Err(BibErrorResponse::SystemError(e)));
                    },
                }
            },
            ReturnStage::SaveLedger => {
                match written {
                    Ok(_) => {
                        cache.unborrow(self.plan.book_id);
                        self.stage = ReturnStage::Done(
                            Ok((self.plan.book_title.clone(), self.plan.book_id)),
                        );
                    },
                    Err(e) => {
                        self.stage = ReturnStage::Done(Err(BibErrorResponse::SystemError(e)));
                    },
                }
            },
            ReturnStage::Done(_) => {},
        }
    }
}

} // verus!
