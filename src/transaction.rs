use crate::clock::{clock_range, stamp, stamp_text, Zone};
use crate::item::{Book, TransactionItem, User};
use vstd::prelude::*;

verus! {

/// Value handed out by one call of the counter when it stood at `counter`:
/// the successor modulo `max_counter + 1`, with 0 replaced by 1.
pub open spec fn next_id(counter: u32, max_counter: u32) -> u32 {
    let r = ((counter as int + 1) % (max_counter as int + 1)) as u32;
    if r == 0 {
        1
    } else {
        r
    }
}

/// State of the counter after `k` calls, starting from `counter`.
pub open spec fn counter_after(counter: u32, max_counter: u32, k: nat) -> u32
    decreases k,
{
    if k == 0 {
        counter
    } else {
        next_id(counter_after(counter, max_counter, (k - 1) as nat), max_counter)
    }
}

/// Per-tenant ring counter that allocates ledger transaction ids.
pub struct Transaction {
    pub max_counter: u32,
    pub counter: u32,
}

impl Transaction {
    pub fn new(max_counter: u32, counter: u32) -> (r: Self)
        ensures
            r.max_counter == max_counter,
            r.counter == counter,
    {
        Transaction { max_counter, counter }
    }

    /// Advances the counter and returns the new id, which is also its new state.
    pub fn next(&mut self) -> (id: u32)
        ensures
            id == next_id(old(self).counter, old(self).max_counter),
            final(self).counter == id,
            final(self).max_counter == old(self).max_counter,
    {
        let bumped: u64 = self.counter as u64 + 1;
        let modulus: u64 = self.max_counter as u64 + 1;
        let mut id: u32 = (bumped % modulus) as u32;
        if id == 0 {
            id = 1;
        }
        self.counter = id;
        id
    }
}

/// Largest id among the ledger rows, or 0 for an empty ledger.
pub open spec fn last_id(items: Seq<TransactionItem>) -> u32
    decreases items.len(),
{
    if items.len() == 0 {
        0
    } else {
        let rest = last_id(items.drop_last());
        if items.last().id > rest {
            items.last().id
        } else {
            rest
        }
    }
}

/// Ledger row opened when `user` borrows `book` under transaction `counter` at `now`.
pub open spec fn opened_row(
    r: TransactionItem,
    counter: u32,
    user: User,
    book: Book,
    now: int,
    zone: Zone,
) -> bool {
    &&& r.id == counter
    &&& r.user_id == user.id
    &&& r.user_name == user.name
    &&& r.book_id == book.id
    &&& r.book_title == book.title
    &&& r.borrowed_date@ == stamp(zone, now)
    &&& r.returned_date@.len() == 0
}

/// Ledger row closed when `user` returns `book` at `now`.
pub open spec fn closed_row(
    r: TransactionItem,
    counter: u32,
    user: User,
    book: Book,
    borrowed_date: String,
    now: int,
    zone: Zone,
) -> bool {
    &&& r.id == counter
    &&& r.user_id == user.id
    &&& r.user_name == user.name
    &&& r.book_id == book.id
    &&& r.book_title == book.title
    &&& r.borrowed_date == borrowed_date
    &&& r.returned_date@ == stamp(zone, now)
}

impl Transaction {
    /// The counter a tenant starts from: the largest id already in its ledger.
    pub fn seed(items: &Vec<TransactionItem>) -> (r: u32)
        ensures
            r == last_id(items@),
    {
        let mut best: u32 = 0;
        let mut i: usize = 0;
        while i < items.len()
            invariant
                i <= items@.len(),
                best == last_id(items@.subrange(0, i as int)),
            decreases items@.len() - i,
        {
            assert(items@.subrange(0, i + 1).drop_last() =~= items@.subrange(0, i as int));
            if items[i].id > best {
                best = items[i].id;
            }
            i = i + 1;
        }
        assert(items@.subrange(0, items@.len() as int) =~= items@);
        best
    }

    /// The ledger row of a loan: who borrowed which book, and when.
    pub fn borrow(counter: u32, user: &User, book: &Book, now: i64, zone: Zone) -> (r:
        TransactionItem)
        requires
            clock_range(now as int),
        ensures
            opened_row(r, counter, *user, *book, now as int, zone),
    {
        TransactionItem {
            id: counter,
            user_id: user.id,
            user_name: user.name.clone(),
            book_id: book.id,
            book_title: book.title.clone(),
            borrowed_date: stamp_text(zone, now),
            returned_date: String::new(),
        }
    }

    /// The ledger row of a loan that has come back.
    pub fn unborrow(
        counter: u32,
        user: &User,
        book: &Book,
        borrowed_date: String,
        now: i64,
        zone: Zone,
    ) -> (r: TransactionItem)
        requires
            clock_range(now as int),
        ensures
            closed_row(r, counter, *user, *book, borrowed_date, now as int, zone),
    {
        TransactionItem {
            id: counter,
            user_id: user.id,
            user_name: user.name.clone(),
            book_id: book.id,
            book_title: book.title.clone(),
            borrowed_date,
            returned_date: stamp_text(zone, now),
        }
    }
}

} // verus!
