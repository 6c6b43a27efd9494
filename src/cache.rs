use crate::item::{holds, User};
use std::collections::HashMap;
use vstd::prelude::*;

verus! {

broadcast use vstd::std_specs::hash::group_hash_axioms;

/// Who holds a book on loan, and until when.
#[derive(Debug)]
pub struct BorrowCache {
    pub owner_id: u32,
    pub return_deadline: String,
}

impl BorrowCache {
    pub fn new(owner_id: u32, return_deadline: String) -> (r: Self)
        ensures
            r.owner_id == owner_id,
            r.return_deadline == return_deadline,
    {
        BorrowCache { owner_id, return_deadline }
    }
}

/// In-memory mirror of the books a tenant has on loan, keyed by book id.
pub struct Cache {
    pub borrowed_books: HashMap<u32, BorrowCache>,
}

impl View for Cache {
    type V = Map<u32, BorrowCache>;

    open spec fn view(&self) -> Map<u32, BorrowCache> {
        self.borrowed_books@
    }
}

/// Whether some member of `users` holds `book_id`.
pub open spec fn lent_to_someone(users: Seq<User>, book_id: u32) -> bool {
    exists|i: int| 0 <= i < users.len() && holds(#[trigger] users[i].borrowed_books@, book_id)
}

/// Whether the mirror names, for `book_id`, a member of `users` who holds it.
pub open spec fn held_by_member(m: Map<u32, BorrowCache>, users: Seq<User>, book_id: u32) -> bool {
    exists|k: int|
        0 <= k < users.len() && holds(#[trigger] users[k].borrowed_books@, book_id)
            && m[book_id].owner_id == users[k].id
}

impl Cache {
    /// An empty mirror.
    pub fn new() -> (r: Self)
        ensures
            r@ == Map::<u32, BorrowCache>::empty(),
    {
        Cache { borrowed_books: HashMap::new() }
    }

    /// Fills the mirror from the persisted members: one entry for each loan,
    /// naming a member who holds it.
    pub fn construct(&mut self, users: &Vec<User>)
        ensures
            forall|b: u32|
                #![trigger final(self)@.contains_key(b)]
                final(self)@.contains_key(b) <==> old(self)@.contains_key(b) || lent_to_someone(
                    users@,
                    b,
                ),
            forall|b: u32|
                lent_to_someone(users@, b) ==> #[trigger] held_by_member(final(self)@, users@, b),
    {
        let ghost start = self@;
        let mut i: usize = 0;
        while i < users.len()
            invariant
                i <= users@.len(),
                forall|b: u32|
                    #![trigger self@.contains_key(b)]
                    self@.contains_key(b) <==> start.contains_key(b) || lent_to_someone(
                        users@.subrange(0, i as int),
                        b,
                    ),
                forall|b: u32|
                    lent_to_someone(users@.subrange(0, i as int), b) ==> #[trigger] held_by_member(
                        self@,
                        users@,
                        b,
                    ),
            decreases users@.len() - i,
        {
            let user = &users[i];
            let ghost pre = users@.subrange(0, i as int);
            let mut j: usize = 0;
            while j < user.borrowed_books.len()
                invariant
                    i < users@.len(),
                    *user == users@[i as int],
                    pre == users@.subrange(0, i as int),
                    j <= user.borrowed_books@.len(),
                    forall|b: u32|
                        #![trigger self@.contains_key(b)]
                        self@.contains_key(b) <==> start.contains_key(b) || lent_to_someone(pre, b)
                            || holds(user.borrowed_books@.subrange(0, j as int), b),
                    forall|b: u32|
                        lent_to_someone(pre, b) || holds(user.borrowed_books@.subrange(0, j as int), b)
                            ==> #[trigger] held_by_member(self@, users@, b),
                decreases user.borrowed_books@.len() - j,
            {
                let book = &user.borrowed_books[j];
                let ghost before = self@;
                self.borrow(book.book_id, user.id, book.return_deadline.clone());
                proof {
                    let loans = user.borrowed_books@;
                    assert forall|b: u32|
                        holds(loans.subrange(0, j + 1), b) <==> holds(loans.subrange(0, j as int), b)
                            || b == loans[j as int].book_id by {
                        if holds(loans.subrange(0, j + 1), b) {
                            let m = choose|m: int|
                                0 <= m < j + 1 && #[trigger] loans.subrange(0, j + 1)[m].book_id == b;
                            if m < j {
                                assert(loans.subrange(0, j as int)[m].book_id == b);
                            }
                        }
                        if holds(loans.subrange(0, j as int), b) {
                            let m = choose|m: int|
                                0 <= m < j && #[trigger] loans.subrange(0, j as int)[m].book_id == b;
                            assert(loans.subrange(0, j + 1)[m].book_id == b);
                        }
                        if b == loans[j as int].book_id {
                            assert(loans.subrange(0, j + 1)[j as int].book_id == b);
                        }
                    }
                    assert forall|b: u32|
                        lent_to_someone(pre, b) || holds(loans.subrange(0, j + 1), b)
                            implies #[trigger] held_by_member(self@, users@, b) by {
                        if b == loans[j as int].book_id {
                            assert(holds(users@[i as int].borrowed_books@, b));
                            assert(self@[b].owner_id == users@[i as int].id);
                        } else {
                            assert(held_by_member(before, users@, b));
                            let k = choose|k: int|
                                0 <= k < users@.len() && holds(
                                    #[trigger] users@[k].borrowed_books@,
                                    b,
                                ) && before[b].owner_id == users@[k].id;
                            assert(self@[b] == before[b]);
                        }
                    }
                }
                j = j + 1;
            }
            proof {
                let post = users@.subrange(0, i + 1);
                assert(user.borrowed_books@.subrange(0, user.borrowed_books@.len() as int)
                    =~= user.borrowed_books@);
                assert forall|b: u32|
                    lent_to_someone(post, b) <==> lent_to_someone(pre, b) || holds(
                        user.borrowed_books@,
                        b,
                    ) by {
                    if lent_to_someone(post, b) {
                        let k = choose|k: int|
                            0 <= k < post.len() && holds(#[trigger] post[k].borrowed_books@, b);
                        if k < i {
                            assert(pre[k] == post[k]);
                        }
                    }
                    if lent_to_someone(pre, b) {
                        let k = choose|k: int|
                            0 <= k < pre.len() && holds(#[trigger] pre[k].borrowed_books@, b);
                        assert(pre[k] == post[k]);
                    }
                    if holds(user.borrowed_books@, b) {
                        assert(post[i as int] == users@[i as int]);
                    }
                }
            }
            i = i + 1;
        }
        assert(users@.subrange(0, users@.len() as int) =~= users@);
    }

    /// Who holds `book_id`, as a copy.
    pub fn get(&self, book_id: u32) -> (r: Option<BorrowCache>)
        ensures
            r is None <==> !self@.contains_key(book_id),
            r is Some ==> r->0 == self@[book_id],
    {
        match self.borrowed_books.get(&book_id) {
            None => None,
            Some(info) => Some(BorrowCache::new(info.owner_id, info.return_deadline.clone())),
        }
    }

    /// Records that `user_id` holds `book_id` until `return_deadline`; returns the
    /// entry this replaces, which a consistent mirror never has.
    pub fn borrow(&mut self, book_id: u32, user_id: u32, return_deadline: String) -> (r: Option<
        BorrowCache,
    >)
        ensures
            final(self)@ == old(self)@.insert(book_id, BorrowCache { owner_id: user_id, return_deadline }),
            r is None <==> !old(self)@.contains_key(book_id),
            r is Some ==> r->0 == old(self)@[book_id],
    {
        self.borrowed_books.insert(book_id, BorrowCache::new(user_id, return_deadline))
    }

    /// Forgets the loan of `book_id`; returns the entry removed.
    pub fn unborrow(&mut self, book_id: u32) -> (r: Option<BorrowCache>)
        ensures
            final(self)@ == old(self)@.remove(book_id),
            r is None <==> !old(self)@.contains_key(book_id),
            r is Some ==> r->0 == old(self)@[book_id],
    {
        self.borrowed_books.remove(&book_id)
    }

    /// Number of books on loan.
    pub fn len(&self) -> (r: usize)
        ensures
            r == self@.len(),
    {
        self.borrowed_books.len()
    }
}

} // verus!
