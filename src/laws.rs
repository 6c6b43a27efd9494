use crate::cache::{held_by_member, lent_to_someone, BorrowCache};
use crate::error::BibErrorResponse;
use crate::item::{holds, not_for_loan, Book, BorrowedBook, User};
use crate::lending::{borrow_refusal, BorrowPlan, ReturnPlan};
use crate::transaction::{counter_after, next_id};
use vstd::arithmetic::div_mod::{lemma_add_mod_noop, lemma_small_mod};
use vstd::prelude::*;

verus! {

/// No book stands twice in one member's loans.
pub open spec fn no_repeat(loans: Seq<BorrowedBook>) -> bool {
    forall|i: int, j: int|
        0 <= i < j < loans.len() ==> #[trigger] loans[i].book_id != #[trigger] loans[j].book_id
}

/// The mirror agrees with the members' loans (`loans` maps each member id to its
/// loans): every entry names a member who holds the book, every loan stands in
/// the mirror under its holder, and no member lists a book twice. So a book is in
/// the mirror exactly when one member holds it.
pub open spec fn mirrors(cache: Map<u32, BorrowCache>, loans: Map<u32, Seq<BorrowedBook>>) -> bool {
    &&& forall|b: u32| #[trigger]
        cache.contains_key(b) ==> loans.contains_key(cache[b].owner_id) && holds(
            loans[cache[b].owner_id],
            b,
        )
    &&& forall|u: u32, b: u32|
        loans.contains_key(u) && #[trigger] holds(loans[u], b) ==> cache.contains_key(b)
            && cache[b].owner_id == u
    &&& forall|u: u32| #[trigger] loans.contains_key(u) ==> no_repeat(loans[u])
}

/// A book is in an agreeing mirror exactly when some member holds it.
pub proof fn lemma_mirror_answers(
    cache: Map<u32, BorrowCache>,
    loans: Map<u32, Seq<BorrowedBook>>,
    book_id: u32,
)
    requires
        mirrors(cache, loans),
    ensures
        cache.contains_key(book_id) <==> exists|u: u32|
            loans.contains_key(u) && #[trigger] holds(loans[u], book_id),
{
    if cache.contains_key(book_id) {
        let u = cache[book_id].owner_id;
        assert(loans.contains_key(u) && holds(loans[u], book_id));
    }
}

/// `loans` lists, under each member's id, the loans of that member in `users`.
pub open spec fn loans_of(users: Seq<User>, loans: Map<u32, Seq<BorrowedBook>>) -> bool {
    &&& forall|u: u32| #[trigger]
        loans.contains_key(u) ==> exists|i: int| 0 <= i < users.len() && #[trigger] users[i].id == u
    &&& forall|i: int|
        0 <= i < users.len() ==> loans.contains_key(#[trigger] users[i].id) && loans[users[i].id]
            == users[i].borrowed_books@
}

/// The stored members are consistent: distinct ids, and each book on loan to at
/// most one member, listed once.
pub open spec fn consistent_store(users: Seq<User>) -> bool {
    &&& forall|i: int, j: int|
        0 <= i < j < users.len() ==> #[trigger] users[i].id != #[trigger] users[j].id
    &&& forall|i: int, j: int, b: u32|
        0 <= i < users.len() && 0 <= j < users.len() && #[trigger] holds(
            users[i].borrowed_books@,
            b,
        ) && #[trigger] holds(users[j].borrowed_books@, b) ==> i == j
    &&& forall|i: int| 0 <= i < users.len() ==> no_repeat(#[trigger] users[i].borrowed_books@)
}

/// A mirror built from a consistent store, as `Cache::construct` builds it from
/// an empty one, agrees with the members' loans.
pub proof fn lemma_construct_mirrors(
    cache: Map<u32, BorrowCache>,
    users: Seq<User>,
    loans: Map<u32, Seq<BorrowedBook>>,
)
    requires
        consistent_store(users),
        loans_of(users, loans),
        forall|b: u32| #[trigger] cache.contains_key(b) <==> lent_to_someone(users, b),
        forall|b: u32| lent_to_someone(users, b) ==> #[trigger] held_by_member(cache, users, b),
    ensures
        mirrors(cache, loans),
{
    assert forall|b: u32| #[trigger]
        cache.contains_key(b) implies loans.contains_key(cache[b].owner_id) && holds(
            loans[cache[b].owner_id],
            b,
        ) by {
        assert(held_by_member(cache, users, b));
        let k = choose|k: int|
            0 <= k < users.len() && holds(#[trigger] users[k].borrowed_books@, b)
                && cache[b].owner_id == users[k].id;
        assert(loans.contains_key(users[k].id));
    }
    assert forall|u: u32, b: u32|
        loans.contains_key(u) && #[trigger] holds(loans[u], b) implies cache.contains_key(b)
        && cache[b].owner_id == u by {
        let i = choose|i: int| 0 <= i < users.len() && #[trigger] users[i].id == u;
        assert(loans[users[i].id] == users[i].borrowed_books@);
        assert(holds(users[i].borrowed_books@, b));
        assert(lent_to_someone(users, b));
        assert(held_by_member(cache, users, b));
        let k = choose|k: int|
            0 <= k < users.len() && holds(#[trigger] users[k].borrowed_books@, b)
                && cache[b].owner_id == users[k].id;
        assert(k == i);
    }
    assert forall|u: u32| #[trigger] loans.contains_key(u) implies no_repeat(loans[u]) by {
        let i = choose|i: int| 0 <= i < users.len() && #[trigger] users[i].id == u;
        assert(loans[users[i].id] == users[i].borrowed_books@);
        assert(no_repeat(users[i].borrowed_books@));
    }
}

/// Writing out a granted borrow keeps the mirror in agreement with the members' loans.
pub proof fn lemma_borrow_keeps_mirror(
    cache: Map<u32, BorrowCache>,
    loans: Map<u32, Seq<BorrowedBook>>,
    plan: BorrowPlan,
)
    requires
        mirrors(cache, loans),
        loans.contains_key(plan.user_id),
        !cache.contains_key(plan.loan.book_id),
    ensures
        mirrors(
            cache.insert(
                plan.loan.book_id,
                BorrowCache { owner_id: plan.user_id, return_deadline: plan.loan.return_deadline },
            ),
            loans.insert(plan.user_id, loans[plan.user_id].push(plan.loan)),
        ),
{
    let b0 = plan.loan.book_id;
    let u0 = plan.user_id;
    let c2 = cache.insert(b0, BorrowCache { owner_id: u0, return_deadline: plan.loan.return_deadline });
    let old_list = loans[u0];
    let new_list = old_list.push(plan.loan);
    let l2 = loans.insert(u0, new_list);
    assert forall|b: u32| holds(new_list, b) <==> holds(old_list, b) || b == b0 by {
        if holds(new_list, b) {
            let i = choose|i: int| 0 <= i < new_list.len() && #[trigger] new_list[i].book_id == b;
            if i < old_list.len() {
                assert(old_list[i].book_id == b);
            }
        }
        if holds(old_list, b) {
            let i = choose|i: int| 0 <= i < old_list.len() && #[trigger] old_list[i].book_id == b;
            assert(new_list[i].book_id == b);
        }
        if b == b0 {
            assert(new_list[old_list.len() as int].book_id == b);
        }
    }
    assert forall|b: u32| #[trigger]
        c2.contains_key(b) implies l2.contains_key(c2[b].owner_id) && holds(
            l2[c2[b].owner_id],
            b,
        ) by {
        if b != b0 {
            let u = cache[b].owner_id;
            if u == u0 {
                assert(holds(new_list, b));
            }
        }
    }
    assert forall|u: u32, b: u32|
        l2.contains_key(u) && #[trigger] holds(l2[u], b) implies c2.contains_key(b) && c2[b].owner_id
        == u by {
        if u == u0 {
            if b != b0 {
                assert(holds(old_list, b));
            }
        } else {
            assert(holds(loans[u], b));
            if b == b0 {
                assert(cache.contains_key(b));
            }
        }
    }
    assert forall|u: u32| #[trigger] l2.contains_key(u) implies no_repeat(l2[u]) by {
        if u == u0 {
            assert(no_repeat(old_list));
            assert forall|i: int, j: int|
                0 <= i < j < new_list.len() implies #[trigger] new_list[i].book_id
                != #[trigger] new_list[j].book_id by {
                if j == old_list.len() {
                    if new_list[i].book_id == b0 {
                        assert(old_list[i].book_id == b0);
                        assert(holds(old_list, b0));
                        assert(holds(loans[u0], b0));
                    }
                } else {
                    assert(old_list[i].book_id != old_list[j].book_id);
                }
            }
        }
    }
}

/// Writing out a granted return keeps the mirror in agreement with the members' loans.
pub proof fn lemma_return_keeps_mirror(
    cache: Map<u32, BorrowCache>,
    loans: Map<u32, Seq<BorrowedBook>>,
    plan: ReturnPlan,
    i: int,
)
    requires
        mirrors(cache, loans),
        loans.contains_key(plan.user_id),
        0 <= i < loans[plan.user_id].len(),
        loans[plan.user_id][i].book_id == plan.book_id,
    ensures
        mirrors(
            cache.remove(plan.book_id),
            loans.insert(plan.user_id, loans[plan.user_id].remove(i)),
        ),
{
    let b0 = plan.book_id;
    let u0 = plan.user_id;
    let c2 = cache.remove(b0);
    let old_list = loans[u0];
    let new_list = old_list.remove(i);
    let l2 = loans.insert(u0, new_list);
    assert(holds(old_list, b0));
    assert(no_repeat(old_list));
    assert forall|b: u32| holds(new_list, b) <==> holds(old_list, b) && b != b0 by {
        if holds(new_list, b) {
            let k = choose|k: int| 0 <= k < new_list.len() && #[trigger] new_list[k].book_id == b;
            if k < i {
                assert(old_list[k].book_id == b);
                assert(old_list[k].book_id != old_list[i].book_id);
            } else {
                assert(old_list[k + 1].book_id == b);
                assert(old_list[i].book_id != old_list[k + 1].book_id);
            }
        }
        if holds(old_list, b) && b != b0 {
            let k = choose|k: int| 0 <= k < old_list.len() && #[trigger] old_list[k].book_id == b;
            if k < i {
                assert(new_list[k].book_id == b);
            } else {
                assert(k != i);
                assert(new_list[k - 1].book_id == b);
            }
        }
    }
    assert forall|b: u32| #[trigger]
        c2.contains_key(b) implies l2.contains_key(c2[b].owner_id) && holds(
            l2[c2[b].owner_id],
            b,
        ) by {
        let u = cache[b].owner_id;
        if u == u0 {
            assert(holds(new_list, b));
        }
    }
    assert forall|u: u32, b: u32|
        l2.contains_key(u) && #[trigger] holds(l2[u], b) implies c2.contains_key(b) && c2[b].owner_id
        == u by {
        if u == u0 {
            assert(holds(old_list, b));
        } else {
            assert(holds(loans[u], b));
            if b == b0 {
                assert(cache[b0].owner_id == u0);
            }
        }
    }
    assert forall|u: u32| #[trigger] l2.contains_key(u) implies no_repeat(l2[u]) by {
        if u == u0 {
            assert forall|p: int, q: int|
                0 <= p < q < new_list.len() implies #[trigger] new_list[p].book_id
                != #[trigger] new_list[q].book_id by {
                let pp = if p < i { p } else { p + 1 };
                let qq = if q < i { q } else { q + 1 };
                assert(new_list[p] == old_list[pp]);
                assert(new_list[q] == old_list[qq]);
                assert(old_list[pp].book_id != old_list[qq].book_id);
            }
        }
    }
}

/// A book whose borrow has been written out is refused to the next borrower as
/// not returned, whoever asks, as long as the borrower is under the limit and the
/// lookup finds the book, unmarked.
pub proof fn lemma_second_borrow_refused(
    cache: Map<u32, BorrowCache>,
    plan: BorrowPlan,
    held: nat,
    max_books: u32,
    found: Seq<Book>,
)
    requires
        held < max_books,
        found.len() == 1,
        found[0].id == plan.loan.book_id,
        found[0].forbidden@ != not_for_loan(),
    ensures
        borrow_refusal(
            cache.insert(
                plan.loan.book_id,
                BorrowCache { owner_id: plan.user_id, return_deadline: plan.loan.return_deadline },
            ),
            held,
            max_books,
            found,
            plan.loan.book_id,
        ) == Some(BibErrorResponse::BookNotReturned),
{
}

/// A granted borrow leaves the member within the limit: it is granted only below
/// the limit, and adds one loan.
pub proof fn lemma_borrow_within_limit(
    cache: Map<u32, BorrowCache>,
    held: nat,
    max_books: u32,
    found: Seq<Book>,
    book_id: u32,
)
    requires
        borrow_refusal(cache, held, max_books, found, book_id) is None,
    ensures
        held + 1 <= max_books,
{
}

/// A run of a member's loan counts, each step a granted borrow (one more loan,
/// granted only below `max_books`) or a return (one loan fewer).
pub open spec fn loan_run(counts: Seq<nat>, max_books: u32) -> bool {
    forall|i: int|
        0 <= i < counts.len() - 1 ==> (#[trigger] counts[i + 1] == counts[i] + 1 && counts[i]
            < max_books) || counts[i + 1] + 1 == counts[i]
}

/// Over any run of granted borrows and returns that starts within the limit, the
/// member never holds more than `max_books` loans.
pub proof fn lemma_loans_stay_within_limit(counts: Seq<nat>, max_books: u32)
    requires
        counts.len() > 0,
        counts[0] <= max_books,
        loan_run(counts, max_books),
    ensures
        forall|i: int| 0 <= i < counts.len() ==> #[trigger] counts[i] <= max_books,
    decreases counts.len(),
{
    if counts.len() > 1 {
        let front = counts.drop_last();
        assert forall|i: int| 0 <= i < front.len() - 1 implies (#[trigger] front[i + 1] == front[i]
            + 1 && front[i] < max_books) || front[i + 1] + 1 == front[i] by {
            assert(front[i + 1] == counts[i + 1]);
            assert(front[i] == counts[i]);
        }
        lemma_loans_stay_within_limit(front, max_books);
        let last = counts.len() - 1;
        assert(front[last - 1] == counts[last - 1]);
        assert(counts[last - 1] <= max_books);
        assert(counts[(last - 1) + 1] == counts[last]);
        assert(counts[last] <= max_books);
        assert forall|i: int| 0 <= i < counts.len() implies #[trigger] counts[i] <= max_books by {
            if i < last {
                assert(front[i] == counts[i]);
            }
        }
    }
}

/// Once the ring counter has a nonzero bound, every id it hands out lies between 1
/// and the bound, and from the first call on the ids repeat with period the bound.
pub proof fn lemma_counter_ring(counter: u32, max_counter: u32, k: nat)
    requires
        max_counter >= 1,
        k >= 1,
    ensures
        1 <= counter_after(counter, max_counter, k) <= max_counter,
        counter_after(counter, max_counter, (k + max_counter) as nat) == counter_after(
            counter,
            max_counter,
            k,
        ),
{
    lemma_ring_form(counter, max_counter, k);
    lemma_ring_form(counter, max_counter, (k + max_counter) as nat);
    let s = counter_after(counter, max_counter, 1) as int;
    let m = max_counter as int;
    assert((s - 1 + (k + m) - 1) % m == (s - 1 + k - 1) % m) by {
        lemma_add_mod_noop(s - 1 + k - 1, m, m);
        lemma_add_mod_noop(s - 1 + k - 1, 0, m);
        assert(m % m == 0) by {
            vstd::arithmetic::div_mod::lemma_mod_self_0(m);
        }
    }
}

/// After the first call, the counter walks the ring 1, 2, ..., bound, 1, ...
proof fn lemma_ring_form(counter: u32, max_counter: u32, k: nat)
    requires
        max_counter >= 1,
        k >= 1,
    ensures
        ({
            let s = counter_after(counter, max_counter, 1) as int;
            &&& 1 <= s <= max_counter
            &&& counter_after(counter, max_counter, k) as int == (s - 1 + k - 1) % (
            max_counter as int) + 1
        }),
    decreases k,
{
    let m = max_counter as int;
    let first = counter_after(counter, max_counter, 1);
    assert(counter_after(counter, max_counter, 0) == counter);
    assert(first == next_id(counter, max_counter));
    let s = first as int;
    if k == 1 {
        lemma_small_mod((s - 1) as nat, m as nat);
    } else {
        lemma_ring_form(counter, max_counter, (k - 1) as nat);
        let v = counter_after(counter, max_counter, (k - 1) as nat) as int;
        let t = (s - 1 + k - 2) % m;
        assert(v == t + 1);
        lemma_add_mod_noop(s - 1 + k - 2, 1, m);
        if m == 1 {
            assert((s - 1 + k - 1) % m == 0);
            assert(v == 1);
        } else {
            lemma_small_mod(1, m as nat);
            if t + 1 < m {
                lemma_small_mod((t + 1) as nat, m as nat);
                lemma_small_mod((v + 1) as nat, (m + 1) as nat);
            } else {
                vstd::arithmetic::div_mod::lemma_mod_self_0(m);
                vstd::arithmetic::div_mod::lemma_mod_self_0(m + 1);
            }
        }
    }
}

} // verus!
