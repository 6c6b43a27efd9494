use crate::clock::{clock_range, stamp, stamp_text, Zone};
use crate::error::BibErrorResponse;
use crate::item::{BorrowedBook, User};
use vstd::prelude::*;

verus! {

/// Seconds on a common scale of a wall-clock text "%Y/%m/%d %H:%M", when it reads as one.
pub uninterp spec fn stamp_value(text: Seq<char>) -> Option<int>;

/// Relies on chrono's `NaiveDateTime::parse_from_str(text, "%Y/%m/%d %H:%M")` and
/// `and_utc().timestamp()`: whether the text reads, and as what, depends on the text alone.
#[verifier::external_body]
fn read_stamp(text: &str) -> (r: Result<i64, String>)
    ensures
        r is Ok <==> stamp_value(text@) is Some,
        r is Ok ==> r->Ok_0 == stamp_value(text@)->0,
{
    match chrono::NaiveDateTime::parse_from_str(text, "%Y/%m/%d %H:%M") {
        Ok(t) => Ok(t.and_utc().timestamp()),
        Err(e) => Err(e.to_string()),
    }
}

/// A loan past its deadline, with its holder.
#[derive(Debug)]
pub struct DelayedBook {
    pub user_id: u32,
    pub user_name: String,
    pub book: BorrowedBook,
}

/// Whether a deadline has passed at `now`, both read at minute resolution.
pub fn check_deadline(deadline: &str, now: i64, zone: Zone) -> (r: Result<bool, BibErrorResponse>)
    requires
        clock_range(now as int),
    ensures
        stamp_value(deadline@) is None ==> (r is Err && r->Err_0 is SystemError),
        stamp_value(deadline@) is Some && stamp_value(stamp(zone, now as int)) is None ==> (r is Err
            && r->Err_0 is SystemError),
        stamp_value(deadline@) is Some && stamp_value(stamp(zone, now as int)) is Some ==> r
            == Ok::<bool, BibErrorResponse>(
            stamp_value(stamp(zone, now as int))->0 > stamp_value(deadline@)->0,
        ),
{
    let due = match read_stamp(deadline) {
        Ok(v) => v,
        Err(e) => return Err(BibErrorResponse::SystemError(e)),
    };
    let text = stamp_text(zone, now);
    let current = match read_stamp(text.as_str()) {
        Ok(v) => v,
        Err(e) => return Err(BibErrorResponse::SystemError(e)),
    };
    Ok(current > due)
}

/// The overdue loans among `loans` of `user`, at the reading `now_value` of the clock.
pub open spec fn overdue_of(user: User, loans: Seq<BorrowedBook>, now_value: int) -> Seq<DelayedBook>
    decreases loans.len(),
{
    if loans.len() == 0 {
        seq![]
    } else {
        let rest = overdue_of(user, loans.drop_last(), now_value);
        let l = loans.last();
        if now_value > stamp_value(l.return_deadline@)->0 {
            rest.push(DelayedBook { user_id: user.id, user_name: user.name, book: l })
        } else {
            rest
        }
    }
}

/// The overdue loans of all `users`, member by member, each in loan order.
pub open spec fn overdue_all(users: Seq<User>, now_value: int) -> Seq<DelayedBook>
    decreases users.len(),
{
    if users.len() == 0 {
        seq![]
    } else {
        overdue_all(users.drop_last(), now_value) + overdue_of(
            users.last(),
            users.last().borrowed_books@,
            now_value,
        )
    }
}

/// Whether every deadline of every loan of `users` reads as a time.
pub open spec fn deadlines_read(users: Seq<User>) -> bool {
    forall|i: int, j: int|
        0 <= i < users.len() && 0 <= j < users[i].borrowed_books@.len() ==> (#[trigger] stamp_value(
            users[i].borrowed_books@[j].return_deadline@,
        )) is Some
}

/// Whether any member of `users` holds a loan.
pub open spec fn any_loan(users: Seq<User>) -> bool {
    exists|i: int| 0 <= i < users.len() && #[trigger] users[i].borrowed_books@.len() > 0
}

/// The loans past their deadline at `now`; none at all is reported as not found,
/// and a deadline or clock that does not read as a time is a system error.
pub fn delayed_list(users: &Vec<User>, now: i64, zone: Zone) -> (r: Result<
    Vec<DelayedBook>,
    BibErrorResponse,
>)
    requires
        clock_range(now as int),
    ensures
        any_loan(users@) && !(deadlines_read(users@) && stamp_value(stamp(zone, now as int)) is Some)
            ==> (r is Err && r->Err_0 is SystemError),
        (!any_loan(users@) || (deadlines_read(users@) && stamp_value(stamp(zone, now as int)) is Some))
            ==> ({
            let rows = overdue_all(users@, stamp_value(stamp(zone, now as int))->0);
            &&& rows.len() == 0 ==> (r matches Err(BibErrorResponse::DataNotFound(m)) && m@.len()
                == 0)
            &&& rows.len() > 0 ==> (r matches Ok(list) && list@ == rows)
        }),
{
    let ghost n = stamp_value(stamp(zone, now as int))->0;
    let mut list: Vec<DelayedBook> = Vec::new();
    let mut i: usize = 0;
    while i < users.len()
        invariant
            i <= users@.len(),
            clock_range(now as int),
            n == stamp_value(stamp(zone, now as int))->0,
            any_loan(users@.subrange(0, i as int)) ==> deadlines_read(users@.subrange(0, i as int))
                && stamp_value(stamp(zone, now as int)) is Some,
            list@ == overdue_all(users@.subrange(0, i as int), n),
        decreases users@.len() - i,
    {
        let user = &users[i];
        let ghost before = list@;
        let mut j: usize = 0;
        while j < user.borrowed_books.len()
            invariant
                i < users@.len(),
                *user == users@[i as int],
                j <= user.borrowed_books@.len(),
                clock_range(now as int),
                n == stamp_value(stamp(zone, now as int))->0,
                j > 0 ==> stamp_value(stamp(zone, now as int)) is Some,
                forall|k: int|
                    0 <= k < j ==> (#[trigger] stamp_value(
                        user.borrowed_books@[k].return_deadline@,
                    )) is Some,
                list@ == before + overdue_of(*user, user.borrowed_books@.subrange(0, j as int), n),
            decreases user.borrowed_books@.len() - j,
        {
            let loan = &user.borrowed_books[j];
            let over = match check_deadline(loan.return_deadline.as_str(), now, zone) {
                Ok(v) => v,
                Err(e) => return Err(e),
            };
            let ghost prefix = user.borrowed_books@.subrange(0, j as int);
            assert(user.borrowed_books@.subrange(0, j + 1).drop_last() =~= prefix);
            if over {
                list.push(
                    DelayedBook {
                        user_id: user.id,
                        user_name: user.name.clone(),
                        book: loan.duplicate(),
                    },
                );
            }
            assert(list@ =~= before + overdue_of(*user, user.borrowed_books@.subrange(0, j + 1), n));
            j = j + 1;
        }
        proof {
            let pre = users@.subrange(0, i as int);
            let post = users@.subrange(0, i + 1);
            assert(post.drop_last() =~= pre);
            assert(post.last() == users@[i as int]);
            assert(user.borrowed_books@.subrange(0, user.borrowed_books@.len() as int)
                =~= user.borrowed_books@);
            if any_loan(post) {
                let k = choose|k: int| 0 <= k < post.len() && #[trigger] post[k].borrowed_books@.len() > 0;
                if k < i {
                    assert(pre[k] == post[k]);
                    assert(any_loan(pre));
                }
                assert forall|a: int, b: int|
                    0 <= a < post.len() && 0 <= b < post[a].borrowed_books@.len() implies (
                    #[trigger] stamp_value(post[a].borrowed_books@[b].return_deadline@)) is Some by {
                    if a < i {
                        assert(pre[a] == post[a]);
                        assert(any_loan(pre));
                    } else {
                        assert(post[a] == users@[i as int]);
                    }
                }
            }
        }
        i = i + 1;
    }
    assert(users@.subrange(0, users@.len() as int) =~= users@);
    if list.len() == 0 {
        return Err(BibErrorResponse::DataNotFound(String::new()));
    }
    Ok(list)
}

} // verus!
