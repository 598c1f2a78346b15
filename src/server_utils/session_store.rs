use vstd::prelude::*;
use vstd::string::*;

use crate::api::error::ApiError;
use crate::api::jwt::SessionId;

verus! {

/// A session row: who owns it and until when it is valid.
#[derive(Debug, Clone, Copy, PartialEq, Eq, Structural)]
pub struct Session {
    pub id: SessionId,
    pub account_id: i64,
    pub expires_at: i64,
}

/// The rows hold a session with this id.
pub open spec fn has_session(rows: Seq<Session>, id: SessionId) -> bool {
    exists|i: int| 0 <= i < rows.len() && (#[trigger] rows[i]).id == id
}

/// The row of session `id`, if there is one.
pub open spec fn find_session(rows: Seq<Session>, id: SessionId) -> Option<Session> {
    if has_session(rows, id) {
        Some(rows[choose|i: int| 0 <= i < rows.len() && (#[trigger] rows[i]).id == id])
    } else {
        None
    }
}

/// No two rows share an id.
pub open spec fn ids_distinct(rows: Seq<Session>) -> bool {
    forall|i: int, j: int|
        0 <= i < rows.len() && 0 <= j < rows.len() && i != j ==> (#[trigger] rows[i]).id != (
        #[trigger] rows[j]).id
}

/// The rows after the session `id` got the expiry `expires_at`.
pub open spec fn renewed(rows: Seq<Session>, id: SessionId, expires_at: i64) -> Seq<Session> {
    Seq::new(
        rows.len(),
        |j: int|
            if rows[j].id == id {
                Session { expires_at, ..rows[j] }
            } else {
                rows[j]
            },
    )
}

/// The rows that a cleanup with `cutoff` keeps: those not older than it, in order.
pub open spec fn live_rows(rows: Seq<Session>, cutoff: i64) -> Seq<Session>
    decreases rows.len(),
{
    if rows.len() == 0 {
        Seq::empty()
    } else {
        let kept = live_rows(rows.drop_last(), cutoff);
        if rows.last().expires_at >= cutoff {
            kept.push(rows.last())
        } else {
            kept
        }
    }
}

/// The sessions table. Each row is a session; ids are unique.
pub struct SessionStore {
    rows: Vec<Session>,
}

impl View for SessionStore {
    type V = Seq<Session>;

    closed spec fn view(&self) -> Seq<Session> {
        self.rows@
    }
}

proof fn lemma_live_rows_from(rows: Seq<Session>, cutoff: i64)
    ensures
        live_rows(rows, cutoff).len() <= rows.len(),
        forall|k: int|
            0 <= k < live_rows(rows, cutoff).len() ==> (#[trigger] live_rows(rows, cutoff)[k]).expires_at
                >= cutoff && exists|i: int| 0 <= i < rows.len() && rows[i] == live_rows(rows, cutoff)[k],
        ids_distinct(rows) ==> ids_distinct(live_rows(rows, cutoff)),
    decreases rows.len(),
{
    if rows.len() > 0 {
        let prefix = rows.drop_last();
        lemma_live_rows_from(prefix, cutoff);
        let kept = live_rows(prefix, cutoff);
        assert forall|k: int| 0 <= k < kept.len() implies exists|i: int|
            0 <= i < rows.len() && rows[i] == #[trigger] kept[k] by {
            let i = choose|i: int| 0 <= i < prefix.len() && prefix[i] == kept[k];
            assert(rows[i] == kept[k]);
        }
        if rows.last().expires_at >= cutoff {
            let out = kept.push(rows.last());
            assert forall|k: int| 0 <= k < out.len() implies exists|i: int|
                0 <= i < rows.len() && rows[i] == #[trigger] out[k] by {
                if k == kept.len() {
                    assert(rows[rows.len() - 1] == out[k]);
                } else {
                    assert(out[k] == kept[k]);
                }
            }
            if ids_distinct(rows) {
                assert(ids_distinct(prefix));
                assert forall|a: int, b: int|
                    0 <= a < out.len() && 0 <= b < out.len() && a != b implies (#[trigger] out[a]).id
                    != (#[trigger] out[b]).id by {
                    if a == kept.len() {
                        let i = choose|i: int| 0 <= i < prefix.len() && prefix[i] == kept[b];
                        assert(rows[i] == kept[b]);
                        assert(rows[rows.len() - 1] == out[a]);
                    } else if b == kept.len() {
                        let i = choose|i: int| 0 <= i < prefix.len() && prefix[i] == kept[a];
                        assert(rows[i] == kept[a]);
                        assert(rows[rows.len() - 1] == out[b]);
                    } else {
                        assert(out[a] == kept[a] && out[b] == kept[b]);
                    }
                }
            }
        } else {
            if ids_distinct(rows) {
                assert(ids_distinct(prefix));
            }
        }
    }
}

/// The rows after renewals of session `id` at the times `times`, applied one
/// after another in the order in which they committed.
pub open spec fn renew_all(rows: Seq<Session>, id: SessionId, times: Seq<i64>, ttl: i64) -> Seq<
    Session,
>
    decreases times.len(),
{
    if times.len() == 0 {
        rows
    } else {
        renewed(renew_all(rows, id, times.drop_last(), ttl), id, (times.last() + ttl) as i64)
    }
}

proof fn lemma_renew_all_rows(rows: Seq<Session>, id: SessionId, times: Seq<i64>, ttl: i64)
    ensures
        renew_all(rows, id, times, ttl).len() == rows.len(),
        forall|j: int|
            0 <= j < rows.len() ==> (#[trigger] renew_all(rows, id, times, ttl)[j]).id == rows[j].id
                && renew_all(rows, id, times, ttl)[j].account_id == rows[j].account_id && (rows[j].id
                != id ==> renew_all(rows, id, times, ttl)[j] == rows[j]) && (times.len() > 0
                && rows[j].id == id ==> renew_all(rows, id, times, ttl)[j].expires_at == (
            times.last() + ttl) as i64),
    decreases times.len(),
{
    if times.len() > 0 {
        lemma_renew_all_rows(rows, id, times.drop_last(), ttl);
    }
}

proof fn lemma_same_ids_same_sessions(a: Seq<Session>, b: Seq<Session>, x: SessionId)
    requires
        a.len() == b.len(),
        forall|j: int| 0 <= j < a.len() ==> (#[trigger] a[j]).id == b[j].id,
    ensures
        has_session(a, x) == has_session(b, x),
{
    if has_session(a, x) {
        let i = choose|i: int| 0 <= i < a.len() && (#[trigger] a[i]).id == x;
        assert(b[i].id == x);
    }
    if has_session(b, x) {
        let i = choose|i: int| 0 <= i < b.len() && (#[trigger] b[i]).id == x;
        assert(a[i].id == x);
    }
}

/// No renewal is lost: when renewals of a live session commit one after another
/// at the times `times`, each of them finds the session (so each succeeds), and
/// afterwards the session expires at the time of the last one plus the TTL,
/// while every other row is as it was.
pub proof fn lemma_renewals_not_lost(rows: Seq<Session>, id: SessionId, times: Seq<i64>, ttl: i64)
    requires
        has_session(rows, id),
        times.len() > 0,
        forall|k: int| 0 <= k < times.len() ==> i64::MIN <= #[trigger] times[k] + ttl <= i64::MAX,
    ensures
        forall|k: int|
            0 <= k < times.len() ==> has_session(#[trigger] renew_all(rows, id, times.take(k), ttl), id),
        renew_all(rows, id, times, ttl).len() == rows.len(),
        forall|j: int|
            0 <= j < rows.len() ==> #[trigger] renew_all(rows, id, times, ttl)[j] == if rows[j].id == id {
                Session { expires_at: (times.last() + ttl) as i64, ..rows[j] }
            } else {
                rows[j]
            },
{
    lemma_renew_all_rows(rows, id, times, ttl);
    assert forall|k: int| 0 <= k < times.len() implies has_session(
        #[trigger] renew_all(rows, id, times.take(k), ttl),
        id,
    ) by {
        lemma_renew_all_rows(rows, id, times.take(k), ttl);
        lemma_same_ids_same_sessions(renew_all(rows, id, times.take(k), ttl), rows, id);
    }
}

/// Cleaning up twice with the same cutoff and no write in between: the second
/// pass keeps every row, so it deletes nothing.
pub proof fn lemma_cleanup_idempotent(rows: Seq<Session>, cutoff: i64)
    ensures
        live_rows(live_rows(rows, cutoff), cutoff) == live_rows(rows, cutoff),
        live_rows(rows, cutoff).len() - live_rows(live_rows(rows, cutoff), cutoff).len() == 0,
    decreases rows.len(),
{
    if rows.len() > 0 {
        let kept = live_rows(rows.drop_last(), cutoff);
        lemma_cleanup_idempotent(rows.drop_last(), cutoff);
        if rows.last().expires_at >= cutoff {
            assert(kept.push(rows.last()).drop_last() =~= kept);
        }
    }
}

/// A session whose row expired before `cutoff` is not found once a cleanup with
/// that cutoff has run.
pub proof fn lemma_deleted_not_found(rows: Seq<Session>, cutoff: i64, id: SessionId)
    requires
        forall|i: int| 0 <= i < rows.len() && (#[trigger] rows[i]).id == id ==> rows[i].expires_at
            < cutoff,
    ensures
        !has_session(live_rows(rows, cutoff), id),
{
    lemma_live_rows_from(rows, cutoff);
    let live = live_rows(rows, cutoff);
    if has_session(live, id) {
        let k = choose|k: int| 0 <= k < live.len() && (#[trigger] live[k]).id == id;
        let i = choose|i: int| 0 <= i < rows.len() && rows[i] == live[k];
        assert(rows[i].id == id);
    }
}

/// A session that survives a cleanup is the row the store held before it.
pub proof fn lemma_kept_row_was_there(store: &SessionStore, cutoff: i64, id: SessionId)
    requires
        store.wf(),
        has_session(live_rows(store@, cutoff), id),
    ensures
        find_session(store@, id) == find_session(live_rows(store@, cutoff), id),
        has_session(store@, id),
{
    let rows = store@;
    lemma_live_rows_from(rows, cutoff);
    let live = live_rows(rows, cutoff);
    let k = choose|k: int| 0 <= k < live.len() && (#[trigger] live[k]).id == id;
    let i = choose|i: int| 0 <= i < rows.len() && rows[i] == live[k];
    assert(rows[i].id == id);
    let j = choose|j: int| 0 <= j < rows.len() && (#[trigger] rows[j]).id == id;
    assert(i == j);
}

impl SessionStore {
    /// The store's invariant: session ids are unique.
    pub closed spec fn wf(&self) -> bool {
        ids_distinct(self.rows@)
    }

    /// An empty table.
    pub fn new() -> (r: Self)
        ensures
            r.wf(),
            r@ == Seq::<Session>::empty(),
    {
        SessionStore { rows: Vec::new() }
    }

    /// The number of rows.
    pub fn len(&self) -> (r: usize)
        ensures
            r == self@.len(),
    {
        self.rows.len()
    }

    /// The row of session `id`, if there is one.
    pub fn fetch(&self, id: SessionId) -> (r: Option<Session>)
        requires
            self.wf(),
        ensures
            r is None <==> !has_session(self@, id),
            r matches Some(s) ==> s.id == id && self@.contains(s),
            r == find_session(self@, id),
    {
        let mut i: usize = 0;
        while i < self.rows.len()
            invariant
                0 <= i <= self.rows@.len(),
                ids_distinct(self.rows@),
                forall|j: int| 0 <= j < i ==> (#[trigger] self.rows@[j]).id != id,
            decreases self.rows@.len() - i,
        {
            if self.rows[i].id == id {
                let s = self.rows[i];
                assert(self@[i as int] == s);
                let ghost j = choose|j: int| 0 <= j < self.rows@.len() && (#[trigger] self.rows@[j]).id == id;
                assert(j == i);
                return Some(s);
            }
            i = i + 1;
        }
        None
    }

    /// Inserts the session `id` of `account_id`, valid until `now + ttl`. Fails
    /// with a database error, changing nothing, when the id is taken.
    pub fn create(&mut self, id: SessionId, account_id: i64, now: i64, ttl: i64) -> (r: Result<
        Session,
        ApiError,
    >)
        requires
            old(self).wf(),
            i64::MIN <= now + ttl <= i64::MAX,
        ensures
            final(self).wf(),
            r is Err <==> has_session(old(self)@, id),
            r matches Ok(s) ==> s == (Session { id, account_id, expires_at: (now + ttl) as i64 })
                && final(self)@ == old(self)@.push(s),
            r matches Err(e) ==> e is DbError && final(self)@ == old(self)@,
    {
        match self.fetch(id) {
            Some(_) => Err(ApiError::DbError(String::from_str("duplicate session id"))),
            None => {
                let s = Session { id, account_id, expires_at: now + ttl };
                self.rows.push(s);
                assert forall|i: int, j: int|
                    0 <= i < self.rows@.len() && 0 <= j < self.rows@.len() && i != j implies (
                    #[trigger] self.rows@[i]).id != (#[trigger] self.rows@[j]).id by {
                    if i == self.rows@.len() - 1 {
                        assert(old(self)@[j] == self.rows@[j]);
                    } else if j == self.rows@.len() - 1 {
                        assert(old(self)@[i] == self.rows@[i]);
                    } else {
                        assert(old(self)@[i] == self.rows@[i]);
                        assert(old(self)@[j] == self.rows@[j]);
                    }
                }
                Ok(s)
            },
        }
    }

    /// Resets the expiry of session `id` to `now + ttl`, in one step, and
    /// returns it. Fails with a database error, changing nothing, when there is
    /// no such session.
    pub fn renew(&mut self, id: SessionId, now: i64, ttl: i64) -> (r: Result<i64, ApiError>)
        requires
            old(self).wf(),
            i64::MIN <= now + ttl <= i64::MAX,
        ensures
            final(self).wf(),
            r is Err <==> !has_session(old(self)@, id),
            r matches Ok(e) ==> e == now + ttl && final(self)@ == renewed(old(self)@, id, e),
            r matches Err(e) ==> e is DbError && final(self)@ == old(self)@,
    {
        let expires_at: i64 = now + ttl;
        let mut i: usize = 0;
        while i < self.rows.len()
            invariant
                0 <= i <= self.rows@.len(),
                self.rows@ == old(self).rows@,
                expires_at == now + ttl,
                ids_distinct(self.rows@),
                forall|j: int| 0 <= j < i ==> (#[trigger] self.rows@[j]).id != id,
            decreases self.rows@.len() - i,
        {
            if self.rows[i].id == id {
                let s = self.rows[i];
                let ghost before = self.rows@;
                self.rows.set(i, Session { expires_at, ..s });
                assert(self.rows@ =~= renewed(before, id, expires_at)) by {
                    assert forall|j: int| 0 <= j < before.len() && j != i implies before[j].id
                        != id by {
                        assert(before[j].id != before[i as int].id);
                    }
                }
                assert(ids_distinct(self.rows@)) by {
                    assert forall|a: int, b: int|
                        0 <= a < self.rows@.len() && 0 <= b < self.rows@.len() && a != b implies (
                        #[trigger] self.rows@[a]).id != (#[trigger] self.rows@[b]).id by {
                        assert(before[a].id != before[b].id);
                    }
                }
                return Ok(expires_at);
            }
            i = i + 1;
        }
        Err(ApiError::DbError(String::from_str("no such session")))
    }

    /// Deletes every session that expired before `cutoff` and returns how many
    /// were deleted.
    pub fn delete_expired(&mut self, cutoff: i64) -> (r: usize)
        requires
            old(self).wf(),
        ensures
            final(self).wf(),
            final(self)@ == live_rows(old(self)@, cutoff),
            r == old(self)@.len() - final(self)@.len(),
    {
        let mut kept: Vec<Session> = Vec::new();
        let mut i: usize = 0;
        while i < self.rows.len()
            invariant
                0 <= i <= self.rows@.len(),
                kept@ == live_rows(self.rows@.subrange(0, i as int), cutoff),
            decreases self.rows@.len() - i,
        {
            let s = self.rows[i];
            assert(self.rows@.subrange(0, i + 1).drop_last() =~= self.rows@.subrange(0, i as int));
            if s.expires_at >= cutoff {
                kept.push(s);
            }
            i = i + 1;
        }
        assert(self.rows@.subrange(0, self.rows@.len() as int) =~= self.rows@);
        proof {
            lemma_live_rows_from(self.rows@, cutoff);
        }
        let removed: usize = self.rows.len() - kept.len();
        self.rows = kept;
        removed
    }
}

} // verus!
