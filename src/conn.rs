//! The connection and the sessions it owns.
use vstd::prelude::*;

use crate::plan::EngineCall;
use crate::session::{
    handler_plan, handler_seq, reg_plan, subscribe_outcome, unsubscribe_outcome, SrSession,
    SrSessionId, SrSubscr, SrSubscrId,
};
use crate::table::{lemma_position_of, position_of, unique_ids};
use crate::types::{check_rc, SrError};

verus! {

/// The handles a table of sessions is keyed by.
pub open spec fn session_ids(entries: Seq<(u64, SrSession)>) -> Seq<u64> {
    entries.map_values(|e: (u64, SrSession)| e.0)
}

/// The release plans of a table of sessions, one after the other.
pub open spec fn session_plans(entries: Seq<(u64, SrSession)>) -> Seq<EngineCall>
    decreases entries.len(),
{
    if entries.len() == 0 {
        Seq::empty()
    } else {
        session_plans(entries.drop_last()) + entries.last().1.release_plan()
    }
}

/// The table after the session under `id` is taken out.
pub open spec fn without_session(entries: Seq<(u64, SrSession)>, id: u64) -> Seq<(u64, SrSession)> {
    let k = position_of(session_ids(entries), id);
    if k >= 0 {
        entries.remove(k)
    } else {
        entries
    }
}

/// The calls that release the session under `id`, if there is one.
pub open spec fn session_plan_at(entries: Seq<(u64, SrSession)>, id: u64) -> Seq<EngineCall> {
    let k = position_of(session_ids(entries), id);
    if k >= 0 {
        entries[k].1.release_plan()
    } else {
        Seq::empty()
    }
}

/// A connection handle and the sessions started through it. Zero stands for
/// a connection that is already severed.
pub struct SrConn {
    conn: u64,
    sessions: Vec<(u64, SrSession)>,
}

impl SrConn {
    pub closed spec fn handle(self) -> u64 {
        self.conn
    }

    pub closed spec fn entries(self) -> Seq<(u64, SrSession)> {
        self.sessions@
    }

    /// No handle is registered twice, and every session is well formed.
    pub open spec fn wf(self) -> bool {
        &&& unique_ids(session_ids(self.entries()))
        &&& forall|k: int| 0 <= k < self.entries().len() ==> (#[trigger] self.entries()[k]).1.wf()
    }

    /// Closing releases every session first, and then severs a live connection.
    pub open spec fn release_plan(self) -> Seq<EngineCall> {
        let disc = if self.handle() != 0 {
            seq![EngineCall::Disconnect(self.handle())]
        } else {
            Seq::<EngineCall>::empty()
        };
        session_plans(self.entries()) + disc
    }

    /// Takes the outcome of the engine's connect call: the connection on the
    /// success code, the code itself otherwise.
    pub fn new(rc: i32, conn: u64) -> (r: Result<SrConn, i32>)
        ensures
            r is Ok <==> rc == 0,
            r matches Ok(c) ==> c.wf() && c.handle() == conn && c.entries().len() == 0,
            r matches Err(e) ==> e == rc,
    {
        match check_rc(rc) {
            Ok(()) => Ok(SrConn { conn: conn, sessions: Vec::new() }),
            Err(e) => Err(e),
        }
    }

    /// The connection's engine handle, through which the schema context is
    /// acquired; zero once the connection is severed.
    pub fn get_context(&self) -> (r: u64)
        ensures
            r == self.handle(),
    {
        self.conn
    }

    /// Where the session under `id` stands, if anywhere.
    fn find(&self, id: u64) -> (r: Option<usize>)
        requires
            self.wf(),
        ensures
            r is None <==> position_of(session_ids(self.entries()), id) < 0,
            r matches Some(k) ==> k == position_of(session_ids(self.entries()), id),
            r matches Some(k) ==> k < self.entries().len() && self.entries()[k as int].0 == id,
    {
        let mut i: usize = 0;
        while i < self.sessions.len()
            invariant
                self.wf(),
                i <= self.sessions@.len(),
                forall|j: int| 0 <= j < i ==> self.sessions@[j].0 != id,
            decreases self.sessions@.len() - i,
        {
            if self.sessions[i].0 == id {
                proof {
                    lemma_position_of(session_ids(self.sessions@), id);
                    assert(session_ids(self.sessions@)[i as int] == id);
                }
                return Some(i);
            }
            i = i + 1;
        }
        proof {
            lemma_position_of(session_ids(self.sessions@), id);
            let ids = session_ids(self.sessions@);
            if position_of(ids, id) >= 0 {
                assert(ids[position_of(ids, id)] == id);
            }
        }
        None
    }

    /// Registers a session under `id`. A handle that is already registered
    /// is refused, and the session comes back to the caller untouched, so
    /// that no live session is ever released twice.
    pub fn insert_session(&mut self, id: SrSessionId, sess: SrSession) -> (r: Result<(), SrSession>)
        requires
            old(self).wf(),
            sess.wf(),
        ensures
            final(self).wf(),
            final(self).handle() == old(self).handle(),
            r is Ok <==> position_of(session_ids(old(self).entries()), id) < 0,
            r is Ok ==> final(self).entries() == old(self).entries().push((id, sess)),
            r matches Err(s) ==> s == sess && final(self).entries() == old(self).entries(),
    {
        let ghost es = self.sessions@;
        match self.find(id) {
            Some(_) => Err(sess),
            None => {
                proof {
                    lemma_position_of(session_ids(es), id);
                    assert(session_ids(es.push((id, sess))) =~= session_ids(es).push(id));
                }
                self.sessions.push((id, sess));
                Ok(())
            },
        }
    }

    /// Takes the session under `id` out of the table; the returned calls
    /// release it. Nothing happens where no session has that handle.
    pub fn remove_session(&mut self, id: &SrSessionId) -> (r: Vec<EngineCall>)
        requires
            old(self).wf(),
        ensures
            final(self).wf(),
            r@ == session_plan_at(old(self).entries(), *id),
            final(self).entries() == without_session(old(self).entries(), *id),
            final(self).handle() == old(self).handle(),
    {
        let ghost es = self.sessions@;
        match self.find(*id) {
            Some(k) => {
                let removed = self.sessions.remove(k);
                proof {
                    let ids = session_ids(es);
                    assert(session_ids(self.sessions@) =~= ids.remove(k as int));
                    assert forall|i: int, j: int|
                        0 <= i < ids.len() - 1 && 0 <= j < ids.len() - 1 && i != j implies
                        ids.remove(k as int)[i] != ids.remove(k as int)[j] by {
                        let i2 = if i < k { i } else { i + 1 };
                        let j2 = if j < k { j } else { j + 1 };
                        assert(ids.remove(k as int)[i] == ids[i2]);
                        assert(ids.remove(k as int)[j] == ids[j2]);
                    }
                    assert forall|i: int| 0 <= i < self.sessions@.len() implies
                        (#[trigger] self.sessions@[i]).1.wf() by {
                        let i2 = if i < k { i } else { i + 1 };
                        assert(self.sessions@[i] == es[i2]);
                    }
                }
                removed.1.release()
            },
            None => Vec::new(),
        }
    }

    /// The session under `id`, if there is one.
    pub fn lookup_session(&self, id: &SrSessionId) -> (r: Option<&SrSession>)
        requires
            self.wf(),
        ensures
            r is None <==> position_of(session_ids(self.entries()), *id) < 0,
            r matches Some(s) ==> *s == self.entries()[position_of(session_ids(self.entries()), *id)].1,
    {
        match self.find(*id) {
            Some(k) => Some(&self.sessions[k].1),
            None => None,
        }
    }

    /// Takes the outcome of the engine's session-start call. On the success
    /// code the new session, owned, is registered under its handle and the
    /// handle returned. A failed call gives back its code, and a handle that
    /// is already registered is refused as existing; in both cases the table
    /// is unchanged.
    pub fn start_session(&mut self, rc: i32, sess: u64) -> (r: Result<SrSessionId, i32>)
        requires
            old(self).wf(),
        ensures
            final(self).wf(),
            final(self).handle() == old(self).handle(),
            r is Ok <==> rc == 0 && position_of(session_ids(old(self).entries()), sess) < 0,
            rc != 0 ==> r == Err::<SrSessionId, i32>(rc),
            rc == 0 && position_of(session_ids(old(self).entries()), sess) >= 0 ==> r == Err::<
                SrSessionId,
                i32,
            >(SrError::Exists.spec_code()),
            r is Err ==> final(self).entries() == old(self).entries(),
            r is Ok ==> r == Ok::<SrSessionId, i32>(sess) && final(self).entries().len() == old(
                self,
            ).entries().len() + 1 && final(self).entries().drop_last() == old(self).entries() && ({
                let e = final(self).entries().last();
                &&& e.0 == sess
                &&& e.1.handle() == sess
                &&& e.1.is_owned()
                &&& e.1.registrations().len() == 0
            }),
    {
        match check_rc(rc) {
            Ok(()) => {
                let s = SrSession::from(sess, true);
                match self.insert_session(sess, s) {
                    Ok(()) => {
                        proof {
                            assert(self.sessions@.drop_last() =~= old(self).sessions@);
                        }
                        Ok(sess)
                    },
                    Err(_) => Err(SrError::Exists.code()),
                }
            },
            Err(e) => Err(e),
        }
    }

    /// Registers, in the session under `sess`, the outcome of a subscribe
    /// call made through it, as `SrSession::subscribed` does. Where no
    /// session has that handle nothing is registered: a failed call frees
    /// the handler at once, and a successful one is cancelled before its
    /// handler is freed.
    pub fn subscribed(&mut self, sess: SrSessionId, rc: i32, subscr: u64, handler: u64) -> (r: (
        Result<SrSubscrId, i32>,
        Vec<EngineCall>,
    ))
        requires
            old(self).wf(),
        ensures
            final(self).wf(),
            final(self).handle() == old(self).handle(),
            ({
                let k = position_of(session_ids(old(self).entries()), sess);
                if k >= 0 {
                    &&& final(self).entries().len() == old(self).entries().len()
                    &&& final(self).entries() == old(self).entries().update(
                        k,
                        (sess, final(self).entries()[k].1),
                    )
                    &&& subscribe_outcome(
                        old(self).entries()[k].1,
                        final(self).entries()[k].1,
                        rc,
                        subscr,
                        handler,
                        r.0,
                        r.1@,
                    )
                } else {
                    &&& final(self).entries() == old(self).entries()
                    &&& (rc != 0 ==> r.0 == Err::<SrSubscrId, i32>(rc) && r.1@ == handler_plan(handler))
                    &&& (rc == 0 && subscr == 0 ==> r.0 == Err::<SrSubscrId, i32>(
                        SrError::Internal.spec_code(),
                    ) && r.1@ == handler_plan(handler))
                    &&& (rc == 0 && subscr != 0 ==> r.0 == Err::<SrSubscrId, i32>(
                        SrError::NotFound.spec_code(),
                    ) && r.1@ == reg_plan((subscr, handler_seq(handler))))
                }
            }),
    {
        match self.find(sess) {
            Some(k) => {
                let ghost es = self.sessions@;
                let mut e = self.sessions.remove(k);
                let r = e.1.subscribed(rc, subscr, handler);
                self.sessions.insert(k, e);
                proof {
                    assert(self.sessions@ =~= es.update(k as int, (sess, self.sessions@[k as int].1)));
                    assert(session_ids(self.sessions@) =~= session_ids(es));
                    assert forall|i: int| 0 <= i < self.sessions@.len() implies
                        (#[trigger] self.sessions@[i]).1.wf() by {
                        if i != k {
                            assert(self.sessions@[i] == es[i]);
                        }
                    }
                }
                r
            },
            None => {
                if rc == 0 && subscr != 0 {
                    // The engine holds a live registration that dispatches to
                    // the handler: cancel it before the handler is freed.
                    let calls = SrSubscr::with_handler(subscr, handler).release();
                    (Err(SrError::NotFound.code()), calls)
                } else {
                    let mut calls: Vec<EngineCall> = Vec::new();
                    if handler != 0 {
                        calls.push(EngineCall::DropHandler(handler));
                    }
                    proof {
                        assert(calls@ =~= handler_plan(handler));
                    }
                    let code = if rc != 0 { rc } else { SrError::Internal.code() };
                    (Err(code), calls)
                }
            },
        }
    }

    /// Takes the registration `subscr` out of the session under `sess`, as
    /// `SrSession::remove_subscription` does; the returned calls release it.
    /// Nothing happens where no session has that handle.
    pub fn unsubscribe(&mut self, sess: SrSessionId, subscr: SrSubscrId) -> (r: Vec<EngineCall>)
        requires
            old(self).wf(),
        ensures
            final(self).wf(),
            final(self).handle() == old(self).handle(),
            ({
                let k = position_of(session_ids(old(self).entries()), sess);
                if k >= 0 {
                    &&& final(self).entries().len() == old(self).entries().len()
                    &&& final(self).entries() == old(self).entries().update(
                        k,
                        (sess, final(self).entries()[k].1),
                    )
                    &&& unsubscribe_outcome(
                        old(self).entries()[k].1,
                        final(self).entries()[k].1,
                        subscr,
                        r@,
                    )
                } else {
                    &&& final(self).entries() == old(self).entries()
                    &&& r@.len() == 0
                }
            }),
    {
        match self.find(sess) {
            Some(k) => {
                let ghost es = self.sessions@;
                let mut e = self.sessions.remove(k);
                let r = e.1.remove_subscription(subscr);
                self.sessions.insert(k, e);
                proof {
                    assert(self.sessions@ =~= es.update(k as int, (sess, self.sessions@[k as int].1)));
                    assert(session_ids(self.sessions@) =~= session_ids(es));
                    assert forall|i: int| 0 <= i < self.sessions@.len() implies
                        (#[trigger] self.sessions@[i]).1.wf() by {
                        if i != k {
                            assert(self.sessions@[i] == es[i]);
                        }
                    }
                }
                r
            },
            None => Vec::new(),
        }
    }

    /// Closes the connection: every session is released, then a live
    /// connection is severed. Afterwards the table is empty and the handle
    /// gone, so closing again issues no call.
    pub fn disconnect(&mut self) -> (r: Vec<EngineCall>)
        requires
            old(self).wf(),
        ensures
            final(self).wf(),
            r@ == old(self).release_plan(),
            final(self).handle() == 0,
            final(self).entries().len() == 0,
    {
        let ghost all = self.sessions@;
        let mut rest: Vec<(u64, SrSession)> = Vec::new();
        std::mem::swap(&mut rest, &mut self.sessions);
        let mut calls: Vec<EngineCall> = Vec::new();
        proof {
            assert(all.subrange(0, 0) =~= Seq::<(u64, SrSession)>::empty());
            assert(rest@ =~= all.subrange(0, all.len() as int));
        }
        while rest.len() > 0
            invariant
                rest@.len() <= all.len(),
                rest@ == all.subrange(all.len() - rest@.len(), all.len() as int),
                calls@ == session_plans(all.subrange(0, all.len() - rest@.len())),
                forall|k: int| 0 <= k < all.len() ==> (#[trigger] all[k]).1.wf(),
            decreases rest@.len(),
        {
            let ghost n = all.len() - rest@.len();
            let e = rest.remove(0);
            proof {
                assert(e == all[n]);
            }
            let mut more = e.1.release();
            calls.append(&mut more);
            proof {
                assert(all.subrange(0, n + 1).drop_last() =~= all.subrange(0, n));
                assert(all.subrange(0, n + 1).last() == all[n]);
                assert(rest@ =~= all.subrange(all.len() - rest@.len(), all.len() as int));
            }
        }
        if self.conn != 0 {
            calls.push(EngineCall::Disconnect(self.conn));
        }
        self.conn = 0;
        proof {
            assert(all.subrange(0, all.len() as int) =~= all);
            assert(session_ids(self.sessions@) =~= Seq::<u64>::empty());
        }
        calls
    }
}

} // verus!
