//! Properties that relate the release plans and table operations.
use vstd::prelude::*;

use crate::conn::{session_plans, SrConn};
use crate::plan::EngineCall;
use crate::session::{
    drop_handlers, handler_plan, handler_seq, reg_plan, removal_plan, subscr_ids, subscr_plans,
    subscribe_outcome, unsubscribe_outcome, with_subscr, without_subscr, RegView, SrSession,
    SrSubscrId,
};
use crate::table::{lemma_position_of, lemma_remove_pushed, position_of, unique_ids};
use crate::value::SrValueSlice;

verus! {

/// How many times call `c` occurs in `calls`.
pub open spec fn occurrences(calls: Seq<EngineCall>, c: EngineCall) -> nat
    decreases calls.len(),
{
    if calls.len() == 0 {
        0
    } else {
        occurrences(calls.drop_last(), c) + if calls.last() == c { 1nat } else { 0nat }
    }
}

/// Occurrences add up over concatenation.
pub proof fn lemma_occurrences_concat(a: Seq<EngineCall>, b: Seq<EngineCall>, c: EngineCall)
    ensures
        occurrences(a + b, c) == occurrences(a, c) + occurrences(b, c),
    decreases b.len(),
{
    if b.len() == 0 {
        assert(a + b =~= a);
    } else {
        lemma_occurrences_concat(a, b.drop_last(), c);
        assert((a + b).drop_last() =~= a + b.drop_last());
        assert((a + b).last() == b.last());
    }
}

/// A call that no entry equals does not occur.
pub proof fn lemma_occurrences_absent(s: Seq<EngineCall>, c: EngineCall)
    requires
        forall|i: int| 0 <= i < s.len() ==> s[i] != c,
    ensures
        occurrences(s, c) == 0,
    decreases s.len(),
{
    if s.len() > 0 {
        lemma_occurrences_absent(s.drop_last(), c);
    }
}

/// A single call occurs once in the sequence of just itself, and any other
/// call not at all.
pub proof fn lemma_occurrences_single(a: EngineCall, c: EngineCall)
    ensures
        occurrences(seq![a], c) == if a == c { 1nat } else { 0nat },
{
    assert(seq![a].drop_last() =~= Seq::<EngineCall>::empty());
    assert(occurrences(Seq::<EngineCall>::empty(), c) == 0);
}

/// An owned value array is released by one bulk call covering its whole
/// length, and never entry by entry.
pub proof fn lemma_owned_slice_released_whole(s: SrValueSlice)
    requires
        s.is_owned(),
    ensures
        s.release_plan() == seq![EngineCall::FreeValues(s.handle(), s.spec_len())],
        forall|i: int| 0 <= i < s.release_plan().len() ==> !(#[trigger] s.release_plan()[i] is FreeVal),
{
}

/// Releasing a value array that is not owned issues no call at all.
pub proof fn lemma_borrowed_slice_released_nothing(s: SrValueSlice)
    requires
        !s.is_owned(),
    ensures
        s.release_plan().len() == 0,
{
}

/// Releasing a table of registrations only cancels registrations and frees
/// handlers. Where the handles are unique and non-zero, it cancels each
/// registered handle exactly once and no other handle.
pub proof fn lemma_subscr_plans(regs: Seq<RegView>)
    ensures
        forall|i: int|
            0 <= i < subscr_plans(regs).len() ==> (#[trigger] subscr_plans(regs)[i] is Unsubscribe)
                || subscr_plans(regs)[i] is DropHandler,
        unique_ids(subscr_ids(regs)) && (forall|k: int| 0 <= k < regs.len() ==> (#[trigger] regs[k]).0 != 0)
            ==> forall|x: u64|
            occurrences(subscr_plans(regs), EngineCall::Unsubscribe(x)) == if position_of(
                subscr_ids(regs),
                x,
            ) >= 0 {
                1nat
            } else {
                0nat
            },
    decreases regs.len(),
{
    if regs.len() > 0 {
        let front = regs.drop_last();
        let last = regs.last();
        lemma_subscr_plans(front);
        let p = subscr_plans(regs);
        let pf = subscr_plans(front);
        let pl = reg_plan(last);
        assert(p == pf + pl);
        assert forall|i: int| 0 <= i < p.len() implies (#[trigger] p[i] is Unsubscribe) || p[i] is DropHandler by {
            if i < pf.len() {
                assert(p[i] == pf[i]);
            } else {
                assert(p[i] == pl[i - pf.len()]);
            }
        }
        let ids = subscr_ids(regs);
        if unique_ids(ids) && (forall|k: int| 0 <= k < regs.len() ==> (#[trigger] regs[k]).0 != 0) {
            assert(subscr_ids(front) =~= ids.drop_last());
            assert(unique_ids(subscr_ids(front)));
            assert forall|k: int| 0 <= k < front.len() implies (#[trigger] front[k]).0 != 0 by {
                assert(front[k] == regs[k]);
            }
            assert forall|x: u64|
                occurrences(p, EngineCall::Unsubscribe(x)) == if position_of(ids, x) >= 0 {
                    1nat
                } else {
                    0nat
                } by {
                let u = EngineCall::Unsubscribe(x);
                lemma_occurrences_concat(pf, pl, u);
                let dh = drop_handlers(last.1);
                assert(pl == seq![EngineCall::Unsubscribe(last.0)] + dh);
                lemma_occurrences_concat(seq![EngineCall::Unsubscribe(last.0)], dh, u);
                assert forall|i: int| 0 <= i < dh.len() implies dh[i] != u by {
                    assert(dh[i] == EngineCall::DropHandler(last.1[i]));
                }
                lemma_occurrences_absent(dh, u);
                lemma_occurrences_single(EngineCall::Unsubscribe(last.0), u);
                assert(ids.last() == last.0);
                let qf = position_of(subscr_ids(front), x);
                assert(occurrences(pf, u) == if qf >= 0 { 1nat } else { 0nat });
                if last.0 == x {
                    lemma_position_of(subscr_ids(front), x);
                    if qf >= 0 {
                        assert(ids[qf] == subscr_ids(front)[qf]);
                        assert(ids[qf] == x);
                        assert(ids[ids.len() - 1] == x);
                    }
                    assert(position_of(ids, x) == ids.len() - 1);
                } else {
                    assert(position_of(ids, x) == position_of(ids.drop_last(), x));
                }
            }
        }
    }
}

/// Registering a subscription under a handle the session does not hold and
/// at once taking that handle out again leaves the table as it was, so no
/// registration outlives the pair. Where the registration was made, its
/// removal cancels it exactly once and frees the handler only afterwards;
/// where it was refused, the removal issues nothing.
pub proof fn lemma_subscribe_then_unsubscribe(
    pre: SrSession,
    mid: SrSession,
    post: SrSession,
    rc: i32,
    subscr: u64,
    handler: u64,
    r: Result<SrSubscrId, i32>,
    subscribe_calls: Seq<EngineCall>,
    unsubscribe_calls: Seq<EngineCall>,
)
    requires
        pre.wf(),
        position_of(subscr_ids(pre.registrations()), subscr) < 0,
        subscribe_outcome(pre, mid, rc, subscr, handler, r, subscribe_calls),
        unsubscribe_outcome(mid, post, subscr, unsubscribe_calls),
    ensures
        post.registrations() == pre.registrations(),
        r is Ok ==> subscribe_calls.len() == 0 && unsubscribe_calls == seq![
            EngineCall::Unsubscribe(subscr),
        ] + handler_plan(handler),
        r is Err ==> unsubscribe_calls.len() == 0,
{
    let regs = pre.registrations();
    if r is Ok {
        let s: RegView = (subscr, handler_seq(handler));
        let pushed = regs.push(s);
        assert(with_subscr(regs, s) == pushed);
        assert(subscr_ids(pushed) =~= subscr_ids(regs).push(subscr));
        assert(position_of(subscr_ids(pushed), subscr) == regs.len());
        lemma_remove_pushed(regs, s);
        assert(removal_plan(pushed, subscr) == reg_plan(s));
    }
}

/// Releasing an owned session cancels each registered handle exactly once
/// and no other handle. Where the session is live, it is stopped exactly
/// once, as the very last call, after every cancellation; where it is not,
/// nothing is issued at all.
pub proof fn lemma_owned_session_release_order(sess: SrSession)
    requires
        sess.wf(),
        sess.is_owned(),
    ensures
        forall|x: u64|
            occurrences(sess.release_plan(), EngineCall::Unsubscribe(x)) == if position_of(
                subscr_ids(sess.registrations()),
                x,
            ) >= 0 {
                1nat
            } else {
                0nat
            },
        sess.handle() == 0 ==> sess.release_plan().len() == 0,
        sess.handle() != 0 ==> {
            &&& sess.release_plan().len() > 0
            &&& sess.release_plan().last() == EngineCall::SessionStop(sess.handle())
            &&& occurrences(sess.release_plan(), EngineCall::SessionStop(sess.handle())) == 1
            &&& forall|i: int|
                0 <= i < sess.release_plan().len() - 1 ==> !(#[trigger] sess.release_plan()[i]).is_session_stop()
        },
{
    let regs = sess.registrations();
    let pf = subscr_plans(regs);
    let p = sess.release_plan();
    lemma_subscr_plans(regs);
    if sess.handle() == 0 {
        assert(regs.len() == 0);
        assert(p =~= Seq::<EngineCall>::empty());
    } else {
        let stop = seq![EngineCall::SessionStop(sess.handle())];
        assert(p == pf + stop);
        assert forall|x: u64|
            occurrences(p, EngineCall::Unsubscribe(x)) == if position_of(subscr_ids(regs), x) >= 0 {
                1nat
            } else {
                0nat
            } by {
            lemma_occurrences_concat(pf, stop, EngineCall::Unsubscribe(x));
            lemma_occurrences_single(EngineCall::SessionStop(sess.handle()), EngineCall::Unsubscribe(x));
        }
        assert forall|i: int| 0 <= i < p.len() - 1 implies !(#[trigger] p[i]).is_session_stop() by {
            assert(p[i] == pf[i]);
            assert(pf[i] is Unsubscribe || pf[i] is DropHandler);
        }
        let c = EngineCall::SessionStop(sess.handle());
        assert forall|i: int| 0 <= i < pf.len() implies pf[i] != c by {
            assert(pf[i] is Unsubscribe || pf[i] is DropHandler);
        }
        lemma_occurrences_absent(pf, c);
        lemma_occurrences_concat(pf, stop, c);
        lemma_occurrences_single(c, c);
        assert(p.last() == c);
    }
}

/// A session that does not own its handle, such as one lent to a callback,
/// issues no call at all when released: no stop and no cancellation.
pub proof fn lemma_borrowed_session_releases_nothing(sess: SrSession)
    requires
        sess.wf(),
        !sess.is_owned(),
    ensures
        sess.release_plan().len() == 0,
{
    assert(sess.registrations().len() == 0);
    assert(sess.release_plan() =~= Seq::<EngineCall>::empty());
}

/// Releasing a table of sessions never severs a connection.
pub proof fn lemma_session_plans_keep_connection(entries: Seq<(u64, SrSession)>)
    ensures
        forall|i: int|
            0 <= i < session_plans(entries).len() ==> !(#[trigger] session_plans(entries)[i]).is_disconnect(),
    decreases entries.len(),
{
    if entries.len() > 0 {
        let front = entries.drop_last();
        lemma_session_plans_keep_connection(front);
        let last = entries.last().1;
        lemma_subscr_plans(last.registrations());
        let pf = session_plans(front);
        let ps = subscr_plans(last.registrations());
        let pl = last.release_plan();
        let p = session_plans(entries);
        assert forall|i: int| 0 <= i < p.len() implies !(#[trigger] p[i]).is_disconnect() by {
            if i < pf.len() {
                assert(p[i] == pf[i]);
            } else {
                assert(p[i] == pl[i - pf.len()]);
                if i - pf.len() < ps.len() {
                    assert(pl[i - pf.len()] == ps[i - pf.len()]);
                    assert(ps[i - pf.len()] is Unsubscribe || ps[i - pf.len()] is DropHandler);
                }
            }
        }
    }
}

/// Closing a connection releases every session it holds first. A live
/// connection is severed exactly once, as the very last call; a severed one
/// is not severed again.
pub proof fn lemma_connection_release_order(conn: SrConn)
    ensures
        conn.handle() == 0 ==> conn.release_plan() == session_plans(conn.entries()),
        conn.handle() == 0 ==> forall|i: int|
            0 <= i < conn.release_plan().len() ==> !(#[trigger] conn.release_plan()[i]).is_disconnect(),
        conn.handle() != 0 ==> {
            &&& conn.release_plan() == session_plans(conn.entries()) + seq![EngineCall::Disconnect(conn.handle())]
            &&& conn.release_plan().last() == EngineCall::Disconnect(conn.handle())
            &&& forall|i: int|
                0 <= i < conn.release_plan().len() - 1 ==> !(#[trigger] conn.release_plan()[i]).is_disconnect()
        },
{
    let pf = session_plans(conn.entries());
    let p = conn.release_plan();
    lemma_session_plans_keep_connection(conn.entries());
    if conn.handle() == 0 {
        assert(p =~= pf);
    } else {
        assert forall|i: int| 0 <= i < p.len() - 1 implies !(#[trigger] p[i]).is_disconnect() by {
            assert(p[i] == pf[i]);
        }
    }
}

} // verus!
