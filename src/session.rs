//! Sessions and the subscriptions they own.
use vstd::prelude::*;

use crate::plan::EngineCall;
use crate::table::{lemma_position_of, position_of, unique_ids};
use crate::types::SrError;
use crate::value::{SrVal, SrValueSlice};

verus! {

/// Engine identity of a session.
pub type SrSessionId = u64;

/// Engine identity of a subscription.
pub type SrSubscrId = u64;

/// What a registration is: its subscription handle and the identities of
/// the boxed handlers the engine dispatches to through it.
pub type RegView = (u64, Seq<u64>);

/// The handlers list of a registration made with `handler`; zero stands for
/// no handler.
pub open spec fn handler_seq(handler: u64) -> Seq<u64> {
    if handler == 0 {
        Seq::empty()
    } else {
        seq![handler]
    }
}

/// Freeing the boxed handlers `hs`, one after the other.
pub open spec fn drop_handlers(hs: Seq<u64>) -> Seq<EngineCall> {
    hs.map_values(|h: u64| EngineCall::DropHandler(h))
}

/// Cancelling a registration comes first; the engine returns from it only
/// once no dispatch through it is in flight. Only then are its handlers
/// freed.
pub open spec fn reg_plan(r: RegView) -> Seq<EngineCall> {
    let unsub = if r.0 == 0 {
        Seq::<EngineCall>::empty()
    } else {
        seq![EngineCall::Unsubscribe(r.0)]
    };
    unsub + drop_handlers(r.1)
}

/// One dispatch registration: the engine's subscription handle and the
/// boxed handlers the engine dispatches to through it. A zero handle stands
/// for no subscription.
pub struct SrSubscr {
    subscr: u64,
    handlers: Vec<u64>,
}

impl View for SrSubscr {
    type V = RegView;

    closed spec fn view(&self) -> RegView {
        (self.subscr, self.handlers@)
    }
}

impl SrSubscr {
    pub open spec fn spec_id(self) -> u64 {
        self@.0
    }

    pub open spec fn release_plan(self) -> Seq<EngineCall> {
        reg_plan(self@)
    }

    /// A subscription that holds nothing.
    pub fn new() -> (r: Self)
        ensures
            r@ == (0u64, Seq::<u64>::empty()),
    {
        Self { subscr: 0, handlers: Vec::new() }
    }

    /// Wraps a subscription handle that dispatches to no handler of ours.
    pub fn from(subscr: u64) -> (r: Self)
        ensures
            r@ == (subscr, Seq::<u64>::empty()),
    {
        Self { subscr: subscr, handlers: Vec::new() }
    }

    /// Wraps a subscription handle together with the handler it dispatches to.
    pub fn with_handler(subscr: u64, handler: u64) -> (r: Self)
        ensures
            r@ == (subscr, handler_seq(handler)),
    {
        let mut handlers: Vec<u64> = Vec::new();
        if handler != 0 {
            handlers.push(handler);
        }
        proof {
            assert(handlers@ =~= handler_seq(handler));
        }
        Self { subscr: subscr, handlers: handlers }
    }

    pub fn id(&self) -> (r: SrSubscrId)
        ensures
            r == self@.0,
    {
        self.subscr
    }

    /// The handlers this registration dispatches to.
    pub fn handlers(&self) -> (r: &[u64])
        ensures
            r@ == self@.1,
    {
        self.handlers.as_slice()
    }

    /// Joins the handlers of `other` to this registration.
    fn absorb(self, other: SrSubscr) -> (r: SrSubscr)
        ensures
            r@ == (self@.0, self@.1 + other@.1),
    {
        let mut handlers = self.handlers;
        let mut more = other.handlers;
        handlers.append(&mut more);
        SrSubscr { subscr: self.subscr, handlers: handlers }
    }

    /// Releases the registration, consuming it: the returned calls are
    /// exactly its release plan.
    pub fn release(self) -> (r: Vec<EngineCall>)
        ensures
            r@ == self.release_plan(),
    {
        let mut calls: Vec<EngineCall> = Vec::new();
        if self.subscr != 0 {
            calls.push(EngineCall::Unsubscribe(self.subscr));
        }
        let ghost pre = calls@;
        let mut i: usize = 0;
        while i < self.handlers.len()
            invariant
                i <= self.handlers@.len(),
                calls@ == pre + drop_handlers(self.handlers@.subrange(0, i as int)),
            decreases self.handlers@.len() - i,
        {
            calls.push(EngineCall::DropHandler(self.handlers[i]));
            i = i + 1;
            proof {
                assert(drop_handlers(self.handlers@.subrange(0, i as int)) =~= drop_handlers(
                    self.handlers@.subrange(0, i - 1),
                ).push(EngineCall::DropHandler(self.handlers@[i - 1])));
            }
        }
        proof {
            assert(self.handlers@.subrange(0, i as int) =~= self.handlers@);
            assert(calls@ =~= self.release_plan());
        }
        calls
    }
}

/// The calls that free one boxed handler; none for the zero identity.
pub open spec fn handler_plan(handler: u64) -> Seq<EngineCall> {
    drop_handlers(handler_seq(handler))
}

/// The handles of a table of registrations.
pub open spec fn subscr_ids(regs: Seq<RegView>) -> Seq<u64> {
    regs.map_values(|r: RegView| r.0)
}

/// The release plans of a table of registrations, one after the other.
pub open spec fn subscr_plans(regs: Seq<RegView>) -> Seq<EngineCall>
    decreases regs.len(),
{
    if regs.len() == 0 {
        Seq::empty()
    } else {
        subscr_plans(regs.drop_last()) + reg_plan(regs.last())
    }
}

/// The table after `s` is registered: where its handle is already
/// registered, its handlers join that registration; otherwise it is appended.
pub open spec fn with_subscr(regs: Seq<RegView>, s: RegView) -> Seq<RegView> {
    let k = position_of(subscr_ids(regs), s.0);
    if k >= 0 {
        regs.update(k, (s.0, regs[k].1 + s.1))
    } else {
        regs.push(s)
    }
}

/// The calls that release the registration with handle `id`, if there is one.
pub open spec fn removal_plan(regs: Seq<RegView>, id: u64) -> Seq<EngineCall> {
    let k = position_of(subscr_ids(regs), id);
    if k >= 0 {
        reg_plan(regs[k])
    } else {
        Seq::empty()
    }
}

/// The table after the registration with handle `id` is taken out.
pub open spec fn without_subscr(regs: Seq<RegView>, id: u64) -> Seq<RegView> {
    let k = position_of(subscr_ids(regs), id);
    if k >= 0 {
        regs.remove(k)
    } else {
        regs
    }
}

/// What registering the outcome of a subscribe call does to a session.
/// The subscription is registered, dispatching to `handler`, exactly when
/// the engine gave the success code and a handle and the session owns a
/// live handle; then no call is needed. Otherwise the table is unchanged:
/// on a failed call the boxed handler is freed at once; on a successful one
/// that cannot be registered the new subscription is cancelled and only
/// then its handler freed.
pub open spec fn subscribe_outcome(
    pre: SrSession,
    post: SrSession,
    rc: i32,
    subscr: u64,
    handler: u64,
    r: Result<SrSubscrId, i32>,
    calls: Seq<EngineCall>,
) -> bool {
    &&& post.wf()
    &&& post.handle() == pre.handle()
    &&& post.is_owned() == pre.is_owned()
    &&& (r is Ok <==> rc == 0 && subscr != 0 && pre.holds_registrations())
    &&& (r is Ok ==> r == Ok::<SrSubscrId, i32>(subscr) && calls.len() == 0
        && post.registrations() == with_subscr(pre.registrations(), (subscr, handler_seq(handler))))
    &&& (r is Err ==> post.registrations() == pre.registrations())
    &&& (rc != 0 ==> r == Err::<SrSubscrId, i32>(rc) && calls == handler_plan(handler))
    &&& (rc == 0 && subscr == 0 ==> r == Err::<SrSubscrId, i32>(SrError::Internal.spec_code())
        && calls == handler_plan(handler))
    &&& (rc == 0 && subscr != 0 && !pre.holds_registrations() ==> r == Err::<SrSubscrId, i32>(
        SrError::InvalArg.spec_code(),
    ) && calls == reg_plan((subscr, handler_seq(handler))))
}

/// What taking the registration `id` out of a session does.
pub open spec fn unsubscribe_outcome(pre: SrSession, post: SrSession, id: u64, calls: Seq<EngineCall>) -> bool {
    &&& post.wf()
    &&& calls == removal_plan(pre.registrations(), id)
    &&& post.registrations() == without_subscr(pre.registrations(), id)
    &&& post.handle() == pre.handle()
    &&& post.is_owned() == pre.is_owned()
}

/// A session handle, the flag that says whether this wrapper controls the
/// session's teardown, and the subscriptions registered through it.
pub struct SrSession {
    sess: u64,
    owned: bool,
    subscrs: Vec<SrSubscr>,
}

impl SrSession {
    /// No subscription handle is registered twice, none is zero, and only an
    /// owning wrapper around a live session holds registrations: a borrowed
    /// view never drains anything.
    pub open spec fn wf(self) -> bool {
        &&& unique_ids(subscr_ids(self.registrations()))
        &&& forall|k: int| 0 <= k < self.registrations().len() ==> (#[trigger] self.registrations()[k]).0 != 0
        &&& !self.holds_registrations() ==> self.registrations().len() == 0
    }

    /// Whether this wrapper may hold registrations: it owns a live session.
    pub open spec fn holds_registrations(self) -> bool {
        self.is_owned() && self.handle() != 0
    }

    pub closed spec fn handle(self) -> u64 {
        self.sess
    }

    pub closed spec fn is_owned(self) -> bool {
        self.owned
    }

    pub closed spec fn registrations(self) -> Seq<RegView> {
        self.subscrs@.map_values(|s: SrSubscr| s@)
    }

    /// Releasing a session releases every registration it holds, and then,
    /// only where this wrapper owns a live session, stops it.
    pub open spec fn release_plan(self) -> Seq<EngineCall> {
        let stop = if self.holds_registrations() {
            seq![EngineCall::SessionStop(self.handle())]
        } else {
            Seq::<EngineCall>::empty()
        };
        subscr_plans(self.registrations()) + stop
    }

    /// An owning wrapper around no session yet.
    pub fn new() -> (r: Self)
        ensures
            r.wf(),
            r.handle() == 0,
            r.is_owned(),
            r.registrations() == Seq::<RegView>::empty(),
    {
        let r = Self { sess: 0, owned: true, subscrs: Vec::new() };
        proof {
            assert(r.registrations() =~= Seq::<RegView>::empty());
        }
        r
    }

    /// Wraps a session handle; `owned` is false for a session the engine
    /// lends to a callback.
    pub fn from(sess: u64, owned: bool) -> (r: Self)
        ensures
            r.wf(),
            r.handle() == sess,
            r.is_owned() == owned,
            r.registrations() == Seq::<RegView>::empty(),
    {
        let r = Self { sess: sess, owned: owned, subscrs: Vec::new() };
        proof {
            assert(r.registrations() =~= Seq::<RegView>::empty());
        }
        r
    }

    /// A borrowed view of the same session: it never tears the session down.
    pub fn clone(&self) -> (r: Self)
        ensures
            r.wf(),
            r.handle() == self.handle(),
            !r.is_owned(),
            r.registrations() == Seq::<RegView>::empty(),
    {
        let r = Self { sess: self.sess, owned: false, subscrs: Vec::new() };
        proof {
            assert(r.registrations() =~= Seq::<RegView>::empty());
        }
        r
    }

    pub fn get_ctx(&self) -> (r: u64)
        ensures
            r == self.handle(),
    {
        self.sess
    }

    /// Whether the session's registrations include handle `id`.
    pub fn has_subscription(&self, id: SrSubscrId) -> (r: bool)
        requires
            self.wf(),
        ensures
            r == (position_of(subscr_ids(self.registrations()), id) >= 0),
    {
        self.find(id).is_some()
    }

    /// Where the registration with handle `id` stands, if anywhere.
    fn find(&self, id: u64) -> (r: Option<usize>)
        requires
            self.wf(),
        ensures
            r is None <==> position_of(subscr_ids(self.registrations()), id) < 0,
            r matches Some(k) ==> k == position_of(subscr_ids(self.registrations()), id),
            r matches Some(k) ==> k < self.registrations().len()
                && self.registrations()[k as int].0 == id,
    {
        let mut i: usize = 0;
        while i < self.subscrs.len()
            invariant
                self.wf(),
                i <= self.subscrs@.len(),
                forall|j: int| 0 <= j < i ==> self.subscrs@[j]@.0 != id,
            decreases self.subscrs@.len() - i,
        {
            if self.subscrs[i].id() == id {
                proof {
                    lemma_position_of(subscr_ids(self.registrations()), id);
                    assert(subscr_ids(self.registrations())[i as int] == id);
                }
                return Some(i);
            }
            i = i + 1;
        }
        proof {
            lemma_position_of(subscr_ids(self.registrations()), id);
            let ids = subscr_ids(self.registrations());
            if position_of(ids, id) >= 0 {
                assert(ids[position_of(ids, id)] == id);
            }
        }
        None
    }

    /// Registers a subscription. Where its handle is already registered, its
    /// handlers join that registration. A session that may not hold
    /// registrations (a borrowed view, or no live session), or a
    /// subscription without a handle, is refused: the table is unchanged and
    /// the returned calls release the subscription.
    pub fn insert_subscription(&mut self, subscr: SrSubscr) -> (r: (SrSubscrId, Vec<EngineCall>))
        requires
            old(self).wf(),
        ensures
            final(self).wf(),
            final(self).handle() == old(self).handle(),
            final(self).is_owned() == old(self).is_owned(),
            r.0 == subscr@.0,
            old(self).holds_registrations() && subscr@.0 != 0 ==> r.1@.len() == 0
                && final(self).registrations() == with_subscr(old(self).registrations(), subscr@),
            !(old(self).holds_registrations() && subscr@.0 != 0) ==> r.1@ == subscr.release_plan()
                && final(self).registrations() == old(self).registrations(),
    {
        let id = subscr.id();
        if !(self.owned && self.sess != 0) || id == 0 {
            return (id, subscr.release());
        }
        let ghost regs = self.registrations();
        let ghost sv = subscr@;
        match self.find(id) {
            Some(k) => {
                let e = self.subscrs.remove(k);
                let merged = e.absorb(subscr);
                self.subscrs.insert(k, merged);
                proof {
                    assert(self.registrations() =~= regs.update(k as int, (id, regs[k as int].1 + sv.1)));
                    assert(subscr_ids(self.registrations()) =~= subscr_ids(regs));
                    assert forall|j: int| 0 <= j < self.registrations().len() implies
                        (#[trigger] self.registrations()[j]).0 != 0 by {
                        assert(self.registrations()[j].0 == regs[j].0);
                    }
                }
            },
            None => {
                self.subscrs.push(subscr);
                proof {
                    lemma_position_of(subscr_ids(regs), id);
                    assert(self.registrations() =~= regs.push(sv));
                    assert(subscr_ids(regs.push(sv)) =~= subscr_ids(regs).push(id));
                }
            },
        }
        (id, Vec::new())
    }

    /// Takes the registration with handle `id` out of the table; the returned
    /// calls release it. Nothing happens where no registration has that handle.
    pub fn remove_subscription(&mut self, id: SrSubscrId) -> (r: Vec<EngineCall>)
        requires
            old(self).wf(),
        ensures
            unsubscribe_outcome(*old(self), *final(self), id, r@),
    {
        let ghost regs = self.registrations();
        match self.find(id) {
            Some(k) => {
                let removed = self.subscrs.remove(k);
                proof {
                    let ids = subscr_ids(regs);
                    assert(self.registrations() =~= regs.remove(k as int));
                    assert(subscr_ids(self.registrations()) =~= ids.remove(k as int));
                    assert forall|i: int, j: int|
                        0 <= i < ids.len() - 1 && 0 <= j < ids.len() - 1 && i != j implies
                        ids.remove(k as int)[i] != ids.remove(k as int)[j] by {
                        let i2 = if i < k { i } else { i + 1 };
                        let j2 = if j < k { j } else { j + 1 };
                        assert(ids.remove(k as int)[i] == ids[i2]);
                        assert(ids.remove(k as int)[j] == ids[j2]);
                    }
                    assert forall|j: int| 0 <= j < self.registrations().len() implies
                        (#[trigger] self.registrations()[j]).0 != 0 by {
                        let j2 = if j < k { j } else { j + 1 };
                        assert(self.registrations()[j] == regs[j2]);
                    }
                }
                removed.release()
            },
            None => Vec::new(),
        }
    }

    /// Takes the outcome of the engine's subscribe call for a handler boxed
    /// as `handler`, as `subscribe_outcome` describes.
    pub fn subscribed(&mut self, rc: i32, subscr: u64, handler: u64) -> (r: (
        Result<SrSubscrId, i32>,
        Vec<EngineCall>,
    ))
        requires
            old(self).wf(),
        ensures
            subscribe_outcome(*old(self), *final(self), rc, subscr, handler, r.0, r.1@),
    {
        if rc != 0 || subscr == 0 {
            let mut calls: Vec<EngineCall> = Vec::new();
            if handler != 0 {
                calls.push(EngineCall::DropHandler(handler));
            }
            proof {
                assert(calls@ =~= handler_plan(handler));
            }
            let code = if rc != 0 { rc } else { SrError::Internal.code() };
            return (Err(code), calls);
        }
        let accepted = self.owned && self.sess != 0;
        let s = SrSubscr::with_handler(subscr, handler);
        let (id, calls) = self.insert_subscription(s);
        if accepted {
            (Ok(id), calls)
        } else {
            (Err(SrError::InvalArg.code()), calls)
        }
    }

    /// Takes the outcome of a read that hands back a value array (items read
    /// by path, or the output of an RPC): on the success code the array,
    /// always owned by the caller, otherwise the code itself.
    pub fn items_result(rc: i32, values: u64, entries: Vec<SrVal>) -> (r: Result<SrValueSlice, i32>)
        ensures
            r is Ok <==> rc == 0,
            r matches Ok(s) ==> s.handle() == values && s.contents() == entries@
                && s.spec_len() == entries@.len() && s.is_owned(),
            r matches Err(e) ==> e == rc,
    {
        if rc == 0 {
            Ok(SrValueSlice::from(values, entries, true))
        } else {
            Err(rc)
        }
    }

    /// Releases the session, consuming the wrapper: every registration is
    /// released first, then an owned, live session is stopped. The returned
    /// calls are exactly the release plan; for a borrowed view there are none.
    pub fn release(self) -> (r: Vec<EngineCall>)
        requires
            self.wf(),
        ensures
            r@ == self.release_plan(),
    {
        let ghost regs = self.registrations();
        let mut calls = release_subscrs(self.subscrs);
        if self.owned && self.sess != 0 {
            calls.push(EngineCall::SessionStop(self.sess));
        }
        proof {
            assert(calls@ =~= self.release_plan());
        }
        calls
    }
}

/// Releases a table of registrations front to back.
fn release_subscrs(subscrs: Vec<SrSubscr>) -> (r: Vec<EngineCall>)
    ensures
        r@ == subscr_plans(subscrs@.map_values(|s: SrSubscr| s@)),
{
    let ghost all = subscrs@;
    let ghost views = all.map_values(|s: SrSubscr| s@);
    let mut rest = subscrs;
    let mut calls: Vec<EngineCall> = Vec::new();
    proof {
        assert(views.subrange(0, 0) =~= Seq::<RegView>::empty());
        assert(rest@ =~= all.subrange(0, all.len() as int));
    }
    while rest.len() > 0
        invariant
            views == all.map_values(|s: SrSubscr| s@),
            rest@.len() <= all.len(),
            rest@ == all.subrange(all.len() - rest@.len(), all.len() as int),
            calls@ == subscr_plans(views.subrange(0, all.len() - rest@.len())),
        decreases rest@.len(),
    {
        let ghost n = all.len() - rest@.len();
        let s = rest.remove(0);
        proof {
            assert(s == all[n]);
        }
        let mut more = s.release();
        calls.append(&mut more);
        proof {
            assert(views.subrange(0, n + 1).drop_last() =~= views.subrange(0, n));
            assert(views.subrange(0, n + 1).last() == all[n]@);
            assert(rest@ =~= all.subrange(all.len() - rest@.len(), all.len() as int));
        }
    }
    proof {
        assert(views.subrange(0, all.len() as int) =~= views);
    }
    calls
}

/// The engine's timeout in milliseconds: zero, the engine's default, where
/// none is given, and the longest the engine takes where the one given is
/// longer.
pub fn timeout_ms(timeout_millis: Option<u128>) -> (r: u32)
    ensures
        timeout_millis is None ==> r == 0,
        timeout_millis matches Some(m) ==> r == (if m > u32::MAX as u128 { u32::MAX } else { m as u32 }),
{
    match timeout_millis {
        None => 0,
        Some(m) => if m > u32::MAX as u128 { u32::MAX } else { m as u32 },
    }
}

} // verus!
