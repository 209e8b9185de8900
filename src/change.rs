//! The cursor over a computed diff.
use vstd::prelude::*;

use crate::plan::EngineCall;
use crate::session::SrSession;
use crate::types::SrChangeOper;
use crate::value::SrValue;

verus! {

/// An engine change iterator; zero stands for none.
pub struct SrChangeIter {
    iter: u64,
}

impl SrChangeIter {
    pub closed spec fn handle(self) -> u64 {
        self.iter
    }

    /// Releasing an iterator is one release call; an absent one needs none.
    pub open spec fn release_plan(self) -> Seq<EngineCall> {
        if self.handle() == 0 {
            Seq::empty()
        } else {
            seq![EngineCall::FreeChangeIter(self.handle())]
        }
    }

    pub fn from(iter: u64) -> (r: Self)
        ensures
            r.handle() == iter,
    {
        Self { iter: iter }
    }

    pub fn iter(&self) -> (r: u64)
        ensures
            r == self.handle(),
    {
        self.iter
    }

    /// Releases the iterator, consuming it, so that it is released once.
    pub fn release(self) -> (r: Vec<EngineCall>)
        ensures
            r@ == self.release_plan(),
    {
        let mut calls: Vec<EngineCall> = Vec::new();
        if self.iter != 0 {
            calls.push(EngineCall::FreeChangeIter(self.iter));
        }
        proof {
            assert(calls@ =~= self.release_plan());
        }
        calls
    }
}

impl SrSession {
    /// Takes the outcome of one step of the engine's change iterator: its
    /// return code, the operation code, and the old and new value handles
    /// (zero where the engine gave none). On the success code with a known
    /// operation the step yields the operation and both values; otherwise the
    /// iterator is exhausted.
    pub fn get_change_next(rc: i32, oper: u32, old_value: u64, new_value: u64) -> (r: Option<
        (SrChangeOper, SrValue, SrValue),
    >)
        ensures
            r is Some <==> rc == 0 && SrChangeOper::spec_from_code(oper) is Some,
            r matches Some(t) ==> Some(t.0) == SrChangeOper::spec_from_code(oper)
                && t.1.handle() == old_value && t.2.handle() == new_value,
    {
        if rc != 0 {
            return None;
        }
        match SrChangeOper::try_from(oper) {
            Some(op) => Some((op, SrValue::from(old_value), SrValue::from(new_value))),
            None => None,
        }
    }
}

} // verus!
