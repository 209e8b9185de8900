//! What the dispatch trampolines hand back to the engine.
use vstd::prelude::*;

use crate::tree::LydNode;
use crate::types::SrError;
use crate::value::SrValueSlice;

verus! {

/// The engine's return code for a handler's result: success, or the error
/// the handler gave, unchanged; a handler deferring with `CallbackShelve`
/// stays distinct from one failing with `CallbackFailed`.
pub fn handler_code(result: Result<(), SrError>) -> (r: i32)
    ensures
        result is Ok ==> r == SrError::Success.spec_code(),
        result matches Err(e) ==> r == e.spec_code(),
{
    match result {
        Ok(()) => SrError::Success.code(),
        Err(e) => e.code(),
    }
}

/// The reply of an RPC handler. An output array goes to the engine as its
/// handle and length, whose release passes to the engine, with the success
/// code; no release call of this library's remains for it. A handler error
/// hands over no array and gives its code.
pub fn rpc_output(output: Result<SrValueSlice, SrError>) -> (r: (u64, u64, i32))
    ensures
        output matches Ok(s) ==> r == (s.handle(), s.spec_len(), SrError::Success.spec_code()),
        output matches Err(e) ==> r == (0u64, 0u64, e.spec_code()),
{
    match output {
        Ok(s) => {
            let (values, count) = s.into_raw();
            (values, count, SrError::Success.code())
        },
        Err(e) => (0, 0, e.code()),
    }
}

/// The reply of an operational-data handler: the node it supplied goes to
/// the engine in place of `parent`; where it declined or failed, `parent`
/// stays. The code is the handler's error, or success.
pub fn oper_get_output(node: Result<Option<LydNode>, SrError>, parent: u64) -> (r: (u64, i32))
    ensures
        node matches Ok(Some(n)) ==> r == (n.handle(), SrError::Success.spec_code()),
        node matches Ok(None) ==> r == (parent, SrError::Success.spec_code()),
        node matches Err(e) ==> r == (parent, e.spec_code()),
{
    match node {
        Ok(Some(n)) => (n.get_node(), SrError::Success.code()),
        Ok(None) => (parent, SrError::Success.code()),
        Err(e) => (parent, e.code()),
    }
}

} // verus!
