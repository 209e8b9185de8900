//! The native calls this library asks its host to issue, in order.
use vstd::prelude::*;

verus! {

/// One call into the engine. Every release decision of this library is a
/// sequence of these, to be issued in the order given.
#[derive(Clone, Copy, Debug, PartialEq, Eq, Structural)]
pub enum EngineCall {
    /// Release one engine-allocated value.
    FreeVal(u64),
    /// Release a whole value array: the array's handle and its length.
    FreeValues(u64, u64),
    /// Cancel a dispatch registration; returns once no dispatch through it is in flight.
    Unsubscribe(u64),
    /// Free the boxed handler that a registration dispatched to.
    DropHandler(u64),
    /// Stop a session.
    SessionStop(u64),
    /// Sever a connection.
    Disconnect(u64),
    /// Release a change iterator.
    FreeChangeIter(u64),
    /// Release the whole data tree that holds a node.
    FreeAll(u64),
    /// Release a node and the siblings that follow it.
    FreeSiblings(u64),
    /// Release the subtree rooted at a node.
    FreeTree(u64),
}

impl EngineCall {
    /// Whether this call stops a session.
    pub open spec fn is_session_stop(self) -> bool {
        self is SessionStop
    }

    /// Whether this call severs a connection.
    pub open spec fn is_disconnect(self) -> bool {
        self is Disconnect
    }
}

} // verus!
