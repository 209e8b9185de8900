//! Schema contexts, data-tree nodes and anydata values.
use vstd::prelude::*;

use crate::plan::EngineCall;
use crate::types::{LydAnyDataValueType, SrError};

verus! {

/// A borrowed handle to the schema model; never released by this library.
pub struct LibYangCtx {
    ly_ctx: u64,
}

impl LibYangCtx {
    pub closed spec fn handle(self) -> u64 {
        self.ly_ctx
    }

    pub fn from(ly_ctx: u64) -> (r: Self)
        ensures
            r.handle() == ly_ctx,
    {
        Self { ly_ctx: ly_ctx }
    }

    pub fn get_ctx(&self) -> (r: u64)
        ensures
            r == self.handle(),
    {
        self.ly_ctx
    }
}

/// A node of a data tree; zero stands for no node. Each release consumes the
/// wrapper, so a node is released at most once through it.
pub struct LydNode {
    node: u64,
}

impl LydNode {
    pub closed spec fn handle(self) -> u64 {
        self.node
    }

    /// The single call `call` on this node, or nothing where there is no node.
    pub open spec fn release_with(self, call: EngineCall) -> Seq<EngineCall> {
        if self.handle() == 0 {
            Seq::empty()
        } else {
            seq![call]
        }
    }

    pub fn from(node: u64) -> (r: Self)
        ensures
            r.handle() == node,
    {
        Self { node: node }
    }

    pub fn get_node(&self) -> (r: u64)
        ensures
            r == self.handle(),
    {
        self.node
    }

    fn release_by(self, call: EngineCall) -> (r: Vec<EngineCall>)
        ensures
            r@ == self.release_with(call),
    {
        let mut calls: Vec<EngineCall> = Vec::new();
        if self.node != 0 {
            calls.push(call);
        }
        proof {
            assert(calls@ =~= self.release_with(call));
        }
        calls
    }

    /// Releases the whole tree that holds this node.
    pub fn free_all(self) -> (r: Vec<EngineCall>)
        ensures
            r@ == self.release_with(EngineCall::FreeAll(self.handle())),
    {
        let n = self.node;
        self.release_by(EngineCall::FreeAll(n))
    }

    /// Releases this node and the siblings that follow it.
    pub fn free_siblings(self) -> (r: Vec<EngineCall>)
        ensures
            r@ == self.release_with(EngineCall::FreeSiblings(self.handle())),
    {
        let n = self.node;
        self.release_by(EngineCall::FreeSiblings(n))
    }

    /// Releases the subtree rooted at this node.
    pub fn free_tree(self) -> (r: Vec<EngineCall>)
        ensures
            r@ == self.release_with(EngineCall::FreeTree(self.handle())),
    {
        let n = self.node;
        self.release_by(EngineCall::FreeTree(n))
    }
}

/// Content for an anydata or anyxml node, tagged with how to read it.
pub struct LydValue {
    value_type: LydAnyDataValueType,
    value: String,
}

impl LydValue {
    pub closed spec fn spec_type(self) -> LydAnyDataValueType {
        self.value_type
    }

    pub closed spec fn spec_value(self) -> Seq<char> {
        self.value@
    }

    /// Plain string content.
    pub fn from_string(s: String) -> (r: Self)
        ensures
            r.spec_type() == LydAnyDataValueType::String,
            r.spec_value() == s@,
    {
        Self { value_type: LydAnyDataValueType::String, value: s }
    }

    pub fn get_value(&self) -> (r: &str)
        ensures
            r@ == self.spec_value(),
    {
        self.value.as_str()
    }

    pub fn get_type(&self) -> (r: LydAnyDataValueType)
        ensures
            r == self.spec_type(),
    {
        self.value_type
    }
}

/// Where a node created by path goes: under an existing parent, or as a new
/// root within a schema context.
#[derive(Clone, Copy, Debug, PartialEq, Eq, Structural)]
pub enum NewPathTarget {
    Parent(u64),
    Context(u64),
}

/// Node creation by path.
pub struct LibYang {}

impl LibYang {
    /// Checks where a node created by path goes. Exactly one of `parent` and
    /// `ly_ctx` must be given; with both or neither the request fails with the
    /// invalid-argument code, before anything is created.
    pub fn new_path_target(parent: Option<&LydNode>, ly_ctx: Option<&LibYangCtx>) -> (r: Result<
        NewPathTarget,
        i32,
    >)
        ensures
            r is Ok <==> (parent is Some) != (ly_ctx is Some),
            r matches Err(e) ==> e == SrError::InvalArg.spec_code(),
            r matches Ok(NewPathTarget::Parent(p)) ==> parent matches Some(n) && p == n.handle(),
            r matches Ok(NewPathTarget::Context(c)) ==> ly_ctx matches Some(x) && c == x.handle(),
    {
        match (parent, ly_ctx) {
            (Some(p), None) => Ok(NewPathTarget::Parent(p.get_node())),
            (None, Some(c)) => Ok(NewPathTarget::Context(c.get_ctx())),
            _ => Err(SrError::InvalArg.code()),
        }
    }

    /// Takes the outcome of the tree engine's create-by-path call: the new
    /// node on the success code, the code itself otherwise.
    pub fn new_path_result(rc: i32, node: u64) -> (r: Result<LydNode, i32>)
        ensures
            r is Ok <==> rc == 0,
            r matches Ok(n) ==> n.handle() == node,
            r matches Err(e) ==> e == rc,
    {
        if rc == 0 {
            Ok(LydNode::from(node))
        } else {
            Err(rc)
        }
    }
}

} // verus!
