//! Typed values and value arrays, with the ownership flag that decides how
//! they are released.
use vstd::prelude::*;

use crate::plan::EngineCall;
use crate::types::SrType;

verus! {

/// Payload of a value, tagged by the kind of data it carries.
#[derive(Debug)]
pub enum SrData {
    /// No payload: lists, containers, empty leaves, notifications.
    Empty,
    Bool(bool),
    /// Any signed integer type.
    Int(i64),
    /// Any unsigned integer type.
    UInt(u64),
    /// Text forms: strings, binary, bits, enums, identities, instance
    /// identifiers, decimal64 in its canonical text, anyxml and anydata.
    Text(String),
}

/// Content of one value: its path, type tag, default flag and payload.
#[derive(Debug)]
pub struct SrVal {
    pub xpath: String,
    pub type_: SrType,
    /// Whether the value is the schema default rather than one set explicitly.
    pub dflt: bool,
    pub data: SrData,
}

impl SrVal {
    /// A slot of a fresh array that nothing has been written to.
    pub open spec fn is_unset(self) -> bool {
        &&& self.xpath@ == Seq::<char>::empty()
        &&& self.type_ == SrType::Unknown
        &&& !self.dflt
        &&& self.data is Empty
    }

    pub fn unset() -> (r: SrVal)
        ensures
            r.is_unset(),
    {
        SrVal { xpath: String::new(), type_: SrType::Unknown, dflt: false, data: SrData::Empty }
    }
}

/// A single engine-allocated value, owned by this wrapper. The handle is the
/// engine's identity of the value; zero stands for no value.
pub struct SrValue {
    value: u64,
}

impl SrValue {
    pub closed spec fn handle(self) -> u64 {
        self.value
    }

    /// The calls that releasing this value takes: one release of the value
    /// itself, or none where there is no value.
    pub open spec fn release_plan(self) -> Seq<EngineCall> {
        if self.handle() == 0 {
            Seq::empty()
        } else {
            seq![EngineCall::FreeVal(self.handle())]
        }
    }

    pub fn from(value: u64) -> (r: Self)
        ensures
            r.handle() == value,
    {
        Self { value: value }
    }

    pub fn value(&self) -> (r: u64)
        ensures
            r == self.handle(),
    {
        self.value
    }

    /// Whether there is a value behind this wrapper.
    pub fn is_present(&self) -> (r: bool)
        ensures
            r == (self.handle() != 0),
    {
        self.value != 0
    }

    /// Releases the value, consuming the wrapper: the returned calls are
    /// exactly its release plan.
    pub fn release(self) -> (r: Vec<EngineCall>)
        ensures
            r@ == self.release_plan(),
    {
        let mut calls: Vec<EngineCall> = Vec::new();
        if self.value != 0 {
            calls.push(EngineCall::FreeVal(self.value));
        }
        proof {
            assert(calls@ =~= self.release_plan());
        }
        calls
    }
}

/// A fixed-length array of values. `values` is the engine's identity of the
/// array, `entries` its content, and `owned` decides whether releasing this
/// wrapper releases the array.
pub struct SrValueSlice {
    values: u64,
    entries: Vec<SrVal>,
    len: u64,
    owned: bool,
}

impl SrValueSlice {
    #[verifier::type_invariant]
    spec fn wf(self) -> bool {
        self.entries@.len() == self.len
    }

    pub closed spec fn handle(self) -> u64 {
        self.values
    }

    pub closed spec fn contents(self) -> Seq<SrVal> {
        self.entries@
    }

    pub closed spec fn spec_len(self) -> u64 {
        self.len
    }

    pub closed spec fn is_owned(self) -> bool {
        self.owned
    }

    /// The calls that releasing this array takes: one bulk release of the
    /// whole array where it is owned, and nothing at all where it is not.
    pub open spec fn release_plan(self) -> Seq<EngineCall> {
        if self.is_owned() {
            seq![EngineCall::FreeValues(self.handle(), self.spec_len())]
        } else {
            Seq::empty()
        }
    }

    /// A fresh array of `capacity` unset slots, over the block that the
    /// engine's allocator handed out as `values`.
    pub fn new(values: u64, capacity: u64, owned: bool) -> (r: Self)
        requires
            capacity <= usize::MAX,
        ensures
            r.handle() == values,
            r.spec_len() == capacity,
            r.is_owned() == owned,
            forall|i: int| 0 <= i < capacity ==> (#[trigger] r.contents()[i]).is_unset(),
    {
        let mut entries: Vec<SrVal> = Vec::new();
        let mut i: u64 = 0;
        while i < capacity
            invariant
                i <= capacity,
                entries@.len() == i,
                forall|j: int| 0 <= j < i ==> (#[trigger] entries@[j]).is_unset(),
            decreases capacity - i,
        {
            entries.push(SrVal::unset());
            i = i + 1;
        }
        Self { values: values, entries: entries, len: capacity, owned: owned }
    }

    /// A view over an array that already holds `entries`, such as one the
    /// engine handed over; `owned` says whether this wrapper releases it.
    pub fn from(values: u64, entries: Vec<SrVal>, owned: bool) -> (r: Self)
        ensures
            r.handle() == values,
            r.contents() == entries@,
            r.spec_len() == entries@.len(),
            r.is_owned() == owned,
    {
        let len = entries.len() as u64;
        Self { values: values, entries: entries, len: len, owned: owned }
    }

    /// Mutable access to one entry.
    pub fn at_mut(&mut self, index: usize) -> (r: &mut SrVal)
        requires
            index < old(self).spec_len(),
        ensures
            old(self).contents().len() == old(self).spec_len(),
            *r == old(self).contents()[index as int],
            final(self).contents() == old(self).contents().update(index as int, *final(r)),
            final(self).handle() == old(self).handle(),
            final(self).spec_len() == old(self).spec_len(),
            final(self).is_owned() == old(self).is_owned(),
    {
        proof {
            use_type_invariant(&*self);
        }
        &mut self.entries[index]
    }

    /// The entries, read-only; ownership stays with this wrapper.
    pub fn as_slice(&self) -> (r: &[SrVal])
        ensures
            r@ == self.contents(),
            r@.len() == self.spec_len(),
    {
        proof {
            use_type_invariant(self);
        }
        self.entries.as_slice()
    }

    pub fn as_ptr(&self) -> (r: u64)
        ensures
            r == self.handle(),
    {
        self.values
    }

    pub fn len(&self) -> (r: u64)
        ensures
            r == self.spec_len(),
    {
        self.len
    }

    /// Makes this wrapper responsible for releasing the array.
    pub fn set_owned(&mut self)
        ensures
            final(self).is_owned(),
            final(self).handle() == old(self).handle(),
            final(self).contents() == old(self).contents(),
            final(self).spec_len() == old(self).spec_len(),
    {
        proof {
            use_type_invariant(&*self);
        }
        self.owned = true;
    }

    /// Writes a 64-bit integer value into one entry, with its path and
    /// default flag.
    pub fn set_int64_value(&mut self, index: usize, dflt: bool, xpath: &str, value: i64)
        requires
            index < old(self).spec_len(),
        ensures
            old(self).contents().len() == old(self).spec_len(),
            final(self).contents() == old(self).contents().update(
                index as int,
                final(self).contents()[index as int],
            ),
            final(self).contents()[index as int].xpath@ == xpath@,
            final(self).contents()[index as int].type_ == SrType::Int64,
            final(self).contents()[index as int].dflt == dflt,
            final(self).contents()[index as int].data == SrData::Int(value),
            final(self).handle() == old(self).handle(),
            final(self).spec_len() == old(self).spec_len(),
            final(self).is_owned() == old(self).is_owned(),
    {
        let val = self.at_mut(index);
        *val = SrVal { xpath: xpath.to_owned(), type_: SrType::Int64, dflt: dflt, data: SrData::Int(value) };
    }

    /// Releases the array, consuming the wrapper: the returned calls are
    /// exactly its release plan, never one call per entry.
    pub fn release(self) -> (r: Vec<EngineCall>)
        ensures
            r@ == self.release_plan(),
    {
        let mut calls: Vec<EngineCall> = Vec::new();
        if self.owned {
            calls.push(EngineCall::FreeValues(self.values, self.len));
        }
        proof {
            assert(calls@ =~= self.release_plan());
        }
        calls
    }

    /// Hands the array over to the engine, which from then on is the one to
    /// release it: returns its handle and length, and no release call.
    pub fn into_raw(self) -> (r: (u64, u64))
        ensures
            r == (self.handle(), self.spec_len()),
    {
        (self.values, self.len)
    }
}

} // verus!
