//! The closed enumerations shared with the engine, with their wire codes.
use vstd::prelude::*;

verus! {

/// Error codes of the engine.
#[derive(Clone, Copy, Debug, PartialEq, Eq, Structural)]
pub enum SrError {
    Success,
    InvalArg,
    Ly,
    Sys,
    NoMemory,
    NotFound,
    Exists,
    Internal,
    Unsupported,
    ValidationFailed,
    OperationFailed,
    Unauthorized,
    Locked,
    TimeOut,
    CallbackFailed,
    CallbackShelve,
}

impl SrError {
    pub open spec fn spec_code(self) -> i32 {
        match self {
            SrError::Success => 0,
            SrError::InvalArg => 1,
            SrError::Ly => 2,
            SrError::Sys => 3,
            SrError::NoMemory => 4,
            SrError::NotFound => 5,
            SrError::Exists => 6,
            SrError::Internal => 7,
            SrError::Unsupported => 8,
            SrError::ValidationFailed => 9,
            SrError::OperationFailed => 10,
            SrError::Unauthorized => 11,
            SrError::Locked => 12,
            SrError::TimeOut => 13,
            SrError::CallbackFailed => 14,
            SrError::CallbackShelve => 15,
        }
    }

    /// The engine's integer code of this error.
    pub fn code(&self) -> (r: i32)
        ensures
            r == self.spec_code(),
    {
        match self {
            SrError::Success => 0,
            SrError::InvalArg => 1,
            SrError::Ly => 2,
            SrError::Sys => 3,
            SrError::NoMemory => 4,
            SrError::NotFound => 5,
            SrError::Exists => 6,
            SrError::Internal => 7,
            SrError::Unsupported => 8,
            SrError::ValidationFailed => 9,
            SrError::OperationFailed => 10,
            SrError::Unauthorized => 11,
            SrError::Locked => 12,
            SrError::TimeOut => 13,
            SrError::CallbackFailed => 14,
            SrError::CallbackShelve => 15,
        }
    }

    pub open spec fn spec_from_code(c: i32) -> Option<SrError> {
        if c == 0 { Some(SrError::Success) }
        else if c == 1 { Some(SrError::InvalArg) }
        else if c == 2 { Some(SrError::Ly) }
        else if c == 3 { Some(SrError::Sys) }
        else if c == 4 { Some(SrError::NoMemory) }
        else if c == 5 { Some(SrError::NotFound) }
        else if c == 6 { Some(SrError::Exists) }
        else if c == 7 { Some(SrError::Internal) }
        else if c == 8 { Some(SrError::Unsupported) }
        else if c == 9 { Some(SrError::ValidationFailed) }
        else if c == 10 { Some(SrError::OperationFailed) }
        else if c == 11 { Some(SrError::Unauthorized) }
        else if c == 12 { Some(SrError::Locked) }
        else if c == 13 { Some(SrError::TimeOut) }
        else if c == 14 { Some(SrError::CallbackFailed) }
        else if c == 15 { Some(SrError::CallbackShelve) }
        else { None }
    }

    /// Translates an engine return code; `None` for a code outside the taxonomy.
    pub fn from_code(c: i32) -> (r: Option<SrError>)
        ensures
            r == Self::spec_from_code(c),
            r matches Some(e) ==> e.spec_code() == c,
    {
        if c == 0 { Some(SrError::Success) }
        else if c == 1 { Some(SrError::InvalArg) }
        else if c == 2 { Some(SrError::Ly) }
        else if c == 3 { Some(SrError::Sys) }
        else if c == 4 { Some(SrError::NoMemory) }
        else if c == 5 { Some(SrError::NotFound) }
        else if c == 6 { Some(SrError::Exists) }
        else if c == 7 { Some(SrError::Internal) }
        else if c == 8 { Some(SrError::Unsupported) }
        else if c == 9 { Some(SrError::ValidationFailed) }
        else if c == 10 { Some(SrError::OperationFailed) }
        else if c == 11 { Some(SrError::Unauthorized) }
        else if c == 12 { Some(SrError::Locked) }
        else if c == 13 { Some(SrError::TimeOut) }
        else if c == 14 { Some(SrError::CallbackFailed) }
        else if c == 15 { Some(SrError::CallbackShelve) }
        else { None }
    }
}

/// Turns an engine return code into a result: success exactly on the code of
/// `SrError::Success`, otherwise the code itself, unchanged.
pub fn check_rc(rc: i32) -> (r: Result<(), i32>)
    ensures
        rc == SrError::Success.spec_code() <==> r is Ok,
        r matches Err(c) ==> c == rc,
{
    if rc == SrError::Success.code() {
        Ok(())
    } else {
        Err(rc)
    }
}

/// Log level of the engine's own diagnostics.
#[derive(Clone, Copy, Debug, PartialEq, Eq, Structural)]
pub enum SrLogLevel {
    Silent,
    Error,
    Warn,
    Info,
    Debug,
}

impl SrLogLevel {
    pub open spec fn spec_code(self) -> u32 {
        match self {
            SrLogLevel::Silent => 0,
            SrLogLevel::Error => 1,
            SrLogLevel::Warn => 2,
            SrLogLevel::Info => 3,
            SrLogLevel::Debug => 4,
        }
    }

    /// The engine's integer code of this value.
    pub fn code(&self) -> (r: u32)
        ensures
            r == self.spec_code(),
    {
        match self {
            SrLogLevel::Silent => 0,
            SrLogLevel::Error => 1,
            SrLogLevel::Warn => 2,
            SrLogLevel::Info => 3,
            SrLogLevel::Debug => 4,
        }
    }
}

/// Connection option.
#[derive(Clone, Copy, Debug, PartialEq, Eq, Structural)]
pub enum SrConnFlag {
    Default,
    CacheRunning,
}

impl SrConnFlag {
    pub open spec fn spec_code(self) -> u32 {
        match self {
            SrConnFlag::Default => 0,
            SrConnFlag::CacheRunning => 1,
        }
    }

    /// The engine's integer code of this value.
    pub fn code(&self) -> (r: u32)
        ensures
            r == self.spec_code(),
    {
        match self {
            SrConnFlag::Default => 0,
            SrConnFlag::CacheRunning => 1,
        }
    }
}

/// Datastore view a session is bound to.
#[derive(Clone, Copy, Debug, PartialEq, Eq, Structural)]
pub enum SrDatastore {
    Startup,
    Running,
    Candidate,
    Operational,
}

impl SrDatastore {
    pub open spec fn spec_code(self) -> u32 {
        match self {
            SrDatastore::Startup => 0,
            SrDatastore::Running => 1,
            SrDatastore::Candidate => 2,
            SrDatastore::Operational => 3,
        }
    }

    /// The engine's integer code of this value.
    pub fn code(&self) -> (r: u32)
        ensures
            r == self.spec_code(),
    {
        match self {
            SrDatastore::Startup => 0,
            SrDatastore::Running => 1,
            SrDatastore::Candidate => 2,
            SrDatastore::Operational => 3,
        }
    }
}

/// Type tag of a value.
#[derive(Clone, Copy, Debug, PartialEq, Eq, Structural)]
pub enum SrType {
    Unknown,
    List,
    Container,
    ContainerPresence,
    LeafEmpty,
    Notification,
    Binary,
    Bits,
    Bool,
    Decimal64,
    Enum,
    IdentityRef,
    InstanceId,
    Int8,
    Int16,
    Int32,
    Int64,
    String,
    UInt8,
    UInt16,
    UInt32,
    UInt64,
    AnyXml,
    AnyData,
}

impl SrType {
    pub open spec fn spec_code(self) -> u32 {
        match self {
            SrType::Unknown => 0,
            SrType::List => 1,
            SrType::Container => 2,
            SrType::ContainerPresence => 3,
            SrType::LeafEmpty => 4,
            SrType::Notification => 5,
            SrType::Binary => 6,
            SrType::Bits => 7,
            SrType::Bool => 8,
            SrType::Decimal64 => 9,
            SrType::Enum => 10,
            SrType::IdentityRef => 11,
            SrType::InstanceId => 12,
            SrType::Int8 => 13,
            SrType::Int16 => 14,
            SrType::Int32 => 15,
            SrType::Int64 => 16,
            SrType::String => 17,
            SrType::UInt8 => 18,
            SrType::UInt16 => 19,
            SrType::UInt32 => 20,
            SrType::UInt64 => 21,
            SrType::AnyXml => 22,
            SrType::AnyData => 23,
        }
    }

    /// The engine's integer code of this value.
    pub fn code(&self) -> (r: u32)
        ensures
            r == self.spec_code(),
    {
        match self {
            SrType::Unknown => 0,
            SrType::List => 1,
            SrType::Container => 2,
            SrType::ContainerPresence => 3,
            SrType::LeafEmpty => 4,
            SrType::Notification => 5,
            SrType::Binary => 6,
            SrType::Bits => 7,
            SrType::Bool => 8,
            SrType::Decimal64 => 9,
            SrType::Enum => 10,
            SrType::IdentityRef => 11,
            SrType::InstanceId => 12,
            SrType::Int8 => 13,
            SrType::Int16 => 14,
            SrType::Int32 => 15,
            SrType::Int64 => 16,
            SrType::String => 17,
            SrType::UInt8 => 18,
            SrType::UInt16 => 19,
            SrType::UInt32 => 20,
            SrType::UInt64 => 21,
            SrType::AnyXml => 22,
            SrType::AnyData => 23,
        }
    }

    pub open spec fn spec_from_code(t: u32) -> Option<SrType> {
        if t == 0 { Some(SrType::Unknown) }
        else if t == 1 { Some(SrType::List) }
        else if t == 2 { Some(SrType::Container) }
        else if t == 3 { Some(SrType::ContainerPresence) }
        else if t == 4 { Some(SrType::LeafEmpty) }
        else if t == 5 { Some(SrType::Notification) }
        else if t == 6 { Some(SrType::Binary) }
        else if t == 7 { Some(SrType::Bits) }
        else if t == 8 { Some(SrType::Bool) }
        else if t == 9 { Some(SrType::Decimal64) }
        else if t == 10 { Some(SrType::Enum) }
        else if t == 11 { Some(SrType::IdentityRef) }
        else if t == 12 { Some(SrType::InstanceId) }
        else if t == 13 { Some(SrType::Int8) }
        else if t == 14 { Some(SrType::Int16) }
        else if t == 15 { Some(SrType::Int32) }
        else if t == 16 { Some(SrType::Int64) }
        else if t == 17 { Some(SrType::String) }
        else if t == 18 { Some(SrType::UInt8) }
        else if t == 19 { Some(SrType::UInt16) }
        else if t == 20 { Some(SrType::UInt32) }
        else if t == 21 { Some(SrType::UInt64) }
        else if t == 22 { Some(SrType::AnyXml) }
        else if t == 23 { Some(SrType::AnyData) }
        else { None }
    }

    /// Decodes a type tag read from the engine; `None` for a code outside the enumeration.
    pub fn try_from(t: u32) -> (r: Option<SrType>)
        ensures
            r == Self::spec_from_code(t),
            r matches Some(e) ==> e.spec_code() == t,
    {
        if t == 0 { Some(SrType::Unknown) }
        else if t == 1 { Some(SrType::List) }
        else if t == 2 { Some(SrType::Container) }
        else if t == 3 { Some(SrType::ContainerPresence) }
        else if t == 4 { Some(SrType::LeafEmpty) }
        else if t == 5 { Some(SrType::Notification) }
        else if t == 6 { Some(SrType::Binary) }
        else if t == 7 { Some(SrType::Bits) }
        else if t == 8 { Some(SrType::Bool) }
        else if t == 9 { Some(SrType::Decimal64) }
        else if t == 10 { Some(SrType::Enum) }
        else if t == 11 { Some(SrType::IdentityRef) }
        else if t == 12 { Some(SrType::InstanceId) }
        else if t == 13 { Some(SrType::Int8) }
        else if t == 14 { Some(SrType::Int16) }
        else if t == 15 { Some(SrType::Int32) }
        else if t == 16 { Some(SrType::Int64) }
        else if t == 17 { Some(SrType::String) }
        else if t == 18 { Some(SrType::UInt8) }
        else if t == 19 { Some(SrType::UInt16) }
        else if t == 20 { Some(SrType::UInt32) }
        else if t == 21 { Some(SrType::UInt64) }
        else if t == 22 { Some(SrType::AnyXml) }
        else if t == 23 { Some(SrType::AnyData) }
        else { None }
    }
}

/// Option bit of an operational read.
#[derive(Clone, Copy, Debug, PartialEq, Eq, Structural)]
pub enum SrGetOperFlag {
    Default,
    NoState,
    NoConfig,
    NoSubs,
    NoStored,
    WithOrigin,
}

impl SrGetOperFlag {
    pub open spec fn spec_code(self) -> u32 {
        match self {
            SrGetOperFlag::Default => 0,
            SrGetOperFlag::NoState => 1,
            SrGetOperFlag::NoConfig => 2,
            SrGetOperFlag::NoSubs => 4,
            SrGetOperFlag::NoStored => 8,
            SrGetOperFlag::WithOrigin => 16,
        }
    }

    /// The engine's integer code of this value.
    pub fn code(&self) -> (r: u32)
        ensures
            r == self.spec_code(),
    {
        match self {
            SrGetOperFlag::Default => 0,
            SrGetOperFlag::NoState => 1,
            SrGetOperFlag::NoConfig => 2,
            SrGetOperFlag::NoSubs => 4,
            SrGetOperFlag::NoStored => 8,
            SrGetOperFlag::WithOrigin => 16,
        }
    }
}

/// Option bit of an edit.
#[derive(Clone, Copy, Debug, PartialEq, Eq, Structural)]
pub enum SrEditFlag {
    Default,
    NonRecursive,
    Strict,
    Isolate,
}

impl SrEditFlag {
    pub open spec fn spec_code(self) -> u32 {
        match self {
            SrEditFlag::Default => 0,
            SrEditFlag::NonRecursive => 1,
            SrEditFlag::Strict => 2,
            SrEditFlag::Isolate => 4,
        }
    }

    /// The engine's integer code of this value.
    pub fn code(&self) -> (r: u32)
        ensures
            r == self.spec_code(),
    {
        match self {
            SrEditFlag::Default => 0,
            SrEditFlag::NonRecursive => 1,
            SrEditFlag::Strict => 2,
            SrEditFlag::Isolate => 4,
        }
    }
}

/// Where a moved list entry goes.
#[derive(Clone, Copy, Debug, PartialEq, Eq, Structural)]
pub enum SrMovePosition {
    Before,
    After,
    First,
    Last,
}

impl SrMovePosition {
    pub open spec fn spec_code(self) -> u32 {
        match self {
            SrMovePosition::Before => 0,
            SrMovePosition::After => 1,
            SrMovePosition::First => 2,
            SrMovePosition::Last => 3,
        }
    }

    /// The engine's integer code of this value.
    pub fn code(&self) -> (r: u32)
        ensures
            r == self.spec_code(),
    {
        match self {
            SrMovePosition::Before => 0,
            SrMovePosition::After => 1,
            SrMovePosition::First => 2,
            SrMovePosition::Last => 3,
        }
    }
}

/// Option bit of a subscription.
#[derive(Clone, Copy, Debug, PartialEq, Eq, Structural)]
pub enum SrSubcribeFlag {
    Default,
    NoThread,
    Passive,
    DoneOnly,
    Enabled,
    Update,
    OperMerge,
}

impl SrSubcribeFlag {
    pub open spec fn spec_code(self) -> u32 {
        match self {
            SrSubcribeFlag::Default => 0,
            SrSubcribeFlag::NoThread => 1,
            SrSubcribeFlag::Passive => 2,
            SrSubcribeFlag::DoneOnly => 4,
            SrSubcribeFlag::Enabled => 8,
            SrSubcribeFlag::Update => 16,
            SrSubcribeFlag::OperMerge => 32,
        }
    }

    /// The engine's integer code of this value.
    pub fn code(&self) -> (r: u32)
        ensures
            r == self.spec_code(),
    {
        match self {
            SrSubcribeFlag::Default => 0,
            SrSubcribeFlag::NoThread => 1,
            SrSubcribeFlag::Passive => 2,
            SrSubcribeFlag::DoneOnly => 4,
            SrSubcribeFlag::Enabled => 8,
            SrSubcribeFlag::Update => 16,
            SrSubcribeFlag::OperMerge => 32,
        }
    }
}

/// Phase of a commit, or an RPC delivery, as a handler observes it.
#[derive(Clone, Copy, Debug, PartialEq, Eq, Structural)]
pub enum SrEvent {
    Update,
    Change,
    Done,
    Abort,
    Enabled,
    Rpc,
}

impl SrEvent {
    pub open spec fn spec_code(self) -> u32 {
        match self {
            SrEvent::Update => 0,
            SrEvent::Change => 1,
            SrEvent::Done => 2,
            SrEvent::Abort => 3,
            SrEvent::Enabled => 4,
            SrEvent::Rpc => 5,
        }
    }

    /// The engine's integer code of this value.
    pub fn code(&self) -> (r: u32)
        ensures
            r == self.spec_code(),
    {
        match self {
            SrEvent::Update => 0,
            SrEvent::Change => 1,
            SrEvent::Done => 2,
            SrEvent::Abort => 3,
            SrEvent::Enabled => 4,
            SrEvent::Rpc => 5,
        }
    }

    pub open spec fn spec_from_code(t: u32) -> Option<SrEvent> {
        if t == 0 { Some(SrEvent::Update) }
        else if t == 1 { Some(SrEvent::Change) }
        else if t == 2 { Some(SrEvent::Done) }
        else if t == 3 { Some(SrEvent::Abort) }
        else if t == 4 { Some(SrEvent::Enabled) }
        else if t == 5 { Some(SrEvent::Rpc) }
        else { None }
    }

    /// Decodes an event kind handed over by the engine; `None` for a code outside the enumeration.
    pub fn try_from(t: u32) -> (r: Option<SrEvent>)
        ensures
            r == Self::spec_from_code(t),
            r matches Some(e) ==> e.spec_code() == t,
    {
        if t == 0 { Some(SrEvent::Update) }
        else if t == 1 { Some(SrEvent::Change) }
        else if t == 2 { Some(SrEvent::Done) }
        else if t == 3 { Some(SrEvent::Abort) }
        else if t == 4 { Some(SrEvent::Enabled) }
        else if t == 5 { Some(SrEvent::Rpc) }
        else { None }
    }

    pub open spec fn spec_name(self) -> Seq<char> {
        match self {
            SrEvent::Update => "Update"@,
            SrEvent::Change => "Change"@,
            SrEvent::Done => "Done"@,
            SrEvent::Abort => "Abort"@,
            SrEvent::Enabled => "Enabled"@,
            SrEvent::Rpc => "RPC"@,
        }
    }

    /// The display name of this value.
    pub fn as_str(&self) -> (r: &'static str)
        ensures
            r@ == self.spec_name(),
    {
        match self {
            SrEvent::Update => "Update",
            SrEvent::Change => "Change",
            SrEvent::Done => "Done",
            SrEvent::Abort => "Abort",
            SrEvent::Enabled => "Enabled",
            SrEvent::Rpc => "RPC",
        }
    }
}

/// Kind of one entry of a diff.
#[derive(Clone, Copy, Debug, PartialEq, Eq, Structural)]
pub enum SrChangeOper {
    Created,
    Modified,
    Deleted,
    Moved,
}

impl SrChangeOper {
    pub open spec fn spec_code(self) -> u32 {
        match self {
            SrChangeOper::Created => 0,
            SrChangeOper::Modified => 1,
            SrChangeOper::Deleted => 2,
            SrChangeOper::Moved => 3,
        }
    }

    /// The engine's integer code of this value.
    pub fn code(&self) -> (r: u32)
        ensures
            r == self.spec_code(),
    {
        match self {
            SrChangeOper::Created => 0,
            SrChangeOper::Modified => 1,
            SrChangeOper::Deleted => 2,
            SrChangeOper::Moved => 3,
        }
    }

    pub open spec fn spec_from_code(t: u32) -> Option<SrChangeOper> {
        if t == 0 { Some(SrChangeOper::Created) }
        else if t == 1 { Some(SrChangeOper::Modified) }
        else if t == 2 { Some(SrChangeOper::Deleted) }
        else if t == 3 { Some(SrChangeOper::Moved) }
        else { None }
    }

    /// Decodes a change operation handed over by the engine; `None` for a code outside the enumeration.
    pub fn try_from(t: u32) -> (r: Option<SrChangeOper>)
        ensures
            r == Self::spec_from_code(t),
            r matches Some(e) ==> e.spec_code() == t,
    {
        if t == 0 { Some(SrChangeOper::Created) }
        else if t == 1 { Some(SrChangeOper::Modified) }
        else if t == 2 { Some(SrChangeOper::Deleted) }
        else if t == 3 { Some(SrChangeOper::Moved) }
        else { None }
    }

    pub open spec fn spec_name(self) -> Seq<char> {
        match self {
            SrChangeOper::Created => "Created"@,
            SrChangeOper::Modified => "Modified"@,
            SrChangeOper::Deleted => "Deleted"@,
            SrChangeOper::Moved => "Moved"@,
        }
    }

    /// The display name of this value.
    pub fn as_str(&self) -> (r: &'static str)
        ensures
            r@ == self.spec_name(),
    {
        match self {
            SrChangeOper::Created => "Created",
            SrChangeOper::Modified => "Modified",
            SrChangeOper::Deleted => "Deleted",
            SrChangeOper::Moved => "Moved",
        }
    }
}

/// Kind of a delivered notification.
#[derive(Clone, Copy, Debug, PartialEq, Eq, Structural)]
pub enum SrNotifType {
    Realtime,
    Replay,
    ReplayComplete,
    Terminated,
    Modified,
    Suspended,
    Resumed,
}

impl SrNotifType {
    pub open spec fn spec_code(self) -> u32 {
        match self {
            SrNotifType::Realtime => 0,
            SrNotifType::Replay => 1,
            SrNotifType::ReplayComplete => 2,
            SrNotifType::Terminated => 3,
            SrNotifType::Modified => 4,
            SrNotifType::Suspended => 5,
            SrNotifType::Resumed => 6,
        }
    }

    /// The engine's integer code of this value.
    pub fn code(&self) -> (r: u32)
        ensures
            r == self.spec_code(),
    {
        match self {
            SrNotifType::Realtime => 0,
            SrNotifType::Replay => 1,
            SrNotifType::ReplayComplete => 2,
            SrNotifType::Terminated => 3,
            SrNotifType::Modified => 4,
            SrNotifType::Suspended => 5,
            SrNotifType::Resumed => 6,
        }
    }

    pub open spec fn spec_from_code(t: u32) -> Option<SrNotifType> {
        if t == 0 { Some(SrNotifType::Realtime) }
        else if t == 1 { Some(SrNotifType::Replay) }
        else if t == 2 { Some(SrNotifType::ReplayComplete) }
        else if t == 3 { Some(SrNotifType::Terminated) }
        else if t == 4 { Some(SrNotifType::Modified) }
        else if t == 5 { Some(SrNotifType::Suspended) }
        else if t == 6 { Some(SrNotifType::Resumed) }
        else { None }
    }

    /// Decodes a notification kind handed over by the engine; `None` for a code outside the enumeration.
    pub fn try_from(t: u32) -> (r: Option<SrNotifType>)
        ensures
            r == Self::spec_from_code(t),
            r matches Some(e) ==> e.spec_code() == t,
    {
        if t == 0 { Some(SrNotifType::Realtime) }
        else if t == 1 { Some(SrNotifType::Replay) }
        else if t == 2 { Some(SrNotifType::ReplayComplete) }
        else if t == 3 { Some(SrNotifType::Terminated) }
        else if t == 4 { Some(SrNotifType::Modified) }
        else if t == 5 { Some(SrNotifType::Suspended) }
        else if t == 6 { Some(SrNotifType::Resumed) }
        else { None }
    }
}

/// How the tree engine reads the content of an anydata or anyxml node.
#[derive(Clone, Copy, Debug, PartialEq, Eq, Structural)]
pub enum LydAnyDataValueType {
    Datatree,
    String,
    Xml,
    Json,
    Lyb,
}

impl LydAnyDataValueType {
    pub open spec fn spec_code(self) -> u32 {
        match self {
            LydAnyDataValueType::Datatree => 0,
            LydAnyDataValueType::String => 1,
            LydAnyDataValueType::Xml => 2,
            LydAnyDataValueType::Json => 3,
            LydAnyDataValueType::Lyb => 4,
        }
    }

    /// The engine's integer code of this value.
    pub fn code(&self) -> (r: u32)
        ensures
            r == self.spec_code(),
    {
        match self {
            LydAnyDataValueType::Datatree => 0,
            LydAnyDataValueType::String => 1,
            LydAnyDataValueType::Xml => 2,
            LydAnyDataValueType::Json => 3,
            LydAnyDataValueType::Lyb => 4,
        }
    }
}

} // verus!
