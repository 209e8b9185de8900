//! Ownership and dispatch model for a client of a transactional, schema-typed
//! configuration datastore.
//!
//! The datastore engine is reached through native handles. This library keeps
//! those handles as plain identities and decides, with proved contracts, which
//! engine calls must be issued and in which order: releasing values and value
//! arrays, tearing down connections, sessions and subscriptions, decoding the
//! arguments of dispatched callbacks, and stepping a change iterator. The code
//! that performs the native calls runs the plans this library returns.
pub mod change;
pub mod conn;
pub mod dispatch;
pub mod laws;

pub mod plan;
pub mod session;
pub mod table;
pub mod tree;
pub mod types;
pub mod value;

pub use types::{
    LydAnyDataValueType, SrChangeOper, SrConnFlag, SrDatastore, SrEditFlag, SrError,
    SrEvent, SrGetOperFlag, SrLogLevel, SrMovePosition, SrNotifType, SrSubcribeFlag, SrType,
};

pub use change::SrChangeIter;
pub use conn::SrConn;
pub use dispatch::{handler_code, oper_get_output, rpc_output};
pub use plan::EngineCall;
pub use session::{timeout_ms, SrSession, SrSessionId, SrSubscr, SrSubscrId};
pub use tree::{LibYang, LibYangCtx, LydNode, LydValue, NewPathTarget};
pub use types::check_rc;
pub use value::{SrData, SrVal, SrValue, SrValueSlice};
