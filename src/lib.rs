//! A typed, bounds-checked view of a native file-system change stream:
//! flag decoding, event records, the rescan decision, and the lifecycle of a
//! subscription session.

pub mod flags;
pub mod event;
pub mod session;
