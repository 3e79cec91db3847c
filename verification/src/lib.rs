//! A safety layer over a binary-only archive-management component that is
//! reachable only through a fixed dispatch table.
//!
//! The library models the wrapper's own obligations — enumeration encoding,
//! string and buffer marshalling, and the lifecycle of the container and of
//! the file and search handles it issues — as verified code.  The dispatch
//! itself (an unsafe call through a native vtable with a platform calling
//! convention) cannot stand here; every proxy operation instead takes the
//! native component's raw reply as an argument, records the call it stands
//! for in an ordered log, and is verified to translate the reply and to keep
//! the lifecycle invariants for every value the native side may hand back.

pub mod calls;
pub mod codec;
pub mod marshal;
pub mod proxy;
