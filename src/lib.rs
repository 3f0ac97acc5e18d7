//! Publication of a small status record through a redundant slot ring that
//! lives in named shared memory, and the decisions of the supervisor that keeps
//! a single daemon publishing it.
//!
//! The raw mapping itself is reached only by the application around this
//! library; every decision it makes about the mapping (where the slots lie,
//! whether a mapping and its index are valid, which slot a write goes to, and
//! whether a published record can be trusted) is made here.
pub mod layout;
pub mod ring;
pub mod heartbeat;
pub mod supervisor;
