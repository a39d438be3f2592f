//! Native-boundary value exchange for a managed-value runtime.
//!
//! A [`data::Value`] is a handle owned by a virtual machine's collected heap.
//! Before such a value is lent, shared or handed over to native code its
//! ownership tag is examined and, where the request is legal, moved to the
//! state that holds while the native call runs. Every such step is recorded
//! in a [`cast::from_value::GcInfoGuard`], which later either commits the
//! final state or puts the earlier one back.
pub mod data;
pub mod error;
pub mod tyck;
pub mod void;
pub mod pylon;
pub mod cast;
