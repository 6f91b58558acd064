//! The shared server state: the store's external nickname and the open
//! store handle.
//!
//! One value of this type is built at startup from the resolved
//! configuration and lives for the whole process; it is never replaced,
//! only accessed. Handlers that mutate the store take it exclusively
//! (`&mut`), which is what serializing all access through one lock
//! realizes at run time: each request is an independent
//! read-modify-respond cycle, and the cycles are linearizable in the
//! order the state is acquired.

use vstd::prelude::*;
use crate::store::StoreHandle;

verus! {

/// The single shared mutable resource of the process.
pub struct ServerState {
    /// The external nickname the store is addressed by in service
    /// metadata.
    pub name: String,
    /// The open store handle.
    pub store: StoreHandle,
}

impl ServerState {
    /// Wraps a freshly opened store under its configured nickname;
    /// called exactly once, at startup.
    pub fn new(name: String, store: StoreHandle) -> (s: ServerState)
        ensures
            s.name@ == name@,
            s.store == store,
    {
        ServerState { name, store }
    }
}

} // verus!
