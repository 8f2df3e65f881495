//! Rewrites method signatures that operate under an implicit
//! deferred-execution contract into an explicit form: each such method
//! returns an opaque handle producing the declared result once resolved,
//! bounded by the capabilities (cross-thread transfer, concurrent shared
//! access) that its receiver shape and its directive list require.

use vstd::prelude::*;

pub mod config;
pub mod declaration;
pub mod receiver;
pub mod signature;
pub mod types;

verus! {

/// The two capabilities a deferred computation's handle can be bounded by.
#[derive(Clone, Copy, Debug, PartialEq, Eq, Structural)]
pub enum Capability {
    /// The handle may be moved to, and driven by, another thread.
    Transferable,
    /// The implementing type tolerates concurrent references while the
    /// deferred computation runs.
    SharedAccess,
}

/// A merged capability configuration: which bounds the rewritten
/// signature must carry.
#[derive(Clone, Copy, Debug, PartialEq, Eq, Structural)]
pub struct CapabilityConfig {
    pub transferable: bool,
    pub shared_access: bool,
}

/// The configuration selected by the build-time switch alone: both
/// capabilities uniformly on or uniformly off.
pub open spec fn default_config(default_enabled: bool) -> CapabilityConfig {
    CapabilityConfig { transferable: default_enabled, shared_access: default_enabled }
}

impl CapabilityConfig {
    /// Both fields take the value of the build-time default switch.
    pub fn from_default(default_enabled: bool) -> (r: CapabilityConfig)
        ensures
            r == default_config(default_enabled),
    {
        CapabilityConfig { transferable: default_enabled, shared_access: default_enabled }
    }
}

} // verus!
