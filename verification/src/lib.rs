//! A TLS-terminating forward proxy library: mirror policy decisions,
//! write-once mirror storage planning, response forwarding with a
//! diagnostic header, and the connection-accept state machine.
use vstd::prelude::*;

pub mod accept;
pub mod client;
pub mod config;
pub mod policy;
pub mod proxy;
pub mod registry;
pub mod store;
pub mod text;
pub mod util;

verus! {

} // verus!
