//! Trust-plane decision logic of the maknae kernel: connection admission,
//! circuit breaking for bounded blocking work, and the pure decisions the
//! serving loop consults.
use vstd::prelude::*;

pub mod accept;
pub mod authz;
pub mod blocking_guard;
pub mod boot_gate;
pub mod ceiling_authz;
pub mod classification;
pub mod decimal;
pub mod egress;
pub mod egress_socket;
pub mod paths;
pub mod groupres;
pub mod handler;
pub mod mutation;
pub mod mutation_exchange;
pub mod mutation_lane;
pub mod posture;
pub mod run;
pub mod serve;

verus! {

} // verus!
