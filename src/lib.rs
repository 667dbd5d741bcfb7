//! Startup of a mesh-VPN tunnel for a desktop application: the daemon's
//! command line and private paths, a bounded readiness poll for its control
//! socket, the login that joins the overlay network, and the plan handed to
//! the local relay. The steps are a state machine; the host performs the I/O.
use vstd::prelude::*;

pub mod config;
pub mod error;
pub mod orchestrator;
pub mod poller;

verus! {

} // verus!
