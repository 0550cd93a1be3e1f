//! Verified core of an Android Auto wireless proxy.
//!
//! The crate models the protocol-level logic of the proxy: the wire framing
//! between head unit and mobile device, the protobuf subset the proxy reads
//! and rewrites, the Bluetooth bootstrap dialogue, the USB gadget role
//! choreography, the transfer monitor, and the per-session processor
//! decisions.  All I/O lives outside this crate; the functions here compute
//! from plain values to plain values and carry contracts for what they do.

pub mod bootstrap;
pub mod config;
pub mod ev;
pub mod frame;
pub mod gadget;
pub mod ids;
pub mod laws;
pub mod led;
pub mod mitm;
pub mod monitor;
pub mod nav;
pub mod proto;
pub mod rewriter;
pub mod sdr;
pub mod sensors;
pub mod session;
pub mod uevent;
pub mod wifimsg;

use vstd::prelude::*;

verus! {

} // verus!
