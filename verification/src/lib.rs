//! The configuration of a database cluster, as C callers set it up, and the
//! parts of the `scylla` driver that it turns into.
//!
//! [`cluster`] holds the setters, [`laws`] what holds of them together, and
//! [`driver`] everything that is trusted of the driver itself.
// Ghost functions are imported too; nothing of them is left in compiled code.
#![allow(unused_imports)]

pub mod cluster;
pub mod contact_points;
pub mod cstring;
pub mod driver;
pub mod exec_profile;
pub mod laws;
pub mod load_balancing;
pub mod session_options;
pub mod types;
