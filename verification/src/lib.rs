//! Verified core of a set of Android utilities: Bluetooth LE (GATT, scanning,
//! L2CAP) status handling and state machines, network service discovery
//! planning, and the bookkeeping of a chain of Java class loaders.
//!
//! Everything that talks to the Java VM is left to the caller; this crate takes
//! the decisions and does the conversions in between, with proofs.
use vstd::prelude::*;

pub mod bluedroid;
pub mod class_loader;
pub mod java_result;
pub mod java_owned_rust_object;
pub mod nsd;
