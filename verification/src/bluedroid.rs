//! Bluetooth LE on Android: GATT status codes, connection and pairing
//! decisions, characteristics, scanning and L2CAP channels.
use vstd::prelude::*;

pub mod bytes;
pub mod connection;
pub mod error;
pub mod l2cap;
pub mod scan_filter;
pub mod service;
pub mod uuids;
pub mod characteristic;
pub mod scan;
pub mod scan_result;
pub mod callback_future;

use crate::class_loader::{InitStep, NativeClass, Package};

verus! {

/// The steps that make the Java side of the Bluetooth code usable: those of
/// the owning Java class, then loading the Bluetooth package and declaring the
/// native methods of the scan and GATT callbacks.
pub fn initialize() -> (r: Vec<InitStep>)
    ensures
        r@ == crate::java_owned_rust_object::initialize_spec() + seq![
            InitStep::LoadBytecode(Package::RustBluedroid),
            InitStep::DeclareNativeMethods(NativeClass::LeScanCallback),
            InitStep::DeclareNativeMethods(NativeClass::GattCallback),
        ],
{
    let mut steps = crate::java_owned_rust_object::initialize();
    let ghost first = steps@;
    steps.push(InitStep::LoadBytecode(Package::RustBluedroid));
    steps.push(InitStep::DeclareNativeMethods(NativeClass::LeScanCallback));
    steps.push(InitStep::DeclareNativeMethods(NativeClass::GattCallback));
    assert(steps@ =~= first + seq![
        InitStep::LoadBytecode(Package::RustBluedroid),
        InitStep::DeclareNativeMethods(NativeClass::LeScanCallback),
        InitStep::DeclareNativeMethods(NativeClass::GattCallback),
    ]);
    steps
}

} // verus!
