//! A Java class (`RustArcBoxDynAny`) through which Java owns Rust objects.
use vstd::prelude::*;
use crate::class_loader::{InitStep, NativeClass, Package};

verus! {

/// The steps of [`initialize`].
pub open spec fn initialize_spec() -> Seq<InitStep> {
    seq![
        InitStep::LoadBytecode(Package::JavaRustObj),
        InitStep::DeclareNativeMethods(NativeClass::RustArcBoxDynAny),
    ]
}

/// The steps that make the owning Java class usable: load its package, then
/// declare its native methods (which release and share the Rust object).
pub fn initialize() -> (r: Vec<InitStep>)
    ensures
        r@ == initialize_spec(),
{
    let mut steps: Vec<InitStep> = Vec::new();
    steps.push(InitStep::LoadBytecode(Package::JavaRustObj));
    steps.push(InitStep::DeclareNativeMethods(NativeClass::RustArcBoxDynAny));
    assert(steps@ =~= seq![
        InitStep::LoadBytecode(Package::JavaRustObj),
        InitStep::DeclareNativeMethods(NativeClass::RustArcBoxDynAny),
    ]);
    steps
}

} // verus!
