//! GATT services.
use vstd::prelude::*;

verus! {

/// Raw value that Android uses for a primary service
/// (`BluetoothGattService.SERVICE_TYPE_PRIMARY`).
pub const SERVICE_TYPE_PRIMARY: i32 = 0;

/// Raw value that Android uses for a secondary service
/// (`BluetoothGattService.SERVICE_TYPE_SECONDARY`).
pub const SERVICE_TYPE_SECONDARY: i32 = 1;

/// Whether a GATT service is primary or secondary.
#[derive(Debug, Clone, Copy, PartialEq, Eq)]
pub enum ServiceType {
    Primary,
    Secondary,
}

/// The service type that a raw Android value stands for.
pub open spec fn service_type_spec(raw: i32) -> ServiceType
    recommends
        raw == SERVICE_TYPE_PRIMARY || raw == SERVICE_TYPE_SECONDARY,
{
    if raw == SERVICE_TYPE_PRIMARY {
        ServiceType::Primary
    } else {
        ServiceType::Secondary
    }
}

impl ServiceType {
    /// Converts the raw service type reported by Android. Android only reports
    /// the two values above; any other value is a broken invariant of the
    /// platform and is ruled out by the precondition.
    pub fn from_java(raw: i32) -> (r: ServiceType)
        requires
            raw == SERVICE_TYPE_PRIMARY || raw == SERVICE_TYPE_SECONDARY,
        ensures
            r == service_type_spec(raw),
    {
        if raw == SERVICE_TYPE_PRIMARY {
            ServiceType::Primary
        } else {
            ServiceType::Secondary
        }
    }
}

/// The raw service types: 0 is primary, 1 is secondary.
pub proof fn service_type_meaning()
    ensures
        service_type_spec(0) == ServiceType::Primary,
        service_type_spec(1) == ServiceType::Secondary,
{
}

} // verus!
