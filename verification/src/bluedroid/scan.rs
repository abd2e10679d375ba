//! Bluetooth LE scans: the errors a scan reports and the request that starts
//! one.
use vstd::prelude::*;
use crate::bluedroid::scan_filter::{ScanFilter, ScanFilterCall};

verus! {

/// `ScanCallback.SCAN_FAILED_ALREADY_STARTED`
pub const SCAN_FAILED_ALREADY_STARTED: i32 = 1;

/// `ScanCallback.SCAN_FAILED_APPLICATION_REGISTRATION_FAILED`
pub const SCAN_FAILED_APPLICATION_REGISTRATION_FAILED: i32 = 2;

/// `ScanCallback.SCAN_FAILED_INTERNAL_ERROR`
pub const SCAN_FAILED_INTERNAL_ERROR: i32 = 3;

/// `ScanCallback.SCAN_FAILED_FEATURE_UNSUPPORTED`
pub const SCAN_FAILED_FEATURE_UNSUPPORTED: i32 = 4;

/// `ScanCallback.SCAN_FAILED_OUT_OF_HARDWARE_RESOURCES`
pub const SCAN_FAILED_OUT_OF_HARDWARE_RESOURCES: i32 = 5;

/// `ScanCallback.SCAN_FAILED_SCANNING_TOO_FREQUENTLY`
pub const SCAN_FAILED_SCANNING_TOO_FREQUENTLY: i32 = 6;

/// Why a scan failed.
#[derive(Debug, Clone, Copy, PartialEq, Eq, Structural)]
pub enum ScanError {
    /// A scan with the same settings is already started by the app.
    AlreadyStarted,
    /// The app cannot be registered.
    ApplicationRegistration,
    /// Power optimized scan is not supported.
    FeatureUnsupported,
    /// An internal error.
    InteralError,
    /// Out of hardware resources.
    OutOfHardwareResources,
    /// The app tries to scan too frequently.
    ScanningToFrequently,
    /// Scanning is unavailable right now; usually Bluetooth is disabled.
    Unavailable,
    /// An error code that none of the variants above stands for.
    Unknown(i32),
}

/// The scan error that a `ScanCallback` error code stands for; zero is no
/// error.
pub open spec fn scan_error_spec(error_code: i32) -> Option<ScanError> {
    if error_code == 0 {
        None
    } else if error_code == SCAN_FAILED_ALREADY_STARTED {
        Some(ScanError::AlreadyStarted)
    } else if error_code == SCAN_FAILED_APPLICATION_REGISTRATION_FAILED {
        Some(ScanError::ApplicationRegistration)
    } else if error_code == SCAN_FAILED_FEATURE_UNSUPPORTED {
        Some(ScanError::FeatureUnsupported)
    } else if error_code == SCAN_FAILED_INTERNAL_ERROR {
        Some(ScanError::InteralError)
    } else if error_code == SCAN_FAILED_OUT_OF_HARDWARE_RESOURCES {
        Some(ScanError::OutOfHardwareResources)
    } else if error_code == SCAN_FAILED_SCANNING_TOO_FREQUENTLY {
        Some(ScanError::ScanningToFrequently)
    } else {
        Some(ScanError::Unknown(error_code))
    }
}

impl ScanError {
    /// Converts a `ScanCallback` error code; zero is no error.
    pub fn from_java(error_code: i32) -> (r: Option<ScanError>)
        ensures
            r == scan_error_spec(error_code),
            r is None <==> error_code == 0,
    {
        if error_code == 0 {
            None
        } else if error_code == SCAN_FAILED_ALREADY_STARTED {
            Some(ScanError::AlreadyStarted)
        } else if error_code == SCAN_FAILED_APPLICATION_REGISTRATION_FAILED {
            Some(ScanError::ApplicationRegistration)
        } else if error_code == SCAN_FAILED_FEATURE_UNSUPPORTED {
            Some(ScanError::FeatureUnsupported)
        } else if error_code == SCAN_FAILED_INTERNAL_ERROR {
            Some(ScanError::InteralError)
        } else if error_code == SCAN_FAILED_OUT_OF_HARDWARE_RESOURCES {
            Some(ScanError::OutOfHardwareResources)
        } else if error_code == SCAN_FAILED_SCANNING_TOO_FREQUENTLY {
            Some(ScanError::ScanningToFrequently)
        } else {
            Some(ScanError::Unknown(error_code))
        }
    }
}

/// The filters of a scan request, as the builder calls of each filter: `None`
/// when there are no filters (the scan is started without a filter list),
/// otherwise one list of calls per filter, in order.
pub fn scan_request(filters: &Vec<ScanFilter>) -> (r: Option<Vec<Vec<ScanFilterCall>>>)
    ensures
        r is None <==> filters@.len() == 0,
        r matches Some(calls) ==> calls@.len() == filters@.len() && forall|i: int|
            0 <= i < filters@.len() ==> #[trigger] filters@[i].is_builder_calls(calls@[i]@),
{
    if filters.len() == 0 {
        return None;
    }
    let mut calls: Vec<Vec<ScanFilterCall>> = Vec::new();
    let mut i: usize = 0;
    while i < filters.len()
        invariant
            i <= filters@.len(),
            calls@.len() == i,
            forall|j: int| 0 <= j < i ==> #[trigger] filters@[j].is_builder_calls(calls@[j]@),
        decreases filters@.len() - i,
    {
        let c = filters[i].java_representation();
        calls.push(c);
        i = i + 1;
    }
    Some(calls)
}

/// The outcome of starting a scan: Android gives no scan object when scanning
/// is unavailable.
pub fn scan_started<S>(scan: Option<S>) -> (r: Result<S, ScanError>)
    ensures
        scan matches Some(s) ==> r == Ok::<S, ScanError>(s),
        scan is None ==> r == Err::<S, ScanError>(ScanError::Unavailable),
{
    match scan {
        Some(s) => Ok(s),
        None => Err(ScanError::Unavailable),
    }
}

/// What a `ScanCallback` error code stands for: no error for zero; each named
/// failure exactly for its own code (already started 1, registration failed
/// 2, internal error 3, feature unsupported 4, out of hardware resources 5,
/// scanning too frequently 6); and for every other code `Unknown` carrying
/// that code.
pub proof fn scan_error_meaning(error_code: i32)
    ensures
        scan_error_spec(error_code) is None <==> error_code == 0,
        scan_error_spec(error_code) == Some(ScanError::AlreadyStarted) <==> error_code == 1,
        scan_error_spec(error_code) == Some(ScanError::ApplicationRegistration) <==> error_code == 2,
        scan_error_spec(error_code) == Some(ScanError::InteralError) <==> error_code == 3,
        scan_error_spec(error_code) == Some(ScanError::FeatureUnsupported) <==> error_code == 4,
        scan_error_spec(error_code) == Some(ScanError::OutOfHardwareResources) <==> error_code == 5,
        scan_error_spec(error_code) == Some(ScanError::ScanningToFrequently) <==> error_code == 6,
        !(0 <= error_code <= 6) ==> scan_error_spec(error_code) == Some(ScanError::Unknown(error_code)),
        forall|c: i32| scan_error_spec(error_code) == Some(ScanError::Unknown(c)) ==> c == error_code,
{
}

} // verus!
