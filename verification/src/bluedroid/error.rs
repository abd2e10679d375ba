//! Errors of GATT operations and the mapping of Android's numeric status codes
//! onto them.
use vstd::prelude::*;
use crate::java_result::JavaError;

verus! {

// ---------------------------------------------------------------------------
// Status codes of `android.bluetooth.BluetoothGatt`.
// ---------------------------------------------------------------------------
/// `BluetoothGatt.GATT_SUCCESS`
pub const GATT_SUCCESS: i32 = 0;

/// `BluetoothGatt.GATT_READ_NOT_PERMITTED`
pub const GATT_READ_NOT_PERMITTED: i32 = 2;

/// `BluetoothGatt.GATT_WRITE_NOT_PERMITTED`
pub const GATT_WRITE_NOT_PERMITTED: i32 = 3;

/// `BluetoothGatt.GATT_INSUFFICIENT_AUTHENTICATION`
pub const GATT_INSUFFICIENT_AUTHENTICATION: i32 = 5;

/// `BluetoothGatt.GATT_REQUEST_NOT_SUPPORTED`
pub const GATT_REQUEST_NOT_SUPPORTED: i32 = 6;

/// `BluetoothGatt.GATT_INVALID_OFFSET`
pub const GATT_INVALID_OFFSET: i32 = 7;

/// `BluetoothGatt.GATT_INSUFFICIENT_AUTHORIZATION`
pub const GATT_INSUFFICIENT_AUTHORIZATION: i32 = 8;

/// `BluetoothGatt.GATT_INVALID_ATTRIBUTE_LENGTH`
pub const GATT_INVALID_ATTRIBUTE_LENGTH: i32 = 13;

/// `BluetoothGatt.GATT_INSUFFICIENT_ENCRYPTION`
pub const GATT_INSUFFICIENT_ENCRYPTION: i32 = 15;

/// `BluetoothGatt.GATT_CONNECTION_CONGESTED`
pub const GATT_CONNECTION_CONGESTED: i32 = 143;

/// `BluetoothGatt.GATT_CONNECTION_TIMEOUT`
pub const GATT_CONNECTION_TIMEOUT: i32 = 147;

/// `BluetoothGatt.GATT_FAILURE`
pub const GATT_FAILURE: i32 = 257;

// ---------------------------------------------------------------------------
// Codes of `android.bluetooth.BluetoothStatusCodes`.
// ---------------------------------------------------------------------------
/// `BluetoothStatusCodes.ERROR_BLUETOOTH_NOT_ENABLED`
pub const ERROR_BLUETOOTH_NOT_ENABLED: i32 = 1;

/// `BluetoothStatusCodes.ERROR_BLUETOOTH_NOT_ALLOWED`
pub const ERROR_BLUETOOTH_NOT_ALLOWED: i32 = 2;

/// `BluetoothStatusCodes.ERROR_DEVICE_NOT_BONDED`
pub const ERROR_DEVICE_NOT_BONDED: i32 = 3;

/// `BluetoothStatusCodes.ERROR_MISSING_BLUETOOTH_CONNECT_PERMISSION`
pub const ERROR_MISSING_BLUETOOTH_CONNECT_PERMISSION: i32 = 6;

/// `BluetoothStatusCodes.ERROR_PROFILE_SERVICE_NOT_BOUND`
pub const ERROR_PROFILE_SERVICE_NOT_BOUND: i32 = 9;

/// `BluetoothStatusCodes.FEATURE_NOT_SUPPORTED`
pub const FEATURE_NOT_SUPPORTED: i32 = 11;

/// `BluetoothStatusCodes.FEATURE_NOT_CONFIGURED`
pub const FEATURE_NOT_CONFIGURED: i32 = 30;

/// `BluetoothStatusCodes.ERROR_GATT_WRITE_NOT_ALLOWED`
pub const ERROR_GATT_WRITE_NOT_ALLOWED: i32 = 200;

/// `BluetoothStatusCodes.ERROR_GATT_WRITE_REQUEST_BUSY`
pub const ERROR_GATT_WRITE_REQUEST_BUSY: i32 = 201;

/// `BluetoothStatusCodes.ERROR_UNKNOWN` (`Integer.MAX_VALUE`)
pub const ERROR_UNKNOWN: i32 = 2147483647;

/// A failure reported through `android.bluetooth.BluetoothStatusCodes`.
#[derive(Debug, Clone, Copy, PartialEq, Eq, Structural)]
pub enum BluetoothStatusCode {
    NotAllowed,
    NotEnabled,
    NotBonded,
    GattWriteNotAllowed,
    GattWriteBusy,
    MissingBluetoothConnectPermission,
    ProfileServiceNotBound,
    Unknown,
    FeatureNotConfigured,
    FeatureNotSupported,
    /// A code that none of the variants above stands for; never zero.
    UnknownError(i32),
}

/// The failure that a GATT operation ended with.
#[derive(Debug)]
pub enum GattError {
    GattReadNotPermitted,
    GattWriteNotPermitted,
    GattInsufficientAuthentication,
    GattRequestNotSupported,
    GattInsufficientEncryption,
    GattInvalidOffset,
    GattInsufficientAuthorization,
    GattInvalidAttributeLength,
    GattConnectionCongested,
    GattConnectionTimeout,
    GattFailure,
    /// Writing to the client characteristic configuration descriptor is
    /// refused: it races with enabling and disabling notifications.
    WritingToCCCDescriptor,
    BluetoothStatusCode(BluetoothStatusCode),
    /// A GATT status that none of the variants above stands for; never zero.
    UnknownError(i32),
    JavaError(JavaError),
    /// The Java GATT function did not execute (it returned `false`).
    NotExecuted,
    /// The device must be connected to execute the operation.
    NotConnected,
}

/// Result of a GATT operation.
pub type GattResult<T> = Result<T, GattError>;

/// The failure that a non-zero `BluetoothStatusCodes` value stands for.
pub open spec fn status_code_spec(code: i32) -> BluetoothStatusCode {
    if code == ERROR_BLUETOOTH_NOT_ALLOWED {
        BluetoothStatusCode::NotAllowed
    } else if code == ERROR_BLUETOOTH_NOT_ENABLED {
        BluetoothStatusCode::NotEnabled
    } else if code == ERROR_DEVICE_NOT_BONDED {
        BluetoothStatusCode::NotBonded
    } else if code == ERROR_GATT_WRITE_NOT_ALLOWED {
        BluetoothStatusCode::GattWriteNotAllowed
    } else if code == ERROR_GATT_WRITE_REQUEST_BUSY {
        BluetoothStatusCode::GattWriteBusy
    } else if code == ERROR_MISSING_BLUETOOTH_CONNECT_PERMISSION {
        BluetoothStatusCode::MissingBluetoothConnectPermission
    } else if code == ERROR_PROFILE_SERVICE_NOT_BOUND {
        BluetoothStatusCode::ProfileServiceNotBound
    } else if code == ERROR_UNKNOWN {
        BluetoothStatusCode::Unknown
    } else if code == FEATURE_NOT_CONFIGURED {
        BluetoothStatusCode::FeatureNotConfigured
    } else if code == FEATURE_NOT_SUPPORTED {
        BluetoothStatusCode::FeatureNotSupported
    } else {
        BluetoothStatusCode::UnknownError(code)
    }
}

/// The GATT error that a GATT status other than `GATT_SUCCESS` stands for.
pub open spec fn gatt_status_error_spec(status: i32) -> GattError {
    if status == GATT_READ_NOT_PERMITTED {
        GattError::GattReadNotPermitted
    } else if status == GATT_WRITE_NOT_PERMITTED {
        GattError::GattWriteNotPermitted
    } else if status == GATT_INSUFFICIENT_AUTHENTICATION {
        GattError::GattInsufficientAuthentication
    } else if status == GATT_REQUEST_NOT_SUPPORTED {
        GattError::GattRequestNotSupported
    } else if status == GATT_INSUFFICIENT_ENCRYPTION {
        GattError::GattInsufficientEncryption
    } else if status == GATT_INVALID_OFFSET {
        GattError::GattInvalidOffset
    } else if status == GATT_INSUFFICIENT_AUTHORIZATION {
        GattError::GattInsufficientAuthorization
    } else if status == GATT_INVALID_ATTRIBUTE_LENGTH {
        GattError::GattInvalidAttributeLength
    } else if status == GATT_CONNECTION_CONGESTED {
        GattError::GattConnectionCongested
    } else if status == GATT_CONNECTION_TIMEOUT {
        GattError::GattConnectionTimeout
    } else if status == GATT_FAILURE {
        GattError::GattFailure
    } else {
        GattError::UnknownError(status)
    }
}

/// The outcome that a GATT status stands for.
pub open spec fn gatt_status_spec(status: i32) -> GattResult<()> {
    if status == GATT_SUCCESS {
        Ok(())
    } else {
        Err(gatt_status_error_spec(status))
    }
}

impl GattError {
    /// Converts the status that a GATT callback reports: `GATT_SUCCESS` is
    /// success, every other status is the error it stands for.
    pub fn status_error(status: i32) -> (r: GattResult<()>)
        ensures
            r == gatt_status_spec(status),
            r is Ok <==> status == GATT_SUCCESS,
            r matches Err(GattError::UnknownError(code)) ==> code == status && code != 0,
    {
        if status == GATT_SUCCESS {
            Ok(())
        } else if status == GATT_READ_NOT_PERMITTED {
            Err(GattError::GattReadNotPermitted)
        } else if status == GATT_WRITE_NOT_PERMITTED {
            Err(GattError::GattWriteNotPermitted)
        } else if status == GATT_INSUFFICIENT_AUTHENTICATION {
            Err(GattError::GattInsufficientAuthentication)
        } else if status == GATT_REQUEST_NOT_SUPPORTED {
            Err(GattError::GattRequestNotSupported)
        } else if status == GATT_INSUFFICIENT_ENCRYPTION {
            Err(GattError::GattInsufficientEncryption)
        } else if status == GATT_INVALID_OFFSET {
            Err(GattError::GattInvalidOffset)
        } else if status == GATT_INSUFFICIENT_AUTHORIZATION {
            Err(GattError::GattInsufficientAuthorization)
        } else if status == GATT_INVALID_ATTRIBUTE_LENGTH {
            Err(GattError::GattInvalidAttributeLength)
        } else if status == GATT_CONNECTION_CONGESTED {
            Err(GattError::GattConnectionCongested)
        } else if status == GATT_CONNECTION_TIMEOUT {
            Err(GattError::GattConnectionTimeout)
        } else if status == GATT_FAILURE {
            Err(GattError::GattFailure)
        } else {
            Err(GattError::UnknownError(status))
        }
    }

    /// Converts what a Java GATT call that reports whether it executed returned
    /// (reads, service discovery, RSSI, enabling notifications): `false` means
    /// the request was not executed.
    pub fn check_executed(executed: bool) -> (r: GattResult<()>)
        ensures
            r is Ok <==> executed,
            r matches Err(e) ==> e is NotExecuted,
    {
        if executed {
            Ok(())
        } else {
            Err(GattError::NotExecuted)
        }
    }

    /// Wraps a Java exception as a GATT error.
    pub fn from_java_error(err: JavaError) -> (r: GattError)
        ensures
            r == GattError::JavaError(err),
    {
        GattError::JavaError(err)
    }
}

impl BluetoothStatusCode {
    /// The failure that a non-zero `BluetoothStatusCodes` value stands for.
    pub fn java_status_code(code: i32) -> (r: BluetoothStatusCode)
        requires
            code != 0,
        ensures
            r == status_code_spec(code),
            r matches BluetoothStatusCode::UnknownError(c) ==> c == code,
    {
        if code == ERROR_BLUETOOTH_NOT_ALLOWED {
            BluetoothStatusCode::NotAllowed
        } else if code == ERROR_BLUETOOTH_NOT_ENABLED {
            BluetoothStatusCode::NotEnabled
        } else if code == ERROR_DEVICE_NOT_BONDED {
            BluetoothStatusCode::NotBonded
        } else if code == ERROR_GATT_WRITE_NOT_ALLOWED {
            BluetoothStatusCode::GattWriteNotAllowed
        } else if code == ERROR_GATT_WRITE_REQUEST_BUSY {
            BluetoothStatusCode::GattWriteBusy
        } else if code == ERROR_MISSING_BLUETOOTH_CONNECT_PERMISSION {
            BluetoothStatusCode::MissingBluetoothConnectPermission
        } else if code == ERROR_PROFILE_SERVICE_NOT_BOUND {
            BluetoothStatusCode::ProfileServiceNotBound
        } else if code == ERROR_UNKNOWN {
            BluetoothStatusCode::Unknown
        } else if code == FEATURE_NOT_CONFIGURED {
            BluetoothStatusCode::FeatureNotConfigured
        } else if code == FEATURE_NOT_SUPPORTED {
            BluetoothStatusCode::FeatureNotSupported
        } else {
            BluetoothStatusCode::UnknownError(code)
        }
    }

    /// Converts the value that a Bluetooth call returns: zero is success, any
    /// other value is the failure it stands for.
    pub fn status_result(code: i32) -> (r: Result<(), BluetoothStatusCode>)
        ensures
            r is Ok <==> code == 0,
            code != 0 ==> r == Err::<(), BluetoothStatusCode>(status_code_spec(code)),
    {
        if code == 0 {
            Ok(())
        } else {
            Err(BluetoothStatusCode::java_status_code(code))
        }
    }

    /// As [`BluetoothStatusCode::status_result`], with the failure wrapped as a
    /// GATT error.
    pub fn gatt_result(code: i32) -> (r: GattResult<()>)
        ensures
            r is Ok <==> code == 0,
            code != 0 ==> r == Err::<(), GattError>(
                GattError::BluetoothStatusCode(status_code_spec(code)),
            ),
    {
        match BluetoothStatusCode::status_result(code) {
            Ok(()) => Ok(()),
            Err(e) => Err(GattError::BluetoothStatusCode(e)),
        }
    }
}


/// The Android values of the GATT statuses and Bluetooth status codes.
pub proof fn status_constant_values()
    ensures
        GATT_SUCCESS == 0,
        GATT_READ_NOT_PERMITTED == 2,
        GATT_WRITE_NOT_PERMITTED == 3,
        GATT_INSUFFICIENT_AUTHENTICATION == 5,
        GATT_REQUEST_NOT_SUPPORTED == 6,
        GATT_INVALID_OFFSET == 7,
        GATT_INSUFFICIENT_AUTHORIZATION == 8,
        GATT_INVALID_ATTRIBUTE_LENGTH == 13,
        GATT_INSUFFICIENT_ENCRYPTION == 15,
        GATT_CONNECTION_CONGESTED == 143,
        GATT_CONNECTION_TIMEOUT == 147,
        GATT_FAILURE == 257,
        ERROR_BLUETOOTH_NOT_ENABLED == 1,
        ERROR_BLUETOOTH_NOT_ALLOWED == 2,
        ERROR_DEVICE_NOT_BONDED == 3,
        ERROR_MISSING_BLUETOOTH_CONNECT_PERMISSION == 6,
        ERROR_PROFILE_SERVICE_NOT_BOUND == 9,
        FEATURE_NOT_SUPPORTED == 11,
        FEATURE_NOT_CONFIGURED == 30,
        ERROR_GATT_WRITE_NOT_ALLOWED == 200,
        ERROR_GATT_WRITE_REQUEST_BUSY == 201,
        ERROR_UNKNOWN == 2147483647,
{
}

/// What a GATT status stands for: success exactly for `GATT_SUCCESS`; each
/// named error exactly for its own constant; and for every other status,
/// `UnknownError` carrying that status. (So, for instance, status 133, the
/// common connection failure, is `UnknownError(133)`.)
pub proof fn gatt_status_meaning(status: i32)
    ensures
        gatt_status_spec(status) is Ok <==> status == GATT_SUCCESS,
        gatt_status_spec(status) == Err::<(), GattError>(GattError::GattReadNotPermitted) <==> status == GATT_READ_NOT_PERMITTED,
        gatt_status_spec(status) == Err::<(), GattError>(GattError::GattWriteNotPermitted) <==> status == GATT_WRITE_NOT_PERMITTED,
        gatt_status_spec(status) == Err::<(), GattError>(GattError::GattInsufficientAuthentication) <==> status == GATT_INSUFFICIENT_AUTHENTICATION,
        gatt_status_spec(status) == Err::<(), GattError>(GattError::GattRequestNotSupported) <==> status == GATT_REQUEST_NOT_SUPPORTED,
        gatt_status_spec(status) == Err::<(), GattError>(GattError::GattInsufficientEncryption) <==> status == GATT_INSUFFICIENT_ENCRYPTION,
        gatt_status_spec(status) == Err::<(), GattError>(GattError::GattInvalidOffset) <==> status == GATT_INVALID_OFFSET,
        gatt_status_spec(status) == Err::<(), GattError>(GattError::GattInsufficientAuthorization) <==> status == GATT_INSUFFICIENT_AUTHORIZATION,
        gatt_status_spec(status) == Err::<(), GattError>(GattError::GattInvalidAttributeLength) <==> status == GATT_INVALID_ATTRIBUTE_LENGTH,
        gatt_status_spec(status) == Err::<(), GattError>(GattError::GattConnectionCongested) <==> status == GATT_CONNECTION_CONGESTED,
        gatt_status_spec(status) == Err::<(), GattError>(GattError::GattConnectionTimeout) <==> status == GATT_CONNECTION_TIMEOUT,
        gatt_status_spec(status) == Err::<(), GattError>(GattError::GattFailure) <==> status == GATT_FAILURE,
        (status != GATT_SUCCESS && status != GATT_READ_NOT_PERMITTED && status != GATT_WRITE_NOT_PERMITTED && status != GATT_INSUFFICIENT_AUTHENTICATION && status != GATT_REQUEST_NOT_SUPPORTED && status != GATT_INSUFFICIENT_ENCRYPTION && status != GATT_INVALID_OFFSET && status != GATT_INSUFFICIENT_AUTHORIZATION && status != GATT_INVALID_ATTRIBUTE_LENGTH && status != GATT_CONNECTION_CONGESTED && status != GATT_CONNECTION_TIMEOUT && status != GATT_FAILURE) ==> gatt_status_spec(status) == Err::<(), GattError>(GattError::UnknownError(status)),
        forall|c: i32| gatt_status_spec(status) == Err::<(), GattError>(GattError::UnknownError(c)) ==> c == status,
{
}

/// What a non-zero Bluetooth status code stands for: each named failure
/// exactly for its own constant, and for every other code `UnknownError`
/// carrying that code. (So, for instance, code 4, a device that is not
/// connected, is `UnknownError(4)`.)
pub proof fn status_code_meaning(code: i32)
    ensures
        status_code_spec(code) == BluetoothStatusCode::NotAllowed <==> code == ERROR_BLUETOOTH_NOT_ALLOWED,
        status_code_spec(code) == BluetoothStatusCode::NotEnabled <==> code == ERROR_BLUETOOTH_NOT_ENABLED,
        status_code_spec(code) == BluetoothStatusCode::NotBonded <==> code == ERROR_DEVICE_NOT_BONDED,
        status_code_spec(code) == BluetoothStatusCode::GattWriteNotAllowed <==> code == ERROR_GATT_WRITE_NOT_ALLOWED,
        status_code_spec(code) == BluetoothStatusCode::GattWriteBusy <==> code == ERROR_GATT_WRITE_REQUEST_BUSY,
        status_code_spec(code) == BluetoothStatusCode::MissingBluetoothConnectPermission <==> code == ERROR_MISSING_BLUETOOTH_CONNECT_PERMISSION,
        status_code_spec(code) == BluetoothStatusCode::ProfileServiceNotBound <==> code == ERROR_PROFILE_SERVICE_NOT_BOUND,
        status_code_spec(code) == BluetoothStatusCode::Unknown <==> code == ERROR_UNKNOWN,
        status_code_spec(code) == BluetoothStatusCode::FeatureNotConfigured <==> code == FEATURE_NOT_CONFIGURED,
        status_code_spec(code) == BluetoothStatusCode::FeatureNotSupported <==> code == FEATURE_NOT_SUPPORTED,
        (code != ERROR_BLUETOOTH_NOT_ALLOWED && code != ERROR_BLUETOOTH_NOT_ENABLED && code != ERROR_DEVICE_NOT_BONDED && code != ERROR_GATT_WRITE_NOT_ALLOWED && code != ERROR_GATT_WRITE_REQUEST_BUSY && code != ERROR_MISSING_BLUETOOTH_CONNECT_PERMISSION && code != ERROR_PROFILE_SERVICE_NOT_BOUND && code != ERROR_UNKNOWN && code != FEATURE_NOT_CONFIGURED && code != FEATURE_NOT_SUPPORTED) ==> status_code_spec(code) == BluetoothStatusCode::UnknownError(code),
        forall|c: i32| status_code_spec(code) == BluetoothStatusCode::UnknownError(c) ==> c == code,
{
}

} // verus!
