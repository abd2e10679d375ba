//! Connection states of a Bluetooth device and the decisions taken while
//! connecting, disconnecting and pairing.
//!
//! Each of these operations alternates calls into Android with waiting for
//! events that Android sends back. The decisions are made here, one step at a
//! time: each step says whether the operation is finished (and with what
//! result) or what has to happen next.
use vstd::prelude::*;
use crate::bluedroid::error::{GattError, GattResult, gatt_status_spec};
use crate::java_result::JavaError;

verus! {

/// `BluetoothProfile.STATE_DISCONNECTED`
pub const STATE_DISCONNECTED: i32 = 0;

/// `BluetoothProfile.STATE_CONNECTING`
pub const STATE_CONNECTING: i32 = 1;

/// `BluetoothProfile.STATE_CONNECTED`
pub const STATE_CONNECTED: i32 = 2;

/// `BluetoothProfile.STATE_DISCONNECTING`
pub const STATE_DISCONNECTING: i32 = 3;

/// `BluetoothDevice.BOND_NONE`
pub const BOND_NONE: i32 = 10;

/// `BluetoothDevice.BOND_BONDING`
pub const BOND_BONDING: i32 = 11;

/// `BluetoothDevice.BOND_BONDED`
pub const BOND_BONDED: i32 = 12;

/// Connection state of a device.
#[derive(Debug, Clone, Copy, PartialEq, Eq, Structural)]
pub enum ConnectionState {
    Disconnected,
    Disconnecting,
    Connecting,
    Connected,
}

/// Whether a raw value is one of the four connection states.
pub open spec fn is_connection_state(raw: i32) -> bool {
    raw == STATE_DISCONNECTED || raw == STATE_DISCONNECTING || raw == STATE_CONNECTING || raw
        == STATE_CONNECTED
}

/// The connection state that a raw Android value stands for, if any.
pub open spec fn connection_state_spec(raw: i32) -> Option<ConnectionState> {
    if raw == STATE_DISCONNECTED {
        Some(ConnectionState::Disconnected)
    } else if raw == STATE_DISCONNECTING {
        Some(ConnectionState::Disconnecting)
    } else if raw == STATE_CONNECTING {
        Some(ConnectionState::Connecting)
    } else if raw == STATE_CONNECTED {
        Some(ConnectionState::Connected)
    } else {
        None
    }
}

impl ConnectionState {
    /// Converts a raw Android connection state; `None` for a value that is
    /// not a connection state.
    pub fn from_java(connection_state: i32) -> (r: Option<ConnectionState>)
        ensures
            r == connection_state_spec(connection_state),
            r is Some <==> is_connection_state(connection_state),
    {
        if connection_state == STATE_DISCONNECTED {
            Some(ConnectionState::Disconnected)
        } else if connection_state == STATE_DISCONNECTING {
            Some(ConnectionState::Disconnecting)
        } else if connection_state == STATE_CONNECTING {
            Some(ConnectionState::Connecting)
        } else if connection_state == STATE_CONNECTED {
            Some(ConnectionState::Connected)
        } else {
            None
        }
    }

    /// Converts a raw connection state that Android reports for a device
    /// (`Device::device_connection_state` and
    /// `Device::client_connection_state`). Android only reports the four
    /// states; the precondition states it.
    pub fn from_device(connection_state: i32) -> (r: ConnectionState)
        requires
            is_connection_state(connection_state),
        ensures
            Some(r) == connection_state_spec(connection_state),
    {
        match ConnectionState::from_java(connection_state) {
            Some(s) => s,
            None => ConnectionState::Disconnected,
        }
    }
}

/// Succeeds exactly when the GATT client is connected.
pub fn check_connected(state: ConnectionState) -> (r: GattResult<()>)
    ensures
        r is Ok <==> state == ConnectionState::Connected,
        r matches Err(e) ==> e is NotConnected,
{
    if state == ConnectionState::Connected {
        Ok(())
    } else {
        Err(GattError::NotConnected)
    }
}

/// The event that a change of connection state delivers: the state when the
/// GATT status is `GATT_SUCCESS`, otherwise the error that the status stands
/// for. Android reports a valid state with every successful status.
pub fn connection_change(status: i32, connection_state: i32) -> (r: GattResult<ConnectionState>)
    requires
        status == 0 ==> is_connection_state(connection_state),
    ensures
        r is Ok <==> status == 0,
        r matches Ok(s) ==> Some(s) == connection_state_spec(connection_state),
        r matches Err(e) ==> gatt_status_spec(status) == Err::<(), GattError>(e),
{
    match GattError::status_error(status) {
        Ok(()) => Ok(ConnectionState::from_device(connection_state)),
        Err(e) => Err(e),
    }
}

/// The next thing a connection operation does.
#[derive(Debug)]
pub enum ConnectionStep {
    /// The operation is over, with this result.
    Finished(GattResult<()>),
    /// Ask Android to connect or disconnect.
    Issue,
    /// Wait for the next connection event.
    AwaitEvent,
}

/// First step of `Device::connect`, given the current client connection
/// state: a connected device is done, any other asks Android to connect.
pub fn connect_start(current: ConnectionState) -> (r: ConnectionStep)
    ensures
        current == ConnectionState::Connected ==> r matches ConnectionStep::Finished(Ok(())),
        current != ConnectionState::Connected ==> r is Issue,
{
    if current == ConnectionState::Connected {
        ConnectionStep::Finished(Ok(()))
    } else {
        ConnectionStep::Issue
    }
}

/// Step of `Device::connect` after asking Android to connect: if Android did
/// not execute the request the operation fails, otherwise it waits.
pub fn connect_issued(executed: bool) -> (r: ConnectionStep)
    ensures
        !executed ==> r matches ConnectionStep::Finished(Err(GattError::NotExecuted)),
        executed ==> r is AwaitEvent,
{
    if executed {
        ConnectionStep::AwaitEvent
    } else {
        ConnectionStep::Finished(Err(GattError::NotExecuted))
    }
}

/// Step of `Device::connect` on the next connection event (`None` when the
/// events ended): the first event that is `Connected` or an error decides the
/// result; if the events end before that, the device is not connected.
pub fn connect_event(event: Option<GattResult<ConnectionState>>) -> (r: ConnectionStep)
    ensures
        event is None ==> r matches ConnectionStep::Finished(Err(GattError::NotConnected)),
        event matches Some(Ok(s)) ==> (if s == ConnectionState::Connected {
            r matches ConnectionStep::Finished(Ok(()))
        } else {
            r is AwaitEvent
        }),
        event matches Some(Err(e)) ==> r == ConnectionStep::Finished(Err(e)),
{
    match event {
        None => ConnectionStep::Finished(Err(GattError::NotConnected)),
        Some(Ok(s)) => {
            if s == ConnectionState::Connected {
                ConnectionStep::Finished(Ok(()))
            } else {
                ConnectionStep::AwaitEvent
            }
        },
        Some(Err(e)) => ConnectionStep::Finished(Err(e)),
    }
}

/// First step of `Device::disconnect`, given the current client connection
/// state: a device that is disconnected or disconnecting is done, any other
/// asks Android to disconnect.
pub fn disconnect_start(current: ConnectionState) -> (r: ConnectionStep)
    ensures
        (current == ConnectionState::Disconnected || current == ConnectionState::Disconnecting)
            ==> r matches ConnectionStep::Finished(Ok(())),
        !(current == ConnectionState::Disconnected || current == ConnectionState::Disconnecting)
            ==> r is Issue,
{
    if current == ConnectionState::Disconnected || current == ConnectionState::Disconnecting {
        ConnectionStep::Finished(Ok(()))
    } else {
        ConnectionStep::Issue
    }
}

/// Step of `Device::disconnect` after asking Android to disconnect: a Java
/// exception ends the operation, otherwise it waits.
pub fn disconnect_issued(call: Result<(), JavaError>) -> (r: ConnectionStep)
    ensures
        call is Ok ==> r is AwaitEvent,
        call matches Err(e) ==> r == ConnectionStep::Finished(Err(GattError::JavaError(e))),
{
    match call {
        Ok(()) => ConnectionStep::AwaitEvent,
        Err(e) => ConnectionStep::Finished(Err(GattError::JavaError(e))),
    }
}

/// Step of `Device::disconnect` on the next connection event (`None` when the
/// events ended): the first event that is `Disconnected` or an error decides
/// the result; if the events end before that, the request was not executed.
pub fn disconnect_event(event: Option<GattResult<ConnectionState>>) -> (r: ConnectionStep)
    ensures
        event is None ==> r matches ConnectionStep::Finished(Err(GattError::NotExecuted)),
        event matches Some(Ok(s)) ==> (if s == ConnectionState::Disconnected {
            r matches ConnectionStep::Finished(Ok(()))
        } else {
            r is AwaitEvent
        }),
        event matches Some(Err(e)) ==> r == ConnectionStep::Finished(Err(e)),
{
    match event {
        None => ConnectionStep::Finished(Err(GattError::NotExecuted)),
        Some(Ok(s)) => {
            if s == ConnectionState::Disconnected {
                ConnectionStep::Finished(Ok(()))
            } else {
                ConnectionStep::AwaitEvent
            }
        },
        Some(Err(e)) => ConnectionStep::Finished(Err(e)),
    }
}

/// Failure of pairing with a device.
#[derive(Debug)]
pub enum PairingError {
    /// An error occurred while pairing (e.g. the user did not enter a pairing
    /// code).
    PairingError,
    /// A bond state that is none of the known ones.
    Unknown(i32),
    JavaError(JavaError),
    /// The device must be connected to be paired.
    NotConnected,
}

/// The next thing a pairing operation does.
#[derive(Debug)]
pub enum PairingStep {
    /// The operation is over, with this result.
    Finished(Result<(), PairingError>),
    /// Ask Android to pair and listen for bond state changes.
    Issue,
    /// Wait for the next bond state change.
    AwaitEvent,
}

/// First step of `Device::pair`: a paired device is done; a device that is not
/// connected cannot be paired; otherwise pairing is requested.
pub fn pair_start(paired: bool, client_state: ConnectionState) -> (r: PairingStep)
    ensures
        paired ==> r matches PairingStep::Finished(Ok(())),
        !paired && client_state != ConnectionState::Connected ==> r matches PairingStep::Finished(
            Err(PairingError::NotConnected),
        ),
        !paired && client_state == ConnectionState::Connected ==> r is Issue,
{
    if paired {
        PairingStep::Finished(Ok(()))
    } else if client_state != ConnectionState::Connected {
        PairingStep::Finished(Err(PairingError::NotConnected))
    } else {
        PairingStep::Issue
    }
}

/// Step of `Device::pair` on a bond state change: bonded is success, bonding
/// means waiting on, no bond is a failed pairing, and any other state is an
/// unknown failure.
pub fn pair_event(bond_state: i32) -> (r: PairingStep)
    ensures
        bond_state == BOND_BONDED ==> r matches PairingStep::Finished(Ok(())),
        bond_state == BOND_BONDING ==> r is AwaitEvent,
        bond_state == BOND_NONE ==> r matches PairingStep::Finished(Err(PairingError::PairingError)),
        bond_state != BOND_BONDED && bond_state != BOND_BONDING && bond_state != BOND_NONE
            ==> (r matches PairingStep::Finished(Err(PairingError::Unknown(code)))
            && code == bond_state),
{
    if bond_state == BOND_BONDED {
        PairingStep::Finished(Ok(()))
    } else if bond_state == BOND_BONDING {
        PairingStep::AwaitEvent
    } else if bond_state == BOND_NONE {
        PairingStep::Finished(Err(PairingError::PairingError))
    } else {
        PairingStep::Finished(Err(PairingError::Unknown(bond_state)))
    }
}

/// The result that a GATT callback carrying a value delivers: the value when
/// the status is `GATT_SUCCESS`, otherwise the error the status stands for.
/// Used for read values, remote RSSI and discovered services.
pub fn status_value<T>(status: i32, value: T) -> (r: GattResult<T>)
    ensures
        r is Ok <==> status == 0,
        r matches Ok(v) ==> v == value,
        r matches Err(e) ==> gatt_status_spec(status) == Err::<(), GattError>(e),
{
    match GattError::status_error(status) {
        Ok(()) => Ok(value),
        Err(e) => Err(e),
    }
}

/// What a raw Android connection state stands for: each state exactly for
/// its own value (disconnected 0, connecting 1, connected 2, disconnecting 3),
/// and nothing for any other value. Bond states are none 10, bonding 11 and
/// bonded 12.
pub proof fn connection_state_meaning(raw: i32)
    ensures
        connection_state_spec(raw) == Some(ConnectionState::Disconnected) <==> raw == 0,
        connection_state_spec(raw) == Some(ConnectionState::Connecting) <==> raw == 1,
        connection_state_spec(raw) == Some(ConnectionState::Connected) <==> raw == 2,
        connection_state_spec(raw) == Some(ConnectionState::Disconnecting) <==> raw == 3,
        connection_state_spec(raw) is None <==> !(0 <= raw <= 3),
        is_connection_state(raw) <==> 0 <= raw <= 3,
        BOND_NONE == 10 && BOND_BONDING == 11 && BOND_BONDED == 12,
{
}

} // verus!
