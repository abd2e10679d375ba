use android_utilities::bluedroid::bytes::{copy_bytes, java_byte_array_to_rust, rust_slice_to_java_byte_array};
use android_utilities::bluedroid::callback_future::CallBackSlot;
use android_utilities::bluedroid::characteristic::{
    check_descriptor_writable, read_callback_value, CharacteristicProperties, WriteType,
    CCC_DESCRIPTOR,
};
use android_utilities::bluedroid::connection::{
    check_connected, connect_event, connect_issued, connect_start, connection_change,
    disconnect_event, disconnect_issued, disconnect_start, pair_event, pair_start, status_value,
    ConnectionState, ConnectionStep, PairingError, PairingStep,
};
use android_utilities::bluedroid::error::{BluetoothStatusCode, GattError};
use android_utilities::bluedroid::service::ServiceType;
use android_utilities::bluedroid::uuids::{java_uuid_to_rust, rust_java_uuid};
use android_utilities::java_result::{JavaError, JavaException};

#[test]
fn gatt_status_codes() {
    assert!(matches!(GattError::status_error(0), Ok(())));
    assert!(matches!(GattError::status_error(2), Err(GattError::GattReadNotPermitted)));
    assert!(matches!(GattError::status_error(3), Err(GattError::GattWriteNotPermitted)));
    assert!(matches!(GattError::status_error(5), Err(GattError::GattInsufficientAuthentication)));
    assert!(matches!(GattError::status_error(6), Err(GattError::GattRequestNotSupported)));
    assert!(matches!(GattError::status_error(7), Err(GattError::GattInvalidOffset)));
    assert!(matches!(GattError::status_error(8), Err(GattError::GattInsufficientAuthorization)));
    assert!(matches!(GattError::status_error(13), Err(GattError::GattInvalidAttributeLength)));
    assert!(matches!(GattError::status_error(15), Err(GattError::GattInsufficientEncryption)));
    assert!(matches!(GattError::status_error(143), Err(GattError::GattConnectionCongested)));
    assert!(matches!(GattError::status_error(147), Err(GattError::GattConnectionTimeout)));
    assert!(matches!(GattError::status_error(257), Err(GattError::GattFailure)));
    assert!(matches!(GattError::status_error(1), Err(GattError::UnknownError(1))));
    assert!(matches!(GattError::status_error(-4), Err(GattError::UnknownError(-4))));
}

#[test]
fn bluetooth_status_codes() {
    assert_eq!(BluetoothStatusCode::java_status_code(1), BluetoothStatusCode::NotEnabled);
    assert_eq!(BluetoothStatusCode::java_status_code(2), BluetoothStatusCode::NotAllowed);
    assert_eq!(BluetoothStatusCode::java_status_code(3), BluetoothStatusCode::NotBonded);
    assert_eq!(
        BluetoothStatusCode::java_status_code(6),
        BluetoothStatusCode::MissingBluetoothConnectPermission
    );
    assert_eq!(BluetoothStatusCode::java_status_code(9), BluetoothStatusCode::ProfileServiceNotBound);
    assert_eq!(BluetoothStatusCode::java_status_code(11), BluetoothStatusCode::FeatureNotSupported);
    assert_eq!(BluetoothStatusCode::java_status_code(30), BluetoothStatusCode::FeatureNotConfigured);
    assert_eq!(BluetoothStatusCode::java_status_code(200), BluetoothStatusCode::GattWriteNotAllowed);
    assert_eq!(BluetoothStatusCode::java_status_code(201), BluetoothStatusCode::GattWriteBusy);
    assert_eq!(BluetoothStatusCode::java_status_code(i32::MAX), BluetoothStatusCode::Unknown);
    assert_eq!(BluetoothStatusCode::java_status_code(10), BluetoothStatusCode::UnknownError(10));
    assert_eq!(BluetoothStatusCode::status_result(0), Ok(()));
    assert_eq!(BluetoothStatusCode::status_result(3), Err(BluetoothStatusCode::NotBonded));
    assert!(matches!(BluetoothStatusCode::gatt_result(0), Ok(())));
    assert!(matches!(
        BluetoothStatusCode::gatt_result(201),
        Err(GattError::BluetoothStatusCode(BluetoothStatusCode::GattWriteBusy))
    ));
}

#[test]
fn executed_calls() {
    assert!(matches!(GattError::check_executed(true), Ok(())));
    assert!(matches!(GattError::check_executed(false), Err(GattError::NotExecuted)));
}

#[test]
fn connection_states() {
    assert_eq!(ConnectionState::from_java(0), Some(ConnectionState::Disconnected));
    assert_eq!(ConnectionState::from_java(1), Some(ConnectionState::Connecting));
    assert_eq!(ConnectionState::from_java(2), Some(ConnectionState::Connected));
    assert_eq!(ConnectionState::from_java(3), Some(ConnectionState::Disconnecting));
    assert_eq!(ConnectionState::from_java(4), None);
    assert_eq!(ConnectionState::from_java(-1), None);
    assert_eq!(ConnectionState::from_device(2), ConnectionState::Connected);
}

#[test]
fn connected_check() {
    assert!(matches!(check_connected(ConnectionState::Connected), Ok(())));
    assert!(matches!(check_connected(ConnectionState::Connecting), Err(GattError::NotConnected)));
    assert!(matches!(check_connected(ConnectionState::Disconnected), Err(GattError::NotConnected)));
}

#[test]
fn connection_change_events() {
    assert!(matches!(connection_change(0, 2), Ok(ConnectionState::Connected)));
    assert!(matches!(connection_change(0, 0), Ok(ConnectionState::Disconnected)));
    assert!(matches!(connection_change(147, 2), Err(GattError::GattConnectionTimeout)));
    // With a failed status the state is not read.
    assert!(matches!(connection_change(257, 99), Err(GattError::GattFailure)));
}

#[test]
fn connect_steps() {
    assert!(matches!(connect_start(ConnectionState::Connected), ConnectionStep::Finished(Ok(()))));
    assert!(matches!(connect_start(ConnectionState::Disconnected), ConnectionStep::Issue));
    assert!(matches!(
        connect_issued(false),
        ConnectionStep::Finished(Err(GattError::NotExecuted))
    ));
    assert!(matches!(connect_issued(true), ConnectionStep::AwaitEvent));
    // Events: the current state first, then connecting, then connected.
    assert!(matches!(connect_event(Some(Ok(ConnectionState::Disconnected))), ConnectionStep::AwaitEvent));
    assert!(matches!(connect_event(Some(Ok(ConnectionState::Connecting))), ConnectionStep::AwaitEvent));
    assert!(matches!(
        connect_event(Some(Ok(ConnectionState::Connected))),
        ConnectionStep::Finished(Ok(()))
    ));
    assert!(matches!(
        connect_event(Some(Err(GattError::GattConnectionTimeout))),
        ConnectionStep::Finished(Err(GattError::GattConnectionTimeout))
    ));
    assert!(matches!(connect_event(None), ConnectionStep::Finished(Err(GattError::NotConnected))));
}

#[test]
fn disconnect_steps() {
    assert!(matches!(disconnect_start(ConnectionState::Disconnected), ConnectionStep::Finished(Ok(()))));
    assert!(matches!(disconnect_start(ConnectionState::Disconnecting), ConnectionStep::Finished(Ok(()))));
    assert!(matches!(disconnect_start(ConnectionState::Connected), ConnectionStep::Issue));
    assert!(matches!(disconnect_start(ConnectionState::Connecting), ConnectionStep::Issue));
    assert!(matches!(disconnect_issued(Ok(())), ConnectionStep::AwaitEvent));
    let err = JavaError::Throwable(JavaException { description: "java.lang.IllegalStateException".to_string() });
    match disconnect_issued(Err(err)) {
        ConnectionStep::Finished(Err(GattError::JavaError(JavaError::Throwable(e)))) => {
            assert_eq!(e.description, "java.lang.IllegalStateException")
        }
        other => panic!("unexpected step {other:?}"),
    }
    assert!(matches!(disconnect_event(Some(Ok(ConnectionState::Disconnecting))), ConnectionStep::AwaitEvent));
    assert!(matches!(
        disconnect_event(Some(Ok(ConnectionState::Disconnected))),
        ConnectionStep::Finished(Ok(()))
    ));
    assert!(matches!(
        disconnect_event(Some(Err(GattError::GattFailure))),
        ConnectionStep::Finished(Err(GattError::GattFailure))
    ));
    assert!(matches!(disconnect_event(None), ConnectionStep::Finished(Err(GattError::NotExecuted))));
}

#[test]
fn pairing_steps() {
    assert!(matches!(pair_start(true, ConnectionState::Disconnected), PairingStep::Finished(Ok(()))));
    assert!(matches!(
        pair_start(false, ConnectionState::Disconnected),
        PairingStep::Finished(Err(PairingError::NotConnected))
    ));
    assert!(matches!(pair_start(false, ConnectionState::Connected), PairingStep::Issue));
    assert!(matches!(pair_event(12), PairingStep::Finished(Ok(()))));
    assert!(matches!(pair_event(11), PairingStep::AwaitEvent));
    assert!(matches!(pair_event(10), PairingStep::Finished(Err(PairingError::PairingError))));
    assert!(matches!(pair_event(42), PairingStep::Finished(Err(PairingError::Unknown(42)))));
}

#[test]
fn callback_values() {
    assert!(matches!(status_value(0, -60), Ok(-60)));
    assert!(matches!(status_value(5, -60), Err(GattError::GattInsufficientAuthentication)));
    match read_callback_value(0, &[1, -1, 127, -128]) {
        Ok(v) => assert_eq!(v, vec![1, 255, 127, 128]),
        Err(e) => panic!("unexpected error {e:?}"),
    }
    assert!(matches!(read_callback_value(2, &[1]), Err(GattError::GattReadNotPermitted)));
}

#[test]
fn characteristic_properties() {
    let p = CharacteristicProperties::new(2 | 8 | 16);
    assert!(p.read());
    assert!(p.write());
    assert!(p.notify());
    assert!(!p.broadcast());
    assert!(!p.write_no_response());
    assert!(!p.indicate());
    assert!(!p.signed_write());
    assert!(!p.extended_props());
    assert_eq!(p.bits(), 26);
    let all = CharacteristicProperties::new(255);
    assert!(all.broadcast() && all.write_no_response() && all.indicate());
    assert!(all.signed_write() && all.extended_props());
}

#[test]
fn write_types() {
    assert_eq!(WriteType::Default.java_representation(), 2);
    assert_eq!(WriteType::NoResponse.java_representation(), 1);
    assert_eq!(WriteType::Signed.java_representation(), 4);
    assert_eq!(WriteType::default(), WriteType::Default);
}

#[test]
fn ccc_descriptor_is_not_writable() {
    let ccc = uuid::Uuid::parse_str("00002902-0000-1000-8000-00805f9b34fb").unwrap();
    assert_eq!(CCC_DESCRIPTOR, ccc.as_u128());
    assert!(matches!(check_descriptor_writable(CCC_DESCRIPTOR), Err(GattError::WritingToCCCDescriptor)));
    assert!(matches!(check_descriptor_writable(CCC_DESCRIPTOR + 1), Ok(())));
}

#[test]
fn service_types() {
    assert_eq!(ServiceType::from_java(0), ServiceType::Primary);
    assert_eq!(ServiceType::from_java(1), ServiceType::Secondary);
}

#[test]
fn uuid_conversions() {
    let u = uuid::Uuid::parse_str("a1a2a3a4-b1b2-c1c2-d1d2-d3d4d5d6d7d8").unwrap();
    let (msb, lsb) = u.as_u64_pair();
    let (jmsb, jlsb) = (msb as i64, lsb as i64);
    assert_eq!(java_uuid_to_rust(jmsb, jlsb), u.as_u128());
    assert_eq!(rust_java_uuid(u.as_u128()), (jmsb, jlsb));
    assert_eq!(java_uuid_to_rust(0, 1), 1);
    assert_eq!(java_uuid_to_rust(1, 0), 1u128 << 64);
    assert_eq!(java_uuid_to_rust(-1, -1), u128::MAX);
    assert_eq!(rust_java_uuid(u128::MAX), (-1, -1));
    let round = rust_java_uuid(CCC_DESCRIPTOR);
    assert_eq!(java_uuid_to_rust(round.0, round.1), CCC_DESCRIPTOR);
}

#[test]
fn byte_conversions() {
    assert_eq!(java_byte_array_to_rust(&[0, 1, -1, -128, 127]), vec![0, 1, 255, 128, 127]);
    assert_eq!(rust_slice_to_java_byte_array(&[0, 1, 255, 128, 127]), vec![0, 1, -1, -128, 127]);
    let bytes: Vec<u8> = (0..=255).collect();
    assert_eq!(java_byte_array_to_rust(&rust_slice_to_java_byte_array(&bytes)), bytes);
    assert_eq!(copy_bytes(&[4, 5, 6]), vec![4, 5, 6]);
    assert_eq!(java_byte_array_to_rust(&[]), Vec::<u8>::new());
}

#[test]
fn callback_slot_delivers_once() {
    let mut slot: CallBackSlot<u32, &str> = CallBackSlot::new(7, Some("lock"));
    assert_eq!(slot.wake(), (Some(7), Some("lock")));
    assert_eq!(slot.wake(), (None, None));
    let mut unlocked: CallBackSlot<u32, &str> = CallBackSlot::new(1, None);
    assert_eq!(unlocked.wake(), (Some(1), None));
}
