use std::collections::HashMap;

use android_utilities::bluedroid::scan::{scan_request, scan_started, ScanError};
use android_utilities::bluedroid::scan_filter::{
    AdvertisingDataData, AdvertistingDataType, ManufacturerData, ScanFilter, ScanFilterCall,
    ServiceData, ServiceUuid, SolicitationUuid,
};
use android_utilities::bluedroid::scan_result::{
    AdvertisingFlags, DataStatus, ScanRecord, ScanResult,
};

#[test]
fn scan_error_codes() {
    assert_eq!(ScanError::from_java(0), None);
    assert_eq!(ScanError::from_java(1), Some(ScanError::AlreadyStarted));
    assert_eq!(ScanError::from_java(2), Some(ScanError::ApplicationRegistration));
    assert_eq!(ScanError::from_java(3), Some(ScanError::InteralError));
    assert_eq!(ScanError::from_java(4), Some(ScanError::FeatureUnsupported));
    assert_eq!(ScanError::from_java(5), Some(ScanError::OutOfHardwareResources));
    assert_eq!(ScanError::from_java(6), Some(ScanError::ScanningToFrequently));
    assert_eq!(ScanError::from_java(7), Some(ScanError::Unknown(7)));
}

#[test]
fn empty_filter_makes_no_calls() {
    assert!(ScanFilter::default().java_representation().is_empty());
}

#[test]
fn filter_calls_in_order() {
    let filter = ScanFilter {
        advertising_data_type: Some(AdvertistingDataType { advertising_data_type: 0x16, data: None }),
        device_address: Some("AA:BB:CC:DD:EE:FF".to_string()),
        name: Some("gatt_echo_server".to_string()),
        manufacturer_data: Some(ManufacturerData { id: 0x004c, data: vec![1, 2], mask: None }),
        service_data: None,
        solicitation_uuid: None,
        service_uuid: Some(ServiceUuid { uuid: 42, mask: Some(u128::MAX) }),
    };
    let calls = filter.java_representation();
    assert_eq!(calls.len(), 5);
    assert!(matches!(calls[0], ScanFilterCall::AdvertisingDataType { data_type: 0x16 }));
    assert!(matches!(&calls[1], ScanFilterCall::DeviceAddress { address } if address == "AA:BB:CC:DD:EE:FF"));
    assert!(matches!(&calls[2], ScanFilterCall::DeviceName { name } if name == "gatt_echo_server"));
    assert!(matches!(&calls[3], ScanFilterCall::ManufacturerData { id: 0x004c, data } if data == &vec![1u8, 2]));
    assert!(matches!(calls[4], ScanFilterCall::ServiceUuidWithMask { uuid: 42, mask: u128::MAX }));
}

#[test]
fn advertising_data_mask_defaults_to_all_bits() {
    let filter = ScanFilter {
        advertising_data_type: Some(AdvertistingDataType {
            advertising_data_type: 0xffff_ffff,
            data: Some(AdvertisingDataData { data: vec![9, 8], mask: None }),
        }),
        ..Default::default()
    };
    let calls = filter.java_representation();
    assert_eq!(calls.len(), 1);
    match &calls[0] {
        ScanFilterCall::AdvertisingDataTypeWithData { data_type, data, mask } => {
            assert_eq!(*data_type, -1);
            assert_eq!(data, &vec![9, 8]);
            assert_eq!(mask, &vec![0xff; 16]);
        }
        other => panic!("unexpected call {other:?}"),
    }
}

#[test]
fn advertising_data_mask_in_native_byte_order() {
    let filter = ScanFilter {
        advertising_data_type: Some(AdvertistingDataType {
            advertising_data_type: 1,
            data: Some(AdvertisingDataData { data: vec![], mask: Some(0x0102) }),
        }),
        ..Default::default()
    };
    match &filter.java_representation()[0] {
        ScanFilterCall::AdvertisingDataTypeWithData { mask, .. } => {
            assert_eq!(mask, &0x0102u128.to_ne_bytes().to_vec());
        }
        other => panic!("unexpected call {other:?}"),
    }
}

#[test]
fn masked_data_filters() {
    let filter = ScanFilter {
        manufacturer_data: Some(ManufacturerData { id: 7, data: vec![1], mask: Some(vec![0xf0]) }),
        service_data: Some(ServiceData { uuid: 5, data: vec![2, 3], mask: Some(vec![0xff, 0]) }),
        solicitation_uuid: Some(SolicitationUuid { uuid: 9, mask: None }),
        ..Default::default()
    };
    let calls = filter.java_representation();
    assert_eq!(calls.len(), 3);
    assert!(matches!(&calls[0], ScanFilterCall::ManufacturerDataWithMask { id: 7, data, mask }
        if data == &vec![1u8] && mask == &vec![0xf0u8]));
    assert!(matches!(&calls[1], ScanFilterCall::ServiceDataWithMask { uuid: 5, data, mask }
        if data == &vec![2u8, 3] && mask == &vec![0xffu8, 0]));
    assert!(matches!(calls[2], ScanFilterCall::ServiceSolicitationUuid { uuid: 9 }));
}

#[test]
fn unmasked_service_filters() {
    let filter = ScanFilter {
        service_data: Some(ServiceData { uuid: 5, data: vec![2], mask: None }),
        solicitation_uuid: Some(SolicitationUuid { uuid: 9, mask: Some(3) }),
        service_uuid: Some(ServiceUuid { uuid: 11, mask: None }),
        ..Default::default()
    };
    let calls = filter.java_representation();
    assert!(matches!(&calls[0], ScanFilterCall::ServiceData { uuid: 5, data } if data == &vec![2u8]));
    assert!(matches!(calls[1], ScanFilterCall::ServiceSolicitationUuidWithMask { uuid: 9, mask: 3 }));
    assert!(matches!(calls[2], ScanFilterCall::ServiceUuid { uuid: 11 }));
}

#[test]
fn scan_requests() {
    assert!(scan_request(&Vec::new()).is_none());
    let filters = vec![
        ScanFilter { name: Some("a".to_string()), ..Default::default() },
        ScanFilter::default(),
    ];
    let calls = scan_request(&filters).unwrap();
    assert_eq!(calls.len(), 2);
    assert_eq!(calls[0].len(), 1);
    assert!(calls[1].is_empty());
    assert_eq!(scan_started(Some(3)), Ok(3));
    assert_eq!(scan_started::<u8>(None), Err(ScanError::Unavailable));
}

fn uuid_halves(value: u128) -> (i64, i64) {
    ((value >> 64) as u64 as i64, value as u64 as i64)
}

fn sample_result() -> ScanResult {
    ScanResult {
        raw_advertising_sid: -1,
        raw_data_status: 2,
        raw_periodic_advertising_interval: 8,
        raw_rssi: -70,
        raw_tx_power: 127,
        connectable: true,
        record: ScanRecord {
            raw_advertise_flags: 0b110,
            raw_manufacturer_data: Some(vec![(0x004c, vec![1, -1]), (-2, vec![5])]),
            raw_service_data: Some(vec![
                Some((uuid_halves(0xabcd).0, uuid_halves(0xabcd).1, vec![3, 4])),
                None,
            ]),
            raw_service_solicitation_uuids: Some(vec![None, Some(uuid_halves(77))]),
            raw_service_uuids: Some(vec![Some(uuid_halves(1)), Some(uuid_halves(u128::MAX))]),
            device_name: Some("echo".to_string()),
        },
    }
}

#[test]
fn scan_result_values() {
    let r = sample_result();
    assert_eq!(r.advertising_sid(), u32::MAX);
    assert_eq!(r.data_status(), DataStatus::Truncated);
    assert_eq!(r.periodic_advertising_interval(), Some(10_000));
    assert_eq!(r.rssi(), -70);
    assert_eq!(r.tx_power_level(), None);
    assert!(r.is_connectable());
    assert_eq!(r.local_name(), Some("echo".to_string()));
}

#[test]
fn scan_result_absent_values() {
    let mut r = sample_result();
    r.raw_data_status = 0;
    r.raw_periodic_advertising_interval = 0;
    r.raw_tx_power = -12;
    r.record.raw_advertise_flags = -1;
    r.record.raw_manufacturer_data = None;
    r.record.raw_service_data = None;
    r.record.raw_service_uuids = None;
    r.record.raw_service_solicitation_uuids = None;
    r.record.device_name = None;
    assert_eq!(r.data_status(), DataStatus::Complete);
    assert_eq!(r.periodic_advertising_interval(), None);
    assert_eq!(r.tx_power_level(), Some(-12));
    assert_eq!(r.advertising_flags(), None);
    assert!(r.manufacturer_specific_data().is_empty());
    assert_eq!(r.manufacturer_id_specific_data(0x004c), None);
    assert!(r.get_service_datas().is_empty());
    assert_eq!(r.get_service_data(0xabcd), None);
    assert!(r.get_service_uuids().is_empty());
    assert!(r.get_service_solicitation_uuids().is_empty());
    assert_eq!(r.local_name(), None);
}

#[test]
fn scan_result_flags() {
    let flags = sample_result().advertising_flags().unwrap();
    assert!(!flags.le_discoverable());
    assert!(flags.general_discoverable());
    assert!(flags.br_edr_not_supported());
    assert!(!flags.simultaneous_le_br_edr());
    assert_eq!(flags.to_u32(), 6);
    assert_eq!(AdvertisingFlags::new(-2).to_u32(), u32::MAX - 1);
}

#[test]
fn scan_result_data() {
    let r = sample_result();
    let mut expected = HashMap::new();
    expected.insert(0x004cu32, vec![1u8, 255]);
    expected.insert(u32::MAX - 1, vec![5u8]);
    assert_eq!(r.manufacturer_specific_data(), expected);
    assert_eq!(r.manufacturer_id_specific_data(0x004c), Some(vec![1, 255]));
    assert_eq!(r.manufacturer_id_specific_data(u32::MAX - 1), Some(vec![5]));
    assert_eq!(r.manufacturer_id_specific_data(3), None);
    let mut services = HashMap::new();
    services.insert(0xabcdu128, vec![3u8, 4]);
    assert_eq!(r.get_service_datas(), services);
    assert_eq!(r.get_service_data(0xabcd), Some(vec![3, 4]));
    assert_eq!(r.get_service_data(0xabce), None);
    assert_eq!(r.get_service_solicitation_uuids(), vec![77]);
    assert_eq!(r.get_service_uuids(), vec![1, u128::MAX]);
}

#[test]
fn later_manufacturer_entry_wins() {
    let mut r = sample_result();
    r.record.raw_manufacturer_data = Some(vec![(1, vec![1]), (1, vec![2])]);
    assert_eq!(r.manufacturer_id_specific_data(1), Some(vec![2]));
    assert_eq!(r.manufacturer_specific_data().get(&1), Some(&vec![2]));
}
