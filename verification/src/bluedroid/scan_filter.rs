//! Filters for Bluetooth LE scans, and the calls on Android's
//! `ScanFilter.Builder` that build the Java representation of a filter.
use vstd::prelude::*;
use vstd::arithmetic::power2::pow2;
use crate::bluedroid::bytes::copy_bytes;

verus! {

/// Filter on an advertising data type, optionally with its data.
#[derive(Debug)]
pub struct AdvertistingDataType {
    pub advertising_data_type: u32,
    pub data: Option<AdvertisingDataData>,
}

/// Data of an advertising data type, with an optional bit mask.
#[derive(Debug)]
pub struct AdvertisingDataData {
    pub data: Vec<u8>,
    pub mask: Option<u128>,
}

/// Filter on manufacturer specific data.
#[derive(Debug)]
pub struct ManufacturerData {
    pub id: u32,
    pub data: Vec<u8>,
    pub mask: Option<Vec<u8>>,
}

/// Filter on the data of a service, the service named by its UUID.
#[derive(Debug)]
pub struct ServiceData {
    pub uuid: u128,
    pub data: Vec<u8>,
    pub mask: Option<Vec<u8>>,
}

/// Filter on a service solicitation UUID, optionally masked.
#[derive(Debug, Clone, Copy)]
pub struct SolicitationUuid {
    pub uuid: u128,
    pub mask: Option<u128>,
}

/// Filter on a service UUID, optionally masked.
#[derive(Debug, Clone, Copy)]
pub struct ServiceUuid {
    pub uuid: u128,
    pub mask: Option<u128>,
}

/// A filter for a Bluetooth LE scan. Every property that is set must match.
#[derive(Debug, Default)]
pub struct ScanFilter {
    pub advertising_data_type: Option<AdvertistingDataType>,
    pub device_address: Option<String>,
    pub name: Option<String>,
    pub manufacturer_data: Option<ManufacturerData>,
    pub service_data: Option<ServiceData>,
    pub solicitation_uuid: Option<SolicitationUuid>,
    pub service_uuid: Option<ServiceUuid>,
}

/// One call on `android.bluetooth.le.ScanFilter.Builder`. UUIDs are given by
/// their 128-bit value; byte arrays are given unsigned.
#[derive(Debug)]
#[allow(inconsistent_fields)]
pub enum ScanFilterCall {
    /// `setAdvertisingDataTypeWithData(int, byte[], byte[])`
    AdvertisingDataTypeWithData { data_type: i32, data: Vec<u8>, mask: Vec<u8> },
    /// `setAdvertisingDataType(int)`
    AdvertisingDataType { data_type: i32 },
    /// `setDeviceAddress(String)`
    DeviceAddress { address: String },
    /// `setDeviceName(String)`
    DeviceName { name: String },
    /// `setManufacturerData(int, byte[], byte[])`
    ManufacturerDataWithMask { id: i32, data: Vec<u8>, mask: Vec<u8> },
    /// `setManufacturerData(int, byte[])`
    ManufacturerData { id: i32, data: Vec<u8> },
    /// `setServiceData(ParcelUuid, byte[], byte[])`
    ServiceDataWithMask { uuid: u128, data: Vec<u8>, mask: Vec<u8> },
    /// `setServiceData(ParcelUuid, byte[])`
    ServiceData { uuid: u128, data: Vec<u8> },
    /// `setServiceSolicitationUuid(ParcelUuid, ParcelUuid)`
    ServiceSolicitationUuidWithMask { uuid: u128, mask: u128 },
    /// `setServiceSolicitationUuid(ParcelUuid)`
    ServiceSolicitationUuid { uuid: u128 },
    /// `setServiceUuid(ParcelUuid, ParcelUuid)`
    ServiceUuidWithMask { uuid: u128, mask: u128 },
    /// `setServiceUuid(ParcelUuid)`
    ServiceUuid { uuid: u128 },
}

/// The bytes of a 128-bit value, least significant first.
pub open spec fn le_bytes(v: u128) -> Seq<u8> {
    Seq::new(16, |i: int| (v as nat / pow2((8 * i) as nat) % 256) as u8)
}

/// `bytes` are the bytes of `v` in the byte order of some machine: little or
/// big endian.
pub open spec fn is_native_bytes(v: u128, bytes: Seq<u8>) -> bool {
    bytes == le_bytes(v) || bytes == le_bytes(v).reverse()
}

/// `u128::to_ne_bytes`: the bytes of the value in the byte order of the
/// machine. Which order that is depends on the machine; the contract states
/// what holds on every machine, that it is little or big endian.
#[verifier::external_body]
fn u128_to_ne_bytes(v: u128) -> (r: [u8; 16])
    ensures
        is_native_bytes(v, r@),
{
    v.to_ne_bytes()
}

/// The mask that a data filter of an advertising data type uses: the given
/// one, or all bits set.
pub open spec fn advertising_mask(mask: Option<u128>) -> u128 {
    match mask {
        Some(m) => m,
        None => u128::MAX,
    }
}

/// `c` is the call that sets the advertising data type filter `a`.
pub open spec fn advertising_data_type_call(a: &AdvertistingDataType, c: &ScanFilterCall) -> bool {
    match a.data {
        Some(d) => c matches ScanFilterCall::AdvertisingDataTypeWithData { data_type, data, mask }
            && data_type == a.advertising_data_type as i32 && data@ == d.data@
            && is_native_bytes(advertising_mask(d.mask), mask@),
        None => c matches ScanFilterCall::AdvertisingDataType { data_type }
            && data_type == a.advertising_data_type as i32,
    }
}

/// `c` is the call that sets the manufacturer data filter `m`.
pub open spec fn manufacturer_data_call(m: &ManufacturerData, c: &ScanFilterCall) -> bool {
    match m.mask {
        Some(k) => c matches ScanFilterCall::ManufacturerDataWithMask { id, data, mask }
            && id == m.id as i32 && data@ == m.data@ && mask@ == k@,
        None => c matches ScanFilterCall::ManufacturerData { id, data }
            && id == m.id as i32 && data@ == m.data@,
    }
}

/// `c` is the call that sets the service data filter `s`.
pub open spec fn service_data_call(s: &ServiceData, c: &ScanFilterCall) -> bool {
    match s.mask {
        Some(k) => c matches ScanFilterCall::ServiceDataWithMask { uuid, data, mask }
            && uuid == s.uuid && data@ == s.data@ && mask@ == k@,
        None => c matches ScanFilterCall::ServiceData { uuid, data }
            && uuid == s.uuid && data@ == s.data@,
    }
}

/// `c` is the call that sets the solicitation UUID filter `s`.
pub open spec fn solicitation_uuid_call(s: &SolicitationUuid, c: &ScanFilterCall) -> bool {
    match s.mask {
        Some(k) => c == ScanFilterCall::ServiceSolicitationUuidWithMask { uuid: s.uuid, mask: k },
        None => c == ScanFilterCall::ServiceSolicitationUuid { uuid: s.uuid },
    }
}

/// `c` is the call that sets the service UUID filter `s`.
pub open spec fn service_uuid_call(s: &ServiceUuid, c: &ScanFilterCall) -> bool {
    match s.mask {
        Some(k) => c == ScanFilterCall::ServiceUuidWithMask { uuid: s.uuid, mask: k },
        None => c == ScanFilterCall::ServiceUuid { uuid: s.uuid },
    }
}

/// 1 when a property is set, else 0.
pub open spec fn present(b: bool) -> int {
    if b {
        1
    } else {
        0
    }
}

impl ScanFilter {
    /// Position of each property's call among the builder calls: the number of
    /// set properties that come before it (in declaration order). Index 7 is
    /// the number of calls.
    pub open spec fn call_offset(&self, k: int) -> int {
        (if k > 0 { present(self.advertising_data_type is Some) } else { 0 })
            + (if k > 1 { present(self.device_address is Some) } else { 0 })
            + (if k > 2 { present(self.name is Some) } else { 0 })
            + (if k > 3 { present(self.manufacturer_data is Some) } else { 0 })
            + (if k > 4 { present(self.service_data is Some) } else { 0 })
            + (if k > 5 { present(self.solicitation_uuid is Some) } else { 0 })
            + (if k > 6 { present(self.service_uuid is Some) } else { 0 })
    }

    /// `calls` are the builder calls for this filter: one per set property, in
    /// declaration order, each with the arguments of that property.
    pub open spec fn is_builder_calls(&self, calls: Seq<ScanFilterCall>) -> bool {
        &&& calls.len() == self.call_offset(7)
        &&& (self.advertising_data_type matches Some(a) ==> advertising_data_type_call(
            &a,
            &calls[self.call_offset(0)],
        ))
        &&& (self.device_address matches Some(addr) ==> calls[self.call_offset(1)] matches ScanFilterCall::DeviceAddress { address }
            && address@ == addr@)
        &&& (self.name matches Some(n) ==> calls[self.call_offset(2)] matches ScanFilterCall::DeviceName { name }
            && name@ == n@)
        &&& (self.manufacturer_data matches Some(m) ==> manufacturer_data_call(
            &m,
            &calls[self.call_offset(3)],
        ))
        &&& (self.service_data matches Some(s) ==> service_data_call(&s, &calls[self.call_offset(4)]))
        &&& (self.solicitation_uuid matches Some(s) ==> solicitation_uuid_call(
            &s,
            &calls[self.call_offset(5)],
        ))
        &&& (self.service_uuid matches Some(s) ==> service_uuid_call(&s, &calls[self.call_offset(6)]))
    }

    /// The calls on `ScanFilter.Builder` that build this filter's Java
    /// representation, in the order they are made: one call per property that
    /// is set. Unsigned ids and types are passed on as the Java `int` with the
    /// same bits; an advertising data filter without a mask matches all bits.
    pub fn java_representation(&self) -> (r: Vec<ScanFilterCall>)
        ensures
            self.is_builder_calls(r@),
    {
        let mut calls: Vec<ScanFilterCall> = Vec::new();
        if let Some(a) = &self.advertising_data_type {
            let data_type = #[verifier::truncate] (a.advertising_data_type as i32);
            match &a.data {
                Some(d) => {
                    let m = match d.mask {
                        Some(m) => m,
                        None => u128::MAX,
                    };
                    let bytes = u128_to_ne_bytes(m);
                    let mask = copy_bytes(&bytes);
                    let data = copy_bytes(d.data.as_slice());
                    calls.push(ScanFilterCall::AdvertisingDataTypeWithData { data_type, data, mask });
                },
                None => {
                    calls.push(ScanFilterCall::AdvertisingDataType { data_type });
                },
            }
        }
        assert(calls@.len() == self.call_offset(1));
        if let Some(addr) = &self.device_address {
            calls.push(ScanFilterCall::DeviceAddress { address: addr.clone() });
        }
        assert(calls@.len() == self.call_offset(2));
        if let Some(n) = &self.name {
            calls.push(ScanFilterCall::DeviceName { name: n.clone() });
        }
        assert(calls@.len() == self.call_offset(3));
        if let Some(m) = &self.manufacturer_data {
            let id = #[verifier::truncate] (m.id as i32);
            let data = copy_bytes(m.data.as_slice());
            match &m.mask {
                Some(k) => {
                    let mask = copy_bytes(k.as_slice());
                    calls.push(ScanFilterCall::ManufacturerDataWithMask { id, data, mask });
                },
                None => {
                    calls.push(ScanFilterCall::ManufacturerData { id, data });
                },
            }
        }
        assert(calls@.len() == self.call_offset(4));
        if let Some(s) = &self.service_data {
            let data = copy_bytes(s.data.as_slice());
            match &s.mask {
                Some(k) => {
                    let mask = copy_bytes(k.as_slice());
                    calls.push(ScanFilterCall::ServiceDataWithMask { uuid: s.uuid, data, mask });
                },
                None => {
                    calls.push(ScanFilterCall::ServiceData { uuid: s.uuid, data });
                },
            }
        }
        assert(calls@.len() == self.call_offset(5));
        if let Some(s) = &self.solicitation_uuid {
            match s.mask {
                Some(k) => {
                    calls.push(ScanFilterCall::ServiceSolicitationUuidWithMask { uuid: s.uuid, mask: k });
                },
                None => {
                    calls.push(ScanFilterCall::ServiceSolicitationUuid { uuid: s.uuid });
                },
            }
        }
        assert(calls@.len() == self.call_offset(6));
        if let Some(s) = &self.service_uuid {
            match s.mask {
                Some(k) => {
                    calls.push(ScanFilterCall::ServiceUuidWithMask { uuid: s.uuid, mask: k });
                },
                None => {
                    calls.push(ScanFilterCall::ServiceUuid { uuid: s.uuid });
                },
            }
        }
        assert(calls@.len() == self.call_offset(7));
        calls
    }
}

/// A data filter of an advertising data type without a mask matches every
/// bit; one with a mask uses it as given.
pub proof fn advertising_mask_meaning(mask: u128)
    ensures
        advertising_mask(None) == 0xffff_ffff_ffff_ffff_ffff_ffff_ffff_ffffu128,
        advertising_mask(Some(mask)) == mask,
{
}

} // verus!
