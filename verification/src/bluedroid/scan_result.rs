//! Results of a Bluetooth LE scan.
//!
//! A [`ScanResult`] holds the values that Android reports for one advertisement
//! (`android.bluetooth.le.ScanResult` and its `ScanRecord`) as the raw values
//! Java gives; its methods interpret them.
use vstd::prelude::*;
use std::collections::HashMap;
use crate::bluedroid::bytes::{java_byte_array_to_rust, unsigned_bytes};
use crate::bluedroid::uuids::{java_uuid_to_rust, uuid_from_java_spec};

verus! {

broadcast use vstd::std_specs::hash::group_hash_axioms;

/// `ScanResult.DATA_COMPLETE`
pub const DATA_COMPLETE: i32 = 0;

/// `ScanResult.DATA_TRUNCATED`
pub const DATA_TRUNCATED: i32 = 2;

/// `ScanResult.PERIODIC_INTERVAL_NOT_PRESENT`
pub const PERIODIC_INTERVAL_NOT_PRESENT: i32 = 0;

/// `ScanResult.TX_POWER_NOT_PRESENT`
pub const TX_POWER_NOT_PRESENT: i32 = 127;

/// Android reports periodic advertising intervals in units of 1.25 ms.
pub const PERIODIC_ADVERTISING_INTERVAL_UNIT_MICROS: u64 = 1250;

/// Advertising flag: LE limited discoverable mode.
pub const LE_DISCOVERABLE_MODE: i32 = 0b1;

/// Advertising flag: LE general discoverable mode.
pub const GENERAL_DISCOVERABLE_MODE: i32 = 0b10;

/// Advertising flag: BR/EDR not supported.
pub const BR_EDR_NOT_SUPPORTED: i32 = 0b100;

/// Advertising flag: simultaneous LE and BR/EDR to the same device.
pub const SIMULTANIOUS_LE_BR_EDR: i32 = 0b1000;

/// Whether the advertising data was received completely.
#[derive(Debug, Clone, Copy, PartialEq, Eq, Structural)]
pub enum DataStatus {
    Complete,
    Truncated,
}

/// The flags of an advertisement (see the Bluetooth "Supplement to the Core
/// Specification", data type Flags).
#[derive(Debug, Default, Clone, Copy, PartialEq, Eq, Structural)]
pub struct AdvertisingFlags(i32);

impl AdvertisingFlags {
    /// The raw flag bits.
    pub closed spec fn raw(&self) -> i32 {
        self.0
    }

    /// The flags with the given bits.
    pub fn new(raw: i32) -> (r: AdvertisingFlags)
        ensures
            r.raw() == raw,
    {
        AdvertisingFlags(raw)
    }

    /// LE limited discoverable mode.
    pub fn le_discoverable(&self) -> (r: bool)
        ensures
            r == (self.raw() & LE_DISCOVERABLE_MODE != 0),
    {
        (self.0 & LE_DISCOVERABLE_MODE) != 0
    }

    /// LE general discoverable mode.
    pub fn general_discoverable(&self) -> (r: bool)
        ensures
            r == (self.raw() & GENERAL_DISCOVERABLE_MODE != 0),
    {
        (self.0 & GENERAL_DISCOVERABLE_MODE) != 0
    }

    /// BR/EDR is not supported.
    pub fn br_edr_not_supported(&self) -> (r: bool)
        ensures
            r == (self.raw() & BR_EDR_NOT_SUPPORTED != 0),
    {
        (self.0 & BR_EDR_NOT_SUPPORTED) != 0
    }

    /// Simultaneous LE and BR/EDR to the same device.
    pub fn simultaneous_le_br_edr(&self) -> (r: bool)
        ensures
            r == (self.raw() & SIMULTANIOUS_LE_BR_EDR != 0),
    {
        (self.0 & SIMULTANIOUS_LE_BR_EDR) != 0
    }

    /// The flag bits as an unsigned value (same bits).
    pub fn to_u32(&self) -> (r: u32)
        ensures
            r == self.raw() as u32,
    {
        #[verifier::truncate]
        (self.0 as u32)
    }
}

/// The values of a scan record (`android.bluetooth.le.ScanRecord`), as Java
/// gives them. Absent collections are `None`; entries of Java collections that
/// are `null` are `None`.
#[derive(Debug)]
pub struct ScanRecord {
    /// `getAdvertiseFlags()`; -1 when absent.
    pub raw_advertise_flags: i32,
    /// `getManufacturerSpecificData()`: pairs of manufacturer id and data.
    pub raw_manufacturer_data: Option<Vec<(i32, Vec<i8>)>>,
    /// `getServiceData()`: the UUID halves of each service and its data.
    pub raw_service_data: Option<Vec<Option<(i64, i64, Vec<i8>)>>>,
    /// `getServiceSolicitationUuids()`: UUID halves.
    pub raw_service_solicitation_uuids: Option<Vec<Option<(i64, i64)>>>,
    /// `getServiceUuids()`: UUID halves.
    pub raw_service_uuids: Option<Vec<Option<(i64, i64)>>>,
    /// `getDeviceName()`.
    pub device_name: Option<String>,
}

/// The values of one scan result (`android.bluetooth.le.ScanResult`), as Java
/// gives them.
#[derive(Debug)]
pub struct ScanResult {
    /// `getAdvertisingSid()`.
    pub raw_advertising_sid: i32,
    /// `getDataStatus()`.
    pub raw_data_status: i32,
    /// `getPeriodicAdvertisingInterval()`, in units of 1.25 ms.
    pub raw_periodic_advertising_interval: i32,
    /// `getRssi()`.
    pub raw_rssi: i32,
    /// `getTxPower()`.
    pub raw_tx_power: i32,
    /// `isConnectable()`.
    pub connectable: bool,
    /// `getScanRecord()`.
    pub record: ScanRecord,
}

/// Manufacturer data entries, with the byte arrays as sequences.
pub open spec fn manufacturer_entries(v: Seq<(i32, Vec<i8>)>) -> Seq<(i32, Seq<i8>)> {
    v.map_values(|e: (i32, Vec<i8>)| (e.0, e.1@))
}

/// The map from manufacturer id to data that inserting the entries in order
/// builds.
pub open spec fn manufacturer_map(entries: Seq<(i32, Seq<i8>)>) -> Map<u32, Seq<u8>>
    decreases entries.len(),
{
    if entries.len() == 0 {
        Map::empty()
    } else {
        manufacturer_map(entries.drop_last()).insert(
            entries.last().0 as u32,
            unsigned_bytes(entries.last().1),
        )
    }
}

/// Service data entries, with the byte arrays as sequences.
pub open spec fn service_entries(v: Seq<Option<(i64, i64, Vec<i8>)>>) -> Seq<
    Option<(i64, i64, Seq<i8>)>,
> {
    v.map_values(
        |e: Option<(i64, i64, Vec<i8>)>|
            match e {
                Some(t) => Some((t.0, t.1, t.2@)),
                None => None,
            },
    )
}

/// The map from service UUID to data that inserting the entries that are
/// present, in order, builds.
pub open spec fn service_map(entries: Seq<Option<(i64, i64, Seq<i8>)>>) -> Map<u128, Seq<u8>>
    decreases entries.len(),
{
    if entries.len() == 0 {
        Map::empty()
    } else {
        match entries.last() {
            Some(t) => service_map(entries.drop_last()).insert(
                uuid_from_java_spec(t.0, t.1),
                unsigned_bytes(t.2),
            ),
            None => service_map(entries.drop_last()),
        }
    }
}

/// The UUIDs of the entries that are present, in order.
pub open spec fn uuid_list(entries: Seq<Option<(i64, i64)>>) -> Seq<u128>
    decreases entries.len(),
{
    if entries.len() == 0 {
        Seq::empty()
    } else {
        match entries.last() {
            Some(t) => uuid_list(entries.drop_last()).push(uuid_from_java_spec(t.0, t.1)),
            None => uuid_list(entries.drop_last()),
        }
    }
}

/// The values of a map of byte vectors, as sequences.
pub open spec fn byte_map_view<K>(m: Map<K, Vec<u8>>) -> Map<K, Seq<u8>> {
    m.map_values(|v: Vec<u8>| v@)
}

/// The bytes of an optional byte vector, as a sequence.
pub open spec fn opt_bytes(o: Option<Vec<u8>>) -> Option<Seq<u8>> {
    match o {
        Some(v) => Some(v@),
        None => None,
    }
}

/// The value of a key in a map, if any.
pub open spec fn map_get<K, V>(m: Map<K, V>, k: K) -> Option<V> {
    if m.contains_key(k) {
        Some(m[k])
    } else {
        None
    }
}

/// Builds the map from manufacturer id to data.
fn manufacturer_data_map(entries: &Vec<(i32, Vec<i8>)>) -> (r: HashMap<u32, Vec<u8>>)
    ensures
        byte_map_view(r@) == manufacturer_map(manufacturer_entries(entries@)),
{
    let mut m: HashMap<u32, Vec<u8>> = HashMap::new();
    let mut i: usize = 0;
    while i < entries.len()
        invariant
            i <= entries@.len(),
            byte_map_view(m@) == manufacturer_map(manufacturer_entries(entries@.take(i as int))),
        decreases entries@.len() - i,
    {
        let key = #[verifier::truncate] (entries[i].0 as u32);
        let value = java_byte_array_to_rust(entries[i].1.as_slice());
        let ghost old_m = m@;
        m.insert(key, value);
        proof {
            let taken = manufacturer_entries(entries@.take(i + 1));
            assert(taken.drop_last() =~= manufacturer_entries(entries@.take(i as int)));
            assert(byte_map_view(m@) =~= byte_map_view(old_m).insert(key, value@));
        }
        i = i + 1;
    }
    assert(entries@.take(entries@.len() as int) =~= entries@);
    m
}

/// Builds the map from service UUID to data.
fn service_data_map(entries: &Vec<Option<(i64, i64, Vec<i8>)>>) -> (r: HashMap<u128, Vec<u8>>)
    ensures
        byte_map_view(r@) == service_map(service_entries(entries@)),
{
    let mut m: HashMap<u128, Vec<u8>> = HashMap::new();
    let mut i: usize = 0;
    while i < entries.len()
        invariant
            i <= entries@.len(),
            byte_map_view(m@) == service_map(service_entries(entries@.take(i as int))),
        decreases entries@.len() - i,
    {
        let ghost old_m = m@;
        proof {
            let taken = service_entries(entries@.take(i + 1));
            assert(taken.drop_last() =~= service_entries(entries@.take(i as int)));
        }
        match &entries[i] {
            Some(t) => {
                let key = java_uuid_to_rust(t.0, t.1);
                let value = java_byte_array_to_rust(t.2.as_slice());
                m.insert(key, value);
                assert(byte_map_view(m@) =~= byte_map_view(old_m).insert(key, value@));
            },
            None => {},
        }
        i = i + 1;
    }
    assert(entries@.take(entries@.len() as int) =~= entries@);
    m
}

/// The UUIDs of the entries that are present.
fn uuids_present(entries: &Vec<Option<(i64, i64)>>) -> (r: Vec<u128>)
    ensures
        r@ == uuid_list(entries@),
{
    let mut r: Vec<u128> = Vec::new();
    let mut i: usize = 0;
    while i < entries.len()
        invariant
            i <= entries@.len(),
            r@ == uuid_list(entries@.take(i as int)),
        decreases entries@.len() - i,
    {
        proof {
            assert(entries@.take(i + 1).drop_last() =~= entries@.take(i as int));
        }
        match entries[i] {
            Some(t) => {
                r.push(java_uuid_to_rust(t.0, t.1));
            },
            None => {},
        }
        i = i + 1;
    }
    assert(entries@.take(entries@.len() as int) =~= entries@);
    r
}

impl ScanResult {
    /// The advertising set id, as the unsigned value with the same bits.
    pub fn advertising_sid(&self) -> (r: u32)
        ensures
            r == self.raw_advertising_sid as u32,
    {
        #[verifier::truncate]
        (self.raw_advertising_sid as u32)
    }

    /// Whether the advertising data is complete or truncated. Android only
    /// reports these two statuses.
    pub fn data_status(&self) -> (r: DataStatus)
        requires
            self.raw_data_status == DATA_COMPLETE || self.raw_data_status == DATA_TRUNCATED,
        ensures
            r == (if self.raw_data_status == DATA_COMPLETE {
                DataStatus::Complete
            } else {
                DataStatus::Truncated
            }),
    {
        if self.raw_data_status == DATA_COMPLETE {
            DataStatus::Complete
        } else {
            DataStatus::Truncated
        }
    }

    /// The periodic advertising interval in microseconds, if periodic
    /// advertising is present. Android reports a non-negative interval.
    pub fn periodic_advertising_interval(&self) -> (r: Option<u64>)
        requires
            self.raw_periodic_advertising_interval >= 0,
        ensures
            self.raw_periodic_advertising_interval == PERIODIC_INTERVAL_NOT_PRESENT ==> r is None,
            self.raw_periodic_advertising_interval != PERIODIC_INTERVAL_NOT_PRESENT ==> r
                == Some((PERIODIC_ADVERTISING_INTERVAL_UNIT_MICROS
                * self.raw_periodic_advertising_interval) as u64),
    {
        if self.raw_periodic_advertising_interval == PERIODIC_INTERVAL_NOT_PRESENT {
            return None;
        }
        let units = self.raw_periodic_advertising_interval as u64;
        assert(PERIODIC_ADVERTISING_INTERVAL_UNIT_MICROS * units <= 1250 * 0x7fff_ffff);
        Some(PERIODIC_ADVERTISING_INTERVAL_UNIT_MICROS * units)
    }

    /// The received signal strength in dBm. Android reports a value that fits
    /// a signed byte.
    pub fn rssi(&self) -> (r: i8)
        requires
            -128 <= self.raw_rssi <= 127,
        ensures
            r == self.raw_rssi,
    {
        self.raw_rssi as i8
    }

    /// The advertising flags, if the advertisement has them.
    pub fn advertising_flags(&self) -> (r: Option<AdvertisingFlags>)
        ensures
            self.record.raw_advertise_flags == -1 ==> r is None,
            self.record.raw_advertise_flags != -1 ==> (r matches Some(f) && f.raw()
                == self.record.raw_advertise_flags),
    {
        if self.record.raw_advertise_flags != -1 {
            Some(AdvertisingFlags::new(self.record.raw_advertise_flags))
        } else {
            None
        }
    }

    /// The manufacturer specific data, by manufacturer id.
    pub fn manufacturer_specific_data(&self) -> (r: HashMap<u32, Vec<u8>>)
        ensures
            self.record.raw_manufacturer_data is None ==> r@ == Map::<u32, Vec<u8>>::empty(),
            self.record.raw_manufacturer_data matches Some(e) ==> byte_map_view(r@)
                == manufacturer_map(manufacturer_entries(e@)),
    {
        match &self.record.raw_manufacturer_data {
            None => HashMap::new(),
            Some(entries) => manufacturer_data_map(entries),
        }
    }

    /// The manufacturer specific data of one manufacturer, if present.
    pub fn manufacturer_id_specific_data(&self, manufacturer_id: u32) -> (r: Option<Vec<u8>>)
        ensures
            self.record.raw_manufacturer_data is None ==> r is None,
            self.record.raw_manufacturer_data matches Some(e) ==> opt_bytes(r) == map_get(
                manufacturer_map(manufacturer_entries(e@)),
                manufacturer_id,
            ),
    {
        match &self.record.raw_manufacturer_data {
            None => None,
            Some(entries) => {
                let mut found: Option<Vec<u8>> = None;
                let mut i: usize = 0;
                while i < entries.len()
                    invariant
                        i <= entries@.len(),
                        opt_bytes(found) == map_get(
                            manufacturer_map(manufacturer_entries(entries@.take(i as int))),
                            manufacturer_id,
                        ),
                    decreases entries@.len() - i,
                {
                    proof {
                        let taken = manufacturer_entries(entries@.take(i + 1));
                        assert(taken.drop_last() =~= manufacturer_entries(entries@.take(i as int)));
                    }
                    if #[verifier::truncate] (entries[i].0 as u32) == manufacturer_id {
                        found = Some(java_byte_array_to_rust(entries[i].1.as_slice()));
                    }
                    i = i + 1;
                }
                assert(entries@.take(entries@.len() as int) =~= entries@);
                found
            },
        }
    }

    /// The data of one service, if present.
    pub fn get_service_data(&self, service_uuid: u128) -> (r: Option<Vec<u8>>)
        ensures
            self.record.raw_service_data is None ==> r is None,
            self.record.raw_service_data matches Some(e) ==> opt_bytes(r) == map_get(
                service_map(service_entries(e@)),
                service_uuid,
            ),
    {
        match &self.record.raw_service_data {
            None => None,
            Some(entries) => {
                let mut found: Option<Vec<u8>> = None;
                let mut i: usize = 0;
                while i < entries.len()
                    invariant
                        i <= entries@.len(),
                        opt_bytes(found) == map_get(
                            service_map(service_entries(entries@.take(i as int))),
                            service_uuid,
                        ),
                    decreases entries@.len() - i,
                {
                    proof {
                        let taken = service_entries(entries@.take(i + 1));
                        assert(taken.drop_last() =~= service_entries(entries@.take(i as int)));
                    }
                    match &entries[i] {
                        Some(t) => {
                            if java_uuid_to_rust(t.0, t.1) == service_uuid {
                                found = Some(java_byte_array_to_rust(t.2.as_slice()));
                            }
                        },
                        None => {},
                    }
                    i = i + 1;
                }
                assert(entries@.take(entries@.len() as int) =~= entries@);
                found
            },
        }
    }

    /// The data of every service, by service UUID.
    pub fn get_service_datas(&self) -> (r: HashMap<u128, Vec<u8>>)
        ensures
            self.record.raw_service_data is None ==> r@ == Map::<u128, Vec<u8>>::empty(),
            self.record.raw_service_data matches Some(e) ==> byte_map_view(r@) == service_map(
                service_entries(e@),
            ),
    {
        match &self.record.raw_service_data {
            None => HashMap::new(),
            Some(entries) => service_data_map(entries),
        }
    }

    /// The service solicitation UUIDs, in the order Android lists them.
    pub fn get_service_solicitation_uuids(&self) -> (r: Vec<u128>)
        ensures
            self.record.raw_service_solicitation_uuids is None ==> r@ == Seq::<u128>::empty(),
            self.record.raw_service_solicitation_uuids matches Some(e) ==> r@ == uuid_list(e@),
    {
        match &self.record.raw_service_solicitation_uuids {
            None => Vec::new(),
            Some(entries) => uuids_present(entries),
        }
    }

    /// The service UUIDs, in the order Android lists them.
    pub fn get_service_uuids(&self) -> (r: Vec<u128>)
        ensures
            self.record.raw_service_uuids is None ==> r@ == Seq::<u128>::empty(),
            self.record.raw_service_uuids matches Some(e) ==> r@ == uuid_list(e@),
    {
        match &self.record.raw_service_uuids {
            None => Vec::new(),
            Some(entries) => uuids_present(entries),
        }
    }

    /// The transmission power in dBm, if present. Android reports a value that
    /// fits a signed byte.
    pub fn tx_power_level(&self) -> (r: Option<i8>)
        requires
            -128 <= self.raw_tx_power <= 127,
        ensures
            self.raw_tx_power == TX_POWER_NOT_PRESENT ==> r is None,
            self.raw_tx_power != TX_POWER_NOT_PRESENT ==> r == Some(self.raw_tx_power as i8),
    {
        if self.raw_tx_power == TX_POWER_NOT_PRESENT {
            None
        } else {
            Some(self.raw_tx_power as i8)
        }
    }

    /// Whether the advertisement is connectable.
    pub fn is_connectable(&self) -> (r: bool)
        ensures
            r == self.connectable,
    {
        self.connectable
    }

    /// The local name of the device, if advertised.
    pub fn local_name(&self) -> (r: Option<String>)
        ensures
            self.record.device_name is None ==> r is None,
            self.record.device_name matches Some(n) ==> (r matches Some(m) && m@ == n@),
    {
        match &self.record.device_name {
            None => None,
            Some(n) => Some(n.clone()),
        }
    }
}

/// Every service or solicitation UUID entry that is present contributes its
/// UUID, in order, after those before it; an absent entry contributes
/// nothing; no entries give no UUIDs.
pub proof fn uuid_list_appends(entries: Seq<Option<(i64, i64)>>, msb: i64, lsb: i64)
    ensures
        uuid_list(Seq::empty()) == Seq::<u128>::empty(),
        uuid_list(entries.push(Some((msb, lsb)))) == uuid_list(entries).push(
            uuid_from_java_spec(msb, lsb),
        ),
        uuid_list(entries.push(None)) == uuid_list(entries),
        uuid_list(entries.push(Some((msb, lsb)))).len() == uuid_list(entries).len() + 1,
{
    assert(entries.push(Some((msb, lsb))).drop_last() =~= entries);
    assert(entries.push(None).drop_last() =~= entries);
}

/// Every service data entry that is present maps its service's UUID to its
/// bytes read as unsigned, replacing an earlier entry for the same UUID; an
/// absent entry changes nothing; no entries give the empty map.
pub proof fn service_map_inserts(
    entries: Seq<Option<(i64, i64, Seq<i8>)>>,
    msb: i64,
    lsb: i64,
    data: Seq<i8>,
)
    ensures
        service_map(Seq::empty()) == Map::<u128, Seq<u8>>::empty(),
        service_map(entries.push(Some((msb, lsb, data)))) == service_map(entries).insert(
            uuid_from_java_spec(msb, lsb),
            unsigned_bytes(data),
        ),
        service_map(entries.push(None)) == service_map(entries),
{
    assert(entries.push(Some((msb, lsb, data))).drop_last() =~= entries);
    assert(entries.push(None).drop_last() =~= entries);
}

/// Every manufacturer data entry maps the manufacturer id (the unsigned value
/// with the same bits) to its bytes read as unsigned, replacing an earlier
/// entry for the same id; no entries give the empty map.
pub proof fn manufacturer_map_inserts(entries: Seq<(i32, Seq<i8>)>, id: i32, data: Seq<i8>)
    ensures
        manufacturer_map(Seq::empty()) == Map::<u32, Seq<u8>>::empty(),
        manufacturer_map(entries.push((id, data))) == manufacturer_map(entries).insert(
            id as u32,
            unsigned_bytes(data),
        ),
{
    assert(entries.push((id, data)).drop_last() =~= entries);
}

/// Looking up a key gives its value exactly when the map has the key, and
/// nothing otherwise.
pub proof fn map_get_meaning<K, V>(m: Map<K, V>, k: K)
    ensures
        map_get(m, k) is Some <==> m.dom().contains(k),
        m.dom().contains(k) ==> map_get(m, k) == Some(m[k]),
{
}

} // verus!
