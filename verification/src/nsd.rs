//! Network service discovery (Android NSD): which discovery call a request
//! makes, which resolver a found service goes to, and what a resolved service
//! reports.
use vstd::prelude::*;
use crate::bluedroid::bytes::{java_byte_array_to_rust, unsigned_bytes};
use crate::class_loader::{InitStep, NativeClass, Package};

verus! {

/// First Android API level with `android.net.nsd.DiscoveryRequest`.
pub const DISCOVERY_REQUEST_MIN_SDK: i32 = 35;

/// `NsdManager.PROTOCOL_DNS_SD`
pub const PROTOCOL_DNS_SD: i32 = 1;

/// Message of the error for a request with a subtype on an Android version
/// without discovery requests.
pub const SUBTYPES_UNSUPPORTED_MESSAGE: &'static str = "Cannot use subtypes before android 33.";

/// A request to discover services of a type, optionally of a subtype and on a
/// given network (by its network handle).
#[derive(Debug)]
pub struct DiscoveryRequest {
    pub service_type: String,
    pub subtype: Option<String>,
    pub network: Option<i64>,
}

/// The discovery call that a request makes.
#[derive(Debug)]
#[allow(inconsistent_fields)]
pub enum DiscoveryPlan {
    /// Build an `android.net.nsd.DiscoveryRequest` for the service type,
    /// setting the subtype and the network when given, and call
    /// `discoverServices(DiscoveryRequest, Executor, DiscoveryListener)`.
    Request { service_type: String, subtype: Option<String>, network: Option<i64> },
    /// Fail: without discovery requests a subtype cannot be given; the error
    /// is a Java exception with [`SUBTYPES_UNSUPPORTED_MESSAGE`].
    SubtypeUnsupported,
    /// `discoverServices(String, int, Network, Executor, DiscoveryListener)`
    OnNetwork { service_type: String, protocol: i32, network: i64 },
    /// `discoverServices(String, int, DiscoveryListener)`
    Plain { service_type: String, protocol: i32 },
}

/// Whether `android.net.nsd.DiscoveryRequest` exists at an API level.
pub open spec fn discovery_request_available(sdk_int: i32) -> bool {
    sdk_int >= DISCOVERY_REQUEST_MIN_SDK
}

/// Whether `android.net.nsd.DiscoveryRequest` exists at the API level
/// (`Build.VERSION.SDK_INT`).
pub fn is_discovery_request_available(sdk_int: i32) -> (r: bool)
    ensures
        r == discovery_request_available(sdk_int),
{
    sdk_int >= DISCOVERY_REQUEST_MIN_SDK
}

impl DiscoveryRequest {
    /// A request for a service type, optionally of a subtype and on a network.
    pub fn new(service_type: String, subtype: Option<String>, network: Option<i64>) -> (r: Self)
        ensures
            r.service_type == service_type,
            r.subtype == subtype,
            r.network == network,
    {
        DiscoveryRequest { service_type, subtype, network }
    }

    /// The discovery call that this request makes at an API level: with
    /// discovery requests available everything goes into one; otherwise a
    /// subtype cannot be honoured, and the network, when given, selects the
    /// call that takes one.
    pub fn discovery_plan(self, sdk_int: i32) -> (r: DiscoveryPlan)
        ensures
            discovery_request_available(sdk_int) ==> r == (DiscoveryPlan::Request {
                service_type: self.service_type,
                subtype: self.subtype,
                network: self.network,
            }),
            !discovery_request_available(sdk_int) && self.subtype is Some ==> r
                is SubtypeUnsupported,
            !discovery_request_available(sdk_int) && self.subtype is None && self.network
                is Some ==> r == (DiscoveryPlan::OnNetwork {
                service_type: self.service_type,
                protocol: PROTOCOL_DNS_SD,
                network: self.network->0,
            }),
            !discovery_request_available(sdk_int) && self.subtype is None && self.network
                is None ==> r == (DiscoveryPlan::Plain {
                service_type: self.service_type,
                protocol: PROTOCOL_DNS_SD,
            }),
    {
        if is_discovery_request_available(sdk_int) {
            DiscoveryPlan::Request {
                service_type: self.service_type,
                subtype: self.subtype,
                network: self.network,
            }
        } else if self.subtype.is_some() {
            DiscoveryPlan::SubtypeUnsupported
        } else {
            match self.network {
                Some(network) => DiscoveryPlan::OnNetwork {
                    service_type: self.service_type,
                    protocol: PROTOCOL_DNS_SD,
                    network,
                },
                None => DiscoveryPlan::Plain {
                    service_type: self.service_type,
                    protocol: PROTOCOL_DNS_SD,
                },
            }
        }
    }
}

/// Picks the resolver for a found service, given which resolvers are busy:
/// the first idle one, or `None` when all are busy (a new resolver is then
/// made).
pub fn available_resolver(in_use: &Vec<bool>) -> (r: Option<usize>)
    ensures
        r matches Some(i) ==> i < in_use@.len() && !in_use@[i as int] && forall|j: int|
            0 <= j < i ==> in_use@[j],
        r is None ==> forall|j: int| 0 <= j < in_use@.len() ==> in_use@[j],
{
    let mut i: usize = 0;
    while i < in_use.len()
        invariant
            i <= in_use@.len(),
            forall|j: int| 0 <= j < i ==> in_use@[j],
        decreases in_use@.len() - i,
    {
        if !in_use[i] {
            return Some(i);
        }
        i = i + 1;
    }
    None
}

/// What a resolved service reports (`android.net.nsd.NsdServiceInfo`), as Java
/// gives it, with the API level it was reported at.
#[derive(Debug)]
pub struct NsdServiceInfo {
    /// `getHost().getHostName()`, when both are present.
    pub host_name: Option<String>,
    /// `getHost().getHostAddress()`, when both are present.
    pub host_address: Option<String>,
    /// `getServiceName()`.
    pub service_name: Option<String>,
    /// `getServiceType()`.
    pub service_type: Option<String>,
    /// `getPort()`.
    pub raw_port: i32,
    /// `Build.VERSION.SDK_INT` of the device.
    pub sdk_int: i32,
    /// `getSubtypes()` (only read at API level 35 and later); `null` entries
    /// are `None`.
    pub raw_subtypes: Option<Vec<Option<String>>>,
    /// `getAttributes()`: the TXT record entries.
    pub raw_attributes: Option<Vec<(String, Vec<i8>)>>,
}

/// The strings of the entries that are present, in order.
pub open spec fn present_strings(v: Seq<Option<String>>) -> Seq<Seq<char>>
    decreases v.len(),
{
    if v.len() == 0 {
        Seq::empty()
    } else {
        match v.last() {
            Some(s) => present_strings(v.drop_last()).push(s@),
            None => present_strings(v.drop_last()),
        }
    }
}

/// A string and bytes, as sequences.
pub open spec fn attribute_view(e: (String, Vec<u8>)) -> (Seq<char>, Seq<u8>) {
    (e.0@, e.1@)
}

/// A TXT record entry read from Java, as sequences with unsigned bytes.
pub open spec fn java_attribute_view(e: (String, Vec<i8>)) -> (Seq<char>, Seq<u8>) {
    (e.0@, unsigned_bytes(e.1@))
}

/// A copy of an optional string.
fn copy_opt_string(s: &Option<String>) -> (r: Option<String>)
    ensures
        s is None ==> r is None,
        s matches Some(x) ==> (r matches Some(y) && y@ == x@),
{
    match s {
        None => None,
        Some(x) => Some(x.clone()),
    }
}

impl NsdServiceInfo {
    /// The host name of the service's host.
    pub fn host_name(&self) -> (r: Option<String>)
        ensures
            self.host_name is None ==> r is None,
            self.host_name matches Some(x) ==> (r matches Some(y) && y@ == x@),
    {
        copy_opt_string(&self.host_name)
    }

    /// The address of the service's host.
    pub fn host_address(&self) -> (r: Option<String>)
        ensures
            self.host_address is None ==> r is None,
            self.host_address matches Some(x) ==> (r matches Some(y) && y@ == x@),
    {
        copy_opt_string(&self.host_address)
    }

    /// The name of the service.
    pub fn get_service_name(&self) -> (r: Option<String>)
        ensures
            self.service_name is None ==> r is None,
            self.service_name matches Some(x) ==> (r matches Some(y) && y@ == x@),
    {
        copy_opt_string(&self.service_name)
    }

    /// The type of the service.
    pub fn get_service_type(&self) -> (r: Option<String>)
        ensures
            self.service_type is None ==> r is None,
            self.service_type matches Some(x) ==> (r matches Some(y) && y@ == x@),
    {
        copy_opt_string(&self.service_type)
    }

    /// The port of the service. Android reports a port that fits 16 bits.
    pub fn get_port(&self) -> (r: u16)
        requires
            0 <= self.raw_port <= 65535,
        ensures
            r == self.raw_port,
    {
        self.raw_port as u16
    }

    /// The subtypes of the service; `None` before API level 35, where Android
    /// does not report them, or when there are none.
    pub fn get_subtypes(&self) -> (r: Option<Vec<String>>)
        ensures
            self.sdk_int < DISCOVERY_REQUEST_MIN_SDK ==> r is None,
            self.sdk_int >= DISCOVERY_REQUEST_MIN_SDK && self.raw_subtypes is None ==> r is None,
            self.sdk_int >= DISCOVERY_REQUEST_MIN_SDK ==> (self.raw_subtypes matches Some(v) ==> (
            r matches Some(w) && w@.map_values(|s: String| s@) == present_strings(v@))),
    {
        if self.sdk_int < DISCOVERY_REQUEST_MIN_SDK {
            return None;
        }
        match &self.raw_subtypes {
            None => None,
            Some(v) => {
                let mut w: Vec<String> = Vec::new();
                let mut i: usize = 0;
                while i < v.len()
                    invariant
                        i <= v@.len(),
                        w@.map_values(|s: String| s@) == present_strings(v@.take(i as int)),
                    decreases v@.len() - i,
                {
                    proof {
                        assert(v@.take(i + 1).drop_last() =~= v@.take(i as int));
                    }
                    match &v[i] {
                        Some(s) => {
                            let ghost before = w@;
                            w.push(s.clone());
                            assert(w@.map_values(|s: String| s@) =~= before.map_values(
                                |s: String| s@,
                            ).push(s@));
                        },
                        None => {},
                    }
                    i = i + 1;
                }
                assert(v@.take(v@.len() as int) =~= v@);
                Some(w)
            },
        }
    }

    /// The TXT record entries of the service, in the order Java lists them,
    /// with their values as unsigned bytes; empty when there are none. They
    /// come from a Java `Map`, so no key occurs twice. They are returned as a
    /// vector of pairs rather than a `HashMap` keyed by `String`: vstd
    /// specifies hash maps only for keys that obey its hash-table key model,
    /// which it establishes for integer and `bool` keys but not for strings.
    pub fn get_attributes(&self) -> (r: Vec<(String, Vec<u8>)>)
        ensures
            self.raw_attributes is None ==> r@.len() == 0,
            self.raw_attributes matches Some(v) ==> r@.map_values(
                |e: (String, Vec<u8>)| attribute_view(e),
            ) == v@.map_values(|e: (String, Vec<i8>)| java_attribute_view(e)),
    {
        match &self.raw_attributes {
            None => Vec::new(),
            Some(v) => {
                let mut w: Vec<(String, Vec<u8>)> = Vec::new();
                let mut i: usize = 0;
                while i < v.len()
                    invariant
                        i <= v@.len(),
                        w@.len() == i,
                        w@.map_values(|e: (String, Vec<u8>)| attribute_view(e)) == v@.take(
                            i as int,
                        ).map_values(|e: (String, Vec<i8>)| java_attribute_view(e)),
                    decreases v@.len() - i,
                {
                    let key = v[i].0.clone();
                    let value = java_byte_array_to_rust(v[i].1.as_slice());
                    let ghost before = w@;
                    w.push((key, value));
                    assert(attribute_view(w@[i as int]) == java_attribute_view(v@[i as int]));
                    assert forall|j: int| 0 <= j < i implies attribute_view(#[trigger] w@[j])
                        == java_attribute_view(v@[j]) by {
                        assert(w@[j] == before[j]);
                        assert(before.map_values(|e: (String, Vec<u8>)| attribute_view(e))[j]
                            == v@.take(i as int).map_values(
                            |e: (String, Vec<i8>)| java_attribute_view(e),
                        )[j]);
                    }
                    assert(w@.map_values(|e: (String, Vec<u8>)| attribute_view(e)) =~= v@.take(
                        i + 1,
                    ).map_values(|e: (String, Vec<i8>)| java_attribute_view(e)));
                    i = i + 1;
                }
                assert(v@.take(v@.len() as int) =~= v@);
                w
            },
        }
    }
}

/// The steps that make the Java side of service discovery usable: those of
/// the owning Java class, then loading the discovery package and declaring the
/// native methods of the discovery listener and of the service resolver.
pub fn initialize() -> (r: Vec<InitStep>)
    ensures
        r@ == crate::java_owned_rust_object::initialize_spec() + seq![
            InitStep::LoadBytecode(Package::NsdRs),
            InitStep::DeclareNativeMethods(NativeClass::NsdDiscoveryListener),
            InitStep::DeclareNativeMethods(NativeClass::NsdServiceResolver),
        ],
{
    let mut steps = crate::java_owned_rust_object::initialize();
    let ghost first = steps@;
    steps.push(InitStep::LoadBytecode(Package::NsdRs));
    steps.push(InitStep::DeclareNativeMethods(NativeClass::NsdDiscoveryListener));
    steps.push(InitStep::DeclareNativeMethods(NativeClass::NsdServiceResolver));
    assert(steps@ =~= first + seq![
        InitStep::LoadBytecode(Package::NsdRs),
        InitStep::DeclareNativeMethods(NativeClass::NsdDiscoveryListener),
        InitStep::DeclareNativeMethods(NativeClass::NsdServiceResolver),
    ]);
    steps
}

/// Every subtype entry that is present contributes its string, in order,
/// after those before it; an absent entry contributes nothing.
pub proof fn present_strings_appends(v: Seq<Option<String>>, s: String)
    ensures
        present_strings(Seq::empty()) == Seq::<Seq<char>>::empty(),
        present_strings(v.push(Some(s))) == present_strings(v).push(s@),
        present_strings(v.push(None)) == present_strings(v),
{
    assert(v.push(Some(s)).drop_last() =~= v);
    assert(v.push(None).drop_last() =~= v);
}

} // verus!
