use android_utilities::class_loader::{InitStep, NativeClass, Package};
use android_utilities::nsd::{
    available_resolver, initialize, is_discovery_request_available, DiscoveryPlan,
    DiscoveryRequest, NsdServiceInfo, PROTOCOL_DNS_SD, SUBTYPES_UNSUPPORTED_MESSAGE,
};

fn request(subtype: Option<&str>, network: Option<i64>) -> DiscoveryRequest {
    DiscoveryRequest::new("_matic_hermes._tcp".to_owned(), subtype.map(str::to_owned), network)
}

#[test]
fn discovery_request_fields() {
    let r = request(Some("_printer"), Some(5));
    assert_eq!(r.service_type, "_matic_hermes._tcp");
    assert_eq!(r.subtype.as_deref(), Some("_printer"));
    assert_eq!(r.network, Some(5));
}

#[test]
fn discovery_request_availability() {
    assert!(!is_discovery_request_available(34));
    assert!(is_discovery_request_available(35));
    assert!(is_discovery_request_available(36));
}

#[test]
fn discovery_with_request_object() {
    match request(Some("_printer"), Some(5)).discovery_plan(35) {
        DiscoveryPlan::Request { service_type, subtype, network } => {
            assert_eq!(service_type, "_matic_hermes._tcp");
            assert_eq!(subtype.as_deref(), Some("_printer"));
            assert_eq!(network, Some(5));
        }
        other => panic!("unexpected plan {other:?}"),
    }
}

#[test]
fn discovery_before_request_objects() {
    assert!(matches!(request(Some("_printer"), None).discovery_plan(33), DiscoveryPlan::SubtypeUnsupported));
    assert!(matches!(request(Some("_printer"), Some(1)).discovery_plan(34), DiscoveryPlan::SubtypeUnsupported));
    match request(None, Some(9)).discovery_plan(30) {
        DiscoveryPlan::OnNetwork { service_type, protocol, network } => {
            assert_eq!(service_type, "_matic_hermes._tcp");
            assert_eq!(protocol, PROTOCOL_DNS_SD);
            assert_eq!(network, 9);
        }
        other => panic!("unexpected plan {other:?}"),
    }
    match request(None, None).discovery_plan(30) {
        DiscoveryPlan::Plain { service_type, protocol } => {
            assert_eq!(service_type, "_matic_hermes._tcp");
            assert_eq!(protocol, 1);
        }
        other => panic!("unexpected plan {other:?}"),
    }
    assert_eq!(SUBTYPES_UNSUPPORTED_MESSAGE, "Cannot use subtypes before android 33.");
}

#[test]
fn resolver_choice() {
    assert_eq!(available_resolver(&vec![]), None);
    assert_eq!(available_resolver(&vec![true, true]), None);
    assert_eq!(available_resolver(&vec![true, false, false]), Some(1));
    assert_eq!(available_resolver(&vec![false]), Some(0));
}

fn info(sdk_int: i32) -> NsdServiceInfo {
    NsdServiceInfo {
        host_name: Some("hermes.local".to_string()),
        host_address: Some("192.168.1.4".to_string()),
        service_name: Some("hermes".to_string()),
        service_type: Some("._matic_hermes._tcp".to_string()),
        raw_port: 8080,
        sdk_int,
        raw_subtypes: Some(vec![Some("_a".to_string()), None, Some("_b".to_string())]),
        raw_attributes: Some(vec![("id".to_string(), vec![1, -1]), ("v".to_string(), vec![])]),
    }
}

#[test]
fn service_info_values() {
    let i = info(35);
    assert_eq!(i.host_name().as_deref(), Some("hermes.local"));
    assert_eq!(i.host_address().as_deref(), Some("192.168.1.4"));
    assert_eq!(i.get_service_name().as_deref(), Some("hermes"));
    assert_eq!(i.get_service_type().as_deref(), Some("._matic_hermes._tcp"));
    assert_eq!(i.get_port(), 8080);
    assert_eq!(i.get_subtypes(), Some(vec!["_a".to_string(), "_b".to_string()]));
    assert_eq!(
        i.get_attributes(),
        vec![("id".to_string(), vec![1u8, 255]), ("v".to_string(), vec![])]
    );
}

#[test]
fn service_info_without_subtypes() {
    assert_eq!(info(34).get_subtypes(), None);
    let mut i = info(36);
    i.raw_subtypes = None;
    assert_eq!(i.get_subtypes(), None);
    i.raw_attributes = None;
    assert!(i.get_attributes().is_empty());
    i.raw_port = 65535;
    assert_eq!(i.get_port(), 65535);
}

#[test]
fn nsd_initialization_steps() {
    assert_eq!(
        initialize(),
        vec![
            InitStep::LoadBytecode(Package::JavaRustObj),
            InitStep::DeclareNativeMethods(NativeClass::RustArcBoxDynAny),
            InitStep::LoadBytecode(Package::NsdRs),
            InitStep::DeclareNativeMethods(NativeClass::NsdDiscoveryListener),
            InitStep::DeclareNativeMethods(NativeClass::NsdServiceResolver),
        ]
    );
}
