use buds_link::bluetooth::{
    connect_and_get_stream, contains_uuid, discover_galaxy_buds, select_remembered, spp_profile,
    ConnectError, ConnectProgress, ConnectStage, DiscoveryError, Probe, ProfileRole,
    ProfileSettings, SAMSUNG_SPP_UUID,
};
use buds_link::model::device_info::DeviceInfo;

const SERIAL_PORT: u128 = 0x00001101_0000_1000_8000_00805f9b34fb;

fn probe(device: u32, uuids: Result<Option<Vec<u128>>, String>) -> Probe<u32> {
    Probe { device, uuids }
}

fn info(name: &str, address: &str, device: u32) -> DeviceInfo<u32> {
    DeviceInfo { name: name.to_string(), address: address.to_string(), device }
}

#[test]
fn vendor_uuid_has_the_documented_value() {
    assert_eq!(format!("{:032x}", SAMSUNG_SPP_UUID), "2e73a4ad332d41fc90e216bef06523f2");
}

#[test]
fn contains_uuid_looks_at_every_element() {
    assert!(contains_uuid(&vec![1, 2, 3], 3));
    assert!(contains_uuid(&vec![1, 2, 3], 1));
    assert!(!contains_uuid(&vec![1, 2, 3], 4));
    assert!(!contains_uuid(&Vec::new(), 4));
}

#[test]
fn discovery_keeps_devices_with_the_vendor_service() {
    let probes = vec![
        probe(1, Ok(Some(vec![SERIAL_PORT]))),
        probe(2, Ok(Some(vec![SERIAL_PORT, SAMSUNG_SPP_UUID]))),
        probe(3, Ok(None)),
        probe(4, Err("query failed".to_string())),
        probe(5, Ok(Some(vec![SAMSUNG_SPP_UUID]))),
        probe(6, Ok(Some(Vec::new()))),
    ];
    assert_eq!(discover_galaxy_buds(Ok(probes)), Ok(vec![2, 5]));
}

#[test]
fn discovery_of_nothing_finds_nothing() {
    let probes: Vec<Probe<u32>> = Vec::new();
    assert_eq!(discover_galaxy_buds(Ok(probes)), Ok(Vec::new()));
}

#[test]
fn discovery_passes_an_error_on() {
    let failed: Result<Vec<Probe<u32>>, DiscoveryError> =
        Err(DiscoveryError::AdapterUnavailable("no adapter".to_string()));
    assert_eq!(
        discover_galaxy_buds(failed),
        Err(DiscoveryError::AdapterUnavailable("no adapter".to_string()))
    );
    let failed: Result<Vec<Probe<u32>>, DiscoveryError> =
        Err(DiscoveryError::EnumerationFailed("no list".to_string()));
    assert_eq!(
        discover_galaxy_buds(failed),
        Err(DiscoveryError::EnumerationFailed("no list".to_string()))
    );
}

#[test]
fn device_without_a_name_is_unknown() {
    let named = DeviceInfo::from_device(Ok(Some("Buds Live".to_string())), "AA:BB".to_string(), 7);
    assert_eq!(named, info("Buds Live", "AA:BB", 7));
    let nameless = DeviceInfo::from_device(Ok(None), "AA:BB".to_string(), 7);
    assert_eq!(nameless, info("Unknown", "AA:BB", 7));
    let failed = DeviceInfo::from_device(Err("gone".to_string()), "AA:BB".to_string(), 7);
    assert_eq!(failed, info("Unknown", "AA:BB", 7));
}

#[test]
fn remembered_device_is_the_first_with_its_address() {
    let devices = vec![
        info("a", "00:11", 0),
        info("b", "22:33", 1),
        info("c", "22:33", 2),
    ];
    assert_eq!(select_remembered(&devices, &"22:33".to_string()), Some(1));
    assert_eq!(select_remembered(&devices, &"00:11".to_string()), Some(0));
    assert_eq!(select_remembered(&devices, &"44:55".to_string()), None);
    assert_eq!(select_remembered(&devices, &String::new()), None);
    let none: Vec<DeviceInfo<u32>> = Vec::new();
    assert_eq!(select_remembered(&none, &"22:33".to_string()), None);
}

#[test]
fn empty_address_selects_nothing_even_if_a_device_has_none() {
    let devices = vec![info("a", "", 0)];
    assert_eq!(select_remembered(&devices, &String::new()), None);
}

#[test]
fn profile_is_a_client_of_the_vendor_service() {
    assert_eq!(
        spp_profile(),
        ProfileSettings {
            uuid: SAMSUNG_SPP_UUID,
            role: ProfileRole::Client,
            require_authentication: false,
            require_authorization: false,
            auto_connect: true,
        }
    );
}

#[test]
fn connection_steps_follow_each_other() {
    assert_eq!(
        connect_and_get_stream(ConnectStage::OpenSession, Ok(())),
        ConnectProgress::Next(ConnectStage::ConnectDevice)
    );
    assert_eq!(
        connect_and_get_stream(ConnectStage::ConnectDevice, Ok(())),
        ConnectProgress::Next(ConnectStage::RegisterProfile)
    );
    assert_eq!(
        connect_and_get_stream(ConnectStage::RegisterProfile, Ok(())),
        ConnectProgress::Next(ConnectStage::AwaitRequest)
    );
    assert_eq!(
        connect_and_get_stream(ConnectStage::AwaitRequest, Ok(())),
        ConnectProgress::Next(ConnectStage::AcceptRequest)
    );
    assert_eq!(
        connect_and_get_stream(ConnectStage::AcceptRequest, Ok(())),
        ConnectProgress::Established
    );
}

#[test]
fn failed_step_ends_the_attempt_with_its_error() {
    let detail = || "boom".to_string();
    assert_eq!(
        connect_and_get_stream(ConnectStage::OpenSession, Err(detail())),
        ConnectProgress::Failed(ConnectError::Session(detail()))
    );
    assert_eq!(
        connect_and_get_stream(ConnectStage::ConnectDevice, Err(detail())),
        ConnectProgress::Failed(ConnectError::DeviceConnect(detail()))
    );
    assert_eq!(
        connect_and_get_stream(ConnectStage::RegisterProfile, Err(detail())),
        ConnectProgress::Failed(ConnectError::ProfileRegistration(detail()))
    );
    assert_eq!(
        connect_and_get_stream(ConnectStage::AwaitRequest, Err(detail())),
        ConnectProgress::Failed(ConnectError::NoRequest)
    );
    assert_eq!(
        connect_and_get_stream(ConnectStage::AcceptRequest, Err(detail())),
        ConnectProgress::Failed(ConnectError::Accept(detail()))
    );
}

#[test]
fn connect_error_has_a_text() {
    assert_eq!(ConnectError::Session("a".to_string()).message(), "a");
    assert_eq!(ConnectError::DeviceConnect("b".to_string()).message(), "b");
    assert_eq!(ConnectError::ProfileRegistration("c".to_string()).message(), "c");
    assert_eq!(ConnectError::NoRequest.message(), "No connection request received");
    assert_eq!(ConnectError::Accept("d".to_string()).message(), "d");
}
