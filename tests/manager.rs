use ping_viewer_next::device::{DeviceSelection, DeviceStatus};
use ping_viewer_next::error::ManagerError;
use ping_viewer_next::manager::{set_ip_command, DeviceManager};
use ping_viewer_next::properties::{
    properties_for, CommonProperties, DeviceDataSettings, DeviceInformation, DeviceProperties,
    Ping360Config, ProtocolVersion,
};
use ping_viewer_next::source::{Ipv4Address, SourceSelection, SourceSerialStruct, SourceUdpStruct};

type Registry = DeviceManager<u8, u8, u32>;

fn udp(a: u8, b: u8, c: u8, d: u8, port: u16) -> SourceSelection {
    SourceSelection::UdpStream(SourceUdpStruct { ip: Ipv4Address::new(a, b, c, d), port })
}

fn serial(path: &str, baudrate: u32) -> SourceSelection {
    SourceSelection::SerialStream(SourceSerialStruct { path: path.to_string(), baudrate })
}

fn common(major: u8, minor: u8, device_type: u8) -> CommonProperties {
    CommonProperties {
        device_information: DeviceInformation {
            device_type,
            device_revision: 0,
            firmware_version_major: major,
            firmware_version_minor: minor,
            firmware_version_patch: 0,
            reserved: 0,
        },
        protocol_version: ProtocolVersion {
            version_major: 1,
            version_minor: 0,
            version_patch: 0,
            reserved: 0,
        },
    }
}

#[test]
fn ids_are_equal_for_equal_sources_and_differ_otherwise() {
    assert_eq!(udp(192, 168, 2, 2, 12345).id(), udp(192, 168, 2, 2, 12345).id());
    assert_ne!(udp(192, 168, 2, 2, 12345).id(), udp(192, 168, 2, 3, 12345).id());
    assert_ne!(udp(192, 168, 2, 2, 12345).id(), udp(192, 168, 2, 2, 12346).id());
    assert_eq!(serial("/dev/ttyUSB0", 115200).id(), serial("/dev/ttyUSB0", 115200).id());
    assert_ne!(serial("/dev/ttyUSB0", 115200).id(), serial("/dev/ttyUSB1", 115200).id());
    assert_ne!(serial("/dev/ttyUSB0", 115200).id(), serial("/dev/ttyUSB0", 9600).id());
}

#[test]
fn canonical_bytes_are_tagged_fields() {
    assert_eq!(udp(192, 168, 2, 2, 12345).canonical_bytes(), vec![0, 192, 168, 2, 2, 0x30, 0x39]);
    assert_eq!(serial("ab", 256).canonical_bytes(), vec![1, 0, 0, 1, 0, b'a', b'b']);
}

#[test]
fn second_create_of_a_source_is_refused() {
    let mut m = Registry::new();
    let id = m.register(udp(192, 168, 2, 2, 12345), DeviceSelection::Ping360, 0, 0).unwrap();
    assert_eq!(id, udp(192, 168, 2, 2, 12345).id());
    for _ in 0..3 {
        let again = m.register(udp(192, 168, 2, 2, 12345), DeviceSelection::Ping360, 0, 0);
        assert!(matches!(again, Err(ManagerError::DeviceAlreadyExist(x)) if x == id));
        assert!(matches!(m.check_new_source(&udp(192, 168, 2, 2, 12345)),
            Err(ManagerError::DeviceAlreadyExist(x)) if x == id));
    }
    assert_eq!(m.device.len(), 1);
}

#[test]
fn create_delete_create_succeeds() {
    let mut m = Registry::new();
    let id = m.register(udp(10, 0, 0, 1, 12345), DeviceSelection::Ping1D, 0, 0).unwrap();
    let deleted = m.delete(id).unwrap();
    assert_eq!(deleted.id, id);
    assert!(matches!(m.delete(id), Err(ManagerError::DeviceNotExist(x)) if x == id));
    assert!(m.register(udp(10, 0, 0, 1, 12345), DeviceSelection::Ping1D, 0, 0).is_ok());
}

#[test]
fn lifecycle_of_a_device() {
    let mut m = Registry::new();
    let id = m.register(udp(192, 168, 2, 2, 12345), DeviceSelection::Ping360, 1, 2).unwrap();
    assert!(matches!(m.continuous_mode_check(id), Ok(DeviceSelection::Ping360)));
    let info = m.continuous_mode_started(id, 7).unwrap();
    assert_eq!(info.status, DeviceStatus::ContinuousMode);
    let list = m.list().unwrap();
    assert_eq!(list.len(), 1);
    assert_eq!(list[0].id, id);
    assert_eq!(list[0].status, DeviceStatus::ContinuousMode);
    m.update_devices_status(&vec![id]);
    assert_eq!(m.info(id).unwrap().status, DeviceStatus::Stopped);
    assert!(matches!(
        m.continuous_mode_check(id),
        Err(ManagerError::DeviceStatus(DeviceStatus::Stopped, x)) if x == id
    ));
    assert!(matches!(
        m.continuous_mode_started(id, 8),
        Err(ManagerError::DeviceStatus(DeviceStatus::Stopped, x)) if x == id
    ));
    assert!(matches!(
        m.get_device_handler(id),
        Err(ManagerError::DeviceStatus(DeviceStatus::Stopped, x)) if x == id
    ));
}

#[test]
fn enable_then_disable_restores_running() {
    let mut m = Registry::new();
    let id = m.register(serial("/dev/ttyUSB0", 115200), DeviceSelection::Ping1D, 3, 4).unwrap();
    m.continuous_mode_started(id, 11).unwrap();
    assert!(matches!(
        m.continuous_mode_started(id, 12),
        Err(ManagerError::DeviceStatus(DeviceStatus::ContinuousMode, _))
    ));
    let (info, task) = m.continuous_mode_off(id).unwrap();
    assert_eq!(info.status, DeviceStatus::Running);
    assert_eq!(task, Some(11));
    assert_eq!(m.device[0].broadcast, None);
    assert!(matches!(
        m.continuous_mode_off(id),
        Err(ManagerError::DeviceStatus(DeviceStatus::Running, _))
    ));
    m.continuous_mode_started(id, 13).unwrap();
    assert_eq!(m.device[0].broadcast, Some(13));
    assert_eq!(*m.get_device_handler(id).unwrap(), 3);
}

#[test]
fn empty_registry_has_no_devices() {
    let m = Registry::new();
    assert!(matches!(m.list(), Err(ManagerError::NoDevices)));
    assert!(matches!(m.info(5), Err(ManagerError::DeviceNotExist(5))));
    assert!(matches!(m.get_device_type(5), Err(ManagerError::DeviceNotExist(5))));
}

#[test]
fn sweep_stops_only_finished_devices() {
    let mut m = Registry::new();
    let a = m.register(udp(1, 1, 1, 1, 1), DeviceSelection::Common, 0, 0).unwrap();
    let b = m.register(udp(2, 2, 2, 2, 2), DeviceSelection::Common, 0, 0).unwrap();
    m.update_devices_status(&vec![b]);
    assert_eq!(m.info(a).unwrap().status, DeviceStatus::Running);
    assert_eq!(m.info(b).unwrap().status, DeviceStatus::Stopped);
}

#[test]
fn status_check_against_allowed_statuses() {
    let mut m = Registry::new();
    let id = m.register(udp(1, 1, 1, 1, 1), DeviceSelection::Common, 0, 0).unwrap();
    assert!(m.check_device_status(id, &[DeviceStatus::Running]).is_ok());
    assert!(matches!(
        m.check_device_status(id, &[DeviceStatus::ContinuousMode]),
        Err(ManagerError::DeviceStatus(DeviceStatus::Running, x)) if x == id
    ));
    assert!(matches!(
        m.check_device_status(id + 1, &[DeviceStatus::Running]),
        Err(ManagerError::DeviceNotExist(_))
    ));
}

#[test]
fn ping360_config_is_kept_per_device() {
    let mut m = Registry::new();
    let sonar = m.register(udp(1, 1, 1, 1, 1), DeviceSelection::Ping360, 0, 0).unwrap();
    let sounder = m.register(udp(2, 2, 2, 2, 2), DeviceSelection::Ping1D, 0, 0).unwrap();
    let data = DeviceDataSettings {
        mode: 1,
        gain_setting: 2,
        transmit_duration: 30,
        sample_period: 80,
        transmit_frequency: 740,
    };
    let props = properties_for(DeviceSelection::Ping360, common(3, 3, 2), Some(data));
    m.set_properties(sonar, props).unwrap();
    m.set_properties(sounder, properties_for(DeviceSelection::Ping1D, common(3, 29, 1), None))
        .unwrap();
    let cfg = m.get_ping360_config(sonar).unwrap();
    assert_eq!(
        cfg,
        Ping360Config {
            mode: 1,
            gain_setting: 2,
            transmit_duration: 30,
            sample_period: 80,
            transmit_frequency: 740,
            number_of_samples: 1200,
            start_angle: 0,
            stop_angle: 399,
            num_steps: 1,
            delay: 0,
        }
    );
    let new_cfg = Ping360Config { start_angle: 100, stop_angle: 200, num_steps: 5, ..cfg };
    m.update_ping360_config(sonar, new_cfg).unwrap();
    assert_eq!(m.get_ping360_config(sonar).unwrap(), new_cfg);
    assert!(matches!(
        m.update_ping360_config(sounder, new_cfg),
        Err(ManagerError::DeviceSourceError(_))
    ));
    assert!(matches!(m.get_ping360_config(sounder), Err(ManagerError::DeviceSourceError(_))));
    match m.info(sounder).unwrap().properties {
        Some(DeviceProperties::Ping1D(p)) => {
            assert_eq!(p.common.device_information.firmware_version_minor, 29)
        }
        other => panic!("unexpected properties {other:?}"),
    }
}

#[test]
fn new_address_goes_to_network_devices_only() {
    let mut m = Registry::new();
    let net = m.register(udp(192, 168, 2, 2, 12345), DeviceSelection::Ping360, 0, 0).unwrap();
    let ser = m.register(serial("/dev/ttyACM0", 115200), DeviceSelection::Ping1D, 0, 0).unwrap();
    assert_eq!(m.udp_address(net).unwrap(), Ipv4Address::new(192, 168, 2, 2));
    assert!(matches!(m.udp_address(ser), Err(ManagerError::Other(_))));
}

#[test]
fn properties_follow_the_kind() {
    assert!(properties_for(DeviceSelection::Auto, common(1, 1, 0), None).is_none());
    assert!(properties_for(DeviceSelection::Ping360, common(1, 1, 2), None).is_none());
    assert!(matches!(
        properties_for(DeviceSelection::Common, common(1, 1, 0), None),
        Some(DeviceProperties::Common(_))
    ));
}

#[test]
fn address_change_command_is_dotted_decimal() {
    assert_eq!(set_ip_command(Ipv4Address::new(192, 168, 2, 10)), b"SetSS1IP 192.168.2.10".to_vec());
    assert_eq!(set_ip_command(Ipv4Address::new(0, 9, 100, 255)), b"SetSS1IP 0.9.100.255".to_vec());
}
