use ping_viewer_next::continuous::{
    continuous_strategy, is_published_auto_message, is_published_ping1d_message, shutdown_request,
    startup_request, ContinuousStrategy, ShutdownRequest,
};
use ping_viewer_next::device::{
    initial_actor_kind, retry_upgrade, route_request, selection_after_upgrade, upgrade_result_of,
    ActorKind, DeviceSelection, RequestClass, Route, UpgradeResult,
};
use ping_viewer_next::properties::{
    CommonProperties, DeviceInformation, DeviceProperties, Ping1DProperties, Ping360Config,
    Ping360Properties, ProtocolVersion,
};
use ping_viewer_next::server::{Error, ServerMetadata};

#[test]
fn mismatched_requests_are_not_supported() {
    assert_eq!(route_request(RequestClass::Ping1D, ActorKind::Ping1D), Route::Serve);
    assert_eq!(route_request(RequestClass::Ping1D, ActorKind::Ping360), Route::NotSupported);
    assert_eq!(route_request(RequestClass::Ping360, ActorKind::Common), Route::NotSupported);
    assert_eq!(route_request(RequestClass::Common, ActorKind::Ping360), Route::Serve);
    assert_eq!(route_request(RequestClass::GetSubscriber, ActorKind::Common), Route::NotSupported);
    assert_eq!(route_request(RequestClass::GetSubscriber, ActorKind::Ping1D), Route::Subscribe);
    assert_eq!(route_request(RequestClass::Upgrade, ActorKind::Common), Route::Upgrade);
    assert_eq!(route_request(RequestClass::Stop, ActorKind::Ping360), Route::Stop);
}

#[test]
fn upgrade_reads_the_device_type() {
    assert_eq!(upgrade_result_of(0), UpgradeResult::Unknown);
    assert_eq!(upgrade_result_of(1), UpgradeResult::Ping1D);
    assert_eq!(upgrade_result_of(2), UpgradeResult::Ping360);
    assert_eq!(upgrade_result_of(9), UpgradeResult::Unknown);
    assert_eq!(selection_after_upgrade(UpgradeResult::Unknown), DeviceSelection::Common);
    assert_eq!(initial_actor_kind(DeviceSelection::Auto), ActorKind::Common);
    assert!(retry_upgrade(2));
    assert!(!retry_upgrade(3));
}

fn info(major: u8, minor: u8) -> CommonProperties {
    CommonProperties {
        device_information: DeviceInformation {
            device_type: 2,
            device_revision: 0,
            firmware_version_major: major,
            firmware_version_minor: minor,
            firmware_version_patch: 0,
            reserved: 0,
        },
        protocol_version: ProtocolVersion {
            version_major: 1,
            version_minor: 0,
            version_patch: 0,
            reserved: 0,
        },
    }
}

fn ping360(major: u8, minor: u8) -> Option<DeviceProperties> {
    Some(DeviceProperties::Ping360(Ping360Properties {
        common: info(major, minor),
        continuous_mode_settings: Ping360Config {
            mode: 1,
            gain_setting: 0,
            transmit_duration: 0,
            sample_period: 0,
            transmit_frequency: 0,
            number_of_samples: 1200,
            start_angle: 0,
            stop_angle: 399,
            num_steps: 1,
            delay: 0,
        },
    }))
}

#[test]
fn strategy_follows_kind_and_firmware() {
    assert_eq!(
        continuous_strategy(DeviceSelection::Ping1D, None),
        Some(ContinuousStrategy::Ping1D)
    );
    assert_eq!(
        continuous_strategy(DeviceSelection::Ping360, ping360(3, 3)),
        Some(ContinuousStrategy::Ping360Firmware)
    );
    assert_eq!(
        continuous_strategy(DeviceSelection::Ping360, ping360(3, 2)),
        Some(ContinuousStrategy::Ping360Software)
    );
    assert_eq!(continuous_strategy(DeviceSelection::Ping360, None), None);
    assert_eq!(
        continuous_strategy(
            DeviceSelection::Ping360,
            Some(DeviceProperties::Ping1D(Ping1DProperties { common: info(3, 3) }))
        ),
        None
    );
    assert_eq!(continuous_strategy(DeviceSelection::Common, None), None);
}

#[test]
fn stream_start_and_stop_requests() {
    assert_eq!(startup_request(DeviceSelection::Ping1D), Some(1300));
    assert_eq!(startup_request(DeviceSelection::Ping360), None);
    assert_eq!(
        shutdown_request(DeviceSelection::Ping1D),
        Some(ShutdownRequest::ContinuousStop(1300))
    );
    assert_eq!(shutdown_request(DeviceSelection::Ping360), Some(ShutdownRequest::MotorOff));
    assert_eq!(shutdown_request(DeviceSelection::Common), None);
}

#[test]
fn only_streamed_messages_are_published() {
    assert!(is_published_ping1d_message(1300));
    assert!(!is_published_ping1d_message(1211));
    assert!(is_published_auto_message(2301));
    assert!(!is_published_auto_message(2300));
}

#[test]
fn http_errors_map_to_status_codes() {
    assert_eq!(Error::BadRequest("x".to_string()).status_code(), 400);
    assert_eq!(Error::Internal("x".to_string()).status_code(), 500);
    let meta = ServerMetadata::default();
    assert_eq!(meta.name, "Ping Viewer Next");
    assert_eq!(meta.extras.cockpit, "/cockpit_extras.json");
}
