//! Metadata read from a device once, when it is created, and the scan
//! settings of an imaging sonar.
use crate::device::DeviceSelection;
use vstd::prelude::*;

verus! {

/// What a device reports about itself.
#[derive(Clone, Copy, Debug, PartialEq, Eq, Structural)]
pub struct DeviceInformation {
    pub device_type: u8,
    pub device_revision: u8,
    pub firmware_version_major: u8,
    pub firmware_version_minor: u8,
    pub firmware_version_patch: u8,
    pub reserved: u8,
}

/// The protocol version a device speaks.
#[derive(Clone, Copy, Debug, PartialEq, Eq, Structural)]
pub struct ProtocolVersion {
    pub version_major: u8,
    pub version_minor: u8,
    pub version_patch: u8,
    pub reserved: u8,
}

/// Scan parameters of an imaging sonar. Angles run over `0..=399`, 400 steps
/// making one revolution.
#[derive(Clone, Copy, Debug, PartialEq, Eq, Structural)]
pub struct Ping360Config {
    pub mode: u8,
    pub gain_setting: u8,
    pub transmit_duration: u16,
    pub sample_period: u16,
    pub transmit_frequency: u16,
    pub number_of_samples: u16,
    pub start_angle: u16,
    pub stop_angle: u16,
    pub num_steps: u8,
    pub delay: u8,
}

/// The acquisition settings an imaging sonar reports with a measurement.
#[derive(Clone, Copy, Debug, PartialEq, Eq, Structural)]
pub struct DeviceDataSettings {
    pub mode: u8,
    pub gain_setting: u8,
    pub transmit_duration: u16,
    pub sample_period: u16,
    pub transmit_frequency: u16,
}

#[derive(Clone, Copy, Debug, PartialEq, Eq, Structural)]
pub struct CommonProperties {
    pub device_information: DeviceInformation,
    pub protocol_version: ProtocolVersion,
}

#[derive(Clone, Copy, Debug, PartialEq, Eq, Structural)]
pub struct Ping1DProperties {
    pub common: CommonProperties,
}

#[derive(Clone, Copy, Debug, PartialEq, Eq, Structural)]
pub struct Ping360Properties {
    pub common: CommonProperties,
    pub continuous_mode_settings: Ping360Config,
}

/// The metadata of a device, by kind.
#[derive(Clone, Copy, Debug, PartialEq, Eq, Structural)]
pub enum DeviceProperties {
    Common(CommonProperties),
    Ping1D(Ping1DProperties),
    Ping360(Ping360Properties),
}

/// The scan settings an imaging sonar starts with: the acquisition settings
/// it reported, 1200 samples, the full circle, one step at a time, no delay.
pub open spec fn spec_default_ping360_config(d: DeviceDataSettings) -> Ping360Config {
    Ping360Config {
        mode: d.mode,
        gain_setting: d.gain_setting,
        transmit_duration: d.transmit_duration,
        sample_period: d.sample_period,
        transmit_frequency: d.transmit_frequency,
        number_of_samples: 1200,
        start_angle: 0,
        stop_angle: 399,
        num_steps: 1,
        delay: 0,
    }
}

/// The scan settings an imaging sonar starts with.
pub fn default_ping360_config(d: DeviceDataSettings) -> (r: Ping360Config)
    ensures
        r == spec_default_ping360_config(d),
{
    Ping360Config {
        mode: d.mode,
        gain_setting: d.gain_setting,
        transmit_duration: d.transmit_duration,
        sample_period: d.sample_period,
        transmit_frequency: d.transmit_frequency,
        number_of_samples: 1200,
        start_angle: 0,
        stop_angle: 399,
        num_steps: 1,
        delay: 0,
    }
}

/// Whether the scan settings differ (a reconfiguration while streaming).
pub fn config_changed(initial: &Ping360Config, current: &Ping360Config) -> (r: bool)
    ensures
        r == (*initial != *current),
{
    !(initial.mode == current.mode && initial.gain_setting == current.gain_setting
        && initial.transmit_duration == current.transmit_duration && initial.sample_period
        == current.sample_period && initial.transmit_frequency == current.transmit_frequency
        && initial.number_of_samples == current.number_of_samples && initial.start_angle
        == current.start_angle && initial.stop_angle == current.stop_angle && initial.num_steps
        == current.num_steps && initial.delay == current.delay)
}

pub open spec fn spec_properties_for(
    kind: DeviceSelection,
    common: CommonProperties,
    data: Option<DeviceDataSettings>,
) -> Option<DeviceProperties> {
    match kind {
        DeviceSelection::Common => Some(DeviceProperties::Common(common)),
        DeviceSelection::Ping1D => Some(DeviceProperties::Ping1D(Ping1DProperties { common })),
        DeviceSelection::Ping360 => match data {
            Some(d) => Some(
                DeviceProperties::Ping360(
                    Ping360Properties {
                        common,
                        continuous_mode_settings: spec_default_ping360_config(d),
                    },
                ),
            ),
            None => None,
        },
        DeviceSelection::Auto => None,
    }
}

/// Whether building the metadata of a device of this kind needs the
/// acquisition settings it reports (imaging sonars only).
pub fn needs_device_data(kind: DeviceSelection) -> (r: bool)
    ensures
        r == (kind == DeviceSelection::Ping360),
{
    kind == DeviceSelection::Ping360
}

/// The metadata of a device of this kind from what it reported: the common
/// part for all, plus the starting scan settings for an imaging sonar (which
/// needs its acquisition settings). A kind still to be found out has none.
pub fn properties_for(
    kind: DeviceSelection,
    common: CommonProperties,
    data: Option<DeviceDataSettings>,
) -> (r: Option<DeviceProperties>)
    ensures
        r == spec_properties_for(kind, common, data),
{
    match kind {
        DeviceSelection::Common => Some(DeviceProperties::Common(common)),
        DeviceSelection::Ping1D => Some(DeviceProperties::Ping1D(Ping1DProperties { common })),
        DeviceSelection::Ping360 => match data {
            Some(d) => Some(
                DeviceProperties::Ping360(
                    Ping360Properties { common, continuous_mode_settings: default_ping360_config(d) },
                ),
            ),
            None => None,
        },
        DeviceSelection::Auto => None,
    }
}

} // verus!
