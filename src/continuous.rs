//! The decisions of continuous mode: which streaming strategy a device gets,
//! which pushed messages are published, what a software sweep sends, and what
//! starts and stops the stream on the device.
use crate::device::DeviceSelection;
use crate::properties::{DeviceInformation, DeviceProperties, Ping360Config};
use crate::stepping::{calculate_next_angle, is_full_circle, spec_is_full_circle, spec_next_step};
use vstd::prelude::*;

verus! {

/// How a device streams in continuous mode.
#[derive(Clone, Copy, Debug, PartialEq, Eq, Structural)]
pub enum ContinuousStrategy {
    /// Forward the profiles the echo sounder pushes.
    Ping1D,
    /// Let the imaging sonar sweep by itself and forward what it pushes.
    Ping360Firmware,
    /// Step the imaging sonar one shot at a time.
    Ping360Software,
}

/// The firmware sweeps by itself from version 3.3 on (major and minor both
/// at least 3).
pub open spec fn spec_supports_auto_transmit(info: DeviceInformation) -> bool {
    info.firmware_version_major >= 3 && info.firmware_version_minor >= 3
}

pub fn supports_auto_transmit(info: &DeviceInformation) -> (r: bool)
    ensures
        r == spec_supports_auto_transmit(*info),
{
    info.firmware_version_major >= 3 && info.firmware_version_minor >= 3
}

pub open spec fn spec_strategy(
    kind: DeviceSelection,
    properties: Option<DeviceProperties>,
) -> Option<ContinuousStrategy> {
    match kind {
        DeviceSelection::Ping1D => Some(ContinuousStrategy::Ping1D),
        DeviceSelection::Ping360 => match properties {
            Some(DeviceProperties::Ping360(p)) => if spec_supports_auto_transmit(
                p.common.device_information,
            ) {
                Some(ContinuousStrategy::Ping360Firmware)
            } else {
                Some(ContinuousStrategy::Ping360Software)
            },
            _ => None,
        },
        _ => None,
    }
}

/// The strategy for a device of this kind and metadata: echo sounders stream
/// their profiles; imaging sonars sweep by firmware when it can, by software
/// otherwise, and need their metadata; other kinds do not stream.
pub fn continuous_strategy(kind: DeviceSelection, properties: Option<DeviceProperties>) -> (r:
    Option<ContinuousStrategy>)
    ensures
        r == spec_strategy(kind, properties),
{
    match kind {
        DeviceSelection::Ping1D => Some(ContinuousStrategy::Ping1D),
        DeviceSelection::Ping360 => match properties {
            Some(DeviceProperties::Ping360(p)) => if supports_auto_transmit(
                &p.common.device_information,
            ) {
                Some(ContinuousStrategy::Ping360Firmware)
            } else {
                Some(ContinuousStrategy::Ping360Software)
            },
            _ => None,
        },
        _ => None,
    }
}

/// Relies on bluerobotics_ping's `MessageInfo::id` for `ping1d::ProfileStruct`,
/// generated from the protocol definition, where the profile message has id
/// 1300.
#[verifier::external_body]
fn profile_message_id() -> (r: u16)
    ensures
        r == 1300,
{
    <bluerobotics_ping::ping1d::ProfileStruct as bluerobotics_ping::message::MessageInfo>::id()
}

/// Relies on bluerobotics_ping's `MessageInfo::id` for
/// `ping360::AutoDeviceDataStruct`, generated from the protocol definition,
/// where the auto device data message has id 2301.
#[verifier::external_body]
fn auto_device_data_message_id() -> (r: u16)
    ensures
        r == 2301,
{
    <bluerobotics_ping::ping360::AutoDeviceDataStruct as bluerobotics_ping::message::MessageInfo>::id()
}

/// The message an echo sounder streams: its profile.
pub fn streamed_profile_id() -> (r: u16)
    ensures
        r == 1300,
{
    profile_message_id()
}

/// Whether a message pushed by an echo sounder in continuous mode is
/// published: only profiles are.
pub fn is_published_ping1d_message(message_id: u16) -> (r: bool)
    ensures
        r == (message_id == 1300),
{
    message_id == profile_message_id()
}

/// Whether a message pushed by an imaging sonar sweeping by firmware is
/// published: only its auto device data is.
pub fn is_published_auto_message(message_id: u16) -> (r: bool)
    ensures
        r == (message_id == 2301),
{
    message_id == auto_device_data_message_id()
}

/// What is sent to a device to stop its stream.
#[derive(Clone, Copy, Debug, PartialEq, Eq, Structural)]
pub enum ShutdownRequest {
    /// Stop streaming the message with this id.
    ContinuousStop(u16),
    /// Stop the motor of the scanning head.
    MotorOff,
}

/// What is sent to a device after its stream is set up: an echo sounder is
/// told to stream its profiles (the id of the message to stream); others need
/// nothing.
pub fn startup_request(kind: DeviceSelection) -> (r: Option<u16>)
    ensures
        kind == DeviceSelection::Ping1D ==> r == Some(1300u16),
        kind != DeviceSelection::Ping1D ==> r is None,
{
    match kind {
        DeviceSelection::Ping1D => Some(streamed_profile_id()),
        _ => None,
    }
}

/// What is sent to a device once its stream is cancelled: an echo sounder
/// stops streaming its profiles, an imaging sonar stops its motor.
pub fn shutdown_request(kind: DeviceSelection) -> (r: Option<ShutdownRequest>)
    ensures
        kind == DeviceSelection::Ping1D ==> r == Some(ShutdownRequest::ContinuousStop(1300)),
        kind == DeviceSelection::Ping360 ==> r == Some(ShutdownRequest::MotorOff),
        kind != DeviceSelection::Ping1D && kind != DeviceSelection::Ping360 ==> r is None,
{
    match kind {
        DeviceSelection::Ping1D => Some(ShutdownRequest::ContinuousStop(streamed_profile_id())),
        DeviceSelection::Ping360 => Some(ShutdownRequest::MotorOff),
        _ => None,
    }
}

/// One shot of the scanning head at one angle.
#[derive(Clone, Copy, Debug, PartialEq, Eq, Structural)]
pub struct TransducerRequest {
    pub mode: u8,
    pub gain_setting: u8,
    pub transmit_duration: u16,
    pub sample_period: u16,
    pub transmit_frequency: u16,
    pub number_of_samples: u16,
    pub angle: u16,
    pub transmit: u8,
    pub reserved: u8,
}

/// A software sweep in progress: the settings it was started with, the angle
/// of the next shot and the direction of travel.
pub struct SoftwareSweep {
    pub settings: Ping360Config,
    pub angle: u16,
    pub direction: i16,
}

impl SoftwareSweep {
    /// A sweep from the start angle of `settings`, moving forward.
    pub fn new(settings: Ping360Config) -> (r: SoftwareSweep)
        ensures
            r.settings == settings,
            r.angle == settings.start_angle,
            r.direction == 1,
    {
        SoftwareSweep { settings, angle: settings.start_angle, direction: 1 }
    }

    /// The shot at the current angle, with the acquisition settings of the
    /// sweep, transmitting.
    pub fn transducer_request(&self) -> (r: TransducerRequest)
        ensures
            r == (TransducerRequest {
                mode: self.settings.mode,
                gain_setting: self.settings.gain_setting,
                transmit_duration: self.settings.transmit_duration,
                sample_period: self.settings.sample_period,
                transmit_frequency: self.settings.transmit_frequency,
                number_of_samples: self.settings.number_of_samples,
                angle: self.angle,
                transmit: 1,
                reserved: 0,
            }),
    {
        TransducerRequest {
            mode: self.settings.mode,
            gain_setting: self.settings.gain_setting,
            transmit_duration: self.settings.transmit_duration,
            sample_period: self.settings.sample_period,
            transmit_frequency: self.settings.transmit_frequency,
            number_of_samples: self.settings.number_of_samples,
            angle: self.angle,
            transmit: 1,
            reserved: 0,
        }
    }

    /// Moves to the next angle: around the circle when the sweep covers it,
    /// back and forth inside the sector otherwise, `num_steps` at a time.
    pub fn advance(&mut self)
        ensures
            final(self).settings == old(self).settings,
            (final(self).angle as int, final(self).direction as int) == spec_next_step(
                old(self).angle as int,
                old(self).settings.num_steps as int,
                spec_is_full_circle(
                    old(self).settings.start_angle as int,
                    old(self).settings.stop_angle as int,
                ),
                old(self).direction as int,
                old(self).settings.start_angle as int,
                old(self).settings.stop_angle as int,
            ),
    {
        let full = is_full_circle(self.settings.start_angle, self.settings.stop_angle);
        let mut direction = self.direction;
        self.angle = calculate_next_angle(
            self.angle,
            self.settings.num_steps as u16,
            full,
            &mut direction,
            self.settings.start_angle,
            self.settings.stop_angle,
        );
        self.direction = direction;
    }
}

} // verus!
