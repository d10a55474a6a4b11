//! Device kinds, statuses, and the routing of requests to a device by kind.
use vstd::prelude::*;

verus! {

/// The kind of a device. `Auto` is asked for at creation only: a live device
/// has one of the three others.
#[derive(Clone, Copy, Debug, PartialEq, Eq, Hash, Structural)]
pub enum DeviceSelection {
    Common,
    Ping1D,
    Ping360,
    Auto,
}

/// The status of a registered device.
#[derive(Clone, Copy, Debug, PartialEq, Eq, Hash, Structural)]
pub enum DeviceStatus {
    Running,
    Stopped,
    ContinuousMode,
}

/// What a device reported itself to be when asked to upgrade.
#[derive(Clone, Copy, Debug, PartialEq, Eq, Hash, Structural)]
pub enum UpgradeResult {
    Unknown,
    Ping1D,
    Ping360,
}

/// The wire client a device actor holds.
#[derive(Clone, Copy, Debug, PartialEq, Eq, Hash, Structural)]
pub enum ActorKind {
    Common,
    Ping1D,
    Ping360,
}

/// The shape of a request sent to a device actor.
#[derive(Clone, Copy, Debug, PartialEq, Eq, Hash, Structural)]
pub enum RequestClass {
    Ping1D,
    Ping360,
    Common,
    GetSubscriber,
    Upgrade,
    Stop,
}

/// What a device actor does with a request.
#[derive(Clone, Copy, Debug, PartialEq, Eq, Hash, Structural)]
pub enum Route {
    /// Hand it to the wire client.
    Serve,
    /// Answer that the device does not support it.
    NotSupported,
    /// Give a new receiver of the device's pushed messages.
    Subscribe,
    /// Ask the device what it is and change the wire client to match.
    Upgrade,
    /// End the actor.
    Stop,
}

pub open spec fn spec_route(req: RequestClass, kind: ActorKind) -> Route {
    match req {
        RequestClass::Ping1D => if kind == ActorKind::Ping1D {
            Route::Serve
        } else {
            Route::NotSupported
        },
        RequestClass::Ping360 => if kind == ActorKind::Ping360 {
            Route::Serve
        } else {
            Route::NotSupported
        },
        RequestClass::Common => Route::Serve,
        RequestClass::GetSubscriber => if kind == ActorKind::Common {
            Route::NotSupported
        } else {
            Route::Subscribe
        },
        RequestClass::Upgrade => Route::Upgrade,
        RequestClass::Stop => Route::Stop,
    }
}

/// How a device actor answers a request: requests of one device kind go to a
/// device of that kind only, common requests to any, and a subscription only
/// to a device that pushes messages; a mismatch is answered as not supported.
pub fn route_request(req: RequestClass, kind: ActorKind) -> (r: Route)
    ensures
        r == spec_route(req, kind),
{
    match req {
        RequestClass::Ping1D => if kind == ActorKind::Ping1D {
            Route::Serve
        } else {
            Route::NotSupported
        },
        RequestClass::Ping360 => if kind == ActorKind::Ping360 {
            Route::Serve
        } else {
            Route::NotSupported
        },
        RequestClass::Common => Route::Serve,
        RequestClass::GetSubscriber => if kind == ActorKind::Common {
            Route::NotSupported
        } else {
            Route::Subscribe
        },
        RequestClass::Upgrade => Route::Upgrade,
        RequestClass::Stop => Route::Stop,
    }
}

/// What a device that reports type `device_type` is: 1 an echo sounder, 2 an
/// imaging sonar, anything else unknown.
pub fn upgrade_result_of(device_type: u8) -> (r: UpgradeResult)
    ensures
        device_type == 1 ==> r == UpgradeResult::Ping1D,
        device_type == 2 ==> r == UpgradeResult::Ping360,
        device_type != 1 && device_type != 2 ==> r == UpgradeResult::Unknown,
{
    match device_type {
        1 => UpgradeResult::Ping1D,
        2 => UpgradeResult::Ping360,
        _ => UpgradeResult::Unknown,
    }
}

pub open spec fn spec_actor_kind_of(r: UpgradeResult) -> ActorKind {
    match r {
        UpgradeResult::Unknown => ActorKind::Common,
        UpgradeResult::Ping1D => ActorKind::Ping1D,
        UpgradeResult::Ping360 => ActorKind::Ping360,
    }
}

/// The wire client an actor holds after an upgrade with this result.
pub fn actor_kind_of(r: UpgradeResult) -> (k: ActorKind)
    ensures
        k == spec_actor_kind_of(r),
{
    match r {
        UpgradeResult::Unknown => ActorKind::Common,
        UpgradeResult::Ping1D => ActorKind::Ping1D,
        UpgradeResult::Ping360 => ActorKind::Ping360,
    }
}

/// The kind a device is registered with after an upgrade with this result.
pub fn selection_after_upgrade(r: UpgradeResult) -> (k: DeviceSelection)
    ensures
        r == UpgradeResult::Unknown ==> k == DeviceSelection::Common,
        r == UpgradeResult::Ping1D ==> k == DeviceSelection::Ping1D,
        r == UpgradeResult::Ping360 ==> k == DeviceSelection::Ping360,
{
    match r {
        UpgradeResult::Unknown => DeviceSelection::Common,
        UpgradeResult::Ping1D => DeviceSelection::Ping1D,
        UpgradeResult::Ping360 => DeviceSelection::Ping360,
    }
}

/// The wire client a new device starts with: the one asked for, or the
/// common one when the kind is to be found out.
pub fn initial_actor_kind(s: DeviceSelection) -> (k: ActorKind)
    ensures
        s == DeviceSelection::Ping1D ==> k == ActorKind::Ping1D,
        s == DeviceSelection::Ping360 ==> k == ActorKind::Ping360,
        (s == DeviceSelection::Common || s == DeviceSelection::Auto) ==> k == ActorKind::Common,
{
    match s {
        DeviceSelection::Ping1D => ActorKind::Ping1D,
        DeviceSelection::Ping360 => ActorKind::Ping360,
        _ => ActorKind::Common,
    }
}

/// Attempts at finding out a device's kind before creation fails.
pub const MAX_UPGRADE_ATTEMPTS: u32 = 3;

/// After `failures` failed attempts at an upgrade, whether to try again.
pub fn retry_upgrade(failures: u32) -> (r: bool)
    ensures
        r == (failures < MAX_UPGRADE_ATTEMPTS),
{
    failures < MAX_UPGRADE_ATTEMPTS
}

} // verus!
