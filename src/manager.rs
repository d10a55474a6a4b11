//! The registry of live devices and the rules for changing it: creation by
//! source, deletion, status changes, continuous mode, configuration.
//!
//! A device record carries three handles that the registry only holds: `H`
//! to reach the device's actor, `A` for the actor's task, and `B` for the
//! continuous-mode task. Dropping a record is what stops its tasks.
use crate::device::{DeviceSelection, DeviceStatus};
use crate::error::ManagerError;
use crate::properties::{DeviceProperties, Ping360Config, Ping360Properties};
use crate::source::{Ipv4Address, SourceSelection, spec_source_id};
use vstd::prelude::*;
use vstd::string::*;

verus! {

/// A registered device.
pub struct Device<H, A, B> {
    pub id: u128,
    pub source: SourceSelection,
    pub handler: H,
    pub actor: A,
    pub broadcast: Option<B>,
    pub status: DeviceStatus,
    pub device_type: DeviceSelection,
    pub properties: Option<DeviceProperties>,
}

/// What callers see of a device.
#[derive(Debug)]
pub struct DeviceInfo {
    pub id: u128,
    pub source: SourceSelection,
    pub status: DeviceStatus,
    pub device_type: DeviceSelection,
    pub properties: Option<DeviceProperties>,
}

pub open spec fn spec_info<H, A, B>(d: Device<H, A, B>) -> DeviceInfo {
    DeviceInfo {
        id: d.id,
        source: d.source,
        status: d.status,
        device_type: d.device_type,
        properties: d.properties,
    }
}

impl<H, A, B> Device<H, A, B> {
    /// A record is well formed: its id is the id of its source, and it holds a
    /// continuous-mode task exactly when it streams (none while running, one
    /// in continuous mode; a stopped device may keep a finished one).
    pub open spec fn wf(&self) -> bool {
        &&& self.id == spec_source_id(self.source@)
        &&& (self.status == DeviceStatus::ContinuousMode ==> self.broadcast is Some)
        &&& (self.status == DeviceStatus::Running ==> self.broadcast is None)
    }

    /// What callers see of this device.
    pub fn info(&self) -> (r: DeviceInfo)
        ensures
            r == spec_info(*self),
    {
        DeviceInfo {
            id: self.id,
            source: self.source.clone(),
            status: self.status,
            device_type: self.device_type,
            properties: self.properties,
        }
    }
}

/// The record with another status.
pub open spec fn spec_with_status<H, A, B>(d: Device<H, A, B>, s: DeviceStatus) -> Device<H, A, B> {
    Device {
        id: d.id,
        source: d.source,
        handler: d.handler,
        actor: d.actor,
        broadcast: d.broadcast,
        status: s,
        device_type: d.device_type,
        properties: d.properties,
    }
}

/// The record once streaming: in continuous mode, holding the task `t`.
pub open spec fn spec_streaming<H, A, B>(d: Device<H, A, B>, t: B) -> Device<H, A, B> {
    Device {
        id: d.id,
        source: d.source,
        handler: d.handler,
        actor: d.actor,
        broadcast: Some(t),
        status: DeviceStatus::ContinuousMode,
        device_type: d.device_type,
        properties: d.properties,
    }
}

/// The record once streaming stopped: running, holding no task.
pub open spec fn spec_not_streaming<H, A, B>(d: Device<H, A, B>) -> Device<H, A, B> {
    Device {
        id: d.id,
        source: d.source,
        handler: d.handler,
        actor: d.actor,
        broadcast: None,
        status: DeviceStatus::Running,
        device_type: d.device_type,
        properties: d.properties,
    }
}

/// The record with other metadata.
pub open spec fn spec_with_properties<H, A, B>(
    d: Device<H, A, B>,
    p: Option<DeviceProperties>,
) -> Device<H, A, B> {
    Device {
        id: d.id,
        source: d.source,
        handler: d.handler,
        actor: d.actor,
        broadcast: d.broadcast,
        status: d.status,
        device_type: d.device_type,
        properties: p,
    }
}

/// The imaging-sonar metadata of a record, if it has such metadata.
pub open spec fn spec_ping360_properties<H, A, B>(d: Device<H, A, B>) -> Option<Ping360Properties> {
    match d.properties {
        Some(DeviceProperties::Ping360(p)) => Some(p),
        _ => None,
    }
}

/// Some record of `devs` has this id.
pub open spec fn spec_contains_id<H, A, B>(devs: Seq<Device<H, A, B>>, id: u128) -> bool {
    exists|i: int| 0 <= i < devs.len() && #[trigger] devs[i].id == id
}

/// The position of the record with this id.
pub open spec fn spec_position<H, A, B>(devs: Seq<Device<H, A, B>>, id: u128) -> int {
    choose|i: int| 0 <= i < devs.len() && #[trigger] devs[i].id == id
}

/// The record with this id.
pub open spec fn spec_device<H, A, B>(devs: Seq<Device<H, A, B>>, id: u128) -> Device<H, A, B> {
    devs[spec_position(devs, id)]
}

/// Every record is well formed and no two records share an id.
pub open spec fn spec_registry_wf<H, A, B>(devs: Seq<Device<H, A, B>>) -> bool {
    &&& forall|i: int| 0 <= i < devs.len() ==> (#[trigger] devs[i]).wf()
    &&& forall|i: int, j: int|
        0 <= i < devs.len() && 0 <= j < devs.len() && (#[trigger] devs[i]).id == (
        #[trigger] devs[j]).id ==> i == j
}

/// The records after registering a device reached through `source`:
/// running, with no metadata and no continuous-mode task.
pub open spec fn spec_registered<H, A, B>(
    devs: Seq<Device<H, A, B>>,
    source: SourceSelection,
    device_type: DeviceSelection,
    handler: H,
    actor: A,
) -> Seq<Device<H, A, B>> {
    devs.push(
        Device {
            id: spec_source_id(source@),
            source,
            handler,
            actor,
            broadcast: None,
            status: DeviceStatus::Running,
            device_type,
            properties: None,
        },
    )
}

/// The records after removing the one with this id.
pub open spec fn spec_deleted<H, A, B>(devs: Seq<Device<H, A, B>>, id: u128) -> Seq<
    Device<H, A, B>,
> {
    devs.remove(spec_position(devs, id))
}

/// The registry of live devices, in the order they were created.
pub struct DeviceManager<H, A, B> {
    pub device: Vec<Device<H, A, B>>,
}

impl<H, A, B> DeviceManager<H, A, B> {
    /// Every record is well formed and no two records share an id.
    pub open spec fn wf(&self) -> bool {
        spec_registry_wf(self.device@)
    }

    /// An empty registry.
    pub fn new() -> (r: DeviceManager<H, A, B>)
        ensures
            r.wf(),
            r.device@.len() == 0,
    {
        DeviceManager { device: Vec::new() }
    }

    /// The position of the record with this id, if any.
    pub fn position(&self, id: u128) -> (r: Option<usize>)
        requires
            self.wf(),
        ensures
            r is None <==> !spec_contains_id(self.device@, id),
            r matches Some(i) ==> i == spec_position(self.device@, id) && i < self.device@.len()
                && self.device@[i as int].id == id,
    {
        let mut i: usize = 0;
        while i < self.device.len()
            invariant
                self.wf(),
                i <= self.device@.len(),
                forall|j: int| 0 <= j < i ==> (#[trigger] self.device@[j]).id != id,
            decreases self.device@.len() - i,
        {
            if self.device[i].id == id {
                assert(self.device@[i as int].id == id);
                let ghost p = spec_position(self.device@, id);
                assert(0 <= p < self.device@.len() && self.device@[p].id == id);
                assert(self.device@[p].id == self.device@[i as int].id);
                assert(p == i as int);
                return Some(i);
            }
            i = i + 1;
        }
        None
    }

    /// Succeeds with the id of `source` when no device with that id is
    /// registered; otherwise fails with `DeviceAlreadyExist` and that id.
    pub fn check_new_source(&self, source: &SourceSelection) -> (r: Result<u128, ManagerError>)
        requires
            self.wf(),
        ensures
            !spec_contains_id(self.device@, spec_source_id(source@)) ==> r == Ok::<
                u128,
                ManagerError,
            >(spec_source_id(source@)),
            spec_contains_id(self.device@, spec_source_id(source@)) ==> r
                == Err::<u128, ManagerError>(
                ManagerError::DeviceAlreadyExist(spec_source_id(source@)),
            ),
    {
        let id = source.id();
        match self.position(id) {
            Some(_) => Err(ManagerError::DeviceAlreadyExist(id)),
            None => Ok(id),
        }
    }

    /// Registers a device reached through `source`, running, with no
    /// metadata yet and no continuous-mode task. Fails with
    /// `DeviceAlreadyExist` (and changes nothing) when a device with the id
    /// of `source` is registered.
    pub fn register(
        &mut self,
        source: SourceSelection,
        device_type: DeviceSelection,
        handler: H,
        actor: A,
    ) -> (r: Result<u128, ManagerError>)
        requires
            old(self).wf(),
        ensures
            final(self).wf(),
            spec_contains_id(old(self).device@, spec_source_id(source@)) ==> r == Err::<
                u128,
                ManagerError,
            >(ManagerError::DeviceAlreadyExist(spec_source_id(source@))) && final(self).device@
                == old(self).device@,
            !spec_contains_id(old(self).device@, spec_source_id(source@)) ==> r == Ok::<
                u128,
                ManagerError,
            >(spec_source_id(source@)) && final(self).device@ == spec_registered(
                old(self).device@,
                source,
                device_type,
                handler,
                actor,
            ),
    {
        let id = source.id();
        if self.position(id).is_some() {
            return Err(ManagerError::DeviceAlreadyExist(id));
        }
        let d = Device {
            id,
            source,
            handler,
            actor,
            broadcast: None,
            status: DeviceStatus::Running,
            device_type,
            properties: None,
        };
        self.device.push(d);
        proof {
            let n = old(self).device@.len();
            assert forall|i: int, j: int|
                0 <= i < self.device@.len() && 0 <= j < self.device@.len() && (
                #[trigger] self.device@[i]).id == (#[trigger] self.device@[j]).id implies i
                == j by {
                if i < n && j == n {
                    assert(old(self).device@[i].id == id);
                } else if i == n && j < n {
                    assert(old(self).device@[j].id == id);
                } else if i < n && j < n {
                    assert(old(self).device@[i] == self.device@[i]);
                    assert(old(self).device@[j] == self.device@[j]);
                }
            }
            assert forall|i: int| 0 <= i < self.device@.len() implies (
            #[trigger] self.device@[i]).wf() by {
                if i < n {
                    assert(old(self).device@[i] == self.device@[i]);
                }
            }
        }
        Ok(id)
    }

    /// The kind of the device with this id.
    pub fn get_device_type(&self, id: u128) -> (r: Result<DeviceSelection, ManagerError>)
        requires
            self.wf(),
        ensures
            !spec_contains_id(self.device@, id) ==> r == Err::<DeviceSelection, ManagerError>(
                ManagerError::DeviceNotExist(id),
            ),
            spec_contains_id(self.device@, id) ==> r == Ok::<DeviceSelection, ManagerError>(
                spec_device(self.device@, id).device_type,
            ),
    {
        match self.position(id) {
            Some(i) => Ok(self.device[i].device_type),
            None => Err(ManagerError::DeviceNotExist(id)),
        }
    }

    /// Succeeds when the device exists and its status is one of `valid`.
    /// Fails with `DeviceNotExist` when it does not exist, and with
    /// `DeviceStatus` (its status and id) when its status is not allowed.
    pub fn check_device_status(&self, id: u128, valid: &[DeviceStatus]) -> (r: Result<
        (),
        ManagerError,
    >)
        requires
            self.wf(),
        ensures
            !spec_contains_id(self.device@, id) ==> r == Err::<(), ManagerError>(
                ManagerError::DeviceNotExist(id),
            ),
            spec_contains_id(self.device@, id) && valid@.contains(
                spec_device(self.device@, id).status,
            ) ==> r == Ok::<(), ManagerError>(()),
            spec_contains_id(self.device@, id) && !valid@.contains(
                spec_device(self.device@, id).status,
            ) ==> r == Err::<(), ManagerError>(
                ManagerError::DeviceStatus(spec_device(self.device@, id).status, id),
            ),
    {
        let i = match self.position(id) {
            Some(i) => i,
            None => return Err(ManagerError::DeviceNotExist(id)),
        };
        let status = self.device[i].status;
        let mut k: usize = 0;
        while k < valid.len()
            invariant
                k <= valid@.len(),
                forall|j: int| 0 <= j < k ==> valid@[j] != status,
                self.wf(),
                i < self.device@.len(),
                i == spec_position(self.device@, id),
                self.device@[i as int].id == id,
                status == self.device@[i as int].status,
            decreases valid@.len() - k,
        {
            if valid[k] == status {
                assert(valid@[k as int] == status);
                return Ok(());
            }
            k = k + 1;
        }
        Err(ManagerError::DeviceStatus(status, id))
    }

    /// The handle to the actor of a device that can take requests: it exists
    /// and is running or streaming. Otherwise `DeviceNotExist`, or
    /// `DeviceStatus` with its status.
    pub fn get_device_handler(&self, id: u128) -> (r: Result<&H, ManagerError>)
        requires
            self.wf(),
        ensures
            !spec_contains_id(self.device@, id) ==> r == Err::<&H, ManagerError>(
                ManagerError::DeviceNotExist(id),
            ),
            spec_contains_id(self.device@, id) && spec_device(self.device@, id).status
                == DeviceStatus::Stopped ==> r == Err::<&H, ManagerError>(
                ManagerError::DeviceStatus(DeviceStatus::Stopped, id),
            ),
            spec_contains_id(self.device@, id) && spec_device(self.device@, id).status
                != DeviceStatus::Stopped ==> (r matches Ok(h) && *h == spec_device(
                self.device@,
                id,
            ).handler),
    {
        let i = match self.position(id) {
            Some(i) => i,
            None => return Err(ManagerError::DeviceNotExist(id)),
        };
        match self.device[i].status {
            DeviceStatus::Stopped => Err(ManagerError::DeviceStatus(DeviceStatus::Stopped, id)),
            _ => Ok(&self.device[i].handler),
        }
    }

    /// All devices, in the order they were created. `NoDevices` when there
    /// are none.
    pub fn list(&self) -> (r: Result<Vec<DeviceInfo>, ManagerError>)
        ensures
            self.device@.len() == 0 ==> r == Err::<Vec<DeviceInfo>, ManagerError>(
                ManagerError::NoDevices,
            ),
            self.device@.len() > 0 ==> (r matches Ok(v) && v@.len() == self.device@.len() && forall|
                i: int,
            |
                0 <= i < v@.len() ==> #[trigger] v@[i] == spec_info(self.device@[i])),
    {
        if self.device.len() == 0 {
            return Err(ManagerError::NoDevices);
        }
        let mut v: Vec<DeviceInfo> = Vec::new();
        let mut i: usize = 0;
        while i < self.device.len()
            invariant
                i <= self.device@.len(),
                v@.len() == i,
                forall|j: int| 0 <= j < i ==> #[trigger] v@[j] == spec_info(self.device@[j]),
            decreases self.device@.len() - i,
        {
            v.push(self.device[i].info());
            i = i + 1;
        }
        Ok(v)
    }

    /// What callers see of the device with this id.
    pub fn info(&self, id: u128) -> (r: Result<DeviceInfo, ManagerError>)
        requires
            self.wf(),
        ensures
            !spec_contains_id(self.device@, id) ==> r == Err::<DeviceInfo, ManagerError>(
                ManagerError::DeviceNotExist(id),
            ),
            spec_contains_id(self.device@, id) ==> r == Ok::<DeviceInfo, ManagerError>(
                spec_info(spec_device(self.device@, id)),
            ),
    {
        match self.position(id) {
            Some(i) => Ok(self.device[i].info()),
            None => Err(ManagerError::DeviceNotExist(id)),
        }
    }

    /// Removes the device with this id and returns what callers saw of it;
    /// its record, with the handles of its tasks, is dropped.
    pub fn delete(&mut self, id: u128) -> (r: Result<DeviceInfo, ManagerError>)
        requires
            old(self).wf(),
        ensures
            final(self).wf(),
            !spec_contains_id(old(self).device@, id) ==> r == Err::<DeviceInfo, ManagerError>(
                ManagerError::DeviceNotExist(id),
            ) && final(self).device@ == old(self).device@,
            spec_contains_id(old(self).device@, id) ==> r == Ok::<DeviceInfo, ManagerError>(
                spec_info(spec_device(old(self).device@, id)),
            ) && final(self).device@ == spec_deleted(old(self).device@, id),
            !spec_contains_id(final(self).device@, id),
    {
        let i = match self.position(id) {
            Some(i) => i,
            None => return Err(ManagerError::DeviceNotExist(id)),
        };
        let d = self.device.remove(i);
        let info = d.info();
        proof {
            let o = old(self).device@;
            let n = self.device@;
            assert forall|a: int| 0 <= a < n.len() implies #[trigger] n[a] == if a < i {
                o[a]
            } else {
                o[a + 1]
            } by {}
            assert forall|a: int| 0 <= a < n.len() implies (#[trigger] n[a]).wf() by {
                if a < i {
                    assert(o[a].wf());
                } else {
                    assert(o[a + 1].wf());
                }
            }
            assert forall|a: int, b: int|
                0 <= a < n.len() && 0 <= b < n.len() && (#[trigger] n[a]).id == (
                #[trigger] n[b]).id implies a == b by {
                let a2 = if a < i { a } else { a + 1 };
                let b2 = if b < i { b } else { b + 1 };
                assert(o[a2].id == o[b2].id);
            }
            assert forall|a: int| 0 <= a < n.len() implies (#[trigger] n[a]).id != id by {
                let a2 = if a < i { a } else { a + 1 };
                assert(o[a2].id != o[i as int].id);
            }
        }
        Ok(info)
    }

    /// Checks that the device with this id may start streaming: it must be
    /// running. Gives its kind.
    pub fn continuous_mode_check(&self, id: u128) -> (r: Result<DeviceSelection, ManagerError>)
        requires
            self.wf(),
        ensures
            !spec_contains_id(self.device@, id) ==> r == Err::<DeviceSelection, ManagerError>(
                ManagerError::DeviceNotExist(id),
            ),
            spec_contains_id(self.device@, id) && spec_device(self.device@, id).status
                != DeviceStatus::Running ==> r == Err::<DeviceSelection, ManagerError>(
                ManagerError::DeviceStatus(spec_device(self.device@, id).status, id),
            ),
            spec_contains_id(self.device@, id) && spec_device(self.device@, id).status
                == DeviceStatus::Running ==> r == Ok::<DeviceSelection, ManagerError>(
                spec_device(self.device@, id).device_type,
            ),
    {
        let i = match self.position(id) {
            Some(i) => i,
            None => return Err(ManagerError::DeviceNotExist(id)),
        };
        if self.device[i].status != DeviceStatus::Running {
            return Err(ManagerError::DeviceStatus(self.device[i].status, id));
        }
        Ok(self.device[i].device_type)
    }

    /// Records that the running device with this id now streams through
    /// `task`: its status becomes continuous mode and it holds that one task.
    /// Fails as `continuous_mode_check` does (the task is then dropped).
    pub fn continuous_mode_started(&mut self, id: u128, task: B) -> (r: Result<
        DeviceInfo,
        ManagerError,
    >)
        requires
            old(self).wf(),
        ensures
            final(self).wf(),
            !spec_contains_id(old(self).device@, id) ==> r == Err::<DeviceInfo, ManagerError>(
                ManagerError::DeviceNotExist(id),
            ) && final(self).device@ == old(self).device@,
            spec_contains_id(old(self).device@, id) && spec_device(old(self).device@, id).status
                != DeviceStatus::Running ==> r == Err::<DeviceInfo, ManagerError>(
                ManagerError::DeviceStatus(spec_device(old(self).device@, id).status, id),
            ) && final(self).device@ == old(self).device@,
            spec_contains_id(old(self).device@, id) && spec_device(old(self).device@, id).status
                == DeviceStatus::Running ==> final(self).device@ == old(self).device@.update(
                spec_position(old(self).device@, id),
                spec_streaming(spec_device(old(self).device@, id), task),
            ) && r == Ok::<DeviceInfo, ManagerError>(
                spec_info(spec_streaming(spec_device(old(self).device@, id), task)),
            ),
    {
        let i = match self.position(id) {
            Some(i) => i,
            None => return Err(ManagerError::DeviceNotExist(id)),
        };
        if self.device[i].status != DeviceStatus::Running {
            return Err(ManagerError::DeviceStatus(self.device[i].status, id));
        }
        self.device[i].broadcast = Some(task);
        self.device[i].status = DeviceStatus::ContinuousMode;
        proof {
            self.lemma_update_keeps_ids(*old(self), i as int);
        }
        Ok(self.device[i].info())
    }

    /// Stops the streaming of the device with this id, which must be in
    /// continuous mode: its status becomes running, and its task is handed
    /// back to be cancelled. Otherwise `DeviceNotExist`, or `DeviceStatus`
    /// with its status.
    pub fn continuous_mode_off(&mut self, id: u128) -> (r: Result<
        (DeviceInfo, Option<B>),
        ManagerError,
    >)
        requires
            old(self).wf(),
        ensures
            final(self).wf(),
            !spec_contains_id(old(self).device@, id) ==> r == Err::<
                (DeviceInfo, Option<B>),
                ManagerError,
            >(ManagerError::DeviceNotExist(id)) && final(self).device@ == old(self).device@,
            spec_contains_id(old(self).device@, id) && spec_device(old(self).device@, id).status
                != DeviceStatus::ContinuousMode ==> r == Err::<
                (DeviceInfo, Option<B>),
                ManagerError,
            >(ManagerError::DeviceStatus(spec_device(old(self).device@, id).status, id))
                && final(self).device@ == old(self).device@,
            spec_contains_id(old(self).device@, id) && spec_device(old(self).device@, id).status
                == DeviceStatus::ContinuousMode ==> final(self).device@ == old(self).device@.update(
                spec_position(old(self).device@, id),
                spec_not_streaming(spec_device(old(self).device@, id)),
            ) && r == Ok::<(DeviceInfo, Option<B>), ManagerError>(
                (
                    spec_info(spec_not_streaming(spec_device(old(self).device@, id))),
                    spec_device(old(self).device@, id).broadcast,
                ),
            ),
    {
        let i = match self.position(id) {
            Some(i) => i,
            None => return Err(ManagerError::DeviceNotExist(id)),
        };
        if self.device[i].status != DeviceStatus::ContinuousMode {
            return Err(ManagerError::DeviceStatus(self.device[i].status, id));
        }
        let task = self.device[i].broadcast.take();
        self.device[i].status = DeviceStatus::Running;
        proof {
            self.lemma_update_keeps_ids(*old(self), i as int);
        }
        Ok((self.device[i].info(), task))
    }

    /// Marks as stopped every device whose actor task has finished (`finished`
    /// holds their ids). Other records are left as they are.
    pub fn update_devices_status(&mut self, finished: &Vec<u128>)
        requires
            old(self).wf(),
        ensures
            final(self).wf(),
            final(self).device@.len() == old(self).device@.len(),
            forall|i: int|
                0 <= i < old(self).device@.len() ==> #[trigger] final(self).device@[i] == if finished@.contains(
                    old(self).device@[i].id,
                ) {
                    spec_with_status(old(self).device@[i], DeviceStatus::Stopped)
                } else {
                    old(self).device@[i]
                },
    {
        let mut i: usize = 0;
        while i < self.device.len()
            invariant
                i <= self.device@.len(),
                self.device@.len() == old(self).device@.len(),
                forall|j: int|
                    0 <= j < i ==> #[trigger] self.device@[j] == if finished@.contains(
                        old(self).device@[j].id,
                    ) {
                        spec_with_status(old(self).device@[j], DeviceStatus::Stopped)
                    } else {
                        old(self).device@[j]
                    },
                forall|j: int| i <= j < self.device@.len() ==> #[trigger] self.device@[j] == old(
                    self,
                ).device@[j],
                old(self).wf(),
            decreases self.device@.len() - i,
        {
            if contains_id(finished, self.device[i].id) {
                self.device[i].status = DeviceStatus::Stopped;
            }
            i = i + 1;
        }
        proof {
            let o = old(self).device@;
            let n = self.device@;
            assert forall|a: int| 0 <= a < n.len() implies (#[trigger] n[a]).wf() by {
                assert(o[a].wf());
            }
            assert forall|a: int, b: int|
                0 <= a < n.len() && 0 <= b < n.len() && (#[trigger] n[a]).id == (
                #[trigger] n[b]).id implies a == b by {
                assert(o[a].id == o[b].id);
            }
        }
    }

    /// Sets the metadata of the device with this id.
    pub fn set_properties(&mut self, id: u128, properties: Option<DeviceProperties>) -> (r: Result<
        (),
        ManagerError,
    >)
        requires
            old(self).wf(),
        ensures
            final(self).wf(),
            !spec_contains_id(old(self).device@, id) ==> r == Err::<(), ManagerError>(
                ManagerError::DeviceNotExist(id),
            ) && final(self).device@ == old(self).device@,
            spec_contains_id(old(self).device@, id) ==> r == Ok::<(), ManagerError>(())
                && final(self).device@ == old(self).device@.update(
                spec_position(old(self).device@, id),
                spec_with_properties(spec_device(old(self).device@, id), properties),
            ),
    {
        let i = match self.position(id) {
            Some(i) => i,
            None => return Err(ManagerError::DeviceNotExist(id)),
        };
        self.device[i].properties = properties;
        proof {
            self.lemma_update_keeps_ids(*old(self), i as int);
        }
        Ok(())
    }

    /// Replaces the scan settings of the imaging sonar with this id. Fails
    /// with `DeviceNotExist`, or with `DeviceSourceError` when the device has
    /// no imaging-sonar metadata.
    pub fn update_ping360_config(&mut self, id: u128, new_config: Ping360Config) -> (r: Result<
        (),
        ManagerError,
    >)
        requires
            old(self).wf(),
        ensures
            final(self).wf(),
            !spec_contains_id(old(self).device@, id) ==> r == Err::<(), ManagerError>(
                ManagerError::DeviceNotExist(id),
            ) && final(self).device@ == old(self).device@,
            spec_contains_id(old(self).device@, id) && spec_ping360_properties(
                spec_device(old(self).device@, id),
            ) is None ==> (r matches Err(ManagerError::DeviceSourceError(_))) && final(self).device@
                == old(self).device@,
            spec_contains_id(old(self).device@, id) && spec_ping360_properties(
                spec_device(old(self).device@, id),
            ) is Some ==> r == Ok::<(), ManagerError>(()) && final(self).device@ == old(
                self,
            ).device@.update(
                spec_position(old(self).device@, id),
                spec_with_properties(
                    spec_device(old(self).device@, id),
                    Some(
                        DeviceProperties::Ping360(
                            Ping360Properties {
                                common: spec_ping360_properties(
                                    spec_device(old(self).device@, id),
                                )->0.common,
                                continuous_mode_settings: new_config,
                            },
                        ),
                    ),
                ),
            ),
    {
        let i = match self.position(id) {
            Some(i) => i,
            None => return Err(ManagerError::DeviceNotExist(id)),
        };
        match self.device[i].properties {
            Some(DeviceProperties::Ping360(p)) => {
                self.device[i].properties = Some(
                    DeviceProperties::Ping360(
                        Ping360Properties { common: p.common, continuous_mode_settings: new_config },
                    ),
                );
                proof {
                    self.lemma_update_keeps_ids(*old(self), i as int);
                }
                Ok(())
            },
            _ => Err(
                ManagerError::DeviceSourceError(
                    String::from_str("set_ping360_config: Can't set Ping360Config"),
                ),
            ),
        }
    }

    /// The scan settings of the imaging sonar with this id. Fails with
    /// `DeviceNotExist`, or with `DeviceSourceError` when the device has no
    /// imaging-sonar metadata.
    pub fn get_ping360_config(&self, id: u128) -> (r: Result<Ping360Config, ManagerError>)
        requires
            self.wf(),
        ensures
            !spec_contains_id(self.device@, id) ==> r == Err::<Ping360Config, ManagerError>(
                ManagerError::DeviceNotExist(id),
            ),
            spec_contains_id(self.device@, id) && spec_ping360_properties(
                spec_device(self.device@, id),
            ) is None ==> (r matches Err(ManagerError::DeviceSourceError(_))),
            spec_contains_id(self.device@, id) && spec_ping360_properties(
                spec_device(self.device@, id),
            ) is Some ==> r == Ok::<Ping360Config, ManagerError>(
                spec_ping360_properties(spec_device(self.device@, id))->0.continuous_mode_settings,
            ),
    {
        let i = match self.position(id) {
            Some(i) => i,
            None => return Err(ManagerError::DeviceNotExist(id)),
        };
        match self.device[i].properties {
            Some(DeviceProperties::Ping360(p)) => Ok(p.continuous_mode_settings),
            _ => Err(
                ManagerError::DeviceSourceError(
                    String::from_str("get_ping360_config: Can't return Ping360Config"),
                ),
            ),
        }
    }

    /// The address of the network device with this id, to which a new
    /// address is sent. Fails with `DeviceNotExist`, or with `Other` when the
    /// device is not reached over UDP.
    pub fn udp_address(&self, id: u128) -> (r: Result<Ipv4Address, ManagerError>)
        requires
            self.wf(),
        ensures
            !spec_contains_id(self.device@, id) ==> r == Err::<Ipv4Address, ManagerError>(
                ManagerError::DeviceNotExist(id),
            ),
            spec_contains_id(self.device@, id) ==> match spec_device(self.device@, id).source {
                SourceSelection::UdpStream(u) => r == Ok::<Ipv4Address, ManagerError>(u.ip),
                SourceSelection::SerialStream(_) => r matches Err(ManagerError::Other(_)),
            },
    {
        let i = match self.position(id) {
            Some(i) => i,
            None => return Err(ManagerError::DeviceNotExist(id)),
        };
        match &self.device[i].source {
            SourceSelection::UdpStream(u) => Ok(u.ip),
            SourceSelection::SerialStream(_) => Err(
                ManagerError::Other(
                    String::from_str("modify_device : invalid request for a serial device"),
                ),
            ),
        }
    }

    proof fn lemma_update_keeps_ids(&self, before: Self, i: int)
        requires
            before.wf(),
            0 <= i < before.device@.len(),
            self.device@.len() == before.device@.len(),
            forall|j: int| 0 <= j < self.device@.len() && j != i ==> self.device@[j] == before.device@[j],
            self.device@[i].id == before.device@[i].id,
            self.device@[i].wf(),
        ensures
            self.wf(),
    {
        let n = self.device@;
        let o = before.device@;
        assert forall|a: int| 0 <= a < n.len() implies (#[trigger] n[a]).wf() by {
            if a != i {
                assert(o[a].wf());
            }
        }
        assert forall|a: int, b: int|
            0 <= a < n.len() && 0 <= b < n.len() && (#[trigger] n[a]).id == (#[trigger] n[b]).id implies a
            == b by {
            assert(o[a].id == o[b].id);
        }
    }
}

fn contains_id(ids: &Vec<u128>, id: u128) -> (r: bool)
    ensures
        r == ids@.contains(id),
{
    let mut k: usize = 0;
    while k < ids.len()
        invariant
            k <= ids@.len(),
            forall|j: int| 0 <= j < k ==> ids@[j] != id,
        decreases ids@.len() - k,
    {
        if ids[k] == id {
            assert(ids@[k as int] == id);
            return true;
        }
        k = k + 1;
    }
    false
}

/// Repeated creation from one source: once a device from `source` has been
/// registered, the registry holds exactly one record with the id of
/// `source`, so every further registration from it fails with
/// `DeviceAlreadyExist` and that id (and changes nothing).
pub proof fn lemma_create_once<H, A, B>(
    devs: Seq<Device<H, A, B>>,
    source: SourceSelection,
    device_type: DeviceSelection,
    handler: H,
    actor: A,
)
    requires
        spec_registry_wf(devs),
        !spec_contains_id(devs, spec_source_id(source@)),
    ensures
        ({
            let after = spec_registered(devs, source, device_type, handler, actor);
            let id = spec_source_id(source@);
            &&& spec_registry_wf(after)
            &&& spec_contains_id(after, id)
            &&& after[devs.len() as int].id == id
            &&& forall|i: int| 0 <= i < after.len() && #[trigger] after[i].id == id ==> i == devs.len()
        }),
{
    let after = spec_registered(devs, source, device_type, handler, actor);
    let id = spec_source_id(source@);
    let n = devs.len() as int;
    assert(after[n].id == id);
    assert forall|i: int| 0 <= i < after.len() implies (#[trigger] after[i]).wf() by {
        if i < n {
            assert(after[i] == devs[i]);
        }
    }
    assert forall|i: int, j: int|
        0 <= i < after.len() && 0 <= j < after.len() && (#[trigger] after[i]).id == (
        #[trigger] after[j]).id implies i == j by {
        if i < n {
            assert(after[i] == devs[i]);
        }
        if j < n {
            assert(after[j] == devs[j]);
        }
    }
    assert forall|i: int| 0 <= i < after.len() && #[trigger] after[i].id == id implies i == n by {
        if i < n {
            assert(after[i] == devs[i]);
        }
    }
}

/// Create, delete, create: whatever the registry held, after a creation
/// from `source` (which either registers it or finds it registered) a record
/// with the id of `source` exists, so deleting that id succeeds, and after
/// the deletion no record has that id, so creating from `source` again
/// succeeds.
pub proof fn lemma_create_delete_create<H, A, B>(
    devs: Seq<Device<H, A, B>>,
    source: SourceSelection,
    device_type: DeviceSelection,
    handler: H,
    actor: A,
)
    requires
        spec_registry_wf(devs),
    ensures
        ({
            let id = spec_source_id(source@);
            let created = if spec_contains_id(devs, id) {
                devs
            } else {
                spec_registered(devs, source, device_type, handler, actor)
            };
            &&& spec_registry_wf(created)
            &&& spec_contains_id(created, id)
            &&& spec_registry_wf(spec_deleted(created, id))
            &&& !spec_contains_id(spec_deleted(created, id), id)
        }),
{
    let id = spec_source_id(source@);
    if !spec_contains_id(devs, id) {
        lemma_create_once(devs, source, device_type, handler, actor);
    }
    let created = if spec_contains_id(devs, id) {
        devs
    } else {
        spec_registered(devs, source, device_type, handler, actor)
    };
    lemma_delete_frees(created, id);
}

/// Deleting an id that is registered keeps the registry well formed and
/// leaves no record with that id.
pub proof fn lemma_delete_frees<H, A, B>(devs: Seq<Device<H, A, B>>, id: u128)
    requires
        spec_registry_wf(devs),
        spec_contains_id(devs, id),
    ensures
        spec_registry_wf(spec_deleted(devs, id)),
        !spec_contains_id(spec_deleted(devs, id), id),
{
    let p = spec_position(devs, id);
    let n = spec_deleted(devs, id);
    assert(0 <= p < devs.len() && devs[p].id == id);
    assert forall|a: int| 0 <= a < n.len() implies #[trigger] n[a] == if a < p {
        devs[a]
    } else {
        devs[a + 1]
    } by {}
    assert forall|a: int| 0 <= a < n.len() implies (#[trigger] n[a]).wf() by {
        if a < p {
            assert(devs[a].wf());
        } else {
            assert(devs[a + 1].wf());
        }
    }
    assert forall|a: int, b: int|
        0 <= a < n.len() && 0 <= b < n.len() && (#[trigger] n[a]).id == (#[trigger] n[b]).id implies a
        == b by {
        let a2 = if a < p { a } else { a + 1 };
        let b2 = if b < p { b } else { b + 1 };
        assert(devs[a2].id == devs[b2].id);
    }
    assert forall|a: int| 0 <= a < n.len() implies (#[trigger] n[a]).id != id by {
        let a2 = if a < p { a } else { a + 1 };
        assert(devs[a2].id != devs[p].id);
    }
}

/// Enabling then disabling continuous mode on a running device gives back
/// the record it was: running, with no continuous-mode task.
pub proof fn lemma_enable_disable_restores<H, A, B>(d: Device<H, A, B>, task: B)
    requires
        d.wf(),
        d.status == DeviceStatus::Running,
    ensures
        spec_streaming(d, task).wf(),
        spec_not_streaming(spec_streaming(d, task)) == d,
        spec_not_streaming(spec_streaming(d, task)).status == DeviceStatus::Running,
{
}

/// A streaming device holds exactly one continuous-mode task; disabling hands
/// that task back (to be cancelled) and re-enabling with a new task leaves
/// the device streaming with that single new task.
pub proof fn lemma_disable_enable_single_task<H, A, B>(d: Device<H, A, B>, new_task: B)
    requires
        d.wf(),
        d.status == DeviceStatus::ContinuousMode,
    ensures
        d.broadcast is Some,
        spec_not_streaming(d).wf(),
        spec_not_streaming(d).broadcast is None,
        spec_streaming(spec_not_streaming(d), new_task).wf(),
        spec_streaming(spec_not_streaming(d), new_task).status == DeviceStatus::ContinuousMode,
        spec_streaming(spec_not_streaming(d), new_task).broadcast == Some(new_task),
{
}

/// The decimal digits of an octet, as ASCII bytes, without leading zeros.
pub open spec fn spec_octet_text(v: u8) -> Seq<u8> {
    let d2 = (48 + v / 100) as u8;
    let d1 = (48 + v / 10 % 10) as u8;
    let d0 = (48 + v % 10) as u8;
    if v >= 100 {
        seq![d2, d1, d0]
    } else if v >= 10 {
        seq![d1, d0]
    } else {
        seq![d0]
    }
}

/// An address in dotted decimal, as ASCII bytes.
pub open spec fn spec_dotted(ip: Ipv4Address) -> Seq<u8> {
    spec_octet_text(ip.0) + seq![46u8] + spec_octet_text(ip.1) + seq![46u8] + spec_octet_text(ip.2)
        + seq![46u8] + spec_octet_text(ip.3)
}

/// `SetSS1IP ` in ASCII.
pub open spec fn spec_set_ip_word() -> Seq<u8> {
    seq![83u8, 101, 116, 83, 83, 49, 73, 80, 32]
}

fn push_octet_text(out: &mut Vec<u8>, v: u8)
    ensures
        final(out)@ == old(out)@ + spec_octet_text(v),
{
    if v >= 100 {
        out.push(48 + v / 100);
    }
    if v >= 10 {
        out.push(48 + v / 10 % 10);
    }
    out.push(48 + v % 10);
    assert(out@ =~= old(out)@ + spec_octet_text(v));
}

/// The command, sent to a network sonar, that gives it the address `ip`:
/// `SetSS1IP ` followed by the address in dotted decimal.
pub fn set_ip_command(ip: Ipv4Address) -> (r: Vec<u8>)
    ensures
        r@ == spec_set_ip_word() + spec_dotted(ip),
{
    let mut out: Vec<u8> = vec![83u8, 101, 116, 83, 83, 49, 73, 80, 32];
    assert(out@ =~= spec_set_ip_word());
    push_octet_text(&mut out, ip.0);
    out.push(46);
    push_octet_text(&mut out, ip.1);
    out.push(46);
    push_octet_text(&mut out, ip.2);
    out.push(46);
    push_octet_text(&mut out, ip.3);
    assert(out@ =~= spec_set_ip_word() + spec_dotted(ip));
    out
}

} // verus!
