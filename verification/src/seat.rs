//! The seat capability manager: keyboard and pointer devices attach and
//! detach dynamically as the server announces capability changes, and focus
//! follows enter/leave events that carry a surface identity.
//!
//! Invariant: at most one live handle per device kind — the `Option` fields
//! make it structural. Events scoped to a foreign surface never change state.

use vstd::prelude::*;

verus! {

/// The two input-device kinds a seat can offer.
#[derive(Clone, Copy, Debug, PartialEq, Eq, Structural)]
pub enum DeviceKind {
    Keyboard,
    Pointer,
}

/// A live client-side input device, remembering the numeric name of the
/// seat global it was created from.
#[derive(Clone, Copy, Debug, PartialEq, Eq, Structural)]
pub struct DeviceHandle {
    pub seat: u32,
}

/// The per-seat device set: at most one live handle per kind, plus whether
/// the managed surface currently has keyboard focus.
#[derive(Clone, Copy, Debug, PartialEq, Eq)]
pub struct SeatDeviceSet {
    pub keyboard: Option<DeviceHandle>,
    pub pointer: Option<DeviceHandle>,
    pub focus: bool,
}

impl SeatDeviceSet {
    /// The live handle of the given kind, if any.
    pub open spec fn spec_device(self, kind: DeviceKind) -> Option<DeviceHandle> {
        match kind {
            DeviceKind::Keyboard => self.keyboard,
            DeviceKind::Pointer => self.pointer,
        }
    }

    /// The set with the handle of `kind` replaced by `handle`.
    pub open spec fn spec_with_device(
        self,
        kind: DeviceKind,
        handle: Option<DeviceHandle>,
    ) -> SeatDeviceSet {
        match kind {
            DeviceKind::Keyboard => SeatDeviceSet { keyboard: handle, ..self },
            DeviceKind::Pointer => SeatDeviceSet { pointer: handle, ..self },
        }
    }

    /// The set after a capability-added announcement: a handle appears only
    /// where none was live.
    pub open spec fn spec_capability_added(self, seat: u32, kind: DeviceKind) -> SeatDeviceSet {
        if self.spec_device(kind) is None {
            self.spec_with_device(kind, Some(DeviceHandle { seat }))
        } else {
            self
        }
    }

    /// The set after a capability-removed announcement: a live handle is
    /// cleared; none live, nothing changes.
    pub open spec fn spec_capability_removed(self, kind: DeviceKind) -> SeatDeviceSet {
        if self.spec_device(kind) is Some {
            self.spec_with_device(kind, None)
        } else {
            self
        }
    }

    /// A fresh seat: no devices, no focus.
    pub fn new() -> (r: SeatDeviceSet)
        ensures
            r == (SeatDeviceSet { keyboard: None, pointer: None, focus: false }),
    {
        SeatDeviceSet { keyboard: None, pointer: None, focus: false }
    }

    /// The live handle of the given kind, if any.
    pub fn device(&self, kind: DeviceKind) -> (r: Option<DeviceHandle>)
        ensures
            r == self.spec_device(kind),
    {
        match kind {
            DeviceKind::Keyboard => self.keyboard,
            DeviceKind::Pointer => self.pointer,
        }
    }

    /// A capability-added announcement from seat `seat`: if no handle of
    /// that kind is live, one is recorded and the caller must create the
    /// device (`create == true`); a duplicate announcement is a no-op.
    pub fn capability_added(&mut self, seat: u32, kind: DeviceKind) -> (create: bool)
        ensures
            create == (old(self).spec_device(kind) is None),
            create ==> *final(self) == old(self).spec_with_device(
                kind,
                Some(DeviceHandle { seat }),
            ),
            !create ==> *final(self) == *old(self),
    {
        match kind {
            DeviceKind::Keyboard => {
                if self.keyboard.is_none() {
                    self.keyboard = Some(DeviceHandle { seat });
                    true
                } else {
                    false
                }
            },
            DeviceKind::Pointer => {
                if self.pointer.is_none() {
                    self.pointer = Some(DeviceHandle { seat });
                    true
                } else {
                    false
                }
            },
        }
    }

    /// A capability-removed announcement: if a handle of that kind is live,
    /// it is cleared and the caller must release the device
    /// (`release == true`); with no live handle the event is a no-op.
    pub fn capability_removed(&mut self, kind: DeviceKind) -> (release: bool)
        ensures
            release == (old(self).spec_device(kind) is Some),
            release ==> *final(self) == old(self).spec_with_device(kind, None),
            old(self).spec_device(kind) is None ==> *final(self) == *old(self),
    {
        match kind {
            DeviceKind::Keyboard => {
                if self.keyboard.is_some() {
                    self.keyboard = None;
                    true
                } else {
                    false
                }
            },
            DeviceKind::Pointer => {
                if self.pointer.is_some() {
                    self.pointer = None;
                    true
                } else {
                    false
                }
            },
        }
    }

    /// Creation of the device of `kind` failed: the recorded handle is
    /// cleared so a later capability-added can retry. Local to that kind.
    pub fn device_creation_failed(&mut self, kind: DeviceKind)
        ensures
            *final(self) == old(self).spec_with_device(kind, None),
    {
        match kind {
            DeviceKind::Keyboard => {
                self.keyboard = None;
            },
            DeviceKind::Pointer => {
                self.pointer = None;
            },
        }
    }

    /// A focus-enter event for surface `event_surface`: focus is gained only
    /// when the identity matches the managed surface `own_surface`; events
    /// for foreign surfaces change nothing.
    pub fn focus_enter(&mut self, event_surface: u32, own_surface: u32)
        ensures
            event_surface == own_surface ==> *final(self) == (SeatDeviceSet {
                focus: true,
                ..*old(self)
            }),
            event_surface != own_surface ==> *final(self) == *old(self),
    {
        if event_surface == own_surface {
            self.focus = true;
        }
    }

    /// A focus-leave event, with the same surface-identity guard.
    pub fn focus_leave(&mut self, event_surface: u32, own_surface: u32)
        ensures
            event_surface == own_surface ==> *final(self) == (SeatDeviceSet {
                focus: false,
                ..*old(self)
            }),
            event_surface != own_surface ==> *final(self) == *old(self),
    {
        if event_surface == own_surface {
            self.focus = false;
        }
    }
}

} // verus!
