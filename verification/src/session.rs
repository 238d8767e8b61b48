//! The session core: one owned context holding the registry, the buffer
//! pool, the surface and the seat, and one total dispatch step.
//!
//! Every decoded protocol event is a plain `Event` value; `handle_event`
//! maps the session and an event to the next session plus the ordered list
//! of `Request`s the transport layer must perform (create or release an
//! input device; damage, frame-request, attach, commit). The step is a pure
//! function of the state and the event — `spec_step` — and `handle_event`
//! returns exactly what it says.

use vstd::prelude::*;

use crate::pool::{BufferPool, PixelFormat, PoolModel, SlotModel, SlotState};
use crate::registry::{spec_find_name, spec_removed, GlobalEntry, Interface, Registry};
use crate::render;
use crate::seat::{DeviceKind, SeatDeviceSet};
use crate::surface::SurfaceState;

verus! {

/// What a pointer did, as far as this core reacts to it. Only a press is
/// application-visible (it toggles the animation phase); the rest are
/// observation-only.
#[derive(Clone, Copy, Debug, PartialEq, Eq)]
pub enum PointerAction {
    Enter,
    Leave,
    Motion,
    Press { button: u32 },
    Release { button: u32 },
    Axis,
}

/// One pointer event, scoped to the surface it happened on.
#[derive(Clone, Copy, Debug, PartialEq, Eq)]
pub struct PointerEvent {
    pub surface: u32,
    pub action: PointerAction,
}

/// A decoded protocol event, routed through the dispatch step.
#[derive(Clone, Copy, Debug, PartialEq, Eq)]
pub enum Event {
    /// The server announced a global.
    GlobalAnnounced { entry: GlobalEntry },
    /// The server withdrew the global with this numeric name.
    GlobalRemoved { numeric_name: u32 },
    /// The server proposed a surface geometry; `None` or zero means the
    /// client chooses.
    Configure { width: Option<u32>, height: Option<u32> },
    /// The user asked the window to close.
    CloseRequested,
    /// The frame callback requested by the previous commit fired.
    FrameCallback,
    /// The server released the buffer in this pool slot.
    BufferReleased { slot: usize },
    /// A seat gained an input-device capability.
    CapabilityAdded { seat: u32, kind: DeviceKind },
    /// A seat lost an input-device capability.
    CapabilityRemoved { kind: DeviceKind },
    /// The transport failed to create the device requested for this kind.
    DeviceCreationFailed { kind: DeviceKind },
    /// Keyboard focus entered a surface.
    KeyboardEnter { surface: u32 },
    /// Keyboard focus left a surface.
    KeyboardLeave { surface: u32 },
    /// A pointer event.
    Pointer { event: PointerEvent },
}

/// What the transport layer must perform after a step, in order.
#[derive(Clone, Copy, Debug, PartialEq, Eq)]
pub enum Request {
    /// Create the input device of this kind on the seat.
    CreateDevice { kind: DeviceKind },
    /// Release the input device of this kind.
    ReleaseDevice { kind: DeviceKind },
    /// Mark the full surface rectangle damaged.
    Damage { width: u32, height: u32 },
    /// Register exactly one new frame callback, before the commit.
    RequestFrame,
    /// Attach the buffer in this pool slot to the surface.
    Attach { slot: usize },
    /// Commit the surface.
    Commit,
}

/// The mathematical value of a session.
#[verifier::ext_equal]
pub struct SessionModel {
    pub registry: Seq<GlobalEntry>,
    pub pool: PoolModel,
    pub surface: SurfaceState,
    pub seat: SeatDeviceSet,
    /// Identity of the one managed surface; events carrying another
    /// surface's identity are ignored.
    pub surface_id: u32,
    /// The renderer's current slot, if it has drawn before.
    pub buffer: Option<usize>,
    /// The animation phase; `None` while the animation is off.
    pub shift: Option<u32>,
}

/// The renderer's held slot, if any, exists and has the staged geometry.
pub open spec fn buffer_slot_valid(s: SessionModel) -> bool {
    match s.buffer {
        Some(i) => i < s.pool.slots.len() && s.pool.slots[i as int].width
            == s.surface.pending_width && s.pool.slots[i as int].height
            == s.surface.pending_height,
        None => true,
    }
}

/// The structural part of the session invariant: the pool and surface are
/// well formed and the held slot matches the staged geometry.
pub open spec fn session_structural(s: SessionModel) -> bool {
    s.pool.spec_wf() && s.surface.spec_wf() && buffer_slot_valid(s)
}

/// The session invariant: every reachable session satisfies it. Beyond the
/// structural part it pins the frame-pacing protocol: drawing starts only
/// once configured, and after the first commit exactly one frame callback
/// stays outstanding for as long as the session is not closing.
pub open spec fn session_inv(s: SessionModel) -> bool {
    &&& session_structural(s)
    &&& (s.surface.first_draw_done ==> s.surface.configured)
    &&& (s.surface.first_draw_done && !s.surface.closing ==> s.surface.frame_pending)
    &&& (s.surface.frame_pending ==> s.surface.first_draw_done)
}

/// The state a fresh session starts in.
pub open spec fn spec_init_session(surface_id: u32, pool_capacity: usize) -> SessionModel {
    SessionModel {
        registry: Seq::empty(),
        pool: PoolModel { slots: Seq::empty(), capacity: pool_capacity, used: 0 },
        surface: SurfaceState::spec_init(),
        seat: SeatDeviceSet { keyboard: None, pointer: None, focus: false },
        surface_id,
        buffer: None,
        shift: None,
    }
}

/// The draw pass: pick a writable slot (the held one unless the server
/// still holds it, else a freshly carved one), render the gradient at the
/// staged geometry, attach and commit it, and request the next frame
/// callback. When no slot can be carved the frame is skipped — no content
/// update — but the commit and the frame request still go out, so the
/// pacing never stalls.
pub open spec fn spec_draw(s: SessionModel) -> (SessionModel, Seq<Request>) {
    let w = s.surface.pending_width;
    let h = s.surface.pending_height;
    let reuse = match s.buffer {
        Some(i) => if s.pool.slots[i as int].state != SlotState::PendingRelease {
            Some(i)
        } else {
            None
        },
        None => None,
    };
    let target = match reuse {
        Some(i) => Some((i, s.pool)),
        None => if s.pool.spec_can_create(w, h) {
            Some(
                (
                    s.pool.slots.len() as usize,
                    PoolModel {
                        slots: s.pool.slots.push(
                            PoolModel::spec_new_slot(w, h, PixelFormat::Argb8888),
                        ),
                        capacity: s.pool.capacity,
                        used: (s.pool.used + crate::pool::slot_bytes(w, h)) as usize,
                    },
                ),
            )
        } else {
            None
        },
    };
    match target {
        Some((i, pool1)) => {
            let phase = match s.shift {
                Some(v) => v,
                None => 0u32,
            };
            let drawn = SlotModel {
                state: SlotState::PendingRelease,
                pixels: render::spec_canvas(w, h, phase),
                ..pool1.slots[i as int]
            };
            (
                SessionModel {
                    pool: pool1.spec_with_slot(i as int, drawn),
                    surface: SurfaceState {
                        current_width: w,
                        current_height: h,
                        first_draw_done: true,
                        frame_pending: true,
                        ..s.surface
                    },
                    buffer: Some(i),
                    shift: render::spec_step_shift(s.shift, w),
                    ..s
                },
                seq![
                    Request::Damage { width: w, height: h },
                    Request::RequestFrame,
                    Request::Attach { slot: i },
                    Request::Commit,
                ],
            )
        },
        None => (
            SessionModel {
                surface: SurfaceState {
                    first_draw_done: true,
                    frame_pending: true,
                    ..s.surface
                },
                ..s
            },
            seq![Request::RequestFrame, Request::Commit],
        ),
    }
}

/// A configure event: stage the proposed geometry, drop the held buffer
/// (the next draw carves one at the new size), and — only on the very
/// first configure — draw synchronously. A later configure redraws on the
/// next frame opportunity instead.
pub open spec fn spec_handle_configure(
    s: SessionModel,
    width: Option<u32>,
    height: Option<u32>,
) -> (SessionModel, Seq<Request>) {
    let s1 = SessionModel {
        surface: s.surface.spec_configured(width, height),
        buffer: None,
        ..s
    };
    if !s.surface.configured {
        spec_draw(s1)
    } else {
        (s1, Seq::empty())
    }
}

/// A frame callback: the outstanding token is consumed; unless the session
/// is closing, the next frame is drawn at once, which issues the next
/// request.
pub open spec fn spec_handle_frame(s: SessionModel) -> (SessionModel, Seq<Request>) {
    let s1 = SessionModel {
        surface: SurfaceState { frame_pending: false, ..s.surface },
        ..s
    };
    if s.surface.configured && !s.surface.closing {
        spec_draw(s1)
    } else {
        (s1, Seq::empty())
    }
}

/// A global removal: the entry leaves the registry, and if it was the seat
/// that live input devices were created from, those handles are released
/// first — consumers hear of it before the handles turn unusable.
pub open spec fn spec_handle_global_removed(s: SessionModel, numeric_name: u32) -> (
    SessionModel,
    Seq<Request>,
) {
    let i = spec_find_name(s.registry, numeric_name);
    let s1 = SessionModel { registry: spec_removed(s.registry, numeric_name), ..s };
    if i >= 0 && s.registry[i].interface == Interface::Seat {
        let kb = match s.seat.keyboard {
            Some(hd) => hd.seat == numeric_name,
            None => false,
        };
        let pt = match s.seat.pointer {
            Some(hd) => hd.seat == numeric_name,
            None => false,
        };
        let kb_reqs: Seq<Request> = if kb {
            seq![Request::ReleaseDevice { kind: DeviceKind::Keyboard }]
        } else {
            Seq::empty()
        };
        let pt_reqs: Seq<Request> = if pt {
            seq![Request::ReleaseDevice { kind: DeviceKind::Pointer }]
        } else {
            Seq::empty()
        };
        (
            SessionModel {
                seat: SeatDeviceSet {
                    keyboard: if kb {
                        None
                    } else {
                        s.seat.keyboard
                    },
                    pointer: if pt {
                        None
                    } else {
                        s.seat.pointer
                    },
                    focus: s.seat.focus,
                },
                ..s1
            },
            kb_reqs + pt_reqs,
        )
    } else {
        (s1, Seq::empty())
    }
}

/// A pointer event: events for a foreign surface change nothing; on the
/// managed surface only a press acts, toggling the animation phase.
pub open spec fn spec_handle_pointer(s: SessionModel, event: PointerEvent) -> SessionModel {
    if event.surface != s.surface_id {
        s
    } else {
        match event.action {
            PointerAction::Press { .. } => SessionModel {
                shift: render::spec_toggle_shift(s.shift),
                ..s
            },
            _ => s,
        }
    }
}

/// The session after a whole pointer frame: the events of the frame are
/// delivered in order, each through `spec_handle_pointer`.
pub open spec fn spec_pointer_frame(s: SessionModel, events: Seq<PointerEvent>) -> SessionModel
    decreases events.len(),
{
    if events.len() == 0 {
        s
    } else {
        spec_pointer_frame(spec_handle_pointer(s, events[0]), events.drop_first())
    }
}

/// The dispatch step: the next session and the requests to perform, for
/// every state and every event.
pub open spec fn spec_step(s: SessionModel, ev: Event) -> (SessionModel, Seq<Request>) {
    match ev {
        Event::GlobalAnnounced { entry } => (
            SessionModel { registry: s.registry.push(entry), ..s },
            Seq::empty(),
        ),
        Event::GlobalRemoved { numeric_name } => spec_handle_global_removed(s, numeric_name),
        Event::Configure { width, height } => spec_handle_configure(s, width, height),
        Event::CloseRequested => (
            SessionModel { surface: SurfaceState { closing: true, ..s.surface }, ..s },
            Seq::empty(),
        ),
        Event::FrameCallback => spec_handle_frame(s),
        Event::BufferReleased { slot } => (
            SessionModel { pool: s.pool.spec_released(slot), ..s },
            Seq::empty(),
        ),
        Event::CapabilityAdded { seat, kind } => (
            SessionModel { seat: s.seat.spec_capability_added(seat, kind), ..s },
            if s.seat.spec_device(kind) is None {
                seq![Request::CreateDevice { kind }]
            } else {
                Seq::empty()
            },
        ),
        Event::CapabilityRemoved { kind } => (
            SessionModel { seat: s.seat.spec_capability_removed(kind), ..s },
            if s.seat.spec_device(kind) is Some {
                seq![Request::ReleaseDevice { kind }]
            } else {
                Seq::empty()
            },
        ),
        Event::DeviceCreationFailed { kind } => (
            SessionModel { seat: s.seat.spec_with_device(kind, None), ..s },
            Seq::empty(),
        ),
        Event::KeyboardEnter { surface } => (
            if surface == s.surface_id {
                SessionModel { seat: SeatDeviceSet { focus: true, ..s.seat }, ..s }
            } else {
                s
            },
            Seq::empty(),
        ),
        Event::KeyboardLeave { surface } => (
            if surface == s.surface_id {
                SessionModel { seat: SeatDeviceSet { focus: false, ..s.seat }, ..s }
            } else {
                s
            },
            Seq::empty(),
        ),
        Event::Pointer { event } => (spec_handle_pointer(s, event), Seq::empty()),
    }
}

/// The live session: the one owned context the dispatch loop passes into
/// every step.
pub struct Session {
    pub registry: Registry,
    pub pool: BufferPool,
    pub surface: SurfaceState,
    pub seat: SeatDeviceSet,
    pub surface_id: u32,
    pub buffer: Option<usize>,
    pub shift: Option<u32>,
}

impl View for Session {
    type V = SessionModel;

    closed spec fn view(&self) -> SessionModel {
        SessionModel {
            registry: self.registry@,
            pool: self.pool@,
            surface: self.surface,
            seat: self.seat,
            surface_id: self.surface_id,
            buffer: self.buffer,
            shift: self.shift,
        }
    }
}

impl Session {
    /// A fresh session for the surface with identity `surface_id`, over a
    /// buffer pool of `pool_capacity` bytes.
    pub fn new(surface_id: u32, pool_capacity: usize) -> (s: Session)
        ensures
            s@ == spec_init_session(surface_id, pool_capacity),
            session_inv(s@),
    {
        let s = Session {
            registry: Registry::new(),
            pool: BufferPool::new(pool_capacity),
            surface: SurfaceState::new(),
            seat: SeatDeviceSet::new(),
            surface_id,
            buffer: None,
            shift: None,
        };
        proof {
            assert(s@ =~~= spec_init_session(surface_id, pool_capacity));
        }
        s
    }

    /// Whether the session has been asked to close: the dispatch loop's
    /// sole termination condition.
    pub fn closing(&self) -> (r: bool)
        ensures
            r == self@.surface.closing,
    {
        self.surface.closing
    }

    /// The draw pass of the render loop; see `spec_draw`.
    fn draw(&mut self) -> (requests: Vec<Request>)
        requires
            session_structural(old(self)@),
        ensures
            final(self)@ == spec_draw(old(self)@).0,
            requests@ == spec_draw(old(self)@).1,
    {
        let w = self.surface.pending_width;
        let h = self.surface.pending_height;
        let target_opt: Option<usize> = match self.buffer {
            Some(i) => {
                if !matches!(self.pool.slot_state(i), SlotState::PendingRelease) {
                    Some(i)
                } else {
                    None
                }
            },
            None => None,
        };
        let target: usize = match target_opt {
            Some(i) => i,
            None => {
                match self.pool.create_buffer(w, h, PixelFormat::Argb8888) {
                    Ok(j) => j,
                    Err(_) => {
                        self.surface.first_draw_done = true;
                        self.surface.frame_pending = true;
                        let mut requests: Vec<Request> = Vec::new();
                        requests.push(Request::RequestFrame);
                        requests.push(Request::Commit);
                        proof {
                            assert(self@ =~~= spec_draw(old(self)@).0);
                            assert(requests@ =~= spec_draw(old(self)@).1);
                        }
                        return requests;
                    },
                }
            },
        };
        let phase = match self.shift {
            Some(v) => v,
            None => 0u32,
        };
        proof {
            let slot = self.pool@.slots[target as int];
            assert(target < self.pool@.slots.len());
            assert(slot.width == w && slot.height == h);
            assert(crate::pool::slot_wf(slot));
            assert(slot.pixels.len() == crate::pool::slot_bytes(w, h));
        }
        let bytes = render::render_canvas(w, h, phase);
        let _ = self.pool.store_pixels(target, bytes);
        let _ = self.pool.submit(target);
        self.buffer = Some(target);
        self.shift = render::step_shift(self.shift, w);
        self.surface.current_width = w;
        self.surface.current_height = h;
        self.surface.first_draw_done = true;
        self.surface.frame_pending = true;
        let mut requests: Vec<Request> = Vec::new();
        requests.push(Request::Damage { width: w, height: h });
        requests.push(Request::RequestFrame);
        requests.push(Request::Attach { slot: target });
        requests.push(Request::Commit);
        proof {
            assert(self@.pool.slots =~= spec_draw(old(self)@).0.pool.slots);
            assert(self@ =~~= spec_draw(old(self)@).0);
            assert(requests@ =~= spec_draw(old(self)@).1);
        }
        requests
    }

    /// Dispatch one decoded event; see `spec_step`. Returns the requests
    /// the transport layer must now perform, in order.
    pub fn handle_event(&mut self, ev: Event) -> (requests: Vec<Request>)
        requires
            session_inv(old(self)@),
        ensures
            final(self)@ == spec_step(old(self)@, ev).0,
            requests@ == spec_step(old(self)@, ev).1,
            session_inv(final(self)@),
    {
        let requests = match ev {
            Event::GlobalAnnounced { entry } => {
                self.registry.announce(entry);
                Vec::new()
            },
            Event::GlobalRemoved { numeric_name } => {
                let removed = self.registry.remove(numeric_name);
                let mut requests: Vec<Request> = Vec::new();
                match removed {
                    Some(e) => {
                        if matches!(e.interface, Interface::Seat) {
                            let kb = match self.seat.keyboard {
                                Some(hd) => hd.seat == numeric_name,
                                None => false,
                            };
                            let pt = match self.seat.pointer {
                                Some(hd) => hd.seat == numeric_name,
                                None => false,
                            };
                            if kb {
                                self.seat.keyboard = None;
                                requests.push(
                                    Request::ReleaseDevice { kind: DeviceKind::Keyboard },
                                );
                            }
                            if pt {
                                self.seat.pointer = None;
                                requests.push(
                                    Request::ReleaseDevice { kind: DeviceKind::Pointer },
                                );
                            }
                        }
                    },
                    None => {},
                }
                requests
            },
            Event::Configure { width, height } => {
                let first = self.surface.configure(width, height);
                self.buffer = None;
                proof {
                    assert(self@ =~~= (SessionModel {
                        surface: old(self)@.surface.spec_configured(width, height),
                        buffer: None,
                        ..old(self)@
                    }));
                }
                if first {
                    self.draw()
                } else {
                    Vec::new()
                }
            },
            Event::CloseRequested => {
                self.surface.request_close();
                Vec::new()
            },
            Event::FrameCallback => {
                self.surface.frame_pending = false;
                proof {
                    assert(self@ =~~= (SessionModel {
                        surface: SurfaceState { frame_pending: false, ..old(self)@.surface },
                        ..old(self)@
                    }));
                }
                if self.surface.configured && !self.surface.closing {
                    self.draw()
                } else {
                    Vec::new()
                }
            },
            Event::BufferReleased { slot } => {
                let _ = self.pool.release(slot);
                Vec::new()
            },
            Event::CapabilityAdded { seat, kind } => {
                let create = self.seat.capability_added(seat, kind);
                let mut requests: Vec<Request> = Vec::new();
                if create {
                    requests.push(Request::CreateDevice { kind });
                }
                requests
            },
            Event::CapabilityRemoved { kind } => {
                let release = self.seat.capability_removed(kind);
                let mut requests: Vec<Request> = Vec::new();
                if release {
                    requests.push(Request::ReleaseDevice { kind });
                }
                requests
            },
            Event::DeviceCreationFailed { kind } => {
                self.seat.device_creation_failed(kind);
                Vec::new()
            },
            Event::KeyboardEnter { surface } => {
                let own = self.surface_id;
                self.seat.focus_enter(surface, own);
                Vec::new()
            },
            Event::KeyboardLeave { surface } => {
                let own = self.surface_id;
                self.seat.focus_leave(surface, own);
                Vec::new()
            },
            Event::Pointer { event } => {
                if event.surface == self.surface_id {
                    if matches!(event.action, PointerAction::Press { .. }) {
                        self.shift = render::toggle_shift(self.shift);
                    }
                }
                Vec::new()
            },
        };
        proof {
            assert(self@ =~~= spec_step(old(self)@, ev).0);
            assert(requests@ =~= spec_step(old(self)@, ev).1);
            lemma_step_preserves_inv(old(self)@, ev);
        }
        requests
    }

    /// Deliver one pointer frame: every event of the batch, in order.
    /// Pointer events request nothing of the transport; events for foreign
    /// surfaces are skipped inside the per-event step.
    pub fn pointer_frame(&mut self, events: &Vec<PointerEvent>)
        requires
            session_inv(old(self)@),
        ensures
            final(self)@ == spec_pointer_frame(old(self)@, events@),
            session_inv(final(self)@),
    {
        let mut k: usize = 0;
        proof {
            assert(events@.skip(0) =~= events@);
        }
        while k < events.len()
            invariant
                session_inv(self@),
                k <= events@.len(),
                spec_pointer_frame(old(self)@, events@) == spec_pointer_frame(
                    self@,
                    events@.skip(k as int),
                ),
            decreases events@.len() - k,
        {
            let ev = events[k];
            let ghost pre = self@;
            let _ = self.handle_event(Event::Pointer { event: ev });
            proof {
                assert(events@.skip(k as int)[0] == events@[k as int]);
                assert(events@.skip(k as int).drop_first() =~= events@.skip(k as int + 1));
                assert(spec_pointer_frame(pre, events@.skip(k as int)) == spec_pointer_frame(
                    self@,
                    events@.skip(k as int + 1),
                ));
            }
            k = k + 1;
        }
        proof {
            assert(events@.skip(events@.len() as int) =~= Seq::<PointerEvent>::empty());
        }
    }
}

/// The draw pass keeps the session structurally valid, leaves `configured`
/// and `closing` alone, and always ends with the first draw done and a
/// frame callback outstanding.
pub proof fn lemma_draw_preserves_inv(s: SessionModel)
    requires
        session_structural(s),
    ensures
        session_structural(spec_draw(s).0),
        spec_draw(s).0.surface.configured == s.surface.configured,
        spec_draw(s).0.surface.closing == s.surface.closing,
        spec_draw(s).0.surface.first_draw_done,
        spec_draw(s).0.surface.frame_pending,
{
    let w = s.surface.pending_width;
    let h = s.surface.pending_height;
    let reuse = match s.buffer {
        Some(i) => if s.pool.slots[i as int].state != SlotState::PendingRelease {
            Some(i)
        } else {
            None
        },
        None => None,
    };
    let target = match reuse {
        Some(i) => Some((i, s.pool)),
        None => if s.pool.spec_can_create(w, h) {
            Some(
                (
                    s.pool.slots.len() as usize,
                    PoolModel {
                        slots: s.pool.slots.push(
                            PoolModel::spec_new_slot(w, h, PixelFormat::Argb8888),
                        ),
                        capacity: s.pool.capacity,
                        used: (s.pool.used + crate::pool::slot_bytes(w, h)) as usize,
                    },
                ),
            )
        } else {
            None
        },
    };
    match target {
        Some((i, pool1)) => {
            let fresh = PoolModel::spec_new_slot(w, h, PixelFormat::Argb8888);
            assert(crate::pool::slot_wf(fresh)) by {
                assert(fresh.pixels.len() == crate::pool::slot_bytes(w, h));
            }
            assert(s.pool.slots.len() <= usize::MAX) by {
                assert(4 * s.pool.slots.len() <= s.pool.used);
            }
            if reuse is None {
                assert(4 <= crate::pool::slot_bytes(w, h)) by (nonlinear_arith)
                    requires
                        w >= 1,
                        h >= 1,
                ;
                assert(forall|k: int|
                    0 <= k < s.pool.slots.len() ==> pool1.slots[k] == s.pool.slots[k]);
            }
            assert(pool1.spec_wf());
            assert(0 <= i < pool1.slots.len());
            assert(pool1.slots[i as int].width == w && pool1.slots[i as int].height == h);
            let phase = match s.shift {
                Some(v) => v,
                None => 0u32,
            };
            let drawn = SlotModel {
                state: SlotState::PendingRelease,
                pixels: render::spec_canvas(w, h, phase),
                ..pool1.slots[i as int]
            };
            assert(crate::pool::slot_wf(drawn)) by {
                assert(crate::pool::slot_wf(pool1.slots[i as int]));
                assert(drawn.pixels.len() == crate::pool::slot_bytes(w, h));
            }
            let pool2 = pool1.spec_with_slot(i as int, drawn);
            assert(pool2.spec_wf()) by {
                assert(forall|k: int|
                    0 <= k < pool2.slots.len() && k != i ==> pool2.slots[k] == pool1.slots[k]);
            }
            assert(spec_draw(s).0.pool == pool2);
            assert(buffer_slot_valid(spec_draw(s).0));
        },
        None => {},
    }
}

/// Every dispatch step preserves the session invariant.
pub proof fn lemma_step_preserves_inv(s: SessionModel, ev: Event)
    requires
        session_inv(s),
    ensures
        session_inv(spec_step(s, ev).0),
{
    match ev {
        Event::Configure { width, height } => {
            let s1 = SessionModel {
                surface: s.surface.spec_configured(width, height),
                buffer: None,
                ..s
            };
            if !s.surface.configured {
                lemma_draw_preserves_inv(s1);
            }
        },
        Event::FrameCallback => {
            let s1 = SessionModel {
                surface: SurfaceState { frame_pending: false, ..s.surface },
                ..s
            };
            if s.surface.configured && !s.surface.closing {
                lemma_draw_preserves_inv(s1);
            }
        },
        _ => {},
    }
}

} // verus!
