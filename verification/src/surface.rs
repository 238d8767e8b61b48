//! The surface/shell state machine: geometry is negotiated through the
//! configure/commit handshake, close requests mark the session as closing,
//! and a single frame ticket paces the render loop.
//!
//! A configure event only stages `pending_*`; the committed geometry changes
//! when a draw commits (`current_* <- pending_*`). The first configure is
//! special: it must trigger a synchronous first draw, and no draw may happen
//! before it. `frame_pending` is the one outstanding frame-callback token:
//! set by the commit that requests the next callback, cleared when that
//! callback arrives.

use vstd::prelude::*;

verus! {

/// The side length a configure event without an explicit size falls back to.
pub const DEFAULT_SIZE: u32 = 256;

/// The state of the one managed surface.
#[derive(Clone, Copy, Debug, PartialEq, Eq, Structural)]
pub struct SurfaceState {
    /// Width of the last committed geometry.
    pub current_width: u32,
    /// Height of the last committed geometry.
    pub current_height: u32,
    /// Width staged by the latest configure event.
    pub pending_width: u32,
    /// Height staged by the latest configure event.
    pub pending_height: u32,
    /// Whether at least one configure event has been processed.
    pub configured: bool,
    /// Whether the first draw has been committed.
    pub first_draw_done: bool,
    /// Whether a close request has been received; terminal.
    pub closing: bool,
    /// Whether a frame callback is outstanding (the one frame ticket).
    pub frame_pending: bool,
}

/// The size a configure event proposes: an explicit, positive dimension is
/// taken as is; a missing or zero dimension means the client chooses, and
/// this client falls back to `DEFAULT_SIZE`.
pub open spec fn spec_proposed_dimension(proposal: Option<u32>) -> u32 {
    match proposal {
        Some(v) => if v > 0 {
            v
        } else {
            DEFAULT_SIZE
        },
        None => DEFAULT_SIZE,
    }
}

impl SurfaceState {
    /// Both staged dimensions are positive (an invariant of every reachable
    /// surface state: the initial state and every configure keep it).
    pub open spec fn spec_wf(self) -> bool {
        self.pending_width > 0 && self.pending_height > 0 && self.current_width > 0
            && self.current_height > 0
    }

    /// The initial state: default geometry staged, nothing configured,
    /// nothing drawn, no frame outstanding.
    pub open spec fn spec_init() -> SurfaceState {
        SurfaceState {
            current_width: DEFAULT_SIZE,
            current_height: DEFAULT_SIZE,
            pending_width: DEFAULT_SIZE,
            pending_height: DEFAULT_SIZE,
            configured: false,
            first_draw_done: false,
            closing: false,
            frame_pending: false,
        }
    }

    /// The state after a configure event proposing `width` x `height`.
    pub open spec fn spec_configured(self, width: Option<u32>, height: Option<u32>) -> SurfaceState {
        SurfaceState {
            pending_width: spec_proposed_dimension(width),
            pending_height: spec_proposed_dimension(height),
            configured: true,
            ..self
        }
    }

    /// A fresh, unconfigured surface.
    pub fn new() -> (r: SurfaceState)
        ensures
            r == SurfaceState::spec_init(),
            r.spec_wf(),
    {
        SurfaceState {
            current_width: DEFAULT_SIZE,
            current_height: DEFAULT_SIZE,
            pending_width: DEFAULT_SIZE,
            pending_height: DEFAULT_SIZE,
            configured: false,
            first_draw_done: false,
            closing: false,
            frame_pending: false,
        }
    }

    /// Process a configure event: stage the proposed geometry and mark the
    /// surface configured. Returns whether this was the first configure —
    /// the one case where the caller must draw synchronously.
    pub fn configure(&mut self, width: Option<u32>, height: Option<u32>) -> (first: bool)
        ensures
            first == !old(self).configured,
            *final(self) == old(self).spec_configured(width, height),
            old(self).spec_wf() ==> final(self).spec_wf(),
    {
        let first = !self.configured;
        self.pending_width = match width {
            Some(v) => if v > 0 {
                v
            } else {
                DEFAULT_SIZE
            },
            None => DEFAULT_SIZE,
        };
        self.pending_height = match height {
            Some(v) => if v > 0 {
                v
            } else {
                DEFAULT_SIZE
            },
            None => DEFAULT_SIZE,
        };
        self.configured = true;
        first
    }

    /// Process a close request: the surface enters its terminal `closing`
    /// state; the dispatch loop terminates after in-flight work.
    pub fn request_close(&mut self)
        ensures
            *final(self) == (SurfaceState { closing: true, ..*old(self) }),
    {
        self.closing = true;
    }
}

} // verus!
