//! The session core's global guarantees, proved over `spec_step`: frames
//! never tear, drawing waits for the first configure and starts exactly
//! there, frame pacing keeps one callback outstanding, and spurious
//! capability removals are no-ops.

use vstd::prelude::*;

use crate::pool::SlotState;
use crate::seat::DeviceKind;
use crate::session::{
    lemma_draw_preserves_inv, lemma_step_preserves_inv, session_inv, spec_draw, spec_step, Event,
    Request, SessionModel,
};
use crate::surface::SurfaceState;

verus! {

/// The session reached by dispatching `evs` in order, starting from `s`.
pub open spec fn spec_run(s: SessionModel, evs: Seq<Event>) -> SessionModel
    decreases evs.len(),
{
    if evs.len() == 0 {
        s
    } else {
        spec_run(spec_step(s, evs[0]).0, evs.drop_first())
    }
}

/// Dispatching one more event continues the run.
pub proof fn lemma_run_snoc(s: SessionModel, evs: Seq<Event>, ev: Event)
    ensures
        spec_run(s, evs.push(ev)) == spec_step(spec_run(s, evs), ev).0,
    decreases evs.len(),
{
    if evs.len() == 0 {
        assert(evs.push(ev)[0] == ev);
        assert(evs.push(ev).drop_first() =~= Seq::<Event>::empty());
        assert(spec_run(s, evs.push(ev)) == spec_run(
            spec_step(s, ev).0,
            Seq::<Event>::empty(),
        ));
        assert(spec_run(spec_step(s, ev).0, Seq::<Event>::empty()) == spec_step(s, ev).0);
        assert(spec_run(s, evs) == s);
    } else {
        assert(evs.push(ev)[0] == evs[0]);
        assert(evs.push(ev).drop_first() =~= evs.drop_first().push(ev));
        lemma_run_snoc(spec_step(s, evs[0]).0, evs.drop_first(), ev);
        assert(spec_run(s, evs.push(ev)) == spec_run(
            spec_step(s, evs[0]).0,
            evs.drop_first().push(ev),
        ));
        assert(spec_run(s, evs) == spec_run(spec_step(s, evs[0]).0, evs.drop_first()));
    }
}

/// The session invariant holds in every state a run reaches.
pub proof fn lemma_run_preserves_inv(s: SessionModel, evs: Seq<Event>)
    requires
        session_inv(s),
    ensures
        session_inv(spec_run(s, evs)),
    decreases evs.len(),
{
    if evs.len() > 0 {
        lemma_step_preserves_inv(s, evs[0]);
        lemma_run_preserves_inv(spec_step(s, evs[0]).0, evs.drop_first());
    }
}

/// Whether a request list commits the surface.
pub open spec fn spec_emits_commit(requests: Seq<Request>) -> bool {
    exists|k: int| 0 <= k < requests.len() && requests[k] is Commit
}

/// No torn frame: whatever event arrives, the bytes of a slot the server
/// still holds (`PendingRelease`) are not touched by the step — the
/// renderer writes only slots that are free or its own, so no concurrent
/// writer can race the server's scan-out.
pub proof fn lemma_no_torn_frame(s: SessionModel, ev: Event, i: int)
    requires
        session_inv(s),
        0 <= i < s.pool.slots.len(),
        s.pool.slots[i].state == SlotState::PendingRelease,
    ensures
        s.pool.slots.len() <= spec_step(s, ev).0.pool.slots.len(),
        spec_step(s, ev).0.pool.slots[i].pixels == s.pool.slots[i].pixels,
{
    match ev {
        Event::Configure { width, height } => {
            let s1 = SessionModel {
                surface: s.surface.spec_configured(width, height),
                buffer: None,
                ..s
            };
            if !s.surface.configured {
                lemma_draw_no_torn_frame(s1, i);
            }
        },
        Event::FrameCallback => {
            let s1 = SessionModel {
                surface: SurfaceState { frame_pending: false, ..s.surface },
                ..s
            };
            if s.surface.configured && !s.surface.closing {
                lemma_draw_no_torn_frame(s1, i);
            }
        },
        _ => {},
    }
}

/// The draw pass never writes a slot the server still holds: it reuses its
/// own held slot only when that slot is not `PendingRelease`, and otherwise
/// carves a fresh one at the end of the pool.
proof fn lemma_draw_no_torn_frame(s: SessionModel, i: int)
    requires
        crate::session::session_structural(s),
        0 <= i < s.pool.slots.len(),
        s.pool.slots[i].state == SlotState::PendingRelease,
    ensures
        s.pool.slots.len() <= spec_draw(s).0.pool.slots.len(),
        spec_draw(s).0.pool.slots[i].pixels == s.pool.slots[i].pixels,
{
    match s.buffer {
        Some(t) => {
            if s.pool.slots[t as int].state != SlotState::PendingRelease {
                assert(t != i);
            }
        },
        None => {},
    }
}

/// Drawing waits for the shell: from an unconfigured session, any event
/// other than a configure commits nothing and leaves the session
/// unconfigured.
pub proof fn lemma_no_draw_before_configure(s: SessionModel, ev: Event)
    requires
        session_inv(s),
        !s.surface.configured,
        !(ev matches Event::Configure { .. }),
    ensures
        !spec_emits_commit(spec_step(s, ev).1),
        !spec_step(s, ev).0.surface.configured,
{
    let requests = spec_step(s, ev).1;
    assert(forall|k: int| 0 <= k < requests.len() ==> !(#[trigger] requests[k] is Commit));
}

/// The first configure event draws synchronously: its step always commits
/// (with content, or as a deliberately skipped frame when the pool is
/// exhausted) and completes the first draw.
pub proof fn lemma_first_configure_draws(
    s: SessionModel,
    width: Option<u32>,
    height: Option<u32>,
)
    requires
        session_inv(s),
        !s.surface.configured,
    ensures
        spec_emits_commit(spec_step(s, Event::Configure { width, height }).1),
        spec_step(s, Event::Configure { width, height }).0.surface.first_draw_done,
        spec_step(s, Event::Configure { width, height }).0.surface.configured,
{
    let s1 = SessionModel {
        surface: s.surface.spec_configured(width, height),
        buffer: None,
        ..s
    };
    lemma_draw_preserves_inv(s1);
    let requests = spec_draw(s1).1;
    if requests.len() == 4 {
        assert(requests[3] is Commit);
    } else {
        assert(requests[1] is Commit);
    }
}

/// The first draw never happens before the first configure: along any run
/// whose first `n` events hold no configure, the session stays
/// unconfigured, and the step taken at any point `j` of that prefix
/// commits nothing.
pub proof fn lemma_no_commit_before_configure(s: SessionModel, evs: Seq<Event>, n: int)
    requires
        session_inv(s),
        !s.surface.configured,
        0 <= n <= evs.len(),
        forall|j: int| 0 <= j < n ==> !(#[trigger] evs[j] matches Event::Configure { .. }),
    ensures
        !spec_run(s, evs.take(n)).surface.configured,
        n < evs.len() && !(evs[n] matches Event::Configure { .. }) ==> !spec_emits_commit(
            spec_step(spec_run(s, evs.take(n)), evs[n]).1,
        ),
    decreases n,
{
    if n == 0 {
        assert(evs.take(0) =~= Seq::<Event>::empty());
        assert(spec_run(s, evs.take(0)) == s);
        if 0 < evs.len() && !(evs[0] matches Event::Configure { .. }) {
            lemma_no_draw_before_configure(s, evs[0]);
        }
    } else {
        lemma_no_commit_before_configure(s, evs, n - 1);
        let prev = spec_run(s, evs.take(n - 1));
        lemma_run_preserves_inv(s, evs.take(n - 1));
        lemma_no_draw_before_configure(prev, evs[n - 1]);
        assert(evs.take(n) =~= evs.take(n - 1).push(evs[n - 1]));
        lemma_run_snoc(s, evs.take(n - 1), evs[n - 1]);
        let cur = spec_run(s, evs.take(n));
        if n < evs.len() && !(evs[n] matches Event::Configure { .. }) {
            lemma_run_preserves_inv(s, evs.take(n));
            lemma_no_draw_before_configure(cur, evs[n]);
        }
    }
}

/// How many frame requests a request list issues.
pub open spec fn spec_frame_request_count(requests: Seq<Request>) -> nat
    decreases requests.len(),
{
    if requests.len() == 0 {
        0
    } else {
        (if requests[0] is RequestFrame {
            1nat
        } else {
            0nat
        }) + spec_frame_request_count(requests.drop_first())
    }
}

/// A request list without a frame request issues none.
proof fn lemma_frame_request_count_zero(requests: Seq<Request>)
    requires
        forall|k: int| 0 <= k < requests.len() ==> !(#[trigger] requests[k] is RequestFrame),
    ensures
        spec_frame_request_count(requests) == 0,
    decreases requests.len(),
{
    if requests.len() > 0 {
        assert(forall|k: int|
            0 <= k < requests.drop_first().len() ==> requests.drop_first()[k] == requests[k + 1]);
        lemma_frame_request_count_zero(requests.drop_first());
    }
}

/// A request list whose one frame request sits at position `i` issues
/// exactly one.
proof fn lemma_frame_request_count_one(requests: Seq<Request>, i: int)
    requires
        0 <= i < requests.len(),
        requests[i] is RequestFrame,
        forall|k: int| 0 <= k < requests.len() && k != i ==> !(#[trigger] requests[k]
            is RequestFrame),
    ensures
        spec_frame_request_count(requests) == 1,
    decreases requests.len(),
{
    assert(forall|k: int|
        0 <= k < requests.drop_first().len() ==> requests.drop_first()[k] == requests[k + 1]);
    if i == 0 {
        lemma_frame_request_count_zero(requests.drop_first());
    } else {
        lemma_frame_request_count_one(requests.drop_first(), i - 1);
    }
}

/// No double-request, no missed request: every step issues exactly one
/// frame request when it commits — the request-then-commit pair of the draw
/// pass — and none otherwise.
pub proof fn lemma_frame_request_iff_commit(s: SessionModel, ev: Event)
    requires
        session_inv(s),
    ensures
        spec_frame_request_count(spec_step(s, ev).1) == (if spec_emits_commit(
            spec_step(s, ev).1,
        ) {
            1nat
        } else {
            0nat
        }),
{
    let requests = spec_step(s, ev).1;
    let drawing = match ev {
        Event::Configure { .. } => !s.surface.configured,
        Event::FrameCallback => s.surface.configured && !s.surface.closing,
        _ => false,
    };
    if drawing {
        if requests.len() == 4 {
            assert(requests[1] is RequestFrame);
            assert(requests[3] is Commit);
            assert(forall|k: int| 0 <= k < requests.len() && k != 1 ==> !(#[trigger] requests[k]
                is RequestFrame));
            lemma_frame_request_count_one(requests, 1);
        } else {
            assert(requests[0] is RequestFrame);
            assert(requests[1] is Commit);
            assert(forall|k: int| 0 <= k < requests.len() && k != 0 ==> !(#[trigger] requests[k]
                is RequestFrame));
            lemma_frame_request_count_one(requests, 0);
        }
    } else {
        assert(forall|k: int| 0 <= k < requests.len() ==> !(#[trigger] requests[k]
            is RequestFrame));
        lemma_frame_request_count_zero(requests);
        assert(forall|k: int| 0 <= k < requests.len() ==> !(#[trigger] requests[k] is Commit));
    }
}

/// How many frame requests are outstanding: the one-token model of frame
/// pacing — a commit issues exactly one request and the paired callback
/// consumes it within its own step.
pub open spec fn spec_outstanding_frame_requests(s: SessionModel) -> nat {
    if s.surface.frame_pending {
        1
    } else {
        0
    }
}

/// One frame request outstanding: in every state any run reaches after the
/// first commit, for as long as the session is not closing, exactly one
/// frame request is outstanding — none is missed, none is doubled.
pub proof fn lemma_one_outstanding_frame_request(s: SessionModel, evs: Seq<Event>)
    requires
        session_inv(s),
    ensures
        spec_run(s, evs).surface.first_draw_done && !spec_run(s, evs).surface.closing
            ==> spec_outstanding_frame_requests(spec_run(s, evs)) == 1,
{
    lemma_run_preserves_inv(s, evs);
}

/// A capability-removed event for a device kind with no live handle is a
/// no-op: the session is untouched and nothing is requested.
pub proof fn lemma_capability_removed_no_op(s: SessionModel, kind: DeviceKind)
    requires
        s.seat.spec_device(kind) is None,
    ensures
        spec_step(s, Event::CapabilityRemoved { kind }).0 == s,
        spec_step(s, Event::CapabilityRemoved { kind }).1 == Seq::<Request>::empty(),
{
    assert(spec_step(s, Event::CapabilityRemoved { kind }).0 =~~= s);
}

} // verus!
