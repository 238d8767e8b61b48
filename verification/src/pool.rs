//! The shared-memory buffer pool: fixed-size pixel slots carved from one
//! backing store, each with an explicit busy/free lifecycle.
//!
//! A slot is written only while it is `Free` or `InUse` by the single
//! renderer; the moment it is attached and committed it becomes
//! `PendingRelease`, and its bytes may not change again until the server's
//! release notification for that very slot arrives and makes it `Free`.
//! Release is event-driven, never time-based. When the renderer finds its
//! slot still `PendingRelease`, it carves a second slot instead of blocking:
//! double-buffering emerges from this policy.

use vstd::prelude::*;

use crate::error::SessionError;

verus! {

/// The lifecycle state of one buffer slot.
#[derive(Clone, Copy, Debug, PartialEq, Eq, Structural)]
pub enum SlotState {
    /// Not attached anywhere; the renderer may write it.
    Free,
    /// Held by the renderer, being written this frame.
    InUse,
    /// Attached and committed; the server has not released it yet.
    PendingRelease,
}

/// The pixel format of a slot.
#[derive(Clone, Copy, Debug, PartialEq, Eq, Structural)]
pub enum PixelFormat {
    Argb8888,
    Xrgb8888,
}

/// One carved buffer slot: geometry, format, lifecycle state, and its
/// pixel bytes.
pub struct BufferSlot {
    pub width: u32,
    pub height: u32,
    pub stride: u32,
    pub format: PixelFormat,
    pub state: SlotState,
    pub pixels: Vec<u8>,
}

/// The mathematical value of a slot.
#[verifier::ext_equal]
pub struct SlotModel {
    pub width: u32,
    pub height: u32,
    pub stride: u32,
    pub format: PixelFormat,
    pub state: SlotState,
    pub pixels: Seq<u8>,
}

impl View for BufferSlot {
    type V = SlotModel;

    open spec fn view(&self) -> SlotModel {
        SlotModel {
            width: self.width,
            height: self.height,
            stride: self.stride,
            format: self.format,
            state: self.state,
            pixels: self.pixels@,
        }
    }
}

/// The bytes a slot of this geometry occupies: four bytes per pixel.
pub open spec fn slot_bytes(width: u32, height: u32) -> int {
    4 * (width as int) * (height as int)
}

/// A slot's internal validity: positive geometry, a stride of four bytes
/// per pixel that fits `u32`, and a byte store of exactly its size, which
/// is addressable.
pub open spec fn slot_wf(s: SlotModel) -> bool {
    s.width > 0 && s.height > 0 && 4 * (s.width as int) <= u32::MAX && s.stride == 4 * (
    s.width as int) && s.pixels.len() == slot_bytes(s.width, s.height) && s.pixels.len()
        <= usize::MAX
}

/// The mathematical value of the pool.
#[verifier::ext_equal]
pub struct PoolModel {
    pub slots: Seq<SlotModel>,
    pub capacity: usize,
    pub used: usize,
}

impl PoolModel {
    /// Pool validity: the carve accounting never exceeds capacity, every
    /// slot is valid, and — since every slot occupies at least four bytes —
    /// the accounting bounds the slot count.
    pub open spec fn spec_wf(self) -> bool {
        self.used <= self.capacity && 4 * self.slots.len() <= self.used && forall|i: int|
            0 <= i < self.slots.len() ==> slot_wf(#[trigger] self.slots[i])
    }

    /// Whether a buffer of this geometry can still be carved.
    pub open spec fn spec_can_create(self, width: u32, height: u32) -> bool {
        4 * (width as int) <= u32::MAX && self.used + slot_bytes(width, height) <= self.capacity
    }

    /// The new slot `create_buffer` carves: free, zero-filled.
    pub open spec fn spec_new_slot(width: u32, height: u32, format: PixelFormat) -> SlotModel {
        SlotModel {
            width,
            height,
            stride: (4 * (width as int)) as u32,
            format,
            state: SlotState::Free,
            pixels: Seq::new(slot_bytes(width, height) as nat, |i: int| 0u8),
        }
    }

    /// The pool with slot `i` replaced.
    pub open spec fn spec_with_slot(self, i: int, s: SlotModel) -> PoolModel {
        PoolModel { slots: self.slots.update(i, s), ..self }
    }

    /// The pool after a server release notification for slot `i`: a
    /// `PendingRelease` slot becomes `Free`; anything else is a no-op.
    pub open spec fn spec_released(self, i: usize) -> PoolModel {
        if i < self.slots.len() && self.slots[i as int].state == SlotState::PendingRelease {
            self.spec_with_slot(
                i as int,
                SlotModel { state: SlotState::Free, ..self.slots[i as int] },
            )
        } else {
            self
        }
    }
}

/// The pool itself: the carved slots in carving order, the capacity of the
/// backing store in bytes, and how many bytes the slots occupy.
pub struct BufferPool {
    slots: Vec<BufferSlot>,
    capacity: usize,
    used: usize,
}

impl View for BufferPool {
    type V = PoolModel;

    closed spec fn view(&self) -> PoolModel {
        PoolModel {
            slots: Seq::new(self.slots@.len(), |i: int| self.slots@[i]@),
            capacity: self.capacity,
            used: self.used,
        }
    }
}

/// A zero-filled byte vector of length `n`.
fn zero_bytes(n: usize) -> (v: Vec<u8>)
    ensures
        v@ == Seq::new(n as nat, |i: int| 0u8),
{
    let mut v: Vec<u8> = Vec::new();
    let mut k: usize = 0;
    while k < n
        invariant
            k <= n,
            v@ == Seq::new(k as nat, |i: int| 0u8),
        decreases n - k,
    {
        v.push(0u8);
        k = k + 1;
        proof {
            assert(v@ =~= Seq::new(k as nat, |i: int| 0u8));
        }
    }
    v
}

impl BufferPool {
    /// A fresh pool over a backing store of `capacity` bytes: no slots yet.
    pub fn new(capacity: usize) -> (r: BufferPool)
        ensures
            r@ == (PoolModel { slots: Seq::<SlotModel>::empty(), capacity, used: 0 }),
            r@.spec_wf(),
    {
        let r = BufferPool { slots: Vec::new(), capacity, used: 0 };
        proof {
            assert(r@.slots =~= Seq::<SlotModel>::empty());
            assert(r@ =~~= (PoolModel { slots: Seq::<SlotModel>::empty(), capacity, used: 0 }));
        }
        r
    }

    /// How many slots have been carved.
    pub fn len(&self) -> (n: usize)
        ensures
            n == self@.slots.len(),
    {
        self.slots.len()
    }

    /// The lifecycle state of slot `i`.
    pub fn slot_state(&self, i: usize) -> (s: SlotState)
        requires
            i < self@.slots.len(),
        ensures
            s == self@.slots[i as int].state,
    {
        self.slots[i].state
    }

    /// The geometry of slot `i`.
    pub fn slot_dimensions(&self, i: usize) -> (d: (u32, u32))
        requires
            i < self@.slots.len(),
        ensures
            d.0 == self@.slots[i as int].width,
            d.1 == self@.slots[i as int].height,
    {
        (self.slots[i].width, self.slots[i].height)
    }

    /// The pixel bytes of slot `i`.
    pub fn slot_pixels(&self, i: usize) -> (p: &Vec<u8>)
        requires
            i < self@.slots.len(),
        ensures
            p@ == self@.slots[i as int].pixels,
    {
        &self.slots[i].pixels
    }

    /// Carve a new slot of `width` x `height` pixels in `format`.
    ///
    /// Succeeds, returning the new slot's index, if and only if a
    /// four-byte-per-pixel buffer of that geometry still fits the backing
    /// store; otherwise fails with `PoolExhausted` and changes nothing.
    pub fn create_buffer(&mut self, width: u32, height: u32, format: PixelFormat) -> (r: Result<
        usize,
        SessionError,
    >)
        requires
            old(self)@.spec_wf(),
            width > 0,
            height > 0,
        ensures
            final(self)@.spec_wf(),
            r is Ok <==> old(self)@.spec_can_create(width, height),
            match r {
                Ok(i) => i == old(self)@.slots.len() && final(self)@ == (PoolModel {
                    slots: old(self)@.slots.push(PoolModel::spec_new_slot(width, height, format)),
                    capacity: old(self)@.capacity,
                    used: (old(self)@.used + slot_bytes(width, height)) as usize,
                }),
                Err(e) => e == SessionError::PoolExhausted && final(self)@ == old(self)@,
            },
    {
        if width > u32::MAX / 4 {
            return Err(SessionError::PoolExhausted);
        }
        let stride: u32 = 4 * width;
        proof {
            assert((stride as int) * (height as int) <= (u32::MAX as int) * (u32::MAX as int))
                by (nonlinear_arith)
                requires
                    stride <= u32::MAX,
                    height <= u32::MAX,
            ;
        }
        let needed: u64 = (stride as u64) * (height as u64);
        let remaining: u64 = (self.capacity - self.used) as u64;
        if needed > remaining {
            return Err(SessionError::PoolExhausted);
        }
        let size: usize = needed as usize;
        proof {
            assert(4 <= (stride as int) * (height as int)) by (nonlinear_arith)
                requires
                    stride >= 4,
                    height >= 1,
            ;
        }
        let i = self.slots.len();
        let pixels = zero_bytes(size);
        let slot = BufferSlot {
            width,
            height,
            stride,
            format: format,
            state: SlotState::Free,
            pixels,
        };
        self.slots.push(slot);
        self.used = self.used + size;
        proof {
            assert(self@.slots =~~= old(self)@.slots.push(
                PoolModel::spec_new_slot(width, height, format),
            ));
        }
        Ok(i)
    }

    /// Write a frame into slot `i`: the renderer's one way to touch pixel
    /// memory. The write happens, and the slot becomes `InUse`, exactly when
    /// the slot is `Free` or already `InUse` by the renderer; a slot the
    /// server still holds (`PendingRelease`) is refused untouched, so no
    /// frame can tear.
    pub fn store_pixels(&mut self, i: usize, bytes: Vec<u8>) -> (stored: bool)
        requires
            old(self)@.spec_wf(),
            i < old(self)@.slots.len(),
            bytes@.len() == old(self)@.slots[i as int].pixels.len(),
        ensures
            final(self)@.spec_wf(),
            stored == (old(self)@.slots[i as int].state != SlotState::PendingRelease),
            stored ==> final(self)@ == old(self)@.spec_with_slot(
                i as int,
                SlotModel {
                    state: SlotState::InUse,
                    pixels: bytes@,
                    ..old(self)@.slots[i as int]
                },
            ),
            !stored ==> final(self)@ == old(self)@,
    {
        let state = self.slots[i].state;
        if matches!(state, SlotState::PendingRelease) {
            return false;
        }
        let slot = &mut self.slots[i];
        slot.state = SlotState::InUse;
        slot.pixels = bytes;
        proof {
            assert(self@.slots =~~= old(self)@.spec_with_slot(
                i as int,
                SlotModel {
                    state: SlotState::InUse,
                    pixels: bytes@,
                    ..old(self)@.slots[i as int]
                },
            ).slots);
        }
        true
    }

    /// Attach-and-commit slot `i` to the surface: an `InUse` slot becomes
    /// `PendingRelease` and is returned to the server's hands; any other
    /// state is left unchanged.
    pub fn submit(&mut self, i: usize) -> (submitted: bool)
        requires
            old(self)@.spec_wf(),
            i < old(self)@.slots.len(),
        ensures
            final(self)@.spec_wf(),
            submitted == (old(self)@.slots[i as int].state == SlotState::InUse),
            submitted ==> final(self)@ == old(self)@.spec_with_slot(
                i as int,
                SlotModel { state: SlotState::PendingRelease, ..old(self)@.slots[i as int] },
            ),
            !submitted ==> final(self)@ == old(self)@,
    {
        let state = self.slots[i].state;
        if matches!(state, SlotState::InUse) {
            self.slots[i].state = SlotState::PendingRelease;
            proof {
                assert(self@.slots =~~= old(self)@.spec_with_slot(
                    i as int,
                    SlotModel { state: SlotState::PendingRelease, ..old(self)@.slots[i as int] },
                ).slots);
            }
            true
        } else {
            false
        }
    }

    /// The server's release notification for slot `i`: a `PendingRelease`
    /// slot becomes `Free` again, its bytes intact; any other index or
    /// state is a no-op. Never time-based.
    pub fn release(&mut self, i: usize) -> (freed: bool)
        requires
            old(self)@.spec_wf(),
        ensures
            final(self)@.spec_wf(),
            final(self)@ == old(self)@.spec_released(i),
            freed == (i < old(self)@.slots.len() && old(self)@.slots[i as int].state
                == SlotState::PendingRelease),
            freed ==> final(self)@ == old(self)@.spec_with_slot(
                i as int,
                SlotModel { state: SlotState::Free, ..old(self)@.slots[i as int] },
            ),
            !freed ==> final(self)@ == old(self)@,
    {
        if i >= self.slots.len() {
            return false;
        }
        let state = self.slots[i].state;
        if matches!(state, SlotState::PendingRelease) {
            self.slots[i].state = SlotState::Free;
            proof {
                assert(self@.slots =~~= old(self)@.spec_with_slot(
                    i as int,
                    SlotModel { state: SlotState::Free, ..old(self)@.slots[i as int] },
                ).slots);
            }
            true
        } else {
            false
        }
    }
}

} // verus!
