use waycore::error::SessionError;
use waycore::pool::{BufferPool, PixelFormat, SlotState};

#[test]
fn create_buffer_carves_zeroed_free_slot() {
    let mut p = BufferPool::new(1024);
    let i = p.create_buffer(4, 4, PixelFormat::Argb8888).unwrap();
    assert_eq!(i, 0);
    assert_eq!(p.len(), 1);
    assert_eq!(p.slot_state(0), SlotState::Free);
    assert_eq!(p.slot_dimensions(0), (4, 4));
    assert_eq!(p.slot_pixels(0).len(), 64);
    assert!(p.slot_pixels(0).iter().all(|b| *b == 0));
}

#[test]
fn create_buffer_exhausts_capacity() {
    let mut p = BufferPool::new(16);
    let first = p.create_buffer(2, 2, PixelFormat::Argb8888);
    assert_eq!(first, Ok(0));
    let second = p.create_buffer(2, 2, PixelFormat::Argb8888);
    assert_eq!(second, Err(SessionError::PoolExhausted));
    assert_eq!(p.len(), 1);
}

#[test]
fn slot_lifecycle_free_inuse_pending_free() {
    let mut p = BufferPool::new(64);
    let i = p.create_buffer(2, 2, PixelFormat::Xrgb8888).unwrap();
    assert_eq!(p.slot_state(i), SlotState::Free);

    let stored = p.store_pixels(i, vec![7u8; 16]);
    assert!(stored);
    assert_eq!(p.slot_state(i), SlotState::InUse);
    assert_eq!(p.slot_pixels(i)[0], 7);

    let submitted = p.submit(i);
    assert!(submitted);
    assert_eq!(p.slot_state(i), SlotState::PendingRelease);

    let freed = p.release(i);
    assert!(freed);
    assert_eq!(p.slot_state(i), SlotState::Free);
    assert_eq!(p.slot_pixels(i)[0], 7);
}

#[test]
fn pending_release_slot_refuses_writes() {
    let mut p = BufferPool::new(64);
    let i = p.create_buffer(2, 2, PixelFormat::Argb8888).unwrap();
    assert!(p.store_pixels(i, vec![1u8; 16]));
    assert!(p.submit(i));

    let stored = p.store_pixels(i, vec![9u8; 16]);
    assert!(!stored);
    assert_eq!(p.slot_state(i), SlotState::PendingRelease);
    assert!(p.slot_pixels(i).iter().all(|b| *b == 1));
}

#[test]
fn release_is_event_scoped() {
    let mut p = BufferPool::new(64);
    let i = p.create_buffer(2, 2, PixelFormat::Argb8888).unwrap();
    assert!(!p.release(i), "a free slot has nothing to release");
    assert!(!p.release(42), "an unknown identity is a no-op");
    assert_eq!(p.slot_state(i), SlotState::Free);
    assert_eq!(p.len(), 1);
}

#[test]
fn submit_requires_in_use() {
    let mut p = BufferPool::new(64);
    let i = p.create_buffer(2, 2, PixelFormat::Argb8888).unwrap();
    assert!(!p.submit(i), "a slot not being written cannot be committed");
    assert_eq!(p.slot_state(i), SlotState::Free);
}
