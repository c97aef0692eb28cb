//! Render-target lifecycle: stable handles across resize and resampling,
//! no-op resizes, and the draw/resolve bookkeeping.

use map_projections::draw_buffer::{DrawBuffer, Sampling, TextureRegistry, INITIAL_DRAW_BUF_SIZE};

#[test]
fn create_then_same_size_resize_is_noop() {
    let mut registry = TextureRegistry::new();
    let mut buf = DrawBuffer::new_with_size(Sampling::Single, &mut registry, 100, 50);
    let handle = buf.id();
    let draw_gen = buf.draw_gen;
    let storage_gen = buf.storage_gen;
    let changed = buf.update_size(100, 50);
    assert!(!changed);
    assert_eq!(buf.id(), handle);
    assert_eq!(buf.draw_gen, draw_gen, "same-size resize must not reallocate");
    assert_eq!(buf.storage_gen, storage_gen);
    assert_eq!((buf.width(), buf.height()), (100, 50));
}

#[test]
fn resize_replaces_backing_but_keeps_handle() {
    let mut registry = TextureRegistry::new();
    let mut buf = DrawBuffer::new_with_size(Sampling::Single, &mut registry, 100, 50);
    let handle = buf.id();
    let storage_gen = buf.storage_gen;
    let changed = buf.update_size(200, 50);
    assert!(changed);
    assert_eq!(buf.id(), handle, "the external handle must survive a resize");
    assert!(buf.storage_gen > storage_gen, "the backing must be replaced");
    assert_eq!((buf.width(), buf.height()), (200, 50));
}

#[test]
fn new_buffer_has_default_size_and_fresh_handle() {
    let mut registry = TextureRegistry::new();
    let a = DrawBuffer::new(Sampling::Multi, &mut registry);
    let b = DrawBuffer::new(Sampling::Single, &mut registry);
    assert_eq!(a.width(), INITIAL_DRAW_BUF_SIZE);
    assert_eq!(a.height(), INITIAL_DRAW_BUF_SIZE);
    assert_ne!(a.id(), b.id(), "each buffer gets its own handle");
}

#[test]
fn set_sampling_reallocates_draw_surfaces_only() {
    let mut registry = TextureRegistry::new();
    let mut buf = DrawBuffer::new_with_size(Sampling::Multi, &mut registry, 64, 64);
    let handle = buf.id();
    let draw_gen = buf.draw_gen;
    let storage_gen = buf.storage_gen;
    buf.set_sampling(Sampling::Single);
    assert_eq!(buf.sampling, Sampling::Single);
    assert_eq!(buf.id(), handle);
    assert!(buf.draw_gen > draw_gen, "draw/depth surfaces must be reallocated");
    assert_eq!(buf.storage_gen, storage_gen, "the storage surface is preserved");
    assert_eq!((buf.width(), buf.height()), (64, 64));
}

#[test]
fn storage_is_stale_until_resolved() {
    let mut registry = TextureRegistry::new();
    let mut buf = DrawBuffer::new_with_size(Sampling::Single, &mut registry, 32, 32);
    assert!(buf.storage_is_current());
    buf.acquire_draw_surface();
    assert!(!buf.storage_is_current(), "an unresolved draw pass leaves stale content");
    buf.update_storage_buf();
    assert!(buf.storage_is_current());
}
