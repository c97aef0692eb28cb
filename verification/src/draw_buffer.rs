//! Double-buffered render target of one view.
//!
//! Each view renders into a draw surface (single- or multi-sampled, with a
//! matching depth surface) and then resolves the result into an
//! always-single-sampled storage surface that the host UI displays through
//! a stable handle. This module tracks that lifecycle exactly: dimensions,
//! sampling mode, the handle, and a generation counter per surface group
//! that advances whenever the backing allocation is replaced. The GPU
//! allocations themselves are made outside the crate, driven by these
//! generation counters; the handle never changes once assigned, so the
//! host UI keeps displaying the same image slot across resizes.

use vstd::prelude::*;

verus! {

/// Sampling mode of the draw surface.
#[derive(Clone, Copy, PartialEq, Eq, Structural, Debug)]
pub enum Sampling {
    Single,
    Multi,
}

/// Side length of the draw buffer a fresh view starts with.
pub const INITIAL_DRAW_BUF_SIZE: u32 = 256;

/// Hands out process-unique display handles, modelling the host UI's
/// texture table: a handle, once issued, stays bound to the same view.
pub struct TextureRegistry {
    pub next_handle: u32,
}

impl TextureRegistry {
    /// A fresh registry that has issued no handle yet.
    pub fn new() -> (r: TextureRegistry)
        ensures
            r.next_handle == 0,
    {
        TextureRegistry { next_handle: 0 }
    }
}

/// Render-target state of one view.
///
/// `draw_gen` and `storage_gen` advance exactly when the corresponding
/// surface allocation must be replaced; `frames_drawn` counts completed
/// draw passes and `frames_resolved` how many of them have been copied
/// into the storage surface. The storage surface shows the latest frame
/// exactly when the two counters agree.
pub struct DrawBuffer {
    pub sampling: Sampling,
    pub width: u32,
    pub height: u32,
    pub handle: u32,
    pub draw_gen: u64,
    pub storage_gen: u64,
    pub frames_drawn: u64,
    pub frames_resolved: u64,
}

impl DrawBuffer {
    /// Dimensional and bookkeeping invariant of a live render target.
    pub open spec fn wf(self) -> bool {
        &&& self.width >= 1
        &&& self.height >= 1
        &&& self.frames_resolved <= self.frames_drawn
    }

    /// A render target at the default initial size.
    pub fn new(sampling: Sampling, registry: &mut TextureRegistry) -> (r: DrawBuffer)
        requires
            old(registry).next_handle < u32::MAX,
        ensures
            final(registry).next_handle == old(registry).next_handle + 1,
            r.wf(),
            r.sampling == sampling,
            r.width == INITIAL_DRAW_BUF_SIZE,
            r.height == INITIAL_DRAW_BUF_SIZE,
            r.handle == old(registry).next_handle,
            r.draw_gen == 0,
            r.storage_gen == 0,
            r.frames_drawn == 0,
            r.frames_resolved == 0,
    {
        DrawBuffer::new_with_size(sampling, registry, INITIAL_DRAW_BUF_SIZE, INITIAL_DRAW_BUF_SIZE)
    }

    /// A render target of the given size; registers the storage surface and
    /// returns with a freshly issued, henceforth stable handle.
    pub fn new_with_size(
        sampling: Sampling,
        registry: &mut TextureRegistry,
        width: u32,
        height: u32,
    ) -> (r: DrawBuffer)
        requires
            old(registry).next_handle < u32::MAX,
            width >= 1,
            height >= 1,
        ensures
            final(registry).next_handle == old(registry).next_handle + 1,
            r.wf(),
            r.sampling == sampling,
            r.width == width,
            r.height == height,
            r.handle == old(registry).next_handle,
            r.draw_gen == 0,
            r.storage_gen == 0,
            r.frames_drawn == 0,
            r.frames_resolved == 0,
    {
        let handle: u32 = registry.next_handle;
        registry.next_handle = registry.next_handle + 1;
        DrawBuffer {
            sampling,
            width,
            height,
            handle,
            draw_gen: 0,
            storage_gen: 0,
            frames_drawn: 0,
            frames_resolved: 0,
        }
    }

    /// Resize: an exact no-op when the dimensions are unchanged; otherwise
    /// every surface is reallocated at the new size while the external
    /// handle keeps its identity. Returns whether anything changed.
    pub fn update_size(&mut self, width: u32, height: u32) -> (changed: bool)
        requires
            old(self).wf(),
            width >= 1,
            height >= 1,
            old(self).draw_gen < u64::MAX,
            old(self).storage_gen < u64::MAX,
        ensures
            final(self).wf(),
            changed == !(width == old(self).width && height == old(self).height),
            !changed ==> *final(self) == *old(self),
            changed ==> final(self).width == width && final(self).height == height,
            changed ==> final(self).draw_gen == old(self).draw_gen + 1,
            changed ==> final(self).storage_gen == old(self).storage_gen + 1,
            final(self).handle == old(self).handle,
            final(self).sampling == old(self).sampling,
            final(self).frames_drawn == old(self).frames_drawn,
            final(self).frames_resolved == old(self).frames_resolved,
    {
        if width != self.width || height != self.height {
            self.width = width;
            self.height = height;
            self.draw_gen = self.draw_gen + 1;
            self.storage_gen = self.storage_gen + 1;
            true
        } else {
            false
        }
    }

    /// Change the sampling mode: only the draw/depth surfaces are
    /// reallocated; the storage surface and the handle are preserved.
    pub fn set_sampling(&mut self, sampling: Sampling)
        requires
            old(self).wf(),
            old(self).draw_gen < u64::MAX,
        ensures
            final(self).wf(),
            final(self).sampling == sampling,
            final(self).draw_gen == old(self).draw_gen + 1,
            final(self).width == old(self).width,
            final(self).height == old(self).height,
            final(self).handle == old(self).handle,
            final(self).storage_gen == old(self).storage_gen,
            final(self).frames_drawn == old(self).frames_drawn,
            final(self).frames_resolved == old(self).frames_resolved,
    {
        self.sampling = sampling;
        self.draw_gen = self.draw_gen + 1;
    }

    /// Begin a draw pass into the draw surface. The storage surface shows a
    /// stale frame until `update_storage_buf` resolves the pass.
    pub fn acquire_draw_surface(&mut self)
        requires
            old(self).wf(),
            old(self).frames_drawn < u64::MAX,
        ensures
            final(self).wf(),
            final(self).frames_drawn == old(self).frames_drawn + 1,
            final(self).frames_resolved == old(self).frames_resolved,
            final(self).sampling == old(self).sampling,
            final(self).width == old(self).width,
            final(self).height == old(self).height,
            final(self).handle == old(self).handle,
            final(self).draw_gen == old(self).draw_gen,
            final(self).storage_gen == old(self).storage_gen,
    {
        self.frames_drawn = self.frames_drawn + 1;
    }

    /// Resolve the draw surface into the storage surface; after this the
    /// storage surface shows the latest drawn frame.
    pub fn update_storage_buf(&mut self)
        requires
            old(self).wf(),
        ensures
            final(self).wf(),
            final(self).frames_resolved == final(self).frames_drawn,
            final(self).frames_drawn == old(self).frames_drawn,
            final(self).sampling == old(self).sampling,
            final(self).width == old(self).width,
            final(self).height == old(self).height,
            final(self).handle == old(self).handle,
            final(self).draw_gen == old(self).draw_gen,
            final(self).storage_gen == old(self).storage_gen,
    {
        self.frames_resolved = self.frames_drawn;
    }

    /// Whether the storage surface shows the latest drawn frame.
    pub fn storage_is_current(&self) -> (r: bool)
        ensures
            r == (self.frames_resolved == self.frames_drawn),
    {
        self.frames_resolved == self.frames_drawn
    }

    /// The stable display handle of this render target.
    pub fn id(&self) -> (r: u32)
        ensures
            r == self.handle,
    {
        self.handle
    }

    /// Current width in pixels.
    pub fn width(&self) -> (r: u32)
        ensures
            r == self.width,
    {
        self.width
    }

    /// Current height in pixels.
    pub fn height(&self) -> (r: u32)
        ensures
            r == self.height,
    {
        self.height
    }
}

} // verus!
