//! Viewport dimensions as scripts see them.

use std::sync::Arc;

use vstd::prelude::*;
use vstd::rwlock::{RwLock, RwLockPredicate};

verus! {

/// Provides viewport dimensions for running scripts.
pub trait ViewportProvider {
    /// The current width and height in pixels.
    fn viewport_size(&self) -> (u32, u32);
}

/// Simple viewport that always reports the same resolution.
#[derive(Debug, Clone, Copy, PartialEq, Eq, Structural)]
pub struct StaticViewport {
    pub width: u32,
    pub height: u32,
}

impl StaticViewport {
    /// A viewport of the given fixed size.
    pub fn new(width: u32, height: u32) -> (r: Self)
        ensures
            r.width == width,
            r.height == height,
    {
        StaticViewport { width, height }
    }
}

impl ViewportProvider for StaticViewport {
    fn viewport_size(&self) -> (u32, u32) {
        (self.width, self.height)
    }
}

/// Anything may sit in the viewport lock.
pub struct AnySize;

impl RwLockPredicate<(u32, u32)> for AnySize {
    open spec fn inv(self, v: (u32, u32)) -> bool {
        true
    }
}

/// A viewport whose size the window loop updates while scripts read it.
/// Cloning shares the same size cell.
pub struct SharedViewport {
    inner: Arc<RwLock<(u32, u32), AnySize>>,
}

impl Clone for SharedViewport {
    /// The clone reads and writes the same size.
    fn clone(&self) -> Self {
        SharedViewport { inner: self.inner.clone() }
    }
}

impl SharedViewport {
    /// A shared viewport starting at the given size.
    pub fn new(width: u32, height: u32) -> Self {
        SharedViewport { inner: Arc::new(RwLock::new((width, height), Ghost(AnySize))) }
    }

    /// A shared viewport pinned to a static one's size.
    pub fn from_static(viewport: StaticViewport) -> Self {
        SharedViewport::new(viewport.width, viewport.height)
    }

    /// Records a new size, clamping both dimensions to at least one pixel.
    pub fn update(&self, width: u32, height: u32) {
        let clamped = (if width == 0 { 1u32 } else { width }, if height == 0 { 1u32 } else { height });
        let (_, handle) = self.inner.acquire_write();
        handle.release_write(clamped);
    }
}

impl ViewportProvider for SharedViewport {
    fn viewport_size(&self) -> (u32, u32) {
        let handle = self.inner.acquire_read();
        let size = *handle.borrow();
        handle.release_read();
        size
    }
}

} // verus!
