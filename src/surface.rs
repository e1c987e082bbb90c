use vstd::prelude::*;

verus! {

/// Frames that may be queued for presentation ahead of the display. One
/// value is used everywhere a configuration is built.
pub const FRAME_LATENCY: u32 = 2;

/// Width and height of a drawable surface, in physical pixels.
#[derive(Clone, Copy, Debug, PartialEq, Eq, Structural)]
pub struct SurfaceSize {
    pub width: u32,
    pub height: u32,
}

impl SurfaceSize {
    /// Both dimensions are nonzero; a minimized window has a zero dimension.
    pub open spec fn is_drawable(self) -> bool {
        self.width > 0 && self.height > 0
    }

    pub fn new(width: u32, height: u32) -> (r: SurfaceSize)
        ensures
            r.width == width,
            r.height == height,
    {
        SurfaceSize { width, height }
    }

    pub fn drawable(&self) -> (r: bool)
        ensures
            r == self.is_drawable(),
    {
        self.width > 0 && self.height > 0
    }
}

/// The parts of a presentation surface's configuration that this library
/// decides: its size and its latency. The surface is always presented with
/// vertical sync, frames shown in submission order.
#[derive(Clone, Copy, Debug, PartialEq, Eq, Structural)]
pub struct PresentConfig {
    pub width: u32,
    pub height: u32,
    pub max_frame_latency: u32,
}

impl PresentConfig {
    /// The configuration of a surface of the given size.
    pub open spec fn for_size(size: SurfaceSize) -> PresentConfig {
        PresentConfig { width: size.width, height: size.height, max_frame_latency: FRAME_LATENCY }
    }

    /// The size that the surface is configured with.
    pub open spec fn size(self) -> SurfaceSize {
        SurfaceSize { width: self.width, height: self.height }
    }

    /// The configuration after asking for `size`: unchanged when `size` has
    /// a zero dimension, otherwise the same with the new width and height.
    pub open spec fn reconfigured(self, size: SurfaceSize) -> PresentConfig {
        if size.is_drawable() {
            PresentConfig { width: size.width, height: size.height, ..self }
        } else {
            self
        }
    }

    /// Builds the startup configuration for a window of the given size.
    pub fn initial(size: SurfaceSize) -> (r: PresentConfig)
        ensures
            r == PresentConfig::for_size(size),
    {
        PresentConfig { width: size.width, height: size.height, max_frame_latency: FRAME_LATENCY }
    }

    pub fn current_size(&self) -> (r: SurfaceSize)
        ensures
            r == self.size(),
    {
        SurfaceSize { width: self.width, height: self.height }
    }

    /// Takes on a new size. Returns whether the surface must be configured
    /// again; a size with a zero dimension is ignored.
    pub fn reconfigure(&mut self, size: SurfaceSize) -> (changed: bool)
        ensures
            changed == size.is_drawable(),
            *final(self) == old(self).reconfigured(size),
    {
        if size.drawable() {
            self.width = size.width;
            self.height = size.height;
            true
        } else {
            false
        }
    }
}

} // verus!
