use vstd::prelude::*;
use crate::mesh::CUBE_VERTEX_COUNT;
use crate::surface::{PresentConfig, SurfaceSize};

verus! {

/// A request to recompute the projection for the aspect ratio
/// `aspect.width / aspect.height`, combine it as projection × view × model
/// with the unchanged view and model, and write all sixteen entries of the
/// result into the uniform buffer.
#[derive(Clone, Copy, Debug, PartialEq, Eq, Structural)]
pub struct UniformUpload {
    pub aspect: SurfaceSize,
    pub perspective: bool,
}

/// The work that a resize hands to the graphics device: apply `config` to
/// the surface, then perform `upload`.
#[derive(Clone, Copy, Debug, PartialEq, Eq, Structural)]
pub struct ResizeWork {
    pub config: PresentConfig,
    pub upload: UniformUpload,
}

/// Why acquiring the next presentable target failed.
#[derive(Clone, Copy, Debug, PartialEq, Eq, Structural)]
pub enum AcquireError {
    /// Acquisition did not finish in time.
    Timeout,
    /// The surface changed and no longer matches its configuration.
    Outdated,
    /// The surface must be configured again.
    Lost,
    /// Resources are exhausted.
    OutOfMemory,
}

/// What follows a frame.
#[derive(Clone, Copy, Debug, PartialEq, Eq, Structural)]
pub enum FrameFollowUp {
    /// The frame was presented.
    Presented,
    /// The surface was lost: perform this work, then go on.
    Recover(ResizeWork),
    /// The frame was dropped; report the error and go on.
    Skip(AcquireError),
    /// Stop the event loop.
    Exit,
}

/// A notification from the window.
#[derive(Clone, Copy, Debug, PartialEq, Eq, Structural)]
pub enum Notification {
    CloseRequested,
    Resized(SurfaceSize),
    RedrawRequested,
    Other,
}

/// What the event loop does for a notification.
#[derive(Clone, Copy, Debug, PartialEq, Eq, Structural)]
pub enum Command {
    Exit,
    Resize(SurfaceSize),
    Render,
    Ignore,
}

/// What one frame draws: a depth buffer of the surface's size cleared to
/// the farthest depth, and the cube's vertices as one instance.
#[derive(Clone, Copy, Debug, PartialEq, Eq, Structural)]
pub struct FramePlan {
    pub depth_width: u32,
    pub depth_height: u32,
    pub first_vertex: u32,
    pub vertex_count: u32,
    pub instance_count: u32,
}

/// The command for a notification.
pub open spec fn command_for(n: Notification) -> Command {
    match n {
        Notification::CloseRequested => Command::Exit,
        Notification::Resized(s) => Command::Resize(s),
        Notification::RedrawRequested => Command::Render,
        Notification::Other => Command::Ignore,
    }
}

pub fn dispatch(n: Notification) -> (c: Command)
    ensures
        c == command_for(n),
{
    match n {
        Notification::CloseRequested => Command::Exit,
        Notification::Resized(s) => Command::Resize(s),
        Notification::RedrawRequested => Command::Render,
        Notification::Other => Command::Ignore,
    }
}

/// The frame controller: the last known window size, the surface
/// configuration, and the size whose aspect ratio the uniform buffer's
/// model-view-projection matrix was computed for.
#[derive(Clone, Copy, Debug, PartialEq, Eq, Structural)]
pub struct State {
    pub size: SurfaceSize,
    pub config: PresentConfig,
    pub uniform_aspect: SurfaceSize,
    pub perspective: bool,
}

impl State {
    /// The uniform buffer holds the matrix for the surface's current size,
    /// and the surface is configured for the last known size.
    pub open spec fn wf(self) -> bool {
        &&& self.config.size() == self.size
        &&& self.uniform_aspect == self.size
    }

    /// The upload that brings the uniform buffer up to date for `size`.
    pub open spec fn upload_for(self, size: SurfaceSize) -> UniformUpload {
        UniformUpload { aspect: size, perspective: self.perspective }
    }

    /// The state after a resize to `size`.
    pub open spec fn resized(self, size: SurfaceSize) -> State {
        if size.is_drawable() {
            State {
                size,
                config: self.config.reconfigured(size),
                uniform_aspect: size,
                perspective: self.perspective,
            }
        } else {
            self
        }
    }

    /// The work that a resize to `size` hands to the device.
    pub open spec fn resize_work(self, size: SurfaceSize) -> Option<ResizeWork> {
        if size.is_drawable() {
            Some(ResizeWork { config: self.config.reconfigured(size), upload: self.upload_for(size) })
        } else {
            None
        }
    }

    /// The controller of a window of the given size, and the upload that
    /// fills the uniform buffer at startup.
    pub fn new(size: SurfaceSize, perspective: bool) -> (r: (State, UniformUpload))
        ensures
            r.0.wf(),
            r.0.size == size,
            r.0.config == PresentConfig::for_size(size),
            r.0.perspective == perspective,
            r.1 == r.0.upload_for(size),
    {
        let config = PresentConfig::initial(size);
        let state = State { size, config, uniform_aspect: size, perspective };
        (state, UniformUpload { aspect: size, perspective })
    }

    /// Handles a new window size. A size with a zero dimension changes
    /// nothing and asks for no work; any other size is recorded, the
    /// configuration takes it on, and the uniform buffer is rewritten for
    /// its aspect ratio.
    pub fn resize(&mut self, new_size: SurfaceSize) -> (work: Option<ResizeWork>)
        ensures
            *final(self) == old(self).resized(new_size),
            work == old(self).resize_work(new_size),
            old(self).wf() ==> final(self).wf(),
            !new_size.is_drawable() ==> *final(self) == *old(self) && work.is_none(),
    {
        let mut config = self.config;
        if config.reconfigure(new_size) {
            self.size = new_size;
            self.config = config;
            self.uniform_aspect = new_size;
            Some(ResizeWork { config, upload: UniformUpload { aspect: new_size, perspective: self.perspective } })
        } else {
            None
        }
    }

    /// The state after acquiring a frame's target gave `outcome`.
    pub open spec fn after_acquire(self, outcome: Result<(), AcquireError>) -> State {
        match outcome {
            Err(AcquireError::Lost) => self.resized(self.size),
            _ => self,
        }
    }

    /// What follows a frame whose target acquisition gave `outcome`.
    pub open spec fn follow_up(self, outcome: Result<(), AcquireError>) -> FrameFollowUp {
        match outcome {
            Ok(()) => FrameFollowUp::Presented,
            Err(AcquireError::Lost) => match self.resize_work(self.size) {
                Some(w) => FrameFollowUp::Recover(w),
                None => FrameFollowUp::Skip(AcquireError::Lost),
            },
            Err(AcquireError::OutOfMemory) => FrameFollowUp::Exit,
            Err(e) => FrameFollowUp::Skip(e),
        }
    }

    /// Decides what follows a frame. A lost surface is resized to the last
    /// known size and the loop goes on; exhausted memory ends the loop; any
    /// other error drops the frame.
    pub fn finish_frame(&mut self, outcome: Result<(), AcquireError>) -> (r: FrameFollowUp)
        ensures
            *final(self) == old(self).after_acquire(outcome),
            r == old(self).follow_up(outcome),
            old(self).wf() ==> final(self).wf(),
            (r is Exit) <==> outcome == Err::<(), AcquireError>(AcquireError::OutOfMemory),
    {
        match outcome {
            Ok(()) => FrameFollowUp::Presented,
            Err(AcquireError::Lost) => {
                let size = self.size;
                match self.resize(size) {
                    Some(w) => FrameFollowUp::Recover(w),
                    None => FrameFollowUp::Skip(AcquireError::Lost),
                }
            },
            Err(AcquireError::OutOfMemory) => FrameFollowUp::Exit,
            Err(e) => FrameFollowUp::Skip(e),
        }
    }

    /// The plan of a frame drawn on the current configuration.
    pub open spec fn plan(self) -> FramePlan {
        FramePlan {
            depth_width: self.config.width,
            depth_height: self.config.height,
            first_vertex: 0,
            vertex_count: CUBE_VERTEX_COUNT as u32,
            instance_count: 1,
        }
    }

    pub fn frame_plan(&self) -> (r: FramePlan)
        ensures
            r == self.plan(),
    {
        FramePlan {
            depth_width: self.config.width,
            depth_height: self.config.height,
            first_vertex: 0,
            vertex_count: CUBE_VERTEX_COUNT as u32,
            instance_count: 1,
        }
    }
}

/// Resizing twice to the same size leaves the same state as resizing once,
/// and the second resize asks for the same configuration and the same
/// uniform contents as the first.
pub proof fn lemma_resize_idempotent(s: State, size: SurfaceSize)
    ensures
        s.resized(size).resized(size) == s.resized(size),
        s.resized(size).resize_work(size) == s.resize_work(size),
{
}

/// A size with a zero dimension leaves the configuration and the uniform
/// buffer as they were, and asks the device for nothing.
pub proof fn lemma_degenerate_resize_is_noop(s: State, size: SurfaceSize)
    requires
        size.width == 0 || size.height == 0,
    ensures
        s.resized(size) == s,
        s.resized(size).config == s.config,
        s.resized(size).uniform_aspect == s.uniform_aspect,
        s.resize_work(size).is_none(),
{
}

/// After a resize to a drawable size, the uniform buffer is computed for
/// that size's aspect ratio.
pub proof fn lemma_resize_tracks_aspect(s: State, size: SurfaceSize)
    requires
        size.is_drawable(),
    ensures
        s.resized(size).uniform_aspect == size,
        s.resized(size).config.size() == size,
        s.resize_work(size) == Some(ResizeWork {
            config: s.config.reconfigured(size),
            upload: UniformUpload { aspect: size, perspective: s.perspective },
        }),
{
}

/// A lost surface is configured again with the last known size, and the
/// loop goes on; exhausted memory ends the loop and changes nothing.
pub proof fn lemma_acquire_failures(s: State)
    requires
        s.wf(),
        s.size.is_drawable(),
    ensures
        s.follow_up(Err(AcquireError::Lost)) == FrameFollowUp::Recover(ResizeWork {
            config: s.config,
            upload: s.upload_for(s.size),
        }),
        s.after_acquire(Err(AcquireError::Lost)) == s,
        s.follow_up(Err(AcquireError::OutOfMemory)) == FrameFollowUp::Exit,
        s.after_acquire(Err(AcquireError::OutOfMemory)) == s,
{
}

} // verus!
