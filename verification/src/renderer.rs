use vstd::prelude::*;
use vstd::string::StringExecFns;

verus! {

/// The outcome of asking the window surface for the texture of the next frame.
#[derive(Debug, Clone, Copy, PartialEq, Eq, Structural)]
pub enum SurfaceStatus {
    /// A texture was acquired.
    Success,
    /// A texture was acquired, but the surface no longer matches the window exactly.
    Suboptimal,
    /// No texture became available in time.
    Timeout,
    /// The window is not visible.
    Occluded,
    /// The surface must be reconfigured.
    Outdated,
    /// The surface was lost.
    Lost,
    /// Acquiring the texture raised a validation error.
    Validation,
}

/// What to do with the frame after asking the surface for a texture.
#[derive(Debug, Clone, Copy, PartialEq, Eq, Structural)]
pub enum FrameStep {
    /// Record, submit and present the frame.
    Draw,
    /// Drop this frame and report success.
    Skip,
    /// Drop this frame and report the surface error.
    Fail,
}

/// The renderer draws whenever a texture was acquired, suboptimal or not,
/// and silently skips the frame otherwise.
pub open spec fn renderer_step(status: SurfaceStatus) -> FrameStep {
    match status {
        SurfaceStatus::Success | SurfaceStatus::Suboptimal => FrameStep::Draw,
        _ => FrameStep::Skip,
    }
}

/// The step the renderer takes for a surface status.
pub fn frame_step(status: SurfaceStatus) -> (step: FrameStep)
    ensures
        step == renderer_step(status),
        step != FrameStep::Fail,
{
    match status {
        SurfaceStatus::Success | SurfaceStatus::Suboptimal => FrameStep::Draw,
        _ => FrameStep::Skip,
    }
}

/// The label of a GPU object derived from another one: the other's label, a
/// space and the suffix, as in `"Raytracing Texture view"`.
pub fn derived_label(label: &str, suffix: &str) -> (s: String)
    ensures
        s@ == label@ + seq![' '] + suffix@,
{
    let mut s = String::from_str(label);
    s.append(" ");
    s.append(suffix);
    proof {
        reveal_strlit(" ");
    }
    s
}

} // verus!
