use vstd::prelude::*;

verus! {

/// Size of the window surface in pixels.
#[derive(Clone, Copy, Debug, PartialEq, Eq, Structural)]
pub struct PhysicalSize {
    pub width: u32,
    pub height: u32,
}

/// Why the surface did not hand out a texture to draw into.
#[derive(Clone, Copy, Debug, PartialEq, Eq, Structural)]
pub enum SurfaceError {
    Timeout,
    Outdated,
    Lost,
    OutOfMemory,
}

/// What the event loop does after a frame was attempted.
#[derive(Clone, Copy, Debug, PartialEq, Eq, Structural)]
pub enum FrameAction {
    /// The frame was shown; go on.
    Continue,
    /// Configure the surface anew at its current size, and go on.
    Reconfigure,
    /// Report the error, skip this frame, and go on.
    Skip,
    /// Leave the event loop.
    Exit,
}

/// The action that follows a frame: a lost surface is configured anew,
/// a surface that timed out or is outdated costs one frame, and a device
/// without memory ends the program.
pub fn after_render(result: Result<(), SurfaceError>) -> (action: FrameAction)
    ensures
        action == match result {
            Ok(()) => FrameAction::Continue,
            Err(SurfaceError::Lost) => FrameAction::Reconfigure,
            Err(SurfaceError::OutOfMemory) => FrameAction::Exit,
            Err(SurfaceError::Timeout) => FrameAction::Skip,
            Err(SurfaceError::Outdated) => FrameAction::Skip,
        },
{
    match result {
        Ok(()) => FrameAction::Continue,
        Err(SurfaceError::Lost) => FrameAction::Reconfigure,
        Err(SurfaceError::OutOfMemory) => FrameAction::Exit,
        Err(_) => FrameAction::Skip,
    }
}

/// A new size is taken over if it has pixels and differs from the current one.
pub fn accepts_resize(current: PhysicalSize, new_size: PhysicalSize) -> (accepted: bool)
    ensures
        accepted == (new_size.width > 0 && new_size.height > 0 && new_size != current),
{
    new_size.width > 0 && new_size.height > 0 && (new_size.width != current.width
        || new_size.height != current.height)
}

/// `at` is the first format of the surface that is not an sRGB format.
pub open spec fn is_first_linear(srgb: Seq<bool>, at: int) -> bool {
    &&& 0 <= at < srgb.len()
    &&& !srgb[at]
    &&& forall|i: int| 0 <= i < at ==> srgb[i]
}

/// Picks the format to configure the surface with: the first that is not
/// an sRGB format. `srgb[i]` tells whether the format `i` that the surface
/// offers is an sRGB format. There is no such format exactly if every
/// format offered is an sRGB format.
pub fn choose_surface_format(srgb: &Vec<bool>) -> (chosen: Option<usize>)
    ensures
        match chosen {
            Some(at) => is_first_linear(srgb@, at as int),
            None => forall|i: int| 0 <= i < srgb@.len() ==> srgb@[i],
        },
{
    let mut i: usize = 0;
    while i < srgb.len()
        invariant
            i <= srgb@.len(),
            forall|j: int| 0 <= j < i ==> srgb@[j],
        decreases srgb@.len() - i,
    {
        if !srgb[i] {
            return Some(i);
        }
        i += 1;
    }
    None
}

} // verus!
