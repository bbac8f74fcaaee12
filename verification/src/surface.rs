use vstd::prelude::*;

verus! {

/// Number of back buffers a presentation object rotates between.
pub const BUFFER_COUNT: usize = 2;

/// One back buffer together with the drawable surface wrapped around it.
///
/// The surface itself lives with the graphics stack; here it is carried as an
/// opaque id, together with the size it was wrapped at.
#[derive(Clone, Copy, Debug, PartialEq, Eq, Structural)]
pub struct BufferSurface {
    /// Opaque id of the wrapped drawable surface.
    pub surface: u64,
    /// Width in pixels the surface was wrapped at.
    pub width: u32,
    /// Height in pixels the surface was wrapped at.
    pub height: u32,
}

/// True when the platform handed back a wrapped surface for each of the
/// `BUFFER_COUNT` back buffers.
pub open spec fn wrap_ok(wrapped: Seq<Option<u64>>) -> bool {
    wrapped.len() >= BUFFER_COUNT && forall|i: int| 0 <= i < BUFFER_COUNT ==> wrapped[i] is Some
}

/// Index of the first back buffer that could not be retrieved or wrapped;
/// meaningful only when `wrap_ok` fails.
pub open spec fn first_unwrapped(wrapped: Seq<Option<u64>>) -> u32 {
    if wrapped.len() == 0 || wrapped[0] is None {
        0
    } else {
        1
    }
}

/// The buffer array built from the platform's wrapped surfaces, each sized to
/// the dimensions the buffers were created at.
pub open spec fn wrapped_surfaces(wrapped: Seq<Option<u64>>, width: u32, height: u32) -> Seq<
    BufferSurface,
> {
    seq![
        BufferSurface { surface: wrapped[0]->Some_0, width, height },
        BufferSurface { surface: wrapped[1]->Some_0, width, height },
    ]
}

} // verus!
