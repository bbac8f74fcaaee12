use vstd::prelude::*;

verus! {

/// The operating system's code for an invalid argument, reported when a
/// presentation target is not a usable window handle.
pub const E_INVALIDARG: i32 = -2147024809;

/// The failure kinds the lifecycle can report.
///
/// Creation-time failures (device, presentation object, buffer wrap) are
/// surfaced to the caller of the specific call.  A rejected in-place resize is
/// absorbed by the state machine, which releases the device and defers
/// recreation.  Device removal is detected by an explicit query, never thrown.
#[derive(Clone, Copy, Debug, PartialEq, Eq, Structural)]
pub enum GpuError {
    /// No suitable adapter/device combination exists.
    DeviceCreation,
    /// The native presentation object was rejected, with the OS code.
    PresentationCreation { code: i32 },
    /// A back buffer could not be retrieved or wrapped as a drawable surface.
    SurfaceWrap { buffer: u32 },
    /// The native buffer resize was rejected, with the OS code.
    Resize { code: i32 },
    /// The device has been removed or reset, with the OS code.
    DeviceRemoved { code: i32 },
}

} // verus!
