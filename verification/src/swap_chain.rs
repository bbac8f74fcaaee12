use vstd::prelude::*;

use crate::context::Backend;
use crate::error::GpuError;
use crate::surface::{
    first_unwrapped, wrap_ok, wrapped_surfaces, BufferSurface, BUFFER_COUNT,
};

verus! {

/// A concrete presentation surface: the native presentation object and the
/// fixed pair of (back buffer, drawable surface) entries wrapped around its
/// buffers.
///
/// The pair is either fully present or fully absent — absent only between the
/// release and the recreation of the buffers during a resize — so "no buffers
/// while resizing" is structural, not a convention.
#[derive(Debug)]
pub struct SwapChain {
    handle: u64,
    width: u32,
    height: u32,
    surfaces: Option<(BufferSurface, BufferSurface)>,
}

/// Mathematical model of a swap chain: the native handle, the size its
/// buffers were created at, and the buffer array as a sequence.
pub ghost struct SwapChainView {
    pub handle: u64,
    pub width: u32,
    pub height: u32,
    pub surfaces: Option<Seq<BufferSurface>>,
}

impl SwapChainView {
    /// The buffer array is populated.
    pub open spec fn has_buffers(self) -> bool {
        self.surfaces is Some
    }

    /// A populated buffer array holds exactly `BUFFER_COUNT` entries, each
    /// wrapped at the swap chain's own size.
    pub open spec fn wf(self) -> bool {
        self.surfaces matches Some(s) ==> {
            &&& s.len() == BUFFER_COUNT
            &&& forall|i: int|
                0 <= i < s.len() ==> (#[trigger] s[i]).width == self.width && s[i].height
                    == self.height
        }
    }

    /// The entry the presentation engine's reported back-buffer index selects:
    /// the index is taken modulo the fixed buffer count.
    pub open spec fn surface_at(self, index: u32) -> BufferSurface {
        self.surfaces->Some_0[index as int % (BUFFER_COUNT as int)]
    }

    /// The swap chain a successful creation at `(width, height)` produces.
    pub open spec fn created(handle: u64, width: u32, height: u32, wrapped: Seq<Option<u64>>) -> SwapChainView {
        SwapChainView {
            handle,
            width,
            height,
            surfaces: Some(wrapped_surfaces(wrapped, width, height)),
        }
    }
}

impl View for SwapChain {
    type V = SwapChainView;

    closed spec fn view(&self) -> SwapChainView {
        SwapChainView {
            handle: self.handle,
            width: self.width,
            height: self.height,
            surfaces: match self.surfaces {
                Some((a, b)) => Some(seq![a, b]),
                None => None,
            },
        }
    }
}

/// What one in-place resize leaves of the swap chain, and what it returns.
///
/// A zero-area target is a deliberate no-op.  Otherwise the buffers are
/// released as a unit; if the native resize is rejected, or a buffer cannot
/// be re-wrapped, the array stays absent and the failure is reported.
pub open spec fn chain_resize(
    c: SwapChainView,
    width: u32,
    height: u32,
    resize_result: Result<(), i32>,
    wrapped: Seq<Option<u64>>,
) -> (SwapChainView, Result<(), GpuError>) {
    if width == 0 || height == 0 {
        (c, Ok(()))
    } else {
        match resize_result {
            Err(code) => (
                SwapChainView { surfaces: None, ..c },
                Err(GpuError::Resize { code }),
            ),
            Ok(_) => if wrap_ok(wrapped) {
                (
                    SwapChainView {
                        width,
                        height,
                        surfaces: Some(wrapped_surfaces(wrapped, width, height)),
                        ..c
                    },
                    Ok(()),
                )
            } else {
                (
                    SwapChainView { surfaces: None, ..c },
                    Err(GpuError::SurfaceWrap { buffer: first_unwrapped(wrapped) }),
                )
            },
        }
    }
}

impl SwapChain {
    /// Wraps a freshly created native presentation object and its populated
    /// buffer array.
    pub(crate) fn new(handle: u64, surfaces: (BufferSurface, BufferSurface), width: u32, height: u32) -> (r:
        SwapChain)
        ensures
            r@ == (SwapChainView {
                handle,
                width,
                height,
                surfaces: Some(seq![surfaces.0, surfaces.1]),
            }),
    {
        SwapChain { handle, width, height, surfaces: Some(surfaces) }
    }

    /// The raw native presentation handle, for adapters to bind to a window,
    /// a composition target or a visual's brush.
    pub fn handle(&self) -> (r: u64)
        ensures
            r == self@.handle,
    {
        self.handle
    }

    /// Width in pixels the buffers were created at.
    pub fn width(&self) -> (r: u32)
        ensures
            r == self@.width,
    {
        self.width
    }

    /// Height in pixels the buffers were created at.
    pub fn height(&self) -> (r: u32)
        ensures
            r == self@.height,
    {
        self.height
    }

    /// How many entries the buffer array holds while populated.
    pub fn buffer_count(&self) -> (r: usize)
        requires
            self@.has_buffers(),
        ensures
            r == BUFFER_COUNT,
            r == self@.surfaces->Some_0.len(),
    {
        2
    }

    /// Resizes the presentation object's buffers in place.
    ///
    /// A zero-area target means "nothing to draw", not an error: the buffer
    /// set is left untouched and the call succeeds.  Otherwise deferred
    /// cleanup runs, the wrapped buffers are released as a unit, the native
    /// resize outcome `resize_result` decides, and on success the buffers the
    /// platform re-wrapped (`wrapped`) are installed at the new size.
    pub fn resize(
        &mut self,
        env: &mut Backend,
        width: u32,
        height: u32,
        resize_result: Result<(), i32>,
        wrapped: &Vec<Option<u64>>,
    ) -> (r: Result<(), GpuError>)
        requires
            old(env).live(),
        ensures
            final(env)@ == old(env)@,
            final(self)@ == chain_resize(old(self)@, width, height, resize_result, wrapped@).0,
            r == chain_resize(old(self)@, width, height, resize_result, wrapped@).1,
    {
        if width == 0 || height == 0 {
            return Ok(());
        }
        env.cleanup();
        self.surfaces = None;
        match resize_result {
            Err(code) => Err(GpuError::Resize { code }),
            Ok(_) => {
                match env.wrap_buffers_as_surfaces(wrapped, width, height) {
                    Ok(pair) => {
                        self.surfaces = Some(pair);
                        self.width = width;
                        self.height = height;
                        proof {
                            assert(self@.surfaces->Some_0 =~= wrapped_surfaces(
                                wrapped@,
                                width,
                                height,
                            ));
                        }
                        Ok(())
                    },
                    Err(e) => Err(e),
                }
            },
        }
    }

    /// Executes one frame: looks up the engine-reported current back buffer,
    /// paints it with `f`, flushes and submits the drawing commands, and
    /// presents, returning the native present result.
    pub fn draw<F: FnOnce(BufferSurface)>(
        &mut self,
        env: &mut Backend,
        current_index: u32,
        present_result: i32,
        f: F,
    ) -> (r: i32)
        requires
            old(self)@.has_buffers(),
            old(env).live(),
            forall|s: BufferSurface| call_requires(f, (s,)),
        ensures
            final(self)@ == old(self)@,
            final(env)@ == old(env)@,
            r == present_result,
            call_ensures(f, (old(self)@.surface_at(current_index),), ()),
    {
        let surface = self.get_surface(current_index);
        f(surface);
        env.flush_and_submit_surface(&surface);
        // the native Present call happens with the platform; its result
        // arrives as `present_result`
        present_result
    }

    /// Flushes what was already drawn into the current surface and presents,
    /// without a new paint pass.
    pub fn present(&mut self, env: &mut Backend, current_index: u32, present_result: i32) -> (r:
        i32)
        requires
            old(self)@.has_buffers(),
            old(env).live(),
        ensures
            final(self)@ == old(self)@,
            final(env)@ == old(env)@,
            r == present_result,
    {
        let surface = self.get_surface(current_index);
        env.flush_and_submit_surface(&surface);
        present_result
    }

    /// The drawable surface of the engine-reported current back buffer; the
    /// index is reduced modulo the fixed buffer count, so the lookup never
    /// leaves the array.
    pub fn get_surface(&self, current_index: u32) -> (r: BufferSurface)
        requires
            self@.has_buffers(),
        ensures
            r == self@.surface_at(current_index),
    {
        let surfaces = self.surfaces.as_ref().unwrap();
        if current_index % 2 == 0 {
            surfaces.0
        } else {
            surfaces.1
        }
    }
}

/// DXGI pixel format: 8-bit-per-channel RGBA, unsigned normalised.
pub const DXGI_FORMAT_R8G8B8A8_UNORM: u32 = 28;

/// DXGI buffer usage: the buffers are render-target outputs.
pub const DXGI_USAGE_RENDER_TARGET_OUTPUT: u32 = 32;

/// DXGI swap effect: flip-model presentation, contents kept in sequence.
pub const DXGI_SWAP_EFFECT_FLIP_SEQUENTIAL: u32 = 3;

/// DXGI alpha mode: transparency behaviour left unspecified.
pub const DXGI_ALPHA_MODE_UNSPECIFIED: u32 = 0;

/// The creation-time description of a presentation object.
///
/// Every presentation object this library asks for uses one fixed policy:
/// `BUFFER_COUNT` buffers in the flip-sequential swap model, 8-bit RGBA,
/// render-target usage, no multisampling.  Only the dimensions vary.  The
/// platform turns this plain description into its native equivalent when it
/// performs the creation.
#[derive(Clone, Copy, Debug, PartialEq, Eq, Structural)]
pub struct SwapChainDesc {
    pub width: u32,
    pub height: u32,
    pub format: u32,
    pub buffer_usage: u32,
    pub buffer_count: u32,
    pub swap_effect: u32,
    pub sample_count: u32,
    pub sample_quality: u32,
    pub alpha_mode: u32,
}

/// The one description a swap chain of this library is created with, up to
/// its dimensions and alpha mode.
pub open spec fn swap_chain_desc_spec(width: u32, height: u32, alpha_mode: u32) -> SwapChainDesc {
    SwapChainDesc {
        width,
        height,
        format: DXGI_FORMAT_R8G8B8A8_UNORM,
        buffer_usage: DXGI_USAGE_RENDER_TARGET_OUTPUT,
        buffer_count: BUFFER_COUNT as u32,
        swap_effect: DXGI_SWAP_EFFECT_FLIP_SEQUENTIAL,
        sample_count: 1,
        sample_quality: 0,
        alpha_mode,
    }
}

/// Description of a presentation object bound to a window.
pub fn swap_chain_desc_hwnd(width: u32, height: u32) -> (d: SwapChainDesc)
    ensures
        d == swap_chain_desc_spec(width, height, DXGI_ALPHA_MODE_UNSPECIFIED),
{
    swap_chain_desc(width, height, DXGI_ALPHA_MODE_UNSPECIFIED)
}

/// Description of a composition-consumable presentation object.
pub fn swap_chain_desc_composition(width: u32, height: u32) -> (d: SwapChainDesc)
    ensures
        d == swap_chain_desc_spec(width, height, DXGI_ALPHA_MODE_UNSPECIFIED),
{
    swap_chain_desc(width, height, DXGI_ALPHA_MODE_UNSPECIFIED)
}

fn swap_chain_desc(width: u32, height: u32, alpha_mode: u32) -> (d: SwapChainDesc)
    ensures
        d == swap_chain_desc_spec(width, height, alpha_mode),
{
    SwapChainDesc {
        width,
        height,
        format: DXGI_FORMAT_R8G8B8A8_UNORM,
        buffer_usage: DXGI_USAGE_RENDER_TARGET_OUTPUT,
        buffer_count: 2,
        swap_effect: DXGI_SWAP_EFFECT_FLIP_SEQUENTIAL,
        sample_count: 1,
        sample_quality: 0,
        alpha_mode,
    }
}

} // verus!
