use vstd::prelude::*;

use crate::adapter::{has_suitable, is_first_suitable, select_hardware_adapter, AdapterProbe};
use crate::error::GpuError;
use crate::machine::HwndSwapChain;
use crate::surface::{first_unwrapped, wrap_ok, wrapped_surfaces, BufferSurface, BUFFER_COUNT};
use crate::swap_chain::{SwapChain, SwapChainView};

verus! {

/// The device-side resources that exist together or not at all: the chosen
/// adapter, the logical device, the command queue and the graphics context
/// bound to that queue.
#[derive(Debug)]
pub struct SkiaContext {
    /// Index of the adapter the device was created on.
    pub adapter_index: usize,
}

/// The GPU context: owns the device, command queue and graphics context, and
/// provides the frame-submission primitives.
///
/// A released context holds no device resources; it must be recreated before
/// any GPU work is issued, which `recreate_context_if_needed` does lazily.
#[derive(Debug)]
pub struct Backend {
    context: Option<SkiaContext>,
}

/// Mathematical model of the GPU context: `Some(i)` when the device lives on
/// adapter `i`, `None` when released.
pub ghost struct BackendView {
    pub context: Option<usize>,
}

impl BackendView {
    /// Device, queue and graphics context are present.
    pub open spec fn live(self) -> bool {
        self.context is Some
    }

    /// The model of a context that holds no device resources.
    pub open spec fn released() -> BackendView {
        BackendView { context: None }
    }
}

impl View for Backend {
    type V = BackendView;

    closed spec fn view(&self) -> BackendView {
        BackendView {
            context: match self.context {
                Some(c) => Some(c.adapter_index),
                None => None,
            },
        }
    }
}

impl Backend {
    /// Device resources are present; GPU work may be issued.
    pub open spec fn live(&self) -> bool {
        self@.live()
    }

    /// Enumerates the adapters the platform reported, skips software
    /// adapters, and creates the device, command queue and graphics context
    /// on the first adapter where device creation succeeds.
    pub fn new(adapters: &Vec<AdapterProbe>) -> (r: Result<Backend, GpuError>)
        ensures
            match r {
                Ok(b) => (b@.context matches Some(i) && is_first_suitable(adapters@, i as int)),
                Err(e) => e == GpuError::DeviceCreation && !has_suitable(adapters@),
            },
    {
        match select_hardware_adapter(adapters) {
            Some(i) => Ok(Backend { context: Some(SkiaContext { adapter_index: i }) }),
            None => Err(GpuError::DeviceCreation),
        }
    }

    /// Whether the context currently holds device resources.
    pub fn is_live(&self) -> (r: bool)
        ensures
            r == self.live(),
    {
        self.context.is_some()
    }

    /// The adapter the device currently lives on, if any.
    pub fn current_adapter(&self) -> (r: Option<usize>)
        ensures
            r == self@.context,
    {
        match &self.context {
            Some(c) => Some(c.adapter_index),
            None => None,
        }
    }

    /// Drops the device, command queue and graphics context together,
    /// leaving the context unusable until it is recreated; idempotent.
    pub fn release_context(&mut self)
        ensures
            final(self)@ == BackendView::released(),
    {
        self.context = None;
    }

    /// Recreates the device resources if they were released, reporting
    /// whether recreation happened; a no-op returning `false` otherwise.
    pub fn recreate_context_if_needed(&mut self, adapters: &Vec<AdapterProbe>) -> (r: Result<
        bool,
        GpuError,
    >)
        ensures
            old(self).live() ==> r == Ok::<bool, GpuError>(false) && final(self)@ == old(self)@,
            !old(self).live() && has_suitable(adapters@) ==> ({
                &&& r == Ok::<bool, GpuError>(true)
                &&& final(self)@.context matches Some(i) && is_first_suitable(adapters@, i as int)
            }),
            !old(self).live() && !has_suitable(adapters@) ==> r == Err::<bool, GpuError>(
                GpuError::DeviceCreation,
            ) && final(self)@ == BackendView::released(),
    {
        if self.context.is_none() {
            match select_hardware_adapter(adapters) {
                Some(i) => {
                    self.context = Some(SkiaContext { adapter_index: i });
                    Ok(true)
                },
                None => Err(GpuError::DeviceCreation),
            }
        } else {
            Ok(false)
        }
    }

    /// Reclaims GPU memory of command lists that have already completed;
    /// safe to call at any time, never blocking on the GPU, with no
    /// observable effect on the model.
    pub fn cleanup(&mut self)
        ensures
            final(self)@ == old(self)@,
    {
    }

    /// Flushes all pending drawing commands on the surface and submits them
    /// to the command queue.
    pub fn flush_and_submit_surface(&mut self, surface: &BufferSurface)
        requires
            old(self).live(),
        ensures
            final(self)@ == old(self)@,
    {
    }

    /// Interprets the device's removed-reason query: `status` is the code
    /// the device reported.  A negative code means the device was removed or
    /// reset and the context should be released before retrying.
    pub fn get_device_removed_reason(&self, status: i32) -> (r: Result<(), GpuError>)
        requires
            self.live(),
        ensures
            status >= 0 ==> r == Ok::<(), GpuError>(()),
            status < 0 ==> r == Err::<(), GpuError>(GpuError::DeviceRemoved { code: status }),
    {
        if status >= 0 {
            Ok(())
        } else {
            Err(GpuError::DeviceRemoved { code: status })
        }
    }

    /// For each of the `BUFFER_COUNT` back buffers, takes the drawable
    /// surface the platform wrapped around the retrieved native resource
    /// (`wrapped`, in buffer order, `None` where retrieval or wrapping
    /// failed) and builds the buffer array sized to `(width, height)`.
    pub fn wrap_buffers_as_surfaces(
        &mut self,
        wrapped: &Vec<Option<u64>>,
        width: u32,
        height: u32,
    ) -> (r: Result<(BufferSurface, BufferSurface), GpuError>)
        requires
            old(self).live(),
        ensures
            final(self)@ == old(self)@,
            r matches Ok(p) ==> wrap_ok(wrapped@) && seq![p.0, p.1] == wrapped_surfaces(
                wrapped@,
                width,
                height,
            ),
            r matches Err(e) ==> !wrap_ok(wrapped@) && e == (GpuError::SurfaceWrap {
                buffer: first_unwrapped(wrapped@),
            }),
    {
        if wrapped.len() < BUFFER_COUNT {
            let buffer: u32 = if wrapped.len() == 0 || wrapped[0].is_none() {
                0
            } else {
                1
            };
            return Err(GpuError::SurfaceWrap { buffer });
        }
        match (wrapped[0], wrapped[1]) {
            (Some(s0), Some(s1)) => {
                let p = (
                    BufferSurface { surface: s0, width, height },
                    BufferSurface { surface: s1, width, height },
                );
                proof {
                    assert(seq![p.0, p.1] =~= wrapped_surfaces(wrapped@, width, height));
                }
                Ok(p)
            },
            (None, _) => Err(GpuError::SurfaceWrap { buffer: 0 }),
            (_, None) => Err(GpuError::SurfaceWrap { buffer: 1 }),
        }
    }

    /// Creates a native presentation object bound to the window `hwnd` and
    /// wraps its buffers: `creation` is the platform's answer to the
    /// creation request, `wrapped` to the per-buffer wrap requests.
    pub fn create_swap_chain_for_hwnd(
        &mut self,
        hwnd: u64,
        width: u32,
        height: u32,
        creation: Result<u64, i32>,
        wrapped: &Vec<Option<u64>>,
    ) -> (r: Result<SwapChain, GpuError>)
        requires
            old(self).live(),
        ensures
            final(self)@ == old(self)@,
            created_chain_ok(creation, wrapped@) ==> (r matches Ok(sc) && sc@
                == SwapChainView::created(creation->Ok_0, width, height, wrapped@)),
            !created_chain_ok(creation, wrapped@) ==> r == Err::<SwapChain, GpuError>(
                created_chain_err(creation, wrapped@),
            ),
    {
        self.create_swap_chain_inner(width, height, creation, wrapped)
    }

    /// Creates a composition-consumable presentation object — no window
    /// handle; an adapter attaches it to a visual tree later — and wraps its
    /// buffers.
    pub fn create_swap_chain_for_composition(
        &mut self,
        width: u32,
        height: u32,
        creation: Result<u64, i32>,
        wrapped: &Vec<Option<u64>>,
    ) -> (r: Result<SwapChain, GpuError>)
        requires
            old(self).live(),
        ensures
            final(self)@ == old(self)@,
            created_chain_ok(creation, wrapped@) ==> (r matches Ok(sc) && sc@
                == SwapChainView::created(creation->Ok_0, width, height, wrapped@)),
            !created_chain_ok(creation, wrapped@) ==> r == Err::<SwapChain, GpuError>(
                created_chain_err(creation, wrapped@),
            ),
    {
        self.create_swap_chain_inner(width, height, creation, wrapped)
    }

    fn create_swap_chain_inner(
        &mut self,
        width: u32,
        height: u32,
        creation: Result<u64, i32>,
        wrapped: &Vec<Option<u64>>,
    ) -> (r: Result<SwapChain, GpuError>)
        requires
            old(self).live(),
        ensures
            final(self)@ == old(self)@,
            created_chain_ok(creation, wrapped@) ==> (r matches Ok(sc) && sc@
                == SwapChainView::created(creation->Ok_0, width, height, wrapped@)),
            !created_chain_ok(creation, wrapped@) ==> r == Err::<SwapChain, GpuError>(
                created_chain_err(creation, wrapped@),
            ),
    {
        match creation {
            Err(code) => Err(GpuError::PresentationCreation { code }),
            Ok(handle) => {
                match self.wrap_buffers_as_surfaces(wrapped, width, height) {
                    Ok(pair) => Ok(SwapChain::new(handle, pair, width, height)),
                    Err(e) => Err(e),
                }
            },
        }
    }

    /// Creates a swap chain for the window and wraps it in the state
    /// machine, initially `Active`.
    pub fn create_hwnd_swap_chain(
        &mut self,
        hwnd: u64,
        width: u32,
        height: u32,
        creation: Result<u64, i32>,
        wrapped: &Vec<Option<u64>>,
    ) -> (r: Result<HwndSwapChain, GpuError>)
        requires
            old(self).live(),
        ensures
            final(self)@ == old(self)@,
            created_chain_ok(creation, wrapped@) ==> (r matches Ok(sc) && sc@.hwnd == hwnd
                && sc@.state == crate::machine::SwapChainStateView::Active(
                SwapChainView::created(creation->Ok_0, width, height, wrapped@),
            )),
            !created_chain_ok(creation, wrapped@) ==> r == Err::<HwndSwapChain, GpuError>(
                created_chain_err(creation, wrapped@),
            ),
    {
        match self.create_swap_chain_for_hwnd(hwnd, width, height, creation, wrapped) {
            Ok(chain) => Ok(HwndSwapChain::new(hwnd, chain)),
            Err(e) => Err(e),
        }
    }
}

/// The platform accepted both the creation of the presentation object and the
/// wrapping of each back buffer.
pub open spec fn created_chain_ok(creation: Result<u64, i32>, wrapped: Seq<Option<u64>>) -> bool {
    creation is Ok && wrap_ok(wrapped)
}

/// The failure a rejected creation or wrap surfaces.
pub open spec fn created_chain_err(creation: Result<u64, i32>, wrapped: Seq<Option<u64>>) -> GpuError {
    match creation {
        Err(code) => GpuError::PresentationCreation { code },
        Ok(_) => GpuError::SurfaceWrap { buffer: first_unwrapped(wrapped) },
    }
}

} // verus!
