use vstd::prelude::*;

use crate::adapter::{has_suitable, AdapterProbe};
use crate::context::{Backend, BackendView};
use crate::error::GpuError;
use crate::surface::{first_unwrapped, wrap_ok, BufferSurface};
use crate::swap_chain::{chain_resize, SwapChain, SwapChainView};

verus! {

/// The swap-chain lifecycle: either a live swap chain, or the latest
/// requested dimensions of a pending resize.
///
/// `Resizing` never holds a live swap chain, so deferred recreation is a
/// structural fact, not a convention; a later resize request overwrites an
/// earlier pending one.
#[derive(Debug)]
pub enum SwapChainState {
    Active(SwapChain),
    Resizing { new_width: u32, new_height: u32 },
}

/// Mathematical model of the lifecycle state.
pub ghost enum SwapChainStateView {
    Active(SwapChainView),
    Resizing { new_width: u32, new_height: u32 },
}

impl SwapChainStateView {
    pub open spec fn is_active(self) -> bool {
        self is Active
    }

    /// A live swap chain always has its buffer array populated, with the
    /// fixed number of entries, each sized to the chain.
    pub open spec fn wf(self) -> bool {
        self matches SwapChainStateView::Active(c) ==> c.has_buffers() && c.wf()
    }
}

impl View for SwapChainState {
    type V = SwapChainStateView;

    open spec fn view(&self) -> SwapChainStateView {
        match self {
            SwapChainState::Active(c) => SwapChainStateView::Active(c@),
            SwapChainState::Resizing { new_width, new_height } => SwapChainStateView::Resizing {
                new_width: *new_width,
                new_height: *new_height,
            },
        }
    }
}

/// What one resize request leaves of the machine and of the context's
/// liveness.
///
/// While `Resizing`, the request only overwrites the pending dimensions,
/// coalescing a burst into the latest target.  While `Active`, an in-place
/// resize is attempted; if it fails, the context must be released — forcing
/// full device recreation later — and the machine holds the requested
/// dimensions as pending.
pub open spec fn resize_step(
    m: SwapChainStateView,
    live: bool,
    width: u32,
    height: u32,
    resize_result: Result<(), i32>,
    wrapped: Seq<Option<u64>>,
) -> (SwapChainStateView, bool) {
    match m {
        SwapChainStateView::Resizing { .. } => (
            SwapChainStateView::Resizing { new_width: width, new_height: height },
            live,
        ),
        SwapChainStateView::Active(c) => {
            let (c2, res) = chain_resize(c, width, height, resize_result, wrapped);
            if res is Ok {
                (SwapChainStateView::Active(c2), live)
            } else {
                (SwapChainStateView::Resizing { new_width: width, new_height: height }, false)
            }
        },
    }
}

/// What realizing a pending resize leaves of the machine, of the context's
/// liveness, and what it reports.
///
/// An `Active` machine needs nothing: `Ok(false)`.  A `Resizing` machine
/// first recreates the context if it was released, then creates a brand-new
/// swap chain at the pending dimensions; each creation failure is surfaced
/// and leaves the resize pending, to be retried on the next use.  `Ok(true)`
/// reports that a new presentation object exists, so adapters that cached a
/// binding to the old one know to rebind.
pub open spec fn refresh_step(
    m: SwapChainStateView,
    live: bool,
    adapters: Seq<AdapterProbe>,
    creation: Result<u64, i32>,
    wrapped: Seq<Option<u64>>,
) -> (SwapChainStateView, bool, Result<bool, GpuError>) {
    match m {
        SwapChainStateView::Active(_) => (m, live, Ok(false)),
        SwapChainStateView::Resizing { new_width, new_height } => {
            if !live && !has_suitable(adapters) {
                (m, false, Err(GpuError::DeviceCreation))
            } else {
                match creation {
                    Err(code) => (m, true, Err(GpuError::PresentationCreation { code })),
                    Ok(handle) => if wrap_ok(wrapped) {
                        (
                            SwapChainStateView::Active(
                                SwapChainView::created(handle, new_width, new_height, wrapped),
                            ),
                            true,
                            Ok(true),
                        )
                    } else {
                        (
                            m,
                            true,
                            Err(GpuError::SurfaceWrap { buffer: first_unwrapped(wrapped) }),
                        )
                    },
                }
            }
        },
    }
}

impl SwapChainState {
    /// The live swap chain, while there is one.
    pub fn get_active(&self) -> (r: Option<&SwapChain>)
        ensures
            match r {
                Some(c) => self@ == SwapChainStateView::Active(c@),
                None => !self@.is_active(),
            },
    {
        match self {
            SwapChainState::Active(c) => Some(c),
            _ => None,
        }
    }

    /// The pending target dimensions, while a resize is deferred.
    pub fn needs_resize(&self) -> (r: Option<(u32, u32)>)
        ensures
            match r {
                Some(d) => self@ == (SwapChainStateView::Resizing {
                    new_width: d.0,
                    new_height: d.1,
                }),
                None => self@.is_active(),
            },
    {
        match self {
            SwapChainState::Resizing { new_width, new_height } => Some((*new_width, *new_height)),
            _ => None,
        }
    }

    /// Applies a resize request: in place while `Active`, with escalation to
    /// deferred recreation when the in-place resize fails; while `Resizing`,
    /// coalesces the request into the pending dimensions.
    pub fn resize(
        &mut self,
        env: &mut Backend,
        width: u32,
        height: u32,
        resize_result: Result<(), i32>,
        wrapped: &Vec<Option<u64>>,
    )
        requires
            old(self)@.is_active() ==> old(env).live(),
        ensures
            ({
                let (m2, live2) = resize_step(
                    old(self)@,
                    old(env)@.live(),
                    width,
                    height,
                    resize_result,
                    wrapped@,
                );
                &&& final(self)@ == m2
                &&& final(env)@ == if live2 {
                    old(env)@
                } else {
                    BackendView::released()
                }
            }),
            old(self)@.wf() ==> final(self)@.wf(),
    {
        let failed = match self {
            SwapChainState::Active(chain) => {
                match chain.resize(env, width, height, resize_result, wrapped) {
                    Ok(_) => false,
                    Err(_) => {
                        env.release_context();
                        true
                    },
                }
            },
            SwapChainState::Resizing { .. } => true,
        };
        if failed {
            *self = SwapChainState::Resizing { new_width: width, new_height: height };
        }
    }
}

/// A swap chain bound to a window, wrapped in the lifecycle state machine:
/// resize requests are coalesced, and recreation is deferred to the next
/// draw or surface access.
#[derive(Debug)]
pub struct HwndSwapChain {
    hwnd: u64,
    swap_chain: SwapChainState,
}

/// Mathematical model of a window-bound swap chain.
pub ghost struct HwndSwapChainView {
    pub hwnd: u64,
    pub state: SwapChainStateView,
}

impl View for HwndSwapChain {
    type V = HwndSwapChainView;

    closed spec fn view(&self) -> HwndSwapChainView {
        HwndSwapChainView { hwnd: self.hwnd, state: self.swap_chain@ }
    }
}

impl HwndSwapChain {
    /// Wraps a freshly created swap chain; the machine starts `Active`.
    pub(crate) fn new(hwnd: u64, swap_chain: SwapChain) -> (r: HwndSwapChain)
        ensures
            r@.hwnd == hwnd,
            r@.state == SwapChainStateView::Active(swap_chain@),
    {
        HwndSwapChain { hwnd, swap_chain: SwapChainState::Active(swap_chain) }
    }

    /// Whether the machine currently holds a live swap chain.
    pub fn is_active(&self) -> (r: bool)
        ensures
            r == self@.state.is_active(),
    {
        match &self.swap_chain {
            SwapChainState::Active(_) => true,
            _ => false,
        }
    }

    /// The live swap chain, while there is one.
    pub fn get_active(&self) -> (r: Option<&SwapChain>)
        ensures
            match r {
                Some(c) => self@.state == SwapChainStateView::Active(c@),
                None => !self@.state.is_active(),
            },
    {
        self.swap_chain.get_active()
    }

    /// The pending target dimensions, while a resize is deferred.
    pub fn needs_resize(&self) -> (r: Option<(u32, u32)>)
        ensures
            match r {
                Some(d) => self@.state == (SwapChainStateView::Resizing {
                    new_width: d.0,
                    new_height: d.1,
                }),
                None => self@.state.is_active(),
            },
    {
        self.swap_chain.needs_resize()
    }

    /// Applies a resize request to the state machine.
    pub fn resize(
        &mut self,
        env: &mut Backend,
        width: u32,
        height: u32,
        resize_result: Result<(), i32>,
        wrapped: &Vec<Option<u64>>,
    )
        requires
            old(self)@.state.is_active() ==> old(env).live(),
        ensures
            final(self)@.hwnd == old(self)@.hwnd,
            ({
                let (m2, live2) = resize_step(
                    old(self)@.state,
                    old(env)@.live(),
                    width,
                    height,
                    resize_result,
                    wrapped@,
                );
                &&& final(self)@.state == m2
                &&& final(env)@ == if live2 {
                    old(env)@
                } else {
                    BackendView::released()
                }
            }),
            old(self)@.state.wf() ==> final(self)@.state.wf(),
    {
        self.swap_chain.resize(env, width, height, resize_result, wrapped);
    }

    /// Realizes a pending resize, if there is one: recreates the context if
    /// it was released, then creates a brand-new swap chain at the pending
    /// dimensions and becomes `Active`.  Returns whether a new presentation
    /// object was created, so adapters that cached a binding know to rebind.
    pub fn recreate_if_needed(
        &mut self,
        env: &mut Backend,
        adapters: &Vec<AdapterProbe>,
        creation: Result<u64, i32>,
        wrapped: &Vec<Option<u64>>,
    ) -> (r: Result<bool, GpuError>)
        ensures
            final(self)@.hwnd == old(self)@.hwnd,
            ({
                let (m2, live2, res) = refresh_step(
                    old(self)@.state,
                    old(env)@.live(),
                    adapters@,
                    creation,
                    wrapped@,
                );
                &&& final(self)@.state == m2
                &&& final(env)@.live() == live2
                &&& old(env).live() ==> final(env)@ == old(env)@
                &&& r == res
            }),
            old(self)@.state.wf() ==> final(self)@.state.wf(),
    {
        let pending = self.swap_chain.needs_resize();
        match pending {
            None => Ok(false),
            Some((width, height)) => {
                match env.recreate_context_if_needed(adapters) {
                    Err(e) => Err(e),
                    Ok(_) => {
                        match env.create_swap_chain_for_hwnd(
                            self.hwnd,
                            width,
                            height,
                            creation,
                            wrapped,
                        ) {
                            Err(e) => Err(e),
                            Ok(chain) => {
                                self.swap_chain = SwapChainState::Active(chain);
                                Ok(true)
                            },
                        }
                    },
                }
            },
        }
    }

    /// Draws one frame: realizes a pending resize first, then paints the
    /// current back buffer with `f`, flushes, submits and presents.  On
    /// success the native present result is returned; a failure to recreate
    /// leaves the resize pending, to be retried on the next draw.
    pub fn draw<F: FnOnce(BufferSurface)>(
        &mut self,
        env: &mut Backend,
        adapters: &Vec<AdapterProbe>,
        creation: Result<u64, i32>,
        wrapped: &Vec<Option<u64>>,
        current_index: u32,
        present_result: i32,
        f: F,
    ) -> (r: Result<i32, GpuError>)
        requires
            old(self)@.state.wf(),
            old(self)@.state.is_active() ==> old(env).live(),
            forall|s: BufferSurface| call_requires(f, (s,)),
        ensures
            final(self)@.hwnd == old(self)@.hwnd,
            final(self)@.state.wf(),
            ({
                let (m2, live2, res) = refresh_step(
                    old(self)@.state,
                    old(env)@.live(),
                    adapters@,
                    creation,
                    wrapped@,
                );
                &&& final(self)@.state == m2
                &&& final(env)@.live() == live2
                &&& old(env).live() ==> final(env)@ == old(env)@
                &&& match res {
                    Err(e) => r == Err::<i32, GpuError>(e),
                    Ok(_) => {
                        &&& r == Ok::<i32, GpuError>(present_result)
                        &&& m2 matches SwapChainStateView::Active(c) && call_ensures(
                            f,
                            (c.surface_at(current_index),),
                            (),
                        )
                    },
                }
            }),
    {
        match self.recreate_if_needed(env, adapters, creation, wrapped) {
            Err(e) => Err(e),
            Ok(_) => {
                match &mut self.swap_chain {
                    SwapChainState::Active(chain) => {
                        let hr = chain.draw(env, current_index, present_result, f);
                        Ok(hr)
                    },
                    // a successful refresh leaves the machine Active
                    SwapChainState::Resizing { .. } => unreached(),
                }
            },
        }
    }

    /// The drawable surface of the current back buffer, realizing a pending
    /// resize first, exactly as `draw` does.
    pub fn get_surface(
        &mut self,
        env: &mut Backend,
        adapters: &Vec<AdapterProbe>,
        creation: Result<u64, i32>,
        wrapped: &Vec<Option<u64>>,
        current_index: u32,
    ) -> (r: Result<BufferSurface, GpuError>)
        requires
            old(self)@.state.wf(),
            old(self)@.state.is_active() ==> old(env).live(),
        ensures
            final(self)@.hwnd == old(self)@.hwnd,
            final(self)@.state.wf(),
            ({
                let (m2, live2, res) = refresh_step(
                    old(self)@.state,
                    old(env)@.live(),
                    adapters@,
                    creation,
                    wrapped@,
                );
                &&& final(self)@.state == m2
                &&& final(env)@.live() == live2
                &&& old(env).live() ==> final(env)@ == old(env)@
                &&& match res {
                    Err(e) => r == Err::<BufferSurface, GpuError>(e),
                    Ok(_) => m2 matches SwapChainStateView::Active(c) && r == Ok::<
                        BufferSurface,
                        GpuError,
                    >(c.surface_at(current_index)),
                }
            }),
    {
        match self.recreate_if_needed(env, adapters, creation, wrapped) {
            Err(e) => Err(e),
            Ok(_) => {
                match &self.swap_chain {
                    SwapChainState::Active(chain) => Ok(chain.get_surface(current_index)),
                    // a successful refresh leaves the machine Active
                    SwapChainState::Resizing { .. } => unreached(),
                }
            },
        }
    }

    /// Presents what was already drawn into the current surface; a no-op
    /// while a resize is pending.  Returns the native present result when a
    /// frame was presented.
    pub fn present(&mut self, env: &mut Backend, current_index: u32, present_result: i32) -> (r:
        Option<i32>)
        requires
            old(self)@.state.wf(),
            old(self)@.state.is_active() ==> old(env).live(),
        ensures
            final(self)@ == old(self)@,
            final(env)@ == old(env)@,
            r == if old(self)@.state.is_active() {
                Some(present_result)
            } else {
                None::<i32>
            },
    {
        match &mut self.swap_chain {
            SwapChainState::Active(chain) => Some(
                chain.present(env, current_index, present_result),
            ),
            SwapChainState::Resizing { .. } => None,
        }
    }
}

} // verus!
