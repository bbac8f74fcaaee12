use vstd::prelude::*;

use crate::adapter::{has_suitable, AdapterProbe};
use crate::context::Backend;
use crate::error::GpuError;
use crate::machine::{SwapChainState, SwapChainStateView};
use crate::surface::{first_unwrapped, wrap_ok, BufferSurface};
use crate::swap_chain::{SwapChain, SwapChainView};

verus! {

/// A swap chain consumed by a composition visual tree rather than bound to a
/// window directly.
///
/// The lifecycle is the same state machine; the one difference is that a
/// recreated presentation object must be bound to a composition surface
/// before it replaces the old one, and the binding is handed back so the
/// consumer can swap its visual's content.
#[derive(Debug)]
pub struct CompositionSwapChain {
    swap_chain: SwapChainState,
}

/// What realizing a pending resize of a composition swap chain leaves of the
/// machine and of the context's liveness, and what it reports.
///
/// Unlike the window-bound machine, the freshly created presentation object
/// is first bound to a composition surface (`binding` is the compositor's
/// answer); only a bound object is installed.  If the binding is rejected the
/// new object is dropped and the resize stays pending, so the next use
/// retries the whole recreation.  `Ok(Some(b))` hands out the new binding;
/// `Ok(None)` means nothing was pending.
pub open spec fn composition_refresh_step(
    m: SwapChainStateView,
    live: bool,
    adapters: Seq<AdapterProbe>,
    creation: Result<u64, i32>,
    wrapped: Seq<Option<u64>>,
    binding: Result<u64, i32>,
) -> (SwapChainStateView, bool, Result<Option<u64>, GpuError>) {
    match m {
        SwapChainStateView::Active(_) => (m, live, Ok(None)),
        SwapChainStateView::Resizing { new_width, new_height } => {
            if !live && !has_suitable(adapters) {
                (m, false, Err(GpuError::DeviceCreation))
            } else {
                match creation {
                    Err(code) => (m, true, Err(GpuError::PresentationCreation { code })),
                    Ok(handle) => if !wrap_ok(wrapped) {
                        (m, true, Err(GpuError::SurfaceWrap { buffer: first_unwrapped(wrapped) }))
                    } else {
                        match binding {
                            Err(code) => (m, true, Err(GpuError::PresentationCreation { code })),
                            Ok(b) => (
                                SwapChainStateView::Active(
                                    SwapChainView::created(handle, new_width, new_height, wrapped),
                                ),
                                true,
                                Ok(Some(b)),
                            ),
                        }
                    },
                }
            }
        },
    }
}

impl CompositionSwapChain {
    /// Wraps a freshly created composition-consumable swap chain; the
    /// machine starts `Active`.
    pub fn new(swap_chain: SwapChain) -> (r: CompositionSwapChain)
        ensures
            r@ == SwapChainStateView::Active(swap_chain@),
    {
        CompositionSwapChain { swap_chain: SwapChainState::Active(swap_chain) }
    }

    /// Whether the machine currently holds a live swap chain.
    pub fn is_active(&self) -> (r: bool)
        ensures
            r == self@.is_active(),
    {
        match &self.swap_chain {
            SwapChainState::Active(_) => true,
            _ => false,
        }
    }

    /// The live swap chain, while there is one.
    pub fn get_active(&self) -> (r: Option<&SwapChain>)
        ensures
            match r {
                Some(c) => self@ == SwapChainStateView::Active(c@),
                None => !self@.is_active(),
            },
    {
        self.swap_chain.get_active()
    }

    /// The pending target dimensions, while a resize is deferred.
    pub fn needs_resize(&self) -> (r: Option<(u32, u32)>)
        ensures
            match r {
                Some(d) => self@ == (SwapChainStateView::Resizing {
                    new_width: d.0,
                    new_height: d.1,
                }),
                None => self@.is_active(),
            },
    {
        self.swap_chain.needs_resize()
    }

    /// Applies a resize request to the state machine, exactly as the
    /// window-bound variant does.
    pub fn resize(
        &mut self,
        env: &mut Backend,
        width: u32,
        height: u32,
        resize_result: Result<(), i32>,
        wrapped: &Vec<Option<u64>>,
    )
        requires
            old(self)@.is_active() ==> old(env).live(),
        ensures
            ({
                let (m2, live2) = crate::machine::resize_step(
                    old(self)@,
                    old(env)@.live(),
                    width,
                    height,
                    resize_result,
                    wrapped@,
                );
                &&& final(self)@ == m2
                &&& final(env)@ == if live2 {
                    old(env)@
                } else {
                    crate::context::BackendView::released()
                }
            }),
            old(self)@.wf() ==> final(self)@.wf(),
    {
        self.swap_chain.resize(env, width, height, resize_result, wrapped);
    }

    /// Realizes a pending resize, if there is one: recreates the context if
    /// it was released, creates a brand-new composition-consumable swap chain
    /// at the pending dimensions, binds it to a composition surface, and only
    /// then installs it.  Returns the new binding so the consumer rebinds its
    /// visual; `None` when nothing was pending.
    pub fn new_composition_surface(
        &mut self,
        env: &mut Backend,
        adapters: &Vec<AdapterProbe>,
        creation: Result<u64, i32>,
        wrapped: &Vec<Option<u64>>,
        binding: Result<u64, i32>,
    ) -> (r: Result<Option<u64>, GpuError>)
        ensures
            ({
                let (m2, live2, res) = composition_refresh_step(
                    old(self)@,
                    old(env)@.live(),
                    adapters@,
                    creation,
                    wrapped@,
                    binding,
                );
                &&& final(self)@ == m2
                &&& final(env)@.live() == live2
                &&& old(env).live() ==> final(env)@ == old(env)@
                &&& r == res
            }),
            old(self)@.wf() ==> final(self)@.wf(),
    {
        let pending = self.swap_chain.needs_resize();
        match pending {
            None => Ok(None),
            Some((width, height)) => {
                match env.recreate_context_if_needed(adapters) {
                    Err(e) => Err(e),
                    Ok(_) => {
                        match env.create_swap_chain_for_composition(
                            width,
                            height,
                            creation,
                            wrapped,
                        ) {
                            Err(e) => Err(e),
                            Ok(chain) => {
                                match binding {
                                    // an unbound presentation object is
                                    // dropped; the resize stays pending
                                    Err(code) => Err(
                                        GpuError::PresentationCreation { code },
                                    ),
                                    Ok(b) => {
                                        self.swap_chain = SwapChainState::Active(chain);
                                        Ok(Some(b))
                                    },
                                }
                            },
                        }
                    },
                }
            },
        }
    }

    /// Paints the current back buffer, flushes, submits and presents; the
    /// consumer realizes pending resizes through `new_composition_surface`
    /// before drawing, so a live swap chain is required here.
    pub fn draw<F: FnOnce(BufferSurface)>(
        &mut self,
        env: &mut Backend,
        current_index: u32,
        present_result: i32,
        f: F,
    ) -> (r: i32)
        requires
            old(self)@ matches SwapChainStateView::Active(c) && c.has_buffers(),
            old(env).live(),
            forall|s: BufferSurface| call_requires(f, (s,)),
        ensures
            final(self)@ == old(self)@,
            final(env)@ == old(env)@,
            r == present_result,
            old(self)@ matches SwapChainStateView::Active(c) && call_ensures(
                f,
                (c.surface_at(current_index),),
                (),
            ),
    {
        match &mut self.swap_chain {
            SwapChainState::Active(chain) => chain.draw(env, current_index, present_result, f),
            // the caller's obligation: the machine is Active here
            SwapChainState::Resizing { .. } => unreached(),
        }
    }

    /// The drawable surface of the current back buffer; valid only while the
    /// buffers are populated.
    pub fn unwrap_surface(&self, current_index: u32) -> (r: BufferSurface)
        requires
            self@ matches SwapChainStateView::Active(c) && c.has_buffers(),
        ensures
            self@ matches SwapChainStateView::Active(c) && r == c.surface_at(current_index),
    {
        match self.swap_chain.get_active() {
            Some(chain) => chain.get_surface(current_index),
            // the caller's obligation: the machine is Active here
            None => unreached(),
        }
    }

    /// Presents what was already drawn into the current surface; a no-op
    /// while a resize is pending.
    pub fn present(&mut self, env: &mut Backend, current_index: u32, present_result: i32) -> (r:
        Option<i32>)
        requires
            old(self)@.wf(),
            old(self)@.is_active() ==> old(env).live(),
        ensures
            final(self)@ == old(self)@,
            final(env)@ == old(env)@,
            r == if old(self)@.is_active() {
                Some(present_result)
            } else {
                None::<i32>
            },
    {
        match &mut self.swap_chain {
            SwapChainState::Active(chain) => Some(
                chain.present(env, current_index, present_result),
            ),
            SwapChainState::Resizing { .. } => None,
        }
    }
}

impl View for CompositionSwapChain {
    type V = SwapChainStateView;

    closed spec fn view(&self) -> SwapChainStateView {
        self.swap_chain@
    }
}

} // verus!
