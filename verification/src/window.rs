use vstd::prelude::*;

use crate::context::{created_chain_err, created_chain_ok, Backend};
use crate::error::{GpuError, E_INVALIDARG};
use crate::machine::{HwndSwapChain, SwapChainStateView};
use crate::swap_chain::SwapChainView;
use raw_window_handle::RawWindowHandle;

verus! {

#[verifier::external_type_specification]
#[verifier::external_body]
pub struct ExRawWindowHandle(RawWindowHandle);

/// The Win32 window address a raw window handle carries — `None` when the
/// handle is of any other kind.  The handle is opaque here, so the result is
/// only named; it is a function of the handle alone.
pub uninterp spec fn win32_of(handle: RawWindowHandle) -> Option<u64>;

/// Relies on raw_window_handle::RawWindowHandle: tells the Win32 variant
/// apart from the others and moves out the window's address.
#[verifier::external_body]
fn win32_hwnd_of(handle: &RawWindowHandle) -> (r: Option<u64>)
    ensures
        r == win32_of(*handle),
{
    match handle {
        RawWindowHandle::Win32(h) => Some(h.hwnd as u64),
        _ => None,
    }
}

impl Backend {
    /// Creates a window-bound swap chain from a raw window handle.  Only a
    /// Win32 handle can carry a presentation object; any other kind is an
    /// invalid target, reported as a creation failure with the OS code for
    /// an invalid argument.
    pub fn create_raw_window_handle_swap_chain(
        &mut self,
        window_handle: &RawWindowHandle,
        width: u32,
        height: u32,
        creation: Result<u64, i32>,
        wrapped: &Vec<Option<u64>>,
    ) -> (r: Result<HwndSwapChain, GpuError>)
        requires
            old(self).live(),
        ensures
            final(self)@ == old(self)@,
            win32_of(*window_handle) is None ==> r == Err::<HwndSwapChain, GpuError>(
                GpuError::PresentationCreation { code: E_INVALIDARG },
            ),
            win32_of(*window_handle) is Some && created_chain_ok(creation, wrapped@) ==> ({
                &&& r matches Ok(sc)
                &&& sc@.hwnd == win32_of(*window_handle)->Some_0
                &&& sc@.state == SwapChainStateView::Active(
                    SwapChainView::created(creation->Ok_0, width, height, wrapped@),
                )
            }),
            win32_of(*window_handle) is Some && !created_chain_ok(creation, wrapped@) ==> r
                == Err::<HwndSwapChain, GpuError>(created_chain_err(creation, wrapped@)),
    {
        match win32_hwnd_of(window_handle) {
            Some(hwnd) => self.create_hwnd_swap_chain(hwnd, width, height, creation, wrapped),
            None => Err(GpuError::PresentationCreation { code: E_INVALIDARG }),
        }
    }
}

} // verus!
