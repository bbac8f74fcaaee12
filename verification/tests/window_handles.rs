use raw_window_handle::{RawWindowHandle, WebWindowHandle, Win32WindowHandle};
use swapchain_core::adapter::AdapterProbe;
use swapchain_core::context::Backend;
use swapchain_core::error::{GpuError, E_INVALIDARG};

fn live_backend() -> Backend {
    Backend::new(&vec![AdapterProbe { software: false, device_ok: true }]).unwrap()
}

#[test]
fn win32_window_handle_creates_swap_chain() {
    let mut backend = live_backend();
    let handle = RawWindowHandle::Win32(Win32WindowHandle::empty());
    let machine = backend
        .create_raw_window_handle_swap_chain(
            &handle,
            800,
            600,
            Ok(42),
            &vec![Some(10), Some(11)],
        )
        .unwrap();
    assert!(machine.is_active());
    let chain = machine.get_active().unwrap();
    assert_eq!(chain.handle(), 42);
    assert_eq!((chain.width(), chain.height()), (800, 600));
}

#[test]
fn non_win32_window_handle_is_an_invalid_target() {
    let mut backend = live_backend();
    let handle = RawWindowHandle::Web(WebWindowHandle::empty());
    let err = backend
        .create_raw_window_handle_swap_chain(
            &handle,
            800,
            600,
            Ok(42),
            &vec![Some(10), Some(11)],
        )
        .unwrap_err();
    assert_eq!(err, GpuError::PresentationCreation { code: E_INVALIDARG });
}

#[test]
fn win32_window_handle_still_surfaces_creation_failure() {
    let mut backend = live_backend();
    let handle = RawWindowHandle::Win32(Win32WindowHandle::empty());
    let err = backend
        .create_raw_window_handle_swap_chain(
            &handle,
            800,
            600,
            Err(-7),
            &vec![Some(10), Some(11)],
        )
        .unwrap_err();
    assert_eq!(err, GpuError::PresentationCreation { code: -7 });
}
