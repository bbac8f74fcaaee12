use swapchain_core::adapter::{select_hardware_adapter, AdapterProbe};
use swapchain_core::context::Backend;
use swapchain_core::error::GpuError;
use swapchain_core::surface::{BufferSurface, BUFFER_COUNT};
use swapchain_core::swap_chain::{
    swap_chain_desc_composition, swap_chain_desc_hwnd, DXGI_ALPHA_MODE_UNSPECIFIED,
    DXGI_FORMAT_R8G8B8A8_UNORM, DXGI_SWAP_EFFECT_FLIP_SEQUENTIAL, DXGI_USAGE_RENDER_TARGET_OUTPUT,
};

fn hw_ok() -> AdapterProbe {
    AdapterProbe { software: false, device_ok: true }
}

fn live_backend() -> Backend {
    Backend::new(&vec![hw_ok()]).unwrap()
}

#[test]
fn select_hardware_adapter_picks_first_suitable() {
    let adapters = vec![
        AdapterProbe { software: true, device_ok: true },
        AdapterProbe { software: false, device_ok: false },
        AdapterProbe { software: false, device_ok: true },
        AdapterProbe { software: false, device_ok: true },
    ];
    assert_eq!(select_hardware_adapter(&adapters), Some(2));
}

#[test]
fn select_hardware_adapter_none_suitable() {
    let adapters = vec![
        AdapterProbe { software: true, device_ok: true },
        AdapterProbe { software: false, device_ok: false },
    ];
    assert_eq!(select_hardware_adapter(&adapters), None);
    assert_eq!(select_hardware_adapter(&Vec::new()), None);
}

#[test]
fn backend_new_uses_first_suitable_adapter() {
    let adapters = vec![
        AdapterProbe { software: true, device_ok: true },
        AdapterProbe { software: false, device_ok: true },
    ];
    let backend = Backend::new(&adapters).unwrap();
    assert!(backend.is_live());
    assert_eq!(backend.current_adapter(), Some(1));
}

#[test]
fn backend_new_fails_without_suitable_adapter() {
    let adapters = vec![AdapterProbe { software: true, device_ok: true }];
    let err = Backend::new(&adapters).unwrap_err();
    assert_eq!(err, GpuError::DeviceCreation);
}

#[test]
fn release_context_is_idempotent() {
    let mut backend = live_backend();
    backend.release_context();
    assert!(!backend.is_live());
    backend.release_context();
    assert!(!backend.is_live());
    assert_eq!(backend.current_adapter(), None);
}

#[test]
fn recreate_context_is_noop_while_live() {
    let mut backend = live_backend();
    assert_eq!(backend.recreate_context_if_needed(&vec![hw_ok()]), Ok(false));
    assert!(backend.is_live());
}

#[test]
fn recreate_context_after_release_reports_recreation() {
    let mut backend = live_backend();
    backend.release_context();
    assert_eq!(backend.recreate_context_if_needed(&vec![hw_ok()]), Ok(true));
    assert!(backend.is_live());
}

#[test]
fn recreate_context_fails_without_adapter() {
    let mut backend = live_backend();
    backend.release_context();
    let err = backend
        .recreate_context_if_needed(&Vec::new())
        .unwrap_err();
    assert_eq!(err, GpuError::DeviceCreation);
    assert!(!backend.is_live());
}

#[test]
fn device_removed_reason_reports_negative_codes() {
    let backend = live_backend();
    assert_eq!(backend.get_device_removed_reason(0), Ok(()));
    let code = -2005270523; // the presentation engine's device-removed code
    assert_eq!(
        backend.get_device_removed_reason(code),
        Err(GpuError::DeviceRemoved { code })
    );
}

#[test]
fn wrap_buffers_builds_both_entries() {
    let mut backend = live_backend();
    let wrapped = vec![Some(10), Some(11)];
    let (a, b) = backend.wrap_buffers_as_surfaces(&wrapped, 800, 600).unwrap();
    assert_eq!(
        a,
        BufferSurface { surface: 10, width: 800, height: 600 }
    );
    assert_eq!(
        b,
        BufferSurface { surface: 11, width: 800, height: 600 }
    );
}

#[test]
fn wrap_buffers_reports_first_failing_buffer() {
    let mut backend = live_backend();
    let first = backend
        .wrap_buffers_as_surfaces(&vec![None, Some(11)], 800, 600)
        .unwrap_err();
    assert_eq!(first, GpuError::SurfaceWrap { buffer: 0 });
    let second = backend
        .wrap_buffers_as_surfaces(&vec![Some(10), None], 800, 600)
        .unwrap_err();
    assert_eq!(second, GpuError::SurfaceWrap { buffer: 1 });
    let missing = backend
        .wrap_buffers_as_surfaces(&Vec::new(), 800, 600)
        .unwrap_err();
    assert_eq!(missing, GpuError::SurfaceWrap { buffer: 0 });
}

#[test]
fn create_swap_chain_for_hwnd_populates_buffers() {
    let mut backend = live_backend();
    let wrapped = vec![Some(20), Some(21)];
    let chain = backend
        .create_swap_chain_for_hwnd(7, 800, 600, Ok(42), &wrapped)
        .unwrap();
    assert_eq!(chain.handle(), 42);
    assert_eq!(chain.width(), 800);
    assert_eq!(chain.height(), 600);
    assert_eq!(chain.buffer_count(), BUFFER_COUNT);
}

#[test]
fn create_swap_chain_for_composition_populates_buffers() {
    let mut backend = live_backend();
    let wrapped = vec![Some(30), Some(31)];
    let chain = backend
        .create_swap_chain_for_composition(640, 480, Ok(43), &wrapped)
        .unwrap();
    assert_eq!(chain.handle(), 43);
    assert_eq!(chain.width(), 640);
    assert_eq!(chain.height(), 480);
}

#[test]
fn create_swap_chain_surfaces_rejection() {
    let mut backend = live_backend();
    let wrapped = vec![Some(20), Some(21)];
    let err = backend
        .create_swap_chain_for_hwnd(7, 800, 600, Err(-100), &wrapped)
        .unwrap_err();
    assert_eq!(err, GpuError::PresentationCreation { code: -100 });
}

#[test]
fn create_swap_chain_wrap_failure() {
    let mut backend = live_backend();
    let err = backend
        .create_swap_chain_for_hwnd(7, 800, 600, Ok(42), &vec![Some(20), None])
        .unwrap_err();
    assert_eq!(err, GpuError::SurfaceWrap { buffer: 1 });
}

#[test]
fn chain_zero_area_resize_returns_success_and_keeps_buffers() {
    let mut backend = live_backend();
    let mut chain = backend
        .create_swap_chain_for_hwnd(7, 800, 600, Ok(42), &vec![Some(20), Some(21)])
        .unwrap();
    // the events would report failure; a zero-area resize consults neither
    assert_eq!(chain.resize(&mut backend, 0, 0, Err(-1), &Vec::new()), Ok(()));
    assert_eq!(chain.resize(&mut backend, 0, 600, Err(-1), &Vec::new()), Ok(()));
    assert_eq!(chain.resize(&mut backend, 800, 0, Err(-1), &Vec::new()), Ok(()));
    assert_eq!((chain.width(), chain.height()), (800, 600));
    assert_eq!(chain.buffer_count(), BUFFER_COUNT);
    assert_eq!(chain.get_surface(0).surface, 20);
}

#[test]
fn chain_rejected_resize_reports_the_os_code() {
    let mut backend = live_backend();
    let mut chain = backend
        .create_swap_chain_for_hwnd(7, 800, 600, Ok(42), &vec![Some(20), Some(21)])
        .unwrap();
    let err = chain
        .resize(&mut backend, 1024, 768, Err(-3), &Vec::new())
        .unwrap_err();
    assert_eq!(err, GpuError::Resize { code: -3 });
    // a later successful resize repopulates the buffers as a unit
    assert_eq!(
        chain.resize(&mut backend, 1024, 768, Ok(()), &vec![Some(30), Some(31)]),
        Ok(())
    );
    assert_eq!((chain.width(), chain.height()), (1024, 768));
    assert_eq!(
        chain.get_surface(1),
        BufferSurface { surface: 31, width: 1024, height: 768 }
    );
}

#[test]
fn chain_resize_wrap_failure_reports_the_buffer() {
    let mut backend = live_backend();
    let mut chain = backend
        .create_swap_chain_for_hwnd(7, 800, 600, Ok(42), &vec![Some(20), Some(21)])
        .unwrap();
    let err = chain
        .resize(&mut backend, 1024, 768, Ok(()), &vec![None, Some(30)])
        .unwrap_err();
    assert_eq!(err, GpuError::SurfaceWrap { buffer: 0 });
}

#[test]
fn chain_draw_paints_flushes_and_returns_present_result() {
    let mut backend = live_backend();
    let mut chain = backend
        .create_swap_chain_for_hwnd(7, 800, 600, Ok(42), &vec![Some(20), Some(21)])
        .unwrap();
    let mut painted = None;
    let hr = chain.draw(&mut backend, 4, 0, |s| painted = Some(s));
    assert_eq!(hr, 0);
    assert_eq!(
        painted,
        Some(BufferSurface { surface: 20, width: 800, height: 600 })
    );
    assert_eq!(chain.present(&mut backend, 4, 0), 0);
}

#[test]
fn swap_chain_descriptions_use_the_fixed_policy() {
    let hwnd_desc = swap_chain_desc_hwnd(800, 600);
    let comp_desc = swap_chain_desc_composition(1024, 768);
    assert_eq!((hwnd_desc.width, hwnd_desc.height), (800, 600));
    assert_eq!((comp_desc.width, comp_desc.height), (1024, 768));
    for d in [hwnd_desc, comp_desc] {
        assert_eq!(d.format, DXGI_FORMAT_R8G8B8A8_UNORM);
        assert_eq!(d.buffer_usage, DXGI_USAGE_RENDER_TARGET_OUTPUT);
        assert_eq!(d.buffer_count, BUFFER_COUNT as u32);
        assert_eq!(d.buffer_count, 2);
        assert_eq!(d.swap_effect, DXGI_SWAP_EFFECT_FLIP_SEQUENTIAL);
        assert_eq!((d.sample_count, d.sample_quality), (1, 0));
        assert_eq!(d.alpha_mode, DXGI_ALPHA_MODE_UNSPECIFIED);
    }
}
