use swapchain_core::adapter::AdapterProbe;
use swapchain_core::composition::CompositionSwapChain;
use swapchain_core::context::Backend;
use swapchain_core::error::GpuError;
use swapchain_core::surface::BufferSurface;

const S_OK: i32 = 0;

fn adapters() -> Vec<AdapterProbe> {
    vec![AdapterProbe { software: false, device_ok: true }]
}

fn composition_machine(backend: &mut Backend) -> CompositionSwapChain {
    let chain = backend
        .create_swap_chain_for_composition(800, 600, Ok(42), &vec![Some(10), Some(11)])
        .unwrap();
    CompositionSwapChain::new(chain)
}

#[test]
fn composition_swap_chain_starts_active() {
    let mut backend = Backend::new(&adapters()).unwrap();
    let machine = composition_machine(&mut backend);
    assert!(machine.is_active());
    assert_eq!(machine.get_active().unwrap().handle(), 42);
}

#[test]
fn composition_surface_is_none_while_active() {
    let mut backend = Backend::new(&adapters()).unwrap();
    let mut machine = composition_machine(&mut backend);
    let r = machine
        .new_composition_surface(&mut backend, &adapters(), Ok(43), &Vec::new(), Ok(90))
        .unwrap();
    assert_eq!(r, None);
    assert_eq!(machine.get_active().unwrap().handle(), 42);
}

#[test]
fn composition_surface_realizes_pending_resize_and_hands_out_binding() {
    let mut backend = Backend::new(&adapters()).unwrap();
    let mut machine = composition_machine(&mut backend);
    machine.resize(&mut backend, 1024, 768, Err(-1), &Vec::new());
    assert!(!backend.is_live());
    let r = machine
        .new_composition_surface(
            &mut backend,
            &adapters(),
            Ok(43),
            &vec![Some(20), Some(21)],
            Ok(90),
        )
        .unwrap();
    assert_eq!(r, Some(90));
    assert!(machine.is_active());
    assert!(backend.is_live());
    let chain = machine.get_active().unwrap();
    assert_eq!(chain.handle(), 43);
    assert_eq!((chain.width(), chain.height()), (1024, 768));
    // a second read has nothing pending and hands out no new binding
    let again = machine
        .new_composition_surface(&mut backend, &adapters(), Ok(44), &Vec::new(), Ok(91))
        .unwrap();
    assert_eq!(again, None);
    assert_eq!(machine.get_active().unwrap().handle(), 43);
}

#[test]
fn rejected_binding_drops_the_new_chain_and_stays_pending() {
    let mut backend = Backend::new(&adapters()).unwrap();
    let mut machine = composition_machine(&mut backend);
    machine.resize(&mut backend, 1024, 768, Err(-1), &Vec::new());
    let err = machine
        .new_composition_surface(
            &mut backend,
            &adapters(),
            Ok(43),
            &vec![Some(20), Some(21)],
            Err(-5),
        )
        .unwrap_err();
    assert_eq!(err, GpuError::PresentationCreation { code: -5 });
    assert!(!machine.is_active());
    assert_eq!(machine.needs_resize(), Some((1024, 768)));
    // the context was recreated; only chain creation and binding are retried
    assert!(backend.is_live());
}

#[test]
fn composition_draw_paints_current_surface() {
    let mut backend = Backend::new(&adapters()).unwrap();
    let mut machine = composition_machine(&mut backend);
    let mut painted = None;
    let hr = machine.draw(&mut backend, 3, S_OK, |s| painted = Some(s));
    assert_eq!(hr, S_OK);
    assert_eq!(
        painted,
        Some(BufferSurface { surface: 11, width: 800, height: 600 })
    );
    assert_eq!(
        machine.unwrap_surface(2),
        BufferSurface { surface: 10, width: 800, height: 600 }
    );
}

#[test]
fn composition_present_is_a_noop_while_resizing() {
    let mut backend = Backend::new(&adapters()).unwrap();
    let mut machine = composition_machine(&mut backend);
    assert_eq!(machine.present(&mut backend, 0, S_OK), Some(S_OK));
    machine.resize(&mut backend, 640, 480, Err(-1), &Vec::new());
    assert_eq!(machine.present(&mut backend, 0, S_OK), None);
}
