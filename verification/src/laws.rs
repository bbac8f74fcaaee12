use vstd::prelude::*;

use crate::adapter::{has_suitable, AdapterProbe};
use crate::composition::composition_refresh_step;
use crate::error::GpuError;
use crate::machine::{refresh_step, resize_step, SwapChainStateView};
use crate::surface::{wrap_ok, BUFFER_COUNT};
use crate::swap_chain::{chain_resize, SwapChainView};

verus! {

/// A resize to a zero-area target is a deliberate no-op: the swap chain,
/// its buffer set included, is left unchanged and the call succeeds.
pub proof fn lemma_zero_resize_is_noop(
    c: SwapChainView,
    width: u32,
    height: u32,
    resize_result: Result<(), i32>,
    wrapped: Seq<Option<u64>>,
)
    requires
        width == 0 || height == 0,
    ensures
        chain_resize(c, width, height, resize_result, wrapped) == (c, Ok::<(), GpuError>(())),
{
}

/// A zero-area resize request leaves an `Active` machine, and the context,
/// exactly as they were, whatever the platform would have answered.
pub proof fn lemma_zero_resize_keeps_machine(
    c: SwapChainView,
    live: bool,
    width: u32,
    height: u32,
    resize_result: Result<(), i32>,
    wrapped: Seq<Option<u64>>,
)
    requires
        width == 0 || height == 0,
    ensures
        resize_step(SwapChainStateView::Active(c), live, width, height, resize_result, wrapped)
            == (SwapChainStateView::Active(c), live),
{
}

/// When the in-place resize of a live swap chain fails, the machine holds
/// exactly the requested dimensions as pending and the context is released,
/// so the next recreation query reports that recreation happened.
pub proof fn lemma_failed_resize_escalates(
    c: SwapChainView,
    live: bool,
    width: u32,
    height: u32,
    resize_result: Result<(), i32>,
    wrapped: Seq<Option<u64>>,
)
    requires
        chain_resize(c, width, height, resize_result, wrapped).1 is Err,
    ensures
        resize_step(SwapChainStateView::Active(c), live, width, height, resize_result, wrapped)
            == (
            SwapChainStateView::Resizing { new_width: width, new_height: height },
            false,
        ),
{
}

/// Resize requests arriving while a resize is already pending coalesce:
/// after any two further requests exactly one target size is pending — the
/// most recent one — and the context is left alone.
pub proof fn lemma_resize_coalesces(
    m: SwapChainStateView,
    live: bool,
    w1: u32,
    h1: u32,
    e1: Result<(), i32>,
    wr1: Seq<Option<u64>>,
    w2: u32,
    h2: u32,
    e2: Result<(), i32>,
    wr2: Seq<Option<u64>>,
)
    requires
        !m.is_active(),
    ensures
        ({
            let (m1, l1) = resize_step(m, live, w1, h1, e1, wr1);
            resize_step(m1, l1, w2, h2, e2, wr2) == (
                SwapChainStateView::Resizing { new_width: w2, new_height: h2 },
                live,
            )
        }),
{
}

/// Realizing a pending resize succeeds whenever the platform can give a
/// device (or one still lives), a presentation object and both wrapped
/// buffers: the machine becomes `Active` with a swap chain sized to the
/// pending dimensions, the context lives, and the caller is told that a new
/// presentation object exists.
pub proof fn lemma_refresh_realizes_pending(
    width: u32,
    height: u32,
    live: bool,
    adapters: Seq<AdapterProbe>,
    creation: Result<u64, i32>,
    wrapped: Seq<Option<u64>>,
)
    requires
        live || has_suitable(adapters),
        creation is Ok,
        wrap_ok(wrapped),
    ensures
        refresh_step(
            SwapChainStateView::Resizing { new_width: width, new_height: height },
            live,
            adapters,
            creation,
            wrapped,
        ) == (
            SwapChainStateView::Active(
                SwapChainView::created(creation->Ok_0, width, height, wrapped),
            ),
            true,
            Ok::<bool, GpuError>(true),
        ),
{
}

/// Recreation happens at most once per pending resize: a successful
/// realization leaves the machine `Active`, and on an `Active` machine any
/// further read changes nothing and reports that no new presentation object
/// was created, however many reads occur before the next resize.
pub proof fn lemma_refresh_at_most_once(
    m: SwapChainStateView,
    live: bool,
    a1: Seq<AdapterProbe>,
    c1: Result<u64, i32>,
    w1: Seq<Option<u64>>,
    a2: Seq<AdapterProbe>,
    c2: Result<u64, i32>,
    w2: Seq<Option<u64>>,
)
    ensures
        ({
            let (m1, l1, r1) = refresh_step(m, live, a1, c1, w1);
            &&& r1 is Ok ==> m1.is_active()
            &&& m1.is_active() ==> refresh_step(m1, l1, a2, c2, w2) == (
                m1,
                l1,
                Ok::<bool, GpuError>(false),
            )
        }),
{
}

/// The composition variant realizes a pending resize at most once as well:
/// a successful realization hands out one new binding and leaves the machine
/// `Active`, where any further read hands out none and changes nothing.
pub proof fn lemma_composition_refresh_at_most_once(
    m: SwapChainStateView,
    live: bool,
    a1: Seq<AdapterProbe>,
    c1: Result<u64, i32>,
    w1: Seq<Option<u64>>,
    b1: Result<u64, i32>,
    a2: Seq<AdapterProbe>,
    c2: Result<u64, i32>,
    w2: Seq<Option<u64>>,
    b2: Result<u64, i32>,
)
    ensures
        ({
            let (m1, l1, r1) = composition_refresh_step(m, live, a1, c1, w1, b1);
            &&& r1 is Ok && r1->Ok_0 is Some ==> m1.is_active()
            &&& m1.is_active() ==> composition_refresh_step(m1, l1, a2, c2, w2, b2) == (
                m1,
                l1,
                Ok::<Option<u64>, GpuError>(None),
            )
        }),
{
}

/// Both lifecycle steps preserve the machine's structural invariant: while
/// `Active`, the buffer array is populated with entries sized to the chain.
pub proof fn lemma_resize_step_preserves_wf(
    m: SwapChainStateView,
    live: bool,
    width: u32,
    height: u32,
    resize_result: Result<(), i32>,
    wrapped: Seq<Option<u64>>,
)
    requires
        m.wf(),
    ensures
        resize_step(m, live, width, height, resize_result, wrapped).0.wf(),
{
}

/// Realizing a pending resize also preserves the structural invariant: a
/// freshly created swap chain starts with its full, correctly sized buffer
/// array.
pub proof fn lemma_refresh_step_preserves_wf(
    m: SwapChainStateView,
    live: bool,
    adapters: Seq<AdapterProbe>,
    creation: Result<u64, i32>,
    wrapped: Seq<Option<u64>>,
)
    requires
        m.wf(),
    ensures
        refresh_step(m, live, adapters, creation, wrapped).0.wf(),
{
}

/// While the machine is `Active` the buffer array has exactly `BUFFER_COUNT`
/// entries, and the entry the presentation engine's reported index selects —
/// the index taken modulo that count — never leaves the array.
pub proof fn lemma_active_buffer_bound(m: SwapChainStateView, c: SwapChainView, index: u32)
    requires
        m.wf(),
        m == SwapChainStateView::Active(c),
    ensures
        c.surfaces->Some_0.len() == BUFFER_COUNT,
        0 <= index as int % (BUFFER_COUNT as int) < c.surfaces->Some_0.len(),
{
}

} // verus!
