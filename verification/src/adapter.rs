use vstd::prelude::*;

verus! {

/// What enumerating one adapter reported: whether it is a software/basic
/// render adapter, and whether device creation at the minimum supported
/// feature level succeeds on it.
#[derive(Clone, Copy, Debug, PartialEq, Eq, Structural)]
pub struct AdapterProbe {
    /// The adapter is flagged as a software renderer.
    pub software: bool,
    /// Device creation at the minimum supported feature level succeeds.
    pub device_ok: bool,
}

/// An adapter a device may be created on: hardware, and device creation
/// succeeds.
pub open spec fn suitable(a: AdapterProbe) -> bool {
    !a.software && a.device_ok
}

/// Some adapter in the enumeration is suitable.
pub open spec fn has_suitable(adapters: Seq<AdapterProbe>) -> bool {
    exists|i: int| 0 <= i < adapters.len() && suitable(adapters[i])
}

/// `i` is the first suitable adapter of the enumeration.
pub open spec fn is_first_suitable(adapters: Seq<AdapterProbe>, i: int) -> bool {
    &&& 0 <= i < adapters.len()
    &&& suitable(adapters[i])
    &&& forall|j: int| 0 <= j < i ==> !suitable(adapters[j])
}

/// Walks the enumeration in order, skips software adapters, and picks the
/// first adapter on which device creation succeeds; `None` when no adapter is
/// suitable.
pub fn select_hardware_adapter(adapters: &Vec<AdapterProbe>) -> (r: Option<usize>)
    ensures
        match r {
            Some(i) => is_first_suitable(adapters@, i as int),
            None => !has_suitable(adapters@),
        },
{
    let mut i: usize = 0;
    while i < adapters.len()
        invariant
            i <= adapters.len(),
            forall|j: int| 0 <= j < i ==> !suitable(adapters@[j]),
        decreases adapters.len() - i,
    {
        let a = adapters[i];
        if !a.software && a.device_ok {
            return Some(i);
        }
        i = i + 1;
    }
    None
}

} // verus!
