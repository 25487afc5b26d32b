//! Sizes in physical pixels and the lower bound on the size of the window.

use vstd::prelude::*;

verus! {

/// An extent in physical pixels.
#[derive(Clone, Copy, Debug, PartialEq, Eq)]
pub struct PhysicalSize {
    pub width: u32,
    pub height: u32,
}

/// What asking the window system for the primary monitor gave.
#[derive(Clone, Copy, Debug, PartialEq, Eq)]
pub enum MonitorProbe {
    /// The monitor is known, with its resolution.
    Found(PhysicalSize),
    /// The window system knows of no such monitor.
    Absent,
    /// The window system could not answer.
    Failed,
}

/// The number by which a monitor's extent is divided to get the smallest
/// extent the window may take: the window never shrinks below 12.5 % of the
/// monitor in either direction.
pub const MIN_SIZE_DIVISOR: u32 = 8;

/// An eighth of `monitor` in each direction, rounded down.
pub open spec fn eighth_of(monitor: PhysicalSize) -> PhysicalSize {
    PhysicalSize {
        width: monitor.width / MIN_SIZE_DIVISOR,
        height: monitor.height / MIN_SIZE_DIVISOR,
    }
}

/// The smallest size the window may take on a monitor of the given resolution.
pub fn min_window_size(monitor: PhysicalSize) -> (min: PhysicalSize)
    ensures
        min == eighth_of(monitor),
{
    PhysicalSize {
        width: monitor.width / MIN_SIZE_DIVISOR,
        height: monitor.height / MIN_SIZE_DIVISOR,
    }
}

/// The lower bound to put on the window's size at startup, if any: an eighth
/// of the monitor where the monitor is known, none where it is not.
pub open spec fn startup_min_size_of(probe: MonitorProbe) -> Option<PhysicalSize> {
    match probe {
        MonitorProbe::Found(monitor) => Some(eighth_of(monitor)),
        MonitorProbe::Absent => None,
        MonitorProbe::Failed => None,
    }
}

/// Decides the lower bound on the window's size from the outcome of the
/// monitor query. A monitor that is missing or a query that failed leaves the
/// window without a bound.
pub fn startup_min_size(probe: MonitorProbe) -> (bound: Option<PhysicalSize>)
    ensures
        bound == startup_min_size_of(probe),
{
    match probe {
        MonitorProbe::Found(monitor) => Some(min_window_size(monitor)),
        MonitorProbe::Absent => None,
        MonitorProbe::Failed => None,
    }
}

/// The bound is the largest extent whose eightfold does not exceed the
/// monitor: eight windows of the smallest size fit side by side, eight of the
/// next larger size do not.
pub proof fn lemma_eighth_is_tight(monitor: PhysicalSize)
    ensures
        8 * eighth_of(monitor).width <= monitor.width < 8 * (eighth_of(monitor).width + 1),
        8 * eighth_of(monitor).height <= monitor.height < 8 * (eighth_of(monitor).height + 1),
{
}

/// A larger monitor never gives a smaller bound.
pub proof fn lemma_eighth_is_monotonic(a: PhysicalSize, b: PhysicalSize)
    requires
        a.width <= b.width,
        a.height <= b.height,
    ensures
        eighth_of(a).width <= eighth_of(b).width,
        eighth_of(a).height <= eighth_of(b).height,
{
}

} // verus!
