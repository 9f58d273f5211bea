//! The waiting discipline of the blocking executor that drives the
//! library's futures: poll again only once woken; until then pump the main
//! run loop on the main thread, where VisionKit completes its work, and park
//! on any other thread instead of spinning.
use vstd::prelude::*;

verus! {

/// What the executor does next after a future returned `Pending`.
#[derive(Debug, Clone, Copy, PartialEq, Eq, Structural)]
pub enum WaitStep {
    /// The waker fired: poll the future again.
    Poll,
    /// Not woken, on the main thread: run the main run loop for a moment.
    PumpMainRunLoop,
    /// Not woken, on another thread: park until the waker unparks it.
    Park,
}

/// The executor's next step, from whether the waker has fired since the
/// last poll and whether the executor runs on the main thread.
pub fn next_wait_step(woken: bool, on_main_thread: bool) -> (s: WaitStep)
    ensures
        woken ==> s == WaitStep::Poll,
        !woken && on_main_thread ==> s == WaitStep::PumpMainRunLoop,
        !woken && !on_main_thread ==> s == WaitStep::Park,
{
    if woken {
        WaitStep::Poll
    } else if on_main_thread {
        WaitStep::PumpMainRunLoop
    } else {
        WaitStep::Park
    }
}

} // verus!
