//! The periodic executor's step decision.
//!
//! A hardware alarm wakes a dedicated thread at absolute timestamps; the
//! thread runs its handler and re-arms the alarm one period later. The
//! alarm reports timestamp `0` when it has been stopped, which is the
//! thread's signal to exit. The blocking waits and the alarm itself live
//! in the embedding program; the decision of what one wakeup means is
//! here.

use vstd::prelude::*;

verus! {

/// What one alarm wakeup at `current_time` means: nothing more to do when
/// the alarm reports a stop, otherwise run the handler and re-arm for one
/// period after the wakeup.
pub fn alarm_tick(current_time: u64, period_micros: u64) -> (r: Option<u64>)
    requires
        current_time + period_micros <= u64::MAX,
    ensures
        r is Some <==> current_time != 0,
        r is Some ==> r.unwrap() == current_time + period_micros,
{
    if current_time == 0 {
        None
    } else {
        Some(current_time + period_micros)
    }
}

} // verus!
