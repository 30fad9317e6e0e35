//! Instants on the UTC time line and the auto-save interval gate.
use vstd::prelude::*;

verus! {

/// Minimum spacing, in whole seconds, between two auto-saves of one document.
pub const AUTO_SAVE_INTERVAL: u64 = 30;

/// An instant on the UTC time line: whole seconds since the Unix epoch and the
/// nanoseconds elapsed within that second.
#[derive(Clone, Copy, Debug, PartialEq, Eq, Structural, PartialOrd, Ord, Hash)]
pub struct UtcInstant {
    pub secs: i64,
    pub nanos: u32,
}

impl UtcInstant {
    /// Nanoseconds since the Unix epoch.
    pub open spec fn total_nanos(self) -> int {
        self.secs as int * 1_000_000_000 + self.nanos as int
    }
}

/// Whole seconds from `from` to `to`, rounded toward zero (negative when `to`
/// lies before `from`).
pub open spec fn elapsed_whole_secs(from: UtcInstant, to: UtcInstant) -> int {
    let d = to.total_nanos() - from.total_nanos();
    if d >= 0 {
        d / 1_000_000_000
    } else {
        -((-d) / 1_000_000_000)
    }
}

/// Whether an auto-save may be taken at `now`, given the instant of the last one.
pub open spec fn auto_save_is_due(last: Option<UtcInstant>, now: UtcInstant) -> bool {
    match last {
        None => true,
        Some(t) => elapsed_whole_secs(t, now) >= AUTO_SAVE_INTERVAL,
    }
}

/// The auto-save gate: a new auto-save is taken only when none was taken yet,
/// or when at least `AUTO_SAVE_INTERVAL` whole seconds have passed since the last.
pub fn auto_save_due(last_auto_save: Option<UtcInstant>, now: UtcInstant) -> (r: bool)
    ensures
        r == auto_save_is_due(last_auto_save, now),
{
    match last_auto_save {
        None => true,
        Some(t) => {
            let d: i128 = (now.secs as i128 - t.secs as i128) * 1_000_000_000 + (now.nanos as i128
                - t.nanos as i128);
            assert(d == now.total_nanos() - t.total_nanos());
            if d >= 0 {
                assert(d >= 30_000_000_000 <==> d / 1_000_000_000 >= 30) by (nonlinear_arith)
                    requires
                        d >= 0,
                ;
            } else {
                assert((-d) / 1_000_000_000 >= 0) by (nonlinear_arith)
                    requires
                        d < 0,
                ;
            }
            d >= 30_000_000_000
        },
    }
}

/// Relies on chrono::Utc::now for the current instant, read through its
/// `timestamp` and `timestamp_subsec_nanos`: taken from the system clock, never
/// before the epoch, with the sub-second part below one second.
#[verifier::external_body]
pub(crate) fn current_instant() -> (r: UtcInstant)
    ensures
        r.secs >= 0,
        r.nanos < 1_000_000_000,
{
    let now = chrono::Utc::now();
    UtcInstant { secs: now.timestamp(), nanos: now.timestamp_subsec_nanos() }
}

} // verus!
