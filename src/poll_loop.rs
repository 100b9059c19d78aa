use vstd::prelude::*;
use crate::github::{PollError, PollOutcome, DEFAULT_POLL_SECS};

verus! {

/// What the loop does after one poll: raise an alert or not, then sleep.
#[derive(PartialEq, Eq, Structural, Clone, Copy, Debug)]
pub struct LoopStep {
    pub trigger_alert: bool,
    pub sleep_secs: u64,
}

/// The step that follows a poll result: an alert exactly when items are
/// pending, the suggested wait on success and the default wait on failure.
pub open spec fn step_for(r: Result<PollOutcome, PollError>) -> LoopStep {
    match r {
        Ok(o) => LoopStep { trigger_alert: o.item_count > 0, sleep_secs: o.next_interval_secs },
        Err(_) => LoopStep { trigger_alert: false, sleep_secs: DEFAULT_POLL_SECS },
    }
}

/// Decides the step that follows a poll result.
pub fn next_step(r: &Result<PollOutcome, PollError>) -> (s: LoopStep)
    ensures
        s == step_for(*r),
        s.trigger_alert <==> (r is Ok && r->Ok_0.item_count > 0),
{
    match r {
        Ok(o) => LoopStep { trigger_alert: o.item_count > 0, sleep_secs: o.next_interval_secs },
        Err(_) => LoopStep { trigger_alert: false, sleep_secs: DEFAULT_POLL_SECS },
    }
}

/// However many polls fail in a row, each is followed by another attempt after
/// the default wait, and none of them raises an alert.
pub proof fn lemma_failures_never_alert(results: Seq<Result<PollOutcome, PollError>>)
    requires
        forall|i: int| 0 <= i < results.len() ==> #[trigger] results[i] is Err,
    ensures
        forall|i: int|
            0 <= i < results.len() ==> !(#[trigger] step_for(results[i])).trigger_alert
                && step_for(results[i]).sleep_secs == DEFAULT_POLL_SECS,
{
}

/// An alert is raised after a poll if and only if that poll reported items.
pub proof fn lemma_alert_iff_items(r: Result<PollOutcome, PollError>)
    ensures
        step_for(r).trigger_alert <==> (r is Ok && r->Ok_0.item_count > 0),
{
}

} // verus!
