//! What a round of updates goes through, how it ends, and whether and when
//! it is followed by another.

use vstd::prelude::*;
use crate::text::{first_true, lemma_first_true, lemma_first_true_is};
use crate::types::{Config, ConfigView};

verus! {

/// Seconds in an hour.
pub const SECONDS_PER_HOUR: u64 = 3600;

/// Whether an invocation ends after its first round of updates: in run-once
/// mode, and where the update interval is 0.
pub open spec fn runs_once(once_mode: bool, update_interval_hours: u64) -> bool {
    once_mode || update_interval_hours == 0
}

/// The seconds to wait between two rounds of updates, or `None` where the
/// invocation ends after the first round.
///
/// Where another round follows, the interval must be expressible in
/// seconds.
pub fn wait_between_rounds(once_mode: bool, update_interval_hours: u64) -> (wait: Option<u64>)
    requires
        !runs_once(once_mode, update_interval_hours) ==> update_interval_hours * SECONDS_PER_HOUR
            <= u64::MAX,
    ensures
        wait == (if runs_once(once_mode, update_interval_hours) {
            None
        } else {
            Some((update_interval_hours * SECONDS_PER_HOUR) as u64)
        }),
{
    if once_mode || update_interval_hours == 0 {
        None
    } else {
        Some(update_interval_hours * SECONDS_PER_HOUR)
    }
}

/// One of the things that a round of updates brings up to date.
#[derive(Clone, Copy, Debug, PartialEq, Eq, Structural)]
pub enum RoundTask {
    /// The subscription files.
    Subscriptions,
    /// The core executable.
    Singbox,
    /// The alternative core executable.
    Mihomo,
}

/// The tasks of a round of updates, in order: the subscriptions, the core,
/// and the alternative core where it is configured.
pub open spec fn round_tasks(config: ConfigView) -> Seq<RoundTask> {
    if config.mihomo_core_update is Some {
        seq![RoundTask::Subscriptions, RoundTask::Singbox, RoundTask::Mihomo]
    } else {
        seq![RoundTask::Subscriptions, RoundTask::Singbox]
    }
}

/// The tasks of a round of updates, in order.
///
/// The tasks are laid down before any of them is begun, and every one of
/// them is gone through: how one task ends has no part in whether the next
/// is begun. Whether a core is enabled is for its own update to act on.
pub fn plan_round(config: &Config) -> (tasks: Vec<RoundTask>)
    ensures
        tasks@ == round_tasks(config@),
{
    let mut tasks: Vec<RoundTask> = Vec::new();
    tasks.push(RoundTask::Subscriptions);
    tasks.push(RoundTask::Singbox);
    if config.mihomo_core_update.is_some() {
        tasks.push(RoundTask::Mihomo);
    }
    assert(tasks@ =~= round_tasks(config@));
    tasks
}

/// The position of the first task of a round that failed, once all tasks
/// are through; `failed` says of each task, in order, whether it failed.
/// `None` says that the round succeeded.
pub fn round_failure(failed: &Vec<bool>) -> (first: Option<usize>)
    ensures
        match first {
            Some(i) => first_true(failed@) == Some(i as int),
            None => first_true(failed@) is None,
        },
{
    let mut i: usize = 0;
    while i < failed.len()
        invariant
            i <= failed.len(),
            forall|j: int| 0 <= j < i ==> !failed@[j],
        decreases failed.len() - i,
    {
        if failed[i] {
            proof {
                lemma_first_true_is(failed@, i as int);
            }
            return Some(i);
        }
        i += 1;
    }
    proof {
        lemma_first_true(failed@);
    }
    None
}

} // verus!
