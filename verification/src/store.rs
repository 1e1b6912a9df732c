//! The database side of the data service: replacing a stored launch, the
//! age after which launches are purged, and the request for upcoming
//! launches.
use vstd::prelude::*;
use crate::model::PolymorphicLaunchEndpointDetailed;
use crate::sync::{LaunchChannel, UpdatePlan, plan_update, update_changes, update_plan_spec};
use crate::time::{NetTime, rfc3339, rfc3339_text, shift_minutes, shifted_by_minutes};

verus! {

/// A database operation failed.
#[derive(Clone, Copy, Debug, PartialEq, Eq, Structural)]
pub struct MongoError;

/// Where the replacement of a stored launch stands.
#[derive(Clone, Copy, Debug, PartialEq, Eq, Structural)]
pub enum ReplaceStage {
    Deleting(LaunchChannel),
    Inserting(LaunchChannel),
    Publishing(LaunchChannel),
    Done,
}

/// The outcome of the last operation.
#[derive(Clone, Copy, Debug, PartialEq, Eq, Structural)]
pub enum ReplaceEvent {
    /// Whether the stored record was deleted.
    Deleted(bool),
    /// Whether the new record was stored.
    Inserted(bool),
    /// Whether the launch was written out and published.
    Published(bool),
}

/// The next operation of a replacement.
#[derive(Clone, Copy, Debug)]
pub enum ReplaceAction {
    /// Delete the stored record with the launch's id.
    DeleteStored,
    /// Store the new record.
    InsertNew,
    /// Publish the new record on the channel.
    Publish(LaunchChannel),
    /// The update is over, with this outcome.
    Finish(Result<(), MongoError>),
}

/// How an update begins: nothing to do for an unchanged launch, else the
/// stored record is deleted first.
pub open spec fn replace_begin(plan: UpdatePlan) -> (ReplaceStage, ReplaceAction) {
    match plan {
        UpdatePlan::Unchanged => (ReplaceStage::Done, ReplaceAction::Finish(Ok(()))),
        UpdatePlan::Replace(c) => (ReplaceStage::Deleting(c), ReplaceAction::DeleteStored),
    }
}

/// One step of a replacement: delete, then store, then publish; the first
/// failure ends the update with an error, and nothing is published after it.
pub open spec fn replace_step(stage: ReplaceStage, event: ReplaceEvent) -> (ReplaceStage, ReplaceAction) {
    match (stage, event) {
        (ReplaceStage::Deleting(c), ReplaceEvent::Deleted(true)) => (ReplaceStage::Inserting(c), ReplaceAction::InsertNew),
        (ReplaceStage::Inserting(c), ReplaceEvent::Inserted(true)) => (ReplaceStage::Publishing(c), ReplaceAction::Publish(c)),
        (ReplaceStage::Publishing(_), ReplaceEvent::Published(true)) => (ReplaceStage::Done, ReplaceAction::Finish(Ok(()))),
        _ => (ReplaceStage::Done, ReplaceAction::Finish(Err(MongoError))),
    }
}

/// When every operation succeeds, the update of a changed launch deletes
/// the stored record, stores the new one, publishes it on the plan's
/// channel and ends well, which is the step [`crate::sync::sync_outcome`]
/// takes for it; the update of an unchanged launch ends at once.
pub proof fn lemma_update_when_all_succeed(plan: UpdatePlan)
    ensures
        match plan {
            UpdatePlan::Unchanged => replace_begin(plan) == (ReplaceStage::Done, ReplaceAction::Finish(Ok(()))),
            UpdatePlan::Replace(c) => {
                &&& replace_begin(plan) == (ReplaceStage::Deleting(c), ReplaceAction::DeleteStored)
                &&& replace_step(ReplaceStage::Deleting(c), ReplaceEvent::Deleted(true)) == (ReplaceStage::Inserting(c), ReplaceAction::InsertNew)
                &&& replace_step(ReplaceStage::Inserting(c), ReplaceEvent::Inserted(true)) == (ReplaceStage::Publishing(c), ReplaceAction::Publish(c))
                &&& replace_step(ReplaceStage::Publishing(c), ReplaceEvent::Published(true)) == (ReplaceStage::Done, ReplaceAction::Finish(Ok(())))
            },
        },
{
}

/// A replacement publishes only after the stored record was deleted and
/// the new one stored, and on the plan's channel; any failed operation ends
/// the update with an error, so nothing is published after a failure.
pub proof fn lemma_replace_failures(plan: UpdatePlan)
    ensures
        forall|stage: ReplaceStage, event: ReplaceEvent| #[trigger] replace_step(stage, event).1 is Publish
            ==> (stage matches ReplaceStage::Inserting(c) && event == ReplaceEvent::Inserted(true)
                && replace_step(stage, event).1 == ReplaceAction::Publish(c)),
        forall|c: LaunchChannel| #[trigger] replace_step(ReplaceStage::Inserting(c), ReplaceEvent::Inserted(true)).1
            == ReplaceAction::Publish(c),
        forall|stage: ReplaceStage, event: ReplaceEvent|
            (event == ReplaceEvent::Deleted(false) || event == ReplaceEvent::Inserted(false) || event == ReplaceEvent::Published(false))
                ==> #[trigger] replace_step(stage, event) == (ReplaceStage::Done, ReplaceAction::Finish(Err(MongoError))),
        forall|stage: ReplaceStage, event: ReplaceEvent|
            #[trigger] replace_step(stage, event).1 == ReplaceAction::Finish(Ok(()))
                <==> (stage is Publishing && event == ReplaceEvent::Published(true)),
        replace_begin(plan).1 == ReplaceAction::Finish(Ok(())) <==> plan == UpdatePlan::Unchanged,
{
}

/// The update of a stored launch that the library reported again.
pub struct LaunchUpdate {
    pub stage: ReplaceStage,
}

impl LaunchUpdate {
    /// Starts the update of the stored record `current` with `new`; see
    /// [`plan_update`].
    pub fn begin(new: &PolymorphicLaunchEndpointDetailed, current: &PolymorphicLaunchEndpointDetailed) -> (r: (LaunchUpdate, ReplaceAction))
        requires
            new.net.wf(),
            current.net.wf(),
            update_changes(*new, *current) ==> shifted_by_minutes(current.net, 30) is Some,
        ensures
            (r.0.stage, r.1) == replace_begin(update_plan_spec(*new, *current)),
    {
        match plan_update(new, current) {
            UpdatePlan::Unchanged => (LaunchUpdate { stage: ReplaceStage::Done }, ReplaceAction::Finish(Ok(()))),
            UpdatePlan::Replace(c) => (LaunchUpdate { stage: ReplaceStage::Deleting(c) }, ReplaceAction::DeleteStored),
        }
    }

    /// Reports the outcome of the last operation and returns the next one.
    pub fn step(&mut self, event: ReplaceEvent) -> (action: ReplaceAction)
        ensures
            (final(self).stage, action) == replace_step(old(self).stage, event),
    {
        let (stage, action) = match (self.stage, event) {
            (ReplaceStage::Deleting(c), ReplaceEvent::Deleted(true)) => (ReplaceStage::Inserting(c), ReplaceAction::InsertNew),
            (ReplaceStage::Inserting(c), ReplaceEvent::Inserted(true)) => (ReplaceStage::Publishing(c), ReplaceAction::Publish(c)),
            (ReplaceStage::Publishing(_), ReplaceEvent::Published(true)) => (ReplaceStage::Done, ReplaceAction::Finish(Ok(()))),
            _ => (ReplaceStage::Done, ReplaceAction::Finish(Err(MongoError))),
        };
        self.stage = stage;
        action
    }
}

/// Launches whose NET is older than this are purged: seven days before `now`.
pub open spec fn purge_cutoff_time(now: NetTime) -> Option<NetTime> {
    shifted_by_minutes(now, -7 * 24 * 60)
}

/// Whether `chrono` can compute the purge cutoff for the time `now`.
pub fn purge_cutoff_is_defined(now: &NetTime) -> (r: bool)
    requires
        now.wf(),
    ensures
        r == purge_cutoff_time(*now) is Some,
{
    shift_minutes(now, -7 * 24 * 60).is_some()
}

/// The RFC 3339 text of the purge cutoff for the time `now`, which the
/// stored NETs are compared with.
pub fn purge_cutoff(now: &NetTime) -> (s: String)
    requires
        now.wf(),
        purge_cutoff_time(*now) is Some,
    ensures
        s@ == rfc3339_text(purge_cutoff_time(*now).unwrap().secs as int, purge_cutoff_time(*now).unwrap().nanos as int),
{
    let cutoff = shift_minutes(now, -7 * 24 * 60).unwrap();
    rfc3339(&cutoff)
}

/// The request for upcoming launches: the address and the query parameters.
pub struct LaunchQuery {
    pub url: String,
    pub params: Vec<(String, String)>,
}

/// Up to 100 upcoming launches, in detailed JSON, from the Launch Library 2.3.0.
pub fn upcoming_launches_query() -> (q: LaunchQuery)
    ensures
        q.url@ == "https://ll.thespacedevs.com/2.3.0/launches/upcoming/"@,
        q.params@.len() == 3,
        q.params@[0].0@ == "limit"@ && q.params@[0].1@ == "100"@,
        q.params@[1].0@ == "format"@ && q.params@[1].1@ == "json"@,
        q.params@[2].0@ == "mode"@ && q.params@[2].1@ == "detailed"@,
{
    let mut params: Vec<(String, String)> = Vec::new();
    params.push((String::from_str("limit"), String::from_str("100")));
    params.push((String::from_str("format"), String::from_str("json")));
    params.push((String::from_str("mode"), String::from_str("detailed")));
    LaunchQuery { url: String::from_str("https://ll.thespacedevs.com/2.3.0/launches/upcoming/"), params }
}

} // verus!
