//! Keeping the launch database in step with the launch library: which
//! launches are tracked, in what order they are handled, when a stored
//! launch is replaced and on which channel the change is announced, and
//! the sequence of database and channel operations of one synchronisation.
use vstd::prelude::*;
use crate::model::{LaunchStatus, PolymorphicLaunchEndpointDetailed};
use crate::text::text_is;
use crate::time::{MAX_TIMESTAMP, MIN_TIMESTAMP, NANOS_PER_SEC, NetTime, shift_minutes, shifted_by_minutes};

verus! {

/// Whether `a` is no later than `b`.
pub open spec fn net_le(a: NetTime, b: NetTime) -> bool {
    !a.is_later_than(b)
}

/// Launches in order of their NET.
pub open spec fn sorted_by_net(s: Seq<PolymorphicLaunchEndpointDetailed>) -> bool {
    forall|a: int, b: int| 0 <= a < b < s.len() ==> net_le(#[trigger] s[a].net, #[trigger] s[b].net)
}

/// `output` holds the launches of `input` rearranged: its `k`-th launch is
/// the `perm[k]`-th of `input`, and each launch of `input` is used exactly once.
pub open spec fn rearranges(
    input: Seq<PolymorphicLaunchEndpointDetailed>,
    output: Seq<PolymorphicLaunchEndpointDetailed>,
    perm: Seq<int>,
) -> bool {
    &&& perm.len() == input.len()
    &&& output.len() == input.len()
    &&& forall|k: int| 0 <= k < perm.len() ==> 0 <= #[trigger] perm[k] < input.len() && output[k] == input[perm[k]]
    &&& forall|a: int, b: int| 0 <= a < b < perm.len() ==> #[trigger] perm[a] != #[trigger] perm[b]
    &&& forall|m: int| 0 <= m < input.len() ==> #[trigger] picks(perm, m)
}

/// Some position of `perm` holds `m`.
pub open spec fn picks(perm: Seq<int>, m: int) -> bool {
    exists|k: int| 0 <= k < perm.len() && #[trigger] perm[k] == m
}

/// `output` is `input` sorted by NET, launches with the same NET keeping
/// their relative order.
pub open spec fn is_stable_sort_by_net(
    input: Seq<PolymorphicLaunchEndpointDetailed>,
    output: Seq<PolymorphicLaunchEndpointDetailed>,
) -> bool {
    &&& sorted_by_net(output)
    &&& exists|perm: Seq<int>|
        {
            &&& #[trigger] rearranges(input, output, perm)
            &&& forall|a: int, b: int|
                0 <= a < b < output.len() && output[a].net == output[b].net ==> #[trigger] perm[a] < #[trigger] perm[b]
        }
}

/// Sorts launches by NET; launches with the same NET keep their order.
pub fn sort_by_net(launches: Vec<PolymorphicLaunchEndpointDetailed>) -> (sorted: Vec<PolymorphicLaunchEndpointDetailed>)
    ensures
        is_stable_sort_by_net(launches@, sorted@),
{
    let ghost input = launches@;
    let mut rest = launches;
    let mut out: Vec<PolymorphicLaunchEndpointDetailed> = Vec::new();
    let ghost mut perm: Seq<int> = Seq::empty();
    while rest.len() > 0
        invariant
            rest@ =~= input.subrange(0, rest@.len() as int),
            rest@.len() <= input.len(),
            out@.len() + rest@.len() == input.len(),
            perm.len() == out@.len(),
            forall|k: int| 0 <= k < perm.len() ==> rest@.len() <= #[trigger] perm[k] < input.len() && out@[k] == input[perm[k]],
            forall|a: int, b: int| 0 <= a < b < perm.len() ==> #[trigger] perm[a] != #[trigger] perm[b],
            forall|m: int| rest@.len() <= m < input.len() ==> #[trigger] picks(perm, m),
            sorted_by_net(out@),
            forall|a: int, b: int|
                0 <= a < b < out@.len() && out@[a].net == out@[b].net ==> #[trigger] perm[a] < #[trigger] perm[b],
        decreases rest.len(),
    {
        let ghost before = out@;
        let ghost old_perm = perm;
        let x = rest.pop().unwrap();
        let i = rest.len();
        assert(x == input[i as int]);
        let mut p: usize = 0;
        while p < out.len() && x.net.later_than(&out[p].net)
            invariant
                p <= out@.len(),
                out@ == before,
                forall|k: int| 0 <= k < p ==> x.net.is_later_than(#[trigger] out@[k].net),
            decreases out@.len() - p,
        {
            p = p + 1;
        }
        assert forall|k: int| p <= k < before.len() implies net_le(x.net, #[trigger] before[k].net) by {
            assert(net_le(before[p as int].net, before[k].net) || k == p);
        }
        out.insert(p, x);
        proof {
            perm = perm.insert(p as int, i as int);
            assert forall|k: int| 0 <= k < perm.len() implies rest@.len() <= #[trigger] perm[k] < input.len()
                && out@[k] == input[perm[k]] by {
                if k < p {
                    assert(perm[k] == old_perm[k]);
                } else if k > p {
                    assert(perm[k] == old_perm[k - 1]);
                }
            }
            assert forall|a: int, b: int| 0 <= a < b < perm.len() implies #[trigger] perm[a] != #[trigger] perm[b] by {
                if a < p && b < p {
                    assert(old_perm[a] != old_perm[b]);
                } else if a > p && b > p {
                    assert(old_perm[a - 1] != old_perm[b - 1]);
                } else if a < p && b > p {
                    assert(old_perm[a] != old_perm[b - 1]);
                } else if a == p {
                    assert(old_perm[b - 1] > i);
                } else {
                    assert(old_perm[a] > i);
                }
            }
            assert forall|m: int| rest@.len() <= m < input.len() implies #[trigger] picks(perm, m) by {
                if m == i {
                    assert(perm[p as int] == m);
                } else {
                    assert(picks(old_perm, m));
                    let k0 = choose|k: int| 0 <= k < old_perm.len() && #[trigger] old_perm[k] == m;
                    if k0 < p {
                        assert(perm[k0] == m);
                    } else {
                        assert(perm[k0 + 1] == m);
                    }
                }
            }
            assert forall|a: int, b: int| 0 <= a < b < out@.len() implies net_le(#[trigger] out@[a].net, #[trigger] out@[b].net) by {
                if a < p && b < p {
                    assert(net_le(before[a].net, before[b].net));
                } else if a > p && b > p {
                    assert(net_le(before[a - 1].net, before[b - 1].net));
                } else if a < p && b > p {
                    assert(net_le(before[a].net, before[b - 1].net));
                } else if a == p {
                    assert(net_le(x.net, before[b - 1].net));
                } else {
                    assert(x.net.is_later_than(before[a].net));
                }
            }
            assert forall|a: int, b: int|
                0 <= a < b < out@.len() && out@[a].net == out@[b].net implies #[trigger] perm[a] < #[trigger] perm[b] by {
                if a < p && b < p {
                    assert(old_perm[a] < old_perm[b]);
                } else if a > p && b > p {
                    assert(old_perm[a - 1] < old_perm[b - 1]);
                } else if a < p && b > p {
                    assert(x.net.is_later_than(before[a].net));
                    assert(net_le(x.net, before[b - 1].net));
                } else if a == p {
                    assert(old_perm[b - 1] > i);
                } else {
                    assert(x.net.is_later_than(before[a].net));
                }
            }
        }
    }
    assert(rearranges(input, out@, perm));
    out
}


/// Providers whose launches are not followed.
pub open spec fn is_excluded_provider(abbrev: Seq<char>) -> bool {
    abbrev == "CASC"@ || abbrev == "MHI"@ || abbrev == "Space One"@ || abbrev == "ISRO"@ || abbrev == "CAS"@
        || abbrev == "GE"@
}

/// A launch that is stored and followed: it has a status other than "to be
/// determined" and "to be confirmed", and a provider that is not excluded.
pub open spec fn is_tracked(l: PolymorphicLaunchEndpointDetailed) -> bool {
    &&& l.status matches Some(s) && s.id != LaunchStatus::Tbd && s.id != LaunchStatus::Tbc
    &&& l.launch_service_provider matches Some(p) && !is_excluded_provider(p.abbrev@)
}

/// Whether a launch is stored and followed; see [`is_tracked`].
pub fn is_tracked_launch(l: &PolymorphicLaunchEndpointDetailed) -> (r: bool)
    ensures
        r == is_tracked(*l),
{
    match &l.status {
        Some(s) => {
            if s.id == LaunchStatus::Tbd || s.id == LaunchStatus::Tbc {
                return false;
            }
        },
        None => return false,
    }
    match &l.launch_service_provider {
        Some(p) => {
            let a = &p.abbrev;
            !(text_is(a, "CASC") || text_is(a, "MHI")
                || text_is(a, "Space One") || text_is(a, "ISRO")
                || text_is(a, "CAS") || text_is(a, "GE"))
        },
        None => false,
    }
}

/// A launch is followed exactly when it has a status other than TBD and TBC
/// and a provider whose abbreviation is none of "CASC", "MHI", "Space One",
/// "ISRO", "CAS" and "GE". In particular a SpaceX ("SpX") launch that is GO,
/// on hold, in flight, successful, failed, partly failed or past payload
/// deployment is followed: a synchronisation that fetched it alone begins
/// by looking it up.
pub proof fn lemma_tracked_launches(l: PolymorphicLaunchEndpointDetailed)
    ensures
        is_tracked(l) <==> ({
            &&& l.status matches Some(s) && s.id != LaunchStatus::Tbd && s.id != LaunchStatus::Tbc
            &&& l.launch_service_provider matches Some(p) && p.abbrev@ != "CASC"@ && p.abbrev@ != "MHI"@
                && p.abbrev@ != "Space One"@ && p.abbrev@ != "ISRO"@ && p.abbrev@ != "CAS"@ && p.abbrev@ != "GE"@
        }),
        ({
            &&& l.status matches Some(s) && (s.id == LaunchStatus::Go || s.id == LaunchStatus::Hold
                || s.id == LaunchStatus::InFlight || s.id == LaunchStatus::Success || s.id == LaunchStatus::Failure
                || s.id == LaunchStatus::PartialFailure || s.id == LaunchStatus::PayloadDeployed)
            &&& l.launch_service_provider matches Some(p) && p.abbrev@ == "SpX"@
        }) ==> {
            &&& is_tracked(l)
            &&& forall|sorted: Seq<PolymorphicLaunchEndpointDetailed>| is_stable_sort_by_net(seq![l], sorted)
                ==> #[trigger] scan_from(sorted, 0) == (SyncStage::AwaitLookup(0), SyncAction::LookUp(0))
        },
{
    if l.launch_service_provider matches Some(p) && p.abbrev@ == "SpX"@ {
        reveal_strlit("SpX");
        reveal_strlit("CASC");
        reveal_strlit("MHI");
        reveal_strlit("Space One");
        reveal_strlit("ISRO");
        reveal_strlit("CAS");
        reveal_strlit("GE");
        assert("SpX"@ != "CASC"@ && "SpX"@ != "Space One"@ && "SpX"@ != "ISRO"@ && "SpX"@ != "GE"@) by {
            assert("SpX"@.len() == 3);
        }
        assert("SpX"@ != "MHI"@ && "SpX"@ != "CAS"@) by {
            assert("SpX"@[0] == 'S' && "MHI"@[0] == 'M' && "CAS"@[0] == 'C');
        }
    }
    assert forall|sorted: Seq<PolymorphicLaunchEndpointDetailed>| is_tracked(l) && is_stable_sort_by_net(seq![l], sorted)
        implies #[trigger] scan_from(sorted, 0) == (SyncStage::AwaitLookup(0), SyncAction::LookUp(0)) by {
        let perm = choose|perm: Seq<int>| #[trigger] rearranges(seq![l], sorted, perm) && forall|a: int, b: int|
            0 <= a < b < sorted.len() && sorted[a].net == sorted[b].net ==> #[trigger] perm[a] < #[trigger] perm[b];
        assert(0 <= perm[0] < 1);
        assert(sorted[0] == l);
        assert(sorted.len() == 1);
        assert(first_tracked_from(sorted, 0) == Some(0int));
    }
}

/// The channels on which launch changes are announced.
#[derive(Clone, Copy, Debug, PartialEq, Eq, Structural)]
pub enum LaunchChannel {
    /// "new_launches": a launch seen for the first time, and GO.
    NewLaunches,
    /// "scrubbed_launches": a launch moved more than 30 minutes later.
    ScrubbedLaunches,
    /// "updated_launches": any other change of status or NET.
    UpdatedLaunches,
}

pub open spec fn channel_name(c: LaunchChannel) -> Seq<char> {
    match c {
        LaunchChannel::NewLaunches => "new_launches"@,
        LaunchChannel::ScrubbedLaunches => "scrubbed_launches"@,
        LaunchChannel::UpdatedLaunches => "updated_launches"@,
    }
}

/// The channels are named "new_launches", "scrubbed_launches" and
/// "updated_launches", and no two share a name.
pub proof fn lemma_channel_names()
    ensures
        channel_name(LaunchChannel::NewLaunches) == "new_launches"@,
        channel_name(LaunchChannel::ScrubbedLaunches) == "scrubbed_launches"@,
        channel_name(LaunchChannel::UpdatedLaunches) == "updated_launches"@,
        forall|a: LaunchChannel, b: LaunchChannel| #[trigger] channel_name(a) == #[trigger] channel_name(b) ==> a == b,
{
    reveal_strlit("new_launches");
    reveal_strlit("scrubbed_launches");
    reveal_strlit("updated_launches");
}

impl LaunchChannel {
    /// The name of the channel.
    pub fn name(&self) -> (s: &'static str)
        ensures
            s@ == channel_name(*self),
    {
        match self {
            LaunchChannel::NewLaunches => "new_launches",
            LaunchChannel::ScrubbedLaunches => "scrubbed_launches",
            LaunchChannel::UpdatedLaunches => "updated_launches",
        }
    }
}

/// What to do with a stored launch when the library reports it again.
#[derive(Clone, Copy, Debug, PartialEq, Eq, Structural)]
pub enum UpdatePlan {
    /// Keep the stored record; announce nothing.
    Unchanged,
    /// Replace the stored record with the new one and announce it on the channel.
    Replace(LaunchChannel),
}

/// Whether a change of a stored launch requires shifting its NET, which
/// `chrono` must be able to represent.
pub open spec fn update_changes(new: PolymorphicLaunchEndpointDetailed, current: PolymorphicLaunchEndpointDetailed) -> bool {
    &&& new.status matches Some(ns)
    &&& current.status matches Some(cs)
    &&& !(ns.id == cs.id && new.net == current.net)
}

/// A stored launch is replaced when both records have a status and the
/// status or the NET differs; the change is a scrub when the new NET is
/// more than 30 minutes after the stored one.
pub open spec fn update_plan_spec(new: PolymorphicLaunchEndpointDetailed, current: PolymorphicLaunchEndpointDetailed) -> UpdatePlan {
    if update_changes(new, current) {
        if new.net.is_later_than(shifted_by_minutes(current.net, 30).unwrap()) {
            UpdatePlan::Replace(LaunchChannel::ScrubbedLaunches)
        } else {
            UpdatePlan::Replace(LaunchChannel::UpdatedLaunches)
        }
    } else {
        UpdatePlan::Unchanged
    }
}

/// Decides what to do with the stored record `current` of a launch that the
/// library now reports as `new`; see [`update_plan_spec`].
pub fn plan_update(new: &PolymorphicLaunchEndpointDetailed, current: &PolymorphicLaunchEndpointDetailed) -> (r: UpdatePlan)
    requires
        new.net.wf(),
        current.net.wf(),
        update_changes(*new, *current) ==> shifted_by_minutes(current.net, 30) is Some,
    ensures
        r == update_plan_spec(*new, *current),
{
    let new_status = match &new.status {
        Some(s) => s,
        None => return UpdatePlan::Unchanged,
    };
    let current_status = match &current.status {
        Some(s) => s,
        None => return UpdatePlan::Unchanged,
    };
    if new_status.id == current_status.id && new.net == current.net {
        return UpdatePlan::Unchanged;
    }
    let limit = shift_minutes(&current.net, 30).unwrap();
    if new.net.later_than(&limit) {
        UpdatePlan::Replace(LaunchChannel::ScrubbedLaunches)
    } else {
        UpdatePlan::Replace(LaunchChannel::UpdatedLaunches)
    }
}

/// Whether [`plan_update`] can decide on these records: `chrono` can shift
/// the stored NET by 30 minutes whenever the launch changed.
pub fn update_is_defined(new: &PolymorphicLaunchEndpointDetailed, current: &PolymorphicLaunchEndpointDetailed) -> (r: bool)
    requires
        current.net.wf(),
    ensures
        r == (update_changes(*new, *current) ==> shifted_by_minutes(current.net, 30) is Some),
{
    match (&new.status, &current.status) {
        (Some(ns), Some(cs)) => {
            if ns.id == cs.id && new.net == current.net {
                true
            } else {
                shift_minutes(&current.net, 30).is_some()
            }
        },
        _ => true,
    }
}

/// A launch whose status and NET are unchanged, or where either record has
/// no status, is never replaced, and a launch is only announced as scrubbed
/// when its NET moved later by more than 30 minutes.
pub proof fn lemma_update_plan(new: PolymorphicLaunchEndpointDetailed, current: PolymorphicLaunchEndpointDetailed)
    requires
        current.net.wf(),
        update_changes(new, current) ==> shifted_by_minutes(current.net, 30) is Some,
    ensures
        (new.status matches Some(ns) && current.status matches Some(cs) && ns.id == cs.id && new.net == current.net)
            ==> update_plan_spec(new, current) == UpdatePlan::Unchanged,
        (new.status is None || current.status is None) ==> update_plan_spec(new, current) == UpdatePlan::Unchanged,
        update_plan_spec(new, current) == UpdatePlan::Replace(LaunchChannel::ScrubbedLaunches)
            ==> new.net.secs >= current.net.secs + 1800 && new.net.is_later_than(current.net),
        update_plan_spec(new, current) != UpdatePlan::Replace(LaunchChannel::NewLaunches),
{
}

/// When both records have a status and the status or the NET changed, the
/// stored launch is replaced; the change goes to "scrubbed_launches" exactly
/// when the new NET is later than the stored NET shifted by 30 minutes,
/// whatever the two statuses are, and to "updated_launches" otherwise.
/// Outside a leap second that is: more than 1800 seconds later.
pub proof fn lemma_update_channel(new: PolymorphicLaunchEndpointDetailed, current: PolymorphicLaunchEndpointDetailed)
    requires
        new.status is Some,
        current.status is Some,
        new.status.unwrap().id != current.status.unwrap().id || new.net != current.net,
    ensures
        shifted_by_minutes(current.net, 30) matches Some(limit) ==> {
            &&& update_plan_spec(new, current) == UpdatePlan::Replace(LaunchChannel::ScrubbedLaunches)
                <==> new.net.is_later_than(limit)
            &&& update_plan_spec(new, current) == UpdatePlan::Replace(LaunchChannel::UpdatedLaunches)
                <==> !new.net.is_later_than(limit)
        },
        (current.net.nanos < NANOS_PER_SEC && MIN_TIMESTAMP <= current.net.secs && current.net.secs + 1800 <= MAX_TIMESTAMP)
            ==> {
            let later = new.net.secs > current.net.secs + 1800
                || (new.net.secs == current.net.secs + 1800 && new.net.nanos > current.net.nanos);
            &&& update_plan_spec(new, current) == UpdatePlan::Replace(LaunchChannel::ScrubbedLaunches) <==> later
            &&& update_plan_spec(new, current) == UpdatePlan::Replace(LaunchChannel::UpdatedLaunches) <==> !later
        },
{
}


/// The first tracked launch at or after position `from`.
pub open spec fn first_tracked_from(s: Seq<PolymorphicLaunchEndpointDetailed>, from: int) -> Option<int>
    decreases s.len() - from,
{
    if from < 0 || from >= s.len() {
        None
    } else if is_tracked(s[from]) {
        Some(from)
    } else {
        first_tracked_from(s, from + 1)
    }
}

/// The first tracked launch at or after `from` is tracked, and every launch
/// before it is not; with none, no launch from `from` on is tracked.
pub proof fn lemma_first_tracked_from(s: Seq<PolymorphicLaunchEndpointDetailed>, from: int)
    requires
        0 <= from,
    ensures
        first_tracked_from(s, from) matches Some(j) ==> from <= j < s.len() && is_tracked(s[j])
            && forall|k: int| from <= k < j ==> !is_tracked(#[trigger] s[k]),
        first_tracked_from(s, from) is None ==> forall|k: int| from <= k < s.len() ==> !is_tracked(#[trigger] s[k]),
    decreases s.len() - from,
{
    if from < s.len() && !is_tracked(s[from]) {
        lemma_first_tracked_from(s, from + 1);
    }
}

/// Where a synchronisation stands: waiting for the outcome of an operation on
/// the launch at the given position, or finished.
#[derive(Clone, Copy, Debug, PartialEq, Eq, Structural)]
pub enum SyncStage {
    AwaitLookup(usize),
    AwaitUpdate(usize),
    AwaitAdd(usize),
    AwaitAnnounce(usize),
    Finished,
}

/// The outcome of the last operation.
#[derive(Clone, Copy, Debug, PartialEq, Eq, Structural)]
pub enum SyncEvent {
    /// The launch is already stored.
    Found,
    /// The launch is not stored yet.
    NotFound,
    /// The stored launch was updated, or the update failed (either way the
    /// synchronisation goes on).
    Updated,
    Added,
    AddFailed,
    Announced,
    AnnounceFailed,
}

/// The next operation to perform on the launch at the given position.
#[derive(Clone, Copy, Debug, PartialEq, Eq, Structural)]
pub enum SyncAction {
    /// Look the launch up in the database by its id.
    LookUp(usize),
    /// Bring the stored record up to date (see [`plan_update`]).
    Update(usize),
    /// Store the launch.
    Add(usize),
    /// Publish the launch on the "new_launches" channel.
    AnnounceNew(usize),
    /// The synchronisation is over.
    Stop,
}

/// Moves on to the first tracked launch at or after `from`, or finishes.
pub open spec fn scan_from(s: Seq<PolymorphicLaunchEndpointDetailed>, from: int) -> (SyncStage, SyncAction) {
    match first_tracked_from(s, from) {
        Some(j) => (SyncStage::AwaitLookup(j as usize), SyncAction::LookUp(j as usize)),
        None => (SyncStage::Finished, SyncAction::Stop),
    }
}

/// One step of a synchronisation: a launch that is stored is updated; one
/// that is not is added, and if adding fails the synchronisation ends; a
/// newly added launch that is GO is announced, and if that fails the
/// synchronisation ends; then the next tracked launch is looked up. An
/// event that does not answer the pending operation ends the synchronisation.
pub open spec fn sync_step(s: Seq<PolymorphicLaunchEndpointDetailed>, stage: SyncStage, event: SyncEvent) -> (SyncStage, SyncAction) {
    match (stage, event) {
        (SyncStage::AwaitLookup(j), SyncEvent::Found) => (SyncStage::AwaitUpdate(j), SyncAction::Update(j)),
        (SyncStage::AwaitLookup(j), SyncEvent::NotFound) => (SyncStage::AwaitAdd(j), SyncAction::Add(j)),
        (SyncStage::AwaitUpdate(j), SyncEvent::Updated) => scan_from(s, j + 1),
        (SyncStage::AwaitAdd(j), SyncEvent::Added) => match s[j as int].status {
            Some(st) => if st.id == LaunchStatus::Go {
                (SyncStage::AwaitAnnounce(j), SyncAction::AnnounceNew(j))
            } else {
                scan_from(s, j + 1)
            },
            None => (SyncStage::Finished, SyncAction::Stop),
        },
        (SyncStage::AwaitAnnounce(j), SyncEvent::Announced) => scan_from(s, j + 1),
        _ => (SyncStage::Finished, SyncAction::Stop),
    }
}

/// The position a stage refers to.
pub open spec fn stage_index(stage: SyncStage) -> Option<int> {
    match stage {
        SyncStage::AwaitLookup(j) => Some(j as int),
        SyncStage::AwaitUpdate(j) => Some(j as int),
        SyncStage::AwaitAdd(j) => Some(j as int),
        SyncStage::AwaitAnnounce(j) => Some(j as int),
        SyncStage::Finished => None,
    }
}

/// The position an action refers to.
pub open spec fn action_index(action: SyncAction) -> Option<int> {
    match action {
        SyncAction::LookUp(j) => Some(j as int),
        SyncAction::Update(j) => Some(j as int),
        SyncAction::Add(j) => Some(j as int),
        SyncAction::AnnounceNew(j) => Some(j as int),
        SyncAction::Stop => None,
    }
}

/// One synchronisation of the database with the launches fetched from the
/// library, driven by the caller: it performs each action returned and
/// reports the outcome to [`LaunchSync::step`].
pub struct LaunchSync {
    /// The fetched launches, in order of NET.
    pub launches: Vec<PolymorphicLaunchEndpointDetailed>,
    pub stage: SyncStage,
}

impl LaunchSync {
    /// The launches are sorted by NET and the stage refers to a tracked launch.
    pub open spec fn wf(self) -> bool {
        &&& sorted_by_net(self.launches@)
        &&& stage_index(self.stage) matches Some(j) ==> 0 <= j < self.launches@.len()
            && is_tracked(self.launches@[j])
    }

    fn scan(launches: &Vec<PolymorphicLaunchEndpointDetailed>, from: usize) -> (r: (SyncStage, SyncAction))
        requires
            from <= launches@.len(),
        ensures
            r == scan_from(launches@, from as int),
    {
        let mut j = from;
        while j < launches.len() && !is_tracked_launch(&launches[j])
            invariant
                from <= j <= launches@.len(),
                first_tracked_from(launches@, from as int) == first_tracked_from(launches@, j as int),
            decreases launches@.len() - j,
        {
            j = j + 1;
        }
        if j < launches.len() {
            (SyncStage::AwaitLookup(j), SyncAction::LookUp(j))
        } else {
            (SyncStage::Finished, SyncAction::Stop)
        }
    }

    /// Starts a synchronisation: sorts the fetched launches by NET and asks
    /// for the lookup of the first tracked one.
    pub fn begin(fetched: Vec<PolymorphicLaunchEndpointDetailed>) -> (r: (LaunchSync, SyncAction))
        ensures
            is_stable_sort_by_net(fetched@, r.0.launches@),
            (r.0.stage, r.1) == scan_from(r.0.launches@, 0),
            r.0.wf(),
    {
        let launches = sort_by_net(fetched);
        let (stage, action) = Self::scan(&launches, 0);
        proof {
            lemma_first_tracked_from(launches@, 0);
            assert(launches@.len() == launches.len());
        }
        (LaunchSync { launches, stage }, action)
    }

    /// Reports the outcome of the last action and returns the next one.
    pub fn step(&mut self, event: SyncEvent) -> (action: SyncAction)
        requires
            old(self).wf(),
        ensures
            (final(self).stage, action) == sync_step(old(self).launches@, old(self).stage, event),
            final(self).launches@ == old(self).launches@,
            final(self).wf(),
    {
        proof {
            assert(self.launches@.len() == self.launches.len());
        }
        let (stage, action) = match (self.stage, event) {
            (SyncStage::AwaitLookup(j), SyncEvent::Found) => (SyncStage::AwaitUpdate(j), SyncAction::Update(j)),
            (SyncStage::AwaitLookup(j), SyncEvent::NotFound) => (SyncStage::AwaitAdd(j), SyncAction::Add(j)),
            (SyncStage::AwaitUpdate(j), SyncEvent::Updated) => Self::scan(&self.launches, j + 1),
            (SyncStage::AwaitAdd(j), SyncEvent::Added) => match &self.launches[j].status {
                Some(st) => if st.id == LaunchStatus::Go {
                    (SyncStage::AwaitAnnounce(j), SyncAction::AnnounceNew(j))
                } else {
                    Self::scan(&self.launches, j + 1)
                },
                None => (SyncStage::Finished, SyncAction::Stop),
            },
            (SyncStage::AwaitAnnounce(j), SyncEvent::Announced) => Self::scan(&self.launches, j + 1),
            _ => (SyncStage::Finished, SyncAction::Stop),
        };
        proof {
            if let Some(j) = stage_index(self.stage) {
                lemma_first_tracked_from(self.launches@, j + 1);
            }
        }
        self.stage = stage;
        action
    }
}

/// Over a synchronisation: every operation concerns a tracked launch; a
/// launch is announced only when it is GO; a step never goes back to an
/// earlier launch, and the launches it passes over are untracked, so the
/// tracked launches are handled one by one in order of NET; and once
/// finished, a synchronisation stays finished.
pub proof fn lemma_sync_step(sync: LaunchSync, event: SyncEvent)
    requires
        sync.wf(),
    ensures
        ({
            let s = sync.launches@;
            let (stage, action) = sync_step(s, sync.stage, event);
            &&& action_index(action) matches Some(j) ==> 0 <= j < s.len() && is_tracked(s[j])
            &&& action is AnnounceNew ==> (s[action_index(action).unwrap()].status matches Some(st)
                && st.id == LaunchStatus::Go)
            &&& action_index(action) == stage_index(stage)
            &&& stage_index(sync.stage) matches Some(i) ==> stage_index(stage) matches Some(j) ==> {
                &&& i <= j
                &&& net_le(s[i].net, s[j].net)
                &&& forall|k: int| i < k < j ==> !is_tracked(#[trigger] s[k])
            }
            &&& sync.stage == SyncStage::Finished ==> stage == SyncStage::Finished && action == SyncAction::Stop
        }),
{
    let s = sync.launches@;
    assert(s.len() <= usize::MAX) by {
        assert(s.len() == sync.launches.len());
    }
    if let Some(i) = stage_index(sync.stage) {
        lemma_first_tracked_from(s, i + 1);
    }
}


/// The launches of a sequence have pairwise different ids.
pub open spec fn distinct_ids(s: Seq<PolymorphicLaunchEndpointDetailed>) -> bool {
    forall|a: int, b: int| 0 <= a < b < s.len() ==> #[trigger] s[a].id@ != #[trigger] s[b].id@
}

/// The launch database as the synchronisation sees it: the record stored
/// under each launch id.
pub type LaunchStore = Map<Seq<char>, PolymorphicLaunchEndpointDetailed>;

/// What a synchronisation does from position `from` on when every database
/// and channel operation succeeds and a lookup finds exactly what the
/// database holds: each tracked launch, in turn, is looked up; a stored one
/// is replaced (and announced on the plan's channel) when [`update_plan_spec`]
/// says so, and left alone otherwise; a new one is stored, and announced on
/// "new_launches" when GO. Gives the final database and the announcements in
/// order. [`lemma_sync_steps_for_launch`] shows that the steps of
/// [`LaunchSync`] do exactly this for each launch.
pub open spec fn sync_outcome(s: Seq<PolymorphicLaunchEndpointDetailed>, from: int, store: LaunchStore)
    -> (LaunchStore, Seq<(LaunchChannel, PolymorphicLaunchEndpointDetailed)>)
    decreases s.len() - from,
{
    if 0 <= from < s.len() {
        let l = s[from];
        let id = l.id@;
        if !is_tracked(l) {
            sync_outcome(s, from + 1, store)
        } else if store.contains_key(id) {
            match update_plan_spec(l, store[id]) {
                UpdatePlan::Replace(c) => {
                    let (r, p) = sync_outcome(s, from + 1, store.insert(id, l));
                    (r, seq![(c, l)] + p)
                },
                UpdatePlan::Unchanged => sync_outcome(s, from + 1, store),
            }
        } else {
            let (r, p) = sync_outcome(s, from + 1, store.insert(id, l));
            if l.status matches Some(st) && st.id == LaunchStatus::Go {
                (r, seq![(LaunchChannel::NewLaunches, l)] + p)
            } else {
                (r, p)
            }
        }
    } else {
        (store, Seq::empty())
    }
}

/// The steps of a synchronisation for one tracked launch, when the lookup
/// answers whether the database holds its id and every operation succeeds:
/// a stored launch is updated and the next tracked launch looked up; a new
/// one is added, then announced if GO, and the next tracked launch looked up.
pub proof fn lemma_sync_steps_for_launch(s: Seq<PolymorphicLaunchEndpointDetailed>, j: usize, store: LaunchStore)
    requires
        j < s.len() <= usize::MAX,
        is_tracked(s[j as int]),
    ensures
        ({
            let l = s[j as int];
            let lookup = SyncStage::AwaitLookup(j);
            if store.contains_key(l.id@) {
                &&& sync_step(s, lookup, SyncEvent::Found) == (SyncStage::AwaitUpdate(j), SyncAction::Update(j))
                &&& sync_step(s, SyncStage::AwaitUpdate(j), SyncEvent::Updated) == scan_from(s, j + 1)
            } else {
                &&& sync_step(s, lookup, SyncEvent::NotFound) == (SyncStage::AwaitAdd(j), SyncAction::Add(j))
                &&& (l.status matches Some(st) && st.id == LaunchStatus::Go) ==> {
                    &&& sync_step(s, SyncStage::AwaitAdd(j), SyncEvent::Added) == (SyncStage::AwaitAnnounce(j), SyncAction::AnnounceNew(j))
                    &&& sync_step(s, SyncStage::AwaitAnnounce(j), SyncEvent::Announced) == scan_from(s, j + 1)
                }
                &&& !(l.status matches Some(st) && st.id == LaunchStatus::Go)
                    ==> sync_step(s, SyncStage::AwaitAdd(j), SyncEvent::Added) == scan_from(s, j + 1)
            }
        }),
        scan_from(s, j as int) == (SyncStage::AwaitLookup(j), SyncAction::LookUp(j)),
{
}

/// The database after [`sync_outcome`] has handled the launch `l`.
pub open spec fn outcome_step(l: PolymorphicLaunchEndpointDetailed, store: LaunchStore) -> LaunchStore {
    let id = l.id@;
    if !is_tracked(l) {
        store
    } else if store.contains_key(id) {
        match update_plan_spec(l, store[id]) {
            UpdatePlan::Replace(_) => store.insert(id, l),
            UpdatePlan::Unchanged => store,
        }
    } else {
        store.insert(id, l)
    }
}

proof fn lemma_outcome_unfold(s: Seq<PolymorphicLaunchEndpointDetailed>, from: int, store: LaunchStore)
    requires
        0 <= from < s.len(),
    ensures
        sync_outcome(s, from, store).0 == sync_outcome(s, from + 1, outcome_step(s[from], store)).0,
{
}

proof fn lemma_outcome_frame(s: Seq<PolymorphicLaunchEndpointDetailed>, from: int, store: LaunchStore, id: Seq<char>)
    requires
        0 <= from,
        forall|k: int| from <= k < s.len() ==> #[trigger] s[k].id@ != id,
    ensures
        sync_outcome(s, from, store).0.contains_key(id) == store.contains_key(id),
        store.contains_key(id) ==> sync_outcome(s, from, store).0[id] == store[id],
    decreases s.len() - from,
{
    if from < s.len() {
        lemma_outcome_unfold(s, from, store);
        assert(s[from].id@ != id);
        lemma_outcome_frame(s, from + 1, outcome_step(s[from], store), id);
    }
}

proof fn lemma_outcome_settles(s: Seq<PolymorphicLaunchEndpointDetailed>, from: int, store: LaunchStore)
    requires
        distinct_ids(s),
        0 <= from,
    ensures
        forall|k: int| from <= k < s.len() && is_tracked(#[trigger] s[k]) ==> sync_outcome(s, from, store).0.contains_key(s[k].id@)
            && update_plan_spec(s[k], sync_outcome(s, from, store).0[s[k].id@]) == UpdatePlan::Unchanged,
    decreases s.len() - from,
{
    if from < s.len() {
        let l = s[from];
        let id = l.id@;
        let next = outcome_step(l, store);
        lemma_outcome_unfold(s, from, store);
        lemma_outcome_settles(s, from + 1, next);
        let r = sync_outcome(s, from, store).0;
        assert forall|k: int| from <= k < s.len() && is_tracked(#[trigger] s[k]) implies r.contains_key(s[k].id@)
            && update_plan_spec(s[k], r[s[k].id@]) == UpdatePlan::Unchanged by {
            if k == from {
                assert forall|k2: int| from + 1 <= k2 < s.len() implies #[trigger] s[k2].id@ != id by {
                    assert(s[from].id@ != s[k2].id@);
                }
                lemma_outcome_frame(s, from + 1, next, id);
                if next[id] == l {
                    assert(update_plan_spec(l, l) == UpdatePlan::Unchanged);
                }
            }
        }
    }
}

proof fn lemma_outcome_quiet(t: Seq<PolymorphicLaunchEndpointDetailed>, from: int, store: LaunchStore)
    requires
        0 <= from,
        forall|k: int| from <= k < t.len() && is_tracked(#[trigger] t[k]) ==> store.contains_key(t[k].id@)
            && update_plan_spec(t[k], store[t[k].id@]) == UpdatePlan::Unchanged,
    ensures
        sync_outcome(t, from, store) == (store, Seq::<(LaunchChannel, PolymorphicLaunchEndpointDetailed)>::empty()),
    decreases t.len() - from,
{
    if from < t.len() {
        lemma_outcome_quiet(t, from + 1, store);
    }
}

/// Synchronising twice with the same fetch, where the launches fetched have
/// pairwise different ids, every operation succeeds, the database holds at
/// most one record per id, nothing else writes it in between and records
/// read back as written: the second synchronisation announces nothing and
/// leaves the database as the first left it. `first` and `second` are the
/// fetch as each run sorted it.
pub proof fn lemma_sync_rerun_changes_nothing(
    fetched: Seq<PolymorphicLaunchEndpointDetailed>,
    first: Seq<PolymorphicLaunchEndpointDetailed>,
    second: Seq<PolymorphicLaunchEndpointDetailed>,
    store: LaunchStore,
)
    requires
        distinct_ids(fetched),
        is_stable_sort_by_net(fetched, first),
        is_stable_sort_by_net(fetched, second),
    ensures
        ({
            let after_first = sync_outcome(first, 0, store).0;
            sync_outcome(second, 0, after_first) == (after_first, Seq::<(LaunchChannel, PolymorphicLaunchEndpointDetailed)>::empty())
        }),
{
    let p1 = choose|perm: Seq<int>|
        #[trigger] rearranges(fetched, first, perm) && forall|a: int, b: int|
            0 <= a < b < first.len() && first[a].net == first[b].net ==> #[trigger] perm[a] < #[trigger] perm[b];
    let p2 = choose|perm: Seq<int>|
        #[trigger] rearranges(fetched, second, perm) && forall|a: int, b: int|
            0 <= a < b < second.len() && second[a].net == second[b].net ==> #[trigger] perm[a] < #[trigger] perm[b];
    assert(distinct_ids(first)) by {
        assert forall|a: int, b: int| 0 <= a < b < first.len() implies #[trigger] first[a].id@ != #[trigger] first[b].id@ by {
            let (x, y) = if p1[a] < p1[b] { (p1[a], p1[b]) } else { (p1[b], p1[a]) };
            assert(p1[a] != p1[b]);
            assert(fetched[x].id@ != fetched[y].id@);
        }
    }
    lemma_outcome_settles(first, 0, store);
    let after_first = sync_outcome(first, 0, store).0;
    assert forall|k: int| 0 <= k < second.len() && is_tracked(#[trigger] second[k]) implies after_first.contains_key(second[k].id@)
        && update_plan_spec(second[k], after_first[second[k].id@]) == UpdatePlan::Unchanged by {
        let m = p2[k];
        assert(second[k] == fetched[m]);
        assert(picks(p1, m));
        let k1 = choose|k1: int| 0 <= k1 < p1.len() && #[trigger] p1[k1] == m;
        assert(first[k1] == second[k]);
    }
    lemma_outcome_quiet(second, 0, after_first);
}

} // verus!
