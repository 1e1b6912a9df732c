//! The posts that the bot publishes for the launch messages it receives.
use vstd::prelude::*;
use crate::alerts::{Alert, TimeLeft, alert_channel, countdown_alert_spec, time_left_text};
use crate::model::{FirstStageNormal, LaunchStatus, MessageContainer, PolymorphicLaunchEndpointDetailed, VidURL};
use crate::text::{decimal, i32_text, ordinal_suffix, ordinal_suffix_text, signed_decimal, text_is};
use crate::time::{NetTime, clock_text, date_text, day_month_year_text, time_text};

verus! {

/// Which picture goes with a post.
#[derive(Clone, Copy, Debug, PartialEq, Eq, Structural)]
pub enum PostImage {
    NoImage,
    /// The picture of the launch.
    LaunchImage,
    /// The picture of the first booster.
    BoosterImage,
}

/// A post: its text and its picture.
#[derive(Clone, Debug)]
pub struct Post {
    pub text: String,
    pub image: PostImage,
}

pub open spec fn go_text(full: Seq<char>, mission: Seq<char>, date: Seq<char>, time: Seq<char>, description: Seq<char>) -> Seq<char> {
    full + " is GO to launch "@ + mission + " on "@ + date + " at "@ + time + " UTC! The mission: "@ + description
        + " \u{1F7E2}"@
}

pub open spec fn scrub_text(full: Seq<char>, mission: Seq<char>, date: Seq<char>, when: Seq<char>) -> Seq<char> {
    "The "@ + full + " launch of "@ + mission + " has been SCRUBBED! The launch is now scheduled for "@ + date + " at "@
        + when + "."@
}

pub open spec fn hold_text(mission: Seq<char>, full: Seq<char>) -> Seq<char> {
    "The launch of "@ + mission + " on board "@ + full + " is on HOLD! \u{1F7E1}"@
}

pub open spec fn liftoff_text(provider: Seq<char>, full: Seq<char>, pad: Seq<char>, mission: Seq<char>) -> Seq<char> {
    "LIFTOFF of "@ + provider + "'s "@ + full + " from "@ + pad + " carrying "@ + mission + " to space! \u{1F680}"@
}

pub open spec fn success_text(provider: Seq<char>, mission: Seq<char>, pad: Seq<char>, full: Seq<char>) -> Seq<char> {
    provider + " SUCCESSFULLY launched "@ + mission + " to space from "@ + pad + " on board "@ + full
        + "! \u{1F6F0}\u{FE0F}"@
}

pub open spec fn deployed_text(mission: Seq<char>, full: Seq<char>) -> Seq<char> {
    mission + " has been DEPLOYED from "@ + full + "! \u{1F6F0}\u{FE0F}"@
}

pub open spec fn failure_text(provider: Seq<char>, kind: Seq<char>, mission: Seq<char>, pad: Seq<char>, full: Seq<char>) -> Seq<char> {
    provider + " suffered a "@ + kind + " during their launch of "@ + mission + " from "@ + pad + " on board "@ + full
        + " to space. \u{1F6F0}\u{FE0F}"@
}

pub open spec fn countdown_text(left: Seq<char>, full: Seq<char>, mission: Seq<char>, pad: Seq<char>) -> Seq<char> {
    left + "! "@ + full + " is GO to launch "@ + mission + " from "@ + pad + ". \u{1F680}"@
}

/// The webcast to point to: going through the streams in order, the first
/// one whose priority exceeds every priority before it (and 0) is kept;
/// gives that priority and the stream's address, or 0 and "".
pub open spec fn best_webcast(vids: Seq<VidURL>) -> (int, Seq<char>)
    decreases vids.len(),
{
    if vids.len() == 0 {
        (0, Seq::empty())
    } else {
        let (best, url) = best_webcast(vids.drop_last());
        if vids.last().priority > best {
            (vids.last().priority as int, vids.last().url@)
        } else {
            (best, url)
        }
    }
}

/// A flight number as an unsigned 32-bit number, wrapping negative values.
pub open spec fn as_unsigned(v: i32) -> nat {
    if v >= 0 { v as nat } else { (v + 0x1_0000_0000) as nat }
}

/// What the booster notice says of the booster's history.
pub open spec fn booster_flight_text(stage: FirstStageNormal) -> Seq<char> {
    match stage.launcher_flight_number {
        Some(v) => if stage.launcher.flight_proven {
            decimal(as_unsigned(v)) + ordinal_suffix_text(as_unsigned(v)) + " time having previously supported "@
                + signed_decimal(v - 1) + " missions"@
        } else {
            "first time"@
        },
        None => "first time"@,
    }
}

pub open spec fn expended_text() -> Seq<char> {
    "No recovery attempt will be carried out for this booster, therefore it will be flying for its last time and expended after completing its final mission"@
}

/// What the booster notice says of the recovery; `None` when a landing is
/// attempted by a vehicle the bot does not describe, in which case no notice
/// is posted.
pub open spec fn booster_landing_text(vehicle: Seq<char>, stage: FirstStageNormal) -> Option<Seq<char>> {
    match stage.landing {
        Some(landing) => if landing.attempt {
            if vehicle == "Falcon 9"@ || vehicle == "New Glenn"@ || vehicle == "New Shepard"@ {
                match landing.landing_location {
                    Some(v) => Some("The booster will attempt to land on/at "@ + v.name@
                        + " for recovery and reuse in future missions"@),
                    None => Some("The booster will attempt to land for recovery and reuse in future missions"@),
                }
            } else if vehicle == "Starship"@ {
                match landing.landing_location {
                    Some(v) => Some("The booster will perform a catch attempt using Mechazilla's tower arms at "@ + v.name@
                        + ". After recovery, the booster will be closely inspected in order to gather as much data possible. This will help the future development of Starship."@),
                    None => Some("The booster will perform a catch attempt using Mechazilla's tower arms for recovery and use in future missions"@),
                }
            } else {
                None
            }
        } else {
            Some(expended_text())
        },
        None => Some(expended_text()),
    }
}

/// The booster notice for a vehicle, from its first stage.
pub open spec fn booster_text(vehicle: Seq<char>, stage: FirstStageNormal) -> Option<Seq<char>> {
    match booster_landing_text(vehicle, stage) {
        Some(landing) => Some("The booster supporting today's "@ + vehicle + " mission"@
            + (match stage.launcher.serial_number { Some(v) => " ("@ + v@ + ")"@, None => Seq::empty() })
            + " will be flying for its "@ + booster_flight_text(stage) + ". "@ + landing + "."@),
        None => None,
    }
}

/// The webcast pointed to is the first of those with the highest priority,
/// provided that priority is positive: its priority is at least that of
/// every stream, it is the first stream with that priority, and with no
/// positive priority no address is chosen.
pub proof fn lemma_best_webcast(vids: Seq<VidURL>)
    ensures
        best_webcast(vids).0 >= 0,
        forall|i: int| 0 <= i < vids.len() ==> #[trigger] vids[i].priority <= best_webcast(vids).0,
        best_webcast(vids).0 > 0 ==> exists|i: int|
            0 <= i < vids.len() && #[trigger] vids[i].priority == best_webcast(vids).0
                && vids[i].url@ == best_webcast(vids).1
                && forall|j: int| 0 <= j < i ==> #[trigger] vids[j].priority < best_webcast(vids).0,
        best_webcast(vids).0 == 0 ==> best_webcast(vids).1 == Seq::<char>::empty(),
    decreases vids.len(),
{
    if vids.len() > 0 {
        let prefix = vids.drop_last();
        lemma_best_webcast(prefix);
        let (best, url) = best_webcast(prefix);
        assert forall|i: int| 0 <= i < prefix.len() implies #[trigger] vids[i] == prefix[i] by {}
        if vids.last().priority > best {
            let n = vids.len() - 1;
            assert(vids[n].priority == best_webcast(vids).0);
            assert forall|j: int| 0 <= j < n implies #[trigger] vids[j].priority < best_webcast(vids).0 by {
                assert(vids[j] == prefix[j]);
            }
        } else if best > 0 {
            let i = choose|i: int|
                0 <= i < prefix.len() && #[trigger] prefix[i].priority == best && prefix[i].url@ == url
                    && forall|j: int| 0 <= j < i ==> #[trigger] prefix[j].priority < best;
            assert(vids[i] == prefix[i]);
            assert forall|j: int| 0 <= j < i implies #[trigger] vids[j].priority < best_webcast(vids).0 by {
                assert(vids[j] == prefix[j]);
            }
        }
    }
}

/// The post for a message received on a channel, if any. A message is only
/// posted about when its launch has a status, a vehicle, a mission, a pad
/// and a provider. Then: on "new_launches" the GO announcement; on
/// "scrubbed_launches" the scrub notice with the new date; on
/// "updated_launches" the message of the new status (none for TBD and TBC);
/// on "launch_time_left" the countdown text, pointing to the best webcast
/// when there are webcasts (and nothing when none has a usable address);
/// on "booster_info" the booster notice.
pub open spec fn post_for(channel: Seq<char>, c: MessageContainer) -> Option<(Seq<char>, PostImage)> {
    post_for_texts(channel, c, day_month_year_text(c.launch.net.day_number()), clock_text(c.launch.net))
}

/// [`post_for`], given the texts of the launch's date (`date`) and time of
/// day (`time`).
pub open spec fn post_for_texts(channel: Seq<char>, c: MessageContainer, date: Seq<char>, time: Seq<char>) -> Option<(Seq<char>, PostImage)> {
    let l = c.launch;
    match (l.status, l.rocket, l.mission, l.pad, l.launch_service_provider) {
        (Some(status), Some(rocket), Some(mission), Some(pad), Some(lsp)) => {
            let full = rocket.configuration.full_name@;
            if channel == "new_launches"@ {
                Some((go_text(full, mission.name@, date, time, mission.description@), PostImage::LaunchImage))
            } else if channel == "scrubbed_launches"@ {
                let when = if status.id == LaunchStatus::Tbd { " (To Be Determined)"@ } else { time + " UTC"@ };
                Some((scrub_text(full, mission.name@, date, when), PostImage::LaunchImage))
            } else if channel == "updated_launches"@ {
                match status.id {
                    LaunchStatus::Go => Some((go_text(full, mission.name@, date, time, mission.description@), PostImage::LaunchImage)),
                    LaunchStatus::Hold => Some((hold_text(mission.name@, full), PostImage::NoImage)),
                    LaunchStatus::InFlight => Some((liftoff_text(lsp.name@, full, pad.name@, mission.name@), PostImage::LaunchImage)),
                    LaunchStatus::Success => Some((success_text(lsp.name@, mission.name@, pad.name@, full), PostImage::NoImage)),
                    LaunchStatus::PayloadDeployed => Some((deployed_text(mission.name@, full), PostImage::NoImage)),
                    LaunchStatus::PartialFailure => Some((failure_text(lsp.name@, "PARTIAL FAILIURE"@, mission.name@, pad.name@, full), PostImage::NoImage)),
                    LaunchStatus::Failure => Some((failure_text(lsp.name@, "FAILIURE"@, mission.name@, pad.name@, full), PostImage::NoImage)),
                    LaunchStatus::Tbd => None,
                    LaunchStatus::Tbc => None,
                }
            } else if channel == "launch_time_left"@ {
                match c.message {
                    Some(left) => if l.vid_urls@.len() == 0 {
                        Some((countdown_text(left@, full, mission.name@, pad.name@), PostImage::NoImage))
                    } else {
                        let url = best_webcast(l.vid_urls@).1;
                        if url.len() > 0 {
                            Some((countdown_text(left@, full, mission.name@, pad.name@) + "\nWATCH LIVE: "@ + url, PostImage::NoImage))
                        } else {
                            None
                        }
                    },
                    None => None,
                }
            } else if channel == "booster_info"@ {
                match booster_text(rocket.configuration.name@, rocket.launcher_stage@[0]) {
                    Some(t) => Some((t, PostImage::BoosterImage)),
                    None => None,
                }
            } else {
                None
            }
        },
        _ => None,
    }
}

/// The inputs on which composing a booster notice cannot go wrong: the
/// vehicle has a first stage, and its flight number has a predecessor.
pub open spec fn booster_notice_defined(channel: Seq<char>, c: MessageContainer) -> bool {
    let l = c.launch;
    (channel == "booster_info"@ && l.status is Some && l.mission is Some && l.pad is Some
        && l.launch_service_provider is Some && l.rocket is Some) ==> ({
        let stages = l.rocket.unwrap().launcher_stage@;
        &&& stages.len() > 0
        &&& (stages[0].launcher.flight_proven && stages[0].launcher_flight_number is Some)
            ==> stages[0].launcher_flight_number.unwrap() > i32::MIN
    })
}


/// The GO announcement; see [`go_text`].
pub fn go_message(full: &String, mission: &String, date: &String, time: &String, description: &String) -> (s: String)
    ensures
        s@ == go_text(full@, mission@, date@, time@, description@),
{
    let mut s = String::from_str(full.as_str());
    s.append(" is GO to launch ");
    s.append(mission.as_str());
    s.append(" on ");
    s.append(date.as_str());
    s.append(" at ");
    s.append(time.as_str());
    s.append(" UTC! The mission: ");
    s.append(description.as_str());
    s.append(" \u{1F7E2}");
    s
}

/// The scrub notice; see [`scrub_text`].
pub fn scrub_message(full: &String, mission: &String, date: &String, when: &String) -> (s: String)
    ensures
        s@ == scrub_text(full@, mission@, date@, when@),
{
    let mut s = String::from_str("The ");
    s.append(full.as_str());
    s.append(" launch of ");
    s.append(mission.as_str());
    s.append(" has been SCRUBBED! The launch is now scheduled for ");
    s.append(date.as_str());
    s.append(" at ");
    s.append(when.as_str());
    s.append(".");
    s
}

/// The hold notice; see [`hold_text`].
pub fn hold_message(mission: &String, full: &String) -> (s: String)
    ensures
        s@ == hold_text(mission@, full@),
{
    let mut s = String::from_str("The launch of ");
    s.append(mission.as_str());
    s.append(" on board ");
    s.append(full.as_str());
    s.append(" is on HOLD! \u{1F7E1}");
    s
}

/// The lift-off notice; see [`liftoff_text`].
pub fn liftoff_message(provider: &String, full: &String, pad: &String, mission: &String) -> (s: String)
    ensures
        s@ == liftoff_text(provider@, full@, pad@, mission@),
{
    let mut s = String::from_str("LIFTOFF of ");
    s.append(provider.as_str());
    s.append("'s ");
    s.append(full.as_str());
    s.append(" from ");
    s.append(pad.as_str());
    s.append(" carrying ");
    s.append(mission.as_str());
    s.append(" to space! \u{1F680}");
    s
}

/// The success notice; see [`success_text`].
pub fn success_message(provider: &String, mission: &String, pad: &String, full: &String) -> (s: String)
    ensures
        s@ == success_text(provider@, mission@, pad@, full@),
{
    let mut s = String::from_str(provider.as_str());
    s.append(" SUCCESSFULLY launched ");
    s.append(mission.as_str());
    s.append(" to space from ");
    s.append(pad.as_str());
    s.append(" on board ");
    s.append(full.as_str());
    s.append("! \u{1F6F0}\u{FE0F}");
    s
}

/// The payload deployment notice; see [`deployed_text`].
pub fn deployed_message(mission: &String, full: &String) -> (s: String)
    ensures
        s@ == deployed_text(mission@, full@),
{
    let mut s = String::from_str(mission.as_str());
    s.append(" has been DEPLOYED from ");
    s.append(full.as_str());
    s.append("! \u{1F6F0}\u{FE0F}");
    s
}

/// The (partial) failure notice; see [`failure_text`].
pub fn failure_message(provider: &String, kind: &str, mission: &String, pad: &String, full: &String) -> (s: String)
    ensures
        s@ == failure_text(provider@, kind@, mission@, pad@, full@),
{
    let mut s = String::from_str(provider.as_str());
    s.append(" suffered a ");
    s.append(kind);
    s.append(" during their launch of ");
    s.append(mission.as_str());
    s.append(" from ");
    s.append(pad.as_str());
    s.append(" on board ");
    s.append(full.as_str());
    s.append(" to space. \u{1F6F0}\u{FE0F}");
    s
}

/// The countdown post; see [`countdown_text`].
pub fn countdown_message(left: &String, full: &String, mission: &String, pad: &String) -> (s: String)
    ensures
        s@ == countdown_text(left@, full@, mission@, pad@),
{
    let mut s = String::from_str(left.as_str());
    s.append("! ");
    s.append(full.as_str());
    s.append(" is GO to launch ");
    s.append(mission.as_str());
    s.append(" from ");
    s.append(pad.as_str());
    s.append(". \u{1F680}");
    s
}

/// The address of the webcast to point to; see [`best_webcast`].
pub fn select_webcast(vids: &Vec<VidURL>) -> (url: String)
    ensures
        url@ == best_webcast(vids@).1,
{
    let mut highest: i32 = 0;
    let mut selected = String::new();
    let mut i: usize = 0;
    while i < vids.len()
        invariant
            i <= vids@.len(),
            best_webcast(vids@.take(i as int)) == (highest as int, selected@),
        decreases vids@.len() - i,
    {
        proof {
            assert(vids@.take(i as int + 1).drop_last() == vids@.take(i as int));
        }
        if vids[i].priority > highest {
            highest = vids[i].priority;
            selected = vids[i].url.clone();
        }
        i = i + 1;
    }
    proof {
        assert(vids@.take(vids@.len() as int) == vids@);
    }
    selected
}

fn booster_flight(stage: &FirstStageNormal) -> (s: String)
    requires
        (stage.launcher.flight_proven && stage.launcher_flight_number is Some)
            ==> stage.launcher_flight_number.unwrap() > i32::MIN,
    ensures
        s@ == booster_flight_text(*stage),
{
    match stage.launcher_flight_number {
        Some(v) => {
            if stage.launcher.flight_proven {
                let n: u32 = if v >= 0 { v as u32 } else { (v as i64 + 0x1_0000_0000i64) as u32 };
                let mut s = ordinal_suffix(n);
                s.append(" time having previously supported ");
                let previous = i32_text(v - 1);
                s.append(previous.as_str());
                s.append(" missions");
                s
            } else {
                String::from_str("first time")
            }
        },
        None => String::from_str("first time"),
    }
}

fn booster_landing(vehicle: &String, stage: &FirstStageNormal) -> (r: Option<String>)
    ensures
        r matches Some(s) ==> booster_landing_text(vehicle@, *stage) == Some(s@),
        r is None ==> booster_landing_text(vehicle@, *stage) is None,
{
    let expended = "No recovery attempt will be carried out for this booster, therefore it will be flying for its last time and expended after completing its final mission";
    match &stage.landing {
        Some(landing) => {
            if landing.attempt {
                if text_is(vehicle, "Falcon 9") || text_is(vehicle, "New Glenn") || text_is(vehicle, "New Shepard") {
                    match &landing.landing_location {
                        Some(v) => {
                            let mut s = String::from_str("The booster will attempt to land on/at ");
                            s.append(v.name.as_str());
                            s.append(" for recovery and reuse in future missions");
                            Some(s)
                        },
                        None => Some(String::from_str("The booster will attempt to land for recovery and reuse in future missions")),
                    }
                } else if text_is(vehicle, "Starship") {
                    match &landing.landing_location {
                        Some(v) => {
                            let mut s = String::from_str("The booster will perform a catch attempt using Mechazilla's tower arms at ");
                            s.append(v.name.as_str());
                            s.append(". After recovery, the booster will be closely inspected in order to gather as much data possible. This will help the future development of Starship.");
                            Some(s)
                        },
                        None => Some(String::from_str("The booster will perform a catch attempt using Mechazilla's tower arms for recovery and use in future missions")),
                    }
                } else {
                    None
                }
            } else {
                Some(String::from_str(expended))
            }
        },
        None => Some(String::from_str(expended)),
    }
}

/// The booster notice for a vehicle; see [`booster_text`].
pub fn booster_message(vehicle: &String, stage: &FirstStageNormal) -> (r: Option<String>)
    requires
        (stage.launcher.flight_proven && stage.launcher_flight_number is Some)
            ==> stage.launcher_flight_number.unwrap() > i32::MIN,
    ensures
        r matches Some(s) ==> booster_text(vehicle@, *stage) == Some(s@),
        r is None ==> booster_text(vehicle@, *stage) is None,
{
    let serial = match &stage.launcher.serial_number {
        Some(v) => {
            let mut s = String::from_str(" (");
            s.append(v.as_str());
            s.append(")");
            s
        },
        None => String::new(),
    };
    let flight = booster_flight(stage);
    let landing = match booster_landing(vehicle, stage) {
        Some(t) => t,
        None => return None,
    };
    let mut s = String::from_str("The booster supporting today's ");
    s.append(vehicle.as_str());
    s.append(" mission");
    s.append(serial.as_str());
    s.append(" will be flying for its ");
    s.append(flight.as_str());
    s.append(". ");
    s.append(landing.as_str());
    s.append(".");
    Some(s)
}


/// The post for a message received on a channel, if any; see [`post_for`].
/// A message gives at most one post.
pub fn compose_post(channel: &String, container: &MessageContainer) -> (r: Option<Post>)
    requires
        container.launch.net.wf(),
        booster_notice_defined(channel@, *container),
    ensures
        r matches Some(p) ==> post_for(channel@, *container) == Some((p.text@, p.image)),
        r is None ==> post_for(channel@, *container) is None,
{
    let date = date_text(&container.launch.net);
    let time = time_text(&container.launch.net);
    compose_post_with_times(channel, container, &date, &time)
}

/// The post for a message received on a channel, given the texts of the
/// launch's date and time of day; see [`post_for_texts`].
pub fn compose_post_with_times(channel: &String, container: &MessageContainer, date: &String, time: &String) -> (r: Option<Post>)
    requires
        booster_notice_defined(channel@, *container),
    ensures
        r matches Some(p) ==> post_for_texts(channel@, *container, date@, time@) == Some((p.text@, p.image)),
        r is None ==> post_for_texts(channel@, *container, date@, time@) is None,
{
    let l = &container.launch;
    let status = match &l.status {
        Some(v) => v,
        None => return None,
    };
    let rocket = match &l.rocket {
        Some(v) => v,
        None => return None,
    };
    let mission = match &l.mission {
        Some(v) => v,
        None => return None,
    };
    let pad = match &l.pad {
        Some(v) => v,
        None => return None,
    };
    let lsp = match &l.launch_service_provider {
        Some(v) => v,
        None => return None,
    };
    let full = &rocket.configuration.full_name;
    if text_is(channel, "new_launches") {
        return Some(Post { text: go_message(full, &mission.name, date, time, &mission.description), image: PostImage::LaunchImage });
    }
    if text_is(channel, "scrubbed_launches") {
        let when = if status.id == LaunchStatus::Tbd {
            String::from_str(" (To Be Determined)")
        } else {
            time.clone().concat(" UTC")
        };
        return Some(Post { text: scrub_message(full, &mission.name, date, &when), image: PostImage::LaunchImage });
    }
    if text_is(channel, "updated_launches") {
        return match status.id {
            LaunchStatus::Go => Some(Post { text: go_message(full, &mission.name, date, time, &mission.description), image: PostImage::LaunchImage }),
            LaunchStatus::Hold => Some(Post { text: hold_message(&mission.name, full), image: PostImage::NoImage }),
            LaunchStatus::InFlight => Some(Post { text: liftoff_message(&lsp.name, full, &pad.name, &mission.name), image: PostImage::LaunchImage }),
            LaunchStatus::Success => Some(Post { text: success_message(&lsp.name, &mission.name, &pad.name, full), image: PostImage::NoImage }),
            LaunchStatus::PayloadDeployed => Some(Post { text: deployed_message(&mission.name, full), image: PostImage::NoImage }),
            LaunchStatus::PartialFailure => Some(Post { text: failure_message(&lsp.name, "PARTIAL FAILIURE", &mission.name, &pad.name, full), image: PostImage::NoImage }),
            LaunchStatus::Failure => Some(Post { text: failure_message(&lsp.name, "FAILIURE", &mission.name, &pad.name, full), image: PostImage::NoImage }),
            LaunchStatus::Tbd => None,
            LaunchStatus::Tbc => None,
        };
    }
    if text_is(channel, "launch_time_left") {
        let left = match &container.message {
            Some(v) => v,
            None => return None,
        };
        if l.vid_urls.len() == 0 {
            return Some(Post { text: countdown_message(left, full, &mission.name, &pad.name), image: PostImage::NoImage });
        }
        let url = select_webcast(&l.vid_urls);
        if url.as_str().is_empty() {
            return None;
        }
        let mut text = countdown_message(left, full, &mission.name, &pad.name);
        text.append("\nWATCH LIVE: ");
        text.append(url.as_str());
        return Some(Post { text, image: PostImage::NoImage });
    }
    if text_is(channel, "booster_info") {
        return match booster_message(&rocket.configuration.name, &rocket.launcher_stage[0]) {
            Some(t) => Some(Post { text: t, image: PostImage::BoosterImage }),
            None => None,
        };
    }
    None
}


/// Whether [`compose_post`] can compose a post for this message; see
/// [`booster_notice_defined`].
pub fn post_is_defined(channel: &String, container: &MessageContainer) -> (r: bool)
    ensures
        r == booster_notice_defined(channel@, *container),
{
    let l = &container.launch;
    if !(text_is(channel, "booster_info") && l.status.is_some() && l.mission.is_some() && l.pad.is_some()
        && l.launch_service_provider.is_some() && l.rocket.is_some()) {
        return true;
    }
    let stages = &l.rocket.as_ref().unwrap().launcher_stage;
    if stages.len() == 0 {
        return false;
    }
    match stages[0].launcher_flight_number {
        Some(v) => !stages[0].launcher.flight_proven || v > i32::MIN,
        None => true,
    }
}

/// A countdown alert of the service reaches the bot's followers with the
/// alert's own text: when the service publishes a countdown alert about a
/// launch with the alert's text, the bot posts the countdown text, pointing
/// to the best webcast when there is one.
pub proof fn lemma_countdown_alert_posted(c: MessageContainer, now: NetTime, t: TimeLeft)
    requires
        countdown_alert_spec(c.launch, now) == Some(Alert::Countdown(t)),
        c.message matches Some(m) && m@ == time_left_text(t),
        c.launch.mission is Some,
        c.launch.pad is Some,
        c.launch.launch_service_provider is Some,
    ensures
        ({
            let l = c.launch;
            let text = countdown_text(time_left_text(t), l.rocket.unwrap().configuration.full_name@,
                l.mission.unwrap().name@, l.pad.unwrap().name@);
            let url = best_webcast(l.vid_urls@).1;
            &&& l.vid_urls@.len() == 0 ==> post_for(alert_channel(Alert::Countdown(t)), c) == Some((text, PostImage::NoImage))
            &&& (l.vid_urls@.len() > 0 && url.len() > 0) ==> post_for(alert_channel(Alert::Countdown(t)), c)
                == Some((text + "\nWATCH LIVE: "@ + url, PostImage::NoImage))
        }),
{
    reveal_strlit("launch_time_left");
    reveal_strlit("new_launches");
    reveal_strlit("scrubbed_launches");
    reveal_strlit("updated_launches");
    assert("launch_time_left"@[0] != "updated_launches"@[0]);
}

proof fn lemma_channel_names_distinct()
    ensures
        "new_launches"@ != "scrubbed_launches"@,
        "new_launches"@ != "updated_launches"@,
        "new_launches"@ != "launch_time_left"@,
        "new_launches"@ != "booster_info"@,
        "scrubbed_launches"@ != "updated_launches"@,
        "scrubbed_launches"@ != "launch_time_left"@,
        "scrubbed_launches"@ != "booster_info"@,
        "updated_launches"@ != "launch_time_left"@,
        "updated_launches"@ != "booster_info"@,
        "launch_time_left"@ != "booster_info"@,
{
    reveal_strlit("new_launches");
    reveal_strlit("scrubbed_launches");
    reveal_strlit("updated_launches");
    reveal_strlit("launch_time_left");
    reveal_strlit("booster_info");
    assert("new_launches"@[0] != "booster_info"@[0]);
    assert("updated_launches"@[0] != "launch_time_left"@[0]);
}

/// The GO announcement reads "<vehicle> is GO to launch <mission> on <date>
/// at <time> UTC! The mission: <description> \u{1F7E2}" and comes with the
/// launch's picture; "new_launches" gets it whatever the status, and when a
/// GO launch is updated "updated_launches" gets the same post. The date is
/// the day of the NET as "DD-MM-YYYY", the time its time of day.
pub proof fn lemma_go_post(c: MessageContainer, date: Seq<char>, time: Seq<char>)
    requires
        c.launch.status is Some,
        c.launch.rocket is Some,
        c.launch.mission is Some,
        c.launch.pad is Some,
        c.launch.launch_service_provider is Some,
    ensures
        ({
            let l = c.launch;
            let full = l.rocket.unwrap().configuration.full_name@;
            let mission = l.mission.unwrap();
            &&& post_for_texts("new_launches"@, c, date, time) == Some((full + " is GO to launch "@ + mission.name@
                + " on "@ + date + " at "@ + time + " UTC! The mission: "@ + mission.description@ + " \u{1F7E2}"@,
                PostImage::LaunchImage))
            &&& l.status.unwrap().id == LaunchStatus::Go ==> post_for_texts("updated_launches"@, c, date, time)
                == post_for_texts("new_launches"@, c, date, time)
            &&& post_for("new_launches"@, c) == Some((full + " is GO to launch "@ + mission.name@ + " on "@
                + day_month_year_text(l.net.day_number()) + " at "@ + clock_text(l.net) + " UTC! The mission: "@
                + mission.description@ + " \u{1F7E2}"@, PostImage::LaunchImage))
            &&& l.status.unwrap().id == LaunchStatus::Go ==> post_for("updated_launches"@, c) == post_for("new_launches"@, c)
        }),
{
    lemma_channel_names_distinct();
}

/// What the bot posts for a launch update, by status: a hold notice, the
/// lift-off notice with the launch's picture, the success notice, the
/// deployment notice, the (partial) failure notice; nothing for TBD and TBC.
/// A scrub notice gives the new date and time, or "(To Be Determined)" when
/// the new status is TBD. A countdown post starts with the alert's text and,
/// when there are webcasts, points to the best one.
pub proof fn lemma_status_posts(c: MessageContainer, date: Seq<char>, time: Seq<char>)
    requires
        c.launch.status is Some,
        c.launch.rocket is Some,
        c.launch.mission is Some,
        c.launch.pad is Some,
        c.launch.launch_service_provider is Some,
    ensures
        ({
            let l = c.launch;
            let status = l.status.unwrap().id;
            let full = l.rocket.unwrap().configuration.full_name@;
            let mission = l.mission.unwrap().name@;
            let pad = l.pad.unwrap().name@;
            let provider = l.launch_service_provider.unwrap().name@;
            let updated = post_for_texts("updated_launches"@, c, date, time);
            let scrubbed = post_for_texts("scrubbed_launches"@, c, date, time);
            let countdown = post_for_texts("launch_time_left"@, c, date, time);
            let left = c.message.unwrap()@;
            &&& status == LaunchStatus::Hold ==> updated == Some(("The launch of "@ + mission + " on board "@ + full
                + " is on HOLD! \u{1F7E1}"@, PostImage::NoImage))
            &&& status == LaunchStatus::InFlight ==> updated == Some(("LIFTOFF of "@ + provider + "'s "@ + full
                + " from "@ + pad + " carrying "@ + mission + " to space! \u{1F680}"@, PostImage::LaunchImage))
            &&& status == LaunchStatus::Success ==> updated == Some((provider + " SUCCESSFULLY launched "@ + mission
                + " to space from "@ + pad + " on board "@ + full + "! \u{1F6F0}\u{FE0F}"@, PostImage::NoImage))
            &&& status == LaunchStatus::PayloadDeployed ==> updated == Some((mission + " has been DEPLOYED from "@
                + full + "! \u{1F6F0}\u{FE0F}"@, PostImage::NoImage))
            &&& status == LaunchStatus::PartialFailure ==> updated == Some((provider + " suffered a "@
                + "PARTIAL FAILIURE"@ + " during their launch of "@ + mission + " from "@ + pad + " on board "@ + full
                + " to space. \u{1F6F0}\u{FE0F}"@, PostImage::NoImage))
            &&& status == LaunchStatus::Failure ==> updated == Some((provider + " suffered a "@ + "FAILIURE"@
                + " during their launch of "@ + mission + " from "@ + pad + " on board "@ + full
                + " to space. \u{1F6F0}\u{FE0F}"@, PostImage::NoImage))
            &&& (status == LaunchStatus::Tbd || status == LaunchStatus::Tbc) ==> updated is None
            &&& status == LaunchStatus::Tbd ==> scrubbed == Some(("The "@ + full + " launch of "@ + mission
                + " has been SCRUBBED! The launch is now scheduled for "@ + date + " at "@ + " (To Be Determined)"@
                + "."@, PostImage::LaunchImage))
            &&& status != LaunchStatus::Tbd ==> scrubbed == Some(("The "@ + full + " launch of "@ + mission
                + " has been SCRUBBED! The launch is now scheduled for "@ + date + " at "@ + (time + " UTC"@)
                + "."@, PostImage::LaunchImage))
            &&& c.message is None ==> countdown is None
            &&& (c.message is Some && l.vid_urls@.len() == 0) ==> countdown == Some((left + "! "@ + full
                + " is GO to launch "@ + mission + " from "@ + pad + ". \u{1F680}"@, PostImage::NoImage))
            &&& (c.message is Some && l.vid_urls@.len() > 0) ==> {
                let url = best_webcast(l.vid_urls@).1;
                &&& url.len() > 0 ==> countdown == Some((left + "! "@ + full + " is GO to launch "@ + mission
                    + " from "@ + pad + ". \u{1F680}"@ + "\nWATCH LIVE: "@ + url, PostImage::NoImage))
                &&& url.len() == 0 ==> countdown is None
            }
        }),
{
    lemma_channel_names_distinct();
}

/// What the booster notice says of the recovery: Falcon 9, New Glenn and New
/// Shepard boosters that attempt a landing "will attempt to land" (at the
/// landing location when there is one), Starship boosters get a tower catch,
/// and a booster with no landing attempt is expended. A landing attempt by
/// any other vehicle, Falcon Heavy among them, is not described. So every
/// vehicle the service sends a booster notice about gets one, except a
/// Falcon Heavy that attempts a landing; the notice reads "The booster
/// supporting today's <vehicle> mission[ (<serial>)] will be flying for its
/// <history>. <recovery>.", where the history is "first time" unless the
/// booster is flight-proven with a flight number n, and then "<n><ordinal
/// suffix> time having previously supported <n - 1> missions".
pub proof fn lemma_booster_notice(vehicle: Seq<char>, stage: FirstStageNormal)
    ensures
        ({
            let attempt = stage.landing matches Some(landing) && landing.attempt;
            let location = stage.landing.unwrap().landing_location;
            let expended = "No recovery attempt will be carried out for this booster, therefore it will be flying for its last time and expended after completing its final mission"@;
            &&& (attempt && (vehicle == "Falcon 9"@ || vehicle == "New Glenn"@ || vehicle == "New Shepard"@)) ==> {
                &&& location matches Some(v) ==> booster_landing_text(vehicle, stage) == Some(
                    "The booster will attempt to land on/at "@ + v.name@ + " for recovery and reuse in future missions"@)
                &&& location is None ==> booster_landing_text(vehicle, stage) == Some(
                    "The booster will attempt to land for recovery and reuse in future missions"@)
            }
            &&& (attempt && vehicle == "Starship"@) ==> {
                &&& location matches Some(v) ==> booster_landing_text(vehicle, stage) == Some(
                    "The booster will perform a catch attempt using Mechazilla's tower arms at "@ + v.name@
                    + ". After recovery, the booster will be closely inspected in order to gather as much data possible. This will help the future development of Starship."@)
                &&& location is None ==> booster_landing_text(vehicle, stage) == Some(
                    "The booster will perform a catch attempt using Mechazilla's tower arms for recovery and use in future missions"@)
            }
            &&& (attempt && vehicle == "Falcon Heavy"@) ==> booster_landing_text(vehicle, stage) is None
            &&& !attempt ==> booster_landing_text(vehicle, stage) == Some(expended)
            &&& ((vehicle == "Falcon 9"@ || vehicle == "Falcon Heavy"@ || vehicle == "Starship"@
                || vehicle == "New Shepard"@ || vehicle == "New Glenn"@) && !(attempt && vehicle == "Falcon Heavy"@))
                ==> booster_text(vehicle, stage) is Some
            &&& (stage.launcher_flight_number is None || !stage.launcher.flight_proven)
                ==> booster_flight_text(stage) == "first time"@
            &&& (stage.launcher_flight_number matches Some(v) && stage.launcher.flight_proven && v >= 1)
                ==> booster_flight_text(stage) == decimal(stage.launcher_flight_number.unwrap() as nat)
                + ordinal_suffix_text(stage.launcher_flight_number.unwrap() as nat) + " time having previously supported "@
                + decimal((stage.launcher_flight_number.unwrap() - 1) as nat) + " missions"@
            &&& booster_text(vehicle, stage) matches Some(t) ==> t == "The booster supporting today's "@ + vehicle
                + " mission"@ + (match stage.launcher.serial_number { Some(v) => " ("@ + v@ + ")"@, None => Seq::empty() })
                + " will be flying for its "@ + booster_flight_text(stage) + ". "@
                + booster_landing_text(vehicle, stage).unwrap() + "."@
        }),
{
    reveal_strlit("Falcon 9");
    reveal_strlit("Falcon Heavy");
    reveal_strlit("Starship");
    reveal_strlit("New Shepard");
    reveal_strlit("New Glenn");
    assert("Falcon 9"@[0] != "Starship"@[0]);
}

/// Every booster notice of the service reaches the bot's followers: when the
/// service sends the notice about a launch with a mission, a pad and a
/// provider, the bot posts the notice of its first stage with the booster's
/// picture, unless a Falcon Heavy attempts a landing.
pub proof fn lemma_booster_alert_posted(c: MessageContainer, now: NetTime)
    requires
        countdown_alert_spec(c.launch, now) == Some(Alert::BoosterInfo),
        c.launch.mission is Some,
        c.launch.pad is Some,
        c.launch.launch_service_provider is Some,
    ensures
        ({
            let r = c.launch.rocket.unwrap();
            let stage = r.launcher_stage@[0];
            let attempt = stage.landing matches Some(landing) && landing.attempt;
            !(r.configuration.name@ == "Falcon Heavy"@ && attempt) ==> {
                &&& booster_text(r.configuration.name@, stage) is Some
                &&& post_for("booster_info"@, c) == Some((booster_text(r.configuration.name@, stage).unwrap(),
                    PostImage::BoosterImage))
            }
        }),
{
    lemma_channel_names_distinct();
    let r = c.launch.rocket.unwrap();
    lemma_booster_notice(r.configuration.name@, r.launcher_stage@[0]);
}

/// The service sends a booster notice only about a vehicle with a first
/// stage, which the bot then describes.
pub proof fn lemma_booster_alert_has_stage(launch: PolymorphicLaunchEndpointDetailed, now: NetTime)
    requires
        countdown_alert_spec(launch, now) == Some(Alert::BoosterInfo),
    ensures
        launch.rocket matches Some(r) && r.launcher_stage@.len() > 0,
{
}

} // verus!
