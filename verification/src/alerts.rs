//! Countdown alerts: which message the data service sends about an
//! upcoming launch, given the time of the check.
use vstd::prelude::*;
use crate::model::{LaunchStatus, PolymorphicLaunchEndpointDetailed};
use crate::text::text_is;
use crate::time::{NetTime, same_day, time_of_day_minutes, time_of_day_minutes_between};

verus! {

/// How long before lift-off a countdown alert is sent.
#[derive(Clone, Copy, Debug, PartialEq, Eq, Structural)]
pub enum TimeLeft {
    FIVEHOURS,
    FOURHOURS,
    THREEHOURS,
    TWOHOURS,
    ONEHOUR,
    THIRTY,
    FIFTEEN,
    TEN,
    FIVE,
}

/// The text of a countdown alert.
pub open spec fn time_left_text(t: TimeLeft) -> Seq<char> {
    match t {
        TimeLeft::FIVEHOURS => "T-5 Hours"@,
        TimeLeft::FOURHOURS => "T-4 Hours"@,
        TimeLeft::THREEHOURS => "T-3 Hours"@,
        TimeLeft::TWOHOURS => "T-2 Hours"@,
        TimeLeft::ONEHOUR => "T-1 Hour"@,
        TimeLeft::THIRTY => "T-30 minutes"@,
        TimeLeft::FIFTEEN => "T-15 minutes"@,
        TimeLeft::TEN => "T-10 minutes"@,
        TimeLeft::FIVE => "T-5 minutes"@,
    }
}

impl TimeLeft {
    /// The text of the alert, such as "T-30 minutes".
    pub fn as_str(&self) -> (s: &str)
        ensures
            s@ == time_left_text(*self),
    {
        match self {
            TimeLeft::FIVEHOURS => "T-5 Hours",
            TimeLeft::FOURHOURS => "T-4 Hours",
            TimeLeft::THREEHOURS => "T-3 Hours",
            TimeLeft::TWOHOURS => "T-2 Hours",
            TimeLeft::ONEHOUR => "T-1 Hour",
            TimeLeft::THIRTY => "T-30 minutes",
            TimeLeft::FIFTEEN => "T-15 minutes",
            TimeLeft::TEN => "T-10 minutes",
            TimeLeft::FIVE => "T-5 minutes",
        }
    }
}

/// A message that the countdown check sends about a launch.
#[derive(Clone, Copy, Debug, PartialEq, Eq, Structural)]
pub enum Alert {
    /// A countdown message, sent on the "launch_time_left" channel.
    Countdown(TimeLeft),
    /// Details of a reusable booster, sent on the "booster_info" channel.
    BoosterInfo,
}

/// The channel an alert is published on.
pub open spec fn alert_channel(a: Alert) -> Seq<char> {
    match a {
        Alert::Countdown(_) => "launch_time_left"@,
        Alert::BoosterInfo => "booster_info"@,
    }
}

/// The message text that accompanies the launch in an alert.
pub open spec fn alert_message(a: Alert) -> Option<Seq<char>> {
    match a {
        Alert::Countdown(t) => Some(time_left_text(t)),
        Alert::BoosterInfo => None,
    }
}

impl Alert {
    /// The channel this alert is published on.
    pub fn channel(&self) -> (s: &'static str)
        ensures
            s@ == alert_channel(*self),
    {
        match self {
            Alert::Countdown(_) => "launch_time_left",
            Alert::BoosterInfo => "booster_info",
        }
    }

    /// The text published with the launch: the countdown text, or none.
    pub fn message(&self) -> (m: Option<String>)
        ensures
            m matches Some(s) ==> alert_message(*self) == Some(s@),
            m is None ==> alert_message(*self) is None,
    {
        match self {
            Alert::Countdown(t) => Some(String::from_str(t.as_str())),
            Alert::BoosterInfo => None,
        }
    }

    /// Whether a failure to publish this alert ends the whole check. A
    /// failed countdown message is only skipped; a failed booster notice
    /// stops the check of the remaining launches.
    pub fn failure_ends_check(&self) -> (r: bool)
        ensures
            r == (*self == Alert::BoosterInfo),
    {
        match self {
            Alert::Countdown(_) => false,
            Alert::BoosterInfo => true,
        }
    }
}

/// Countdown alerts go on "launch_time_left" with the texts "T-5 Hours",
/// "T-4 Hours", "T-3 Hours", "T-2 Hours", "T-1 Hour", "T-30 minutes",
/// "T-15 minutes", "T-10 minutes" and "T-5 minutes"; the booster notice goes
/// on "booster_info" with no text.
pub proof fn lemma_alert_texts(t: TimeLeft)
    ensures
        alert_channel(Alert::Countdown(t)) == "launch_time_left"@,
        alert_channel(Alert::BoosterInfo) == "booster_info"@,
        alert_message(Alert::BoosterInfo) is None,
        alert_message(Alert::Countdown(t)) == Some(match t {
            TimeLeft::FIVEHOURS => "T-5 Hours"@,
            TimeLeft::FOURHOURS => "T-4 Hours"@,
            TimeLeft::THREEHOURS => "T-3 Hours"@,
            TimeLeft::TWOHOURS => "T-2 Hours"@,
            TimeLeft::ONEHOUR => "T-1 Hour"@,
            TimeLeft::THIRTY => "T-30 minutes"@,
            TimeLeft::FIFTEEN => "T-15 minutes"@,
            TimeLeft::TEN => "T-10 minutes"@,
            TimeLeft::FIVE => "T-5 minutes"@,
        }),
{
}

/// Vehicles whose boosters are announced before launch.
pub open spec fn is_booster_vehicle(name: Seq<char>) -> bool {
    name == "Falcon 9"@ || name == "Falcon Heavy"@ || name == "Starship"@ || name == "New Shepard"@
        || name == "New Glenn"@
}

/// The alert due for a launch at the time `now`, if any: the launch must be
/// GO and on today's date (UTC), and the minutes between the times of day of
/// its NET and of `now` must fall in one of the windows (30, 31], (15, 16],
/// (10, 11], (5, 6]; for Starship also (300, 301], (240, 241], (180, 181],
/// (120, 121], (60, 61]; and for a vehicle with an announced booster and at
/// least one stage, (7, 8] gives the booster notice.
pub open spec fn countdown_alert_spec(launch: PolymorphicLaunchEndpointDetailed, now: NetTime) -> Option<Alert> {
    match launch.status {
        None => None,
        Some(status) => match launch.rocket {
            None => None,
            Some(rocket) => {
                let m = time_of_day_minutes_between(launch.net, now);
                let name = rocket.configuration.name@;
                if launch.net.day_number() != now.day_number() || status.id != LaunchStatus::Go {
                    None
                } else if 30 < m <= 31 {
                    Some(Alert::Countdown(TimeLeft::THIRTY))
                } else if 15 < m <= 16 {
                    Some(Alert::Countdown(TimeLeft::FIFTEEN))
                } else if 10 < m <= 11 {
                    Some(Alert::Countdown(TimeLeft::TEN))
                } else if 5 < m <= 6 {
                    Some(Alert::Countdown(TimeLeft::FIVE))
                } else if name == "Starship"@ && 300 < m <= 301 {
                    Some(Alert::Countdown(TimeLeft::FIVEHOURS))
                } else if name == "Starship"@ && 240 < m <= 241 {
                    Some(Alert::Countdown(TimeLeft::FOURHOURS))
                } else if name == "Starship"@ && 180 < m <= 181 {
                    Some(Alert::Countdown(TimeLeft::THREEHOURS))
                } else if name == "Starship"@ && 120 < m <= 121 {
                    Some(Alert::Countdown(TimeLeft::TWOHOURS))
                } else if name == "Starship"@ && 60 < m <= 61 {
                    Some(Alert::Countdown(TimeLeft::ONEHOUR))
                } else if 7 < m <= 8 && is_booster_vehicle(name) && rocket.launcher_stage@.len() > 0 {
                    Some(Alert::BoosterInfo)
                } else {
                    None
                }
            },
        },
    }
}

/// The alert due for a launch at the time `now`, if any; see
/// [`countdown_alert_spec`]. The windows do not overlap, so a launch gets
/// at most one message per check.
pub fn countdown_alert(launch: &PolymorphicLaunchEndpointDetailed, now: &NetTime) -> (r: Option<Alert>)
    requires
        launch.net.wf(),
        now.wf(),
    ensures
        r == countdown_alert_spec(*launch, *now),
{
    let status = match &launch.status {
        Some(s) => s,
        None => return None,
    };
    let rocket = match &launch.rocket {
        Some(r) => r,
        None => return None,
    };
    let m = time_of_day_minutes(&launch.net, now);
    if !same_day(&launch.net, now) || status.id != LaunchStatus::Go {
        return None;
    }
    let name = &rocket.configuration.name;
    let starship = text_is(name, "Starship");
    if 30 < m && m <= 31 {
        Some(Alert::Countdown(TimeLeft::THIRTY))
    } else if 15 < m && m <= 16 {
        Some(Alert::Countdown(TimeLeft::FIFTEEN))
    } else if 10 < m && m <= 11 {
        Some(Alert::Countdown(TimeLeft::TEN))
    } else if 5 < m && m <= 6 {
        Some(Alert::Countdown(TimeLeft::FIVE))
    } else if starship && 300 < m && m <= 301 {
        Some(Alert::Countdown(TimeLeft::FIVEHOURS))
    } else if starship && 240 < m && m <= 241 {
        Some(Alert::Countdown(TimeLeft::FOURHOURS))
    } else if starship && 180 < m && m <= 181 {
        Some(Alert::Countdown(TimeLeft::THREEHOURS))
    } else if starship && 120 < m && m <= 121 {
        Some(Alert::Countdown(TimeLeft::TWOHOURS))
    } else if starship && 60 < m && m <= 61 {
        Some(Alert::Countdown(TimeLeft::ONEHOUR))
    } else if 7 < m && m <= 8 && (text_is(name, "Falcon 9") || text_is(name, "Falcon Heavy") || starship
        || text_is(name, "New Shepard") || text_is(name, "New Glenn")) && rocket.launcher_stage.len() > 0 {
        Some(Alert::BoosterInfo)
    } else {
        None
    }
}

/// Each countdown message is due exactly in its own one-minute window, and
/// the windows are disjoint: whatever the launch and the time, a check sends
/// at most one message about it, and which one depends only on the minutes
/// left. The booster notice is due at T-8 minutes for a Falcon 9, Falcon
/// Heavy, Starship, New Shepard or New Glenn with at least one stage.
pub proof fn lemma_countdown_windows(launch: PolymorphicLaunchEndpointDetailed, now: NetTime)
    ensures
        ({
            let m = time_of_day_minutes_between(launch.net, now);
            let eligible = launch.status matches Some(s) && s.id == LaunchStatus::Go && launch.rocket is Some
                && launch.net.day_number() == now.day_number();
            let starship = launch.rocket matches Some(r) && r.configuration.name@ == "Starship"@;
            &&& countdown_alert_spec(launch, now) == Some(Alert::Countdown(TimeLeft::THIRTY)) <==> eligible && m == 31
            &&& countdown_alert_spec(launch, now) == Some(Alert::Countdown(TimeLeft::FIFTEEN)) <==> eligible && m == 16
            &&& countdown_alert_spec(launch, now) == Some(Alert::Countdown(TimeLeft::TEN)) <==> eligible && m == 11
            &&& countdown_alert_spec(launch, now) == Some(Alert::Countdown(TimeLeft::FIVE)) <==> eligible && m == 6
            &&& countdown_alert_spec(launch, now) == Some(Alert::Countdown(TimeLeft::FIVEHOURS)) <==> eligible && starship && m == 301
            &&& countdown_alert_spec(launch, now) == Some(Alert::Countdown(TimeLeft::FOURHOURS)) <==> eligible && starship && m == 241
            &&& countdown_alert_spec(launch, now) == Some(Alert::Countdown(TimeLeft::THREEHOURS)) <==> eligible && starship && m == 181
            &&& countdown_alert_spec(launch, now) == Some(Alert::Countdown(TimeLeft::TWOHOURS)) <==> eligible && starship && m == 121
            &&& countdown_alert_spec(launch, now) == Some(Alert::Countdown(TimeLeft::ONEHOUR)) <==> eligible && starship && m == 61
            &&& countdown_alert_spec(launch, now) == Some(Alert::BoosterInfo) <==> eligible && m == 8
                && (launch.rocket matches Some(r) && r.launcher_stage@.len() > 0 && {
                    let name = r.configuration.name@;
                    name == "Falcon 9"@ || name == "Falcon Heavy"@ || name == "Starship"@ || name == "New Shepard"@
                        || name == "New Glenn"@
                })
        }),
{
}

} // verus!
