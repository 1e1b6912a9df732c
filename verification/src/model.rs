//! The launch records exchanged between the data service, its database and
//! the posting bot. Each value that the outside world writes as a date and
//! time is held as a [`NetTime`]; each single-precision coordinate or
//! distance is held as the bit pattern of the `f32` (`f32::to_bits`).
use vstd::prelude::*;
use crate::time::NetTime;

verus! {

/// A page of launches, as the launch library serves it.
#[derive(Clone, Debug)]
pub struct PaginatedPolymorphicLaunchEndpointList {
    pub count: i32,
    pub next: Option<String>,
    pub previous: Option<String>,
    pub results: Vec<PolymorphicLaunchEndpointDetailed>,
}

/// One launch with all its details.
#[derive(Clone, Debug)]
pub struct PolymorphicLaunchEndpointDetailed {
    pub id: String,
    pub url: String,
    pub name: String,
    pub response_mode: String,
    pub slug: String,
    pub launch_designator: Option<String>,
    pub status: Option<Status>,
    pub last_updated: String,
    pub net: NetTime,
    pub net_precision: Option<IDStatus>,
    pub window_end: String,
    pub window_start: String,
    pub image: Option<Image>,
    pub infographic: Option<String>,
    pub probability: Option<i32>,
    pub weather_concerns: Option<String>,
    pub fail_reason: Option<String>,
    pub hashtag: Option<String>,
    pub launch_service_provider: Option<AgencyDetailed>,
    pub rocket: Option<Rocket>,
    pub mission: Option<Mission>,
    pub pad: Option<Pad>,
    pub webcast_live: bool,
    pub orbital_launch_attempt_count: Option<i32>,
    pub location_launch_attempt_count: Option<i32>,
    pub pad_launch_attempt_count: Option<i32>,
    pub agency_launch_attempt_count: Option<i32>,
    pub orbital_launch_attempt_count_year: Option<i32>,
    pub location_launch_attempt_count_year: Option<i32>,
    pub pad_launch_attempt_count_year: Option<i32>,
    pub agency_launch_attempt_count_year: Option<i32>,
    pub info_urls: Vec<InfoURL>,
    pub vid_urls: Vec<VidURL>,
    pub timeline: Vec<TimelineEvent>,
    pub pad_turnaround: String,
}

/// The status of a launch.
#[derive(Clone, Debug)]
pub struct Status {
    pub id: LaunchStatus,
    pub name: String,
    pub abbrev: String,
    pub description: String,
}

/// A numbered status, such as the precision of a launch time.
#[derive(Clone, Debug)]
pub struct IDStatus {
    pub id: i32,
    pub name: String,
    pub abbrev: String,
    pub description: String,
}

#[derive(Clone, Debug)]
pub struct Image {
    pub id: i32,
    pub name: String,
    pub image_url: String,
    pub thumbnail_url: String,
    pub credit: Option<String>,
    pub license: ImageLicense,
    pub single_use: bool,
    pub variants: Vec<ImageVariant>,
}

#[derive(Clone, Debug)]
pub struct ImageLicense {
    pub id: i32,
    pub name: String,
    pub priority: i32,
    pub link: Option<String>,
}

#[derive(Clone, Debug)]
pub struct ImageVariant {
    pub id: i32,
    pub variant_type: Type,
    pub image_url: String,
}

#[derive(Clone, Debug)]
pub struct Type {
    pub id: i32,
    pub name: Option<String>,
}

/// A launch service provider.
#[derive(Clone, Debug)]
pub struct AgencyDetailed {
    pub response_mode: String,
    pub id: i32,
    pub url: String,
    pub name: String,
    pub abbrev: String,
    pub description: Option<String>,
    pub administrator: Option<String>,
    pub image: Option<Image>,
    pub logo: Option<Image>,
    pub social_logo: Option<Image>,
    pub social_media_links: Vec<SocialMediaLink>,
}

#[derive(Clone, Debug)]
pub struct SocialMediaLink {
    pub id: i32,
    pub social_media: SocialMedia,
    pub url: Option<String>,
}

#[derive(Clone, Debug)]
pub struct SocialMedia {
    pub id: i32,
    pub name: String,
    pub url: Option<String>,
    pub logo: Option<Image>,
}

/// The vehicle of a launch and its first stages.
#[derive(Clone, Debug)]
pub struct Rocket {
    pub id: i32,
    pub configuration: LauncherConfigDetailed,
    pub launcher_stage: Vec<FirstStageNormal>,
}

#[derive(Clone, Debug)]
pub struct LauncherConfigDetailed {
    pub response_mode: String,
    pub id: i32,
    pub url: String,
    pub name: String,
    pub full_name: String,
    pub variant: String,
}

#[derive(Clone, Debug)]
pub struct FirstStageNormal {
    pub id: i32,
    pub stage_type: String,
    pub reused: Option<bool>,
    pub launcher_flight_number: Option<i32>,
    pub launcher: LauncherNormal,
    pub previous_flight_date: Option<String>,
    pub turn_around_time: Option<String>,
    pub landing: Option<Landing>,
}

/// A booster.
#[derive(Clone, Debug)]
pub struct LauncherNormal {
    pub response_mode: String,
    pub id: i32,
    pub url: String,
    pub flight_proven: bool,
    pub serial_number: Option<String>,
    pub is_placeholder: bool,
    pub status: Option<Type>,
    pub image: Option<Image>,
    pub details: String,
    pub successful_landings: Option<i32>,
    pub attempted_landings: Option<i32>,
    pub flights: Option<i32>,
    pub last_launch_date: Option<String>,
    pub first_launch_date: Option<String>,
    pub fastest_turnaround: Option<String>,
}

/// A landing attempt; `downrange_distance` holds the bits of an `f32`.
#[derive(Clone, Debug)]
pub struct Landing {
    pub id: i32,
    pub url: String,
    pub attempt: bool,
    pub success: Option<bool>,
    pub description: String,
    pub downrange_distance: Option<u32>,
    pub landing_location: Option<LandingLocation>,
    pub landing_type: IDStatus,
}

#[derive(Clone, Debug)]
pub struct LandingLocation {
    pub id: i32,
    pub name: String,
    pub active: bool,
    pub abbrev: String,
    pub description: Option<String>,
    pub image: Option<Image>,
    pub successful_landings: Option<i32>,
    pub attempted_landings: Option<i32>,
    pub failed_landings: Option<i32>,
}

#[derive(Clone, Debug)]
pub struct Mission {
    pub id: i32,
    pub name: String,
    pub mission_type: String,
    pub description: String,
    pub image: Option<Image>,
}

/// A launch pad; `latitude` and `longitude` hold the bits of `f32` values.
#[derive(Clone, Debug)]
pub struct Pad {
    pub id: i32,
    pub url: String,
    pub active: bool,
    pub name: String,
    pub image: Option<Image>,
    pub description: Option<String>,
    pub info_url: Option<String>,
    pub wiki_url: Option<String>,
    pub map_url: Option<String>,
    pub latitude: Option<u32>,
    pub longitude: Option<u32>,
}

#[derive(Clone, Debug)]
pub struct InfoURL {
    pub priority: i32,
    pub source: Option<String>,
    pub title: Option<String>,
    pub description: Option<String>,
    pub feature_image: Option<String>,
    pub url: String,
    pub url_type: Option<Type>,
}

/// A video stream of a launch.
#[derive(Clone, Debug)]
pub struct VidURL {
    pub priority: i32,
    pub source: Option<String>,
    pub publisher: Option<String>,
    pub title: Option<String>,
    pub description: Option<String>,
    pub feature_image: Option<String>,
    pub url: String,
    pub url_type: Option<Type>,
    pub start_time: Option<String>,
    pub end_time: Option<String>,
    pub live: bool,
}

#[derive(Clone, Debug)]
pub struct TimelineEvent {
    pub event_type: Option<Type>,
    pub relative_time: Option<String>,
}

#[derive(Clone, Debug)]
pub struct TimelineEventType {
    pub id: i32,
    pub abbrev: String,
    pub description: String,
}

/// What travels on the message channels between the service and the bot:
/// a launch and, for countdown alerts, the alert text.
#[derive(Clone, Debug)]
pub struct MessageContainer {
    pub message: Option<String>,
    pub launch: PolymorphicLaunchEndpointDetailed,
}

/// The status of a launch. On the wire each status is a number, from 1 for
/// `Go` to 9 for `PayloadDeployed`, in the order below.
#[derive(Clone, Copy, Debug, PartialEq, Eq, Structural)]
pub enum LaunchStatus {
    Go,
    Tbd,
    Success,
    Failure,
    Hold,
    InFlight,
    PartialFailure,
    Tbc,
    PayloadDeployed,
}

/// The name of a launch status.
pub open spec fn launch_status_text(s: LaunchStatus) -> Seq<char> {
    match s {
        LaunchStatus::Go => "Go"@,
        LaunchStatus::Tbd => "TBD"@,
        LaunchStatus::Failure => "Failure"@,
        LaunchStatus::Success => "Success"@,
        LaunchStatus::InFlight => "In Flight"@,
        LaunchStatus::Hold => "Hold"@,
        LaunchStatus::PartialFailure => "Partial Failure"@,
        LaunchStatus::Tbc => "TBC"@,
        LaunchStatus::PayloadDeployed => "Payload Deployed"@,
    }
}

/// The statuses are named "Go", "TBD", "Success", "Failure", "Hold",
/// "In Flight", "Partial Failure", "TBC" and "Payload Deployed", and no two
/// share a name.
pub proof fn lemma_status_names(s: LaunchStatus)
    ensures
        launch_status_text(s) == match s {
            LaunchStatus::Go => "Go"@,
            LaunchStatus::Tbd => "TBD"@,
            LaunchStatus::Success => "Success"@,
            LaunchStatus::Failure => "Failure"@,
            LaunchStatus::Hold => "Hold"@,
            LaunchStatus::InFlight => "In Flight"@,
            LaunchStatus::PartialFailure => "Partial Failure"@,
            LaunchStatus::Tbc => "TBC"@,
            LaunchStatus::PayloadDeployed => "Payload Deployed"@,
        },
        forall|t: LaunchStatus| #[trigger] launch_status_text(t) == launch_status_text(s) ==> t == s,
{
    reveal_strlit("Go");
    reveal_strlit("TBD");
    reveal_strlit("Success");
    reveal_strlit("Failure");
    reveal_strlit("Hold");
    reveal_strlit("In Flight");
    reveal_strlit("Partial Failure");
    reveal_strlit("TBC");
    reveal_strlit("Payload Deployed");
    assert("Success"@[0] != "Failure"@[0]);
    assert("TBD"@[2] != "TBC"@[2]);
    assert forall|t: LaunchStatus| #[trigger] launch_status_text(t) == launch_status_text(s) implies t == s by {
        assert(launch_status_text(t).len() == launch_status_text(s).len());
        if launch_status_text(t).len() == 3 || launch_status_text(t).len() == 7 {
            assert(launch_status_text(t)[0] == launch_status_text(s)[0]);
            assert(launch_status_text(t)[2] == launch_status_text(s)[2]);
        }
    }
}

impl LaunchStatus {
    /// The name of the status.
    pub fn _as_str(&self) -> (s: &'static str)
        ensures
            s@ == launch_status_text(*self),
    {
        match self {
            LaunchStatus::Go => "Go",
            LaunchStatus::Tbd => "TBD",
            LaunchStatus::Failure => "Failure",
            LaunchStatus::Success => "Success",
            LaunchStatus::InFlight => "In Flight",
            LaunchStatus::Hold => "Hold",
            LaunchStatus::PartialFailure => "Partial Failure",
            LaunchStatus::Tbc => "TBC",
            LaunchStatus::PayloadDeployed => "Payload Deployed",
        }
    }
}

/// A page that holds every launch given, with no neighbouring pages; the
/// count is the number of launches, wrapped to 32 bits.
pub fn launch_page(results: Vec<PolymorphicLaunchEndpointDetailed>) -> (page: PaginatedPolymorphicLaunchEndpointList)
    ensures
        page.results@ == results@,
        page.count as int == (results@.len() as int) % 0x1_0000_0000 - (if (results@.len() as int) % 0x1_0000_0000 >= 0x8000_0000 { 0x1_0000_0000int } else { 0 }),
        page.next is None,
        page.previous is None,
{
    let n: usize = results.len();
    let low: u64 = (n as u64) % 0x1_0000_0000;
    let count: i32 = if low >= 0x8000_0000 { (low as i64 - 0x1_0000_0000) as i32 } else { low as i32 };
    PaginatedPolymorphicLaunchEndpointList { count, next: None, previous: None, results }
}

} // verus!
