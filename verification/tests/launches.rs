use astro_alerts::alerts::{countdown_alert, Alert, TimeLeft};
use astro_alerts::auth::api_key_check;
use astro_alerts::model::{
    launch_page, AgencyDetailed, FirstStageNormal, IDStatus, Image, ImageLicense, LaunchStatus,
    LauncherConfigDetailed, LauncherNormal, Landing, LandingLocation, MessageContainer, Mission, Pad,
    PolymorphicLaunchEndpointDetailed, Rocket, Status, VidURL,
};
use astro_alerts::notify::{image_file_path, NotifyAction, NotifyEvent, Notification};
use astro_alerts::posts::{
    compose_post, compose_post_with_times, countdown_message, deployed_message, failure_message, go_message,
    hold_message, liftoff_message, post_is_defined, scrub_message, select_webcast, success_message, PostImage,
};
use std::collections::HashMap;
use astro_alerts::store::{purge_cutoff, purge_cutoff_is_defined, upcoming_launches_query, LaunchUpdate, MongoError, ReplaceAction, ReplaceEvent};
use astro_alerts::sync::{
    is_tracked_launch, plan_update, sort_by_net, update_is_defined, LaunchChannel, LaunchSync, SyncAction,
    SyncEvent, UpdatePlan,
};
use astro_alerts::time::{NetTime, MAX_TIMESTAMP, MIN_TIMESTAMP};

// 2024-05-06T00:00:00Z
const DAY: i64 = 1_714_953_600;

fn at(secs: i64) -> NetTime {
    NetTime::new(secs, 0).unwrap()
}

fn image(url: &str) -> Image {
    Image {
        id: 1,
        name: "picture".to_string(),
        image_url: url.to_string(),
        thumbnail_url: url.to_string(),
        credit: None,
        license: ImageLicense { id: 1, name: "CC".to_string(), priority: 0, link: None },
        single_use: false,
        variants: vec![],
    }
}

fn stage(serial: Option<&str>, flight: Option<i32>, proven: bool, landing: Option<Landing>) -> FirstStageNormal {
    FirstStageNormal {
        id: 7,
        stage_type: "Core".to_string(),
        reused: Some(proven),
        launcher_flight_number: flight,
        launcher: LauncherNormal {
            response_mode: "normal".to_string(),
            id: 9,
            url: "u".to_string(),
            flight_proven: proven,
            serial_number: serial.map(|s| s.to_string()),
            is_placeholder: false,
            status: None,
            image: Some(image("booster.jpg")),
            details: String::new(),
            successful_landings: None,
            attempted_landings: None,
            flights: flight,
            last_launch_date: None,
            first_launch_date: None,
            fastest_turnaround: None,
        },
        previous_flight_date: None,
        turn_around_time: None,
        landing,
    }
}

fn landing(attempt: bool, location: Option<&str>) -> Landing {
    Landing {
        id: 3,
        url: "l".to_string(),
        attempt,
        success: None,
        description: String::new(),
        downrange_distance: Some(600.5f32.to_bits()),
        landing_location: location.map(|n| LandingLocation {
            id: 4,
            name: n.to_string(),
            active: true,
            abbrev: "X".to_string(),
            description: None,
            image: None,
            successful_landings: None,
            attempted_landings: None,
            failed_landings: None,
        }),
        landing_type: IDStatus { id: 1, name: "ASDS".to_string(), abbrev: "ASDS".to_string(), description: String::new() },
    }
}

fn launch(id: &str, status: Option<LaunchStatus>, provider: &str, vehicle: &str, net: NetTime) -> PolymorphicLaunchEndpointDetailed {
    PolymorphicLaunchEndpointDetailed {
        id: id.to_string(),
        url: format!("https://example.org/{}", id),
        name: format!("{} | Demo", vehicle),
        response_mode: "detailed".to_string(),
        slug: id.to_string(),
        launch_designator: None,
        status: status.map(|s| Status { id: s, name: String::new(), abbrev: String::new(), description: String::new() }),
        last_updated: String::new(),
        net,
        net_precision: None,
        window_end: String::new(),
        window_start: String::new(),
        image: Some(image("launch.jpg")),
        infographic: None,
        probability: None,
        weather_concerns: None,
        fail_reason: None,
        hashtag: None,
        launch_service_provider: Some(AgencyDetailed {
            response_mode: "list".to_string(),
            id: 121,
            url: String::new(),
            name: format!("{} Corp", provider),
            abbrev: provider.to_string(),
            description: None,
            administrator: None,
            image: None,
            logo: None,
            social_logo: None,
            social_media_links: vec![],
        }),
        rocket: Some(Rocket {
            id: 5,
            configuration: LauncherConfigDetailed {
                response_mode: "list".to_string(),
                id: 6,
                url: String::new(),
                name: vehicle.to_string(),
                full_name: format!("{} Block 5", vehicle),
                variant: String::new(),
            },
            launcher_stage: vec![stage(Some("B1080"), Some(12), true, Some(landing(true, Some("A Shortfall of Gravitas"))))],
        }),
        mission: Some(Mission {
            id: 8,
            name: "Starlink Group 6-1".to_string(),
            mission_type: "Communications".to_string(),
            description: "A batch of satellites".to_string(),
            image: None,
        }),
        pad: Some(Pad {
            id: 80,
            url: String::new(),
            active: true,
            name: "Space Launch Complex 40".to_string(),
            image: None,
            description: None,
            info_url: None,
            wiki_url: None,
            map_url: None,
            latitude: Some(28.56f32.to_bits()),
            longitude: Some((-80.57f32).to_bits()),
        }),
        webcast_live: false,
        orbital_launch_attempt_count: None,
        location_launch_attempt_count: None,
        pad_launch_attempt_count: None,
        agency_launch_attempt_count: None,
        orbital_launch_attempt_count_year: None,
        location_launch_attempt_count_year: None,
        pad_launch_attempt_count_year: None,
        agency_launch_attempt_count_year: None,
        info_urls: vec![],
        vid_urls: vec![],
        timeline: vec![],
        pad_turnaround: String::new(),
    }
}

fn vid(priority: i32, url: &str) -> VidURL {
    VidURL {
        priority,
        source: None,
        publisher: None,
        title: None,
        description: None,
        feature_image: None,
        url: url.to_string(),
        url_type: None,
        start_time: None,
        end_time: None,
        live: true,
    }
}

fn noon() -> NetTime {
    at(DAY + 12 * 3600)
}

fn minutes_after_noon(m: i64) -> NetTime {
    at(DAY + 12 * 3600 + m * 60)
}

#[test]
fn countdown_texts() {
    assert_eq!(TimeLeft::FIVEHOURS.as_str(), "T-5 Hours");
    assert_eq!(TimeLeft::FOURHOURS.as_str(), "T-4 Hours");
    assert_eq!(TimeLeft::THREEHOURS.as_str(), "T-3 Hours");
    assert_eq!(TimeLeft::TWOHOURS.as_str(), "T-2 Hours");
    assert_eq!(TimeLeft::ONEHOUR.as_str(), "T-1 Hour");
    assert_eq!(TimeLeft::THIRTY.as_str(), "T-30 minutes");
    assert_eq!(TimeLeft::FIFTEEN.as_str(), "T-15 minutes");
    assert_eq!(TimeLeft::TEN.as_str(), "T-10 minutes");
    assert_eq!(TimeLeft::FIVE.as_str(), "T-5 minutes");
}

#[test]
fn status_names() {
    assert_eq!(LaunchStatus::Go._as_str(), "Go");
    assert_eq!(LaunchStatus::Tbd._as_str(), "TBD");
    assert_eq!(LaunchStatus::Success._as_str(), "Success");
    assert_eq!(LaunchStatus::Failure._as_str(), "Failure");
    assert_eq!(LaunchStatus::Hold._as_str(), "Hold");
    assert_eq!(LaunchStatus::InFlight._as_str(), "In Flight");
    assert_eq!(LaunchStatus::PartialFailure._as_str(), "Partial Failure");
    assert_eq!(LaunchStatus::Tbc._as_str(), "TBC");
    assert_eq!(LaunchStatus::PayloadDeployed._as_str(), "Payload Deployed");
}

#[test]
fn countdown_windows() {
    let now = noon();
    let cases = [(31, Some(Alert::Countdown(TimeLeft::THIRTY))), (30, None), (32, None),
        (16, Some(Alert::Countdown(TimeLeft::FIFTEEN))), (11, Some(Alert::Countdown(TimeLeft::TEN))),
        (6, Some(Alert::Countdown(TimeLeft::FIVE))), (5, None), (8, Some(Alert::BoosterInfo)), (301, None), (61, None)];
    for (m, expected) in cases {
        let l = launch("a", Some(LaunchStatus::Go), "SpX", "Falcon 9", minutes_after_noon(m));
        assert_eq!(countdown_alert(&l, &now), expected, "minutes {}", m);
    }
}

#[test]
fn starship_hour_windows() {
    let now = noon();
    let cases = [(301, TimeLeft::FIVEHOURS), (241, TimeLeft::FOURHOURS), (181, TimeLeft::THREEHOURS),
        (121, TimeLeft::TWOHOURS), (61, TimeLeft::ONEHOUR)];
    for (m, t) in cases {
        let l = launch("s", Some(LaunchStatus::Go), "SpX", "Starship", minutes_after_noon(m));
        assert_eq!(countdown_alert(&l, &now), Some(Alert::Countdown(t)));
    }
    let l = launch("s", Some(LaunchStatus::Go), "SpX", "Starship", minutes_after_noon(300));
    assert_eq!(countdown_alert(&l, &now), None);
}

#[test]
fn countdown_needs_go_same_day_and_vehicle() {
    let now = noon();
    let hold = launch("h", Some(LaunchStatus::Hold), "SpX", "Falcon 9", minutes_after_noon(31));
    assert_eq!(countdown_alert(&hold, &now), None);
    let tomorrow = launch("t", Some(LaunchStatus::Go), "SpX", "Falcon 9", at(DAY + 86400 + 12 * 3600 + 31 * 60));
    assert_eq!(countdown_alert(&tomorrow, &now), None);
    let no_status = launch("n", None, "SpX", "Falcon 9", minutes_after_noon(31));
    assert_eq!(countdown_alert(&no_status, &now), None);
    let mut no_rocket = launch("r", Some(LaunchStatus::Go), "SpX", "Falcon 9", minutes_after_noon(31));
    no_rocket.rocket = None;
    assert_eq!(countdown_alert(&no_rocket, &now), None);
}

#[test]
fn booster_notice_needs_known_vehicle_and_stage() {
    let now = noon();
    let other = launch("e", Some(LaunchStatus::Go), "RL", "Electron", minutes_after_noon(8));
    assert_eq!(countdown_alert(&other, &now), None);
    let mut bare = launch("b", Some(LaunchStatus::Go), "SpX", "Falcon Heavy", minutes_after_noon(8));
    assert_eq!(countdown_alert(&bare, &now), Some(Alert::BoosterInfo));
    bare.rocket.as_mut().unwrap().launcher_stage.clear();
    assert_eq!(countdown_alert(&bare, &now), None);
}

#[test]
fn alert_channels_and_messages() {
    assert_eq!(Alert::Countdown(TimeLeft::TEN).channel(), "launch_time_left");
    assert_eq!(Alert::Countdown(TimeLeft::TEN).message(), Some("T-10 minutes".to_string()));
    assert_eq!(Alert::BoosterInfo.channel(), "booster_info");
    assert_eq!(Alert::BoosterInfo.message(), None);
    assert!(Alert::BoosterInfo.failure_ends_check());
    assert!(!Alert::Countdown(TimeLeft::FIVE).failure_ends_check());
}

#[test]
fn tracked_launches() {
    assert!(is_tracked_launch(&launch("a", Some(LaunchStatus::Go), "SpX", "Falcon 9", noon())));
    assert!(is_tracked_launch(&launch("a", Some(LaunchStatus::Hold), "RL", "Electron", noon())));
    assert!(!is_tracked_launch(&launch("a", Some(LaunchStatus::Tbd), "SpX", "Falcon 9", noon())));
    assert!(!is_tracked_launch(&launch("a", Some(LaunchStatus::Tbc), "SpX", "Falcon 9", noon())));
    assert!(!is_tracked_launch(&launch("a", None, "SpX", "Falcon 9", noon())));
    for excluded in ["CASC", "MHI", "Space One", "ISRO", "CAS", "GE"] {
        assert!(!is_tracked_launch(&launch("a", Some(LaunchStatus::Go), excluded, "X", noon())));
    }
    let mut no_provider = launch("a", Some(LaunchStatus::Go), "SpX", "Falcon 9", noon());
    no_provider.launch_service_provider = None;
    assert!(!is_tracked_launch(&no_provider));
}

#[test]
fn sorting_is_stable() {
    let input = vec![
        launch("c", None, "A", "V", at(300)),
        launch("a1", None, "A", "V", at(100)),
        launch("b", None, "A", "V", at(200)),
        launch("a2", None, "A", "V", at(100)),
        launch("a3", None, "A", "V", NetTime::new(100, 5).unwrap()),
    ];
    let ids: Vec<String> = sort_by_net(input).into_iter().map(|l| l.id).collect();
    assert_eq!(ids, vec!["a1", "a2", "a3", "b", "c"]);
    assert!(sort_by_net(vec![]).is_empty());
}

#[test]
fn update_plans() {
    let cur = launch("x", Some(LaunchStatus::Go), "SpX", "Falcon 9", at(DAY));
    let same = launch("x", Some(LaunchStatus::Go), "SpX", "Falcon 9", at(DAY));
    assert_eq!(plan_update(&same, &cur), UpdatePlan::Unchanged);
    let hold = launch("x", Some(LaunchStatus::Hold), "SpX", "Falcon 9", at(DAY));
    assert_eq!(plan_update(&hold, &cur), UpdatePlan::Replace(LaunchChannel::UpdatedLaunches));
    let thirty = launch("x", Some(LaunchStatus::Go), "SpX", "Falcon 9", at(DAY + 1800));
    assert_eq!(plan_update(&thirty, &cur), UpdatePlan::Replace(LaunchChannel::UpdatedLaunches));
    let later = launch("x", Some(LaunchStatus::Go), "SpX", "Falcon 9", NetTime::new(DAY + 1800, 1).unwrap());
    assert_eq!(plan_update(&later, &cur), UpdatePlan::Replace(LaunchChannel::ScrubbedLaunches));
    let earlier = launch("x", Some(LaunchStatus::Go), "SpX", "Falcon 9", at(DAY - 7200));
    assert_eq!(plan_update(&earlier, &cur), UpdatePlan::Replace(LaunchChannel::UpdatedLaunches));
    let no_status = launch("x", None, "SpX", "Falcon 9", at(DAY + 9000));
    assert_eq!(plan_update(&no_status, &cur), UpdatePlan::Unchanged);
    assert_eq!(plan_update(&cur, &no_status), UpdatePlan::Unchanged);
    assert!(update_is_defined(&later, &cur));
    assert_eq!(LaunchChannel::ScrubbedLaunches.name(), "scrubbed_launches");
    assert_eq!(LaunchChannel::UpdatedLaunches.name(), "updated_launches");
    assert_eq!(LaunchChannel::NewLaunches.name(), "new_launches");
}

#[test]
fn update_run() {
    let cur = launch("x", Some(LaunchStatus::Go), "SpX", "Falcon 9", at(DAY));
    let later = launch("x", Some(LaunchStatus::Go), "SpX", "Falcon 9", at(DAY + 7200));
    let (mut run, first) = LaunchUpdate::begin(&later, &cur);
    assert!(matches!(first, ReplaceAction::DeleteStored));
    assert!(matches!(run.step(ReplaceEvent::Deleted(true)), ReplaceAction::InsertNew));
    assert!(matches!(run.step(ReplaceEvent::Inserted(true)), ReplaceAction::Publish(LaunchChannel::ScrubbedLaunches)));
    assert!(matches!(run.step(ReplaceEvent::Published(true)), ReplaceAction::Finish(Ok(()))));

    let (mut failing, _) = LaunchUpdate::begin(&later, &cur);
    assert!(matches!(failing.step(ReplaceEvent::Deleted(false)), ReplaceAction::Finish(Err(MongoError))));

    let (_, nothing) = LaunchUpdate::begin(&cur, &cur);
    assert!(matches!(nothing, ReplaceAction::Finish(Ok(()))));
}

#[test]
fn synchronisation_run() {
    let fetched = vec![
        launch("late", Some(LaunchStatus::Go), "SpX", "Falcon 9", at(DAY + 500)),
        launch("skip", Some(LaunchStatus::Tbd), "SpX", "Falcon 9", at(DAY + 100)),
        launch("early", Some(LaunchStatus::Hold), "RL", "Electron", at(DAY + 200)),
        launch("new", Some(LaunchStatus::Go), "SpX", "Falcon 9", at(DAY + 300)),
    ];
    let (mut sync, first) = LaunchSync::begin(fetched);
    assert_eq!(first, SyncAction::LookUp(1));
    assert_eq!(sync.launches[1].id, "early");
    assert_eq!(sync.step(SyncEvent::Found), SyncAction::Update(1));
    assert_eq!(sync.step(SyncEvent::Updated), SyncAction::LookUp(2));
    assert_eq!(sync.step(SyncEvent::NotFound), SyncAction::Add(2));
    assert_eq!(sync.step(SyncEvent::Added), SyncAction::AnnounceNew(2));
    assert_eq!(sync.step(SyncEvent::Announced), SyncAction::LookUp(3));
    assert_eq!(sync.step(SyncEvent::NotFound), SyncAction::Add(3));
    assert_eq!(sync.step(SyncEvent::AddFailed), SyncAction::Stop);
    assert_eq!(sync.step(SyncEvent::Found), SyncAction::Stop);
}

#[test]
fn synchronisation_of_untracked_launches_does_nothing() {
    let fetched = vec![launch("skip", Some(LaunchStatus::Tbc), "SpX", "Falcon 9", at(DAY))];
    let (_, first) = LaunchSync::begin(fetched);
    assert_eq!(first, SyncAction::Stop);
    let (_, none) = LaunchSync::begin(vec![]);
    assert_eq!(none, SyncAction::Stop);
}

#[test]
fn launch_pages() {
    let page = launch_page(vec![launch("a", None, "A", "V", at(0)), launch("b", None, "A", "V", at(0))]);
    assert_eq!(page.count, 2);
    assert!(page.next.is_none() && page.previous.is_none());
    assert_eq!(page.results.len(), 2);
    assert_eq!(launch_page(vec![]).count, 0);
}

#[test]
fn purge_is_seven_days_back() {
    let now = at(DAY + 3600);
    assert!(purge_cutoff_is_defined(&now));
    assert_eq!(purge_cutoff(&now), "2024-04-29T01:00:00+00:00");
    assert_eq!(purge_cutoff(&NetTime::new(DAY, 250_000_000).unwrap()), "2024-04-29T00:00:00.250+00:00");
    // a leap second is left one second early when going back in time
    assert_eq!(purge_cutoff(&NetTime::new(DAY - 1, 1_000_000_000).unwrap()), "2024-04-29T00:00:00+00:00");
    assert!(!purge_cutoff_is_defined(&at(MIN_TIMESTAMP + 86400)));
    assert!(purge_cutoff_is_defined(&at(MIN_TIMESTAMP + 7 * 86400)));
}

#[test]
fn upcoming_query() {
    let q = upcoming_launches_query();
    assert_eq!(q.url, "https://ll.thespacedevs.com/2.3.0/launches/upcoming/");
    assert_eq!(q.params, vec![
        ("limit".to_string(), "100".to_string()),
        ("format".to_string(), "json".to_string()),
        ("mode".to_string(), "detailed".to_string()),
    ]);
}

#[test]
fn api_keys() {
    let key = "s3cret key".to_string();
    assert!(!api_key_check(&None, &key));
    assert!(api_key_check(&Some(b"s3cret key".to_vec()), &key));
    assert!(!api_key_check(&Some(b"s3cret kez".to_vec()), &key));
    assert!(!api_key_check(&Some(b"s3cret".to_vec()), &key));
    assert!(!api_key_check(&Some(b"s3cret\x01key".to_vec()), &"s3cret\u{1}key".to_string()));
    assert!(api_key_check(&Some(b"a\tb".to_vec()), &"a\tb".to_string()));
    assert!(!api_key_check(&Some(vec![0xc3, 0xa9]), &"\u{e9}".to_string()));
    assert!(api_key_check(&Some(vec![]), &String::new()));
}

fn container(message: Option<&str>, l: PolymorphicLaunchEndpointDetailed) -> MessageContainer {
    MessageContainer { message: message.map(|m| m.to_string()), launch: l }
}

fn post(channel: &str, c: &MessageContainer) -> Option<(String, PostImage)> {
    let ch = channel.to_string();
    assert!(post_is_defined(&ch, c));
    compose_post(&ch, c).map(|p| (p.text, p.image))
}

#[test]
fn new_launch_post() {
    let c = container(None, launch("x", Some(LaunchStatus::Go), "SpX", "Falcon 9", at(DAY + 14 * 3600 + 30 * 60)));
    assert_eq!(post("new_launches", &c), Some((
        "Falcon 9 Block 5 is GO to launch Starlink Group 6-1 on 06-05-2024 at 14:30:00 UTC! The mission: A batch of satellites \u{1F7E2}".to_string(),
        PostImage::LaunchImage)));
    assert_eq!(post("unknown_channel", &c), None);
}

#[test]
fn scrub_posts() {
    let net = at(DAY + 14 * 3600 + 30 * 60);
    let go = container(None, launch("x", Some(LaunchStatus::Go), "SpX", "Falcon 9", net));
    assert_eq!(post("scrubbed_launches", &go).unwrap().0,
        "The Falcon 9 Block 5 launch of Starlink Group 6-1 has been SCRUBBED! The launch is now scheduled for 06-05-2024 at 14:30:00 UTC.");
    let tbd = container(None, launch("x", Some(LaunchStatus::Tbd), "SpX", "Falcon 9", net));
    assert_eq!(post("scrubbed_launches", &tbd).unwrap().0,
        "The Falcon 9 Block 5 launch of Starlink Group 6-1 has been SCRUBBED! The launch is now scheduled for 06-05-2024 at  (To Be Determined).");
}

#[test]
fn status_update_posts() {
    let net = at(DAY + 9 * 3600);
    let text = |s: LaunchStatus| post("updated_launches", &container(None, launch("x", Some(s), "SpX", "Falcon 9", net)));
    assert_eq!(text(LaunchStatus::Go).unwrap().1, PostImage::LaunchImage);
    assert_eq!(text(LaunchStatus::Hold), Some((
        "The launch of Starlink Group 6-1 on board Falcon 9 Block 5 is on HOLD! \u{1F7E1}".to_string(), PostImage::NoImage)));
    assert_eq!(text(LaunchStatus::InFlight), Some((
        "LIFTOFF of SpX Corp's Falcon 9 Block 5 from Space Launch Complex 40 carrying Starlink Group 6-1 to space! \u{1F680}".to_string(),
        PostImage::LaunchImage)));
    assert_eq!(text(LaunchStatus::Success), Some((
        "SpX Corp SUCCESSFULLY launched Starlink Group 6-1 to space from Space Launch Complex 40 on board Falcon 9 Block 5! \u{1F6F0}\u{FE0F}".to_string(),
        PostImage::NoImage)));
    assert_eq!(text(LaunchStatus::PayloadDeployed), Some((
        "Starlink Group 6-1 has been DEPLOYED from Falcon 9 Block 5! \u{1F6F0}\u{FE0F}".to_string(), PostImage::NoImage)));
    assert_eq!(text(LaunchStatus::PartialFailure), Some((
        "SpX Corp suffered a PARTIAL FAILIURE during their launch of Starlink Group 6-1 from Space Launch Complex 40 on board Falcon 9 Block 5 to space. \u{1F6F0}\u{FE0F}".to_string(),
        PostImage::NoImage)));
    assert_eq!(text(LaunchStatus::Failure), Some((
        "SpX Corp suffered a FAILIURE during their launch of Starlink Group 6-1 from Space Launch Complex 40 on board Falcon 9 Block 5 to space. \u{1F6F0}\u{FE0F}".to_string(),
        PostImage::NoImage)));
    assert_eq!(text(LaunchStatus::Tbd), None);
    assert_eq!(text(LaunchStatus::Tbc), None);
}

#[test]
fn posts_need_complete_launches() {
    let mut l = launch("x", Some(LaunchStatus::Go), "SpX", "Falcon 9", at(DAY));
    l.pad = None;
    assert_eq!(post("new_launches", &container(None, l)), None);
    let mut l = launch("x", Some(LaunchStatus::Go), "SpX", "Falcon 9", at(DAY));
    l.mission = None;
    assert_eq!(post("new_launches", &container(None, l)), None);
    let l = launch("x", None, "SpX", "Falcon 9", at(DAY));
    assert_eq!(post("new_launches", &container(None, l)), None);
}

#[test]
fn countdown_posts() {
    let l = launch("x", Some(LaunchStatus::Go), "SpX", "Falcon 9", at(DAY));
    assert_eq!(post("launch_time_left", &container(Some("T-10 minutes"), l.clone())), Some((
        "T-10 minutes! Falcon 9 Block 5 is GO to launch Starlink Group 6-1 from Space Launch Complex 40. \u{1F680}".to_string(),
        PostImage::NoImage)));
    assert_eq!(post("launch_time_left", &container(None, l.clone())), None);
    let mut streamed = l.clone();
    streamed.vid_urls = vec![vid(1, "https://a"), vid(5, "https://official"), vid(5, "https://mirror"), vid(3, "https://b")];
    assert_eq!(post("launch_time_left", &container(Some("T-5 minutes"), streamed)).unwrap().0,
        "T-5 minutes! Falcon 9 Block 5 is GO to launch Starlink Group 6-1 from Space Launch Complex 40. \u{1F680}\nWATCH LIVE: https://official");
    let mut unranked = l;
    unranked.vid_urls = vec![vid(0, "https://zero")];
    assert_eq!(post("launch_time_left", &container(Some("T-5 minutes"), unranked)), None);
}

#[test]
fn webcast_selection() {
    assert_eq!(select_webcast(&vec![]), "");
    assert_eq!(select_webcast(&vec![vid(-1, "n"), vid(0, "z")]), "");
    assert_eq!(select_webcast(&vec![vid(2, "first"), vid(2, "second")]), "first");
    assert_eq!(select_webcast(&vec![vid(2, "first"), vid(9, "best"), vid(4, "x")]), "best");
}

fn booster_launch(vehicle: &str, st: FirstStageNormal) -> MessageContainer {
    let mut l = launch("x", Some(LaunchStatus::Go), "SpX", vehicle, at(DAY));
    l.rocket.as_mut().unwrap().launcher_stage = vec![st];
    container(None, l)
}

#[test]
fn booster_posts() {
    let c = booster_launch("Falcon 9", stage(Some("B1080"), Some(12), true, Some(landing(true, Some("A Shortfall of Gravitas")))));
    assert_eq!(post("booster_info", &c), Some((
        "The booster supporting today's Falcon 9 mission (B1080) will be flying for its 12th time having previously supported 11 missions. The booster will attempt to land on/at A Shortfall of Gravitas for recovery and reuse in future missions.".to_string(),
        PostImage::BoosterImage)));
    let c = booster_launch("New Glenn", stage(None, Some(1), false, Some(landing(true, None))));
    assert_eq!(post("booster_info", &c).unwrap().0,
        "The booster supporting today's New Glenn mission will be flying for its first time. The booster will attempt to land for recovery and reuse in future missions.");
    let c = booster_launch("Starship", stage(Some("B12"), Some(2), true, Some(landing(true, Some("OLP-A")))));
    assert_eq!(post("booster_info", &c).unwrap().0,
        "The booster supporting today's Starship mission (B12) will be flying for its 2nd time having previously supported 1 missions. The booster will perform a catch attempt using Mechazilla's tower arms at OLP-A. After recovery, the booster will be closely inspected in order to gather as much data possible. This will help the future development of Starship..");
    let c = booster_launch("Starship", stage(None, None, true, Some(landing(true, None))));
    assert_eq!(post("booster_info", &c).unwrap().0,
        "The booster supporting today's Starship mission will be flying for its first time. The booster will perform a catch attempt using Mechazilla's tower arms for recovery and use in future missions.");
    let c = booster_launch("Falcon Heavy", stage(None, Some(3), true, Some(landing(true, None))));
    assert_eq!(post("booster_info", &c), None);
    let c = booster_launch("Falcon Heavy", stage(None, Some(3), true, Some(landing(false, None))));
    assert_eq!(post("booster_info", &c).unwrap().0,
        "The booster supporting today's Falcon Heavy mission will be flying for its 3rd time having previously supported 2 missions. No recovery attempt will be carried out for this booster, therefore it will be flying for its last time and expended after completing its final mission.");
    let c = booster_launch("Electron", stage(None, Some(-1), true, None));
    assert_eq!(post("booster_info", &c).unwrap().0,
        "The booster supporting today's Electron mission will be flying for its 4294967295th time having previously supported -2 missions. No recovery attempt will be carried out for this booster, therefore it will be flying for its last time and expended after completing its final mission.");
}

#[test]
fn booster_posts_need_a_stage() {
    let mut l = launch("x", Some(LaunchStatus::Go), "SpX", "Falcon 9", at(DAY));
    l.rocket.as_mut().unwrap().launcher_stage.clear();
    let c = container(None, l);
    assert!(!post_is_defined(&"booster_info".to_string(), &c));
    assert!(post_is_defined(&"new_launches".to_string(), &c));
    let c = booster_launch("Falcon 9", stage(None, Some(i32::MIN), true, None));
    assert!(!post_is_defined(&"booster_info".to_string(), &c));
}

#[test]
fn picture_files() {
    assert_eq!(image_file_path(&"abc-123".to_string()), "./abc-123-image.jpg");
}

#[test]
fn notification_with_picture() {
    let (mut n, first) = Notification::begin(true);
    assert_eq!(first, NotifyAction::Wait);
    assert_eq!(n.step(NotifyEvent::Waited), NotifyAction::Download);
    assert_eq!(n.step(NotifyEvent::Downloaded(true)), NotifyAction::Save);
    assert_eq!(n.step(NotifyEvent::Saved(true)), NotifyAction::Upload);
    assert_eq!(n.step(NotifyEvent::Uploaded(true)), NotifyAction::PostWithPicture);
    assert_eq!(n.step(NotifyEvent::PostSent), NotifyAction::RemoveImageFile);
    assert_eq!(n.step(NotifyEvent::FileRemoved), NotifyAction::Finish);
}

#[test]
fn notification_falls_back_to_text() {
    let (mut n, _) = Notification::begin(true);
    n.step(NotifyEvent::Waited);
    assert_eq!(n.step(NotifyEvent::Downloaded(false)), NotifyAction::PostText);
    assert_eq!(n.step(NotifyEvent::PostSent), NotifyAction::Finish);
    let (mut n, _) = Notification::begin(true);
    n.step(NotifyEvent::Waited);
    n.step(NotifyEvent::Downloaded(true));
    n.step(NotifyEvent::Saved(true));
    assert_eq!(n.step(NotifyEvent::Uploaded(false)), NotifyAction::PostText);
    assert_eq!(n.step(NotifyEvent::PostSent), NotifyAction::Finish);
    let (mut n, _) = Notification::begin(false);
    assert_eq!(n.step(NotifyEvent::Waited), NotifyAction::PostText);
    assert_eq!(n.step(NotifyEvent::PostSent), NotifyAction::Finish);
}

#[test]
fn scrub_limit_follows_leap_seconds() {
    // stored at 23:59:60.25; thirty minutes later is 00:29:59.25
    let cur = launch("x", Some(LaunchStatus::Go), "SpX", "Falcon 9", NetTime::new(DAY - 1, 1_250_000_000).unwrap());
    let slightly_later = launch("x", Some(LaunchStatus::Go), "SpX", "Falcon 9", NetTime::new(DAY + 1799, 300_000_000).unwrap());
    assert_eq!(plan_update(&slightly_later, &cur), UpdatePlan::Replace(LaunchChannel::ScrubbedLaunches));
    let just_within = launch("x", Some(LaunchStatus::Go), "SpX", "Falcon 9", NetTime::new(DAY + 1799, 200_000_000).unwrap());
    assert_eq!(plan_update(&just_within, &cur), UpdatePlan::Replace(LaunchChannel::UpdatedLaunches));
}

#[test]
fn scrub_limit_out_of_range() {
    let cur = launch("x", Some(LaunchStatus::Go), "SpX", "Falcon 9", at(MAX_TIMESTAMP));
    let hold = launch("x", Some(LaunchStatus::Hold), "SpX", "Falcon 9", at(MAX_TIMESTAMP));
    assert!(!update_is_defined(&hold, &cur));
    assert!(update_is_defined(&cur, &cur));
    let cur = launch("x", Some(LaunchStatus::Go), "SpX", "Falcon 9", at(MAX_TIMESTAMP - 1800));
    let hold = launch("x", Some(LaunchStatus::Hold), "SpX", "Falcon 9", at(MAX_TIMESTAMP));
    assert!(update_is_defined(&hold, &cur));
    assert_eq!(plan_update(&hold, &cur), UpdatePlan::Replace(LaunchChannel::UpdatedLaunches));
}

#[test]
fn countdown_minutes_round_toward_zero() {
    let now = noon();
    // 30 minutes 59 seconds left: still 30 whole minutes
    let l = launch("a", Some(LaunchStatus::Go), "SpX", "Falcon 9", at(DAY + 12 * 3600 + 31 * 60 - 1));
    assert_eq!(countdown_alert(&l, &now), None);
    let l = launch("a", Some(LaunchStatus::Go), "SpX", "Falcon 9", at(DAY + 12 * 3600 + 31 * 60 + 59));
    assert_eq!(countdown_alert(&l, &now), Some(Alert::Countdown(TimeLeft::THIRTY)));
    // only the times of day are compared; the date must match separately
    let late_now = at(DAY + 23 * 3600);
    let l = launch("a", Some(LaunchStatus::Go), "SpX", "Falcon 9", at(DAY + 23 * 3600 + 16 * 60));
    assert_eq!(countdown_alert(&l, &late_now), Some(Alert::Countdown(TimeLeft::FIFTEEN)));
}

#[test]
fn dates_and_times_in_posts() {
    let l = launch("x", Some(LaunchStatus::Go), "SpX", "Falcon 9", NetTime::new(DAY + 14 * 3600 + 5 * 60 + 9, 500_000_000).unwrap());
    let text = post("new_launches", &container(None, l)).unwrap().0;
    assert!(text.contains(" on 06-05-2024 at 14:05:09.500 UTC!"), "{}", text);
    let l = launch("x", Some(LaunchStatus::Go), "SpX", "Falcon 9", NetTime::new(DAY - 1, 1_000_000_000).unwrap());
    let text = post("new_launches", &container(None, l)).unwrap().0;
    assert!(text.contains(" on 05-05-2024 at 23:59:60 UTC!"), "{}", text);
    let l = launch("x", Some(LaunchStatus::Go), "SpX", "Falcon 9", NetTime::new(7, 1_000).unwrap());
    let text = post("scrubbed_launches", &container(None, l)).unwrap().0;
    assert!(text.ends_with(" for 01-01-1970 at 00:00:07.000001 UTC."), "{}", text);
    let l = launch("x", Some(LaunchStatus::Go), "SpX", "Falcon 9", NetTime::new(-1, 7).unwrap());
    let text = post("scrubbed_launches", &container(None, l)).unwrap().0;
    assert!(text.ends_with(" for 31-12-1969 at 23:59:59.000000007 UTC."), "{}", text);
}

#[test]
fn posts_with_given_times() {
    let c = container(None, launch("x", Some(LaunchStatus::Go), "SpX", "Falcon 9", at(DAY)));
    let p = compose_post_with_times(&"new_launches".to_string(), &c, &"D".to_string(), &"T".to_string()).unwrap();
    assert_eq!(p.text, "Falcon 9 Block 5 is GO to launch Starlink Group 6-1 on D at T UTC! The mission: A batch of satellites \u{1F7E2}");
    let p = compose_post_with_times(&"scrubbed_launches".to_string(), &c, &"D".to_string(), &"T".to_string()).unwrap();
    assert_eq!(p.text, "The Falcon 9 Block 5 launch of Starlink Group 6-1 has been SCRUBBED! The launch is now scheduled for D at T UTC.");
    assert!(compose_post_with_times(&"other".to_string(), &c, &"D".to_string(), &"T".to_string()).is_none());
}

#[test]
fn post_text_builders() {
    let s = |x: &str| x.to_string();
    assert_eq!(go_message(&s("F"), &s("M"), &s("D"), &s("T"), &s("X")), "F is GO to launch M on D at T UTC! The mission: X \u{1F7E2}");
    assert_eq!(scrub_message(&s("F"), &s("M"), &s("D"), &s("W")), "The F launch of M has been SCRUBBED! The launch is now scheduled for D at W.");
    assert_eq!(hold_message(&s("M"), &s("F")), "The launch of M on board F is on HOLD! \u{1F7E1}");
    assert_eq!(liftoff_message(&s("P"), &s("F"), &s("L"), &s("M")), "LIFTOFF of P's F from L carrying M to space! \u{1F680}");
    assert_eq!(success_message(&s("P"), &s("M"), &s("L"), &s("F")), "P SUCCESSFULLY launched M to space from L on board F! \u{1F6F0}\u{FE0F}");
    assert_eq!(deployed_message(&s("M"), &s("F")), "M has been DEPLOYED from F! \u{1F6F0}\u{FE0F}");
    assert_eq!(failure_message(&s("P"), "FAILIURE", &s("M"), &s("L"), &s("F")), "P suffered a FAILIURE during their launch of M from L on board F to space. \u{1F6F0}\u{FE0F}");
    assert_eq!(countdown_message(&s("T-5 minutes"), &s("F"), &s("M"), &s("L")), "T-5 minutes! F is GO to launch M from L. \u{1F680}");
}

/// Runs one synchronisation against an in-memory store in which every
/// operation succeeds; returns the announcements (channel, launch id).
fn run_sync(fetched: Vec<PolymorphicLaunchEndpointDetailed>, store: &mut HashMap<String, PolymorphicLaunchEndpointDetailed>) -> Vec<(String, String)> {
    let mut published = Vec::new();
    let (mut sync, mut action) = LaunchSync::begin(fetched);
    let mut stored = None;
    loop {
        let event = match action {
            SyncAction::LookUp(i) => match store.get(&sync.launches[i].id) {
                Some(v) => {
                    stored = Some(v.clone());
                    SyncEvent::Found
                }
                None => SyncEvent::NotFound,
            },
            SyncAction::Update(i) => {
                let new = sync.launches[i].clone();
                let current = stored.take().unwrap();
                assert!(update_is_defined(&new, &current));
                let (mut run, mut step) = LaunchUpdate::begin(&new, &current);
                loop {
                    let e = match step {
                        ReplaceAction::DeleteStored => ReplaceEvent::Deleted(store.remove(&new.id).is_some()),
                        ReplaceAction::InsertNew => {
                            store.insert(new.id.clone(), new.clone());
                            ReplaceEvent::Inserted(true)
                        }
                        ReplaceAction::Publish(c) => {
                            published.push((c.name().to_string(), new.id.clone()));
                            ReplaceEvent::Published(true)
                        }
                        ReplaceAction::Finish(r) => {
                            assert!(r.is_ok());
                            break;
                        }
                    };
                    step = run.step(e);
                }
                SyncEvent::Updated
            }
            SyncAction::Add(i) => {
                store.insert(sync.launches[i].id.clone(), sync.launches[i].clone());
                SyncEvent::Added
            }
            SyncAction::AnnounceNew(i) => {
                published.push((LaunchChannel::NewLaunches.name().to_string(), sync.launches[i].id.clone()));
                SyncEvent::Announced
            }
            SyncAction::Stop => return published,
        };
        action = sync.step(event);
    }
}

#[test]
fn rerunning_a_synchronisation_changes_nothing() {
    let mut store = HashMap::new();
    store.insert("moved".to_string(), launch("moved", Some(LaunchStatus::Go), "SpX", "Falcon 9", at(DAY)));
    store.insert("held".to_string(), launch("held", Some(LaunchStatus::Go), "SpX", "Falcon 9", at(DAY + 100)));
    let fetched = vec![
        launch("moved", Some(LaunchStatus::Go), "SpX", "Falcon 9", at(DAY + 7200)),
        launch("held", Some(LaunchStatus::Hold), "SpX", "Falcon 9", at(DAY + 100)),
        launch("new", Some(LaunchStatus::Go), "RL", "Electron", at(DAY + 50)),
        launch("skip", Some(LaunchStatus::Tbd), "SpX", "Falcon 9", at(DAY + 10)),
    ];
    let first = run_sync(fetched.clone(), &mut store);
    assert_eq!(first, vec![
        ("new_launches".to_string(), "new".to_string()),
        ("updated_launches".to_string(), "held".to_string()),
        ("scrubbed_launches".to_string(), "moved".to_string()),
    ]);
    let ids_after_first: Vec<(String, i64)> = {
        let mut v: Vec<(String, i64)> = store.values().map(|l| (l.id.clone(), l.net.secs)).collect();
        v.sort();
        v
    };
    let second = run_sync(fetched, &mut store);
    assert!(second.is_empty());
    let mut ids_after_second: Vec<(String, i64)> = store.values().map(|l| (l.id.clone(), l.net.secs)).collect();
    ids_after_second.sort();
    assert_eq!(ids_after_first, ids_after_second);
}
