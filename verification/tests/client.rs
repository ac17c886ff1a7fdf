use mpv_sponsorblock::client::Client;
use mpv_sponsorblock::config::Config;
use mpv_sponsorblock::mpv::{
    Event, EventProperty, EventStartFile, HostAction, PropertyData, REPL_PROP_MUTE, REPL_PROP_TIME,
};
use mpv_sponsorblock::segment::{Action, Category, Segment};
use mpv_sponsorblock::store::SortedSegments;

fn new_client() -> Client {
    Client::from_ptr(1, Config::get(None))
}

fn demo_store() -> SortedSegments {
    SortedSegments::classify(vec![
        Segment::new(10_000, 20_000, Category::Sponsor, Action::Skip),
        Segment::new(30_000, 40_000, Category::SelfPromo, Action::Mute),
    ])
}

#[test]
fn end_to_end_scenario() {
    // video id "dQw4w9WgXcQ": one skip segment 10..20 s, one mute 30..40 s
    let store = demo_store();
    let mut client = new_client();

    // t = 5 s: outside every segment, nothing tracked: no action
    client.time_change(Some(5_000), false, &store);
    assert_eq!(client.handle.take_actions(), vec![]);
    assert_eq!(client.mute_segment, None);
    assert!(!client.mute_sponsorblock);

    // t = 15 s: inside the skip segment: seek to 20 s
    client.time_change(Some(15_000), false, &store);
    let acts = client.handle.take_actions();
    assert_eq!(acts.len(), 2);
    assert_eq!(acts[0], HostAction::SetTimePos { time_pos: 20_000 });
    assert!(matches!(acts[1], HostAction::ShowSkipNotice { .. }));

    // t = 35 s, host unmuted: mute and take ownership
    client.time_change(Some(35_000), false, &store);
    let acts = client.handle.take_actions();
    assert_eq!(acts[0], HostAction::SetMute { value: true });
    assert!(matches!(acts[1], HostAction::ShowMuteNotice { .. }));
    assert!(client.mute_sponsorblock);
    assert!(client.mute_segment.is_some());

    // t = 41 s: past the mute segment: unmute, clear ownership and tracking
    client.time_change(Some(41_000), true, &store);
    let acts = client.handle.take_actions();
    assert_eq!(acts, vec![HostAction::SetMute { value: false }]);
    assert!(!client.mute_sponsorblock);
    assert_eq!(client.mute_segment, None);
}

#[test]
fn mute_arbitration_external_unmute_and_exit() {
    let store = demo_store();
    let mut client = new_client();

    // entering the mute segment with the host unmuted: plugin mutes, owns it
    client.time_change(Some(31_000), false, &store);
    let acts = client.handle.take_actions();
    assert_eq!(acts[0], HostAction::SetMute { value: true });
    assert!(client.mute_sponsorblock);

    // the user unmutes mid-segment: ownership clears
    client.mute_change(Some(false));
    assert!(!client.mute_sponsorblock);
    assert_eq!(client.handle.take_actions(), vec![]);

    // next tick inside the same segment: same record, no retrigger
    client.time_change(Some(35_000), false, &store);
    assert_eq!(client.handle.take_actions(), vec![]);
    assert!(!client.mute_sponsorblock);
    assert!(client.mute_segment.is_some());

    // exiting without ownership: the host's mute state stays untouched
    client.time_change(Some(45_000), false, &store);
    assert_eq!(client.handle.take_actions(), vec![]);
    assert_eq!(client.mute_segment, None);
    assert!(!client.mute_sponsorblock);
}

#[test]
fn mute_arbitration_user_mute_takes_precedence() {
    let store = demo_store();
    let mut client = new_client();

    // host already muted by the user when the segment starts: no action,
    // no ownership, but the segment is tracked to suppress re-checks
    client.time_change(Some(31_000), true, &store);
    assert_eq!(client.handle.take_actions(), vec![]);
    assert!(!client.mute_sponsorblock);
    assert!(client.mute_segment.is_some());

    // leaving the segment: the user's mute is preserved
    client.time_change(Some(50_000), true, &store);
    assert_eq!(client.handle.take_actions(), vec![]);
    assert_eq!(client.mute_segment, None);
}

#[test]
fn mute_arbitration_plugin_remutes_on_reentry() {
    let store = demo_store();
    let mut client = new_client();

    // enter, own the mute
    client.time_change(Some(31_000), false, &store);
    client.handle.take_actions();
    // leave: plugin unmutes
    client.time_change(Some(45_000), false, &store);
    assert_eq!(
        client.handle.take_actions(),
        vec![HostAction::SetMute { value: false }]
    );
    // re-enter the same segment after an exit: the boundary was crossed, so
    // the arbitration runs again and the plugin mutes again
    client.time_change(Some(32_000), false, &store);
    let acts = client.handle.take_actions();
    assert_eq!(acts[0], HostAction::SetMute { value: true });
    assert!(client.mute_sponsorblock);
}

#[test]
fn time_change_without_data_does_nothing() {
    let store = demo_store();
    let mut client = new_client();
    client.time_change(None, false, &store);
    assert_eq!(client.handle.take_actions(), vec![]);
    assert_eq!(client.mute_segment, None);
}

#[test]
fn exec_step_start_file_spawns_worker_for_supported_url() {
    let store = SortedSegments::new();
    let mut client = new_client();
    let event = Event::StartFile(EventStartFile { playlist_entry_id: 1 });
    let cont = client.exec_step(0, &event, "https://youtu.be/dQw4w9WgXcQ", false, &store);
    assert!(cont);
    assert_eq!(
        client.handle.take_actions(),
        vec![
            HostAction::StartWorker { video_id: "dQw4w9WgXcQ".to_string() },
            HostAction::ObserveTimePos { reply: REPL_PROP_TIME },
            HostAction::ObserveMute { reply: REPL_PROP_MUTE },
        ]
    );
}

#[test]
fn exec_step_start_file_ignores_unsupported_path() {
    let store = SortedSegments::new();
    let mut client = new_client();
    let event = Event::StartFile(EventStartFile { playlist_entry_id: 1 });
    let cont = client.exec_step(0, &event, "file:///local.mkv", false, &store);
    assert!(cont);
    assert_eq!(client.handle.take_actions(), vec![]);
}

#[test]
fn exec_step_dispatches_position_updates() {
    let store = demo_store();
    let mut client = new_client();
    let event = Event::PropertyChange(EventProperty {
        name: "time-pos".to_string(),
        data: Some(PropertyData::TimePos(15_000)),
    });
    assert!(client.exec_step(REPL_PROP_TIME, &event, "", false, &store));
    let acts = client.handle.take_actions();
    assert_eq!(acts[0], HostAction::SetTimePos { time_pos: 20_000 });
}

#[test]
fn exec_step_dispatches_mute_changes() {
    let store = demo_store();
    let mut client = new_client();
    client.time_change(Some(31_000), false, &store);
    client.handle.take_actions();
    assert!(client.mute_sponsorblock);
    let event = Event::PropertyChange(EventProperty {
        name: "mute".to_string(),
        data: Some(PropertyData::Flag(false)),
    });
    assert!(client.exec_step(REPL_PROP_MUTE, &event, "", false, &store));
    assert!(!client.mute_sponsorblock);
    assert_eq!(client.handle.take_actions(), vec![]);
}

#[test]
fn exec_step_shutdown_stops_the_loop() {
    let store = SortedSegments::new();
    let mut client = new_client();
    assert!(!client.exec_step(0, &Event::Shutdown, "", false, &store));
    assert_eq!(client.handle.take_actions(), vec![]);
}

#[test]
fn exec_step_ignores_unrelated_events() {
    let store = SortedSegments::new();
    let mut client = new_client();
    assert!(client.exec_step(0, &Event::Seek, "", false, &store));
    assert!(client.exec_step(0, &Event::FileLoaded, "", false, &store));
    assert_eq!(client.handle.take_actions(), vec![]);
}

#[test]
fn poi_key_binding_jumps_to_highlight() {
    let store = SortedSegments::classify(vec![Segment::new(
        55_000,
        55_000,
        Category::PoiHighlight,
        Action::Poi,
    )]);
    let mut client = new_client();
    let args = vec!["key-binding".to_string(), "poi".to_string(), "u-".to_string()];
    client.client_message(&args, &store);
    let acts = client.handle.take_actions();
    assert_eq!(acts[0], HostAction::SetTimePos { time_pos: 55_000 });
    assert_eq!(acts[1], HostAction::ShowPoiNotice { time_pos: 55_000 });
}

#[test]
fn poi_key_binding_without_highlight_is_a_noop() {
    let store = SortedSegments::new();
    let mut client = new_client();
    let args = vec!["key-binding".to_string(), "poi".to_string(), "u-".to_string()];
    client.client_message(&args, &store);
    assert_eq!(client.handle.take_actions(), vec![]);
}

#[test]
fn segments_fetched_announces_full_category() {
    let store = SortedSegments::classify(vec![Segment::new(
        0,
        0,
        Category::ExclusiveAccess,
        Action::Full,
    )]);
    let mut client = new_client();
    let args = vec!["segments-fetched".to_string()];
    client.client_message(&args, &store);
    assert_eq!(
        client.handle.take_actions(),
        vec![HostAction::ShowCategoryNotice { category: Category::ExclusiveAccess }]
    );
}

#[test]
fn unrelated_client_messages_are_ignored() {
    let store = demo_store();
    let mut client = new_client();
    let args = vec!["key-binding".to_string(), "other".to_string(), "u-".to_string()];
    client.client_message(&args, &store);
    assert_eq!(client.handle.take_actions(), vec![]);
}

#[test]
fn end_file_stops_worker_and_resets() {
    let store = demo_store();
    let mut client = new_client();
    // own a mute first
    client.time_change(Some(31_000), false, &store);
    client.handle.take_actions();
    client.end_file();
    assert_eq!(
        client.handle.take_actions(),
        vec![
            HostAction::StopWorker,
            HostAction::UnobserveProperty { reply: REPL_PROP_TIME },
            HostAction::UnobserveProperty { reply: REPL_PROP_MUTE },
            HostAction::SetMute { value: false },
        ]
    );
    assert_eq!(client.mute_segment, None);
    assert!(!client.mute_sponsorblock);
}

#[test]
fn skip_takes_priority_over_mute() {
    // overlapping skip and mute segments: the tick seeks and never mutes
    let store = SortedSegments::classify(vec![
        Segment::new(10_000, 20_000, Category::Sponsor, Action::Skip),
        Segment::new(10_000, 20_000, Category::SelfPromo, Action::Mute),
    ]);
    let mut client = new_client();
    client.time_change(Some(15_000), false, &store);
    let acts = client.handle.take_actions();
    assert_eq!(acts[0], HostAction::SetTimePos { time_pos: 20_000 });
    assert_eq!(client.mute_segment, None);
    assert!(!client.mute_sponsorblock);
}

#[test]
fn osd_message_and_hook_continue_are_recorded() {
    let mut client = new_client();
    client.handle.osd_message("hello".to_string(), 8_000);
    client.handle.hook_continue(7);
    assert_eq!(
        client.handle.take_actions(),
        vec![
            HostAction::ShowText { text: "hello".to_string(), duration_ms: 8_000 },
            HostAction::HookContinue { id: 7 },
        ]
    );
}
