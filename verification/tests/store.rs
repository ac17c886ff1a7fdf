use mpv_sponsorblock::segment::{Action, Category, Segment};
use mpv_sponsorblock::store::SortedSegments;

fn seg(start: u64, end: u64, category: Category, action: Action) -> Segment {
    Segment::new(start, end, category, action)
}

#[test]
fn classify_partitions_by_action() {
    let records = vec![
        seg(10_000, 20_000, Category::Sponsor, Action::Skip),
        seg(30_000, 40_000, Category::SelfPromo, Action::Mute),
        seg(55_000, 55_000, Category::PoiHighlight, Action::Poi),
        seg(0, 0, Category::ExclusiveAccess, Action::Full),
        seg(50_000, 60_000, Category::Intro, Action::Skip),
    ];
    let store = SortedSegments::classify(records.clone());
    // every record lands in exactly one bucket, order preserved
    assert_eq!(store.skippable, vec![records[0], records[4]]);
    assert_eq!(store.mutable, vec![records[1]]);
    assert_eq!(store.poi, Some(records[2]));
    assert_eq!(store.full, Some(records[3]));
}

#[test]
fn classify_keeps_only_first_poi_and_full() {
    let records = vec![
        seg(1, 2, Category::PoiHighlight, Action::Poi),
        seg(3, 4, Category::PoiHighlight, Action::Poi),
        seg(0, 0, Category::Sponsor, Action::Full),
        seg(0, 0, Category::Filler, Action::Full),
    ];
    let store = SortedSegments::classify(records.clone());
    assert_eq!(store.poi, Some(records[0]));
    assert_eq!(store.full, Some(records[2]));
    assert!(store.skippable.is_empty());
    assert!(store.mutable.is_empty());
}

#[test]
fn classify_empty_input_yields_empty_store() {
    let store = SortedSegments::classify(Vec::new());
    assert!(store.skippable.is_empty());
    assert!(store.mutable.is_empty());
    assert_eq!(store.poi, None);
    assert_eq!(store.full, None);
}

#[test]
fn failed_fetch_degrades_to_empty_store() {
    let store = SortedSegments::from_fetch(None);
    assert!(store.skippable.is_empty());
    assert!(store.mutable.is_empty());
    assert_eq!(store.poi, None);
    assert_eq!(store.full, None);
    assert_eq!(store.get_skip_segment(0), None);
    assert_eq!(store.get_mute_segment(0), None);
    assert_eq!(store.get_video_poi(), None);
    assert_eq!(store.get_video_category(), None);
}

#[test]
fn skip_query_bounds_are_inclusive() {
    let s = seg(10_000, 20_000, Category::Sponsor, Action::Skip);
    let store = SortedSegments::classify(vec![s]);
    assert_eq!(store.get_skip_segment(9_999), None);
    assert_eq!(store.get_skip_segment(10_000), Some(s));
    assert_eq!(store.get_skip_segment(15_000), Some(s));
    assert_eq!(store.get_skip_segment(20_000), Some(s));
    assert_eq!(store.get_skip_segment(20_001), None);
}

#[test]
fn overlapping_ranges_return_first_in_bucket_order() {
    let first = seg(10_000, 30_000, Category::Sponsor, Action::Skip);
    let second = seg(20_000, 40_000, Category::Intro, Action::Skip);
    let store = SortedSegments::classify(vec![first, second]);
    // both contain 25_000; the first-encountered record wins
    assert_eq!(store.get_skip_segment(25_000), Some(first));
    assert_eq!(store.get_skip_segment(35_000), Some(second));
    assert_eq!(store.get_skip_segment(45_000), None);
}

#[test]
fn equal_records_are_found_deterministically() {
    let a = seg(5_000, 6_000, Category::Sponsor, Action::Mute);
    let b = seg(5_000, 6_000, Category::Sponsor, Action::Mute);
    let store = SortedSegments::classify(vec![a, b]);
    assert_eq!(store.get_mute_segment(5_500), Some(a));
}

#[test]
fn mute_query_is_a_pure_read() {
    let s = seg(30_000, 40_000, Category::SelfPromo, Action::Mute);
    let store = SortedSegments::classify(vec![s]);
    // same store, same position: the same record every time
    let r1 = store.get_mute_segment(35_000);
    let r2 = store.get_mute_segment(35_000);
    let r3 = store.get_mute_segment(35_000);
    assert_eq!(r1, Some(s));
    assert_eq!(r1, r2);
    assert_eq!(r2, r3);
}

#[test]
fn poi_and_full_queries_project_their_records() {
    let poi = seg(55_000, 55_000, Category::PoiHighlight, Action::Poi);
    let full = seg(0, 0, Category::ExclusiveAccess, Action::Full);
    let store = SortedSegments::classify(vec![poi, full]);
    assert_eq!(store.get_video_poi(), Some(55_000));
    assert_eq!(store.get_video_category(), Some(Category::ExclusiveAccess));
}

#[test]
fn new_store_answers_no_queries() {
    let store = SortedSegments::new();
    assert_eq!(store.get_skip_segment(0), None);
    assert_eq!(store.get_mute_segment(u64::MAX), None);
    assert_eq!(store.get_video_poi(), None);
    assert_eq!(store.get_video_category(), None);
}

#[test]
fn record_identity_ignores_action() {
    let a = seg(1_000, 2_000, Category::Sponsor, Action::Mute);
    let b = seg(1_000, 2_000, Category::Sponsor, Action::Skip);
    let c = seg(1_000, 2_000, Category::Intro, Action::Mute);
    assert!(a.eq_record(&b));
    assert!(!a.eq_record(&c));
    assert!(a.is_in_segment(1_000));
    assert!(a.is_in_segment(2_000));
    assert!(!a.is_in_segment(2_001));
}
