//! The client-side algorithms: the normalizer, the search loop, the path
//! sampler, the mip-level bound, the key capability set, and the error
//! taxonomy.

use winatep_client::BoundingRectangle;
use winatep_client::Error;
use winatep_client::FindImageFilter;
use winatep_client::FindImageQuality;
use winatep_client::Frame;
use winatep_client::Key;
use winatep_client::OutputMessage;
use winatep_client::Platform;
use winatep_client::Point;
use winatep_client::ScaleFactor;
use winatep_client::Screen;
use winatep_client::SearchKind;
use winatep_client::SearchLoop;
use winatep_client::SearchStep;
use winatep_client::classify_frame;
use winatep_client::dist;
use winatep_client::expect_did_input;
use winatep_client::expect_got_screens;
use winatep_client::isqrt;
use winatep_client::key_available;
use winatep_client::max_level_for_size;
use winatep_client::normalize;
use winatep_client::plan_path;
use winatep_client::require_host_and_port;
use winatep_client::sample_position;
use winatep_client::select_match;

fn screen(x: u64, y: u64, w: u64, h: u64, millis: u32) -> Screen {
    Screen {
        name: "s".to_string(),
        x,
        y,
        width: w,
        height: h,
        scale_factor: ScaleFactor { millis },
    }
}

fn rect(ax: i64, ay: i64, bx: i64, by: i64) -> BoundingRectangle {
    BoundingRectangle { min: Point { x: ax, y: ay }, max: Point { x: bx, y: by } }
}

#[test]
fn normalize_is_origin_plus_center_over_scale() {
    // origin (100, 200), scale 2.0; match center (40, 60) physical.
    let s = screen(100, 200, 1920, 1080, 2000);
    let r = rect(30, 50, 50, 70);
    assert_eq!(normalize(&s, &r), Point { x: 120, y: 230 });

    // scale 1.0 leaves physical pixels unchanged.
    let s = screen(0, 0, 800, 600, 1000);
    let r = rect(10, 20, 30, 40);
    assert_eq!(normalize(&s, &r), Point { x: 20, y: 30 });

    // a fractional result rounds down to a whole logical pixel.
    let s = screen(0, 0, 800, 600, 1500);
    let r = rect(0, 0, 5, 5);  // center 2.5, divided by 1.5 = 1.66..
    assert_eq!(normalize(&s, &r), Point { x: 1, y: 1 });
}

#[test]
fn screen_bounds_and_containment() {
    let s = screen(100, 200, 800, 600, 1000);
    assert!(s.contains_abs_point(Point { x: 100, y: 200 }));
    assert!(s.contains_abs_point(Point { x: 900, y: 800 }));
    assert!(!s.contains_abs_point(Point { x: 901, y: 800 }));
    assert!(!s.contains_abs_point(Point { x: 99, y: 300 }));
}

#[test]
fn select_match_takes_the_last_element() {
    assert_eq!(select_match(&vec![]), None);
    let list = vec![rect(0, 0, 1, 1), rect(2, 2, 3, 3), rect(4, 4, 5, 5)];
    assert_eq!(select_match(&list), Some(rect(4, 4, 5, 5)));
}

/// A fake driver whose every answer is an empty match list: the search
/// times out no earlier than its deadline, and stops as soon as a response
/// completes past it.
#[test]
fn search_with_empty_driver_times_out_at_the_deadline() {
    let s = screen(0, 0, 100, 100, 1000);
    let mut search = SearchLoop::new(SearchKind::Image, 2, 2, 1000);
    let empty: Vec<BoundingRectangle> = Vec::new();
    let mut rpcs = 0;
    let mut now = 0;
    loop {
        match search.on_response(&s, &empty, now) {
            SearchStep::Found(_) => panic!("an empty driver never matches"),
            SearchStep::TimedOut => break,
            SearchStep::Continue => {
                assert!(now < 1000, "the search may not go on past the deadline");
            },
        }
        rpcs += 1;
        now += 300;
    }
    // deadline 1000, responses at 0, 300, .., 1200: times out at the first
    // response completing at or past the deadline, never before it.
    assert_eq!(now, 1200);
    assert_eq!(rpcs, 4);
}

/// A fake driver that matches only the 3rd (screen, candidate) pair: the
/// search issues no request for pairs after the 3rd.
#[test]
fn search_stops_at_the_first_matching_pair() {
    let s = screen(0, 0, 100, 100, 1000);
    let mut search = SearchLoop::new(SearchKind::Image, 2, 2, 60_000);
    let empty: Vec<BoundingRectangle> = Vec::new();
    let hit = vec![rect(10, 10, 20, 20)];
    let mut issued = Vec::new();
    let mut result = None;
    for _ in 0..10 {
        let pair = (search.current_screen(), search.current_candidate());
        issued.push(pair);
        let script: &Vec<BoundingRectangle> = if issued.len() == 3 { &hit } else { &empty };
        match search.on_response(&s, script, 1) {
            SearchStep::Found(p) => {
                result = Some(p);
                break;
            },
            SearchStep::TimedOut => panic!("plenty of time remained"),
            SearchStep::Continue => {},
        }
    }
    // pairs walk candidates innermost, and the 3rd pair wins.
    assert_eq!(issued, vec![(0, 0), (0, 1), (1, 0)]);
    assert_eq!(result, Some(Point { x: 15, y: 15 }));
}

#[test]
fn max_level_follows_the_smaller_side() {
    assert_eq!(max_level_for_size(256, 128), 6);
    assert_eq!(max_level_for_size(128, 256), 6);
    assert_eq!(max_level_for_size(2, 2), 0);
    assert_eq!(max_level_for_size(1024, 1024), 9);
    assert_eq!(FindImageQuality::max_level_for_size(256, 128), 6);
    assert_eq!(FindImageFilter::max_level_for_size(2, 2), 0);
}

#[test]
fn path_plan_shares_time_by_segment_length() {
    let waypoints = vec![
        Point { x: 0, y: 0 },
        Point { x: 10, y: 0 },
        Point { x: 10, y: 10 },
    ];
    let plan = plan_path(&waypoints, 2000);
    assert_eq!(plan.lengths, vec![10, 10]);
    assert_eq!(plan.total_length, 20);
    assert_eq!(plan.durations, vec![1000, 1000]);
}

#[test]
fn path_plan_with_coincident_waypoints_has_zero_length() {
    let waypoints = vec![Point { x: 5, y: 5 }, Point { x: 5, y: 5 }];
    let plan = plan_path(&waypoints, 1000);
    assert_eq!(plan.total_length, 0);
    assert_eq!(plan.durations, vec![0]);
}

#[test]
fn samples_start_exactly_at_the_source_and_end_exactly_at_the_target() {
    let from = Point { x: 0, y: 0 };
    let to = Point { x: 10, y: 10 };
    assert_eq!(sample_position(from, to, 0, 1000), from);
    assert_eq!(sample_position(from, to, 500, 1000), Point { x: 5, y: 5 });
    assert_eq!(sample_position(from, to, 1000, 1000), to);
    assert_eq!(sample_position(from, to, 5000, 1000), to);
    assert_eq!(sample_position(from, to, 0, 0), to);
}

#[test]
fn distances_are_whole_pixel_euclidean() {
    assert_eq!(dist(Point { x: 0, y: 0 }, Point { x: 3, y: 4 }), 5);
    assert_eq!(dist(Point { x: 0, y: 0 }, Point { x: 1, y: 1 }), 1);
    assert_eq!(isqrt(0), 0);
    assert_eq!(isqrt(15), 3);
    assert_eq!(isqrt(16), 4);
    assert_eq!(isqrt(u64::MAX as u128), 4294967295);
}

#[test]
fn classify_frame_covers_the_error_taxonomy() {
    match classify_frame(Frame::Text("\"DidInput\"".to_string())) {
        Ok(OutputMessage::DidInput) => {},
        other => panic!("wrong: {other:?}"),
    }
    match classify_frame(Frame::Binary("\"DidTypeText\"".as_bytes().to_vec())) {
        Ok(OutputMessage::DidTypeText) => {},
        other => panic!("wrong: {other:?}"),
    }
    match classify_frame(Frame::Text("not json".to_string())) {
        Err(Error::Protocol { .. }) => {},
        other => panic!("wrong: {other:?}"),
    }
    match classify_frame(Frame::Binary(vec![0xff, 0xfe])) {
        Err(Error::Protocol { .. }) => {},
        other => panic!("wrong: {other:?}"),
    }
    match classify_frame(Frame::Close(Some((1001, "going away".to_string())))) {
        Err(Error::ConnectionClosed { code: 1001, reason }) => assert_eq!(reason, "going away"),
        other => panic!("wrong: {other:?}"),
    }
    match classify_frame(Frame::Close(None)) {
        Err(Error::ConnectionClosedWithoutReason) => {},
        other => panic!("wrong: {other:?}"),
    }
    match classify_frame(Frame::Other) {
        Err(Error::Protocol { .. }) => {},
        other => panic!("wrong: {other:?}"),
    }
    match classify_frame(Frame::Ended) {
        Err(Error::Transport { .. }) => {},
        other => panic!("wrong: {other:?}"),
    }
}

#[test]
fn expectations_sort_replies_into_the_taxonomy() {
    match expect_got_screens(OutputMessage::GotScreens(vec![])) {
        Ok(v) => assert!(v.is_empty()),
        other => panic!("wrong: {other:?}"),
    }
    match expect_got_screens(OutputMessage::Error("busy".to_string())) {
        Err(Error::Driver { msg }) => assert_eq!(msg, "busy"),
        other => panic!("wrong: {other:?}"),
    }
    match expect_got_screens(OutputMessage::DidInput) {
        Err(Error::UnexpectedResponse { response: OutputMessage::DidInput }) => {},
        other => panic!("wrong: {other:?}"),
    }
    match expect_did_input(OutputMessage::DidInput) {
        Ok(()) => {},
        other => panic!("wrong: {other:?}"),
    }
}

#[test]
fn endpoints_need_a_host_and_a_port() {
    assert!(require_host_and_port(true, true).is_ok());
    match require_host_and_port(false, true) {
        Err(Error::Transport { msg }) => assert_eq!(msg, "the URI is missing the host"),
        other => panic!("wrong: {other:?}"),
    }
    match require_host_and_port(true, false) {
        Err(Error::Transport { msg }) => assert_eq!(msg, "the URI is missing the port"),
        other => panic!("wrong: {other:?}"),
    }
}

#[test]
fn key_availability_is_a_capability_set() {
    assert!(key_available(&Key::Control, Platform::Windows));
    assert!(key_available(&Key::Control, Platform::MacOs));
    assert!(key_available(&Key::Control, Platform::LinuxLike));
    assert!(key_available(&Key::Num0, Platform::Windows));
    assert!(!key_available(&Key::Num0, Platform::MacOs));
    assert!(key_available(&Key::MissionControl, Platform::MacOs));
    assert!(!key_available(&Key::MissionControl, Platform::LinuxLike));
    assert!(key_available(&Key::MicMute, Platform::LinuxLike));
    assert!(!key_available(&Key::MicMute, Platform::Windows));
    assert!(key_available(&Key::PrintScr, Platform::Windows));
    assert!(key_available(&Key::PrintScr, Platform::LinuxLike));
    assert!(!key_available(&Key::PrintScr, Platform::MacOs));
    assert!(key_available(&Key::Unicode('x'), Platform::MacOs));
    assert!(key_available(&Key::Other(7), Platform::Windows));
}

#[test]
fn uneven_path_shares_round_down_and_never_exceed_the_total() {
    let waypoints = vec![
        Point { x: 0, y: 0 },
        Point { x: 10, y: 0 },
        Point { x: 15, y: 0 },
    ];
    let plan = plan_path(&waypoints, 1000);
    assert_eq!(plan.lengths, vec![10, 5]);
    assert_eq!(plan.total_length, 15);
    assert_eq!(plan.durations, vec![666, 333]);
    assert!(plan.durations.iter().sum::<u64>() <= 1000);
}
