use nokhwa::CameraFormat;
use nokhwa::FrameFormat;
use nokhwa::RequestedFormat;
use nokhwa::RequestedFormatType;
use nokhwa::Resolution;

fn fmt(w: u32, h: u32, ff: FrameFormat, fps: u32) -> CameraFormat {
    CameraFormat::new(Resolution::new(w, h), ff, fps)
}

#[test]
fn resolver_is_deterministic() {
    let formats = vec![
        fmt(640, 480, FrameFormat::MJPEG, 30),
        fmt(1920, 1080, FrameFormat::YUYV, 15),
        fmt(1280, 720, FrameFormat::MJPEG, 60),
    ];
    let requests = vec![
        RequestedFormatType::AbsoluteHighestResolution,
        RequestedFormatType::AbsoluteHighestFrameRate,
        RequestedFormatType::HighestResolution(Resolution::new(1280, 720)),
        RequestedFormatType::HighestFrameRate(30),
        RequestedFormatType::Closest(fmt(1280, 720, FrameFormat::MJPEG, 30)),
        RequestedFormatType::Any,
    ];
    for req in requests {
        let r1 = RequestedFormat::new(req).fulfill(&formats);
        let r2 = RequestedFormat::new(req).fulfill(&formats);
        assert_eq!(r1, r2);
    }
}

#[test]
fn absolute_highest_resolution_breaks_ties_by_frame_rate() {
    let formats = vec![
        fmt(640, 480, FrameFormat::MJPEG, 30),
        fmt(1920, 1080, FrameFormat::MJPEG, 15),
        fmt(1920, 1080, FrameFormat::MJPEG, 30),
    ];
    let r = RequestedFormat::new(RequestedFormatType::AbsoluteHighestResolution)
        .fulfill(&formats);
    assert_eq!(r, Some(fmt(1920, 1080, FrameFormat::MJPEG, 30)));
}

#[test]
fn absolute_highest_frame_rate_breaks_ties_by_resolution() {
    let formats = vec![
        fmt(640, 480, FrameFormat::MJPEG, 60),
        fmt(1920, 1080, FrameFormat::MJPEG, 60),
        fmt(1280, 720, FrameFormat::MJPEG, 30),
    ];
    let r = RequestedFormat::new(RequestedFormatType::AbsoluteHighestFrameRate)
        .fulfill(&formats);
    assert_eq!(r, Some(fmt(1920, 1080, FrameFormat::MJPEG, 60)));
}

#[test]
fn highest_resolution_requires_exact_match() {
    let formats = vec![
        fmt(640, 480, FrameFormat::MJPEG, 30),
        fmt(1280, 720, FrameFormat::MJPEG, 60),
    ];
    let r = RequestedFormat::new(RequestedFormatType::HighestResolution(Resolution::new(
        800, 600,
    )))
    .fulfill(&formats);
    assert_eq!(r, None);
}

#[test]
fn highest_resolution_picks_highest_frame_rate_at_that_resolution() {
    let formats = vec![
        fmt(1280, 720, FrameFormat::MJPEG, 30),
        fmt(1280, 720, FrameFormat::MJPEG, 60),
        fmt(1920, 1080, FrameFormat::MJPEG, 120),
    ];
    let r = RequestedFormat::new(RequestedFormatType::HighestResolution(Resolution::new(
        1280, 720,
    )))
    .fulfill(&formats);
    assert_eq!(r, Some(fmt(1280, 720, FrameFormat::MJPEG, 60)));
}

#[test]
fn highest_frame_rate_requires_exact_match() {
    let formats = vec![
        fmt(640, 480, FrameFormat::MJPEG, 30),
        fmt(1280, 720, FrameFormat::MJPEG, 60),
    ];
    let r = RequestedFormat::new(RequestedFormatType::HighestFrameRate(25)).fulfill(&formats);
    assert_eq!(r, None);
}

#[test]
fn highest_frame_rate_picks_highest_resolution_at_that_rate() {
    let formats = vec![
        fmt(640, 480, FrameFormat::MJPEG, 30),
        fmt(1920, 1080, FrameFormat::MJPEG, 30),
        fmt(1280, 720, FrameFormat::MJPEG, 30),
    ];
    let r = RequestedFormat::new(RequestedFormatType::HighestFrameRate(30)).fulfill(&formats);
    assert_eq!(r, Some(fmt(1920, 1080, FrameFormat::MJPEG, 30)));
}

#[test]
fn closest_picks_minimum_distance_resolution() {
    // The entry at the target resolution is at squared distance zero and
    // must win over the farther candidate.
    let target = fmt(1000, 999, FrameFormat::MJPEG, 30);
    let formats = vec![
        fmt(1200, 1100, FrameFormat::MJPEG, 30),
        fmt(1000, 999, FrameFormat::MJPEG, 20),
    ];
    let r = RequestedFormat::new(RequestedFormatType::Closest(target)).fulfill(&formats);
    assert_eq!(r, Some(fmt(1000, 999, FrameFormat::MJPEG, 20)));
}

#[test]
fn closest_falls_back_to_the_nearest_resolution() {
    // No entry matches the target resolution exactly; the candidate at
    // squared distance 1 must win over the one at distance 4.
    let target = fmt(1000, 999, FrameFormat::MJPEG, 30);
    let formats = vec![
        fmt(1000, 1000, FrameFormat::MJPEG, 30),
        fmt(1002, 999, FrameFormat::MJPEG, 30),
    ];
    let r = RequestedFormat::new(RequestedFormatType::Closest(target)).fulfill(&formats);
    assert_eq!(r, Some(fmt(1000, 1000, FrameFormat::MJPEG, 30)));
}

#[test]
fn closest_breaks_distance_ties_by_input_order() {
    // 1000x1000 and 1001x999 are both at squared distance 1 from the
    // target; the earlier entry wins, and its frame rate comes along.
    let target = fmt(1000, 999, FrameFormat::MJPEG, 30);
    let formats = vec![
        fmt(1000, 1000, FrameFormat::MJPEG, 10),
        fmt(1001, 999, FrameFormat::MJPEG, 60),
    ];
    let r = RequestedFormat::new(RequestedFormatType::Closest(target)).fulfill(&formats);
    assert_eq!(r, Some(fmt(1000, 1000, FrameFormat::MJPEG, 10)));
}

#[test]
fn closest_combines_resolution_and_frame_rate_choices() {
    // The nearest resolution and the nearest frame rate at that resolution
    // are chosen independently: the winner is 640x480 (distance 0) with the
    // frame rate of the 640x480 entry nearest 30, even though the first
    // entry of the list is a better frame-rate match at another resolution.
    let target = fmt(640, 480, FrameFormat::MJPEG, 30);
    let formats = vec![
        fmt(1280, 720, FrameFormat::MJPEG, 30),
        fmt(640, 480, FrameFormat::MJPEG, 90),
        fmt(640, 480, FrameFormat::MJPEG, 45),
    ];
    let r = RequestedFormat::new(RequestedFormatType::Closest(target)).fulfill(&formats);
    assert_eq!(r, Some(fmt(640, 480, FrameFormat::MJPEG, 45)));
}

#[test]
fn closest_never_crosses_encodings() {
    let target = fmt(1280, 720, FrameFormat::MJPEG, 30);
    let formats = vec![fmt(1280, 720, FrameFormat::YUYV, 30)];
    let r = RequestedFormat::new(RequestedFormatType::Closest(target)).fulfill(&formats);
    assert_eq!(r, None);
}

#[test]
fn closest_picks_nearest_frame_rate_earliest_on_ties() {
    let target = fmt(1280, 720, FrameFormat::MJPEG, 30);
    let formats = vec![
        fmt(1280, 720, FrameFormat::MJPEG, 25),
        fmt(1280, 720, FrameFormat::MJPEG, 35),
        fmt(1280, 720, FrameFormat::MJPEG, 60),
    ];
    let r = RequestedFormat::new(RequestedFormatType::Closest(target)).fulfill(&formats);
    // 25 and 35 are equally near 30; the earlier entry wins.
    assert_eq!(r, Some(fmt(1280, 720, FrameFormat::MJPEG, 25)));
}

#[test]
fn empty_available_resolves_to_none_for_every_request() {
    let formats: Vec<CameraFormat> = Vec::new();
    let requests = vec![
        RequestedFormatType::AbsoluteHighestResolution,
        RequestedFormatType::AbsoluteHighestFrameRate,
        RequestedFormatType::HighestResolution(Resolution::new(640, 480)),
        RequestedFormatType::HighestFrameRate(30),
        RequestedFormatType::Closest(fmt(640, 480, FrameFormat::MJPEG, 30)),
        RequestedFormatType::Any,
    ];
    for req in requests {
        assert_eq!(RequestedFormat::new(req).fulfill(&formats), None);
    }
}

#[test]
fn any_returns_the_first_entry() {
    let formats = vec![
        fmt(640, 480, FrameFormat::MJPEG, 30),
        fmt(1920, 1080, FrameFormat::MJPEG, 60),
    ];
    let r = RequestedFormat::new(RequestedFormatType::Any).fulfill(&formats);
    assert_eq!(r, Some(fmt(640, 480, FrameFormat::MJPEG, 30)));
}

#[test]
fn from_camera_format_requests_closest() {
    let target = fmt(1280, 720, FrameFormat::YUYV, 30);
    let formats = vec![fmt(1280, 720, FrameFormat::YUYV, 27)];
    let r = RequestedFormat::from_camera_format(target).fulfill(&formats);
    assert_eq!(r, Some(fmt(1280, 720, FrameFormat::YUYV, 27)));
}

#[test]
fn duplicate_entries_are_harmless() {
    let formats = vec![
        fmt(1920, 1080, FrameFormat::MJPEG, 30),
        fmt(1920, 1080, FrameFormat::MJPEG, 30),
        fmt(640, 480, FrameFormat::MJPEG, 30),
    ];
    let r = RequestedFormat::new(RequestedFormatType::AbsoluteHighestResolution)
        .fulfill(&formats);
    assert_eq!(r, Some(fmt(1920, 1080, FrameFormat::MJPEG, 30)));
}
