use nokhwa::CallbackCamera;
use nokhwa::CameraFormat;
use nokhwa::FrameBuffer;
use nokhwa::FrameFormat;
use nokhwa::NokhwaError;
use nokhwa::RequestedFormat;
use nokhwa::RequestedFormatType;
use nokhwa::Resolution;

fn fmt(w: u32, h: u32, ff: FrameFormat, fps: u32) -> CameraFormat {
    CameraFormat::new(Resolution::new(w, h), ff, fps)
}

fn frame(tag: u8) -> FrameBuffer {
    FrameBuffer::new(Resolution::new(4, 4), &[tag; 4], FrameFormat::YUYV)
}

#[test]
fn construction_resolves_the_format_immediately() {
    let formats = [fmt(640, 480, FrameFormat::YUYV, 30), fmt(1280, 720, FrameFormat::YUYV, 60)];
    let cam = CallbackCamera::new(
        RequestedFormat::new(RequestedFormatType::AbsoluteHighestResolution),
        &formats,
    )
    .unwrap();
    assert_eq!(cam.camera_format(), fmt(1280, 720, FrameFormat::YUYV, 60));
}

#[test]
fn construction_reports_misconfiguration_synchronously() {
    let r = CallbackCamera::new(
        RequestedFormat::new(RequestedFormatType::AbsoluteHighestResolution),
        &[],
    );
    assert!(matches!(r, Err(NokhwaError::UnsupportedFormat)));
}

#[test]
fn frames_are_polled_in_capture_order() {
    let formats = [fmt(640, 480, FrameFormat::YUYV, 30)];
    let mut cam =
        CallbackCamera::new(RequestedFormat::new(RequestedFormatType::Any), &formats).unwrap();
    cam.open_stream().unwrap();
    for tag in 0..8u8 {
        cam.push_frame(frame(tag)).unwrap();
    }
    for tag in 0..8u8 {
        let fb = cam.poll_frame().unwrap().unwrap();
        assert_eq!(fb.buffer(), &[tag; 4][..]);
    }
    // Nothing left, worker still alive: not an error, just no frame yet.
    assert_eq!(cam.poll_frame(), Ok(None));
}

#[test]
fn push_requires_a_running_worker() {
    let formats = [fmt(640, 480, FrameFormat::YUYV, 30)];
    let mut cam =
        CallbackCamera::new(RequestedFormat::new(RequestedFormatType::Any), &formats).unwrap();
    assert_eq!(cam.push_frame(frame(0)), Err(NokhwaError::StreamStateError));
    cam.open_stream().unwrap();
    assert_eq!(cam.push_frame(frame(0)), Ok(()));
    cam.stop_stream();
    assert_eq!(cam.push_frame(frame(1)), Err(NokhwaError::StreamStateError));
}

#[test]
fn double_start_is_a_lifecycle_error() {
    let formats = [fmt(640, 480, FrameFormat::YUYV, 30)];
    let mut cam =
        CallbackCamera::new(RequestedFormat::new(RequestedFormatType::Any), &formats).unwrap();
    cam.open_stream().unwrap();
    assert_eq!(cam.open_stream(), Err(NokhwaError::StreamStateError));
}

#[test]
fn stream_can_restart_after_a_stop() {
    let formats = [fmt(640, 480, FrameFormat::YUYV, 30)];
    let mut cam =
        CallbackCamera::new(RequestedFormat::new(RequestedFormatType::Any), &formats).unwrap();
    cam.open_stream().unwrap();
    cam.stop_stream();
    assert_eq!(cam.open_stream(), Ok(()));
}

#[test]
fn worker_death_is_observable_after_the_queue_drains() {
    let formats = [fmt(640, 480, FrameFormat::YUYV, 30)];
    let mut cam =
        CallbackCamera::new(RequestedFormat::new(RequestedFormatType::Any), &formats).unwrap();
    cam.open_stream().unwrap();
    cam.push_frame(frame(1)).unwrap();
    cam.push_frame(frame(2)).unwrap();
    cam.worker_terminated();
    // Frames captured before the death still come out, in order.
    assert_eq!(cam.poll_frame().unwrap().unwrap().buffer(), &[1u8; 4][..]);
    assert_eq!(cam.poll_frame().unwrap().unwrap().buffer(), &[2u8; 4][..]);
    // Then the death is reported, distinctly from "no frame yet".
    assert_eq!(cam.poll_frame(), Err(NokhwaError::WorkerTerminated));
    // And a dead worker cannot be restarted.
    assert_eq!(cam.open_stream(), Err(NokhwaError::WorkerTerminated));
}

#[test]
fn frame_buffer_accessors() {
    let fb = FrameBuffer::new(Resolution::new(8, 6), &[1, 2, 3], FrameFormat::MJPEG);
    assert_eq!(fb.resolution(), Resolution::new(8, 6));
    assert_eq!(fb.width(), 8);
    assert_eq!(fb.height(), 6);
    assert_eq!(fb.buffer(), &[1, 2, 3][..]);
    assert_eq!(fb.buffer_bytes(), vec![1, 2, 3]);
    assert_eq!(fb.source_frame_format(), FrameFormat::MJPEG);
}
