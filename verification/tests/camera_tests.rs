use nokhwa::Camera;
use nokhwa::CameraControl;
use nokhwa::CameraFormat;
use nokhwa::CameraIndex;
use nokhwa::DeviceRegistry;
use nokhwa::FrameFormat;
use nokhwa::KnownCameraControlFlag;
use nokhwa::KnownCameraControls;
use nokhwa::NokhwaError;
use nokhwa::RequestedFormat;
use nokhwa::RequestedFormatType;
use nokhwa::Resolution;
use nokhwa::SessionState;

fn fmt(w: u32, h: u32, ff: FrameFormat, fps: u32) -> CameraFormat {
    CameraFormat::new(Resolution::new(w, h), ff, fps)
}

fn device_formats() -> Vec<CameraFormat> {
    vec![
        fmt(640, 480, FrameFormat::YUYV, 30),
        fmt(1280, 720, FrameFormat::MJPEG, 60),
        fmt(1920, 1080, FrameFormat::MJPEG, 30),
    ]
}

fn device_controls() -> Vec<CameraControl> {
    vec![
        CameraControl::new(
            KnownCameraControls::Brightness,
            -100,
            100,
            0,
            10,
            0,
            KnownCameraControlFlag::Manual,
            true,
        )
        .unwrap(),
        CameraControl::new(
            KnownCameraControls::Gamma,
            0,
            500,
            220,
            1,
            220,
            KnownCameraControlFlag::ReadOnly,
            true,
        )
        .unwrap(),
    ]
}

#[test]
fn end_to_end_capture_scenario() {
    // Enumerate (simulated), pick index 0, ask for the absolute highest
    // frame rate, stream ten frames, and shut down cleanly.
    let mut registry = DeviceRegistry::new(2);
    assert_eq!(registry.open(0), Ok(()));

    let mut camera = Camera::new(CameraIndex::Index(0), device_formats(), device_controls());
    let resolved = camera
        .configure(RequestedFormat::new(
            RequestedFormatType::AbsoluteHighestFrameRate,
        ))
        .unwrap();
    assert_eq!(resolved, fmt(1280, 720, FrameFormat::MJPEG, 60));
    assert_eq!(camera.state(), SessionState::Configured);

    camera.start_stream().unwrap();
    assert_eq!(camera.state(), SessionState::Streaming);

    for i in 0..10u8 {
        let frame = camera.frame(vec![i; 16]).unwrap();
        assert_eq!(frame.resolution(), resolved.resolution());
        assert_eq!(frame.source_frame_format(), resolved.format());
        assert_eq!(frame.buffer(), &[i; 16][..]);
    }

    camera.stop_stream();
    assert_eq!(camera.state(), SessionState::Configured);
    camera.close();
    assert_eq!(camera.state(), SessionState::Closed);
    // Closing again is not an error.
    camera.close();
    assert_eq!(camera.state(), SessionState::Closed);

    registry.close(0);
    assert_eq!(registry.open(0), Ok(()));
}

#[test]
fn configure_rejects_an_unsatisfiable_request() {
    let mut camera = Camera::new(CameraIndex::Index(0), device_formats(), Vec::new());
    let r = camera.configure(RequestedFormat::new(RequestedFormatType::HighestFrameRate(
        144,
    )));
    assert_eq!(r, Err(NokhwaError::UnsupportedFormat));
    assert_eq!(camera.state(), SessionState::Closed);
}

#[test]
fn lifecycle_errors_are_distinct() {
    let mut camera = Camera::new(CameraIndex::Index(0), device_formats(), Vec::new());
    // Reading before anything is configured.
    assert_eq!(camera.frame(vec![0]), Err(NokhwaError::StreamStateError));
    // Starting before configuring.
    assert_eq!(camera.start_stream(), Err(NokhwaError::StreamStateError));

    camera
        .configure(RequestedFormat::new(RequestedFormatType::Any))
        .unwrap();
    // Reading while configured but not yet streaming.
    assert_eq!(camera.frame(vec![0]), Err(NokhwaError::StreamStateError));

    camera.start_stream().unwrap();
    // Starting twice.
    assert_eq!(camera.start_stream(), Err(NokhwaError::StreamStateError));
    // Re-configuring while streaming.
    let r = camera.configure(RequestedFormat::new(RequestedFormatType::Any));
    assert_eq!(r, Err(NokhwaError::StreamStateError));
    // Stopping twice is a no-op, not an error.
    camera.stop_stream();
    camera.stop_stream();
    assert_eq!(camera.state(), SessionState::Configured);
}

#[test]
fn stream_can_restart_after_stop() {
    let mut camera = Camera::new(CameraIndex::Index(0), device_formats(), Vec::new());
    camera
        .configure(RequestedFormat::new(RequestedFormatType::Any))
        .unwrap();
    camera.start_stream().unwrap();
    camera.stop_stream();
    assert_eq!(camera.start_stream(), Ok(()));
    assert_eq!(camera.state(), SessionState::Streaming);
}

#[test]
fn read_only_control_is_always_rejected() {
    let mut camera = Camera::new(CameraIndex::Index(0), device_formats(), device_controls());
    let before = camera.camera_controls();
    let r = camera.set_camera_control(KnownCameraControls::Gamma, 300);
    assert_eq!(r, Err(NokhwaError::ControlRejected));
    // Nothing changed.
    assert_eq!(camera.camera_controls(), before);
}

#[test]
fn unknown_control_is_rejected() {
    let mut camera = Camera::new(CameraIndex::Index(0), device_formats(), device_controls());
    let r = camera.set_camera_control(KnownCameraControls::Zoom, 1);
    assert_eq!(r, Err(NokhwaError::ControlRejected));
}

#[test]
fn out_of_range_control_value_is_rejected() {
    let mut camera = Camera::new(CameraIndex::Index(0), device_formats(), device_controls());
    assert_eq!(
        camera.set_camera_control(KnownCameraControls::Brightness, 100),
        Err(NokhwaError::ControlRejected)
    );
    assert_eq!(
        camera.set_camera_control(KnownCameraControls::Brightness, 55),
        Err(NokhwaError::ControlRejected)
    );
}

#[test]
fn settable_control_updates_its_value() {
    let mut camera = Camera::new(CameraIndex::Index(0), device_formats(), device_controls());
    assert_eq!(
        camera.set_camera_control(KnownCameraControls::Brightness, 50),
        Ok(())
    );
    let c = camera.camera_control(KnownCameraControls::Brightness).unwrap();
    assert_eq!(c.value(), 50);
    // The read-only control kept its value.
    let g = camera.camera_control(KnownCameraControls::Gamma).unwrap();
    assert_eq!(g.value(), 220);
}

#[test]
fn camera_control_lookup_rejects_unknown_ids() {
    let camera = Camera::new(CameraIndex::Index(0), device_formats(), device_controls());
    assert_eq!(
        camera.camera_control(KnownCameraControls::Iris),
        Err(NokhwaError::ControlRejected)
    );
}

#[test]
fn opening_a_device_twice_reports_already_in_use() {
    let mut registry = DeviceRegistry::new(3);
    assert_eq!(registry.open(1), Ok(()));
    assert_eq!(registry.open(1), Err(NokhwaError::AlreadyInUse));
    // Another device is unaffected.
    assert_eq!(registry.open(2), Ok(()));
    // Releasing makes it claimable again.
    registry.close(1);
    assert_eq!(registry.open(1), Ok(()));
}

#[test]
fn opening_an_unknown_device_reports_not_found() {
    let mut registry = DeviceRegistry::new(1);
    assert_eq!(registry.open(5), Err(NokhwaError::DeviceNotFound));
    // Releasing an unknown or free index is harmless.
    registry.close(5);
    registry.close(0);
}

#[test]
fn compatible_formats_are_reported_as_given() {
    let camera = Camera::new(CameraIndex::Index(0), device_formats(), Vec::new());
    assert_eq!(camera.compatible_camera_formats(), device_formats());
    assert_eq!(camera.index(), &CameraIndex::Index(0));
    assert_eq!(camera.camera_format(), None);
}
