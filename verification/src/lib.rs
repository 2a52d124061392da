//! A verified core for cross-platform webcam capture: format negotiation,
//! control validation, capture-session lifecycle, and frame delivery.
//!
//! The OS-native capture backends (AVFoundation, Video4Linux, Media
//! Foundation) are external collaborators; this crate holds the logic that
//! is independent of them: resolving a requested format against a device's
//! reported formats, validating camera-control updates, the session state
//! machine, and pixel-stream conversions.

pub mod buffer;
pub mod camera;
pub mod controls;
pub mod convert;
pub mod error;
pub mod format;
pub mod resolver;
pub mod threaded;
pub mod types;

pub use buffer::FrameBuffer;
pub use camera::Camera;
pub use camera::DeviceRegistry;
pub use camera::SessionState;
pub use controls::CameraControl;
pub use controls::ControlValue;
pub use controls::ControlValueSetter;
pub use controls::verify_setter;
pub use controls::KnownCameraControlFlag;
pub use controls::KnownCameraControls;
pub use controls::all_known_camera_controls;
pub use convert::buf_mjpeg_to_rgb;
pub use convert::buf_yuyv422_to_rgb;
pub use convert::mjpeg_to_rgb;
pub use convert::yuyv422_to_rgb;
pub use convert::yuyv444_to_rgb;
pub use convert::yuyv444_to_rgba;
pub use error::NokhwaError;
pub use format::CameraFormat;
pub use format::FrameFormat;
pub use format::frame_formats;
pub use resolver::RequestedFormat;
pub use resolver::RequestedFormatType;
pub use types::ApiBackend;
pub use types::CameraIndex;
pub use types::KnownCameraControl;
pub use types::CameraInfo;
pub use types::CaptureAPIBackend;
pub use types::Resolution;
pub use threaded::CallbackCamera;
pub use threaded::WorkerStatus;
pub use types::backend_for_os;
