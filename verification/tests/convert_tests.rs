use nokhwa::FrameFormat;
use nokhwa::NokhwaError;
use nokhwa::buf_mjpeg_to_rgb;
use nokhwa::buf_yuyv422_to_rgb;
use nokhwa::mjpeg_to_rgb;
use nokhwa::yuyv422_to_rgb;
use nokhwa::yuyv444_to_rgb;
use nokhwa::yuyv444_to_rgba;

#[test]
fn yuv_black_white_and_red() {
    // Y 16 with neutral chroma is black, Y 235 is white.
    assert_eq!(yuyv444_to_rgb(16, 128, 128), [0, 0, 0]);
    assert_eq!(yuyv444_to_rgb(235, 128, 128), [255, 255, 255]);
    // The standard red test vector.
    assert_eq!(yuyv444_to_rgb(81, 90, 240), [255, 0, 0]);
}

#[test]
fn yuv_rgba_adds_opaque_alpha() {
    assert_eq!(yuyv444_to_rgba(16, 128, 128), [0, 0, 0, 255]);
    assert_eq!(yuyv444_to_rgba(81, 90, 240), [255, 0, 0, 255]);
}

#[test]
fn yuyv_stream_decodes_two_pixels_per_chunk() {
    // One chunk: a white pixel then a black pixel sharing neutral chroma.
    let data = [235u8, 128, 16, 128];
    let rgb = yuyv422_to_rgb(&data, false).unwrap();
    assert_eq!(rgb, vec![255, 255, 255, 0, 0, 0]);
    let rgba = yuyv422_to_rgb(&data, true).unwrap();
    assert_eq!(rgba, vec![255, 255, 255, 255, 0, 0, 0, 255]);
}

#[test]
fn yuyv_stream_of_two_chunks() {
    let data = [235u8, 128, 16, 128, 81, 90, 81, 240];
    let rgb = yuyv422_to_rgb(&data, false).unwrap();
    assert_eq!(
        rgb,
        vec![255, 255, 255, 0, 0, 0, 255, 0, 0, 255, 0, 0]
    );
}

#[test]
fn yuyv_stream_rejects_a_ragged_length() {
    let r = yuyv422_to_rgb(&[1u8, 2, 3], false);
    assert!(matches!(r, Err(NokhwaError::ProcessFrameError { .. })));
}

#[test]
fn empty_yuyv_stream_decodes_to_nothing() {
    assert_eq!(yuyv422_to_rgb(&[], false).unwrap(), Vec::<u8>::new());
}

#[test]
fn buf_yuyv_fills_a_matching_buffer() {
    let data = [235u8, 128, 16, 128];
    let mut dest = vec![0u8; 6];
    assert_eq!(buf_yuyv422_to_rgb(&data, &mut dest, false), Ok(()));
    assert_eq!(dest, vec![255, 255, 255, 0, 0, 0]);
}

#[test]
fn buf_yuyv_rejects_a_wrong_sized_buffer_untouched() {
    let data = [235u8, 128, 16, 128];
    let mut dest = vec![7u8; 5];
    let r = buf_yuyv422_to_rgb(&data, &mut dest, false);
    assert!(matches!(r, Err(NokhwaError::ProcessFrameError { .. })));
    assert_eq!(dest, vec![7u8; 5]);
}

#[test]
fn mjpeg_conversion_is_reported_unavailable() {
    // The verified core does not run the MJPEG decoder (it signals fatal
    // errors by unwinding); every call reports the conversion unavailable.
    let r = mjpeg_to_rgb(&[0xFF, 0xD8, 0xFF, 0xE0], false);
    match r {
        Err(NokhwaError::ProcessFrameError { src, error }) => {
            assert_eq!(src, FrameFormat::MJPEG);
            assert_eq!(
                error,
                "MJPEG decompression is not available in the verified core"
            );
        }
        other => panic!("expected ProcessFrameError, got {:?}", other),
    }
}

#[test]
fn buf_mjpeg_conversion_leaves_the_buffer_untouched() {
    let mut dest = vec![9u8; 12];
    let r = buf_mjpeg_to_rgb(&[], &mut dest, true);
    assert!(matches!(
        r,
        Err(NokhwaError::ProcessFrameError { src: FrameFormat::MJPEG, .. })
    ));
    assert_eq!(dest, vec![9u8; 12]);
}
