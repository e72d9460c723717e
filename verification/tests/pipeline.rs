//! End-to-end tests of `get_icon` driven by recorded native transcripts.

use systemicons::error::InnerError;
use systemicons::native::NativeEvent;
use systemicons::{get_icon, get_icon_as_file, init};

/// A transcript in which the very first lookup yields `handle` and the
/// extraction then reads 2x2 planes with the given bytes.
fn transcript(handle: u64, width: u32, height: u32, color: Vec<u8>, mask: Vec<u8>) -> Vec<NativeEvent> {
    vec![
        NativeEvent::Icon { handle },
        NativeEvent::IconInfo { color: 11, mask: 12 },
        NativeEvent::PlaneSize { width, height },
        NativeEvent::DeviceContext { dc: 21 },
        NativeEvent::PlaneBits { rows: height, data: color },
        NativeEvent::PlaneBits { rows: height, data: mask },
        NativeEvent::Released,
        NativeEvent::Released,
        NativeEvent::Released,
        NativeEvent::Released,
    ]
}

/// Bottom-up 2x2 color plane: stored pixels s0 s1 (bottom row), s2 s3 (top
/// row), in native blue-green-red order.
fn color_2x2() -> Vec<u8> {
    vec![
        10, 11, 12, 0, // s0, masked away below
        7, 8, 9, 0, // s1
        1, 2, 3, 0, // s2
        4, 5, 6, 0, // s3
    ]
}

/// Mask plane marking s0 fully transparent.
fn mask_2x2() -> Vec<u8> {
    vec![
        0xFF, 0, 0, 0, // s0 transparent
        0, 0, 0, 0, // s1
        0, 0, 0, 0, // s2
        0, 0, 0, 0, // s3
    ]
}

/// Top-down RGBA expected for the planes above.
fn expected_rgba_2x2() -> Vec<u8> {
    vec![
        3, 2, 1, 255, // s2 reordered
        6, 5, 4, 255, // s3 reordered
        0, 0, 0, 0, // s0 masked
        9, 8, 7, 255, // s1 reordered
    ]
}

fn decode_rgba(png: &[u8]) -> (u32, u32, Vec<u8>) {
    let decoded = image::load_from_memory(png).expect("the result must be decodable PNG");
    let rgba = decoded.into_rgba8();
    let (w, h) = (rgba.width(), rgba.height());
    (w, h, rgba.into_raw())
}

#[test]
fn registered_extension_yields_decodable_png_at_every_size() {
    for size in [16, 32, 64] {
        let events = transcript(5, 2, 2, color_2x2(), mask_2x2());
        let png = get_icon(".mp4", size, &events).expect("a registered extension resolves");
        assert!(!png.is_empty());
        let (w, h, rgba) = decode_rgba(&png);
        assert_eq!((w, h), (2, 2));
        assert_eq!(rgba, expected_rgba_2x2());
    }
}

#[test]
fn garbage_extension_falls_back_to_shell_icon_without_error() {
    // Three association attempts find nothing; the shell resource library
    // answers with a valid handle, so the call still succeeds.
    let mut events = vec![
        NativeEvent::Icon { handle: 0 },
        NativeEvent::Icon { handle: 0 },
        NativeEvent::Icon { handle: 0 },
        NativeEvent::Icon { handle: 77 },
    ];
    events.extend(transcript(0, 2, 2, color_2x2(), mask_2x2()).into_iter().skip(1));
    let png = get_icon(".zzzqqq", 32, &events).expect("the fallback chain must not fail");
    assert!(!png.is_empty());
    let (w, h, _) = decode_rgba(&png);
    assert_eq!((w, h), (2, 2));
}

#[test]
fn exe_icon_differs_from_shell_fallback_icon() {
    // An executable with its own embedded icon resource.
    let exe_events = transcript(5, 2, 2, color_2x2(), mask_2x2());
    let exe_png = get_icon("C:\\tools\\viewer.exe", 32, &exe_events).unwrap();

    // The shell fallback icon for an unknown extension has other pixels.
    let other_color = vec![9u8; 16];
    let other_mask = vec![0u8; 16];
    let mut shell_events = vec![
        NativeEvent::Icon { handle: 0 },
        NativeEvent::Icon { handle: 0 },
        NativeEvent::Icon { handle: 0 },
        NativeEvent::Icon { handle: 77 },
    ];
    shell_events.extend(transcript(0, 2, 2, other_color, other_mask).into_iter().skip(1));
    let shell_png = get_icon(".zzzqqq", 32, &shell_events).unwrap();

    assert_ne!(exe_png, shell_png);
    let (_, _, exe_rgba) = decode_rgba(&exe_png);
    let (_, _, shell_rgba) = decode_rgba(&shell_png);
    assert_ne!(exe_rgba, shell_rgba);
}

#[test]
fn identical_calls_give_byte_identical_png() {
    let events = transcript(5, 2, 2, color_2x2(), mask_2x2());
    let first = get_icon(".pdf", 16, &events).unwrap();
    let second = get_icon(".pdf", 16, &events).unwrap();
    assert_eq!(first, second);
}

#[test]
fn exhausted_fallback_chain_reports_not_found() {
    let events = vec![
        NativeEvent::Icon { handle: 0 },
        NativeEvent::Icon { handle: 0 },
        NativeEvent::Icon { handle: 0 },
        NativeEvent::Icon { handle: 0 },
    ];
    let err = get_icon(".zzzqqq", 16, &events).unwrap_err();
    assert_eq!(err.inner_error, InnerError::NotFound);
    assert_eq!(err.message, "No icon could be resolved for the identifier.");
}

#[test]
fn empty_transcript_reports_not_found() {
    let err = get_icon(".mp4", 16, &vec![]).unwrap_err();
    assert_eq!(err.inner_error, InnerError::NotFound);
}

#[test]
fn failed_icon_info_query_reports_invalid_handle() {
    let events = vec![
        NativeEvent::Icon { handle: 5 },
        NativeEvent::IconInfo { color: 0, mask: 0 },
    ];
    let err = get_icon(".mp4", 16, &events).unwrap_err();
    assert_eq!(err.inner_error, InnerError::InvalidHandle);
    assert_eq!(err.message, "Failed to get icon info.");
}

#[test]
fn failed_device_context_reports_device_context_failure() {
    let events = vec![
        NativeEvent::Icon { handle: 5 },
        NativeEvent::IconInfo { color: 11, mask: 12 },
        NativeEvent::PlaneSize { width: 2, height: 2 },
        NativeEvent::DeviceContext { dc: 0 },
    ];
    let err = get_icon(".mp4", 16, &events).unwrap_err();
    assert_eq!(err.inner_error, InnerError::DeviceContextFailure);
    assert_eq!(err.message, "Failed to create compatible DC.");
}

#[test]
fn zero_rows_reported_by_color_read_is_a_bitmap_read_failure() {
    let events = vec![
        NativeEvent::Icon { handle: 5 },
        NativeEvent::IconInfo { color: 11, mask: 12 },
        NativeEvent::PlaneSize { width: 2, height: 2 },
        NativeEvent::DeviceContext { dc: 21 },
        NativeEvent::PlaneBits { rows: 0, data: vec![0; 16] },
    ];
    let err = get_icon(".mp4", 16, &events).unwrap_err();
    assert_eq!(err.message, "Failed to get color DIB bits.");
}

#[test]
fn short_mask_read_is_a_bitmap_read_failure() {
    let events = vec![
        NativeEvent::Icon { handle: 5 },
        NativeEvent::IconInfo { color: 11, mask: 12 },
        NativeEvent::PlaneSize { width: 2, height: 2 },
        NativeEvent::DeviceContext { dc: 21 },
        NativeEvent::PlaneBits { rows: 2, data: vec![0; 16] },
        NativeEvent::PlaneBits { rows: 1, data: vec![0; 16] },
    ];
    let err = get_icon(".mp4", 16, &events).unwrap_err();
    assert_eq!(err.message, "Failed to get mask DIB bits.");
}

#[test]
fn degenerate_plane_size_ends_in_encoding_failure() {
    // A zero-width plane passes the reads with empty buffers and is then
    // rejected by the encoder.
    let events = vec![
        NativeEvent::Icon { handle: 5 },
        NativeEvent::IconInfo { color: 11, mask: 12 },
        NativeEvent::PlaneSize { width: 0, height: 2 },
        NativeEvent::DeviceContext { dc: 21 },
        NativeEvent::PlaneBits { rows: 2, data: vec![] },
        NativeEvent::PlaneBits { rows: 2, data: vec![] },
    ];
    let err = get_icon(".mp4", 16, &events).unwrap_err();
    assert_eq!(err.inner_error, InnerError::EncodingFailure);
    assert_eq!(err.message, "The image encoder rejected the pixel buffer.");
}

#[test]
fn executable_path_with_lowercase_marker_retries_by_extension() {
    // Embedded resource extraction fails; the lookup then uses the trailing
    // ".exe" fragment and succeeds.
    let mut events = vec![NativeEvent::Icon { handle: 0 }, NativeEvent::Icon { handle: 9 }];
    events.extend(transcript(0, 2, 2, color_2x2(), mask_2x2()).into_iter().skip(1));
    let png = get_icon("C:\\apps\\setup.exe", 16, &events).unwrap();
    assert!(!png.is_empty());
}

#[test]
fn get_icon_as_file_reports_not_found() {
    let err = get_icon_as_file(".mp4", 16).unwrap_err();
    assert_eq!(err.inner_error, InnerError::NotFound);
}

#[test]
fn init_is_callable() {
    init();
}
