//! Unit tests of the pipeline's pieces: compositing, resource safety,
//! resolution order, encoding and the string helpers.

use systemicons::composite::composite;
use systemicons::encode::encode_png;
use systemicons::error::InnerError;
use systemicons::extract::{descriptor_for, run_extraction};
use systemicons::native::{utf_16_null_terminated, NativeEvent, NativeRequest};
use systemicons::resolve::{analyze_identifier, find_exe_marker, is_executable_path, Resolver, ResolveState};
use systemicons::{size_class, SizeClass};

fn count_releases(requests: &[NativeRequest]) -> (usize, usize, usize) {
    let mut icons: usize = 0;
    let mut bitmaps: usize = 0;
    let mut dcs: usize = 0;
    for r in requests {
        match r {
            NativeRequest::ReleaseIcon { .. } => icons += 1,
            NativeRequest::ReleaseBitmap { .. } => bitmaps += 1,
            NativeRequest::ReleaseDeviceContext { .. } => dcs += 1,
            _ => {}
        }
    }
    (icons, bitmaps, dcs)
}

#[test]
fn composite_masks_and_reorders_a_2x2_image() {
    let desc = descriptor_for(2, 2);
    assert_eq!(desc.stride, 8);
    assert_eq!(desc.bit_count, 32);
    let color = vec![
        10, 11, 12, 0, // bottom-left, masked below
        7, 8, 9, 0, // bottom-right
        1, 2, 3, 0, // top-left
        4, 5, 6, 0, // top-right
    ];
    let mask = vec![
        0xFF, 0, 0, 0, // bottom-left transparent
        0, 0, 0, 0, 0, 0, 0, 0, 0, 0, 0, 0,
    ];
    let out = composite(&desc, &color, &mask);
    // Top-down: the unmasked pixels carry (red, green, blue, 255) reordered
    // from the stored (blue, green, red); the masked pixel is all zero.
    assert_eq!(
        out,
        vec![
            3, 2, 1, 255, // top-left
            6, 5, 4, 255, // top-right
            0, 0, 0, 0, // bottom-left: alpha 0
            9, 8, 7, 255, // bottom-right
        ]
    );
}

#[test]
fn composite_inverts_bottom_up_row_order() {
    // One column, two rows, stored bottom-up as [a, b]: the image is [b, a].
    let desc = descriptor_for(1, 2);
    let color = vec![
        1, 2, 3, 0, // a (stored first: bottom row)
        4, 5, 6, 0, // b (stored last: top row)
    ];
    let mask = vec![0, 0, 0, 0, 0, 0, 0, 0];
    let out = composite(&desc, &color, &mask);
    assert_eq!(
        out,
        vec![
            6, 5, 4, 255, // b
            3, 2, 1, 255, // a
        ]
    );
}

#[test]
fn successful_extraction_releases_every_handle_exactly_once() {
    let events = vec![
        NativeEvent::IconInfo { color: 11, mask: 12 },
        NativeEvent::PlaneSize { width: 1, height: 1 },
        NativeEvent::DeviceContext { dc: 21 },
        NativeEvent::PlaneBits { rows: 1, data: vec![1, 2, 3, 0] },
        NativeEvent::PlaneBits { rows: 1, data: vec![0, 0, 0, 0] },
        NativeEvent::Released,
        NativeEvent::Released,
        NativeEvent::Released,
        NativeEvent::Released,
    ];
    let (requests, outcome) = run_extraction(9, &events, 0);
    let (desc, color, mask) = outcome.expect("extraction succeeds");
    assert_eq!((desc.width, desc.height), (1, 1));
    assert_eq!(color, vec![1, 2, 3, 0]);
    assert_eq!(mask, vec![0, 0, 0, 0]);
    assert_eq!(count_releases(&requests), (1, 2, 1));
    // The release calls name the handles that were acquired.
    assert!(requests.contains(&NativeRequest::ReleaseIcon { icon: 9 }));
    assert!(requests.contains(&NativeRequest::ReleaseBitmap { bitmap: 11 }));
    assert!(requests.contains(&NativeRequest::ReleaseBitmap { bitmap: 12 }));
    assert!(requests.contains(&NativeRequest::ReleaseDeviceContext { dc: 21 }));
}

#[test]
fn failed_icon_info_releases_only_the_icon() {
    let events = vec![NativeEvent::IconInfo { color: 0, mask: 0 }];
    let (requests, outcome) = run_extraction(9, &events, 0);
    let err = outcome.unwrap_err();
    assert_eq!(err.inner_error, InnerError::InvalidHandle);
    assert_eq!(count_releases(&requests), (1, 0, 0));
}

#[test]
fn half_acquired_icon_info_releases_what_it_got() {
    // Only the mask plane handle comes back; it still must be released.
    let events = vec![NativeEvent::IconInfo { color: 0, mask: 12 }];
    let (requests, outcome) = run_extraction(9, &events, 0);
    assert!(outcome.is_err());
    assert_eq!(count_releases(&requests), (1, 1, 0));
    assert!(requests.contains(&NativeRequest::ReleaseBitmap { bitmap: 12 }));
}

#[test]
fn failed_device_context_releases_both_bitmaps_and_icon() {
    let events = vec![
        NativeEvent::IconInfo { color: 11, mask: 12 },
        NativeEvent::PlaneSize { width: 2, height: 2 },
        NativeEvent::DeviceContext { dc: 0 },
    ];
    let (requests, outcome) = run_extraction(9, &events, 0);
    let err = outcome.unwrap_err();
    assert_eq!(err.inner_error, InnerError::DeviceContextFailure);
    assert_eq!(count_releases(&requests), (1, 2, 0));
}

#[test]
fn failed_color_read_releases_everything_acquired() {
    let events = vec![
        NativeEvent::IconInfo { color: 11, mask: 12 },
        NativeEvent::PlaneSize { width: 2, height: 2 },
        NativeEvent::DeviceContext { dc: 21 },
        NativeEvent::PlaneBits { rows: 0, data: vec![] },
    ];
    let (requests, outcome) = run_extraction(9, &events, 0);
    assert!(outcome.is_err());
    assert_eq!(count_releases(&requests), (1, 2, 1));
}

#[test]
fn failed_mask_read_releases_everything_acquired() {
    let events = vec![
        NativeEvent::IconInfo { color: 11, mask: 12 },
        NativeEvent::PlaneSize { width: 2, height: 2 },
        NativeEvent::DeviceContext { dc: 21 },
        NativeEvent::PlaneBits { rows: 2, data: vec![0; 16] },
        NativeEvent::PlaneBits { rows: 2, data: vec![0; 15] },
    ];
    let (requests, outcome) = run_extraction(9, &events, 0);
    assert!(outcome.is_err());
    assert_eq!(count_releases(&requests), (1, 2, 1));
}

#[test]
fn exhausted_transcript_still_releases_everything() {
    // The transcript breaks off right after the device context: the run
    // treats the missing answers as failures and still releases all four
    // resources.
    let events = vec![
        NativeEvent::IconInfo { color: 11, mask: 12 },
        NativeEvent::PlaneSize { width: 2, height: 2 },
        NativeEvent::DeviceContext { dc: 21 },
    ];
    let (requests, outcome) = run_extraction(9, &events, 0);
    assert!(outcome.is_err());
    assert_eq!(count_releases(&requests), (1, 2, 1));
}

#[test]
fn resolver_walks_the_fallback_chain_in_order() {
    let (exe, fragment) = analyze_identifier(".zzzqqq");
    assert!(!exe);
    assert!(fragment.is_none());
    let mut resolver = Resolver::new(exe, false, 16);

    // Three association attempts, the later ones delayed.
    for attempt in 1..=3u8 {
        match resolver.next_request(".zzzqqq", &None) {
            Some(NativeRequest::LookupAssociation { name, size, delay_millis }) => {
                assert_eq!(name, ".zzzqqq");
                assert_eq!(size, SizeClass::Small);
                assert_eq!(delay_millis, if attempt == 1 { 0 } else { 30 });
            }
            other => panic!("expected an association lookup, got {:?}", other),
        }
        resolver.on_result(0);
    }

    // Then the shell resource library.
    match resolver.next_request(".zzzqqq", &None) {
        Some(NativeRequest::ExtractResource { path, size }) => {
            assert_eq!(path, "C:\\Windows\\system32\\SHELL32.dll");
            assert_eq!(size, SizeClass::Small);
        }
        other => panic!("expected the shell fallback, got {:?}", other),
    }
    resolver.on_result(77);
    assert_eq!(resolver.state, ResolveState::Done { handle: 77 });
}

#[test]
fn resolver_for_executable_tries_resource_extraction_first() {
    let (exe, fragment) = analyze_identifier("C:\\apps\\setup.exe");
    assert!(exe);
    assert_eq!(fragment.as_deref(), Some(".exe"));
    let mut resolver = Resolver::new(exe, fragment.is_some(), 64);
    match resolver.next_request("C:\\apps\\setup.exe", &fragment) {
        Some(NativeRequest::ExtractResource { path, size }) => {
            assert_eq!(path, "C:\\apps\\setup.exe");
            assert_eq!(size, SizeClass::Large);
        }
        other => panic!("expected resource extraction, got {:?}", other),
    }
    resolver.on_result(0);
    // The trailing extension fragment is looked up next.
    match resolver.next_request("C:\\apps\\setup.exe", &fragment) {
        Some(NativeRequest::LookupAssociation { name, .. }) => assert_eq!(name, ".exe"),
        other => panic!("expected a fragment lookup, got {:?}", other),
    }
}

#[test]
fn uppercase_executable_without_marker_skips_the_fragment_lookup() {
    let (exe, fragment) = analyze_identifier("C:\\APPS\\SETUP.EXE");
    assert!(exe);
    assert!(fragment.is_none());
    let mut resolver = Resolver::new(exe, false, 16);
    resolver.on_result(0);
    // Straight to the shell fallback: no lowercase ".exe" fragment exists.
    match resolver.next_request("C:\\APPS\\SETUP.EXE", &None) {
        Some(NativeRequest::ExtractResource { path, .. }) => {
            assert_eq!(path, "C:\\Windows\\system32\\SHELL32.dll");
        }
        other => panic!("expected the shell fallback, got {:?}", other),
    }
}

#[test]
fn a_valid_handle_anywhere_ends_the_chain_at_once() {
    let mut resolver = Resolver::new(false, false, 16);
    resolver.on_result(0);
    resolver.on_result(42);
    assert_eq!(resolver.state, ResolveState::Done { handle: 42 });
}

#[test]
fn executable_detection_is_ascii_case_insensitive() {
    assert!(is_executable_path("a.exe"));
    assert!(is_executable_path("A.EXE"));
    assert!(is_executable_path("setup.eXe"));
    assert!(!is_executable_path(".exf"));
    assert!(!is_executable_path("exe"));
    assert!(!is_executable_path(""));
}

#[test]
fn the_first_lowercase_marker_wins() {
    assert_eq!(find_exe_marker("a.exeb.exe"), Some(1));
    assert_eq!(find_exe_marker(".exe"), Some(0));
    assert_eq!(find_exe_marker("nothing"), None);
    assert_eq!(find_exe_marker(".EXE"), None);
}

#[test]
fn size_classes_split_at_sixteen() {
    assert_eq!(size_class(16), SizeClass::Small);
    assert_eq!(size_class(1), SizeClass::Small);
    assert_eq!(size_class(17), SizeClass::Large);
    assert_eq!(size_class(64), SizeClass::Large);
}

#[test]
fn encode_png_round_trips_a_single_pixel() {
    let rgba = vec![10, 20, 30, 255];
    let png = encode_png(1, 1, &rgba).expect("nonzero dimensions encode");
    assert!(!png.is_empty());
    let decoded = image::load_from_memory(&png).unwrap().into_rgba8();
    assert_eq!((decoded.width(), decoded.height()), (1, 1));
    assert_eq!(decoded.into_raw(), rgba);
}

#[test]
fn encode_png_rejects_degenerate_dimensions() {
    let err = encode_png(0, 0, &vec![]).unwrap_err();
    assert_eq!(err.inner_error, InnerError::EncodingFailure);
}

#[test]
fn utf_16_encoding_terminates_with_a_zero_unit() {
    assert_eq!(utf_16_null_terminated("ab"), vec![97, 98, 0]);
    assert_eq!(utf_16_null_terminated(""), vec![0]);
    // A supplementary-plane character becomes a surrogate pair.
    assert_eq!(utf_16_null_terminated("\u{1D11E}"), vec![0xD834, 0xDD1E, 0]);
}
