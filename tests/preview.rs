use base64::Engine;
use monitor_preview::bitmap::Bitmap;
use monitor_preview::codec::{jpeg_data_url_from_base64, preview_size_supported, JPEG_DATA_URL_PREFIX};
use monitor_preview::error::PreviewError;
use monitor_preview::fit::fit_dimensions;
use monitor_preview::monitor::find_monitor;
use monitor_preview::preview::{package_preview, preview_from_frame};

fn solid_frame(width: u32, height: u32) -> Bitmap {
    let mut pixels = Vec::new();
    for i in 0..(width * height) {
        pixels.push((i % 251) as u8);
        pixels.push(((i / 7) % 256) as u8);
        pixels.push(200);
        pixels.push(255);
    }
    Bitmap::from_rgba(width, height, pixels).unwrap()
}

fn noisy_frame(width: u32, height: u32) -> Bitmap {
    let mut state: u32 = 12345;
    let mut pixels = Vec::new();
    for _ in 0..(width * height * 4) {
        state = state.wrapping_mul(1103515245).wrapping_add(12345);
        pixels.push((state >> 16) as u8);
    }
    Bitmap::from_rgba(width, height, pixels).unwrap()
}

fn decode_data_url(url: &str) -> image::DynamicImage {
    assert!(url.starts_with("data:image/jpeg;base64,"));
    let payload = &url["data:image/jpeg;base64,".len()..];
    let bytes = base64::engine::general_purpose::STANDARD.decode(payload).unwrap();
    image::load_from_memory_with_format(&bytes, image::ImageFormat::Jpeg).unwrap()
}

#[test]
fn wide_source_square_box_is_width_limited() {
    assert_eq!(fit_dimensions(1920, 1080, 100, 100).unwrap(), (100, 56));
}

#[test]
fn tall_source_square_box_is_height_limited() {
    assert_eq!(fit_dimensions(1080, 1920, 100, 100).unwrap(), (56, 100));
}

#[test]
fn tiny_box_clamps_to_one_pixel() {
    assert_eq!(fit_dimensions(1920, 1080, 1, 1).unwrap(), (1, 1));
    assert_eq!(fit_dimensions(10000, 1, 5, 5).unwrap(), (5, 1));
    assert_eq!(fit_dimensions(1, 10000, 5, 5).unwrap(), (1, 5));
}

#[test]
fn square_source_fills_square_box() {
    assert_eq!(fit_dimensions(500, 500, 64, 64).unwrap(), (64, 64));
    assert_eq!(fit_dimensions(3, 3, 1000, 1000).unwrap(), (1000, 1000));
}

#[test]
fn equal_aspect_fills_box_exactly() {
    assert_eq!(fit_dimensions(1920, 1080, 160, 90).unwrap(), (160, 90));
}

#[test]
fn fitted_size_stays_in_box_within_a_pixel() {
    let (w, h) = fit_dimensions(1366, 768, 300, 200).unwrap();
    assert_eq!((w, h), (300, 168));
    assert!(w <= 300 && h <= 200);
    let exact = 300.0f64 * 768.0 / 1366.0;
    assert!((h as f64 - exact).abs() < 1.0);
}

#[test]
fn scaler_is_deterministic() {
    assert_eq!(fit_dimensions(2560, 1440, 320, 240).unwrap(), fit_dimensions(2560, 1440, 320, 240).unwrap());
}

#[test]
fn zero_axis_is_invalid() {
    assert!(matches!(fit_dimensions(0, 1080, 100, 100), Err(PreviewError::InvalidDimensions)));
    assert!(matches!(fit_dimensions(1920, 0, 100, 100), Err(PreviewError::InvalidDimensions)));
    assert!(matches!(fit_dimensions(1920, 1080, 0, 100), Err(PreviewError::InvalidDimensions)));
    assert!(matches!(fit_dimensions(1920, 1080, 100, 0), Err(PreviewError::InvalidDimensions)));
}

#[test]
fn nonexistent_monitor_is_not_found() {
    let ids = vec!["monitor-1".to_string()];
    match find_monitor(&ids, &"monitor-999".to_string()) {
        Err(PreviewError::NotFound(id)) => assert!(id.contains("monitor-999")),
        other => panic!("unexpected {:?}", other),
    }
}

#[test]
fn monitor_lookup_finds_first_match() {
    let ids = vec!["65537".to_string(), "131073".to_string(), "131073".to_string()];
    assert_eq!(find_monitor(&ids, &"131073".to_string()).unwrap(), 1);
    assert_eq!(find_monitor(&ids, &"65537".to_string()).unwrap(), 0);
}

#[test]
fn monitor_lookup_in_empty_enumeration_fails() {
    let ids: Vec<String> = Vec::new();
    assert!(matches!(find_monitor(&ids, &"1".to_string()), Err(PreviewError::NotFound(_))));
}

#[test]
fn bitmap_requires_four_bytes_per_pixel() {
    assert!(Bitmap::from_rgba(2, 3, vec![0; 24]).is_some());
    assert!(Bitmap::from_rgba(2, 3, vec![0; 23]).is_none());
    assert!(Bitmap::from_rgba(2, 3, vec![0; 18]).is_none());
    assert!(Bitmap::from_rgba(0, 3, Vec::new()).is_some());
}

#[test]
fn data_url_prefixes_payload() {
    assert_eq!(JPEG_DATA_URL_PREFIX, "data:image/jpeg;base64,");
    assert_eq!(jpeg_data_url_from_base64("QUJD"), "data:image/jpeg;base64,QUJD");
    assert_eq!(jpeg_data_url_from_base64(""), "data:image/jpeg;base64,");
}

#[test]
fn package_encodes_bytes_in_base64() {
    let p = package_preview(&vec![0x41, 0x42, 0x43, 0x44], 7, 9);
    assert_eq!(p.image_data, "data:image/jpeg;base64,QUJDRA==");
    assert_eq!((p.width, p.height), (7, 9));
}

#[test]
fn preview_round_trips_through_jpeg_decoder() {
    let frame = solid_frame(40, 20);
    let p = preview_from_frame(&frame, 10, 10, 80).unwrap();
    assert_eq!((p.width, p.height), (10, 5));
    let decoded = decode_data_url(&p.image_data);
    assert_eq!((decoded.width(), decoded.height()), (10, 5));
}

#[test]
fn tall_preview_round_trips() {
    let frame = solid_frame(18, 32);
    let p = preview_from_frame(&frame, 16, 16, 50).unwrap();
    assert_eq!((p.width, p.height), (9, 16));
    let decoded = decode_data_url(&p.image_data);
    assert_eq!((decoded.width(), decoded.height()), (9, 16));
}

#[test]
fn lowest_quality_is_no_larger_than_highest() {
    let frame = noisy_frame(64, 48);
    let low = preview_from_frame(&frame, 64, 48, 0).unwrap();
    let high = preview_from_frame(&frame, 64, 48, 100).unwrap();
    assert!(low.image_data.len() <= high.image_data.len());
    assert!(low.image_data.len() < high.image_data.len());
}

#[test]
fn preview_is_repeatable() {
    let frame = noisy_frame(30, 30);
    let a = preview_from_frame(&frame, 12, 12, 60).unwrap();
    let b = preview_from_frame(&frame, 12, 12, 60).unwrap();
    assert_eq!(a.image_data, b.image_data);
    assert_eq!((a.width, a.height), (12, 12));
}

#[test]
fn preview_refuses_empty_box() {
    let frame = solid_frame(4, 4);
    assert!(matches!(preview_from_frame(&frame, 0, 4, 50), Err(PreviewError::InvalidDimensions)));
}

#[test]
fn preview_refuses_empty_frame() {
    let frame = Bitmap::from_rgba(0, 4, Vec::new()).unwrap();
    assert!(matches!(preview_from_frame(&frame, 4, 4, 50), Err(PreviewError::InvalidDimensions)));
}

#[test]
fn oversized_frame_is_an_encoding_error() {
    let frame = solid_frame(70000, 1);
    assert!(matches!(preview_from_frame(&frame, 70000, 1, 50), Err(PreviewError::Encoding(_))));
}

#[test]
fn preview_size_limit() {
    assert!(preview_size_supported(1920, 100, 56));
    assert!(preview_size_supported(3840, 1_000_000, 1_000_000));
    assert!(preview_size_supported(1, 30_000, 3_000_000_000));
    assert!(!preview_size_supported(u32::MAX, u32::MAX, u32::MAX));
    assert!(!preview_size_supported(1, u32::MAX, u32::MAX));
}

#[test]
fn widest_jpeg_side_is_encoded() {
    let frame = solid_frame(65535, 1);
    let p = preview_from_frame(&frame, 65535, 1, 30).unwrap();
    assert_eq!((p.width, p.height), (65535, 1));
    let decoded = decode_data_url(&p.image_data);
    assert_eq!((decoded.width(), decoded.height()), (65535, 1));
}

#[test]
fn one_past_widest_jpeg_side_is_an_encoding_error() {
    let frame = solid_frame(65536, 1);
    assert!(matches!(preview_from_frame(&frame, 65536, 1, 30), Err(PreviewError::Encoding(_))));
}

#[test]
fn base64_payload_is_padded_standard_alphabet() {
    let p = package_preview(&vec![0xfb, 0xff], 1, 1);
    assert_eq!(p.image_data, "data:image/jpeg;base64,+/8=");
    let q = package_preview(&Vec::new(), 1, 1);
    assert_eq!(q.image_data, "data:image/jpeg;base64,");
}
