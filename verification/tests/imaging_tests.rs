use screen_ocr::imaging::{RgbaBuffer, decode_image};
use screen_ocr::imaging::GrayBuffer;
use screen_ocr::preprocessing::{
    binarize_for_ocr, check_otsu_sums_fit, histogram, is_dark_background, preprocess, preprocess_fits,
};

fn solid(width: u32, height: u32, rgba: [u8; 4]) -> RgbaBuffer {
    let mut data = Vec::new();
    for _ in 0..width * height {
        data.extend_from_slice(&rgba);
    }
    RgbaBuffer { width, height, data }
}

#[test]
fn raw_buffers_need_four_bytes_per_pixel() {
    assert!(RgbaBuffer::from_raw(2, 2, vec![0; 15]).is_none());
    let b = RgbaBuffer::from_raw(2, 2, vec![7; 16]).unwrap();
    assert_eq!((b.width, b.height, b.data.len()), (2, 2, 16));
    let c = RgbaBuffer::from_raw(1, 1, vec![1, 2, 3, 4, 5, 6]).unwrap();
    assert_eq!(c.data, vec![1, 2, 3, 4]);
    assert!(RgbaBuffer::from_raw(0, 5, vec![]).is_some());
}

#[test]
fn dark_background_detection() {
    assert!(is_dark_background(&vec![0, 0, 255]));
    assert!(!is_dark_background(&vec![0, 255, 255]));
    assert!(!is_dark_background(&vec![128, 128]));
    assert!(is_dark_background(&vec![127, 128]));
    assert!(!is_dark_background(&vec![]));
}

#[test]
fn preprocessing_doubles_the_size() {
    let out = preprocess(solid(3, 2, [200, 200, 200, 255])).unwrap();
    assert_eq!((out.width, out.height), (6, 4));
    assert_eq!(out.data.len(), 24);
}

#[test]
fn white_image_stays_white() {
    let out = preprocess(solid(4, 4, [255, 255, 255, 255])).unwrap();
    assert!(out.data.iter().all(|&v| v == 255));
}

#[test]
fn black_image_is_inverted_to_white() {
    let out = preprocess(solid(4, 4, [0, 0, 0, 255])).unwrap();
    assert_eq!((out.width, out.height), (8, 8));
    assert!(out.data.iter().all(|&v| v == 255));
}

#[test]
fn dark_mode_text_becomes_dark_on_light() {
    // A dark background with one light square: after preprocessing the
    // output is binary and mostly white.
    let mut img = solid(16, 16, [20, 20, 20, 255]);
    for y in 6..10u32 {
        for x in 6..10u32 {
            let k = ((y * 16 + x) * 4) as usize;
            img.data[k..k + 3].copy_from_slice(&[240, 240, 240]);
        }
    }
    let out = preprocess(img).unwrap();
    assert!(out.data.iter().all(|&v| v == 0 || v == 255));
    let white = out.data.iter().filter(|&&v| v == 255).count();
    assert!(white * 2 >= out.data.len());
    // The background (a corner) is white, the square's centre is black.
    assert_eq!(out.data[0], 255);
    let centre = ((16 * 32 + 16) as usize) as usize;
    assert_eq!(out.data[centre], 0);
}

#[test]
fn preprocessing_size_limits() {
    assert!(preprocess_fits(1920, 1080));
    assert!(preprocess_fits(3000, 3000));
    assert!(preprocess_fits(0, 0));
    assert!(!preprocess_fits(u32::MAX, 1));
    // (2w)(2h) <= u32::MAX  <=>  w*h <= 1073741823
    assert!(preprocess_fits(32767, 32767));
    assert!(!preprocess_fits(32768, 32768));
}

#[test]
fn histogram_counts_intensities() {
    let h = histogram(&vec![0, 5, 5, 255, 5]);
    assert_eq!(h.len(), 256);
    assert_eq!((h[0], h[5], h[255], h[1]), (1, 3, 1, 0));
}

#[test]
fn otsu_sums_limit() {
    // 255 * 16843009 = u32::MAX + 254 does not fit, 255 * 16843008 does.
    assert!(check_otsu_sums_fit(&vec![255u8; 16_843_008]));
    assert!(!check_otsu_sums_fit(&vec![255u8; 16_843_010]));
    assert!(check_otsu_sums_fit(&vec![0u8; 20_000_000]));
}

#[test]
fn large_dark_capture_is_handled() {
    // 3000 x 1500 black: 18M upscaled pixels, all of intensity 0.
    let out = preprocess(solid(3000, 1500, [0, 0, 0, 255])).unwrap();
    assert_eq!((out.width, out.height), (6000, 3000));
    assert!(out.data.iter().all(|&v| v == 255));
}

#[test]
fn large_white_capture_is_refused() {
    // 2100 x 2100 white: 17.6M upscaled pixels of intensity 255 overflow Otsu's sums.
    assert!(preprocess(solid(2100, 2100, [255, 255, 255, 255])).is_none());
}

#[test]
fn binarization_inverts_dark_results() {
    let g = GrayBuffer { width: 2, height: 2, data: vec![10, 200, 30, 40] };
    assert_eq!(binarize_for_ocr(g, 100).data, vec![255, 0, 255, 255]);
    let g = GrayBuffer { width: 2, height: 2, data: vec![10, 200, 210, 220] };
    assert_eq!(binarize_for_ocr(g, 100).data, vec![0, 255, 255, 255]);
}

#[test]
fn png_files_decode_to_rgba() {
    let pixels = vec![255, 0, 0, 255, 0, 255, 0, 128];
    let img = image::RgbaImage::from_raw(2, 1, pixels.clone()).unwrap();
    let mut png = std::io::Cursor::new(Vec::new());
    img.write_to(&mut png, image::ImageFormat::Png).unwrap();
    let decoded = decode_image(&png.into_inner()).unwrap();
    assert_eq!((decoded.width, decoded.height), (2, 1));
    assert_eq!(decoded.data, pixels);

    let gray = image::GrayImage::from_raw(1, 2, vec![10, 200]).unwrap();
    let mut png = std::io::Cursor::new(Vec::new());
    gray.write_to(&mut png, image::ImageFormat::Png).unwrap();
    let decoded = decode_image(&png.into_inner()).unwrap();
    assert_eq!(decoded.data, vec![10, 10, 10, 255, 200, 200, 200, 255]);

    assert!(decode_image(&b"not an image".to_vec()).is_none());
}

#[test]
fn empty_image_is_preprocessed() {
    let out = preprocess(RgbaBuffer { width: 0, height: 0, data: vec![] }).unwrap();
    assert_eq!((out.width, out.height), (0, 0));
    assert!(out.data.is_empty());
    let out = preprocess(RgbaBuffer { width: 3, height: 0, data: vec![] }).unwrap();
    assert_eq!((out.width, out.height), (6, 0));
}
