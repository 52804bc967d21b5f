//! The clean-up that an image goes through before OCR: a 2x Catmull-Rom
//! upscale, conversion to grayscale, Otsu thresholding, and inversion when
//! the result is mostly dark (dark-mode text).

use vstd::prelude::*;
use crate::imaging::{
    GrayBuffer, RgbaBuffer, binarized, catmull_rom_resized, count_of, inverted, invert_gray,
    luma_pixels, otsu_level, otsu_level_of, otsu_sums_fit, resize_catmull_rom, threshold_binary,
    to_luma,
};

verus! {

/// Sum of the values in `s`.
pub open spec fn pixel_sum(s: Seq<u8>) -> int
    decreases s.len(),
{
    if s.len() == 0 {
        0
    } else {
        pixel_sum(s.drop_last()) + s.last()
    }
}

/// The mean value of `s` is below 128. (An empty image is not dark.)
pub open spec fn is_dark(s: Seq<u8>) -> bool {
    pixel_sum(s) < 128 * s.len()
}

/// The grayscale image thresholded at `level`, inverted when the
/// thresholded image is dark.
pub open spec fn for_ocr(gray: Seq<u8>, level: u8) -> Seq<u8> {
    let binary = binarized(gray, level);
    if is_dark(binary) {
        inverted(binary)
    } else {
        binary
    }
}

/// The grayscale version of an RGBA image of `width` by `height` upscaled
/// 2x with the Catmull-Rom filter.
pub open spec fn upscaled_gray(pixels: Seq<u8>, width: u32, height: u32) -> Seq<u8> {
    let w2 = (2 * width) as u32;
    let h2 = (2 * height) as u32;
    luma_pixels(catmull_rom_resized(pixels, width, height, w2, h2), w2, h2)
}

/// The grayscale pixels that `preprocess` produces from an RGBA image of
/// `width` by `height`.
pub open spec fn preprocessed(pixels: Seq<u8>, width: u32, height: u32) -> Seq<u8> {
    let gray = upscaled_gray(pixels, width, height);
    for_ocr(gray, otsu_level_of(gray, (2 * width) as u32, (2 * height) as u32))
}

/// Whether the mean brightness of `pixels` is below 128.
pub fn is_dark_background(pixels: &Vec<u8>) -> (r: bool)
    ensures
        r == is_dark(pixels@),
{
    let n = pixels.len();
    let mut sum: u128 = 0;
    let mut i: usize = 0;
    while i < n
        invariant
            n == pixels@.len(),
            i <= n,
            sum == pixel_sum(pixels@.subrange(0, i as int)),
            sum <= 255 * i,
        decreases n - i,
    {
        assert(pixels@.subrange(0, i + 1).drop_last() =~= pixels@.subrange(0, i as int));
        sum = sum + pixels[i] as u128;
        i = i + 1;
    }
    assert(pixels@.subrange(0, n as int) =~= pixels@);
    sum < 128 * (n as u128)
}

/// The histogram of `pixels`: entry `t` counts the pixels of intensity `t`.
pub fn histogram(pixels: &Vec<u8>) -> (r: Vec<u64>)
    ensures
        r@.len() == 256,
        forall|t: int| 0 <= t < 256 ==> r@[t] == count_of(pixels@, t),
{
    let mut hist: Vec<u64> = Vec::new();
    let mut t: usize = 0;
    while t < 256
        invariant
            t <= 256,
            hist@.len() == t,
            forall|k: int| 0 <= k < t ==> hist@[k] == 0,
        decreases 256 - t,
    {
        hist.push(0);
        t = t + 1;
    }
    let n = pixels.len();
    let mut i: usize = 0;
    while i < n
        invariant
            n == pixels@.len(),
            i <= n,
            hist@.len() == 256,
            forall|k: int| 0 <= k < 256 ==> hist@[k] == count_of(pixels@.subrange(0, i as int), k),
            forall|k: int| 0 <= k < 256 ==> hist@[k] <= i,
        decreases n - i,
    {
        let v = pixels[i] as usize;
        proof {
            let prefix = pixels@.subrange(0, i + 1);
            assert(prefix.drop_last() =~= pixels@.subrange(0, i as int));
            assert(prefix.last() == pixels@[i as int]);
        }
        let c = hist[v];
        hist.set(v, c + 1);
        i = i + 1;
    }
    assert(pixels@.subrange(0, n as int) =~= pixels@);
    hist
}

/// Whether `otsu_level` can handle the grayscale pixels: for every
/// intensity `t`, `t` times its pixel count fits in `u32`.
pub fn check_otsu_sums_fit(pixels: &Vec<u8>) -> (r: bool)
    ensures
        r == otsu_sums_fit(pixels@),
{
    let hist = histogram(pixels);
    let mut t: usize = 0;
    while t < 256
        invariant
            t <= 256,
            hist@.len() == 256,
            forall|k: int| 0 <= k < 256 ==> hist@[k] == count_of(pixels@, k),
            forall|k: int| 0 <= k < t ==> k * #[trigger] count_of(pixels@, k) <= u32::MAX,
        decreases 256 - t,
    {
        let tt = t as u128;
        let count = hist[t] as u128;
        proof {
            assert(tt * count <= 256 * 0x1_0000_0000_0000_0000u128) by (nonlinear_arith)
                requires
                    tt < 256,
                    count < 0x1_0000_0000_0000_0000u128,
            ;
        }
        if tt * count > u32::MAX as u128 {
            proof {
                assert(t * count_of(pixels@, t as int) > u32::MAX);
            }
            return false;
        }
        t = t + 1;
    }
    true
}

/// Thresholds a grayscale image at `level` (pixels above it become white,
/// the others black) and inverts the result when it is mostly dark, so
/// that the text comes out dark on a light background.
pub fn binarize_for_ocr(gray: GrayBuffer, level: u8) -> (r: GrayBuffer)
    requires
        gray.wf(),
    ensures
        r.wf(),
        r.width == gray.width,
        r.height == gray.height,
        r.data@ == for_ocr(gray.data@, level),
{
    let mut binary = threshold_binary(&gray, level);
    if is_dark_background(&binary.data) {
        invert_gray(&mut binary);
    }
    binary
}

/// The image sizes that `preprocess` accepts: twice the width and twice
/// the height fit in `u32`, so does the number of pixels of the upscaled
/// image (which Otsu's method counts in `u32`), and its buffer fits in
/// memory.
pub open spec fn preprocess_size_ok(width: u32, height: u32) -> bool {
    &&& 2 * width <= u32::MAX
    &&& 2 * height <= u32::MAX
    &&& (2 * width) * (2 * height) <= u32::MAX
    &&& (2 * width) * (2 * height) * 4 <= usize::MAX
}

/// Whether an image of `width` by `height` has a size that `preprocess`
/// accepts.
pub fn preprocess_fits(width: u32, height: u32) -> (r: bool)
    ensures
        r == preprocess_size_ok(width, height),
{
    if width > u32::MAX / 2 || height > u32::MAX / 2 {
        return false;
    }
    let w2 = (2 * width) as u64;
    let h2 = (2 * height) as u64;
    if w2 > 0 && h2 > u32::MAX as u64 / w2 {
        proof {
            assert(w2 * h2 > u32::MAX) by (nonlinear_arith)
                requires
                    w2 > 0,
                    h2 > u32::MAX as u64 / w2,
            ;
        }
        return false;
    }
    proof {
        assert(w2 * h2 <= u32::MAX) by (nonlinear_arith)
            requires
                w2 == 0 || h2 <= u32::MAX as u64 / w2,
        ;
    }
    let wh = w2 * h2;
    wh * 4 <= usize::MAX as u64
}

/// Thresholding keeps 255 for each pixel above the level: the sum of the
/// thresholded image is 255 times the number of such pixels.
proof fn lemma_binarized_sum(s: Seq<u8>, level: u8)
    ensures
        pixel_sum(binarized(s, level)) == 255 * s.filter(|v: u8| v > level).len(),
    decreases s.len(),
{
    reveal_with_fuel(Seq::filter, 1);
    if s.len() > 0 {
        assert(binarized(s, level).drop_last() =~= binarized(s.drop_last(), level));
        lemma_binarized_sum(s.drop_last(), level);
    }
}

/// The image made ready for OCR from the grayscale image `gray` is `gray`
/// thresholded at `level` (white above it, black at or below it), inverted
/// exactly when fewer than half of the pixels, weighted by 255/128, lie
/// above the level, i.e. when the thresholded image has a mean below 128.
pub proof fn lemma_for_ocr_thresholds(gray: Seq<u8>, level: u8)
    ensures
        ({
            let out = for_ocr(gray, level);
            let invert = 255 * gray.filter(|v: u8| v > level).len() < 128 * gray.len();
            &&& out.len() == gray.len()
            &&& forall|i: int|
                0 <= i < gray.len() ==> #[trigger] out[i] == if (gray[i] > level) != invert {
                    255u8
                } else {
                    0u8
                }
        }),
{
    lemma_binarized_sum(gray, level);
}

/// A preprocessed image is the 2x upscaled grayscale image thresholded at
/// the Otsu level that `imageproc` picks for it: a pixel is white exactly
/// when its gray value lies above that level, unless the whole thresholded
/// image is mostly dark, in which case every pixel is flipped.
pub proof fn lemma_preprocessed_is_otsu_threshold(pixels: Seq<u8>, width: u32, height: u32)
    ensures
        ({
            let gray = upscaled_gray(pixels, width, height);
            let level = otsu_level_of(gray, (2 * width) as u32, (2 * height) as u32);
            let out = preprocessed(pixels, width, height);
            let invert = 255 * gray.filter(|v: u8| v > level).len() < 128 * gray.len();
            &&& out.len() == gray.len()
            &&& forall|i: int|
                0 <= i < gray.len() ==> #[trigger] out[i] == if (gray[i] > level) != invert {
                    255u8
                } else {
                    0u8
                }
        }),
{
    let gray = upscaled_gray(pixels, width, height);
    lemma_for_ocr_thresholds(gray, otsu_level_of(gray, (2 * width) as u32, (2 * height) as u32));
}

/// No intensity occurs more often than there are pixels.
proof fn lemma_count_of_bounded(s: Seq<u8>, t: int)
    ensures
        count_of(s, t) <= s.len(),
    decreases s.len(),
{
    if s.len() > 0 {
        lemma_count_of_bounded(s.drop_last(), t);
    }
}

/// Otsu's sums fit whenever 255 times the number of pixels does.
proof fn lemma_small_images_fit(s: Seq<u8>)
    requires
        s.len() * 255 <= u32::MAX,
    ensures
        otsu_sums_fit(s),
{
    assert forall|t: int| 0 <= t < 256 implies t * #[trigger] count_of(s, t) <= u32::MAX by {
        lemma_count_of_bounded(s, t);
        let c = count_of(s, t);
        assert(t * c <= 255 * s.len()) by (nonlinear_arith)
            requires
                0 <= t < 256,
                0 <= c <= s.len(),
        ;
    }
}

/// Prepares a captured region for OCR: upscales it 2x (Catmull-Rom),
/// converts it to grayscale, thresholds it at the Otsu level, and inverts
/// it when the thresholded image is mostly dark. Returns `None`, refusing
/// the image, exactly when Otsu's sums over the grayscale image would not
/// fit in `u32`; that never happens when 255 times the number of upscaled
/// pixels fits in `u32` (an empty image included).
pub fn preprocess(img: RgbaBuffer) -> (r: Option<GrayBuffer>)
    requires
        img.wf(),
        preprocess_size_ok(img.width, img.height),
    ensures
        upscaled_gray(img.data@, img.width, img.height).len() == (2 * img.width) * (2 * img.height),
        r is None <==> !otsu_sums_fit(upscaled_gray(img.data@, img.width, img.height)),
        (2 * img.width) * (2 * img.height) * 255 <= u32::MAX ==> r is Some,
        r matches Some(g) ==> {
            &&& g.wf()
            &&& g.width == 2 * img.width
            &&& g.height == 2 * img.height
            &&& g.data@ == preprocessed(img.data@, img.width, img.height)
        },
        r matches Some(g) ==> ({
            let gray = upscaled_gray(img.data@, img.width, img.height);
            let level = otsu_level_of(gray, (2 * img.width) as u32, (2 * img.height) as u32);
            let invert = 255 * gray.filter(|v: u8| v > level).len() < 128 * gray.len();
            &&& g.data@.len() == gray.len()
            &&& forall|i: int|
                0 <= i < gray.len() ==> #[trigger] g.data@[i] == if (gray[i] > level) != invert {
                    255u8
                } else {
                    0u8
                }
        }),
{
    let w2 = 2 * img.width;
    let h2 = 2 * img.height;
    let upscaled = resize_catmull_rom(&img, w2, h2);
    let gray = to_luma(upscaled);
    proof {
        if (2 * img.width) * (2 * img.height) * 255 <= u32::MAX {
            lemma_small_images_fit(gray.data@);
        }
    }
    if !check_otsu_sums_fit(&gray.data) {
        return None;
    }
    let level = otsu_level(&gray);
    proof {
        lemma_preprocessed_is_otsu_threshold(img.data@, img.width, img.height);
    }
    Some(binarize_for_ocr(gray, level))
}

/// Every pixel made ready for OCR is black (0) or white (255).
pub proof fn lemma_for_ocr_is_binary(gray: Seq<u8>, level: u8)
    ensures
        forall|i: int|
            0 <= i < for_ocr(gray, level).len() ==> {
                let v = #[trigger] for_ocr(gray, level)[i];
                v == 0 || v == 255
            },
{
    assert forall|i: int| 0 <= i < binarized(gray, level).len() implies {
        let v = #[trigger] binarized(gray, level)[i];
        v == 0 || v == 255
    } by {}
}

/// Every pixel of a preprocessed image is black (0) or white (255).
pub proof fn lemma_preprocessed_is_binary(pixels: Seq<u8>, width: u32, height: u32)
    ensures
        forall|i: int|
            0 <= i < preprocessed(pixels, width, height).len() ==> {
                let v = #[trigger] preprocessed(pixels, width, height)[i];
                v == 0 || v == 255
            },
{
    let gray = upscaled_gray(pixels, width, height);
    lemma_for_ocr_is_binary(gray, otsu_level_of(gray, (2 * width) as u32, (2 * height) as u32));
}

proof fn lemma_pixel_sum_inverted(s: Seq<u8>)
    ensures
        pixel_sum(inverted(s)) == 255 * s.len() - pixel_sum(s),
    decreases s.len(),
{
    if s.len() > 0 {
        assert(inverted(s).drop_last() =~= inverted(s.drop_last()));
        lemma_pixel_sum_inverted(s.drop_last());
    }
}

/// An image made ready for OCR is never dark: its mean brightness is above
/// 127 (a dark result is inverted, which lifts its mean above 127).
pub proof fn lemma_for_ocr_is_light(gray: Seq<u8>, level: u8)
    ensures
        gray.len() > 0 ==> pixel_sum(for_ocr(gray, level)) > 127 * for_ocr(gray, level).len(),
{
    lemma_pixel_sum_inverted(binarized(gray, level));
}

/// A preprocessed image is never dark: its mean brightness is above 127.
pub proof fn lemma_preprocessed_is_light(pixels: Seq<u8>, width: u32, height: u32)
    ensures
        preprocessed(pixels, width, height).len() > 0 ==> pixel_sum(
            preprocessed(pixels, width, height),
        ) > 127 * preprocessed(pixels, width, height).len(),
{
    let gray = upscaled_gray(pixels, width, height);
    lemma_for_ocr_is_light(gray, otsu_level_of(gray, (2 * width) as u32, (2 * height) as u32));
}

} // verus!
