//! Pixel buffers and the image operations of the `image` and `imageproc`
//! crates that the library relies on.

use vstd::prelude::*;

verus! {

/// An RGBA image with 8 bits per channel, stored row by row.
#[derive(Debug, Clone)]
pub struct RgbaBuffer {
    pub width: u32,
    pub height: u32,
    pub data: Vec<u8>,
}

/// A grayscale image with 8 bits per pixel, stored row by row.
#[derive(Debug, Clone)]
pub struct GrayBuffer {
    pub width: u32,
    pub height: u32,
    pub data: Vec<u8>,
}

impl RgbaBuffer {
    /// The buffer holds exactly four bytes per pixel.
    pub open spec fn wf(&self) -> bool {
        self.data@.len() == self.width * self.height * 4
    }

    /// Channel `c` of the pixel in column `x`, row `y`.
    pub open spec fn at(&self, x: int, y: int, c: int) -> u8 {
        self.data@[(y * self.width + x) * 4 + c]
    }

    /// Wraps a raw pixel buffer: `None` when `raw` is shorter than
    /// `width * height * 4` bytes (`ImageBuffer::from_raw` refuses such a
    /// buffer too); bytes past the last pixel are dropped, so that the
    /// buffer holds exactly its pixels.
    pub fn from_raw(width: u32, height: u32, raw: Vec<u8>) -> (r: Option<RgbaBuffer>)
        ensures
            r is Some <==> raw@.len() >= width * height * 4,
            r matches Some(b) ==> {
                &&& b.wf()
                &&& b.width == width
                &&& b.height == height
                &&& b.data@ == raw@.subrange(0, width * height * 4)
            },
    {
        let w = width as u64;
        let h = height as u64;
        proof {
            assert(w * h <= u64::MAX) by (nonlinear_arith)
                requires
                    w <= 0xffff_ffffu64,
                    h <= 0xffff_ffffu64,
            ;
        }
        let wh = w * h;
        if wh > (raw.len() / 4) as u64 {
            return None;
        }
        let needed = (wh * 4) as usize;
        let mut data = raw;
        data.truncate(needed);
        Some(RgbaBuffer { width, height, data })
    }
}

impl GrayBuffer {
    /// The buffer holds exactly one byte per pixel.
    pub open spec fn wf(&self) -> bool {
        self.data@.len() == self.width * self.height
    }
}

/// Width or height of a crop, as `image::imageops::crop_imm` clips it:
/// the start is first moved inside the image, then the length is cut at
/// the image's edge.
pub open spec fn crop_start(size: u32, start: u32) -> u32 {
    if start <= size {
        start
    } else {
        size
    }
}

/// See `crop_start`.
pub open spec fn crop_len(size: u32, start: u32, len: u32) -> u32 {
    let s = crop_start(size, start);
    if len <= size - s {
        len
    } else {
        (size - s) as u32
    }
}

/// `r` is the part of `src` whose top-left corner is (`x`, `y`) and whose
/// size is `w` by `h`, clipped to `src`.
pub open spec fn is_crop_of(r: RgbaBuffer, src: RgbaBuffer, x: u32, y: u32, w: u32, h: u32) -> bool {
    &&& r.wf()
    &&& r.width == crop_len(src.width, x, w)
    &&& r.height == crop_len(src.height, y, h)
    &&& forall|i: int, j: int, c: int|
        0 <= i < r.width && 0 <= j < r.height && 0 <= c < 4 ==> #[trigger] r.at(i, j, c) == src.at(
            crop_start(src.width, x) + i,
            crop_start(src.height, y) + j,
            c,
        )
}

/// `image::imageops::crop_imm` followed by `SubImage::to_image`: copies the
/// pixels of the (clipped) rectangle into a new buffer.
#[verifier::external_body]
pub(crate) fn crop_rgba(img: &RgbaBuffer, x: u32, y: u32, w: u32, h: u32) -> (r: RgbaBuffer)
    requires
        img.wf(),
    ensures
        is_crop_of(r, *img, x, y, w, h),
{
    let view = image::RgbaImage::from_raw(img.width, img.height, img.data.clone()).unwrap();
    let out = image::imageops::crop_imm(&view, x, y, w, h).to_image();
    RgbaBuffer { width: out.width(), height: out.height(), data: out.into_raw() }
}

/// `RgbaImage::new(width, height)`: every byte is zero (transparent black).
#[verifier::external_body]
pub(crate) fn blank_rgba(width: u32, height: u32) -> (r: RgbaBuffer)
    requires
        width * height * 4 <= usize::MAX,
    ensures
        r.wf(),
        r.width == width,
        r.height == height,
        forall|i: int| 0 <= i < r.data@.len() ==> r.data@[i] == 0,
{
    let img = image::RgbaImage::new(width, height);
    RgbaBuffer { width, height, data: img.into_raw() }
}

/// The pixels of `bottom` after `image::imageops::overlay` has blended
/// `top` onto it with its top-left corner at (`x`, `y`).
pub uninterp spec fn overlay_pixels(
    bottom: Seq<u8>,
    bottom_width: u32,
    bottom_height: u32,
    top: Seq<u8>,
    top_width: u32,
    top_height: u32,
    x: i64,
    y: i64,
) -> Seq<u8>;

/// `top` placed at (`x`, `y`) lies entirely inside `bottom`.
pub open spec fn overlay_fits(bottom: RgbaBuffer, top: RgbaBuffer, x: i64, y: i64) -> bool {
    &&& 0 <= x
    &&& x + top.width <= bottom.width
    &&& 0 <= y
    &&& y + top.height <= bottom.height
}

/// Every pixel of `img` has full alpha.
pub open spec fn is_opaque(img: RgbaBuffer) -> bool {
    forall|i: int, j: int| 0 <= i < img.width && 0 <= j < img.height ==> #[trigger] img.at(i, j, 3) == 255
}

/// `image::imageops::overlay`: alpha-blends `top` onto `bottom` at
/// (`x`, `y`), clipped to `bottom`. The blended pixels are only named, with
/// `bottom` keeping its size; when `top` lies inside `bottom`, pixels outside
/// the placed rectangle are stated to be untouched, and each fully opaque
/// pixel of `top` to replace the pixel under it (`Rgba::blend` copies a
/// pixel whose alpha is the maximum).
#[verifier::external_body]
pub(crate) fn overlay_rgba(bottom: &mut RgbaBuffer, top: &RgbaBuffer, x: i64, y: i64)
    requires
        old(bottom).wf(),
        top.wf(),
    ensures
        final(bottom).width == old(bottom).width,
        final(bottom).height == old(bottom).height,
        final(bottom).data@ == overlay_pixels(
            old(bottom).data@,
            old(bottom).width,
            old(bottom).height,
            top.data@,
            top.width,
            top.height,
            x,
            y,
        ),
        final(bottom).data@.len() == old(bottom).data@.len(),
        overlay_fits(*old(bottom), *top, x, y) ==> forall|px: int, py: int, c: int|
            0 <= px < old(bottom).width && 0 <= py < old(bottom).height && 0 <= c < 4 && !(x <= px
                < x + top.width && y <= py < y + top.height) ==> #[trigger] final(bottom).at(px, py, c)
                == old(bottom).at(px, py, c),
        overlay_fits(*old(bottom), *top, x, y) ==> forall|i: int, j: int, c: int|
            0 <= i < top.width && 0 <= j < top.height && 0 <= c < 4 && top.at(i, j, 3) == 255
                ==> final(bottom).at(x + i, y + j, c) == #[trigger] top.at(i, j, c),
{
    let raw = std::mem::take(&mut bottom.data);
    let mut canvas = image::RgbaImage::from_raw(bottom.width, bottom.height, raw).unwrap();
    let src = image::ImageBuffer::<image::Rgba<u8>, &[u8]>::from_raw(
        top.width,
        top.height,
        top.data.as_slice(),
    ).unwrap();
    image::imageops::overlay(&mut canvas, &src, x, y);
    bottom.data = canvas.into_raw();
}

/// The pixels of an RGBA image of `width` by `height` resized by
/// `image::imageops::resize` with the Catmull-Rom filter.
pub uninterp spec fn catmull_rom_resized(
    pixels: Seq<u8>,
    width: u32,
    height: u32,
    new_width: u32,
    new_height: u32,
) -> Seq<u8>;

/// `image::imageops::resize(.., FilterType::CatmullRom)`. The result has the
/// requested size; its pixels are only named.
#[verifier::external_body]
pub(crate) fn resize_catmull_rom(img: &RgbaBuffer, new_width: u32, new_height: u32) -> (r: RgbaBuffer)
    requires
        img.wf(),
        new_width * new_height * 4 <= usize::MAX,
    ensures
        r.wf(),
        r.width == new_width,
        r.height == new_height,
        r.data@ == catmull_rom_resized(img.data@, img.width, img.height, new_width, new_height),
{
    let view = image::ImageBuffer::<image::Rgba<u8>, &[u8]>::from_raw(
        img.width,
        img.height,
        img.data.as_slice(),
    ).unwrap();
    let out = image::imageops::resize(
        &view,
        new_width,
        new_height,
        image::imageops::FilterType::CatmullRom,
    );
    RgbaBuffer { width: new_width, height: new_height, data: out.into_raw() }
}

/// The luminance image that `DynamicImage::to_luma8` computes from RGBA
/// pixels of `width` by `height`.
pub uninterp spec fn luma_pixels(pixels: Seq<u8>, width: u32, height: u32) -> Seq<u8>;

/// `DynamicImage::to_luma8` on an RGBA image. The result has the same size;
/// its pixels are only named.
#[verifier::external_body]
pub(crate) fn to_luma(img: RgbaBuffer) -> (r: GrayBuffer)
    requires
        img.wf(),
    ensures
        r.wf(),
        r.width == img.width,
        r.height == img.height,
        r.data@ == luma_pixels(img.data@, img.width, img.height),
{
    let (width, height) = (img.width, img.height);
    let rgba = image::RgbaImage::from_raw(width, height, img.data).unwrap();
    let gray = image::DynamicImage::ImageRgba8(rgba).to_luma8();
    GrayBuffer { width, height, data: gray.into_raw() }
}

/// The level that `imageproc::contrast::otsu_level` picks for a grayscale
/// image of `width` by `height`.
pub uninterp spec fn otsu_level_of(pixels: Seq<u8>, width: u32, height: u32) -> u8;

/// Number of values in `s` equal to `v`.
pub open spec fn count_of(s: Seq<u8>, v: int) -> nat
    decreases s.len(),
{
    if s.len() == 0 {
        0
    } else {
        count_of(s.drop_last(), v) + if s.last() == v {
            1nat
        } else {
            0nat
        }
    }
}

/// For every intensity `t`, `t` times the number of pixels of intensity
/// `t` fits in `u32` (the sums that `otsu_level` forms in `u32`).
pub open spec fn otsu_sums_fit(s: Seq<u8>) -> bool {
    forall|t: int| 0 <= t < 256 ==> t * #[trigger] count_of(s, t) <= u32::MAX
}

/// `imageproc::contrast::otsu_level`. It computes `width * height` and,
/// for each intensity `t`, `t` times the number of pixels of that
/// intensity in `u32`; both must fit.
#[verifier::external_body]
pub(crate) fn otsu_level(img: &GrayBuffer) -> (r: u8)
    requires
        img.wf(),
        img.width * img.height <= u32::MAX,
        otsu_sums_fit(img.data@),
    ensures
        r == otsu_level_of(img.data@, img.width, img.height),
{
    let view = image::ImageBuffer::<image::Luma<u8>, Vec<u8>>::from_raw(
        img.width,
        img.height,
        img.data.clone(),
    ).unwrap();
    imageproc::contrast::otsu_level(&view)
}

/// `s` with every value above `level` set to 255 and every other to 0.
pub open spec fn binarized(s: Seq<u8>, level: u8) -> Seq<u8> {
    Seq::new(
        s.len(),
        |i: int|
            if s[i] > level {
                255u8
            } else {
                0u8
            },
    )
}

/// `s` with every value `v` replaced by `255 - v`.
pub open spec fn inverted(s: Seq<u8>) -> Seq<u8> {
    Seq::new(s.len(), |i: int| (255 - s[i]) as u8)
}

/// `imageproc::contrast::threshold(.., ThresholdType::Binary)`: pixels above
/// `level` become 255, the others 0.
#[verifier::external_body]
pub(crate) fn threshold_binary(img: &GrayBuffer, level: u8) -> (r: GrayBuffer)
    requires
        img.wf(),
    ensures
        r.wf(),
        r.width == img.width,
        r.height == img.height,
        r.data@ == binarized(img.data@, level),
{
    let view = image::ImageBuffer::<image::Luma<u8>, Vec<u8>>::from_raw(
        img.width,
        img.height,
        img.data.clone(),
    ).unwrap();
    let out = imageproc::contrast::threshold(&view, level, imageproc::contrast::ThresholdType::Binary);
    GrayBuffer { width: img.width, height: img.height, data: out.into_raw() }
}

/// `image::imageops::invert` on a grayscale image: each value `v` becomes
/// `255 - v`.
#[verifier::external_body]
pub(crate) fn invert_gray(img: &mut GrayBuffer)
    requires
        old(img).wf(),
    ensures
        final(img).width == old(img).width,
        final(img).height == old(img).height,
        final(img).data@ == inverted(old(img).data@),
{
    let raw = std::mem::take(&mut img.data);
    let mut view = image::GrayImage::from_raw(img.width, img.height, raw).unwrap();
    image::imageops::invert(&mut view);
    img.data = view.into_raw();
}

/// The PNG file that `image` writes for a grayscale image of `width` by
/// `height` (`None` when encoding fails).
pub uninterp spec fn png_encoding(pixels: Seq<u8>, width: u32, height: u32) -> Option<Seq<u8>>;

/// `ImageBuffer::write_to(.., ImageFormat::Png)` on a grayscale image: the
/// bytes that `GrayImage::save` writes to a `.png` path (both go through
/// `PngEncoder::new` with its defaults). The bytes are only named.
#[verifier::external_body]
pub(crate) fn encode_png(img: &GrayBuffer) -> (r: Option<Vec<u8>>)
    requires
        img.wf(),
    ensures
        match png_encoding(img.data@, img.width, img.height) {
            None => r is None,
            Some(bytes) => r matches Some(v) && v@ == bytes,
        },
{
    let view = image::GrayImage::from_raw(img.width, img.height, img.data.clone()).unwrap();
    let mut out = std::io::Cursor::new(Vec::new());
    view.write_to(&mut out, image::ImageFormat::Png).ok()?;
    Some(out.into_inner())
}

/// The RGBA image that `image` decodes from the file contents `bytes`:
/// width, height and pixel bytes (`None` when the bytes cannot be decoded).
pub uninterp spec fn decoded_rgba(bytes: Seq<u8>) -> Option<(u32, u32, Seq<u8>)>;

/// `image::load_from_memory` followed by `DynamicImage::into_rgba8`: the
/// format is guessed from the bytes, and the decoded image is converted to
/// RGBA. The decoded image is only named.
#[verifier::external_body]
fn decode_image_rgba(bytes: &Vec<u8>) -> (r: Option<(u32, u32, Vec<u8>)>)
    ensures
        match decoded_rgba(bytes@) {
            None => r is None,
            Some(d) => r matches Some(v) && v.0 == d.0 && v.1 == d.1 && v.2@ == d.2,
        },
{
    let img = image::load_from_memory(bytes.as_slice()).ok()?.into_rgba8();
    let (width, height) = img.dimensions();
    Some((width, height, img.into_raw()))
}

/// Decodes an image file held in memory (such as the tray icon) into an
/// RGBA buffer; `None` when it cannot be decoded.
pub fn decode_image(bytes: &Vec<u8>) -> (r: Option<RgbaBuffer>)
    ensures
        match decoded_rgba(bytes@) {
            None => r is None,
            Some(d) => if d.2.len() >= d.0 * d.1 * 4 {
                r matches Some(b) && b.wf() && b.width == d.0 && b.height == d.1
                    && b.data@ == d.2.subrange(0, d.0 * d.1 * 4)
            } else {
                r is None
            },
        },
{
    match decode_image_rgba(bytes) {
        None => None,
        Some((width, height, pixels)) => RgbaBuffer::from_raw(width, height, pixels),
    }
}

} // verus!
