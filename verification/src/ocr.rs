//! The text side of OCR: the names of the temporary files exchanged with
//! the Tesseract engine, when and how the bundled engine is unpacked, the
//! clean-up of recognised text, and what is done with the result.

use vstd::prelude::*;
use crate::imaging::{RgbaBuffer, encode_png, is_crop_of, otsu_level_of, png_encoding, otsu_sums_fit};
use crate::overlay::{clamped_selection, crop_selection};
use crate::preprocessing::{
    lemma_preprocessed_is_otsu_threshold, preprocess, preprocess_fits, preprocess_size_ok, preprocessed,
    upscaled_gray,
};
use crate::text::{
    char_is_whitespace, decimal, ends_with_slash, push_decimal, trim_end, trim_start, trimmed,
    trim_text,
};

verus! {

/// The temporary files of one recognition: the image handed to Tesseract,
/// the output name given to it (without extension), and the text file it
/// writes.
#[derive(Debug, Clone)]
pub struct OcrTempFiles {
    pub image: String,
    pub output_base: String,
    pub output_text: String,
}

/// `prefix` followed by the decimal digits of `n` and then `suffix`.
fn numbered_name(prefix: &str, n: u32, suffix: &str) -> (r: String)
    ensures
        r@ == prefix@ + decimal(n as nat) + suffix@,
{
    let mut s = String::from_str(prefix);
    push_decimal(&mut s, n);
    s.append(suffix);
    s
}

/// The temporary file names used by the process with identifier `pid`
/// (they are placed in the system's temporary directory).
pub fn ocr_temp_files(pid: u32) -> (r: OcrTempFiles)
    ensures
        r.image@ == "screen_ocr_"@ + decimal(pid as nat) + "_img.png"@,
        r.output_base@ == "screen_ocr_"@ + decimal(pid as nat) + "_out"@,
        r.output_text@ == "screen_ocr_"@ + decimal(pid as nat) + "_out.txt"@,
{
    OcrTempFiles {
        image: numbered_name("screen_ocr_", pid, "_img.png"),
        output_base: numbered_name("screen_ocr_", pid, "_out"),
        output_text: numbered_name("screen_ocr_", pid, "_out.txt"),
    }
}

/// The bundled engine is unpacked again unless both its executable and
/// its runtime library are already present.
pub fn needs_extraction(exe_exists: bool, dll_exists: bool) -> (r: bool)
    ensures
        r == (!exe_exists || !dll_exists),
{
    !exe_exists || !dll_exists
}

/// One entry of a zip archive: its name as stored, the relative path it
/// may be unpacked to (`None` when the name would leave the destination
/// directory), the contents read from it, and whether reading them
/// succeeded (when it did not, `data` holds the bytes read before the
/// failure).
#[derive(Debug, Clone)]
pub struct ArchiveEntry {
    pub name: String,
    pub path: Option<String>,
    pub data: Vec<u8>,
    pub read_ok: bool,
}

/// An entry as plain values: name, safe path, contents, whether its
/// contents were read in full.
pub open spec fn entry_view(e: ArchiveEntry) -> (Seq<char>, Option<Seq<char>>, Seq<u8>, bool) {
    (
        e.name@,
        match e.path {
            Some(p) => Some(p@),
            None => None,
        },
        e.data@,
        e.read_ok,
    )
}

/// What the `zip` crate lists of the archive `bytes`: the entries in
/// archive order up to the first one that cannot be opened, and whether
/// every entry of the archive was listed (false as well when the archive
/// itself cannot be opened).
pub uninterp spec fn zip_entries(bytes: Seq<u8>) -> (Seq<(Seq<char>, Option<Seq<char>>, Seq<u8>, bool)>, bool);

/// Reads the entries of a zip archive held in memory with
/// `zip::ZipArchive::new`, `by_index`, `name`, `enclosed_name` and
/// `Read::read_to_end`, stopping at the first entry that cannot be opened;
/// an entry whose contents cannot be read in full is kept with the bytes
/// read so far. The result is only named (`zip_entries`).
#[verifier::external_body]
fn read_zip_entries(bytes: &Vec<u8>) -> (r: (Vec<ArchiveEntry>, bool))
    ensures
        r.0@.len() == zip_entries(bytes@).0.len(),
        forall|i: int| 0 <= i < r.0@.len() ==> entry_view(#[trigger] r.0@[i]) == zip_entries(bytes@).0[i],
        r.1 == zip_entries(bytes@).1,
{
    let mut entries = Vec::new();
    let Ok(mut archive) = zip::ZipArchive::new(std::io::Cursor::new(bytes.as_slice())) else {
        return (entries, false);
    };
    for i in 0..archive.len() {
        let Ok(mut file) = archive.by_index(i) else { return (entries, false) };
        let path = file.enclosed_name().map(|p| p.to_string_lossy().into_owned());
        let mut data = Vec::new();
        let read_ok = std::io::Read::read_to_end(&mut file, &mut data).is_ok();
        entries.push(ArchiveEntry { name: file.name().to_owned(), path, data, read_ok });
    }
    (entries, true)
}

/// What to do with one entry of the bundled engine's archive.
#[derive(Debug, Clone, PartialEq, Eq)]
pub enum ArchiveEntryAction {
    /// The entry's path would leave the destination directory.
    Skip,
    /// Create this directory (relative to the destination).
    CreateDirectory(String),
    /// Write these contents to this file (relative to the destination),
    /// creating its parent directory when missing.
    WriteFile(String, Vec<u8>),
}

/// The entry `e` is unpacked as a directory: it has a safe path and its
/// name ends in `/`.
pub open spec fn is_directory_entry(e: (Seq<char>, Option<Seq<char>>, Seq<u8>, bool)) -> bool {
    e.0.len() > 0 && e.0.last() == '/'
}

/// `a` is what to do with the entry `e`: skip it when it has no safe
/// path, create a directory when its name ends in `/`, and otherwise write
/// its contents to its path.
pub open spec fn is_action_for(a: ArchiveEntryAction, e: (Seq<char>, Option<Seq<char>>, Seq<u8>, bool)) -> bool {
    match e.1 {
        None => a is Skip,
        Some(p) => if is_directory_entry(e) {
            a matches ArchiveEntryAction::CreateDirectory(d) && d@ == p
        } else {
            a matches ArchiveEntryAction::WriteFile(f, data) && f@ == p && data@ == e.2
        },
    }
}

/// Unpacking the entry `e` fails: it is written to a file, and its
/// contents could not be read in full (the file then keeps what was read).
pub open spec fn unpack_fails(e: (Seq<char>, Option<Seq<char>>, Seq<u8>, bool)) -> bool {
    e.1 is Some && !is_directory_entry(e) && !e.3
}

/// Decides how one archive entry is unpacked.
pub fn archive_entry_action(entry: &ArchiveEntry) -> (r: ArchiveEntryAction)
    ensures
        is_action_for(r, entry_view(*entry)),
{
    match &entry.path {
        None => ArchiveEntryAction::Skip,
        Some(p) => if ends_with_slash(entry.name.as_str()) {
            ArchiveEntryAction::CreateDirectory(p.clone())
        } else {
            let data = entry.data.clone();
            assert(data@ =~= entry.data@);
            ArchiveEntryAction::WriteFile(p.clone(), data)
        },
    }
}

/// The steps that unpack an archive, and whether carrying them all out
/// unpacks the whole archive.
#[derive(Debug, Clone)]
pub struct ExtractionPlan {
    pub steps: Vec<ArchiveEntryAction>,
    pub complete: bool,
}

/// `plan` unpacks the listed entries `es` in order, up to and including
/// the first one whose unpacking fails, and is complete exactly when every
/// entry was listed and none fails.
pub open spec fn is_plan_for(plan: ExtractionPlan, es: Seq<(Seq<char>, Option<Seq<char>>, Seq<u8>, bool)>, listed: bool) -> bool {
    let n = plan.steps@.len();
    &&& n <= es.len()
    &&& forall|i: int| 0 <= i < n ==> is_action_for(#[trigger] plan.steps@[i], es[i])
    &&& forall|i: int| 0 <= i < n - 1 ==> !unpack_fails(#[trigger] es[i])
    &&& n < es.len() ==> n > 0 && unpack_fails(es[n - 1])
    &&& plan.complete == (listed && forall|i: int| 0 <= i < es.len() ==> !unpack_fails(#[trigger] es[i]))
}

/// The unpacking steps for the entries `entries` of an archive, in
/// archive order, ending with the first entry whose unpacking fails;
/// `listed` says whether every entry of the archive is in `entries`.
pub fn extraction_plan(entries: &Vec<ArchiveEntry>, listed: bool) -> (r: ExtractionPlan)
    ensures
        is_plan_for(r, entries@.map_values(|e: ArchiveEntry| entry_view(e)), listed),
{
    let ghost es = entries@.map_values(|e: ArchiveEntry| entry_view(e));
    let mut steps: Vec<ArchiveEntryAction> = Vec::new();
    let mut i: usize = 0;
    let mut failed = false;
    while i < entries.len() && !failed
        invariant
            es == entries@.map_values(|e: ArchiveEntry| entry_view(e)),
            i <= entries@.len(),
            steps@.len() == i,
            forall|j: int| 0 <= j < i ==> is_action_for(#[trigger] steps@[j], es[j]),
            forall|j: int| 0 <= j < i - 1 ==> !unpack_fails(#[trigger] es[j]),
            failed == (i > 0 && unpack_fails(es[i - 1])),
        decreases entries@.len() - i,
    {
        let e = &entries[i];
        steps.push(archive_entry_action(e));
        failed = e.path.is_some() && !ends_with_slash(e.name.as_str()) && !e.read_ok;
        proof {
            assert(es[i as int] == entry_view(entries@[i as int]));
        }
        i = i + 1;
    }
    let complete = listed && !failed;
    proof {
        if !failed {
            assert forall|j: int| 0 <= j < es.len() implies !unpack_fails(#[trigger] es[j]) by {
                if j < i - 1 {
                } else {
                    assert(j == i - 1);
                }
            }
        }
    }
    ExtractionPlan { steps, complete }
}

/// Reads the bundled engine's archive and returns the steps that unpack
/// it: those for the entries that could be listed, up to and including the
/// first whose contents cannot be read; the plan is complete exactly when
/// the whole archive was listed and read.
pub fn plan_archive_extraction(archive: &Vec<u8>) -> (r: ExtractionPlan)
    ensures
        is_plan_for(r, zip_entries(archive@).0, zip_entries(archive@).1),
{
    let (entries, listed) = read_zip_entries(archive);
    let r = extraction_plan(&entries, listed);
    proof {
        assert(entries@.map_values(|e: ArchiveEntry| entry_view(e)) =~= zip_entries(archive@).0);
    }
    r
}

/// The text that OCR reports for Tesseract's output `raw`: `raw` without
/// leading and trailing whitespace.
pub fn recognized_text(raw: &str) -> (r: String)
    ensures
        r@ == trimmed(raw@),
{
    trim_text(raw)
}

/// What is done with the outcome of a recognition.
#[derive(Debug, Clone)]
pub enum OcrAction {
    /// Put the text on the clipboard and tell the user.
    CopyToClipboard(String),
    /// Nothing was recognised.
    Nothing,
    /// Recognition failed; report the message.
    ReportError(String),
}

/// Text that is not blank is copied, blank text is ignored, and a failure
/// is reported.
pub fn ocr_action(result: Result<String, String>) -> (r: OcrAction)
    ensures
        match result {
            Ok(text) => if trimmed(text@).len() == 0 {
                r is Nothing
            } else {
                r matches OcrAction::CopyToClipboard(c) && c@ == text@
            },
            Err(msg) => r matches OcrAction::ReportError(m) && m@ == msg@,
        },
{
    match result {
        Ok(text) => {
            let t = trim_text(text.as_str());
            if t.as_str().is_empty() {
                OcrAction::Nothing
            } else {
                OcrAction::CopyToClipboard(text)
            }
        },
        Err(msg) => OcrAction::ReportError(msg),
    }
}

proof fn lemma_trim_start_first(s: Seq<char>)
    ensures
        trim_start(s).len() > 0 ==> !char_is_whitespace(trim_start(s)[0]),
        trim_start(s).len() <= s.len(),
    decreases s.len(),
{
    if s.len() > 0 && char_is_whitespace(s[0]) {
        lemma_trim_start_first(s.drop_first());
    }
}

proof fn lemma_trim_end_last(s: Seq<char>)
    ensures
        trim_end(s).len() > 0 ==> !char_is_whitespace(trim_end(s).last()),
        trim_end(s).len() <= s.len(),
        forall|i: int| 0 <= i < trim_end(s).len() ==> trim_end(s)[i] == s[i],
    decreases s.len(),
{
    if s.len() > 0 && char_is_whitespace(s.last()) {
        lemma_trim_end_last(s.drop_last());
        assert forall|i: int| 0 <= i < trim_end(s).len() implies trim_end(s)[i] == s[i] by {
            assert(s.drop_last()[i] == s[i]);
        }
    }
}

/// Trimming a string that neither starts nor ends with whitespace leaves
/// it unchanged.
proof fn lemma_trim_clean(s: Seq<char>)
    requires
        s.len() > 0 ==> !char_is_whitespace(s[0]) && !char_is_whitespace(s.last()),
    ensures
        trimmed(s) == s,
{
}

/// Trimming twice is trimming once: the text that OCR reports has no
/// whitespace left to remove.
pub proof fn lemma_trimmed_idempotent(s: Seq<char>)
    ensures
        trimmed(trimmed(s)) == trimmed(s),
{
    let a = trim_start(s);
    lemma_trim_start_first(a);
    lemma_trim_start_first(s);
    lemma_trim_end_last(a);
    let t = trim_end(a);
    if t.len() > 0 {
        assert(t[0] == a[0]);
    }
    lemma_trim_clean(t);
}

/// The text that OCR reports (`recognized_text`) is blank exactly when it
/// is empty, so `ocr_action` copies it exactly when it is not empty.
pub proof fn lemma_reported_text_blank_iff_empty(raw: Seq<char>)
    ensures
        trimmed(trimmed(raw)).len() == 0 <==> trimmed(raw).len() == 0,
{
    lemma_trimmed_idempotent(raw);
}

/// What a finished selection gives the OCR engine.
#[derive(Debug, Clone)]
pub enum OcrInput {
    /// The selection has no area, or none of it lies on the frozen desktop.
    NothingSelected,
    /// The selected region is too large to preprocess.
    TooLarge,
    /// The preprocessed image could not be encoded as PNG.
    EncodingFailed,
    /// The preprocessed region as a PNG file.
    Png(Vec<u8>),
}

/// What OCR receives for the region `crop` (cut out of the frozen desktop)
/// of `width` by `height`.
pub open spec fn ocr_input_of(crop: Seq<u8>, width: u32, height: u32, r: OcrInput) -> bool {
    if !preprocess_size_ok(width, height) || !otsu_sums_fit(upscaled_gray(crop, width, height)) {
        r is TooLarge
    } else {
        match png_encoding(
            preprocessed(crop, width, height),
            (2 * width) as u32,
            (2 * height) as u32,
        ) {
            None => r is EncodingFailed,
            Some(bytes) => r matches OcrInput::Png(b) && b@ == bytes,
        }
    }
}

/// What OCR receives for a region: nothing when the region is too large
/// for preprocessing, and otherwise the PNG encoding of the region's
/// preprocessed image, every pixel at its own place: the 2x upscaled gray
/// region thresholded at its Otsu level (flipped when mostly dark).
pub proof fn lemma_ocr_input_is_encoded_region(crop: Seq<u8>, width: u32, height: u32, r: OcrInput)
    requires
        ocr_input_of(crop, width, height, r),
    ensures
        r is TooLarge <==> !preprocess_size_ok(width, height) || !otsu_sums_fit(
            upscaled_gray(crop, width, height),
        ),
        r matches OcrInput::Png(b) ==> ({
            let gray = upscaled_gray(crop, width, height);
            let level = otsu_level_of(gray, (2 * width) as u32, (2 * height) as u32);
            let invert = 255 * gray.filter(|v: u8| v > level).len() < 128 * gray.len();
            let image = preprocessed(crop, width, height);
            &&& png_encoding(image, (2 * width) as u32, (2 * height) as u32) == Some(b@)
            &&& image.len() == gray.len()
            &&& forall|i: int|
                0 <= i < gray.len() ==> #[trigger] image[i] == if (gray[i] > level) != invert {
                    255u8
                } else {
                    0u8
                }
        }),
{
    lemma_preprocessed_is_otsu_threshold(crop, width, height);
}

/// Turns a finished selection (in physical pixels of the frozen desktop)
/// into the image handed to the OCR engine: cuts it out, preprocesses it and
/// encodes it as PNG. A selection without area cancels.
pub fn prepare_ocr_input(full: &RgbaBuffer, px: u32, py: u32, pw: u32, ph: u32) -> (r: OcrInput)
    requires
        full.wf(),
    ensures
        match clamped_selection(px, py, pw, ph, full.width, full.height) {
            None => r is NothingSelected,
            Some(c) => exists|crop: RgbaBuffer|
                #[trigger] is_crop_of(crop, *full, c.x, c.y, c.width, c.height) && crop.width
                    == c.width && crop.height == c.height && ocr_input_of(
                    crop.data@,
                    c.width,
                    c.height,
                    r,
                ),
        },
        r matches OcrInput::Png(b) ==> clamped_selection(px, py, pw, ph, full.width, full.height)
            matches Some(c) && exists|crop: RgbaBuffer|
            #[trigger] is_crop_of(crop, *full, c.x, c.y, c.width, c.height) && crop.width == c.width
                && crop.height == c.height && png_encoding(
                preprocessed(crop.data@, c.width, c.height),
                (2 * c.width) as u32,
                (2 * c.height) as u32,
            ) == Some(b@),
{
    let crop = match crop_selection(full, px, py, pw, ph) {
        None => return OcrInput::NothingSelected,
        Some(img) => img,
    };
    if !preprocess_fits(crop.width, crop.height) {
        return OcrInput::TooLarge;
    }
    match preprocess(crop) {
        None => OcrInput::TooLarge,
        Some(gray) => match encode_png(&gray) {
            None => OcrInput::EncodingFailed,
            Some(bytes) => OcrInput::Png(bytes),
        },
    }
}

} // verus!
