use screen_ocr::ocr::{
    ArchiveEntry, ArchiveEntryAction, OcrAction, archive_entry_action, extraction_plan,
    needs_extraction, ocr_action, ocr_temp_files, plan_archive_extraction, recognized_text,
};
use std::io::Write;
use screen_ocr::text::{ends_with_slash, push_decimal, str_equal, trim_text};

#[test]
fn string_equality() {
    assert!(str_equal("abc", "abc"));
    assert!(str_equal("", ""));
    assert!(!str_equal("abc", "abd"));
    assert!(!str_equal("abc", "ab"));
    assert!(str_equal("čćž", "čćž"));
}

#[test]
fn decimal_formatting() {
    let mut s = String::from("n=");
    push_decimal(&mut s, 0);
    assert_eq!(s, "n=0");
    let mut s = String::new();
    push_decimal(&mut s, 1234567890);
    assert_eq!(s, "1234567890");
    let mut s = String::new();
    push_decimal(&mut s, u32::MAX);
    assert_eq!(s, u32::MAX.to_string());
    let mut s = String::new();
    push_decimal(&mut s, 10);
    assert_eq!(s, "10");
}

#[test]
fn trimming_matches_str_trim() {
    for s in ["", "   ", "abc", "  abc", "abc \n", "\t a b \r\n", "\u{3000}x\u{00A0}", "a\n\nb"] {
        assert_eq!(trim_text(s), s.trim());
    }
}

#[test]
fn slash_suffix() {
    assert!(ends_with_slash("tessdata/"));
    assert!(!ends_with_slash("tessdata/eng.traineddata"));
    assert!(!ends_with_slash(""));
}

#[test]
fn temp_file_names_carry_the_process_id() {
    let f = ocr_temp_files(4242);
    assert_eq!(f.image, "screen_ocr_4242_img.png");
    assert_eq!(f.output_base, "screen_ocr_4242_out");
    assert_eq!(f.output_text, "screen_ocr_4242_out.txt");
    let g = ocr_temp_files(0);
    assert_eq!(g.image, "screen_ocr_0_img.png");
}

#[test]
fn recognized_text_is_trimmed() {
    assert_eq!(recognized_text("\n  Hello, world!  \n\n"), "Hello, world!");
    assert_eq!(recognized_text(" \n\t "), "");
}

#[test]
fn ocr_outcomes() {
    match ocr_action(Ok("Text".to_string())) {
        OcrAction::CopyToClipboard(t) => assert_eq!(t, "Text"),
        other => panic!("unexpected {:?}", other),
    }
    assert!(matches!(ocr_action(Ok(String::new())), OcrAction::Nothing));
    assert!(matches!(ocr_action(Ok("  \n ".to_string())), OcrAction::Nothing));
    match ocr_action(Err("tesseract failed".to_string())) {
        OcrAction::ReportError(m) => assert_eq!(m, "tesseract failed"),
        other => panic!("unexpected {:?}", other),
    }
}

#[test]
fn extraction_is_needed_when_a_file_is_missing() {
    assert!(!needs_extraction(true, true));
    assert!(needs_extraction(false, true));
    assert!(needs_extraction(true, false));
    assert!(needs_extraction(false, false));
}

fn entry(name: &str, path: Option<&str>, data: &[u8]) -> ArchiveEntry {
    ArchiveEntry {
        name: name.to_string(),
        path: path.map(|p| p.to_string()),
        data: data.to_vec(),
        read_ok: true,
    }
}

fn unreadable(name: &str, path: Option<&str>, data: &[u8]) -> ArchiveEntry {
    ArchiveEntry { read_ok: false, ..entry(name, path, data) }
}

#[test]
fn archive_entries() {
    assert_eq!(
        archive_entry_action(&entry("tessdata/", Some("tessdata/"), b"")),
        ArchiveEntryAction::CreateDirectory("tessdata/".to_string())
    );
    assert_eq!(
        archive_entry_action(&entry("tesseract.exe", Some("tesseract.exe"), b"MZ")),
        ArchiveEntryAction::WriteFile("tesseract.exe".to_string(), b"MZ".to_vec())
    );
    assert_eq!(archive_entry_action(&entry("../evil/", None, b"")), ArchiveEntryAction::Skip);
    assert_eq!(archive_entry_action(&entry("../evil.exe", None, b"x")), ArchiveEntryAction::Skip);
    let plan = extraction_plan(&vec![entry("a/", Some("a/"), b""), entry("a/b", Some("a/b"), b"hi")], true);
    assert_eq!(
        plan.steps,
        vec![
            ArchiveEntryAction::CreateDirectory("a/".to_string()),
            ArchiveEntryAction::WriteFile("a/b".to_string(), b"hi".to_vec()),
        ]
    );
    assert!(plan.complete);
    let unlisted = extraction_plan(&vec![entry("a/", Some("a/"), b"")], false);
    assert_eq!(unlisted.steps, vec![ArchiveEntryAction::CreateDirectory("a/".to_string())]);
    assert!(!unlisted.complete);
}

#[test]
fn unpacking_stops_after_the_first_unreadable_file() {
    let entries = vec![
        entry("a", Some("a"), b"one"),
        unreadable("../skipped", None, b""),
        unreadable("dir/", Some("dir/"), b""),
        unreadable("dir/b", Some("dir/b"), b"tw"),
        entry("c", Some("c"), b"three"),
    ];
    let plan = extraction_plan(&entries, true);
    assert_eq!(
        plan.steps,
        vec![
            ArchiveEntryAction::WriteFile("a".to_string(), b"one".to_vec()),
            ArchiveEntryAction::Skip,
            ArchiveEntryAction::CreateDirectory("dir/".to_string()),
            ArchiveEntryAction::WriteFile("dir/b".to_string(), b"tw".to_vec()),
        ]
    );
    assert!(!plan.complete);
}

#[test]
fn zip_archive_is_planned_entry_by_entry() {
    let mut writer = zip::ZipWriter::new(std::io::Cursor::new(Vec::new()));
    let options = zip::write::SimpleFileOptions::default();
    writer.add_directory("tessdata/", options).unwrap();
    writer.start_file("tessdata/eng.traineddata", options).unwrap();
    writer.write_all(b"model").unwrap();
    writer.start_file("../escape.txt", options).unwrap();
    writer.write_all(b"nope").unwrap();
    writer.start_file("tesseract.exe", options).unwrap();
    writer.write_all(b"binary").unwrap();
    let bytes = writer.finish().unwrap().into_inner();

    let plan = plan_archive_extraction(&bytes);
    assert!(plan.complete);
    let steps = plan.steps;
    assert_eq!(steps.len(), 4);
    assert_eq!(steps[0], ArchiveEntryAction::CreateDirectory("tessdata/".to_string()));
    assert_eq!(
        steps[1],
        ArchiveEntryAction::WriteFile("tessdata/eng.traineddata".to_string(), b"model".to_vec())
    );
    assert_eq!(steps[2], ArchiveEntryAction::Skip);
    assert_eq!(steps[3], ArchiveEntryAction::WriteFile("tesseract.exe".to_string(), b"binary".to_vec()));

    let unreadable = plan_archive_extraction(&b"not a zip archive".to_vec());
    assert!(unreadable.steps.is_empty());
    assert!(!unreadable.complete);
}

#[test]
fn corrupt_zip_entry_ends_the_plan() {
    let mut writer = zip::ZipWriter::new(std::io::Cursor::new(Vec::new()));
    let options = zip::write::SimpleFileOptions::default()
        .compression_method(zip::CompressionMethod::Stored);
    writer.start_file("a.txt", options).unwrap();
    writer.write_all(b"hello").unwrap();
    writer.start_file("b.txt", options).unwrap();
    writer.write_all(b"world").unwrap();
    writer.start_file("c.txt", options).unwrap();
    writer.write_all(b"again").unwrap();
    let mut bytes = writer.finish().unwrap().into_inner();
    let at = bytes.windows(5).position(|w| w == b"world").unwrap();
    bytes[at + 4] = b'e';

    let plan = plan_archive_extraction(&bytes);
    assert!(!plan.complete);
    assert_eq!(
        plan.steps,
        vec![
            ArchiveEntryAction::WriteFile("a.txt".to_string(), b"hello".to_vec()),
            ArchiveEntryAction::WriteFile("b.txt".to_string(), b"worle".to_vec()),
        ]
    );
}

#[test]
fn whitespace_set_matches_std() {
    for c in ['\t', '\n', '\u{0B}', '\u{0C}', '\r', ' ', '\u{85}', '\u{A0}', '\u{1680}', '\u{2000}', '\u{200A}', '\u{2028}', '\u{2029}', '\u{202F}', '\u{205F}', '\u{3000}'] {
        assert_eq!(trim_text(&format!("{c}x{c}")), "x");
    }
    for c in ['\u{200B}', '\u{180E}', '\u{FEFF}', 'a'] {
        assert_eq!(trim_text(&format!("{c}")).chars().count(), 1);
    }
}

#[test]
fn trimming_twice_changes_nothing_more() {
    for s in ["", " a ", "\n\tText with  inner  spaces \r\n", "\u{2003}"] {
        let once = trim_text(s);
        assert_eq!(trim_text(&once), once);
        assert_eq!(recognized_text(&once), once);
    }
}
