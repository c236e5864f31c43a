use std::io::Write;
use twitchdesk_desktop::update::extract::{
    check_required_members, extract_bundle, holds_file, stage_entries, staged_name,
    staging_directory_name, EntryHeader, ExtractFailure, StagedFile,
};

enum Entry<'a> {
    File(&'a str, &'a [u8]),
    Dir(&'a str),
}

fn archive(entries: &[Entry]) -> Vec<u8> {
    let mut writer = zip::ZipWriter::new(std::io::Cursor::new(Vec::new()));
    for entry in entries {
        match entry {
            Entry::File(name, bytes) => {
                writer.start_file(*name, zip::write::SimpleFileOptions::default()).unwrap();
                writer.write_all(bytes).unwrap();
            },
            Entry::Dir(name) => {
                writer.add_directory(*name, zip::write::SimpleFileOptions::default()).unwrap();
            },
        }
    }
    writer.finish().unwrap().into_inner()
}

fn names(files: &[StagedFile]) -> Vec<String> {
    files.iter().map(|f| f.name.clone()).collect()
}

#[test]
fn staging_directory_has_its_name() {
    assert_eq!(staging_directory_name(), ".twitchdesk-update-staging");
}

#[test]
fn top_level_files_are_staged_with_their_bytes() {
    let bytes = archive(&[
        Entry::File("twitchdesk-desktop", b"main program"),
        Entry::File("twitchdesk-preview", b"preview"),
        Entry::File("README.txt", b""),
    ]);
    let files = extract_bundle(bytes, "linux").unwrap();
    assert_eq!(names(&files), vec!["twitchdesk-desktop", "twitchdesk-preview", "README.txt"]);
    assert_eq!(files[0].contents, b"main program");
    assert_eq!(files[1].contents, b"preview");
    assert!(files[2].contents.is_empty());
}

#[test]
fn large_compressed_contents_are_unpacked() {
    let big: Vec<u8> = (0..200_000u32).map(|i| (i % 7) as u8).collect();
    let bytes = archive(&[
        Entry::File("twitchdesk-desktop", &big),
        Entry::File("twitchdesk-preview", b"p"),
    ]);
    assert!(bytes.len() < big.len());
    let files = extract_bundle(bytes, "linux").unwrap();
    assert_eq!(files[0].contents, big);
}

#[test]
fn directories_and_nested_entries_are_skipped() {
    let bytes = archive(&[
        Entry::Dir("docs/"),
        Entry::File("docs/manual.txt", b"nested"),
        Entry::File("a/b/c", b"deep"),
        Entry::File("twitchdesk-desktop", b"m"),
        Entry::File("./twitchdesk-preview", b"dotted"),
        Entry::File("twitchdesk-preview", b"p"),
    ]);
    let files = extract_bundle(bytes, "linux").unwrap();
    assert_eq!(names(&files), vec!["twitchdesk-desktop", "twitchdesk-preview"]);
    assert_eq!(files[1].contents, b"p");
}

#[test]
fn escaping_and_absolute_entries_are_skipped() {
    let bytes = archive(&[
        Entry::File("../twitchdesk-desktop", b"escape"),
        Entry::File("/twitchdesk-desktop", b"absolute"),
        Entry::File("x/../../twitchdesk-preview", b"escape"),
        Entry::File("/etc/passwd", b"absolute"),
    ]);
    let mut opened = zip::ZipArchive::new(std::io::Cursor::new(bytes.clone())).unwrap();
    assert_eq!(opened.len(), 4);
    assert!(stage_entries(&mut opened).unwrap().is_empty());
    let e = extract_bundle(bytes, "linux").unwrap_err();
    assert_eq!(e.failure, ExtractFailure::MissingMainExecutable);
}

#[test]
fn bundle_without_main_executable_is_turned_down() {
    let bytes = archive(&[Entry::File("twitchdesk-preview", b"p"), Entry::File("notes", b"n")]);
    let e = extract_bundle(bytes, "linux").unwrap_err();
    assert_eq!(e.failure, ExtractFailure::MissingMainExecutable);
}

#[test]
fn bundle_without_preview_executable_is_turned_down() {
    let bytes = archive(&[Entry::File("twitchdesk-desktop", b"m")]);
    let e = extract_bundle(bytes, "linux").unwrap_err();
    assert_eq!(e.failure, ExtractFailure::MissingPreviewExecutable);
}

#[test]
fn required_names_depend_on_the_platform() {
    let unix = archive(&[
        Entry::File("twitchdesk-desktop", b"m"),
        Entry::File("twitchdesk-preview", b"p"),
    ]);
    assert_eq!(
        extract_bundle(unix.clone(), "windows").unwrap_err().failure,
        ExtractFailure::MissingMainExecutable
    );
    assert!(extract_bundle(unix, "macos").is_ok());
    let windows = archive(&[
        Entry::File("twitchdesk-desktop.exe", b"m"),
        Entry::File("twitchdesk-preview.exe", b"p"),
    ]);
    assert!(extract_bundle(windows, "windows").is_ok());
}

#[test]
fn empty_archive_stages_nothing() {
    let bytes = archive(&[]);
    let mut opened = zip::ZipArchive::new(std::io::Cursor::new(bytes.clone())).unwrap();
    assert!(stage_entries(&mut opened).unwrap().is_empty());
    assert_eq!(extract_bundle(bytes, "linux").unwrap_err().failure, ExtractFailure::MissingMainExecutable);
}

#[test]
fn bytes_that_are_no_archive_are_turned_down() {
    let e = extract_bundle(b"this is not a zip file".to_vec(), "linux").unwrap_err();
    assert_eq!(e.failure, ExtractFailure::ArchiveUnreadable);
    assert!(!e.detail.is_empty());
    let e = extract_bundle(Vec::new(), "linux").unwrap_err();
    assert_eq!(e.failure, ExtractFailure::ArchiveUnreadable);
}

#[test]
fn damaged_contents_stop_the_extraction() {
    let payload = b"0123456789abcdef0123456789abcdef";
    let mut writer = zip::ZipWriter::new(std::io::Cursor::new(Vec::new()));
    let stored = zip::write::SimpleFileOptions::default()
        .compression_method(zip::CompressionMethod::Stored);
    writer.start_file("twitchdesk-desktop", stored).unwrap();
    writer.write_all(payload).unwrap();
    writer.start_file("twitchdesk-preview", stored).unwrap();
    writer.write_all(b"p").unwrap();
    let mut bytes = writer.finish().unwrap().into_inner();
    let at = bytes.windows(payload.len()).position(|w| w == payload).unwrap();
    bytes[at] ^= 0xFF;
    let e = extract_bundle(bytes, "linux").unwrap_err();
    assert_eq!(e.failure, ExtractFailure::ContentsUnreadable(0));
}

#[test]
fn staged_name_is_the_single_component() {
    let file = EntryHeader { is_dir: false, enclosed: Some(vec!["a".to_string()]) };
    assert_eq!(staged_name(&file), Some("a".to_string()));
    let dir = EntryHeader { is_dir: true, enclosed: Some(vec!["a".to_string()]) };
    assert_eq!(staged_name(&dir), None);
    let nested = EntryHeader { is_dir: false, enclosed: Some(vec!["a".to_string(), "b".to_string()]) };
    assert_eq!(staged_name(&nested), None);
    let none = EntryHeader { is_dir: false, enclosed: Some(Vec::new()) };
    assert_eq!(staged_name(&none), None);
    let unsafe_path = EntryHeader { is_dir: false, enclosed: None };
    assert_eq!(staged_name(&unsafe_path), None);
}

#[test]
fn required_members_are_looked_for_by_name() {
    let file = |name: &str| StagedFile { name: name.to_string(), contents: Vec::new() };
    let both = vec![file("x"), file("twitchdesk-preview"), file("twitchdesk-desktop")];
    assert_eq!(check_required_members(&both, "linux"), Ok(()));
    assert!(holds_file(&both, "x"));
    assert!(!holds_file(&both, "y"));
    let neither = vec![file("x")];
    assert_eq!(
        check_required_members(&neither, "linux"),
        Err(ExtractFailure::MissingMainExecutable)
    );
    let main_only = vec![file("twitchdesk-desktop")];
    assert_eq!(
        check_required_members(&main_only, "linux"),
        Err(ExtractFailure::MissingPreviewExecutable)
    );
}

#[test]
fn an_entry_that_cannot_be_opened_stops_the_extraction() {
    let stored = zip::write::SimpleFileOptions::default()
        .compression_method(zip::CompressionMethod::Stored);
    let mut writer = zip::ZipWriter::new(std::io::Cursor::new(Vec::new()));
    writer.start_file("twitchdesk-desktop", stored).unwrap();
    writer.write_all(b"m").unwrap();
    writer.start_file("twitchdesk-preview", stored).unwrap();
    writer.write_all(b"p").unwrap();
    let mut bytes = writer.finish().unwrap().into_inner();
    // The directory record of the second entry gets a packing method that
    // the reader does not know.
    let records: Vec<usize> = bytes
        .windows(4)
        .enumerate()
        .filter(|(_, w)| *w == [b'P', b'K', 1, 2])
        .map(|(i, _)| i)
        .collect();
    assert_eq!(records.len(), 2);
    bytes[records[1] + 10] = 0x55;
    bytes[records[1] + 11] = 0x55;
    let e = extract_bundle(bytes, "linux").unwrap_err();
    assert_eq!(e.failure, ExtractFailure::EntryUnreadable(1));
    assert!(!e.detail.is_empty());
}
