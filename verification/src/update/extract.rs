//! Unpacking a downloaded bundle: which of an archive's entries are staged,
//! and whether the staged files hold everything an installation needs.
//!
//! The archive is read by the `zip` crate from the bundle's bytes. Only
//! entries that are plain files at the top level of the archive are staged,
//! so nothing can be written outside the staging directory.
use vstd::prelude::*;
use crate::text::{first_position, lemma_first_position, str_eq, texts};
use crate::update::asset::{main_executable_name, main_name, preview_executable_name, preview_name};

verus! {

/// `zip::ZipArchive`, an archive opened for reading. Nothing of its inside
/// is known here.
#[verifier::external_type_specification]
#[verifier::external_body]
#[verifier::reject_recursive_types(R)]
pub struct ExZipArchive<R>(zip::ZipArchive<R>);

/// `std::io::Cursor`, through which the archive reader reads bytes held in
/// memory.
#[verifier::external_type_specification]
#[verifier::external_body]
#[verifier::reject_recursive_types(T)]
pub struct ExCursor<T>(std::io::Cursor<T>);

/// `zip::result::ZipError`, the archive reader's error.
#[verifier::external_type_specification]
#[verifier::external_body]
pub struct ExZipError(zip::result::ZipError);

/// What the archive reader tells of one entry.
pub struct EntryModel {
    /// The entry stands for a directory.
    pub is_dir: bool,
    /// The components of the entry's path where the reader finds the path
    /// safe: free of NUL, not absolute and never leaving the directory it
    /// starts in. `None` for every other path.
    pub enclosed: Option<Seq<Seq<char>>>,
    /// The entry's unpacked bytes, or `None` where they cannot be read.
    pub contents: Option<Seq<u8>>,
}

/// The entries of an archive in the order of its directory. An entry that
/// the reader cannot open is `None`.
pub uninterp spec fn archive_entries(archive: zip::ZipArchive<std::io::Cursor<Vec<u8>>>) -> Seq<
    Option<EntryModel>,
>;

/// What the archive reader finds in a bundle's bytes: the entries of the
/// archive it opens, or `None` where it opens none. Paths are read by the
/// rules of the platform the library is built for.
pub uninterp spec fn bundle_entries(bytes: Seq<u8>) -> Option<Seq<Option<EntryModel>>>;

/// Name of the directory, beside the installed executable, that bundles are
/// unpacked into.
pub const STAGING_DIRECTORY: &'static str = ".twitchdesk-update-staging";

/// Permission bits given to every staged file where the platform has them:
/// archives do not reliably keep the executable bit.
pub const STAGED_FILE_MODE: u32 = 0o755;

/// The staging directory's name as a text.
pub open spec fn staging_directory() -> Seq<char> {
    STAGING_DIRECTORY@
}

/// An entry's kind and path, without its bytes.
#[derive(Debug)]
pub struct EntryHeader {
    pub is_dir: bool,
    pub enclosed: Option<Vec<String>>,
}

impl EntryHeader {
    /// The path's components, where the path is safe.
    pub open spec fn enclosed_parts(&self) -> Option<Seq<Seq<char>>> {
        match self.enclosed {
            Some(parts) => Some(texts(parts@)),
            None => None,
        }
    }

    /// The header says what the reader tells of the entry.
    pub open spec fn describes(&self, entry: EntryModel) -> bool {
        self.is_dir == entry.is_dir && self.enclosed_parts() == entry.enclosed
    }
}

/// A file to be written into the staging directory.
#[derive(Debug)]
pub struct StagedFile {
    /// The file's name: a single path component.
    pub name: String,
    pub contents: Vec<u8>,
}

/// The mathematical content of a [`StagedFile`].
pub struct StagedFileModel {
    pub name: Seq<char>,
    pub contents: Seq<u8>,
}

impl View for StagedFile {
    type V = StagedFileModel;

    open spec fn view(&self) -> StagedFileModel {
        StagedFileModel { name: self.name@, contents: self.contents@ }
    }
}

/// The contents of a list of staged files.
pub open spec fn staged_models(files: Seq<StagedFile>) -> Seq<StagedFileModel> {
    Seq::new(files.len(), |i: int| files[i]@)
}

/// The names of a list of staged files.
pub open spec fn staged_names(files: Seq<StagedFileModel>) -> Seq<Seq<char>> {
    Seq::new(files.len(), |i: int| files[i].name)
}

/// What stopped an extraction.
#[derive(Clone, Copy, Debug, PartialEq, Eq, Structural)]
pub enum ExtractFailure {
    /// The bytes are no archive.
    ArchiveUnreadable,
    /// The entry at this position cannot be opened.
    EntryUnreadable(usize),
    /// The bytes of the entry at this position cannot be read.
    ContentsUnreadable(usize),
    /// The bundle lacks the application's main executable.
    MissingMainExecutable,
    /// The bundle lacks the preview renderer's executable.
    MissingPreviewExecutable,
}

/// A failed extraction: what stopped it, and the archive reader's own words
/// where it was the reader that failed.
#[derive(Debug)]
pub struct ExtractError {
    pub failure: ExtractFailure,
    pub detail: String,
}

/// An entry is staged when it is no directory and its path is safe and has
/// exactly one component.
pub open spec fn is_staged(entry: EntryModel) -> bool {
    &&& !entry.is_dir
    &&& entry.enclosed matches Some(parts)
    &&& parts.len() == 1
}

/// The files staged from a list of entries, in the entries' order, each
/// under the single component of its path. The first entry that cannot be
/// opened, or that is to be staged and cannot be read, stops the
/// extraction.
pub open spec fn extraction(entries: Seq<Option<EntryModel>>) -> Result<
    Seq<StagedFileModel>,
    ExtractFailure,
>
    decreases entries.len(),
{
    if entries.len() == 0 {
        Ok(Seq::<StagedFileModel>::empty())
    } else {
        let at = (entries.len() - 1) as usize;
        match extraction(entries.drop_last()) {
            Err(failure) => Err(failure),
            Ok(files) => match entries.last() {
                None => Err(ExtractFailure::EntryUnreadable(at)),
                Some(entry) => if !is_staged(entry) {
                    Ok(files)
                } else {
                    match entry.contents {
                        None => Err(ExtractFailure::ContentsUnreadable(at)),
                        Some(bytes) => Ok(
                            files.push(StagedFileModel { name: entry.enclosed->0[0], contents: bytes }),
                        ),
                    }
                },
            },
        }
    }
}

/// Whether the staged files hold everything an installation on `os` needs;
/// the main executable is looked for first.
pub open spec fn required_members(files: Seq<StagedFileModel>, os: Seq<char>) -> Result<
    (),
    ExtractFailure,
> {
    let names = staged_names(files);
    if first_position(names, main_name(os)) >= names.len() {
        Err(ExtractFailure::MissingMainExecutable)
    } else if first_position(names, preview_name(os)) >= names.len() {
        Err(ExtractFailure::MissingPreviewExecutable)
    } else {
        Ok(())
    }
}

/// What unpacking a list of entries for `os` comes to: the staged files,
/// provided that the extraction is not stopped and that the required
/// members are among them.
pub open spec fn staged_bundle(entries: Seq<Option<EntryModel>>, os: Seq<char>) -> Result<
    Seq<StagedFileModel>,
    ExtractFailure,
> {
    match extraction(entries) {
        Err(failure) => Err(failure),
        Ok(files) => match required_members(files, os) {
            Err(failure) => Err(failure),
            Ok(_) => Ok(files),
        },
    }
}

/// Opens an archive held in memory with `zip::ZipArchive::new` on a
/// `std::io::Cursor`. The outcome is named `bundle_entries`: the entries of
/// the archive that is returned, or `None` where the call fails.
#[verifier::external_body]
fn open_archive(bytes: Vec<u8>) -> (r: Result<
    zip::ZipArchive<std::io::Cursor<Vec<u8>>>,
    zip::result::ZipError,
>)
    ensures
        match r {
            Ok(archive) => bundle_entries(bytes@) == Some(archive_entries(archive)),
            Err(_) => bundle_entries(bytes@) is None,
        },
{
    zip::ZipArchive::new(std::io::Cursor::new(bytes))
}

/// `zip::ZipArchive::len`: the number of entries of the archive.
#[verifier::external_body]
fn entry_count(archive: &zip::ZipArchive<std::io::Cursor<Vec<u8>>>) -> (n: usize)
    ensures
        n == archive_entries(*archive).len(),
{
    archive.len()
}

/// Opens the entry at `index` with `zip::ZipArchive::by_index` and reports
/// `ZipFile::is_dir` and the components of `ZipFile::enclosed_name`. The
/// contract claims that this is what `archive_entries` holds at `index`,
/// that the call fails exactly where the entry cannot be opened, and that
/// the archive holds the same entries afterwards.
#[verifier::external_body]
fn entry_header(archive: &mut zip::ZipArchive<std::io::Cursor<Vec<u8>>>, index: usize) -> (r: Result<
    EntryHeader,
    zip::result::ZipError,
>)
    ensures
        archive_entries(*final(archive)) == archive_entries(*old(archive)),
        match r {
            Ok(header) => {
                &&& index < archive_entries(*old(archive)).len()
                &&& archive_entries(*old(archive))[index as int] matches Some(entry)
                &&& header.describes(entry)
            },
            Err(_) => index >= archive_entries(*old(archive)).len() || archive_entries(
                *old(archive),
            )[index as int] is None,
        },
{
    let file = archive.by_index(index)?;
    Ok(
        EntryHeader {
            is_dir: file.is_dir(),
            enclosed: file.enclosed_name().map(
                |p| p.components().map(|c| c.as_os_str().to_string_lossy().into_owned()).collect(),
            ),
        },
    )
}

/// Opens the entry at `index` with `zip::ZipArchive::by_index` and reads it
/// to its end. The contract claims that the bytes are those that
/// `archive_entries` holds at `index`, that the call fails exactly where
/// the entry cannot be opened or read, and that the archive holds the same
/// entries afterwards.
#[verifier::external_body]
fn entry_contents(archive: &mut zip::ZipArchive<std::io::Cursor<Vec<u8>>>, index: usize) -> (r:
    Result<Vec<u8>, zip::result::ZipError>)
    ensures
        archive_entries(*final(archive)) == archive_entries(*old(archive)),
        match r {
            Ok(bytes) => {
                &&& index < archive_entries(*old(archive)).len()
                &&& archive_entries(*old(archive))[index as int] matches Some(entry)
                &&& entry.contents == Some(bytes@)
            },
            Err(_) => {
                ||| index >= archive_entries(*old(archive)).len()
                ||| archive_entries(*old(archive))[index as int] is None
                ||| archive_entries(*old(archive))[index as int]->0.contents is None
            },
        },
{
    let mut file = archive.by_index(index)?;
    let mut bytes = Vec::new();
    std::io::Read::read_to_end(&mut file, &mut bytes)?;
    Ok(bytes)
}

/// The `Display` text of a `zip::result::ZipError`. Nothing is claimed of it.
#[verifier::external_body]
fn zip_error_text(e: &zip::result::ZipError) -> (r: String) {
    e.to_string()
}

/// Name of the staging directory.
pub fn staging_directory_name() -> (r: String)
    ensures
        r@ == staging_directory(),
{
    STAGING_DIRECTORY.to_owned()
}

/// Given what the reader tells of an entry, the name to stage it under, or
/// `None` where the entry is skipped.
pub fn staged_name(header: &EntryHeader) -> (r: Option<String>)
    ensures
        match r {
            Some(name) => {
                &&& !header.is_dir
                &&& header.enclosed_parts() matches Some(parts)
                &&& parts.len() == 1
                &&& name@ == parts[0]
            },
            None => header.is_dir || header.enclosed_parts() is None
                || header.enclosed_parts()->0.len() != 1,
        },
{
    if header.is_dir {
        return None;
    }
    match &header.enclosed {
        Some(parts) => {
            if parts.len() == 1 {
                Some(parts[0].clone())
            } else {
                None
            }
        },
        None => None,
    }
}

/// Stages the entries of an opened archive.
pub fn stage_entries(archive: &mut zip::ZipArchive<std::io::Cursor<Vec<u8>>>) -> (r: Result<
    Vec<StagedFile>,
    ExtractError,
>)
    ensures
        archive_entries(*final(archive)) == archive_entries(*old(archive)),
        match extraction(archive_entries(*old(archive))) {
            Ok(files) => r matches Ok(staged) && staged_models(staged@) == files,
            Err(failure) => r matches Err(e) && e.failure == failure,
        },
{
    let ghost entries = archive_entries(*archive);
    let n = entry_count(archive);
    let mut staged: Vec<StagedFile> = Vec::new();
    let mut i: usize = 0;
    assert(entries.take(0) =~= Seq::<Option<EntryModel>>::empty());
    assert(staged_models(staged@) =~= Seq::<StagedFileModel>::empty());
    while i < n
        invariant
            i <= n == entries.len(),
            archive_entries(*archive) == entries,
            archive_entries(*old(archive)) == entries,
            extraction(entries.take(i as int)) == Ok::<Seq<StagedFileModel>, ExtractFailure>(
                staged_models(staged@),
            ),
        decreases n - i,
    {
        let ghost upto = entries.take(i + 1);
        proof {
            assert(upto.drop_last() =~= entries.take(i as int));
            assert(upto.last() == entries[i as int]);
            lemma_extraction_stops(entries, i + 1);
        }
        let header = match entry_header(archive, i) {
            Ok(h) => h,
            Err(e) => {
                return Err(
                    ExtractError {
                        failure: ExtractFailure::EntryUnreadable(i),
                        detail: zip_error_text(&e),
                    },
                );
            },
        };
        if let Some(name) = staged_name(&header) {
            let contents = match entry_contents(archive, i) {
                Ok(bytes) => bytes,
                Err(e) => {
                    return Err(
                        ExtractError {
                            failure: ExtractFailure::ContentsUnreadable(i),
                            detail: zip_error_text(&e),
                        },
                    );
                },
            };
            let ghost before = staged_models(staged@);
            staged.push(StagedFile { name, contents });
            assert(staged_models(staged@) =~= before.push(staged@.last()@));
        }
        i = i + 1;
    }
    assert(entries.take(n as int) =~= entries);
    Ok(staged)
}

/// An extraction that is stopped within the first `k` entries is stopped in
/// the same way on the whole list.
pub proof fn lemma_extraction_stops(entries: Seq<Option<EntryModel>>, k: int)
    requires
        0 <= k <= entries.len(),
    ensures
        extraction(entries.take(k)) matches Err(failure) ==> extraction(entries) == Err::<
            Seq<StagedFileModel>,
            ExtractFailure,
        >(failure),
    decreases entries.len() - k,
{
    if k == entries.len() {
        assert(entries.take(k) =~= entries);
    } else {
        lemma_extraction_stops(entries, k + 1);
        assert(entries.take(k + 1).drop_last() =~= entries.take(k));
    }
}

/// Looks for the executables an installation on `os` needs among the staged
/// files.
pub fn check_required_members(files: &Vec<StagedFile>, os: &str) -> (r: Result<(), ExtractFailure>)
    ensures
        r == required_members(staged_models(files@), os@),
{
    let main = main_executable_name(os);
    if !holds_file(files, main.as_str()) {
        return Err(ExtractFailure::MissingMainExecutable);
    }
    let preview = preview_executable_name(os);
    if !holds_file(files, preview.as_str()) {
        return Err(ExtractFailure::MissingPreviewExecutable);
    }
    Ok(())
}

/// Whether a file of this name is among the staged files.
pub fn holds_file(files: &Vec<StagedFile>, name: &str) -> (r: bool)
    ensures
        r == (first_position(staged_names(staged_models(files@)), name@) < files.len()),
{
    let n = files.len();
    let mut k: usize = 0;
    while k < n && !str_eq(files[k].name.as_str(), name)
        invariant
            k <= n == files.len(),
            forall|j: int| 0 <= j < k ==> staged_names(staged_models(files@))[j] != name@,
        decreases n - k,
    {
        k = k + 1;
    }
    proof {
        lemma_first_position(staged_names(staged_models(files@)), name@, k as int);
    }
    k < n
}

/// Unpacks an opened archive for an installation on `os`: the files to be
/// written into the staging directory, or what stopped the extraction.
pub fn stage_bundle(archive: &mut zip::ZipArchive<std::io::Cursor<Vec<u8>>>, os: &str) -> (r:
    Result<Vec<StagedFile>, ExtractError>)
    ensures
        archive_entries(*final(archive)) == archive_entries(*old(archive)),
        match staged_bundle(archive_entries(*old(archive)), os@) {
            Ok(files) => r matches Ok(staged) && staged_models(staged@) == files,
            Err(failure) => r matches Err(e) && e.failure == failure,
        },
{
    let staged = stage_entries(archive)?;
    match check_required_members(&staged, os) {
        Ok(_) => Ok(staged),
        Err(failure) => Err(ExtractError { failure, detail: String::new() }),
    }
}

/// Unpacks the bytes of a downloaded bundle for an installation on `os`.
///
/// Bytes that are no archive give `ArchiveUnreadable`. Of an archive the
/// top-level files are staged, provided that every entry can be opened,
/// every staged entry can be read and both required executables are among
/// the staged files.
pub fn extract_bundle(bytes: Vec<u8>, os: &str) -> (r: Result<Vec<StagedFile>, ExtractError>)
    ensures
        match bundle_entries(bytes@) {
            None => r matches Err(e) && e.failure == ExtractFailure::ArchiveUnreadable,
            Some(entries) => match staged_bundle(entries, os@) {
                Ok(files) => r matches Ok(staged) && staged_models(staged@) == files,
                Err(failure) => r matches Err(e) && e.failure == failure,
            },
        },
{
    match open_archive(bytes) {
        Ok(mut archive) => stage_bundle(&mut archive, os),
        Err(e) => Err(
            ExtractError { failure: ExtractFailure::ArchiveUnreadable, detail: zip_error_text(&e) },
        ),
    }
}

/// The entry at `at` is staged as `file`.
pub open spec fn staged_from(entries: Seq<Option<EntryModel>>, at: int, file: StagedFileModel) -> bool {
    &&& 0 <= at < entries.len()
    &&& entries[at] matches Some(entry)
    &&& is_staged(entry)
    &&& entry.enclosed->0[0] == file.name
    &&& entry.contents == Some(file.contents)
}

/// Some entry is staged as `file`.
pub open spec fn has_origin(entries: Seq<Option<EntryModel>>, file: StagedFileModel) -> bool {
    exists|at: int| staged_from(entries, at, file)
}

/// Nothing is written outside the staging directory: every staged file
/// comes from an entry that is no directory and whose path is safe and has
/// a single component, and it is staged under that component.
pub proof fn staged_files_are_top_level(entries: Seq<Option<EntryModel>>)
    ensures
        extraction(entries) matches Ok(files) ==> forall|j: int|
            0 <= j < files.len() ==> #[trigger] has_origin(entries, files[j]),
    decreases entries.len(),
{
    if entries.len() > 0 {
        let front = entries.drop_last();
        staged_files_are_top_level(front);
        if let Ok(files) = extraction(entries) {
            let before = extraction(front)->Ok_0;
            assert forall|j: int| 0 <= j < files.len() implies #[trigger] has_origin(
                entries,
                files[j],
            ) by {
                if j < before.len() {
                    assert(files[j] == before[j]);
                    assert(has_origin(front, before[j]));
                    let at = choose|at: int| staged_from(front, at, before[j]);
                    assert(front[at] == entries[at]);
                    assert(staged_from(entries, at, files[j]));
                } else {
                    assert(staged_from(entries, entries.len() - 1, files[j]));
                }
            }
        }
    }
}

/// An archive that holds nothing but directories and entries with nested,
/// absolute or escaping paths stages no file, and is therefore turned down
/// for want of the main executable.
pub proof fn skipped_entries_stage_nothing(entries: Seq<Option<EntryModel>>, os: Seq<char>)
    requires
        forall|i: int| 0 <= i < entries.len() ==> entries[i] is Some && !is_staged(entries[i]->0),
    ensures
        extraction(entries) == Ok::<Seq<StagedFileModel>, ExtractFailure>(Seq::empty()),
        staged_bundle(entries, os) == Err::<Seq<StagedFileModel>, ExtractFailure>(
            ExtractFailure::MissingMainExecutable,
        ),
    decreases entries.len(),
{
    if entries.len() > 0 {
        let front = entries.drop_last();
        assert forall|i: int| 0 <= i < front.len() implies front[i] is Some && !is_staged(
            front[i]->0,
        ) by {
            assert(front[i] == entries[i]);
        }
        skipped_entries_stage_nothing(front, os);
    }
    assert(staged_names(Seq::<StagedFileModel>::empty()) =~= Seq::<Seq<char>>::empty());
}

} // verus!
