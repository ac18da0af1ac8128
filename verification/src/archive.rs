//! Taking one named executable out of a downloaded archive.
//!
//! Three containers are read: a gzip stream that holds a tar archive, a zip
//! archive, and a bare gzip stream whose payload is the executable itself.
//! Decompression and the container formats are the work of `flate2`, `tar`
//! and `zip`; which entry is taken, and what each failure means, is decided
//! here.

use std::io::Read;
use vstd::prelude::*;
use vstd::utf8::encode_utf8;
use crate::platform::PlatformCaps;
use crate::text::{bytes_end_with, bytes_segment_start, last_segment, lemma_segment_start};

verus! {

/// The container a release asset comes in.
#[derive(Clone, Copy, Debug, PartialEq, Eq, Structural)]
pub enum ArchiveKind {
    /// A tar archive inside a gzip stream.
    TarGz,
    /// A zip archive.
    Zip,
    /// A gzip stream whose payload is the file itself.
    Gz,
}

/// Why no executable came out of an archive.
#[derive(Clone, Copy, Debug, PartialEq, Eq, Structural)]
pub enum ExtractionError {
    /// The archive, or the part of it that had to be read, is damaged.
    Unreadable,
    /// Every entry was read and none carries the expected file name.
    NotFound,
}

/// Permission bits `rwxr-xr-x` of an installed executable.
pub const EXECUTABLE_MODE: u32 = 0o755;

/// The path separator inside archives, `/`.
pub const ENTRY_SEPARATOR: u8 = 47;

/// The last component of an entry path: what follows its last `/`.
pub open spec fn base_name(path: Seq<u8>) -> Seq<u8> {
    last_segment(path, ENTRY_SEPARATOR)
}

/// Whether an entry at `path` is the file called `name`.
///
/// In a tar archive an entry matches by its base name or by the end of its
/// full path; in a zip archive by the end of its name. A bare gzip stream has
/// no entries.
pub open spec fn entry_matches(kind: ArchiveKind, path: Seq<u8>, name: Seq<u8>) -> bool {
    match kind {
        ArchiveKind::TarGz => base_name(path) == name || name.is_suffix_of(path),
        ArchiveKind::Zip => name.is_suffix_of(path),
        ArchiveKind::Gz => false,
    }
}

/// An entry whose base name is `name` also ends with `name`: in a tar
/// archive, matching is matching by the end of the path.
pub proof fn lemma_base_name_is_suffix(path: Seq<u8>, name: Seq<u8>)
    requires
        base_name(path) == name,
    ensures
        name.is_suffix_of(path),
{
    lemma_segment_start(path, ENTRY_SEPARATOR);
}

/// Whether the entry at `path` is the file called `name`.
pub fn path_matches(kind: ArchiveKind, path: &[u8], name: &[u8]) -> (hit: bool)
    ensures
        hit == entry_matches(kind, path@, name@),
{
    match kind {
        ArchiveKind::TarGz => {
            let start = bytes_segment_start(path, ENTRY_SEPARATOR);
            proof {
                lemma_segment_start(path@, ENTRY_SEPARATOR);
                if base_name(path@) == name@ {
                    lemma_base_name_is_suffix(path@, name@);
                }
            }
            let by_base_name = path.len() - start == name.len() && bytes_end_with(path, name);
            by_base_name || bytes_end_with(path, name)
        },
        ArchiveKind::Zip => bytes_end_with(path, name),
        ArchiveKind::Gz => false,
    }
}

/// The outcome of looking through entry paths, in order, from position
/// `from`: the position of the first entry that matches, `Unreadable` where
/// an entry that could not be read comes before any match, `NotFound` where
/// the paths end without either.
pub open spec fn locate_from(
    kind: ArchiveKind,
    paths: Seq<Option<Seq<u8>>>,
    name: Seq<u8>,
    from: int,
) -> Result<int, ExtractionError>
    decreases paths.len() - from,
{
    if from < 0 || from >= paths.len() {
        Err(ExtractionError::NotFound)
    } else {
        match paths[from] {
            None => Err(ExtractionError::Unreadable),
            Some(path) => if entry_matches(kind, path, name) {
                Ok(from)
            } else {
                locate_from(kind, paths, name, from + 1)
            },
        }
    }
}

/// The outcome of looking through all entry paths of an archive.
pub open spec fn locate(kind: ArchiveKind, paths: Seq<Option<Seq<u8>>>, name: Seq<u8>) -> Result<
    int,
    ExtractionError,
> {
    locate_from(kind, paths, name, 0)
}

/// Entry `i` was read and is not the file called `name`.
pub open spec fn passed_over(
    kind: ArchiveKind,
    paths: Seq<Option<Seq<u8>>>,
    name: Seq<u8>,
    i: int,
) -> bool {
    paths[i] matches Some(path) && !entry_matches(kind, path, name)
}

/// The first matching entry wins: the search answers with a position exactly
/// when that entry matches and every entry before it was read and passed
/// over; it fails as unreadable exactly when an unreadable entry comes before
/// any match; it fails as not found exactly when all entries were read and
/// none matches.
pub proof fn lemma_locate(kind: ArchiveKind, paths: Seq<Option<Seq<u8>>>, name: Seq<u8>)
    ensures
        match locate(kind, paths, name) {
            Ok(i) => {
                &&& 0 <= i < paths.len()
                &&& paths[i] matches Some(path) && entry_matches(kind, path, name)
                &&& forall|j: int| 0 <= j < i ==> passed_over(kind, paths, name, j)
            },
            Err(ExtractionError::Unreadable) => exists|i: int|
                {
                    &&& 0 <= i < paths.len()
                    &&& #[trigger] paths[i] is None
                    &&& forall|j: int| 0 <= j < i ==> passed_over(kind, paths, name, j)
                },
            Err(ExtractionError::NotFound) => forall|j: int|
                0 <= j < paths.len() ==> passed_over(kind, paths, name, j),
        },
{
    lemma_locate_from(kind, paths, name, 0);
}

proof fn lemma_locate_from(
    kind: ArchiveKind,
    paths: Seq<Option<Seq<u8>>>,
    name: Seq<u8>,
    from: int,
)
    requires
        0 <= from <= paths.len(),
        forall|j: int| 0 <= j < from ==> passed_over(kind, paths, name, j),
    ensures
        match locate_from(kind, paths, name, from) {
            Ok(i) => {
                &&& from <= i < paths.len()
                &&& paths[i] matches Some(path) && entry_matches(kind, path, name)
                &&& forall|j: int| 0 <= j < i ==> passed_over(kind, paths, name, j)
            },
            Err(ExtractionError::Unreadable) => exists|i: int|
                {
                    &&& 0 <= i < paths.len()
                    &&& #[trigger] paths[i] is None
                    &&& forall|j: int| 0 <= j < i ==> passed_over(kind, paths, name, j)
                },
            Err(ExtractionError::NotFound) => forall|j: int|
                0 <= j < paths.len() ==> passed_over(kind, paths, name, j),
        },
    decreases paths.len() - from,
{
    if from < paths.len() {
        match paths[from] {
            None => {},
            Some(path) => {
                if !entry_matches(kind, path, name) {
                    lemma_locate_from(kind, paths, name, from + 1);
                }
            },
        }
    }
}

/// Looks through the entry paths of an archive, in order, for the file called
/// `name`. An entry that could not be read stands as `None`.
pub fn locate_entry(kind: ArchiveKind, paths: &Vec<Option<Vec<u8>>>, name: &[u8]) -> (found: Result<
    usize,
    ExtractionError,
>)
    ensures
        match found {
            Ok(i) => locate(kind, paths.deep_view(), name@) == Ok::<int, ExtractionError>(i as int),
            Err(e) => locate(kind, paths.deep_view(), name@) == Err::<int, ExtractionError>(e),
        },
{
    let ghost model = paths.deep_view();
    let mut i: usize = 0;
    while i < paths.len()
        invariant
            i <= paths.len(),
            model == paths.deep_view(),
            locate(kind, model, name@) == locate_from(kind, model, name@, i as int),
        decreases paths.len() - i,
    {
        assert(model[i as int] == paths@[i as int].deep_view());
        match &paths[i] {
            None => {
                return Err(ExtractionError::Unreadable);
            },
            Some(path) => {
                assert(model[i as int] == Some(path@));
                if path_matches(kind, path.as_slice(), name) {
                    return Ok(i);
                }
            },
        }
        i += 1;
    }
    Err(ExtractionError::NotFound)
}

/// The payload of the single gzip member that `data` begins with, where
/// `data` decodes as one.
pub uninterp spec fn gzip_payload(data: Seq<u8>) -> Option<Seq<u8>>;

/// The paths of the entries of the tar archive `data`, in archive order, as
/// far as its headers can be read: `None` stands for a header that cannot.
pub uninterp spec fn tar_entry_paths(data: Seq<u8>) -> Seq<Option<Seq<u8>>>;

/// The content of entry `index` of the tar archive `data`, where the archive
/// can be read up to and through that entry.
pub uninterp spec fn tar_entry_content(data: Seq<u8>, index: int) -> Option<Seq<u8>>;

/// The names of the entries of the zip archive `data`, by index, where its
/// central directory can be read: `None` stands for an entry whose header
/// in the archive cannot be found.
pub uninterp spec fn zip_entry_names(data: Seq<u8>) -> Option<Seq<Option<Seq<u8>>>>;

/// The content of entry `index` of the zip archive `data`, where the archive
/// and that entry can be read without a password.
pub uninterp spec fn zip_entry_content(data: Seq<u8>, index: int) -> Option<Seq<u8>>;

/// `flate2::read::GzDecoder` read to its end: the decompressed payload of
/// the gzip member in `data`, or `None` where the decoder reports an error.
#[verifier::external_body]
fn gunzip(data: &[u8]) -> (payload: Option<Vec<u8>>)
    ensures
        payload.deep_view() == gzip_payload(data@),
{
    let mut decoder = flate2::read::GzDecoder::new(data);
    let mut payload = Vec::new();
    match decoder.read_to_end(&mut payload) {
        Ok(_) => Some(payload),
        Err(_) => None,
    }
}

/// `tar::Archive::entries` walked to its end, with `Entry::path_bytes` of
/// each entry; an item for which the iterator reports an error is `None`.
#[verifier::external_body]
fn tar_paths(data: &[u8]) -> (paths: Vec<Option<Vec<u8>>>)
    ensures
        paths.deep_view() == tar_entry_paths(data@),
{
    let mut archive = tar::Archive::new(data);
    let mut paths = Vec::new();
    if let Ok(entries) = archive.entries() {
        for item in entries {
            paths.push(match item {
                Ok(entry) => Some(entry.path_bytes().into_owned()),
                Err(_) => None,
            });
        }
    }
    paths
}

/// Entry `index` of `tar::Archive::entries`, read to its end; `None` where
/// the iterator ends or reports an error before it, or reading it fails.
#[verifier::external_body]
fn tar_content(data: &[u8], index: usize) -> (content: Option<Vec<u8>>)
    ensures
        content.deep_view() == tar_entry_content(data@, index as int),
{
    let mut archive = tar::Archive::new(data);
    let mut entry = archive.entries().ok()?.nth(index)?.ok()?;
    let mut content = Vec::new();
    match entry.read_to_end(&mut content) {
        Ok(_) => Some(content),
        Err(_) => None,
    }
}

/// `zip::ZipArchive::new` and, for each index below `len`, `by_index_raw`
/// with `ZipFile::name`, which opens an entry without decrypting or
/// decompressing it; `None` where the archive cannot be opened, and in
/// place of the name of an entry that `by_index_raw` refuses.
#[verifier::external_body]
fn zip_names(data: &[u8]) -> (names: Option<Vec<Option<Vec<u8>>>>)
    ensures
        names.deep_view() == zip_entry_names(data@),
{
    let mut archive = zip::ZipArchive::new(std::io::Cursor::new(data)).ok()?;
    let mut names = Vec::new();
    for index in 0..archive.len() {
        names.push(match archive.by_index_raw(index) {
            Ok(file) => Some(file.name().as_bytes().to_vec()),
            Err(_) => None,
        });
    }
    Some(names)
}

/// `zip::ZipArchive::by_index_decrypt` with the empty password, read to its
/// end. It hands back both of its failures, that the entry cannot be
/// opened and that it asks for another password; `None` stands for either,
/// for an archive that cannot be opened, and for a failed read.
#[verifier::external_body]
fn zip_content(data: &[u8], index: usize) -> (content: Option<Vec<u8>>)
    ensures
        content.deep_view() == zip_entry_content(data@, index as int),
{
    let mut archive = zip::ZipArchive::new(std::io::Cursor::new(data)).ok()?;
    let mut file = archive.by_index_decrypt(index, &[]).ok()?.ok()?;
    let mut content = Vec::new();
    match file.read_to_end(&mut content) {
        Ok(_) => Some(content),
        Err(_) => None,
    }
}

/// A single executable taken out of an archive, ready to be written into a
/// fresh temporary directory.
#[derive(Debug)]
pub struct ExtractedBinary {
    /// The file name to write it under.
    pub file_name: String,
    /// Its bytes.
    pub content: Vec<u8>,
    /// The permission bits to set on the written file, where the platform
    /// has them.
    pub mode: Option<u32>,
}

/// The permission bits that an extracted or installed executable gets.
pub open spec fn executable_mode(posix_permissions: bool) -> Option<u32> {
    if posix_permissions {
        Some(EXECUTABLE_MODE)
    } else {
        None
    }
}

/// The content of entry `index` of the archive `data` of kind `kind`, where
/// it can be read. A bare gzip stream has no entries.
pub open spec fn entry_content(kind: ArchiveKind, data: Seq<u8>, index: int) -> Option<Seq<u8>> {
    match kind {
        ArchiveKind::TarGz => tar_entry_content(data, index),
        ArchiveKind::Zip => zip_entry_content(data, index),
        ArchiveKind::Gz => None,
    }
}

/// The bytes of the file called `name` in the archive `data` whose entries
/// have the paths `paths`: the content of the first entry that matches. It
/// fails as the search fails, and as unreadable where the entry found
/// cannot be read.
pub open spec fn taken(
    kind: ArchiveKind,
    data: Seq<u8>,
    paths: Seq<Option<Seq<u8>>>,
    name: Seq<u8>,
) -> Result<Seq<u8>, ExtractionError> {
    match locate(kind, paths, name) {
        Err(e) => Err(e),
        Ok(i) => match entry_content(kind, data, i) {
            Some(bytes) => Ok(bytes),
            None => Err(ExtractionError::Unreadable),
        },
    }
}

/// The bytes of the file called `expected` in the archive `raw` of kind
/// `kind`.
///
/// A tar archive is first taken out of its gzip stream; then, as in a zip
/// archive, the first entry that matches the UTF-8 bytes of `expected` is
/// read. A bare gzip stream gives its whole payload, whatever `expected` is.
pub open spec fn extraction(kind: ArchiveKind, raw: Seq<u8>, expected: Seq<char>) -> Result<
    Seq<u8>,
    ExtractionError,
> {
    let name = encode_utf8(expected);
    match kind {
        ArchiveKind::Gz => match gzip_payload(raw) {
            Some(payload) => Ok(payload),
            None => Err(ExtractionError::Unreadable),
        },
        ArchiveKind::TarGz => match gzip_payload(raw) {
            Some(tar) => taken(kind, tar, tar_entry_paths(tar), name),
            None => Err(ExtractionError::Unreadable),
        },
        ArchiveKind::Zip => match zip_entry_names(raw) {
            Some(names) => taken(kind, raw, names, name),
            None => Err(ExtractionError::Unreadable),
        },
    }
}

/// Whether `bytes` is what `expected` says: the same bytes, or the same
/// failure.
pub open spec fn is_taken(
    bytes: Result<Vec<u8>, ExtractionError>,
    expected: Result<Seq<u8>, ExtractionError>,
) -> bool {
    match bytes {
        Ok(content) => expected == Ok::<Seq<u8>, ExtractionError>(content@),
        Err(e) => expected == Err::<Seq<u8>, ExtractionError>(e),
    }
}

/// Takes the file called `name` out of the archive `data`, whose entries
/// have the paths `paths`: looks for the first entry that matches and reads
/// it.
pub fn take_entry(kind: ArchiveKind, data: &[u8], paths: &Vec<Option<Vec<u8>>>, name: &[u8]) -> (bytes:
    Result<Vec<u8>, ExtractionError>)
    ensures
        is_taken(bytes, taken(kind, data@, paths.deep_view(), name@)),
{
    match locate_entry(kind, paths, name) {
        Err(e) => Err(e),
        Ok(i) => {
            let content = match kind {
                ArchiveKind::TarGz => tar_content(data, i),
                ArchiveKind::Zip => zip_content(data, i),
                ArchiveKind::Gz => None,
            };
            match content {
                Some(bytes) => {
                    assert(entry_content(kind, data@, i as int) == Some(bytes@));
                    Ok(bytes)
                },
                None => Err(ExtractionError::Unreadable),
            }
        },
    }
}

/// Whether `result` is what extracting the file called `expected` from the
/// archive `raw` gives: on success the file's bytes, `expected` as the name
/// to write them under, and mode `0755` where the platform has permission
/// bits; on failure the error of the extraction.
pub open spec fn is_extraction_result(
    result: Result<ExtractedBinary, ExtractionError>,
    kind: ArchiveKind,
    raw: Seq<u8>,
    expected: Seq<char>,
    posix_permissions: bool,
) -> bool {
    match result {
        Ok(binary) => {
            &&& extraction(kind, raw, expected) == Ok::<Seq<u8>, ExtractionError>(binary.content@)
            &&& binary.file_name@ == expected
            &&& binary.mode == executable_mode(posix_permissions)
        },
        Err(e) => extraction(kind, raw, expected) == Err::<Seq<u8>, ExtractionError>(e),
    }
}

/// Takes the file called `expected` out of the archive `raw`.
///
/// On success the result carries the file's bytes, `expected` as the name to
/// write them under, and mode `0755` where the platform has permission bits.
/// It fails with `Unreadable` where the archive cannot be read as far as
/// needed, and with `NotFound` where all of it was read and no entry matches.
pub fn extract(raw: &[u8], kind: ArchiveKind, expected: &str, caps: &PlatformCaps) -> (result: Result<
    ExtractedBinary,
    ExtractionError,
>)
    ensures
        is_extraction_result(result, kind, raw@, expected@, caps.posix_permissions),
{
    let name = expected.as_bytes();
    let bytes = match kind {
        ArchiveKind::Gz => match gunzip(raw) {
            Some(payload) => {
                assert(gzip_payload(raw@) == Some(payload@));
                Ok(payload)
            },
            None => Err(ExtractionError::Unreadable),
        },
        ArchiveKind::TarGz => match gunzip(raw) {
            Some(tar) => {
                assert(gzip_payload(raw@) == Some(tar@));
                take_entry(kind, tar.as_slice(), &tar_paths(tar.as_slice()), name)
            },
            None => Err(ExtractionError::Unreadable),
        },
        ArchiveKind::Zip => match zip_names(raw) {
            Some(names) => take_entry(kind, raw, &names, name),
            None => Err(ExtractionError::Unreadable),
        },
    };
    assert(is_taken(bytes, extraction(kind, raw@, expected@)));
    match bytes {
        Err(e) => Err(e),
        Ok(content) => Ok(
            ExtractedBinary {
                file_name: expected.to_owned(),
                content,
                mode: if caps.posix_permissions {
                    Some(EXECUTABLE_MODE)
                } else {
                    None
                },
            },
        ),
    }
}

} // verus!
