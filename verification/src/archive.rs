//! The archive normalizer: what kind of backup a path names, where its
//! tables will be found, and what a zip archive unpacks to.

use std::io::Cursor;
use std::io::Read;
use vstd::prelude::*;
use zip::result::ZipError;
use zip::ZipArchive;
use crate::error::{ErrorView, RestoreError};
use crate::paths::{extension, extension_of, strip_extension, without_extension};
use crate::text::{ends_with, has_suffix, same_text};

verus! {

/// The two kinds of backup that a restore accepts.
#[derive(Debug, Clone, Copy, PartialEq, Eq, Structural)]
pub enum BackupKind {
    /// A directory of table dumps.
    Directory,
    /// A zip archive that unpacks to such a directory.
    ZipArchive,
}

/// What stands at a path.
#[derive(Debug, Clone, Copy, PartialEq, Eq, Structural)]
pub enum PathKind {
    /// A directory.
    Directory,
    /// Something that is no directory.
    File,
    /// Nothing.
    Missing,
}

/// A backup as the operator named it, with the kind it was found to be.
#[derive(Debug, Clone, PartialEq, Eq)]
pub struct BackupSource {
    pub path: String,
    pub kind: BackupKind,
}

/// The kind of the backup at `path`, if it is of a kind that is accepted: a
/// directory, or a file whose extension is `zip`. A path at which nothing
/// stands is of no kind.
pub open spec fn kind_of(path: Seq<char>, found: PathKind) -> Option<BackupKind> {
    match found {
        PathKind::Directory => Some(BackupKind::Directory),
        PathKind::File => if extension_of(path) == Some("zip"@) {
            Some(BackupKind::ZipArchive)
        } else {
            None
        },
        PathKind::Missing => None,
    }
}

/// The extension that a refusal names: that of `path`, or `<unknown>` where
/// it has none.
pub open spec fn offending_extension(path: Seq<char>) -> Seq<char> {
    match extension_of(path) {
        Some(ext) => ext,
        None => "<unknown>"@,
    }
}

/// The directory that holds the table dumps of a backup: the backup itself,
/// or for an archive the path without its extension.
pub open spec fn normalized_dir_of(path: Seq<char>, kind: BackupKind) -> Seq<char> {
    match kind {
        BackupKind::Directory => path,
        BackupKind::ZipArchive => without_extension(path),
    }
}

/// Whether the bytes are a zip archive whose every entry can be read.
pub open spec fn readable_archive(data: Seq<u8>) -> bool {
    zip_listing(data) matches Some(listing) && all_readable(listing)
}

impl BackupSource {
    /// An archive is named by a path with the extension of archives.
    pub open spec fn wf(self) -> bool {
        self.kind == BackupKind::ZipArchive ==> extension_of(self.path@) == Some("zip"@)
    }

    /// The directory that holds the table dumps.
    pub open spec fn normalized(self) -> Seq<char> {
        normalized_dir_of(self.path@, self.kind)
    }

    /// The directory that holds the table dumps, once an archive is unpacked.
    pub fn normalized_dir(&self) -> (dir: String)
        ensures
            dir@ == self.normalized(),
    {
        match self.kind {
            BackupKind::Directory => self.path.clone(),
            BackupKind::ZipArchive => String::from_str(strip_extension(self.path.as_str())),
        }
    }
}

/// Finds the kind of the backup at `path`, where `found` says what stands
/// there. Anything but a directory or a zip file is refused, and so is a
/// path at which nothing stands; the refusal names the extension of the
/// path.
pub fn classify_backup(path: &str, found: PathKind) -> (r: Result<BackupSource, RestoreError>)
    ensures
        match r {
            Ok(source) => kind_of(path@, found) == Some(source.kind) && source.path@ == path@
                && source.wf(),
            Err(e) => kind_of(path@, found) is None && e@ == (ErrorView::UnsupportedFormat {
                extension: offending_extension(path@),
            }),
        },
{
    if found == PathKind::Directory {
        return Ok(BackupSource { path: String::from_str(path), kind: BackupKind::Directory });
    }
    match extension(path) {
        Some(ext) => {
            if found == PathKind::File && same_text(ext, "zip") {
                Ok(BackupSource { path: String::from_str(path), kind: BackupKind::ZipArchive })
            } else {
                Err(RestoreError::UnsupportedFormat { extension: String::from_str(ext) })
            }
        },
        None => Err(RestoreError::UnsupportedFormat { extension: String::from_str("<unknown>") }),
    }
}

/// One entry of an archive: its name inside the archive and its bytes.
#[derive(Debug, Clone, PartialEq, Eq)]
pub struct ArchiveEntry {
    pub name: String,
    pub data: Vec<u8>,
}

/// An `ArchiveEntry` as plain values.
pub struct EntryView {
    pub name: Seq<char>,
    pub data: Seq<u8>,
}

impl View for ArchiveEntry {
    type V = EntryView;

    open spec fn view(&self) -> EntryView {
        EntryView { name: self.name@, data: self.data@ }
    }
}

/// What unpacking one entry puts on disk, below the directory that the
/// archive is unpacked into.
#[derive(Debug, Clone, PartialEq, Eq)]
pub enum Extracted {
    /// A directory, made with the directories above it.
    Directory { name: String },
    /// A file with these bytes, made with the directories above it.
    File { name: String, data: Vec<u8> },
}

/// An `Extracted` as plain values.
pub enum ExtractedView {
    Directory { name: Seq<char> },
    File { name: Seq<char>, data: Seq<u8> },
}

impl View for Extracted {
    type V = ExtractedView;

    open spec fn view(&self) -> ExtractedView {
        match self {
            Extracted::Directory { name } => ExtractedView::Directory { name: name@ },
            Extracted::File { name, data } => ExtractedView::File { name: name@, data: data@ },
        }
    }
}

impl DeepView for Extracted {
    type V = ExtractedView;

    open spec fn deep_view(&self) -> ExtractedView {
        self@
    }
}

/// What an entry unpacks to: a directory where its name ends with `/`, else
/// a file of that name with the entry's bytes.
pub open spec fn unpacked_entry(entry: EntryView) -> ExtractedView {
    if has_suffix(entry.name, "/"@) {
        ExtractedView::Directory { name: entry.name }
    } else {
        ExtractedView::File { name: entry.name, data: entry.data }
    }
}

/// Whether every entry of the listing could be read.
pub open spec fn all_readable(listing: Seq<Option<EntryView>>) -> bool {
    forall|i: int| 0 <= i < listing.len() ==> (#[trigger] listing[i]) is Some
}

/// What the entries of a listing unpack to, in the order of the archive.
pub open spec fn unpacked(listing: Seq<Option<EntryView>>) -> Seq<ExtractedView> {
    Seq::new(listing.len(), |i: int| unpacked_entry(listing[i]->0))
}

/// Decides what one entry of an archive unpacks to.
pub fn unpack_entry(entry: ArchiveEntry) -> (item: Extracted)
    ensures
        item@ == unpacked_entry(entry@),
{
    if ends_with(entry.name.as_str(), "/") {
        Extracted::Directory { name: entry.name }
    } else {
        Extracted::File { name: entry.name, data: entry.data }
    }
}

/// `zip::ZipArchive`: an archive that was opened. What it holds is known
/// through `archive_entries` alone.
#[verifier::external_type_specification]
#[verifier::external_body]
#[verifier::reject_recursive_types(R)]
pub struct ExZipArchive<R>(ZipArchive<R>);

/// `zip::result::ZipError`: why an archive or an entry could not be read.
#[verifier::external_type_specification]
#[verifier::external_body]
pub struct ExZipError(ZipError);

/// `std::io::Cursor`: the bytes in memory that an archive is read from.
#[verifier::external_type_specification]
#[verifier::external_body]
#[verifier::reject_recursive_types(T)]
pub struct ExCursor<T>(Cursor<T>);

/// The entries of the zip archive that these bytes are, in the order in
/// which the archive lists them: for each the name and the bytes it
/// decompresses to, or `None` for an entry that cannot be read. `None`
/// where the bytes are no zip archive.
pub uninterp spec fn zip_listing(data: Seq<u8>) -> Option<Seq<Option<EntryView>>>;

/// The entries of an archive that was opened.
pub uninterp spec fn archive_entries(archive: ZipArchive<Cursor<Vec<u8>>>) -> Seq<
    Option<EntryView>,
>;

/// `zip::ZipArchive::new`, on bytes held in memory. The archive opens exactly
/// where the bytes have a listing, and then holds the entries of that listing.
#[verifier::external_body]
fn open_archive(data: Vec<u8>) -> (r: Result<ZipArchive<Cursor<Vec<u8>>>, ZipError>)
    ensures
        match r {
            Ok(archive) => zip_listing(data@) == Some(archive_entries(archive)),
            Err(_) => zip_listing(data@) is None,
        },
{
    ZipArchive::new(Cursor::new(data))
}

/// `zip::ZipArchive::len`: the number of entries.
#[verifier::external_body]
fn archive_len(archive: &ZipArchive<Cursor<Vec<u8>>>) -> (n: usize)
    ensures
        n == archive_entries(*archive).len(),
{
    archive.len()
}

/// `zip::ZipArchive::by_index`, then `name` and `read_to_end` on the entry
/// that it hands out. The archive holds the same entries afterwards; the
/// result is the entry at `index` where that entry can be read, and an error
/// where it cannot or where there is no such entry.
#[verifier::external_body]
fn read_entry(archive: &mut ZipArchive<Cursor<Vec<u8>>>, index: usize) -> (r: Result<
    ArchiveEntry,
    ZipError,
>)
    ensures
        archive_entries(*final(archive)) == archive_entries(*old(archive)),
        match r {
            Ok(entry) => index < archive_entries(*old(archive)).len() && archive_entries(
                *old(archive),
            )[index as int] == Some(entry@),
            Err(_) => index >= archive_entries(*old(archive)).len() || archive_entries(
                *old(archive),
            )[index as int] is None,
        },
{
    let mut file = archive.by_index(index)?;
    let name = file.name()?.into_owned();
    let mut data = Vec::new();
    file.read_to_end(&mut data)?;
    Ok(ArchiveEntry { name, data })
}

/// The text of a `zip::result::ZipError`, as its `Display` gives it.
#[verifier::external_body]
fn zip_error_text(error: &ZipError) -> (text: String) {
    error.to_string()
}

/// Unpacks a zip archive held in memory: one item per entry, in the order of
/// the archive. An archive that cannot be opened, or any entry that cannot
/// be read, fails the whole extraction.
pub fn extract_zip(data: Vec<u8>) -> (r: Result<Vec<Extracted>, RestoreError>)
    ensures
        match r {
            Ok(items) => readable_archive(data@) && items.deep_view() == unpacked(
                zip_listing(data@)->0,
            ),
            Err(e) => !readable_archive(data@) && e@ == ErrorView::CorruptArchive,
        },
{
    let ghost bytes = data@;
    let mut archive = match open_archive(data) {
        Ok(archive) => archive,
        Err(e) => {
            return Err(RestoreError::CorruptArchive { detail: zip_error_text(&e) });
        },
    };
    let ghost listing = archive_entries(archive);
    let n: usize = archive_len(&archive);
    let mut items: Vec<Extracted> = Vec::new();
    let mut i: usize = 0;
    while i < n
        invariant
            bytes == data@,
            zip_listing(bytes) == Some(listing),
            archive_entries(archive) == listing,
            n == listing.len(),
            i <= n,
            items.len() == i,
            forall|j: int| 0 <= j < i ==> (#[trigger] listing[j]) is Some,
            forall|j: int|
                0 <= j < i ==> (#[trigger] items[j])@ == unpacked_entry(listing[j]->0),
        decreases n - i,
    {
        match read_entry(&mut archive, i) {
            Ok(entry) => {
                items.push(unpack_entry(entry));
            },
            Err(e) => {
                assert(listing[i as int] is None);
                return Err(RestoreError::CorruptArchive { detail: zip_error_text(&e) });
            },
        }
        i = i + 1;
    }
    assert(items.deep_view() =~= unpacked(listing));
    Ok(items)
}

} // verus!
