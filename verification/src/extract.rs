//! The table extractor: which files of a backup directory are table dumps,
//! which of them a run leaves out, and what the others decompress to.

use flate2::read::GzDecoder;
use std::io::Read;
use vstd::prelude::*;
use crate::error::{ErrorView, RestoreError};
use crate::paths::{file_name, file_name_of};
use crate::text::{ends_with, has_suffix, same_text};

verus! {

/// Whether `path` names a table dump: its final component ends with
/// `.sql.gz`.
pub open spec fn is_table_dump(path: Seq<char>) -> bool {
    has_suffix(file_name_of(path), ".sql.gz"@)
}

/// The table that the dump at `path` holds: the final component without
/// `.sql.gz`. Empty where `path` names no table dump.
pub open spec fn table_of(path: Seq<char>) -> Seq<char> {
    let name = file_name_of(path);
    if has_suffix(name, ".sql.gz"@) {
        name.take(name.len() - ".sql.gz"@.len())
    } else {
        Seq::empty()
    }
}

/// Where the decompressed dump is written: `path` without its `.gz`.
pub open spec fn output_of(path: Seq<char>) -> Seq<char> {
    if has_suffix(path, ".gz"@) {
        path.take(path.len() - ".gz"@.len())
    } else {
        path
    }
}

/// A file of the backup directory: its path and its bytes.
#[derive(Debug, Clone, PartialEq, Eq)]
pub struct BackupEntry {
    pub path: String,
    pub data: Vec<u8>,
}

/// A `BackupEntry` as plain values.
pub struct BackupEntryView {
    pub path: Seq<char>,
    pub data: Seq<u8>,
}

impl View for BackupEntry {
    type V = BackupEntryView;

    open spec fn view(&self) -> BackupEntryView {
        BackupEntryView { path: self.path@, data: self.data@ }
    }
}

impl DeepView for BackupEntry {
    type V = BackupEntryView;

    open spec fn deep_view(&self) -> BackupEntryView {
        self@
    }
}

/// A decompressed table dump: the table, the path of the file to write, and
/// the statements to write there.
#[derive(Debug, Clone, PartialEq, Eq)]
pub struct TableDumpFile {
    pub table: String,
    pub path: String,
    pub sql: String,
}

/// A `TableDumpFile` as plain values.
pub struct TableDumpFileView {
    pub table: Seq<char>,
    pub path: Seq<char>,
    pub sql: Seq<char>,
}

impl View for TableDumpFile {
    type V = TableDumpFileView;

    open spec fn view(&self) -> TableDumpFileView {
        TableDumpFileView { table: self.table@, path: self.path@, sql: self.sql@ }
    }
}

impl DeepView for TableDumpFile {
    type V = TableDumpFileView;

    open spec fn deep_view(&self) -> TableDumpFileView {
        self@
    }
}

/// The outcome of an extraction: the dump files in the order of the
/// directory, and how many table dumps were left out.
#[derive(Debug, Clone, PartialEq, Eq)]
pub struct Extraction {
    pub files: Vec<TableDumpFile>,
    pub skipped: usize,
}

/// The test for a table dump.
pub open spec fn dump_test() -> spec_fn(BackupEntryView) -> bool {
    |e: BackupEntryView| is_table_dump(e.path)
}

/// The test for a table dump whose table is excluded.
pub open spec fn skip_test(exclude: Seq<Seq<char>>) -> spec_fn(BackupEntryView) -> bool {
    |e: BackupEntryView| is_table_dump(e.path) && exclude.contains(table_of(e.path))
}

/// The test for a table dump whose table is not excluded.
pub open spec fn keep_test(exclude: Seq<Seq<char>>) -> spec_fn(BackupEntryView) -> bool {
    |e: BackupEntryView| is_table_dump(e.path) && !exclude.contains(table_of(e.path))
}

/// The table dumps among `entries`.
pub open spec fn dumps(entries: Seq<BackupEntryView>) -> Seq<BackupEntryView> {
    entries.filter(dump_test())
}

/// The table dumps among `entries` that the exclusion set leaves out.
pub open spec fn skipped_dumps(entries: Seq<BackupEntryView>, exclude: Seq<Seq<char>>) -> Seq<
    BackupEntryView,
> {
    entries.filter(skip_test(exclude))
}

/// The table dumps among `entries` that are restored, in their order.
pub open spec fn kept_dumps(entries: Seq<BackupEntryView>, exclude: Seq<Seq<char>>) -> Seq<
    BackupEntryView,
> {
    entries.filter(keep_test(exclude))
}

/// The text that a gzip stream decompresses to: its first member, as UTF-8.
/// `None` where the bytes are no gzip stream, are damaged, or do not
/// decompress to UTF-8.
pub uninterp spec fn gunzip_text(data: Seq<u8>) -> Option<Seq<char>>;

/// The dump file that an entry becomes once its bytes are decompressed to
/// `sql`.
pub open spec fn dump_file_of(path: Seq<char>, sql: Seq<char>) -> TableDumpFileView {
    TableDumpFileView { table: table_of(path), path: output_of(path), sql }
}

/// The dump file of an entry that decompresses.
pub open spec fn decoded(entry: BackupEntryView) -> TableDumpFileView {
    dump_file_of(entry.path, gunzip_text(entry.data)->0)
}

/// The dump files of entries that decompress, in their order.
pub open spec fn dump_files_of(entries: Seq<BackupEntryView>) -> Seq<TableDumpFileView> {
    entries.map_values(|e: BackupEntryView| decoded(e))
}

/// Whether each of `entries` decompresses.
pub open spec fn all_decompress(entries: Seq<BackupEntryView>) -> bool {
    forall|i: int| 0 <= i < entries.len() ==> gunzip_text((#[trigger] entries[i]).data) is Some
}

/// Whether `k` is the first of `entries` that does not decompress.
pub open spec fn first_damaged(entries: Seq<BackupEntryView>, k: int) -> bool {
    &&& 0 <= k < entries.len()
    &&& gunzip_text(entries[k].data) is None
    &&& forall|j: int| 0 <= j < k ==> gunzip_text((#[trigger] entries[j]).data) is Some
}

/// Adding an entry adds it to the table dumps exactly where it is one.
pub proof fn lemma_dumps_push(entries: Seq<BackupEntryView>, e: BackupEntryView)
    ensures
        dumps(entries.push(e)) == if is_table_dump(e.path) {
            dumps(entries).push(e)
        } else {
            dumps(entries)
        },
{
    reveal(Seq::filter);
    assert(entries.push(e).drop_last() =~= entries);
}

/// Adding an entry adds it to the skipped dumps exactly where it is a dump
/// of an excluded table.
pub proof fn lemma_skipped_push(
    entries: Seq<BackupEntryView>,
    e: BackupEntryView,
    exclude: Seq<Seq<char>>,
)
    ensures
        skipped_dumps(entries.push(e), exclude) == if is_table_dump(e.path) && exclude.contains(
            table_of(e.path),
        ) {
            skipped_dumps(entries, exclude).push(e)
        } else {
            skipped_dumps(entries, exclude)
        },
{
    reveal(Seq::filter);
    assert(entries.push(e).drop_last() =~= entries);
}

/// Adding an entry adds it to the kept dumps exactly where it is a dump of a
/// table that is not excluded.
pub proof fn lemma_kept_push(
    entries: Seq<BackupEntryView>,
    e: BackupEntryView,
    exclude: Seq<Seq<char>>,
)
    ensures
        kept_dumps(entries.push(e), exclude) == if is_table_dump(e.path) && !exclude.contains(
            table_of(e.path),
        ) {
            kept_dumps(entries, exclude).push(e)
        } else {
            kept_dumps(entries, exclude)
        },
{
    reveal(Seq::filter);
    assert(entries.push(e).drop_last() =~= entries);
}

/// Every table dump is either kept or skipped: the two counts add up to the
/// number of table dumps.
pub proof fn lemma_dumps_partition(entries: Seq<BackupEntryView>, exclude: Seq<Seq<char>>)
    ensures
        kept_dumps(entries, exclude).len() + skipped_dumps(entries, exclude).len() == dumps(
            entries,
        ).len(),
    decreases entries.len(),
{
    if entries.len() == 0 {
        reveal(Seq::filter);
    } else {
        let front = entries.drop_last();
        let e = entries.last();
        assert(front.push(e) =~= entries);
        lemma_dumps_partition(front, exclude);
        lemma_dumps_push(front, e);
        lemma_skipped_push(front, e, exclude);
        lemma_kept_push(front, e, exclude);
    }
}

/// No kept dump holds an excluded table, and each is a table dump of the
/// directory.
pub proof fn lemma_kept_not_excluded(entries: Seq<BackupEntryView>, exclude: Seq<Seq<char>>)
    ensures
        forall|i: int|
            0 <= i < kept_dumps(entries, exclude).len() ==> {
                let e = #[trigger] kept_dumps(entries, exclude)[i];
                is_table_dump(e.path) && !exclude.contains(table_of(e.path)) && entries.contains(e)
            },
    decreases entries.len(),
{
    if entries.len() == 0 {
        reveal(Seq::filter);
    } else {
        let front = entries.drop_last();
        let e = entries.last();
        assert(front.push(e) =~= entries);
        lemma_kept_not_excluded(front, exclude);
        lemma_kept_push(front, e, exclude);
        assert forall|i: int| 0 <= i < kept_dumps(entries, exclude).len() implies {
            let x = #[trigger] kept_dumps(entries, exclude)[i];
            is_table_dump(x.path) && !exclude.contains(table_of(x.path)) && entries.contains(x)
        } by {
            let x = kept_dumps(entries, exclude)[i];
            if i < kept_dumps(front, exclude).len() {
                assert(x == kept_dumps(front, exclude)[i]);
                let j = choose|j: int| 0 <= j < front.len() && front[j] == x;
                assert(entries[j] == x);
            } else {
                assert(x == e);
                assert(entries[entries.len() - 1] == e);
            }
        }
    }
}

/// Every table dump of the directory whose table is not excluded is kept.
pub proof fn lemma_wanted_is_kept(
    entries: Seq<BackupEntryView>,
    exclude: Seq<Seq<char>>,
    e: BackupEntryView,
)
    requires
        entries.contains(e),
        is_table_dump(e.path),
        !exclude.contains(table_of(e.path)),
    ensures
        kept_dumps(entries, exclude).contains(e),
    decreases entries.len(),
{
    let front = entries.drop_last();
    let last = entries.last();
    assert(front.push(last) =~= entries);
    lemma_kept_push(front, last, exclude);
    let i = choose|i: int| 0 <= i < entries.len() && entries[i] == e;
    if i < front.len() {
        assert(front[i] == e);
        lemma_wanted_is_kept(front, exclude, e);
        let j = choose|j: int|
            0 <= j < kept_dumps(front, exclude).len() && kept_dumps(front, exclude)[j] == e;
        assert(kept_dumps(entries, exclude)[j] == e);
    } else {
        let kept = kept_dumps(front, exclude);
        assert(kept.push(e)[kept.len() as int] == e);
    }
}

/// Whether `path` names a table dump.
pub fn names_table_dump(path: &str) -> (b: bool)
    ensures
        b == is_table_dump(path@),
{
    ends_with(file_name(path), ".sql.gz")
}

/// The table that the dump at `path` holds.
pub fn table_name(path: &str) -> (table: String)
    ensures
        table@ == table_of(path@),
{
    let name = file_name(path);
    if ends_with(name, ".sql.gz") {
        let n: usize = name.unicode_len();
        proof {
            reveal_strlit(".sql.gz");
            assert(name@.take(n - 7) =~= name@.subrange(0, n - 7));
        }
        String::from_str(name.substring_char(0, n - 7))
    } else {
        proof {
            assert(""@ =~= Seq::<char>::empty()) by {
                reveal_strlit("");
            }
        }
        String::from_str("")
    }
}

/// Where the decompressed dump at `path` is written.
pub fn output_path(path: &str) -> (output: String)
    ensures
        output@ == output_of(path@),
{
    if ends_with(path, ".gz") {
        let n: usize = path.unicode_len();
        proof {
            reveal_strlit(".gz");
            assert(path@.take(n - 3) =~= path@.subrange(0, n - 3));
        }
        String::from_str(path.substring_char(0, n - 3))
    } else {
        String::from_str(path)
    }
}

/// Whether `table` is a member of the exclusion set.
pub fn is_excluded(table: &str, exclude: &Vec<String>) -> (b: bool)
    ensures
        b == exclude.deep_view().contains(table@),
{
    let mut i: usize = 0;
    while i < exclude.len()
        invariant
            i <= exclude.len(),
            forall|j: int| 0 <= j < i ==> (#[trigger] exclude.deep_view()[j]) != table@,
        decreases exclude.len() - i,
    {
        if same_text(exclude[i].as_str(), table) {
            assert(exclude.deep_view()[i as int] == table@);
            return true;
        }
        i = i + 1;
    }
    false
}

/// Whether an extraction reads the bytes of the file at `path`: it does for
/// a table dump whose table is not excluded, and for no other file.
pub fn wants_contents(path: &str, exclude: &Vec<String>) -> (b: bool)
    ensures
        b == (is_table_dump(path@) && !exclude.deep_view().contains(table_of(path@))),
{
    if names_table_dump(path) {
        let table = table_name(path);
        !is_excluded(table.as_str(), exclude)
    } else {
        false
    }
}

/// The dump file of the entry at `path`, given the text that its bytes
/// decompressed to.
pub fn dump_file(path: &str, sql: String) -> (file: TableDumpFile)
    ensures
        file@ == dump_file_of(path@, sql@),
{
    TableDumpFile { table: table_name(path), path: output_path(path), sql }
}

/// `std::io::Error`: why a dump could not be decompressed.
#[verifier::external_type_specification]
#[verifier::external_body]
pub struct ExIoError(std::io::Error);

/// `flate2::read::GzDecoder::new` on the bytes, read to the end as a string
/// with `read_to_string`. The result is the text that the bytes decompress
/// to, and an error exactly where they have none.
#[verifier::external_body]
fn gunzip(data: &[u8]) -> (r: Result<String, std::io::Error>)
    ensures
        match r {
            Ok(text) => gunzip_text(data@) == Some(text@),
            Err(_) => gunzip_text(data@) is None,
        },
{
    let mut text = String::new();
    GzDecoder::new(data).read_to_string(&mut text)?;
    Ok(text)
}

/// The text of a `std::io::Error`, as its `Display` gives it.
#[verifier::external_body]
fn io_error_text(error: &std::io::Error) -> (text: String) {
    error.to_string()
}

/// Extracts the table dumps of a backup directory. Of `entries`, the files
/// of the directory in the order it lists them, those that are no table
/// dumps are passed over; a dump of an excluded table is counted as skipped
/// and not decompressed; every other dump is decompressed. One dump that
/// does not decompress fails the whole extraction, with the path of the
/// first such dump.
pub fn extract_backup(entries: &Vec<BackupEntry>, exclude: &Vec<String>) -> (r: Result<
    Extraction,
    RestoreError,
>)
    ensures
        match r {
            Ok(x) => {
                let kept = kept_dumps(entries.deep_view(), exclude.deep_view());
                &&& all_decompress(kept)
                &&& x.files.deep_view() == dump_files_of(kept)
                &&& x.skipped == skipped_dumps(entries.deep_view(), exclude.deep_view()).len()
            },
            Err(e) => {
                let kept = kept_dumps(entries.deep_view(), exclude.deep_view());
                exists|k: int|
                    first_damaged(kept, k) && e@ == (ErrorView::CorruptDump { file: kept[k].path })
            },
        },
{
    let ghost all = entries.deep_view();
    let ghost ex = exclude.deep_view();
    let mut files: Vec<TableDumpFile> = Vec::new();
    let mut skipped: usize = 0;
    let mut i: usize = 0;
    proof {
        reveal(Seq::filter);
        assert(all.take(0) =~= Seq::empty());
    }
    while i < entries.len()
        invariant
            all == entries.deep_view(),
            ex == exclude.deep_view(),
            i <= entries.len(),
            skipped <= i,
            skipped == skipped_dumps(all.take(i as int), ex).len(),
            all_decompress(kept_dumps(all.take(i as int), ex)),
            files.deep_view() == dump_files_of(kept_dumps(all.take(i as int), ex)),
        decreases entries.len() - i,
    {
        let entry = &entries[i];
        let ghost e = entry@;
        let ghost before = all.take(i as int);
        proof {
            assert(all.take(i + 1) =~= before.push(e));
            lemma_skipped_push(before, e, ex);
            lemma_kept_push(before, e, ex);
        }
        if names_table_dump(entry.path.as_str()) {
            let table = table_name(entry.path.as_str());
            if is_excluded(table.as_str(), exclude) {
                skipped = skipped + 1;
            } else {
                match gunzip(entry.data.as_slice()) {
                    Ok(sql) => {
                        let file = dump_file(entry.path.as_str(), sql);
                        let ghost old_files = files.deep_view();
                        files.push(file);
                        proof {
                            let kept = kept_dumps(before, ex);
                            assert(files.deep_view() =~= old_files.push(decoded(e)));
                            assert(dump_files_of(kept.push(e)) =~= dump_files_of(kept).push(
                                decoded(e),
                            ));
                        }
                    },
                    Err(err) => {
                        proof {
                            let kept = kept_dumps(before, ex);
                            let rest = all.skip(i + 1);
                            assert(all =~= before.push(e) + rest);
                            Seq::filter_distributes_over_add(before.push(e), rest, keep_test(ex));
                            let k = kept.len() as int;
                            assert(kept_dumps(all, ex)[k] == e);
                            assert forall|j: int| 0 <= j < k implies gunzip_text(
                                (#[trigger] kept_dumps(all, ex)[j]).data,
                            ) is Some by {
                                assert(kept_dumps(all, ex)[j] == kept[j]);
                            }
                            assert(first_damaged(kept_dumps(all, ex), k));
                        }
                        return Err(
                            RestoreError::CorruptDump {
                                file: entry.path.clone(),
                                detail: io_error_text(&err),
                            },
                        );
                    },
                }
            }
        }
        i = i + 1;
    }
    proof {
        assert(all.take(i as int) =~= all);
    }
    Ok(Extraction { files, skipped })
}

} // verus!
