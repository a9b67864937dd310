//! What holds of every extraction, whatever the backup directory holds.

use vstd::prelude::*;
use crate::extract::{
    decoded,
    dump_files_of,
    kept_dumps,
    lemma_kept_not_excluded,
    lemma_kept_push,
    lemma_skipped_push,
    lemma_wanted_is_kept,
    skipped_dumps,
    table_of,
    BackupEntryView,
    TableDumpFileView,
};

verus! {

/// The exclusion set is a set: the order of its tables, and a table named
/// twice, change nothing of what is kept and what is skipped.
pub proof fn law_exclusion_is_a_set(
    entries: Seq<BackupEntryView>,
    one: Seq<Seq<char>>,
    other: Seq<Seq<char>>,
)
    requires
        one.to_set() == other.to_set(),
    ensures
        kept_dumps(entries, one) == kept_dumps(entries, other),
        skipped_dumps(entries, one) == skipped_dumps(entries, other),
    decreases entries.len(),
{
    if entries.len() == 0 {
        reveal(Seq::filter);
    } else {
        let front = entries.drop_last();
        let e = entries.last();
        assert(front.push(e) =~= entries);
        law_exclusion_is_a_set(front, one, other);
        lemma_kept_push(front, e, one);
        lemma_kept_push(front, e, other);
        lemma_skipped_push(front, e, one);
        lemma_skipped_push(front, e, other);
        assert(one.contains(table_of(e.path)) == one.to_set().contains(table_of(e.path)));
        assert(other.contains(table_of(e.path)) == other.to_set().contains(table_of(e.path)));
    }
}

/// Extraction is repeatable: two listings of the same files, in whatever
/// order the directory gives them, decompress to the same dump files.
pub proof fn law_same_files_same_dumps(
    one: Seq<BackupEntryView>,
    other: Seq<BackupEntryView>,
    exclude: Seq<Seq<char>>,
)
    requires
        one.to_set() == other.to_set(),
    ensures
        dump_files_of(kept_dumps(one, exclude)).to_set() == dump_files_of(
            kept_dumps(other, exclude),
        ).to_set(),
{
    lemma_dump_files_among(one, other, exclude);
    lemma_dump_files_among(other, one, exclude);
    assert(dump_files_of(kept_dumps(one, exclude)).to_set() =~= dump_files_of(
        kept_dumps(other, exclude),
    ).to_set());
}

/// Each dump file of one listing is a dump file of another listing that
/// holds the same files.
proof fn lemma_dump_files_among(
    one: Seq<BackupEntryView>,
    other: Seq<BackupEntryView>,
    exclude: Seq<Seq<char>>,
)
    requires
        one.to_set() == other.to_set(),
    ensures
        forall|f: TableDumpFileView|
            dump_files_of(kept_dumps(one, exclude)).contains(f) ==> dump_files_of(
                kept_dumps(other, exclude),
            ).contains(f),
{
    let from = kept_dumps(one, exclude);
    let to = kept_dumps(other, exclude);
    lemma_kept_not_excluded(one, exclude);
    assert forall|f: TableDumpFileView| dump_files_of(from).contains(f) implies dump_files_of(
        to,
    ).contains(f) by {
        let i = choose|i: int| 0 <= i < dump_files_of(from).len() && dump_files_of(from)[i] == f;
        let e = from[i];
        assert(one.contains(e));
        assert(one.to_set().contains(e));
        assert(other.to_set().contains(e));
        assert(other.contains(e));
        lemma_wanted_is_kept(other, exclude, e);
        let j = choose|j: int| 0 <= j < to.len() && to[j] == e;
        assert(dump_files_of(to)[j] == decoded(e));
    }
}

} // verus!
