use vstd::prelude::*;

use crate::engine::{
    all_paths, apply_plan, changed_paths, is_changed, plan_of, rooted, store_after, DiskState,
    FileMetadata,
};
use crate::fingerprint::fingerprint_of;
use crate::paths::under_root;

verus! {

/// Every candidate's file exists in the project tree, and its fingerprint is
/// that of the file's current content.
pub open spec fn files_match_source(files: Seq<FileMetadata>, source: Map<Seq<char>, Seq<u8>>) -> bool {
    forall|i: int|
        0 <= i < files.len() ==> {
            &&& source.contains_key(#[trigger] files[i].path@)
            &&& files[i].checksum@ == fingerprint_of(source[files[i].path@])
        }
}

proof fn lemma_changed_paths_contains(store: Map<Seq<char>, Seq<char>>, files: Seq<FileMetadata>, i: int)
    requires
        0 <= i < files.len(),
        is_changed(store, files[i]),
    ensures
        changed_paths(store, files).contains(files[i].path@),
    decreases files.len(),
{
    let rest = changed_paths(store, files.drop_last());
    if i == files.len() - 1 {
        assert(changed_paths(store, files).last() == files[i].path@);
    } else {
        lemma_changed_paths_contains(store, files.drop_last(), i);
        let j = choose|j: int| 0 <= j < rest.len() && rest[j] == files[i].path@;
        assert(changed_paths(store, files)[j] == files[i].path@);
    }
}

proof fn lemma_changed_paths_none(store: Map<Seq<char>, Seq<char>>, files: Seq<FileMetadata>)
    requires
        forall|i: int| 0 <= i < files.len() ==> !is_changed(store, #[trigger] files[i]),
    ensures
        changed_paths(store, files).len() == 0,
    decreases files.len(),
{
    if files.len() > 0 {
        assert(!is_changed(store, files[files.len() - 1]));
        lemma_changed_paths_none(store, files.drop_last());
    }
}

proof fn lemma_changed_paths_all(files: Seq<FileMetadata>)
    ensures
        changed_paths(Map::empty(), files).len() == files.len(),
    decreases files.len(),
{
    if files.len() > 0 {
        lemma_changed_paths_all(files.drop_last());
    }
}

proof fn lemma_rooted_contains(paths: Seq<Seq<char>>, k: Seq<char>)
    requires
        paths.contains(k),
        under_root(k),
    ensures
        rooted(paths).contains(k),
    decreases paths.len(),
{
    let rest = rooted(paths.drop_last());
    if paths.last() == k {
        assert(rooted(paths).last() == k);
    } else {
        let i = choose|i: int| 0 <= i < paths.len() && paths[i] == k;
        assert(paths.drop_last()[i] == k);
        lemma_rooted_contains(paths.drop_last(), k);
        let j = choose|j: int| 0 <= j < rest.len() && rest[j] == k;
        assert(rooted(paths)[j] == k);
    }
}

proof fn lemma_mirrored(files: Seq<FileMetadata>, i: int)
    requires
        0 <= i < files.len(),
        under_root(files[i].path@),
    ensures
        rooted(all_paths(files)).contains(files[i].path@),
{
    assert(all_paths(files)[i] == files[i].path@);
    lemma_rooted_contains(all_paths(files), files[i].path@);
}

proof fn lemma_store_after_value(
    store: Map<Seq<char>, Seq<char>>,
    files: Seq<FileMetadata>,
    i: int,
    c: Seq<char>,
)
    requires
        0 <= i < files.len(),
        forall|j: int| 0 <= j < files.len() && #[trigger] files[j].path@ == files[i].path@ ==> files[j].checksum@ == c,
    ensures
        store_after(store, files).contains_key(files[i].path@),
        store_after(store, files)[files[i].path@] == c,
    decreases files.len(),
{
    let last = files.len() - 1;
    if files[last].path@ != files[i].path@ {
        assert forall|j: int|
            0 <= j < files.drop_last().len() && #[trigger] files.drop_last()[j].path@
                == files.drop_last()[i].path@ implies files.drop_last()[j].checksum@ == c by {
            assert(files[j].path@ == files[i].path@);
        }
        lemma_store_after_value(store, files.drop_last(), i, c);
    } else {
        assert(files[last].checksum@ == c);
    }
}

/// After a run, each candidate's stored fingerprint is that of its current content.
proof fn lemma_store_after_current(
    store: Map<Seq<char>, Seq<char>>,
    source: Map<Seq<char>, Seq<u8>>,
    files: Seq<FileMetadata>,
    i: int,
)
    requires
        files_match_source(files, source),
        0 <= i < files.len(),
    ensures
        store_after(store, files).contains_key(files[i].path@),
        store_after(store, files)[files[i].path@] == fingerprint_of(source[files[i].path@]),
{
    let c = fingerprint_of(source[files[i].path@]);
    assert forall|j: int| 0 <= j < files.len() && #[trigger] files[j].path@ == files[i].path@ implies files[j].checksum@ == c by {
    }
    lemma_store_after_value(store, files, i, c);
}

/// On the first run ever, with an empty checksum store, every candidate counts
/// as changed: as many files change as are processed.
pub proof fn lemma_first_run_all_changed(files: Seq<FileMetadata>)
    ensures
        plan_of(Map::empty(), files).changed.len() == plan_of(Map::empty(), files).processed,
{
    lemma_changed_paths_all(files);
}

/// Two runs in a row over an unchanged project tree: the second finds no
/// change, leaves the archive exactly as the first left it, and leaves the
/// mirror as it was.
pub proof fn lemma_rerun_changes_nothing(
    store: Map<Seq<char>, Seq<char>>,
    disk: DiskState,
    files: Seq<FileMetadata>,
)
    requires
        files_match_source(files, disk.source),
    ensures
        ({
            let store1 = store_after(store, files);
            let disk1 = apply_plan(disk, plan_of(store, files));
            let plan2 = plan_of(store1, files);
            &&& plan2.changed.len() == 0
            &&& !plan2.rotate
            &&& apply_plan(disk1, plan2).archive == disk1.archive
            &&& apply_plan(disk1, plan2).mirror == disk1.mirror
        }),
{
    let store1 = store_after(store, files);
    let plan1 = plan_of(store, files);
    let disk1 = apply_plan(disk, plan1);
    let plan2 = plan_of(store1, files);
    assert forall|i: int| 0 <= i < files.len() implies !is_changed(store1, #[trigger] files[i]) by {
        lemma_store_after_current(store, disk.source, files, i);
    }
    lemma_changed_paths_none(store1, files);
    assert(apply_plan(disk1, plan2).mirror =~= disk1.mirror);
}

/// After a run, the stored fingerprint of each candidate is the fingerprint of
/// the mirror's copy of it. (Candidates outside the project root are never
/// mirrored, so the law speaks of candidate sets under the root.)
pub proof fn lemma_store_matches_mirror(
    store: Map<Seq<char>, Seq<char>>,
    disk: DiskState,
    files: Seq<FileMetadata>,
)
    requires
        files_match_source(files, disk.source),
        forall|i: int| 0 <= i < files.len() ==> under_root(#[trigger] files[i].path@),
    ensures
        ({
            let store1 = store_after(store, files);
            let disk1 = apply_plan(disk, plan_of(store, files));
            forall|i: int|
                0 <= i < files.len() ==> {
                    let p = #[trigger] files[i].path@;
                    &&& store1.contains_key(p)
                    &&& disk1.mirror.contains_key(p)
                    &&& store1[p] == fingerprint_of(disk1.mirror[p])
                }
        }),
{
    assert forall|i: int| 0 <= i < files.len() implies {
        let p = #[trigger] files[i].path@;
        let store1 = store_after(store, files);
        let disk1 = apply_plan(disk, plan_of(store, files));
        &&& store1.contains_key(p)
        &&& disk1.mirror.contains_key(p)
        &&& store1[p] == fingerprint_of(disk1.mirror[p])
    } by {
        lemma_store_after_current(store, disk.source, files, i);
        lemma_mirrored(files, i);
    }
}

/// A candidate whose content went from `c_old` (what the mirror and the store
/// hold from the last run) to `c_new` ends the run with `c_old` in the archive
/// and `c_new` in the mirror. Fingerprints stand for content, so the law
/// speaks of contents whose fingerprints differ.
pub proof fn lemma_changed_file_archived(
    store: Map<Seq<char>, Seq<char>>,
    disk: DiskState,
    files: Seq<FileMetadata>,
    i: int,
    c_old: Seq<u8>,
    c_new: Seq<u8>,
)
    requires
        files_match_source(files, disk.source),
        0 <= i < files.len(),
        under_root(files[i].path@),
        disk.mirror.contains_key(files[i].path@),
        disk.mirror[files[i].path@] == c_old,
        store.contains_key(files[i].path@),
        store[files[i].path@] == fingerprint_of(c_old),
        disk.source[files[i].path@] == c_new,
        fingerprint_of(c_old) != fingerprint_of(c_new),
    ensures
        ({
            let p = files[i].path@;
            let disk1 = apply_plan(disk, plan_of(store, files));
            &&& disk1.archive.contains_key(p)
            &&& disk1.archive[p] == c_old
            &&& disk1.mirror.contains_key(p)
            &&& disk1.mirror[p] == c_new
        }),
{
    let p = files[i].path@;
    assert(is_changed(store, files[i]));
    lemma_changed_paths_contains(store, files, i);
    lemma_rooted_contains(changed_paths(store, files), p);
    lemma_mirrored(files, i);
}

/// A path seen for the first time (no stored fingerprint, no mirror entry)
/// counts as changed, and the run leaves no archive entry for it.
pub proof fn lemma_new_file_not_archived(
    store: Map<Seq<char>, Seq<char>>,
    disk: DiskState,
    files: Seq<FileMetadata>,
    i: int,
)
    requires
        0 <= i < files.len(),
        !store.contains_key(files[i].path@),
        !disk.mirror.contains_key(files[i].path@),
    ensures
        plan_of(store, files).changed.contains(files[i].path@),
        !apply_plan(disk, plan_of(store, files)).archive.contains_key(files[i].path@),
{
    lemma_changed_paths_contains(store, files, i);
}

} // verus!
