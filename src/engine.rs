use vstd::prelude::*;

use crate::fingerprint::{calculate_checksum, fingerprint_of};
use crate::paths::{is_under_root, join_path, join_path_spec, under_root};
use crate::store::{json_text_of_strings, loaded_store, ChecksumStore};
use crate::tracking::TrackingRecord;

verus! {

/// One candidate file of a run.
pub struct FileMetadata {
    /// Canonical path relative to the project root (segments joined by `/`).
    pub path: String,
    /// Fingerprint of the file's full content.
    pub checksum: String,
    /// Size in bytes.
    pub size: u64,
    /// Last modification, in seconds since the Unix epoch.
    pub modified_time: u64,
}

impl FileMetadata {
    /// The record of a file whose full content is `content`.
    pub fn from_content(path: String, content: &[u8], modified_time: u64) -> (r: FileMetadata)
        ensures
            r.path == path,
            r.checksum@ == fingerprint_of(content@),
            r.size == content@.len() as u64,
            r.modified_time == modified_time,
    {
        let checksum = calculate_checksum(content);
        FileMetadata { path, checksum, size: content.len() as u64, modified_time }
    }
}

pub open spec fn strings_view(v: Seq<String>) -> Seq<Seq<char>> {
    v.map_values(|s: String| s@)
}

/// A candidate counts as changed when the store has no fingerprint for its
/// path or a different one.
pub open spec fn is_changed(store: Map<Seq<char>, Seq<char>>, f: FileMetadata) -> bool {
    !(store.contains_key(f.path@) && store[f.path@] == f.checksum@)
}

/// The paths of the changed candidates, in candidate order.
pub open spec fn changed_paths(store: Map<Seq<char>, Seq<char>>, files: Seq<FileMetadata>) -> Seq<
    Seq<char>,
>
    decreases files.len(),
{
    if files.len() == 0 {
        Seq::empty()
    } else {
        let rest = changed_paths(store, files.drop_last());
        if is_changed(store, files.last()) {
            rest.push(files.last().path@)
        } else {
            rest
        }
    }
}

/// The paths among `paths` that resolve under the project root, in order.
pub open spec fn rooted(paths: Seq<Seq<char>>) -> Seq<Seq<char>>
    decreases paths.len(),
{
    if paths.len() == 0 {
        Seq::empty()
    } else {
        let rest = rooted(paths.drop_last());
        if under_root(paths.last()) {
            rest.push(paths.last())
        } else {
            rest
        }
    }
}

pub open spec fn all_paths(files: Seq<FileMetadata>) -> Seq<Seq<char>> {
    files.map_values(|f: FileMetadata| f.path@)
}

/// The store after a run: each candidate's fingerprint set under its path.
pub open spec fn store_after(store: Map<Seq<char>, Seq<char>>, files: Seq<FileMetadata>) -> Map<
    Seq<char>,
    Seq<char>,
>
    decreases files.len(),
{
    if files.len() == 0 {
        store
    } else {
        store_after(store, files.drop_last()).insert(files.last().path@, files.last().checksum@)
    }
}

/// What a run does, as mathematical values.
pub struct PlanView {
    pub processed: nat,
    pub changed: Seq<Seq<char>>,
    pub rotate: bool,
    pub archive: Seq<Seq<char>>,
    pub mirror: Seq<Seq<char>>,
}

/// The run that a store and a candidate set call for: every candidate is
/// processed; the changed ones are counted; the archive is rebuilt only when
/// something changed, from the changed paths under the root; every candidate
/// under the root is mirrored.
pub open spec fn plan_of(store: Map<Seq<char>, Seq<char>>, files: Seq<FileMetadata>) -> PlanView {
    let changed = changed_paths(store, files);
    PlanView {
        processed: files.len(),
        changed: changed,
        rotate: changed.len() > 0,
        archive: rooted(changed),
        mirror: rooted(all_paths(files)),
    }
}

/// The filesystem work of one run, for the caller to carry out in this order:
/// when `rotate_archive` holds, empty the archive directory and copy each of
/// `archive_files` that the mirror holds from the mirror into the archive;
/// then copy each of `mirror_files` from the project tree into the mirror.
pub struct BackupPlan {
    pub files_processed: usize,
    pub changed_files: Vec<String>,
    pub rotate_archive: bool,
    pub archive_files: Vec<String>,
    pub mirror_files: Vec<String>,
}

impl View for BackupPlan {
    type V = PlanView;

    open spec fn view(&self) -> PlanView {
        PlanView {
            processed: self.files_processed as nat,
            changed: strings_view(self.changed_files@),
            rotate: self.rotate_archive,
            archive: strings_view(self.archive_files@),
            mirror: strings_view(self.mirror_files@),
        }
    }
}

/// The parts of the filesystem that a run reads and writes, by relative path.
pub struct DiskState {
    /// The project tree.
    pub source: Map<Seq<char>, Seq<u8>>,
    /// The active mirror.
    pub mirror: Map<Seq<char>, Seq<u8>>,
    /// The archive snapshot.
    pub archive: Map<Seq<char>, Seq<u8>>,
}

/// The filesystem after a plan is carried out. The archive, when rotated,
/// holds exactly the mirror's pre-run copy of each archived path that the
/// mirror held; otherwise it is untouched. The mirror then takes the current
/// content of each mirrored path.
pub open spec fn apply_plan(d: DiskState, p: PlanView) -> DiskState {
    DiskState {
        source: d.source,
        archive: if p.rotate {
            Map::new(|k: Seq<char>| p.archive.contains(k) && d.mirror.contains_key(k), |k| d.mirror[k])
        } else {
            d.archive
        },
        mirror: Map::new(
            |k: Seq<char>| d.mirror.contains_key(k) || (p.mirror.contains(k) && d.source.contains_key(k)),
            |k: Seq<char>|
                if p.mirror.contains(k) && d.source.contains_key(k) {
                    d.source[k]
                } else {
                    d.mirror[k]
                },
        ),
    }
}

/// The summary of one run.
pub struct BackupResult {
    pub success: bool,
    pub files_processed: u32,
    pub files_changed: u32,
    pub time_taken_ms: u64,
    pub backup_path: String,
    pub error_message: Option<String>,
}

impl BackupResult {
    /// The summary of a run that stopped on `message`.
    pub fn failed(message: String, backup_path: String, time_taken_ms: u64) -> (r: BackupResult)
        ensures
            !r.success,
            r.files_processed == 0,
            r.files_changed == 0,
            r.time_taken_ms == time_taken_ms,
            r.backup_path == backup_path,
            r.error_message == Some(message),
    {
        BackupResult {
            success: false,
            files_processed: 0,
            files_changed: 0,
            time_taken_ms,
            backup_path,
            error_message: Some(message),
        }
    }
}

/// The backup engine for one backup root: the checksum store and the last
/// run's timestamp, with the locations of the mirror and the archive.
pub struct RustBackupCore {
    backup_dir: String,
    active_backup_dir: String,
    archive_backup_dir: String,
    file_checksums: ChecksumStore,
    last_backup_timestamp: u64,
}

fn rooted_paths(paths: &Vec<String>) -> (r: Vec<String>)
    ensures
        strings_view(r@) == rooted(strings_view(paths@)),
{
    let ghost pv = strings_view(paths@);
    let mut r: Vec<String> = Vec::new();
    let mut i: usize = 0;
    while i < paths.len()
        invariant
            i <= paths@.len(),
            pv == strings_view(paths@),
            strings_view(r@) == rooted(pv.subrange(0, i as int)),
        decreases paths.len() - i,
    {
        let ghost prefix = pv.subrange(0, i + 1);
        assert(prefix.drop_last() =~= pv.subrange(0, i as int));
        assert(prefix.last() == paths@[i as int]@);
        if is_under_root(paths[i].as_str()) {
            r.push(paths[i].clone());
            assert(strings_view(r@) =~= rooted(prefix));
        }
        i = i + 1;
    }
    assert(pv.subrange(0, paths@.len() as int) =~= pv);
    r
}

impl RustBackupCore {
    /// The store is well formed, and the mirror and archive directories lie
    /// directly under the backup root.
    pub closed spec fn wf(&self) -> bool {
        &&& self.file_checksums.wf()
        &&& self.active_backup_dir@ == join_path_spec(self.backup_dir@, "active_backup"@)
        &&& self.archive_backup_dir@ == join_path_spec(self.backup_dir@, "archive_backup"@)
    }

    /// The backup root.
    pub closed spec fn root_dir(&self) -> Seq<char> {
        self.backup_dir@
    }

    /// The checksum store's mapping.
    pub closed spec fn checksums(&self) -> Map<Seq<char>, Seq<char>> {
        self.file_checksums@
    }

    /// The last run's timestamp.
    pub closed spec fn timestamp(&self) -> u64 {
        self.last_backup_timestamp
    }

    /// An engine for the backup root `backup_dir`, with the checksum store and
    /// tracking record read from their files' text where those files exist.
    /// Text that does not parse gives an empty store or a zero timestamp.
    pub fn new(backup_dir: &str, checksums_text: Option<&str>, tracking_text: Option<&str>) -> (r:
        RustBackupCore)
        ensures
            r.wf(),
            r.root_dir() == backup_dir@,
            r.checksums() == match checksums_text {
                Some(t) => loaded_store(t@),
                None => Map::empty(),
            },
            r.timestamp() == match tracking_text {
                Some(t) => crate::tracking::field_or_zero(t@, "last_backup_timestamp"@),
                None => 0,
            },
    {
        let file_checksums = match checksums_text {
            Some(t) => ChecksumStore::from_json(t),
            None => ChecksumStore::new(),
        };
        let last_backup_timestamp = match tracking_text {
            Some(t) => TrackingRecord::from_json(t).last_backup_timestamp,
            None => 0,
        };
        RustBackupCore {
            backup_dir: backup_dir.to_owned(),
            active_backup_dir: join_path(backup_dir, "active_backup"),
            archive_backup_dir: join_path(backup_dir, "archive_backup"),
            file_checksums,
            last_backup_timestamp,
        }
    }

    /// The paths of the candidates that changed since the last run, in
    /// candidate order.
    pub fn get_changed_files(&self, files: &Vec<FileMetadata>) -> (r: Vec<String>)
        requires
            self.wf(),
        ensures
            strings_view(r@) == changed_paths(self.checksums(), files@),
    {
        let ghost store = self.checksums();
        let mut r: Vec<String> = Vec::new();
        let mut i: usize = 0;
        while i < files.len()
            invariant
                self.wf(),
                store == self.checksums(),
                i <= files@.len(),
                strings_view(r@) == changed_paths(store, files@.subrange(0, i as int)),
            decreases files.len() - i,
        {
            let f = &files[i];
            let changed = match self.file_checksums.get(&f.path) {
                Some(c) => !(*c == f.checksum),
                None => true,
            };
            let ghost prefix = files@.subrange(0, i + 1);
            assert(prefix.drop_last() =~= files@.subrange(0, i as int));
            assert(prefix.last() == *f);
            if changed {
                r.push(f.path.clone());
                assert(strings_view(r@) =~= changed_paths(store, prefix));
            }
            i = i + 1;
        }
        assert(files@.subrange(0, files@.len() as int) =~= files@);
        r
    }

    /// The run that the current store calls for on the candidate set `files`.
    pub fn plan_backup(&self, files: &Vec<FileMetadata>) -> (r: BackupPlan)
        requires
            self.wf(),
        ensures
            r@ == plan_of(self.checksums(), files@),
    {
        let changed_files = self.get_changed_files(files);
        let archive_files = rooted_paths(&changed_files);
        let ghost all = all_paths(files@);
        let mut mirror_files: Vec<String> = Vec::new();
        let mut i: usize = 0;
        while i < files.len()
            invariant
                i <= files@.len(),
                all == all_paths(files@),
                strings_view(mirror_files@) == rooted(all.subrange(0, i as int)),
            decreases files.len() - i,
        {
            let ghost prefix = all.subrange(0, i + 1);
            assert(prefix.drop_last() =~= all.subrange(0, i as int));
            assert(prefix.last() == files@[i as int].path@);
            if is_under_root(files[i].path.as_str()) {
                mirror_files.push(files[i].path.clone());
                assert(strings_view(mirror_files@) =~= rooted(prefix));
            }
            i = i + 1;
        }
        assert(all.subrange(0, files@.len() as int) =~= all);
        let rotate_archive = changed_files.len() > 0;
        BackupPlan {
            files_processed: files.len(),
            changed_files,
            rotate_archive,
            archive_files,
            mirror_files,
        }
    }

    /// Sets each candidate's fingerprint in the store; entries of other paths stay.
    pub fn update_file_checksums(&mut self, files: &Vec<FileMetadata>)
        requires
            old(self).wf(),
        ensures
            final(self).wf(),
            final(self).checksums() == store_after(old(self).checksums(), files@),
            final(self).root_dir() == old(self).root_dir(),
            final(self).timestamp() == old(self).timestamp(),
    {
        let ghost store0 = self.checksums();
        let mut i: usize = 0;
        while i < files.len()
            invariant
                self.wf(),
                i <= files@.len(),
                self.root_dir() == old(self).root_dir(),
                self.timestamp() == old(self).timestamp(),
                store0 == old(self).checksums(),
                self.checksums() == store_after(store0, files@.subrange(0, i as int)),
            decreases files.len() - i,
        {
            let path = files[i].path.clone();
            let checksum = files[i].checksum.clone();
            self.file_checksums.insert(path, checksum);
            let ghost prefix = files@.subrange(0, i + 1);
            assert(prefix.drop_last() =~= files@.subrange(0, i as int));
            i = i + 1;
        }
        assert(files@.subrange(0, files@.len() as int) =~= files@);
    }

    /// The checksum store as the text of its file.
    pub fn checksums_json(&self) -> (r: Option<String>)
        requires
            self.wf(),
        ensures
            r is Some,
            r matches Some(t) ==> t@ == json_text_of_strings(self.checksums()),
    {
        self.file_checksums.to_json()
    }

    /// Records a run that ended at `now` (seconds since the Unix epoch) and
    /// returns the tracking record to persist: that time and the store's size.
    pub fn update_backup_timestamp(&mut self, now: u64) -> (r: TrackingRecord)
        requires
            old(self).wf(),
        ensures
            final(self).wf(),
            final(self).timestamp() == now,
            final(self).checksums() == old(self).checksums(),
            final(self).root_dir() == old(self).root_dir(),
            r.last_backup_timestamp == now,
            r.backup_count == final(self).checksums().len(),
    {
        self.last_backup_timestamp = now;
        TrackingRecord {
            last_backup_timestamp: now,
            backup_count: self.file_checksums.len() as u64,
        }
    }

    /// The summary of a run that carried out `plan` in `time_taken_ms`.
    pub fn backup_result(&self, plan: &BackupPlan, time_taken_ms: u64) -> (r: BackupResult)
        requires
            self.wf(),
            plan.files_processed <= u32::MAX,
            plan.changed_files@.len() <= u32::MAX,
        ensures
            r.success,
            r.files_processed == plan.files_processed,
            r.files_changed == plan.changed_files@.len(),
            r.time_taken_ms == time_taken_ms,
            r.backup_path@ == join_path_spec(self.root_dir(), "active_backup"@),
            r.error_message is None,
    {
        BackupResult {
            success: true,
            files_processed: plan.files_processed as u32,
            files_changed: plan.changed_files.len() as u32,
            time_taken_ms,
            backup_path: self.active_backup_dir.clone(),
            error_message: None,
        }
    }

    /// The backup root.
    pub fn backup_dir(&self) -> (r: &String)
        ensures
            r@ == self.root_dir(),
    {
        &self.backup_dir
    }

    /// The active mirror's root directory.
    pub fn active_backup_dir(&self) -> (r: &String)
        requires
            self.wf(),
        ensures
            r@ == join_path_spec(self.root_dir(), "active_backup"@),
    {
        &self.active_backup_dir
    }

    /// The archive snapshot's root directory.
    pub fn archive_backup_dir(&self) -> (r: &String)
        requires
            self.wf(),
        ensures
            r@ == join_path_spec(self.root_dir(), "archive_backup"@),
    {
        &self.archive_backup_dir
    }

    /// The last run's timestamp, in seconds since the Unix epoch (0 before any run).
    pub fn last_backup_timestamp(&self) -> (r: u64)
        ensures
            r == self.timestamp(),
    {
        self.last_backup_timestamp
    }

    /// The checksum store.
    pub fn file_checksums(&self) -> (r: &ChecksumStore)
        requires
            self.wf(),
        ensures
            r.wf(),
            r@ == self.checksums(),
    {
        &self.file_checksums
    }

    /// The file that holds the checksum store.
    pub fn checksums_file(&self) -> (r: String)
        ensures
            r@ == join_path_spec(self.root_dir(), "file_checksums.json"@),
    {
        join_path(self.backup_dir.as_str(), "file_checksums.json")
    }

    /// The file that holds the tracking record.
    pub fn tracking_file(&self) -> (r: String)
        ensures
            r@ == join_path_spec(self.root_dir(), "backup_tracking.json"@),
    {
        join_path(self.backup_dir.as_str(), "backup_tracking.json")
    }

    /// Where the mirror keeps the file at relative path `path`.
    pub fn mirror_file(&self, path: &String) -> (r: String)
        requires
            self.wf(),
        ensures
            r@ == join_path_spec(join_path_spec(self.root_dir(), "active_backup"@), path@),
    {
        join_path(self.active_backup_dir.as_str(), path.as_str())
    }

    /// Where the archive keeps the file at relative path `path`.
    pub fn archive_file(&self, path: &String) -> (r: String)
        requires
            self.wf(),
        ensures
            r@ == join_path_spec(join_path_spec(self.root_dir(), "archive_backup"@), path@),
    {
        join_path(self.archive_backup_dir.as_str(), path.as_str())
    }
}

} // verus!
