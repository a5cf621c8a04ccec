use std::collections::BTreeMap;

use aios_backup::{BackupResult, FileMetadata, RustBackupCore};

const FP_A: &str = "559aead08264d5795d3909718cdd05abd49572e84fe55590eef31a88a08fdffd";
const FP_B: &str = "df7e70e5021544f4834bbee64a9e3789febc4be81470df629cad6ddb03320a5c";

/// The project tree, the mirror and the archive, held in memory.
struct Disk {
    source: BTreeMap<String, Vec<u8>>,
    mirror: BTreeMap<String, Vec<u8>>,
    archive: BTreeMap<String, Vec<u8>>,
}

impl Disk {
    fn new() -> Disk {
        Disk { source: BTreeMap::new(), mirror: BTreeMap::new(), archive: BTreeMap::new() }
    }
}

fn candidates(disk: &Disk) -> Vec<FileMetadata> {
    disk.source
        .iter()
        .map(|(p, c)| FileMetadata::from_content(p.clone(), c, 0))
        .collect()
}

/// Carries out one run the way the caller is asked to.
fn run(core: &mut RustBackupCore, disk: &mut Disk, now: u64) -> BackupResult {
    let files = candidates(disk);
    let plan = core.plan_backup(&files);
    if plan.rotate_archive {
        disk.archive.clear();
        for p in &plan.archive_files {
            if let Some(c) = disk.mirror.get(p) {
                disk.archive.insert(p.clone(), c.clone());
            }
        }
    }
    for p in &plan.mirror_files {
        let c = disk.source[p].clone();
        disk.mirror.insert(p.clone(), c);
    }
    core.update_file_checksums(&files);
    core.update_backup_timestamp(now);
    core.backup_result(&plan, 7)
}

fn stored(core: &RustBackupCore, path: &str) -> Option<String> {
    core.file_checksums().get(&path.to_string()).cloned()
}

#[test]
fn scenario_three_runs() {
    let mut core = RustBackupCore::new("/backups", None, None);
    let mut disk = Disk::new();
    disk.source.insert("data_core/x.txt".to_string(), b"A".to_vec());

    let r1 = run(&mut core, &mut disk, 100);
    assert!(r1.success);
    assert_eq!(r1.files_changed, 1);
    assert_eq!(r1.files_processed, 1);
    assert_eq!(stored(&core, "data_core/x.txt").as_deref(), Some(FP_A));
    assert_eq!(disk.mirror["data_core/x.txt"], b"A".to_vec());
    assert!(disk.archive.is_empty());

    disk.source.insert("data_core/x.txt".to_string(), b"B".to_vec());
    let r2 = run(&mut core, &mut disk, 200);
    assert_eq!(r2.files_changed, 1);
    assert_eq!(disk.archive["data_core/x.txt"], b"A".to_vec());
    assert_eq!(disk.mirror["data_core/x.txt"], b"B".to_vec());
    assert_eq!(stored(&core, "data_core/x.txt").as_deref(), Some(FP_B));

    let archive_after_two = disk.archive.clone();
    let r3 = run(&mut core, &mut disk, 300);
    assert_eq!(r3.files_changed, 0);
    assert_eq!(disk.archive, archive_after_two);
    assert_eq!(disk.mirror["data_core/x.txt"], b"B".to_vec());
    assert_eq!(core.last_backup_timestamp(), 300);
}

#[test]
fn first_run_changes_every_file() {
    let mut core = RustBackupCore::new("/b", None, None);
    let mut disk = Disk::new();
    disk.source.insert("carma_core/a.py".to_string(), b"print(1)".to_vec());
    disk.source.insert("data_core/b.json".to_string(), b"{}".to_vec());
    disk.source.insert("README.md".to_string(), b"# readme".to_vec());
    let r = run(&mut core, &mut disk, 1);
    assert_eq!(r.files_processed, 3);
    assert_eq!(r.files_changed, 3);
    assert!(disk.archive.is_empty());
    assert_eq!(disk.mirror.len(), 3);
}

#[test]
fn rerun_without_edits_changes_nothing() {
    let mut core = RustBackupCore::new("/b", None, None);
    let mut disk = Disk::new();
    disk.source.insert("luna_core/a.txt".to_string(), b"one".to_vec());
    disk.source.insert("luna_core/b.txt".to_string(), b"two".to_vec());
    run(&mut core, &mut disk, 1);
    disk.source.insert("luna_core/a.txt".to_string(), b"uno".to_vec());
    run(&mut core, &mut disk, 2);
    let archive = disk.archive.clone();
    let mirror = disk.mirror.clone();
    let r = run(&mut core, &mut disk, 3);
    assert_eq!(r.files_changed, 0);
    assert_eq!(r.files_processed, 2);
    assert_eq!(disk.archive, archive);
    assert_eq!(disk.mirror, mirror);
    let plan = core.plan_backup(&candidates(&disk));
    assert!(!plan.rotate_archive);
    assert!(plan.changed_files.is_empty());
}

#[test]
fn store_matches_mirror_after_run() {
    let mut core = RustBackupCore::new("/b", None, None);
    let mut disk = Disk::new();
    disk.source.insert("utils_core/u.rs".to_string(), b"fn u() {}".to_vec());
    disk.source.insert("support_core/s.rs".to_string(), b"fn s() {}".to_vec());
    run(&mut core, &mut disk, 1);
    disk.source.insert("utils_core/u.rs".to_string(), b"fn u2() {}".to_vec());
    run(&mut core, &mut disk, 2);
    for (p, _) in &disk.source {
        let mirrored = &disk.mirror[p];
        assert_eq!(stored(&core, p), Some(aios_backup::calculate_checksum(mirrored)));
    }
    assert_eq!(core.file_checksums().len(), 2);
}

#[test]
fn changed_file_goes_to_archive_with_old_content() {
    let mut core = RustBackupCore::new("/b", None, None);
    let mut disk = Disk::new();
    disk.source.insert("dream_core/d.txt".to_string(), b"old".to_vec());
    disk.source.insert("dream_core/e.txt".to_string(), b"same".to_vec());
    run(&mut core, &mut disk, 1);
    disk.source.insert("dream_core/d.txt".to_string(), b"new".to_vec());
    let r = run(&mut core, &mut disk, 2);
    assert_eq!(r.files_changed, 1);
    assert_eq!(disk.archive.len(), 1);
    assert_eq!(disk.archive["dream_core/d.txt"], b"old".to_vec());
    assert_eq!(disk.mirror["dream_core/d.txt"], b"new".to_vec());
    assert_eq!(disk.mirror["dream_core/e.txt"], b"same".to_vec());
}

#[test]
fn new_file_counts_but_is_not_archived() {
    let mut core = RustBackupCore::new("/b", None, None);
    let mut disk = Disk::new();
    disk.source.insert("data_core/a.txt".to_string(), b"a".to_vec());
    run(&mut core, &mut disk, 1);
    disk.source.insert("data_core/new.txt".to_string(), b"fresh".to_vec());
    let r = run(&mut core, &mut disk, 2);
    assert_eq!(r.files_changed, 1);
    assert_eq!(r.files_processed, 2);
    assert!(disk.archive.is_empty());
    assert_eq!(disk.mirror["data_core/new.txt"], b"fresh".to_vec());
}

#[test]
fn archive_is_rebuilt_on_each_run_with_changes() {
    let mut core = RustBackupCore::new("/b", None, None);
    let mut disk = Disk::new();
    disk.source.insert("data_core/a.txt".to_string(), b"a1".to_vec());
    disk.source.insert("data_core/b.txt".to_string(), b"b1".to_vec());
    run(&mut core, &mut disk, 1);
    disk.source.insert("data_core/a.txt".to_string(), b"a2".to_vec());
    run(&mut core, &mut disk, 2);
    assert_eq!(disk.archive.keys().collect::<Vec<_>>(), vec!["data_core/a.txt"]);
    disk.source.insert("data_core/b.txt".to_string(), b"b2".to_vec());
    run(&mut core, &mut disk, 3);
    assert_eq!(disk.archive.keys().collect::<Vec<_>>(), vec!["data_core/b.txt"]);
    assert_eq!(disk.archive["data_core/b.txt"], b"b1".to_vec());
}

#[test]
fn stale_entries_stay_in_store() {
    let mut core = RustBackupCore::new("/b", None, None);
    let mut disk = Disk::new();
    disk.source.insert("data_core/gone.txt".to_string(), b"g".to_vec());
    run(&mut core, &mut disk, 1);
    disk.source.clear();
    disk.source.insert("data_core/kept.txt".to_string(), b"k".to_vec());
    let r = run(&mut core, &mut disk, 2);
    assert_eq!(r.files_processed, 1);
    assert!(stored(&core, "data_core/gone.txt").is_some());
    assert_eq!(core.file_checksums().len(), 2);
    assert!(disk.mirror.contains_key("data_core/gone.txt"));
}

#[test]
fn paths_outside_root_are_counted_but_not_copied() {
    let core = RustBackupCore::new("/b", None, None);
    let files = vec![
        FileMetadata::from_content("../outside.txt".to_string(), b"x", 0),
        FileMetadata::from_content("/abs/file.txt".to_string(), b"y", 0),
        FileMetadata::from_content("data_core/in.txt".to_string(), b"z", 0),
    ];
    let plan = core.plan_backup(&files);
    assert_eq!(plan.files_processed, 3);
    assert_eq!(plan.changed_files.len(), 3);
    assert!(plan.rotate_archive);
    assert_eq!(plan.archive_files, vec!["data_core/in.txt".to_string()]);
    assert_eq!(plan.mirror_files, vec!["data_core/in.txt".to_string()]);
}

#[test]
fn changed_files_follow_the_store() {
    let store_text = format!("{{\"data_core/a.txt\": \"{}\", \"data_core/b.txt\": \"{}\"}}", FP_A, FP_A);
    let core = RustBackupCore::new("/b", Some(&store_text), None);
    let files = vec![
        FileMetadata::from_content("data_core/a.txt".to_string(), b"A", 0),
        FileMetadata::from_content("data_core/b.txt".to_string(), b"B", 0),
        FileMetadata::from_content("data_core/c.txt".to_string(), b"A", 0),
    ];
    let changed = core.get_changed_files(&files);
    assert_eq!(changed, vec!["data_core/b.txt".to_string(), "data_core/c.txt".to_string()]);
}

#[test]
fn result_reports_counts_and_mirror_root() {
    let core = RustBackupCore::new("/var/backups", None, None);
    let files = vec![
        FileMetadata::from_content("data_core/a.txt".to_string(), b"a", 0),
        FileMetadata::from_content("data_core/b.txt".to_string(), b"b", 0),
    ];
    let plan = core.plan_backup(&files);
    let r = core.backup_result(&plan, 42);
    assert!(r.success);
    assert_eq!(r.files_processed, 2);
    assert_eq!(r.files_changed, 2);
    assert_eq!(r.time_taken_ms, 42);
    assert_eq!(r.backup_path, "/var/backups/active_backup");
    assert_eq!(r.error_message, None);
}

#[test]
fn failed_result_carries_message() {
    let r = BackupResult::failed("disk full".to_string(), "/b/active_backup".to_string(), 5);
    assert!(!r.success);
    assert_eq!(r.error_message.as_deref(), Some("disk full"));
    assert_eq!(r.files_processed, 0);
    assert_eq!(r.files_changed, 0);
    assert_eq!(r.time_taken_ms, 5);
    assert_eq!(r.backup_path, "/b/active_backup");
}

#[test]
fn engine_layout_under_backup_root() {
    let core = RustBackupCore::new("/var/backups/", None, None);
    assert_eq!(core.backup_dir(), "/var/backups/");
    assert_eq!(core.active_backup_dir(), "/var/backups/active_backup");
    assert_eq!(core.archive_backup_dir(), "/var/backups/archive_backup");
    assert_eq!(core.checksums_file(), "/var/backups/file_checksums.json");
    assert_eq!(core.tracking_file(), "/var/backups/backup_tracking.json");
    let p = "data_core/x.txt".to_string();
    assert_eq!(core.mirror_file(&p), "/var/backups/active_backup/data_core/x.txt");
    assert_eq!(core.archive_file(&p), "/var/backups/archive_backup/data_core/x.txt");
    assert_eq!(core.last_backup_timestamp(), 0);
}

#[test]
fn engine_loads_persisted_state() {
    let store_text = format!("{{\n  \"data_core/x.txt\": \"{}\"\n}}", FP_A);
    let tracking_text = "{\n  \"backup_count\": 1,\n  \"last_backup_timestamp\": 1700000000\n}";
    let core = RustBackupCore::new("/b", Some(&store_text), Some(tracking_text));
    assert_eq!(core.last_backup_timestamp(), 1700000000);
    assert_eq!(stored(&core, "data_core/x.txt").as_deref(), Some(FP_A));
    assert_eq!(core.file_checksums().len(), 1);
}

#[test]
fn engine_recovers_from_corrupt_state() {
    let core = RustBackupCore::new("/b", Some("not json"), Some("{broken"));
    assert_eq!(core.last_backup_timestamp(), 0);
    assert_eq!(core.file_checksums().len(), 0);
}

#[test]
fn persisted_texts_after_run() {
    let mut core = RustBackupCore::new("/b", None, None);
    let mut disk = Disk::new();
    disk.source.insert("data_core/x.txt".to_string(), b"A".to_vec());
    run(&mut core, &mut disk, 1234);
    let text = core.checksums_json().unwrap();
    assert_eq!(text, format!("{{\n  \"data_core/x.txt\": \"{}\"\n}}", FP_A));
    let rec = core.update_backup_timestamp(5678);
    assert_eq!(rec.last_backup_timestamp, 5678);
    assert_eq!(rec.backup_count, 1);
    assert_eq!(
        rec.to_json().unwrap(),
        "{\n  \"backup_count\": 1,\n  \"last_backup_timestamp\": 5678\n}"
    );
}
