use rensen::config::{GlobalConfig, Host, HostConfig};
use rensen::engine::{classify, plan_backup, FileStatus, RemoteFile};
use rensen::record::{fingerprints_equal, Fingerprint, Record, RecordEntry};
use rensen::task::{record_to_persist, BackupTask};

fn fp(size: u64, hash: &str) -> Fingerprint {
    Fingerprint { size, hashes: vec![hash.to_string()] }
}

fn entry(path: &str, size: u64, hash: &str) -> RecordEntry {
    RecordEntry { path: path.to_string(), fp: fp(size, hash) }
}

#[test]
fn classify_unchanged_when_size_and_hashes_match() {
    let old = fp(10, "H1");
    let new = fp(10, "H1");
    assert_eq!(classify(Some(&old), &new), FileStatus::Unchanged);
}

#[test]
fn classify_changed_on_size_difference() {
    let old = fp(10, "H1");
    let new = fp(11, "H1");
    assert_eq!(classify(Some(&old), &new), FileStatus::Changed);
}

#[test]
fn classify_changed_on_hash_difference() {
    let old = fp(10, "H1");
    let new = fp(10, "H9");
    assert_eq!(classify(Some(&old), &new), FileStatus::Changed);
}

#[test]
fn classify_new_without_prior_fingerprint() {
    let new = fp(10, "H1");
    assert_eq!(classify(None, &new), FileStatus::New);
}

#[test]
fn fingerprint_equality_is_by_content() {
    assert!(fingerprints_equal(&fp(10, "H1"), &fp(10, "H1")));
    assert!(!fingerprints_equal(&fp(10, "H1"), &fp(10, "H2")));
    assert!(!fingerprints_equal(&fp(10, "H1"), &fp(20, "H1")));
}

#[test]
fn any_window_difference_marks_a_change() {
    let old = Fingerprint { size: 10, hashes: vec!["W1".to_string(), "W2".to_string()] };
    let same = Fingerprint { size: 10, hashes: vec!["W1".to_string(), "W2".to_string()] };
    let second_window_differs =
        Fingerprint { size: 10, hashes: vec!["W1".to_string(), "W9".to_string()] };
    assert_eq!(classify(Some(&old), &same), FileStatus::Unchanged);
    assert_eq!(classify(Some(&old), &second_window_differs), FileStatus::Changed);
}

#[test]
fn same_size_different_hash_is_transferred() {
    let prior = Record { entries: vec![entry("a.txt", 10, "H1")] };
    let remote = vec![RemoteFile { path: "a.txt".to_string(), fp: fp(10, "H1x") }];
    let plan = plan_backup(&prior, &remote);
    assert_eq!(plan.transfer, vec!["a.txt".to_string()]);
}

#[test]
fn record_lookup() {
    let record = Record { entries: vec![entry("a.txt", 10, "H1"), entry("b.txt", 20, "H2")] };
    let got = record.get(&"b.txt".to_string()).unwrap();
    assert_eq!(got.size, 20);
    assert_eq!(got.hashes, vec!["H2".to_string()]);
    assert!(record.get(&"c.txt".to_string()).is_none());
    assert_eq!(record.len(), 2);
    assert_eq!(Record::new().len(), 0);
}

#[test]
fn plan_for_host_alpha() {
    // Prior record: a.txt unchanged, b.txt later resized, c.txt not yet seen.
    let prior = Record { entries: vec![entry("a.txt", 10, "H1"), entry("b.txt", 20, "H2")] };
    let remote = vec![
        RemoteFile { path: "a.txt".to_string(), fp: fp(10, "H1") },
        RemoteFile { path: "b.txt".to_string(), fp: fp(25, "H2b") },
        RemoteFile { path: "c.txt".to_string(), fp: fp(5, "H3") },
    ];
    let plan = plan_backup(&prior, &remote);
    assert_eq!(plan.transfer, vec!["b.txt".to_string(), "c.txt".to_string()]);
    let paths: Vec<String> = plan.record.entries.iter().map(|e| e.path.clone()).collect();
    assert_eq!(
        paths,
        vec!["a.txt".to_string(), "b.txt".to_string(), "c.txt".to_string()]
    );
    assert_eq!(plan.record.entries[1].fp.size, 25);
    assert_eq!(plan.record.entries[1].fp.hashes, vec!["H2b".to_string()]);
    assert_eq!(plan.record.entries[2].fp.size, 5);
}

#[test]
fn removed_files_are_dropped_from_the_record() {
    let prior = Record { entries: vec![entry("a.txt", 10, "H1"), entry("gone.txt", 7, "HX")] };
    let remote = vec![RemoteFile { path: "a.txt".to_string(), fp: fp(10, "H1") }];
    let plan = plan_backup(&prior, &remote);
    assert_eq!(plan.record.entries.len(), 1);
    assert_eq!(plan.record.entries[0].path, "a.txt");
    assert!(plan.record.get(&"gone.txt".to_string()).is_none());
    assert!(plan.transfer.is_empty());
}

#[test]
fn failed_transfer_leaves_the_prior_record() {
    let prior = Record { entries: vec![entry("a.txt", 10, "H1")] };
    let computed = Record { entries: vec![entry("a.txt", 12, "H9")] };
    let kept = record_to_persist(&prior, &computed, false);
    assert_eq!(kept.entries.len(), 1);
    assert_eq!(kept.entries[0].path, "a.txt");
    assert_eq!(kept.entries[0].fp.size, 10);
    assert_eq!(kept.entries[0].fp.hashes, vec!["H1".to_string()]);
    let written = record_to_persist(&prior, &computed, true);
    assert_eq!(written.entries[0].fp.size, 12);
}

#[test]
fn record_path_layout() {
    let task = BackupTask {
        global_config: GlobalConfig { hosts: "hosts.yml".to_string(), log: "log".to_string() },
        host: Host {
            hostname: "alpha.example".to_string(),
            config: HostConfig {
                identifier: "alpha".to_string(),
                destination: "/backups".to_string(),
                cron_schedule: None,
            },
        },
    };
    assert_eq!(task.record_path(), "/backups/alpha/.records/record.json");
}
