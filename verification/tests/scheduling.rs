use std::str::FromStr;

use rensen::config::{GlobalConfig, Host, HostConfig, Settings};
use rensen::errors::Trap;
use rensen::scheduler::{
    default_cron, minutes_match, parse_schedules, BackupScheduler,
};

fn host(hostname: &str, cron: Option<&str>) -> Host {
    Host {
        hostname: hostname.to_string(),
        config: HostConfig {
            identifier: hostname.to_string(),
            destination: "/backups".to_string(),
            cron_schedule: cron.map(|c| c.to_string()),
        },
    }
}

fn gc() -> GlobalConfig {
    GlobalConfig { hosts: "hosts.yml".to_string(), log: "log".to_string() }
}

// 2024-01-01T00:00:00Z.
const MIDNIGHT: i64 = 1704067200;

#[test]
fn test_cron() {
    let cron_str = "* 0 0 * * *";
    let _schedule = cron::Schedule::from_str(cron_str).unwrap();
}

#[test]
fn parse_keeps_a_valid_expression() {
    let settings = Settings { hosts: vec![host("alpha", Some("0 0 0 * * *"))] };
    let mut warnings: Vec<Trap> = Vec::new();
    let schedules = parse_schedules(&settings, &mut warnings).unwrap();
    assert_eq!(schedules.len(), 1);
    assert_eq!(schedules[0].expr, "0 0 0 * * *");
    assert_eq!(schedules[0].host.hostname, "alpha");
    assert!(warnings.is_empty());
}

#[test]
fn parse_falls_back_on_a_malformed_expression() {
    let settings = Settings { hosts: vec![host("alpha", Some("not a cron line"))] };
    let mut warnings: Vec<Trap> = Vec::new();
    let schedules = parse_schedules(&settings, &mut warnings).unwrap();
    assert_eq!(schedules.len(), 1);
    assert_eq!(schedules[0].expr, default_cron());
    assert_eq!(warnings.len(), 1);
    assert!(matches!(warnings[0], Trap::InvalidInput(_)));
}

#[test]
fn parse_falls_back_on_a_missing_expression() {
    let settings = Settings { hosts: vec![host("alpha", None)] };
    let mut warnings: Vec<Trap> = Vec::new();
    let schedules = parse_schedules(&settings, &mut warnings).unwrap();
    assert_eq!(schedules.len(), 1);
    assert_eq!(schedules[0].expr, default_cron());
    assert_eq!(warnings.len(), 1);
    assert!(matches!(warnings[0], Trap::Missing(_)));
}

#[test]
fn parse_skips_the_placeholder_host() {
    let settings = Settings {
        hosts: vec![host("dummy", None), host("beta", Some("0 0 0 * * *"))],
    };
    let mut warnings: Vec<Trap> = Vec::new();
    let schedules = parse_schedules(&settings, &mut warnings).unwrap();
    assert_eq!(schedules.len(), 1);
    assert_eq!(schedules[0].host.hostname, "beta");
    assert!(warnings.is_empty());
}

#[test]
fn minute_truncation() {
    assert!(minutes_match(MIDNIGHT + 7, MIDNIGHT));
    assert!(minutes_match(MIDNIGHT + 59, MIDNIGHT));
    assert!(!minutes_match(MIDNIGHT + 60, MIDNIGHT));
    assert!(!minutes_match(MIDNIGHT - 1, MIDNIGHT));
}

#[test]
fn midnight_daily_is_due_just_after_midnight() {
    // Cron "0 0 * * *" means midnight daily; the five-field form is not in
    // the cron crate's grammar, so it falls back to the daily default —
    // midnight daily either way. Checked at 00:00:07, truncation to minute
    // resolution makes the host due.
    let settings = Settings { hosts: vec![host("alpha", Some("0 0 * * *"))] };
    let mut warnings: Vec<Trap> = Vec::new();
    let schedules = parse_schedules(&settings, &mut warnings).unwrap();
    let settings2 = Settings { hosts: vec![host("alpha", Some("0 0 * * *"))] };
    let scheduler = BackupScheduler::from(gc(), settings2, schedules);
    assert!(scheduler.should_run(MIDNIGHT + 7, &scheduler.schedules[0]));
    assert!(!scheduler.should_run(MIDNIGHT + 67, &scheduler.schedules[0]));
}

#[test]
fn due_check_fires_at_most_once_per_minute() {
    let settings = Settings { hosts: vec![host("alpha", Some("0 0 0 * * *"))] };
    let mut warnings: Vec<Trap> = Vec::new();
    let schedules = parse_schedules(&settings, &mut warnings).unwrap();
    let settings2 = Settings { hosts: vec![host("alpha", Some("0 0 0 * * *"))] };
    let mut scheduler = BackupScheduler::from(gc(), settings2, schedules);
    assert!(scheduler.due_check(0, MIDNIGHT + 7));
    assert!(!scheduler.due_check(0, MIDNIGHT + 37));
    assert!(!scheduler.due_check(0, MIDNIGHT + 59));
}

#[test]
fn tick_enqueues_each_due_host_once() {
    let settings = Settings { hosts: vec![host("alpha", Some("0 0 0 * * *"))] };
    let mut warnings: Vec<Trap> = Vec::new();
    let schedules = parse_schedules(&settings, &mut warnings).unwrap();
    let settings2 = Settings { hosts: vec![host("alpha", Some("0 0 0 * * *"))] };
    let mut scheduler = BackupScheduler::from(gc(), settings2, schedules);
    scheduler.tick(MIDNIGHT + 7);
    assert_eq!(scheduler.queue_len(), 1);
    scheduler.tick(MIDNIGHT + 37);
    assert_eq!(scheduler.queue_len(), 1);
    scheduler.tick(MIDNIGHT + 67);
    assert_eq!(scheduler.queue_len(), 1);
    let task = scheduler.pop_task().unwrap();
    assert_eq!(task.host.hostname, "alpha");
}

#[test]
fn trap_kinds_are_named() {
    assert_eq!(Trap::FS("x".to_string()).kind_name(), "FS");
    assert_eq!(Trap::InvalidInput("x".to_string()).kind_name(), "InvalidInput");
    assert_eq!(Trap::Missing("x".to_string()).kind_name(), "Missing");
    assert_eq!(Trap::Scheduler("x".to_string()).kind_name(), "Scheduler");
    assert_eq!(Trap::FS("broke".to_string()).message(), "broke");
}
