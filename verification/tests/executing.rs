use rensen::config::{GlobalConfig, Host, HostConfig, Settings};
use rensen::executor::Executor;
use rensen::queue::TaskQueue;
use rensen::scheduler::BackupScheduler;
use rensen::task::BackupTask;

fn task(name: &str) -> BackupTask {
    BackupTask {
        global_config: GlobalConfig { hosts: "hosts.yml".to_string(), log: "log".to_string() },
        host: Host {
            hostname: name.to_string(),
            config: HostConfig {
                identifier: name.to_string(),
                destination: "/backups".to_string(),
                cron_schedule: None,
            },
        },
    }
}

fn empty_scheduler() -> BackupScheduler {
    BackupScheduler::from(
        GlobalConfig { hosts: "hosts.yml".to_string(), log: "log".to_string() },
        Settings { hosts: vec![] },
        vec![],
    )
}

#[test]
fn queue_is_fifo() {
    let mut q: TaskQueue<u32> = TaskQueue::new();
    assert!(q.is_empty());
    assert!(q.popf().is_none());
    q.pushb(1);
    q.pushb(2);
    q.pushb(3);
    assert_eq!(q.len(), 3);
    assert_eq!(q.peek(), Some(&1));
    assert_eq!(q.popf(), Some(1));
    assert_eq!(q.popf(), Some(2));
    assert_eq!(q.popf(), Some(3));
    assert!(q.popf().is_none());
}

#[test]
fn executor_tracks_running_hosts() {
    let mut ex = Executor::new();
    let h1 = "h1".to_string();
    assert!(!ex.is_running(&h1));
    assert!(ex.try_acquire(&h1));
    assert!(ex.is_running(&h1));
    assert!(!ex.try_acquire(&h1));
    ex.release(&h1);
    assert!(!ex.is_running(&h1));
    assert!(ex.try_acquire(&h1));
}

#[test]
fn duplicate_enqueues_pop_in_order_without_overlap() {
    // Queue [h1, h2, h1]: pops h1 then h2; the second h1 may not start
    // until the first finishes.
    let mut scheduler = empty_scheduler();
    scheduler.push_task(task("h1"));
    scheduler.push_task(task("h2"));
    scheduler.push_task(task("h1"));
    let mut ex = Executor::new();

    let t1 = ex.dispatch_next(&mut scheduler).unwrap();
    assert_eq!(t1.host.hostname, "h1");
    let t2 = ex.dispatch_next(&mut scheduler).unwrap();
    assert_eq!(t2.host.hostname, "h2");

    // The first h1 backup is still in flight: its duplicate is re-enqueued,
    // not dispatched.
    assert!(ex.dispatch_next(&mut scheduler).is_none());
    assert_eq!(scheduler.queue_len(), 1);

    ex.release(&t1.host.config.identifier);
    let t3 = ex.dispatch_next(&mut scheduler).unwrap();
    assert_eq!(t3.host.hostname, "h1");
    assert_eq!(scheduler.queue_len(), 0);
}

#[test]
fn dispatch_on_an_empty_queue_is_idle() {
    let mut scheduler = empty_scheduler();
    let mut ex = Executor::new();
    assert!(ex.dispatch_next(&mut scheduler).is_none());
}
