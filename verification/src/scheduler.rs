//! The cron-driven scheduler: once per tick it decides which hosts are due
//! in the current minute and enqueues a backup task for each. Cron parsing
//! and next-occurrence computation come from the cron crate, behind trusted
//! wrappers; the minute-granularity firing rule itself is verified.

use vstd::prelude::*;
use vstd::string::StringExecFns;
use crate::config::{GlobalConfig, Host, Settings, duplicate_global_config, duplicate_host};
use crate::errors::Trap;
use crate::queue::TaskQueue;
use crate::task::BackupTask;

verus! {

#[verifier::external_type_specification]
#[verifier::external_body]
pub struct ExSchedule(cron::Schedule);

#[verifier::external_type_specification]
#[verifier::external_body]
pub struct ExCronError(cron::error::Error);

/// Whether the cron crate's grammar accepts an expression: a function of the
/// expression text alone.
pub uninterp spec fn cron_accepts(expr: Seq<char>) -> bool;

/// The next occurrence of a cron expression strictly after an instant: for
/// an expression the grammar accepts, a function of the expression text and
/// the instant alone.
pub uninterp spec fn next_occ_of(expr: Seq<char>, after_ts: i64) -> Option<i64>;

/// The last second of year 9999: timestamps handed to the cron search stay
/// well inside chrono's representable range, with the one-second headroom
/// the search needs.
pub const MAX_TICK_TS: i64 = 253402300799;

/// Relies on cron::Schedule::from_str: whether an expression parses depends
/// on the expression text alone.
#[verifier::external_body]
fn parse_cron(expr: &str) -> (r: Result<cron::Schedule, cron::error::Error>)
    ensures
        r is Ok <==> cron_accepts(expr@),
{
    <cron::Schedule as core::str::FromStr>::from_str(expr)
}

/// Relies on cron::Schedule::from_str and cron::Schedule::after: for an
/// accepted expression, the first occurrence is a function of the expression
/// text and the instant alone, and it lies strictly later than the instant
/// (the search starts one second after it). The timestamp bounds keep the
/// one-second step inside chrono's range.
#[verifier::external_body]
fn next_occurrence(expr: &str, after_ts: i64) -> (r: Option<i64>)
    requires
        0 <= after_ts <= MAX_TICK_TS,
    ensures
        cron_accepts(expr@) ==> r == next_occ_of(expr@, after_ts),
        !cron_accepts(expr@) ==> r is None,
        (r matches Some(t) ==> t > after_ts),
{
    let schedule = <cron::Schedule as core::str::FromStr>::from_str(expr).ok()?;
    let after = chrono::DateTime::<chrono::Utc>::from_timestamp(after_ts, 0)?;
    schedule.after(&after).next().map(|t| t.timestamp())
}

/// The daily default: midnight, every day. A host whose cron expression is
/// missing or malformed falls back to this schedule.
pub open spec fn default_cron_spec() -> Seq<char> {
    "0 0 0 * * *"@
}

/// The default daily cron expression.
pub fn default_cron() -> (r: &'static str)
    ensures
        r@ == default_cron_spec(),
{
    "0 0 0 * * *"
}

/// A host paired with its parsed cron schedule and the expression the
/// schedule was built from.
pub struct HostSchedule {
    pub host: Host,
    pub expr: String,
    pub schedule: cron::Schedule,
}

/// How one host and its schedule relate: the schedule was built from the
/// host's own cron expression when that parses, and from the daily default
/// otherwise.
pub open spec fn schedule_for(hs: HostSchedule, h: Host) -> bool {
    &&& hs.host == h
    &&& cron_accepts(hs.expr@)
    &&& (match h.config.cron_schedule {
        Some(c) => if cron_accepts(c@) {
            hs.expr@ == c@
        } else {
            hs.expr@ == default_cron_spec()
        },
        None => hs.expr@ == default_cron_spec(),
    })
}

/// The hosts that take part in scheduling: every host but the placeholder
/// named `dummy`, in configuration order.
pub open spec fn scheduled_hosts(hosts: Seq<Host>) -> Seq<Host>
    decreases hosts.len(),
{
    if hosts.len() == 0 {
        Seq::empty()
    } else {
        let pre = scheduled_hosts(hosts.drop_last());
        if hosts.last().hostname@ == "dummy"@ {
            pre
        } else {
            pre.push(hosts.last())
        }
    }
}

/// The schedule list matches the host list: one schedule per scheduled
/// host, in order, each built as `schedule_for` says.
pub open spec fn schedules_for(v: Seq<HostSchedule>, hosts: Seq<Host>) -> bool {
    &&& v.len() == scheduled_hosts(hosts).len()
    &&& forall|k: int| #![trigger v[k]] 0 <= k < v.len() ==> schedule_for(v[k], scheduled_hosts(hosts)[k])
}

/// Whether a host falls back to the daily default: it takes part in
/// scheduling but its cron expression is missing or outside the grammar.
pub open spec fn needs_fallback(h: Host) -> bool {
    &&& h.hostname@ != "dummy"@
    &&& (match h.config.cron_schedule {
        Some(c) => !cron_accepts(c@),
        None => true,
    })
}

/// The hosts that fall back to the daily default, in configuration order.
pub open spec fn fallback_hosts(hosts: Seq<Host>) -> Seq<Host>
    decreases hosts.len(),
{
    if hosts.len() == 0 {
        Seq::empty()
    } else {
        let pre = fallback_hosts(hosts.drop_last());
        if needs_fallback(hosts.last()) {
            pre.push(hosts.last())
        } else {
            pre
        }
    }
}

/// The warning a fallback host earns: `Missing` for an absent expression,
/// `InvalidInput` for one outside the grammar.
pub open spec fn warning_for(h: Host, w: Trap) -> bool {
    match h.config.cron_schedule {
        Some(_) => w is InvalidInput,
        None => w is Missing,
    }
}

fn fallback_schedule(host: Host) -> (r: Result<HostSchedule, Trap>)
    ensures
        (r matches Ok(hs) ==> hs.host == host && hs.expr@ == default_cron_spec()
            && cron_accepts(default_cron_spec())),
        r is Err ==> !cron_accepts(default_cron_spec()),
{
    match parse_cron(default_cron()) {
        Ok(s) => Ok(HostSchedule { host, expr: default_cron().to_owned(), schedule: s }),
        Err(_) => Err(Trap::InvalidInput("the default cron expression was rejected".to_owned())),
    }
}

/// Builds one schedule per non-placeholder host. A malformed cron expression
/// is reported in `warnings` and the host falls back to the daily default; a
/// missing one likewise. Only a failure to parse the default itself is an
/// error.
pub fn parse_schedules(settings: &Settings, warnings: &mut Vec<Trap>) -> (r: Result<
    Vec<HostSchedule>,
    Trap,
>)
    ensures
        (r matches Ok(v) ==> schedules_for(v@, settings.hosts@)),
        r is Err ==> !cron_accepts(default_cron_spec()),
        old(warnings)@.is_prefix_of(final(warnings)@),
        r is Ok ==> final(warnings)@.len() == old(warnings)@.len() + fallback_hosts(
            settings.hosts@,
        ).len(),
        r is Ok ==> (forall|k: int|
            #![trigger fallback_hosts(settings.hosts@)[k]]
            0 <= k < fallback_hosts(settings.hosts@).len() ==> warning_for(
                fallback_hosts(settings.hosts@)[k],
                final(warnings)@[old(warnings)@.len() + k],
            )),
{
    let dummy = "dummy".to_owned();
    let mut v: Vec<HostSchedule> = Vec::new();
    let n = settings.hosts.len();
    let mut i: usize = 0;
    while i < n
        invariant
            n == settings.hosts@.len(),
            i <= n,
            dummy@ == "dummy"@,
            schedules_for(v@, settings.hosts@.take(i as int)),
            old(warnings)@.is_prefix_of(warnings@),
            warnings@.len() == old(warnings)@.len() + fallback_hosts(
                settings.hosts@.take(i as int),
            ).len(),
            forall|k: int|
                #![trigger fallback_hosts(settings.hosts@.take(i as int))[k]]
                0 <= k < fallback_hosts(settings.hosts@.take(i as int)).len() ==> warning_for(
                    fallback_hosts(settings.hosts@.take(i as int))[k],
                    warnings@[old(warnings)@.len() + k],
                ),
        decreases n - i,
    {
        let ghost pre_v = v@;
        let ghost pre_warnings = warnings@;
        let host = &settings.hosts[i];
        let skip = host.hostname.eq(&dummy);
        if !skip {
            let hs_result: Result<HostSchedule, Trap> = match &host.config.cron_schedule {
                Some(c) => {
                    match parse_cron(c.as_str()) {
                        Ok(s) => Ok(
                            HostSchedule {
                                host: duplicate_host(host),
                                expr: c.clone(),
                                schedule: s,
                            },
                        ),
                        Err(_) => {
                            warnings.push(
                                Trap::InvalidInput(
                                    "invalid cron expression for host `".to_owned().concat(
                                        host.hostname.as_str(),
                                    ).concat("`: falling back to the daily default"),
                                ),
                            );
                            fallback_schedule(duplicate_host(host))
                        },
                    }
                },
                None => {
                    warnings.push(
                        Trap::Missing(
                            "missing cron expression for host `".to_owned().concat(
                                host.hostname.as_str(),
                            ).concat("`: falling back to the daily default"),
                        ),
                    );
                    fallback_schedule(duplicate_host(host))
                },
            };
            match hs_result {
                Ok(hs) => {
                    v.push(hs);
                },
                Err(t) => {
                    return Err(t);
                },
            }
        }
        proof {
            assert(settings.hosts@.take(i + 1 as int).drop_last() =~= settings.hosts@.take(
                i as int,
            ));
            assert(settings.hosts@.take(i + 1 as int).last() == settings.hosts@[i as int]);
            assert(pre_warnings.is_prefix_of(warnings@));
            assert forall|k: int| 0 <= k < fallback_hosts(settings.hosts@.take(i + 1 as int)).len()
                implies warning_for(
                #[trigger] fallback_hosts(settings.hosts@.take(i + 1 as int))[k],
                warnings@[old(warnings)@.len() + k],
            ) by {
                let fh_pre = fallback_hosts(settings.hosts@.take(i as int));
                if k < fh_pre.len() {
                    assert(fallback_hosts(settings.hosts@.take(i + 1 as int))[k] == fh_pre[k]);
                    assert(warnings@[old(warnings)@.len() + k] == pre_warnings[old(warnings)@.len()
                        + k]);
                } else {
                    assert(fallback_hosts(settings.hosts@.take(i + 1 as int))[k]
                        == settings.hosts@[i as int]);
                    assert(warnings@[old(warnings)@.len() + k] == warnings@.last());
                }
            }
            assert forall|k: int| 0 <= k < v@.len() implies schedule_for(
                #[trigger] v@[k],
                scheduled_hosts(settings.hosts@.take(i + 1 as int))[k],
            ) by {
                if k < pre_v.len() {
                    assert(v@[k] == pre_v[k]);
                    assert(scheduled_hosts(settings.hosts@.take(i + 1 as int))[k]
                        == scheduled_hosts(settings.hosts@.take(i as int))[k]);
                }
            }
        }
        i = i + 1;
    }
    proof {
        assert(settings.hosts@.take(n as int) =~= settings.hosts@);
    }
    Ok(v)
}

/// The minute a timestamp falls in.
pub open spec fn minute_of(t: i64) -> int {
    t as int / 60
}

/// The minute-granularity firing rule: a schedule is due at `now_ts` when
/// its next occurrence strictly after "now minus one tick" falls in the
/// same minute as `now_ts`.
pub open spec fn due_at(expr: Seq<char>, now_ts: i64) -> bool {
    match next_occ_of(expr, (now_ts - 60) as i64) {
        Some(t) => minute_of(t) == minute_of(now_ts),
        None => false,
    }
}

/// The index of the minute a non-negative timestamp falls in.
pub fn minute_index(t: i64) -> (r: u64)
    requires
        0 <= t,
    ensures
        r as int == minute_of(t),
{
    (t as u64) / 60
}

/// Truncates both timestamps to minute resolution and compares: the
/// minute-granularity equality the scheduler fires on.
pub fn minutes_match(a: i64, b: i64) -> (r: bool)
    requires
        0 <= a,
        0 <= b,
    ensures
        r == (minute_of(a) == minute_of(b)),
{
    minute_index(a) == minute_index(b)
}

/// The scheduler: the schedules known at startup, the queue of due work,
/// and, per schedule, the last minute it fired in.
pub struct BackupScheduler {
    pub global_config: GlobalConfig,
    pub settings: Settings,
    pub schedules: Vec<HostSchedule>,
    pub queue: TaskQueue<BackupTask>,
    pub fired: Vec<Option<u64>>,
}

/// What one due-check does to the scheduler: nothing but the one schedule's
/// fired-minute mark moves, it is set exactly when the check reports due,
/// and the check never reports due for a minute already marked.
pub open spec fn due_step(
    pre: BackupScheduler,
    post: BackupScheduler,
    idx: int,
    now_ts: i64,
    due: bool,
) -> bool {
    &&& post.schedules == pre.schedules
    &&& post.global_config == pre.global_config
    &&& post.settings == pre.settings
    &&& post.queue_model() == pre.queue_model()
    &&& post.fired_model().len() == pre.fired_model().len()
    &&& (forall|j: int| 0 <= j < pre.fired_model().len() && j != idx
        ==> post.fired_model()[j] == pre.fired_model()[j])
    &&& (due ==> post.fired_model()[idx] == Some(minute_of(now_ts) as u64)
        && pre.fired_model()[idx] != Some(minute_of(now_ts) as u64))
    &&& (!due ==> post.fired_model()[idx] == pre.fired_model()[idx])
    &&& (cron_accepts(pre.schedules@[idx].expr@) ==> due == (pre.fired_model()[idx] != Some(
        minute_of(now_ts) as u64,
    ) && due_at(pre.schedules@[idx].expr@, now_ts)))
    &&& (!cron_accepts(pre.schedules@[idx].expr@) ==> !due)
}

/// A task some schedule of the list accounts for, under the given global
/// configuration.
pub open spec fn task_for_some_host(t: BackupTask, s: Seq<HostSchedule>, gc: GlobalConfig) -> bool {
    &&& t.global_config == gc
    &&& exists|j: int| 0 <= j < s.len() && t.host == s[j].host
}

/// Every schedule's expression is within the cron grammar — true of every
/// schedule list `parse_schedules` builds.
pub open spec fn all_accepted(s: Seq<HostSchedule>) -> bool {
    forall|j: int| #![trigger s[j]] 0 <= j < s.len() ==> cron_accepts(s[j].expr@)
}

/// Whether the schedule at index `j` fires during a tick at `now_ts`: its
/// firing rule holds and its minute is not yet marked.
pub open spec fn fires_at(s: BackupScheduler, j: int, now_ts: i64) -> bool {
    &&& s.fired_model()[j] != Some(minute_of(now_ts) as u64)
    &&& due_at(s.schedules@[j].expr@, now_ts)
}

/// The tasks one tick at `now_ts` appends: one per firing schedule among
/// the first `upto`, in schedule order.
pub open spec fn due_tasks(s: BackupScheduler, now_ts: i64, upto: int) -> Seq<BackupTask>
    decreases upto,
{
    if upto <= 0 {
        Seq::empty()
    } else {
        let pre = due_tasks(s, now_ts, upto - 1);
        if fires_at(s, upto - 1, now_ts) {
            pre.push(
                BackupTask { global_config: s.global_config, host: s.schedules@[upto - 1].host },
            )
        } else {
            pre
        }
    }
}

impl BackupScheduler {
    /// The fired-minute marks track the schedules one to one.
    pub open spec fn wf(self) -> bool {
        self.fired@.len() == self.schedules@.len()
    }

    /// The pending tasks, head first.
    pub open spec fn queue_model(self) -> Seq<BackupTask> {
        self.queue@
    }

    /// The per-schedule mark of the last minute each schedule fired in.
    pub open spec fn fired_model(self) -> Seq<Option<u64>> {
        self.fired@
    }

    /// A scheduler over the given schedules, with an empty queue and no
    /// minute fired yet.
    pub fn from(global_config: GlobalConfig, settings: Settings, schedules: Vec<HostSchedule>) -> (r:
        Self)
        ensures
            r.wf(),
            r.global_config == global_config,
            r.settings == settings,
            r.schedules == schedules,
            r.queue_model().len() == 0,
            forall|j: int| 0 <= j < r.fired_model().len() ==> r.fired_model()[j] is None,
    {
        let n = schedules.len();
        let mut fired: Vec<Option<u64>> = Vec::new();
        while fired.len() < n
            invariant
                fired@.len() <= n,
                forall|j: int| 0 <= j < fired@.len() ==> fired@[j] is None,
            decreases n - fired@.len(),
        {
            fired.push(None);
        }
        BackupScheduler { global_config, settings, schedules, queue: TaskQueue::new(), fired }
    }

    /// Whether the host's schedule is due right now: its next occurrence
    /// strictly after "now minus one tick", truncated to minute resolution,
    /// equals "now" truncated the same way.
    pub fn should_run(&self, now_ts: i64, host_schedule: &HostSchedule) -> (r: bool)
        requires
            60 <= now_ts <= MAX_TICK_TS,
        ensures
            cron_accepts(host_schedule.expr@) ==> r == due_at(host_schedule.expr@, now_ts),
            !cron_accepts(host_schedule.expr@) ==> r == false,
    {
        let base = now_ts - 60;
        match next_occurrence(host_schedule.expr.as_str(), base) {
            Some(t) => minutes_match(now_ts, t),
            None => false,
        }
    }

    /// One due-check for one schedule: reports due exactly when the minute
    /// is not yet marked and the schedule's firing rule holds, marking the
    /// minute it fires in — so it fires at most once within any minute.
    pub fn due_check(&mut self, idx: usize, now_ts: i64) -> (due: bool)
        requires
            old(self).wf(),
            idx < old(self).schedules@.len(),
            60 <= now_ts <= MAX_TICK_TS,
        ensures
            final(self).wf(),
            due_step(*old(self), *final(self), idx as int, now_ts, due),
    {
        let minute = minute_index(now_ts);
        let already = match self.fired[idx] {
            Some(m) => m == minute,
            None => false,
        };
        if already {
            return false;
        }
        let due = self.should_run(now_ts, &self.schedules[idx]);
        if due {
            self.fired.set(idx, Some(minute));
        }
        due
    }

    /// One scheduler tick: runs the due-check for every schedule in order
    /// and enqueues exactly one backup task per firing schedule, none for
    /// the rest. Pending tasks are never dropped or reordered.
    pub fn tick(&mut self, now_ts: i64)
        requires
            old(self).wf(),
            60 <= now_ts <= MAX_TICK_TS,
        ensures
            all_accepted(old(self).schedules@) ==> final(self).queue_model()
                == old(self).queue_model() + due_tasks(
                *old(self),
                now_ts,
                old(self).schedules@.len() as int,
            ),
            all_accepted(old(self).schedules@) ==> (forall|j: int|
                #![trigger final(self).fired_model()[j]]
                0 <= j < old(self).schedules@.len() ==> final(self).fired_model()[j] == (
                if fires_at(*old(self), j, now_ts) {
                    Some(minute_of(now_ts) as u64)
                } else {
                    old(self).fired_model()[j]
                })),
            final(self).wf(),
            final(self).schedules == old(self).schedules,
            final(self).global_config == old(self).global_config,
            final(self).settings == old(self).settings,
            old(self).queue_model().is_prefix_of(final(self).queue_model()),
            final(self).queue_model().len() <= old(self).queue_model().len()
                + old(self).schedules@.len(),
            forall|k: int| #![trigger final(self).queue_model()[k]]
                old(self).queue_model().len() <= k < final(self).queue_model().len()
                    ==> task_for_some_host(
                    final(self).queue_model()[k],
                    old(self).schedules@,
                    old(self).global_config,
                ),
            forall|j: int| #![trigger final(self).fired_model()[j]]
                0 <= j < old(self).fired_model().len()
                    ==> final(self).fired_model()[j] == old(self).fired_model()[j]
                    || final(self).fired_model()[j] == Some(minute_of(now_ts) as u64),
            forall|j: int| #![trigger final(self).fired_model()[j]]
                0 <= j < old(self).fired_model().len()
                    && old(self).fired_model()[j] == Some(minute_of(now_ts) as u64)
                    ==> final(self).fired_model()[j] == old(self).fired_model()[j],
    {
        let n = self.schedules.len();
        let mut idx: usize = 0;
        while idx < n
            invariant
                self.wf(),
                n == self.schedules@.len(),
                idx <= n,
                60 <= now_ts <= MAX_TICK_TS,
                forall|j: int| #![trigger self.fired_model()[j]]
                    idx <= j < old(self).fired_model().len()
                        ==> self.fired_model()[j] == old(self).fired_model()[j],
                all_accepted(old(self).schedules@) ==> self.queue_model() == old(
                    self,
                ).queue_model() + due_tasks(*old(self), now_ts, idx as int),
                all_accepted(old(self).schedules@) ==> (forall|j: int|
                    #![trigger self.fired_model()[j]]
                    0 <= j < idx ==> self.fired_model()[j] == (
                    if fires_at(*old(self), j, now_ts) {
                        Some(minute_of(now_ts) as u64)
                    } else {
                        old(self).fired_model()[j]
                    })),
                self.schedules == old(self).schedules,
                self.global_config == old(self).global_config,
                self.settings == old(self).settings,
                old(self).queue_model().is_prefix_of(self.queue_model()),
                self.queue_model().len() <= old(self).queue_model().len() + idx,
                forall|k: int| #![trigger self.queue_model()[k]]
                    old(self).queue_model().len() <= k < self.queue_model().len()
                        ==> task_for_some_host(
                        self.queue_model()[k],
                        old(self).schedules@,
                        old(self).global_config,
                    ),
                self.fired_model().len() == old(self).fired_model().len(),
                forall|j: int| #![trigger self.fired_model()[j]]
                    0 <= j < old(self).fired_model().len()
                        ==> self.fired_model()[j] == old(self).fired_model()[j]
                        || self.fired_model()[j] == Some(minute_of(now_ts) as u64),
                forall|j: int| #![trigger self.fired_model()[j]]
                    0 <= j < old(self).fired_model().len()
                        && old(self).fired_model()[j] == Some(minute_of(now_ts) as u64)
                        ==> self.fired_model()[j] == old(self).fired_model()[j],
            decreases n - idx,
        {
            let ghost pre_queue = self.queue_model();
            let ghost pre_self = *self;
            let due = self.due_check(idx, now_ts);
            if due {
                let task = BackupTask {
                    global_config: duplicate_global_config(&self.global_config),
                    host: duplicate_host(&self.schedules[idx].host),
                };
                self.queue.pushb(task);
            }
            proof {
                assert forall|k: int|
                    old(self).queue_model().len() <= k < self.queue_model().len() implies
                    task_for_some_host(
                        #[trigger] self.queue_model()[k],
                        old(self).schedules@,
                        old(self).global_config,
                    ) by {
                    if k < pre_queue.len() {
                        assert(self.queue_model()[k] == pre_queue[k]);
                    } else {
                        assert(self.queue_model()[k].host == self.schedules@[idx as int].host);
                    }
                }
                if all_accepted(old(self).schedules@) {
                    assert(old(self).schedules@[idx as int] == pre_self.schedules@[idx as int]);
                    assert(cron_accepts(pre_self.schedules@[idx as int].expr@));
                    assert(pre_self.fired_model()[idx as int] == old(self).fired_model()[
                        idx as int
                    ]);
                    assert(due == fires_at(*old(self), idx as int, now_ts));
                    if due {
                        assert(self.queue_model() =~= old(self).queue_model() + due_tasks(
                            *old(self),
                            now_ts,
                            idx + 1 as int,
                        ));
                    } else {
                        assert(self.queue_model() =~= old(self).queue_model() + due_tasks(
                            *old(self),
                            now_ts,
                            idx + 1 as int,
                        ));
                    }
                    assert forall|j: int| 0 <= j < idx + 1 implies #[trigger] self.fired_model()[j]
                        == (if fires_at(*old(self), j, now_ts) {
                        Some(minute_of(now_ts) as u64)
                    } else {
                        old(self).fired_model()[j]
                    }) by {
                        if j == idx as int {
                            assert(self.fired_model()[j] == (if due {
                                Some(minute_of(now_ts) as u64)
                            } else {
                                pre_self.fired_model()[j]
                            }));
                        }
                    }
                }
            }
            idx = idx + 1;
        }
    }

    /// Dequeues the next pending task, if any; everything else is left as it
    /// was.
    pub fn pop_task(&mut self) -> (r: Option<BackupTask>)
        ensures
            final(self).schedules == old(self).schedules,
            final(self).global_config == old(self).global_config,
            final(self).settings == old(self).settings,
            final(self).fired_model() == old(self).fired_model(),
            (match r {
                Some(t) => old(self).queue_model().len() > 0 && t == old(self).queue_model()[0]
                    && final(self).queue_model() == old(self).queue_model().subrange(
                    1,
                    old(self).queue_model().len() as int,
                ),
                None => old(self).queue_model().len() == 0
                    && final(self).queue_model() == old(self).queue_model(),
            }),
    {
        self.queue.popf()
    }

    /// Re-enqueues a task at the tail; everything else is left as it was.
    pub fn push_task(&mut self, t: BackupTask)
        ensures
            final(self).schedules == old(self).schedules,
            final(self).global_config == old(self).global_config,
            final(self).settings == old(self).settings,
            final(self).fired_model() == old(self).fired_model(),
            final(self).queue_model() == old(self).queue_model().push(t),
    {
        self.queue.pushb(t);
    }

    /// Number of pending tasks.
    pub fn queue_len(&self) -> (r: usize)
        ensures
            r == self.queue_model().len(),
    {
        self.queue.len()
    }
}

/// Within one minute, the due-check for one schedule reports due at most
/// once, however often it is run: once it has fired, every later check in
/// the same minute sees the mark and declines.
pub proof fn lemma_due_at_most_once_in_minute(
    s0: BackupScheduler,
    s1: BackupScheduler,
    s2: BackupScheduler,
    idx: int,
    t1: i64,
    t2: i64,
    d1: bool,
    d2: bool,
)
    requires
        0 <= idx < s0.fired_model().len(),
        due_step(s0, s1, idx, t1, d1),
        due_step(s1, s2, idx, t2, d2),
        minute_of(t1) == minute_of(t2),
    ensures
        !(d1 && d2),
{
    if d1 && d2 {
        assert(s1.fired_model()[idx] == Some(minute_of(t1) as u64));
        assert(s1.fired_model()[idx] != Some(minute_of(t2) as u64));
    }
}

} // verus!
