//! The regular report to the master.

use vstd::arithmetic::power::pow;
use vstd::prelude::*;
use vstd::string::*;

use crate::clock::present;
use crate::clock::read_millis;
use crate::clock::shows;
use crate::clock::shows_millis;
use crate::clock::was_present;
use crate::clock::Duration;
use crate::clock::NANOS_PER_MILLI;
use crate::config::settings::GoosefsConfig;
use crate::io::write_strategy::draw_uuid;
use crate::io::write_strategy::uuid_halves;
use crate::io::write_strategy::was_drawn;
use crate::metrics::batch::batch_goes_out;
use crate::metrics::batch::HeartbeatQueue;
use crate::metrics::registry::Registry;
use crate::metrics::reporter::is_snapshot;
use crate::metrics::reporter::ClientMetricsReporter;
use crate::metrics::task::TaskControl;
use crate::metrics::task::HEARTBEAT_SHUTDOWN_SECS;
use crate::metrics::task::WARN_WINDOW_SECS;
use crate::proto::metric_views;
use crate::proto::ClientMetrics;
use crate::proto::MetricView;
use crate::text::chars_of;

verus! {

/// Lets through at most one log line per window of time.
#[derive(Debug)]
pub struct LogSampler {
    /// When the time starts to count.
    epoch: std::time::Instant,
    /// When the last line was let through, or `-1`.
    last_emitted_millis: i64,
    /// Length of the window.
    window_millis: i64,
}

impl LogSampler {
    /// When the last line was let through, in milliseconds, or `-1`.
    pub closed spec fn last(&self) -> i64 {
        self.last_emitted_millis
    }

    /// When the sampler was made.
    pub closed spec fn started(&self) -> std::time::Instant {
        self.epoch
    }

    /// Length of the window in milliseconds.
    pub closed spec fn window(&self) -> i64 {
        self.window_millis
    }

    /// Tells whether a line is let through at `now`: the first one is, and then one
    /// that comes a window or more after the last.
    pub open spec fn lets_through(&self, now: int) -> bool {
        self.last() < 0 || now - self.last() >= self.window()
    }

    /// A sampler that has not let a line through yet.
    pub fn new(window: Duration) -> (r: Self)
        ensures
            r.last() == -1,
            r.window() == (window.nanos / NANOS_PER_MILLI) as i64,
            was_present(r.started()),
    {
        LogSampler {
            epoch: present(),
            last_emitted_millis: -1,
            window_millis: window.as_millis() as i64,
        }
    }

    /// Tells whether a line is let through when the sampler is `now` milliseconds
    /// old, and starts a new window if it is.
    pub fn should_log_at(&mut self, now: i64) -> (r: bool)
        requires
            now >= 0,
        ensures
            r == old(self).lets_through(now as int),
            final(self).window() == old(self).window(),
            final(self).started() == old(self).started(),
            final(self).last() == (if r {
                now
            } else {
                old(self).last()
            }),
    {
        if self.last_emitted_millis < 0 || now - self.last_emitted_millis >= self.window_millis {
            self.last_emitted_millis = now;
            true
        } else {
            false
        }
    }

    /// How old the sampler is, in milliseconds. The clock decides.
    fn age(&self) -> (r: i64)
        ensures
            r >= 0,
            shows_millis(self.started(), r),
    {
        read_millis(&self.epoch)
    }

    /// Tells whether a line is let through now, and starts a new window if it is.
    pub fn should_log(&mut self) -> (r: bool)
        ensures
            exists|now: i64|
                now >= 0 && shows_millis(old(self).started(), now) && r == #[trigger] old(
                    self,
                ).lets_through(now as int) && final(self).last() == (if r {
                    now
                } else {
                    old(self).last()
                }),
            final(self).window() == old(self).window(),
            final(self).started() == old(self).started(),
    {
        let now: i64 = self.age();
        self.should_log_at(now)
    }
}

/// Two lines that are let through one after the other are a window or more apart.
pub proof fn law_lines_are_a_window_apart(sampler: LogSampler, later: LogSampler, now: int)
    requires
        sampler.last() >= 0,
        later.last() == sampler.last(),
        later.window() == sampler.window(),
        later.lets_through(now),
    ensures
        now - sampler.last() >= sampler.window(),
{
}

/// `hostname::get`, as text: the name of the machine, of which nothing is promised.
/// There is none if it cannot be had, or is not text.
#[verifier::external_body]
fn machine_name() -> Option<String> {
    hostname::get().ok()?.into_string().ok()
}

/// Whether `name` is what the machine gave as its name.
pub closed spec fn is_machine_name(name: Option<String>) -> bool {
    call_ensures(machine_name, (), name)
}

/// The name of the machine.
fn ask_machine_name() -> (r: Option<String>)
    ensures
        is_machine_name(r),
{
    machine_name()
}

/// The hexadecimal digit of value `n`, in lower case.
pub open spec fn hex_digit(n: int) -> char {
    if n < 10 {
        ('0' as int + n) as char
    } else {
        ('a' as int + n - 10) as char
    }
}

/// The last `count` hexadecimal digits of `n`.
pub open spec fn hex(n: int, count: nat) -> Seq<char> {
    Seq::new(count, |i: int| hex_digit(n / pow(16, (count - 1 - i) as nat) % 16))
}

/// The text of the identifier with the given halves: its digits in five groups.
pub open spec fn uuid_text(halves: (u64, u64)) -> Seq<char> {
    let (high, low) = (halves.0 as int, halves.1 as int);
    hex(high / 0x1_0000_0000, 8) + "-"@ + hex(high / 0x1_0000, 4) + "-"@ + hex(high, 4) + "-"@
        + hex(low / 0x1_0000_0000_0000, 4) + "-"@ + hex(low, 12)
}

/// The `Display` of `uuid::Uuid`: the hyphenated text of the identifier.
#[verifier::external_body]
fn text_of_uuid(id: &uuid::Uuid) -> (r: String)
    ensures
        r@ == uuid_text(uuid_halves(*id)),
{
    id.to_string()
}

/// What stands before the random part of a made-up application name.
pub const APP_ID_PREFIX: &'static str = "goosefs-rust-";

/// How many characters of an identifier a made-up application name takes.
pub const APP_ID_DIGITS: usize = 8;

/// The name that is made up from the text of an identifier.
pub fn generated_app_id(id: &str) -> (r: String)
    requires
        id@.len() >= APP_ID_DIGITS,
    ensures
        r@ == APP_ID_PREFIX@ + id@.take(APP_ID_DIGITS as int),
{
    let chars = chars_of(id);
    let mut out = APP_ID_PREFIX.to_owned();
    let mut i: usize = 0;
    proof {
        assert(APP_ID_PREFIX@ + id@.take(0) =~= APP_ID_PREFIX@);
    }
    while i < APP_ID_DIGITS
        invariant
            i <= APP_ID_DIGITS,
            chars@ == id@,
            id@.len() >= APP_ID_DIGITS,
            out@ == APP_ID_PREFIX@ + id@.take(i as int),
        decreases APP_ID_DIGITS - i,
    {
        out.push(chars[i]);
        i += 1;
        assert(APP_ID_PREFIX@ + id@.take(i as int) =~= (APP_ID_PREFIX@ + id@.take(i - 1)).push(
            id@[i - 1],
        ));
    }
    out
}

/// The name that is made up from an identifier.
pub fn app_id_from_uuid(id: &uuid::Uuid) -> (r: String)
    ensures
        r@ == APP_ID_PREFIX@ + uuid_text(uuid_halves(*id)).take(APP_ID_DIGITS as int),
{
    generated_app_id(&text_of_uuid(id))
}

/// The name in `text`, if there is one and it is not empty.
pub fn given_name(text: Option<String>) -> (r: Option<String>)
    ensures
        r == (match text {
            Some(s) if s@.len() > 0 => text,
            _ => None,
        }),
{
    match text {
        Some(s) => if s.as_str().is_empty() {
            None
        } else {
            Some(s)
        },
        None => None,
    }
}

/// The name under which a client reports that has the given name in its configuration
/// and runs on a machine of the given name; `id` is the text of an identifier that no
/// other client has.
pub open spec fn app_id_of(configured: Option<String>, machine: Option<String>, id: Seq<char>) -> Seq<
    char,
> {
    match (configured, machine) {
        (Some(name), _) if name@.len() > 0 => name@,
        (_, Some(name)) if name@.len() > 0 => name@,
        _ => APP_ID_PREFIX@ + id.take(APP_ID_DIGITS as int),
    }
}

/// Whether there is a name, and it is not empty.
pub open spec fn is_named(text: Option<String>) -> bool {
    text matches Some(s) && s@.len() > 0
}

/// The name under which a client reports: the configured one, else the name of the
/// machine, else one that is made up from the text of an identifier. An empty name
/// counts as none.
pub fn app_id_from(configured: Option<String>, machine: Option<String>, id: &str) -> (r: String)
    requires
        is_named(configured) || is_named(machine) || id@.len() >= APP_ID_DIGITS,
    ensures
        r@ == app_id_of(configured, machine, id@),
{
    if let Some(name) = given_name(configured) {
        return name;
    }
    if let Some(name) = given_name(machine) {
        return name;
    }
    generated_app_id(id)
}

/// The name under which the client reports; see [`app_id_from`]. The machine is asked
/// for its name if none is configured, and the identifier, which is random, is made if
/// the machine has none either.
pub fn resolve_app_id(config: &GoosefsConfig) -> (r: String)
    ensures
        exists|machine: Option<String>, halves: (u64, u64)|
            r@ == #[trigger] app_id_of(config.app_id, machine, uuid_text(halves)),
        !is_named(config.app_id) ==> exists|machine: Option<String>| #[trigger]
            is_machine_name(machine) && if is_named(machine) {
                r@ == machine->0@
            } else {
                exists|id: uuid::Uuid| #[trigger]
                    was_drawn(id) && r@ == APP_ID_PREFIX@ + uuid_text(uuid_halves(id)).take(
                        APP_ID_DIGITS as int,
                    )
            },
        r@.len() > 0,
        match config.app_id {
            Some(id) if id@.len() > 0 => r@ == id@,
            _ => true,
        },
{
    proof {
        reveal_strlit("goosefs-rust-");
    }
    if let Some(name) = given_name(config.app_id.clone()) {
        proof {
            assert(name@ == app_id_of(config.app_id, None, uuid_text((0, 0))));
        }
        return name;
    }
    let told = ask_machine_name();
    let ghost asked = told;
    let machine = given_name(told);
    let ghost found = machine;
    if machine.is_some() {
        let name = app_id_from(None, machine, "");
        proof {
            assert(name@ == app_id_of(config.app_id, found, uuid_text((0, 0))));
            assert(is_machine_name(asked));
        }
        return name;
    }
    let id = draw_uuid();
    let name = app_id_from(None, None, &text_of_uuid(&id));
    proof {
        assert(name@ == app_id_of(config.app_id, None, uuid_text(uuid_halves(id))));
        assert(is_machine_name(asked) && was_drawn(id));
    }
    name
}

/// What is logged of a heartbeat.
#[derive(Debug, Clone, Copy, PartialEq, Eq, Structural)]
pub enum BeatLog {
    /// Nothing: it went through.
    Nothing,
    /// A warning.
    Warning,
    /// A line for debugging, as a warning was logged a short while ago.
    Detail,
}

/// The task that reports to the master.
pub struct HeartbeatTask {
    /// What has been reported.
    pub reporter: ClientMetricsReporter,
    /// What is still to be reported.
    pub queue: HeartbeatQueue,
    /// The name under which the client reports.
    pub app_id: String,
    /// How many entries a heartbeat may carry.
    pub max_batch_size: usize,
    /// Keeps warnings apart.
    pub warnings: LogSampler,
    /// What the owner knows of the task.
    pub control: TaskControl,
}

/// Tells whether a beat gives out `payload`, and leaves `reporter` and `left`, when
/// the registry is walked in some order.
pub open spec fn beat_gives(
    task: HeartbeatTask,
    counters: Map<Seq<char>, i64>,
    gauges: Map<Seq<char>, i64>,
    left: Seq<MetricView>,
    payload: Option<ClientMetrics>,
) -> bool {
    exists|fresh: Seq<MetricView>| #[trigger]
        is_snapshot(fresh, task.reporter@, counters, gauges) && batch_goes_out(
            task.queue@,
            fresh,
            task.app_id@,
            task.max_batch_size,
            left,
            payload,
        )
}

/// What is logged of a beat that was or was not answered, when the task is `now`
/// milliseconds old: the first failure is warned of, and then one a window or more
/// after the last warning.
pub open spec fn beat_logged(
    t0: HeartbeatTask,
    answered: bool,
    now: i64,
    t1: HeartbeatTask,
    r: BeatLog,
) -> bool {
    &&& r == (if answered {
        BeatLog::Nothing
    } else if t0.warnings.lets_through(now as int) {
        BeatLog::Warning
    } else {
        BeatLog::Detail
    })
    &&& t1 == (HeartbeatTask { warnings: t1.warnings, ..t0 })
    &&& t1.warnings.window() == t0.warnings.window()
    &&& t1.warnings.started() == t0.warnings.started()
    &&& t1.warnings.last() == (if r == BeatLog::Warning {
        now
    } else {
        t0.warnings.last()
    })
}

impl HeartbeatTask {
    /// A task that has not reported yet.
    pub fn new(app_id: &str, max_batch_size: usize) -> (r: Self)
        ensures
            r.reporter@ == Map::<Seq<char>, i64>::empty(),
            r.queue@ == Seq::<MetricView>::empty(),
            r.app_id@ == app_id@,
            r.max_batch_size == max_batch_size,
            r.warnings.last() == -1,
            r.warnings.window() == 30_000,
            r.control == (TaskControl {
                closed: false,
                joinable: true,
                shutdown_secs: HEARTBEAT_SHUTDOWN_SECS,
            }),
    {
        HeartbeatTask {
            reporter: ClientMetricsReporter::new(),
            queue: HeartbeatQueue::new(),
            app_id: app_id.to_owned(),
            max_batch_size,
            warnings: LogSampler::new(Duration::from_secs(WARN_WINDOW_SECS)),
            control: TaskControl::new(HEARTBEAT_SHUTDOWN_SECS),
        }
    }

    /// Makes a beat: what has changed since the last one is to be sent to the
    /// master, or nothing if nothing has. What is given out counts as reported,
    /// whatever comes of sending it.
    pub fn do_heartbeat(&mut self, registry: &Registry) -> (r: Option<ClientMetrics>)
        requires
            registry.wf(),
        ensures
            beat_gives(
                *old(self),
                registry.counters(),
                registry.gauges(),
                final(self).queue@,
                r,
            ),
            final(self).reporter@ == old(self).reporter@.union_prefer_right(registry.counters()),
            final(self).app_id == old(self).app_id,
            final(self).max_batch_size == old(self).max_batch_size,
            final(self).warnings == old(self).warnings,
            final(self).control == old(self).control,
    {
        let ghost before = *self;
        let fresh = self.reporter.snapshot(registry);
        let ghost seen = metric_views(fresh@);
        let payload = self.queue.next_payload(fresh, &self.app_id, self.max_batch_size);
        assert(is_snapshot(seen, before.reporter@, registry.counters(), registry.gauges()));
        payload
    }

    /// Takes in whether a beat was answered in time and without an error, when the task
    /// is `now` milliseconds old, and says what is logged of it.
    pub fn beat_done_at(&mut self, answered: bool, now: i64) -> (r: BeatLog)
        requires
            now >= 0,
        ensures
            beat_logged(*old(self), answered, now, *final(self), r),
    {
        if answered {
            BeatLog::Nothing
        } else if self.warnings.should_log_at(now) {
            BeatLog::Warning
        } else {
            BeatLog::Detail
        }
    }

    /// Takes in whether a beat was answered in time and without an error, and says
    /// what is logged of it.
    pub fn beat_done(&mut self, answered: bool) -> (r: BeatLog)
        ensures
            exists|now: i64|
                now >= 0 && shows_millis(old(self).warnings.started(), now)
                    && #[trigger] beat_logged(*old(self), answered, now, *final(self), r),
    {
        let now: i64 = self.warnings.age();
        self.beat_done_at(answered, now)
    }

    /// Closes the task; see [`TaskControl::shutdown`].
    pub fn shutdown(&mut self) -> (r: Option<Duration>)
        ensures
            final(self).control.closed,
            !final(self).control.joinable,
            r == (if old(self).control.joinable {
                Some(Duration::secs(old(self).control.shutdown_secs as int))
            } else {
                None
            }),
            *final(self) == (HeartbeatTask { control: final(self).control, ..*old(self) }),
            final(self).control.shutdown_secs == old(self).control.shutdown_secs,
    {
        self.control.shutdown()
    }
}

/// A line is let through at the first call, and then only a window or more after the
/// last one, by the time that the clock shows.
pub proof fn law_lines_are_let_through_by_the_clock(sampler: &mut LogSampler, r: bool)
    requires
        call_ensures(LogSampler::should_log, (sampler,), r),
    ensures
        old(sampler).last() < 0 ==> r,
        exists|shown: Duration| #[trigger]
            shows(old(sampler).started(), shown) && (shown.nanos as int / 1_000_000 <= i64::MAX
                ==> (old(sampler).last() >= 0 ==> (r <==> shown.nanos as int / 1_000_000 - old(
                sampler,
            ).last() >= old(sampler).window())) && (r ==> final(sampler).last()
                == shown.nanos as int / 1_000_000)),
        !r ==> final(sampler).last() == old(sampler).last(),
        final(sampler).window() == old(sampler).window(),
{
    let now = choose|now: i64|
        now >= 0 && shows_millis(old(sampler).started(), now) && r == #[trigger] old(
            sampler,
        ).lets_through(now as int) && final(sampler).last() == (if r {
            now
        } else {
            old(sampler).last()
        });
    assert(shows_millis(old(sampler).started(), now));
}

/// A beat that was answered is not logged; of those that were not, the first is warned
/// of, and then one a window or more after the last warning, by the time that the clock
/// shows.
pub proof fn law_failures_are_warned_of_by_the_clock(
    task: &mut HeartbeatTask,
    answered: bool,
    r: BeatLog,
)
    requires
        call_ensures(HeartbeatTask::beat_done, (task, answered), r),
    ensures
        answered <==> r is Nothing,
        !answered && old(task).warnings.last() < 0 ==> r is Warning,
        exists|shown: Duration| #[trigger]
            shows(old(task).warnings.started(), shown) && (!answered && old(task).warnings.last()
                >= 0 && shown.nanos as int / 1_000_000 <= i64::MAX ==> (r is Warning <==> shown.nanos
                as int / 1_000_000 - old(task).warnings.last() >= old(task).warnings.window())),
        final(task).queue == old(task).queue,
        final(task).reporter == old(task).reporter,
        final(task).control == old(task).control,
{
    let now = choose|now: i64|
        now >= 0 && shows_millis(old(task).warnings.started(), now) && #[trigger] beat_logged(
            *old(task),
            answered,
            now,
            *final(task),
            r,
        );
    assert(shows_millis(old(task).warnings.started(), now));
}

/// A client reports under its configured name, else under the name of its machine, else
/// under one that is drawn at random.
pub proof fn law_client_name_is_the_nearest_one(config: GoosefsConfig, r: String)
    requires
        call_ensures(resolve_app_id, (&config,), r),
    ensures
        config.app_id matches Some(name) ==> name@.len() > 0 ==> r@ == name@,
        config.app_id is None || config.app_id->0@.len() == 0 ==> exists|machine: Option<String>| #[trigger]
            is_machine_name(machine) && (machine matches Some(name) ==> name@.len() > 0 ==> r@
                == name@) && (machine is None || machine->0@.len() == 0 ==> exists|
                id: uuid::Uuid,
            | #[trigger]
                was_drawn(id) && r@ == "goosefs-rust-"@ + uuid_text(uuid_halves(id)).take(8)),
{
}

} // verus!
