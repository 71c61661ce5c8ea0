//! The periodic reload of the transparent-acceleration switches.

use vstd::prelude::*;

use crate::clock::is_reading;
use crate::clock::present;
use crate::clock::read;
use crate::clock::shows;
use crate::clock::was_present;
use crate::clock::Duration;
use crate::config::properties::ConfigLoadError;
use crate::config::settings::GoosefsConfig;

verus! {

/// How long a loaded configuration stays fresh, in milliseconds.
pub const DEFAULT_CONFIG_EXPIRE_MS: u64 = 30000;

/// The two switches that may change at run time.
#[derive(Debug, Clone, Copy, PartialEq, Eq, Structural)]
pub struct TransparentAccelerationSwitch {
    /// Whether transparent acceleration is enabled.
    pub enabled: bool,
    /// Whether its cosranger is enabled.
    pub cosranger_enabled: bool,
}

impl GoosefsConfig {
    /// The switches of the configuration.
    pub open spec fn switches(self) -> TransparentAccelerationSwitch {
        TransparentAccelerationSwitch {
            enabled: self.transparent_acceleration_enabled,
            cosranger_enabled: self.transparent_acceleration_cosranger_enabled,
        }
    }
}

/// Keeps the switches, and reloads them once they are older than the expiry
/// time.
pub struct ConfigRefresher {
    /// When the time starts to count.
    epoch: std::time::Instant,
    /// When the clock was last read.
    latest: Duration,
    /// When the configuration was last loaded.
    last_load_time: Option<Duration>,
    /// How long a loaded configuration stays fresh.
    expire_duration: Duration,
    /// The switches as last loaded.
    switches: TransparentAccelerationSwitch,
}

impl View for ConfigRefresher {
    type V = TransparentAccelerationSwitch;

    closed spec fn view(&self) -> TransparentAccelerationSwitch {
        self.switches
    }
}

/// The switches after a reload that came out as `loaded`: a failed reload
/// keeps them.
pub open spec fn switches_after(
    before: TransparentAccelerationSwitch,
    loaded: Result<GoosefsConfig, ConfigLoadError>,
) -> TransparentAccelerationSwitch {
    match loaded {
        Ok(c) => c.switches(),
        Err(_) => before,
    }
}

/// A refresh at the time `at`: where a reload is due it comes out as `loaded`, and the
/// configuration counts as loaded at the time `done`.
pub open spec fn refreshed(
    r0: ConfigRefresher,
    at: Duration,
    loaded: Result<GoosefsConfig, ConfigLoadError>,
    done: Duration,
    r1: ConfigRefresher,
) -> bool {
    &&& r1.expiry() == r0.expiry()
    &&& r1.started() == r0.started()
    &&& if r0.due_at(at) {
        &&& r1@ == switches_after(r0@, loaded)
        &&& r1.loaded_at() == Some(done)
        &&& is_reading(r0.started(), at, done)
    } else {
        r1@ == r0@ && r1.loaded_at() == r0.loaded_at()
    }
}

impl ConfigRefresher {
    /// How long a loaded configuration stays fresh.
    pub closed spec fn expiry(&self) -> Duration {
        self.expire_duration
    }

    /// When the refresher was made.
    pub closed spec fn started(&self) -> std::time::Instant {
        self.epoch
    }

    /// The time since its start at which the clock was last read.
    pub closed spec fn latest(&self) -> Duration {
        self.latest
    }

    /// When the configuration was last loaded, since the start of the refresher.
    pub closed spec fn loaded_at(&self) -> Option<Duration> {
        self.last_load_time
    }

    /// A reload is due when nothing was loaded yet, or the last load is at least the
    /// expiry time ago.
    pub open spec fn due_at(self, at: Duration) -> bool {
        match self.loaded_at() {
            None => true,
            Some(t) => if at.nanos >= t.nanos {
                at.nanos - t.nanos >= self.expiry().nanos
            } else {
                self.expiry().nanos == 0
            },
        }
    }

    fn with_switches(expire_duration: Duration, switches: TransparentAccelerationSwitch) -> (r: Self)
        ensures
            r.expiry() == expire_duration,
            r.loaded_at() == Some(Duration { nanos: 0 }),
            was_present(r.started()),
            r.latest().nanos == 0,
            r@ == switches,
    {
        ConfigRefresher {
            epoch: present(),
            latest: Duration { nanos: 0 },
            last_load_time: Some(Duration { nanos: 0 }),
            expire_duration,
            switches,
        }
    }

    /// A refresher with the default expiry time, from the configuration that
    /// was loaded, or the built-in one if that failed.
    pub fn new(initial: Result<GoosefsConfig, ConfigLoadError>) -> (r: Self)
        ensures
            r.expiry() == Duration::millis(DEFAULT_CONFIG_EXPIRE_MS as int),
            r.loaded_at() == Some(Duration { nanos: 0 }),
            was_present(r.started()),
            r.latest().nanos == 0,
            r@ == switches_after(
                TransparentAccelerationSwitch { enabled: true, cosranger_enabled: false },
                initial,
            ),
    {
        ConfigRefresher::with_expire(Duration::from_millis(DEFAULT_CONFIG_EXPIRE_MS), initial)
    }

    /// A refresher with its own expiry time, from the configuration that was
    /// loaded, or the built-in one if that failed.
    pub fn with_expire(
        expire_duration: Duration,
        initial: Result<GoosefsConfig, ConfigLoadError>,
    ) -> (r: Self)
        ensures
            r.expiry() == expire_duration,
            r.loaded_at() == Some(Duration { nanos: 0 }),
            was_present(r.started()),
            r.latest().nanos == 0,
            r@ == switches_after(
                TransparentAccelerationSwitch { enabled: true, cosranger_enabled: false },
                initial,
            ),
    {
        let mut r = ConfigRefresher::with_switches(
            expire_duration,
            TransparentAccelerationSwitch { enabled: true, cosranger_enabled: false },
        );
        r.reload_properties(initial);
        r
    }

    /// A refresher with the default expiry time and the switches of `config`.
    pub fn from_config(config: &GoosefsConfig) -> (r: Self)
        ensures
            r.expiry() == Duration::millis(DEFAULT_CONFIG_EXPIRE_MS as int),
            r.loaded_at() == Some(Duration { nanos: 0 }),
            was_present(r.started()),
            r.latest().nanos == 0,
            r@ == config.switches(),
    {
        ConfigRefresher::with_switches(
            Duration::from_millis(DEFAULT_CONFIG_EXPIRE_MS),
            TransparentAccelerationSwitch {
                enabled: config.transparent_acceleration_enabled,
                cosranger_enabled: config.transparent_acceleration_cosranger_enabled,
            },
        )
    }

    /// The switches as last loaded; nothing is reloaded.
    pub fn current_switch(&self) -> (r: TransparentAccelerationSwitch)
        ensures
            r == self@,
    {
        self.switches
    }

    /// Tells whether a reload is due at the time `at` since the start of the refresher.
    pub fn is_due_at(&self, at: Duration) -> (r: bool)
        ensures
            r == self.due_at(at),
    {
        match self.last_load_time {
            None => true,
            Some(t) => {
                let age: u128 = if at.nanos >= t.nanos {
                    at.nanos - t.nanos
                } else {
                    0
                };
                age >= self.expire_duration.nanos
            },
        }
    }

    /// Takes over the switches of a reloaded configuration; a failed reload
    /// keeps them.
    pub fn reload_properties(&mut self, loaded: Result<GoosefsConfig, ConfigLoadError>)
        ensures
            final(self)@ == switches_after(old(self)@, loaded),
            final(self).expiry() == old(self).expiry(),
            final(self).loaded_at() == old(self).loaded_at(),
            final(self).started() == old(self).started(),
            final(self).latest() == old(self).latest(),
    {
        if let Ok(c) = loaded {
            self.switches = TransparentAccelerationSwitch {
                enabled: c.transparent_acceleration_enabled,
                cosranger_enabled: c.transparent_acceleration_cosranger_enabled,
            };
        }
    }

    /// Takes in a reload that was over at the time `done`, from which on its age
    /// counts. One that failed counts as well.
    pub fn load_done(&mut self, loaded: Result<GoosefsConfig, ConfigLoadError>, done: Duration)
        ensures
            final(self)@ == switches_after(old(self)@, loaded),
            final(self).expiry() == old(self).expiry(),
            final(self).loaded_at() == Some(done),
            final(self).started() == old(self).started(),
            final(self).latest() == (if done.nanos >= old(self).latest().nanos {
                done
            } else {
                old(self).latest()
            }),
    {
        self.reload_properties(loaded);
        self.last_load_time = Some(done);
        if done.nanos >= self.latest.nanos {
            self.latest = done;
        }
    }

    /// Reloads if that is due at the time `at` since the start of the refresher: `load`
    /// is called exactly then, and the age counts anew from the end of the load.
    pub fn refresh_at<F: FnOnce() -> Result<GoosefsConfig, ConfigLoadError>>(
        &mut self,
        at: Duration,
        load: F,
    ) -> (r: TransparentAccelerationSwitch)
        requires
            load.requires(()),
        ensures
            r == final(self)@,
            refreshes_at(*old(self), at, load, *final(self)),
            final(self).latest().nanos >= old(self).latest().nanos,
    {
        if self.is_due_at(at) {
            let loaded = load();
            let done = read(&self.epoch, at);
            let ghost result = loaded;
            self.load_done(loaded, done);
            proof {
                assert(refreshed(*old(self), at, result, done, *self));
            }
        }
        self.switches
    }

    /// Reloads if the last load is older than the expiry time.
    pub fn load_if_expire<F: FnOnce() -> Result<GoosefsConfig, ConfigLoadError>>(
        &mut self,
        load: F,
    )
        requires
            load.requires(()),
        ensures
            refreshes(*old(self), load, *final(self)),
            old(self).expiry().nanos == 0 ==> exists|
                loaded: Result<GoosefsConfig, ConfigLoadError>,
            |
                #[trigger] load.ensures((), loaded) && final(self)@ == switches_after(
                    old(self)@,
                    loaded,
                ),
    {
        let at = read(&self.epoch, self.latest);
        self.latest = at;
        let ghost mid = *self;
        let _ = self.refresh_at(at, load);
        proof {
            if mid.due_at(at) {
                let (loaded, done) = choose|
                    loaded: Result<GoosefsConfig, ConfigLoadError>,
                    done: Duration,
                |
                    load.ensures((), loaded) && #[trigger] refreshed(mid, at, loaded, done, *self);
                assert(refreshed(*old(self), at, loaded, done, *self));
            }
            assert(refreshes_at(*old(self), at, load, *self));
        }
    }

    /// Reloads if the last load is older than the expiry time, and gives the
    /// switches then in force.
    pub fn refresh_transparent_acceleration_switch<
        F: FnOnce() -> Result<GoosefsConfig, ConfigLoadError>,
    >(&mut self, load: F) -> (r: TransparentAccelerationSwitch)
        requires
            load.requires(()),
        ensures
            r == final(self)@,
            refreshes(*old(self), load, *final(self)),
            old(self).expiry().nanos == 0 ==> exists|
                loaded: Result<GoosefsConfig, ConfigLoadError>,
            |
                #[trigger] load.ensures((), loaded) && r == switches_after(old(self)@, loaded),
    {
        self.load_if_expire(load);
        self.current_switch()
    }
}

/// A refresh at the time `at`, with what `load` gives where a reload is due.
pub open spec fn refreshes_at<F: FnOnce() -> Result<GoosefsConfig, ConfigLoadError>>(
    r0: ConfigRefresher,
    at: Duration,
    load: F,
    r1: ConfigRefresher,
) -> bool {
    if r0.due_at(at) {
        exists|loaded: Result<GoosefsConfig, ConfigLoadError>, done: Duration|
            load.ensures((), loaded) && #[trigger] refreshed(r0, at, loaded, done, r1)
    } else {
        &&& r1@ == r0@
        &&& r1.expiry() == r0.expiry()
        &&& r1.loaded_at() == r0.loaded_at()
        &&& r1.started() == r0.started()
    }
}

/// A refresh at the time that the clock shows, which is never before an earlier one.
pub open spec fn refreshes<F: FnOnce() -> Result<GoosefsConfig, ConfigLoadError>>(
    r0: ConfigRefresher,
    load: F,
    r1: ConfigRefresher,
) -> bool {
    exists|at: Duration|
        is_reading(r0.started(), r0.latest(), at) && #[trigger] refreshes_at(r0, at, load, r1)
            && r1.latest().nanos >= at.nanos
}

/// A reload, successful or not, starts the age anew: until the expiry time has passed
/// since then no other one is due, and from then on one is.
pub proof fn law_reload_starts_the_age_anew(
    r0: ConfigRefresher,
    at: Duration,
    loaded: Result<GoosefsConfig, ConfigLoadError>,
    done: Duration,
    r1: ConfigRefresher,
    later: Duration,
)
    requires
        r0.due_at(at),
        refreshed(r0, at, loaded, done, r1),
        later.nanos >= done.nanos,
    ensures
        r1.due_at(later) <==> later.nanos - done.nanos >= r0.expiry().nanos,
{
}

/// The switches are reloaded exactly if the last load is the expiry time or longer ago
/// when the clock is read: with the switches of what was loaded, or the old ones where
/// that failed. Until then they stay as they are, and the age of the last load too.
pub proof fn law_switches_are_reloaded_when_they_expire<
    F: FnOnce() -> Result<GoosefsConfig, ConfigLoadError>,
>(
    refresher: &mut ConfigRefresher,
    load: F,
    r: TransparentAccelerationSwitch,
    last: Duration,
)
    requires
        call_ensures(
            ConfigRefresher::refresh_transparent_acceleration_switch::<F>,
            (refresher, load),
            r,
        ),
        old(refresher).loaded_at() == Some(last),
        last.nanos <= old(refresher).latest().nanos,
    ensures
        r == final(refresher)@,
        final(refresher).latest().nanos >= old(refresher).latest().nanos,
        exists|shown: Duration, at: Duration| #[trigger]
            shows(old(refresher).started(), shown) && #[trigger] reading_of(
                shown,
                old(refresher).latest(),
                at,
            ) && if at.nanos - last.nanos >= old(refresher).expiry().nanos {
                exists|loaded: Result<GoosefsConfig, ConfigLoadError>| #[trigger]
                    load.ensures((), loaded) && switched(loaded, old(refresher)@, r) && (
                    final(refresher).loaded_at() matches Some(done) && done.nanos >= at.nanos)
            } else {
                r == old(refresher)@ && final(refresher).loaded_at() == Some(last)
            },
{
    let r0 = *old(refresher);
    let r1 = *final(refresher);
    let at = choose|at: Duration|
        is_reading(r0.started(), r0.latest(), at) && #[trigger] refreshes_at(r0, at, load, r1)
            && r1.latest().nanos >= at.nanos;
    let shown = choose|shown: Duration| #[trigger]
        shows(r0.started(), shown) && at == (if shown.nanos >= r0.latest().nanos {
            shown
        } else {
            r0.latest()
        });
    assert(reading_of(shown, r0.latest(), at));
    if r0.due_at(at) {
        let (loaded, done) = choose|
            loaded: Result<GoosefsConfig, ConfigLoadError>,
            done: Duration,
        |
            load.ensures((), loaded) && #[trigger] refreshed(r0, at, loaded, done, r1);
        assert(load.ensures((), loaded) && switched(loaded, r0@, r));
    }
}

/// Whether `at` is the later of what the clock showed and the reading before.
pub open spec fn reading_of(shown: Duration, latest: Duration, at: Duration) -> bool {
    at.nanos >= shown.nanos && at.nanos >= latest.nanos && (at == shown || at == latest)
}

/// Whether the switches are those of the configuration that was loaded, or the ones
/// before where loading failed.
pub open spec fn switched(
    loaded: Result<GoosefsConfig, ConfigLoadError>,
    before: TransparentAccelerationSwitch,
    r: TransparentAccelerationSwitch,
) -> bool {
    match loaded {
        Ok(c) => r.enabled == c.transparent_acceleration_enabled && r.cosranger_enabled
            == c.transparent_acceleration_cosranger_enabled,
        Err(_) => r == before,
    }
}

/// A refresher starts with the switches that it was given.
pub proof fn law_refresher_starts_with_the_configuration(
    config: GoosefsConfig,
    r: ConfigRefresher,
    now: TransparentAccelerationSwitch,
)
    requires
        call_ensures(ConfigRefresher::from_config, (&config,), r),
        call_ensures(ConfigRefresher::current_switch, (&r,), now),
    ensures
        now.enabled == config.transparent_acceleration_enabled,
        now.cosranger_enabled == config.transparent_acceleration_cosranger_enabled,
        r.expiry().nanos == 30_000_000_000,
        r.loaded_at() == Some(Duration { nanos: 0 }),
{
}

/// What was loaded gives the switches, and a failed load leaves them; the age counts from
/// the end of the load, and a reload is due once the expiry time has passed.
pub proof fn law_load_gives_the_switches(
    r: &mut ConfigRefresher,
    loaded: Result<GoosefsConfig, ConfigLoadError>,
    done: Duration,
    at: Duration,
    due: bool,
)
    requires
        call_ensures(ConfigRefresher::load_done, (r, loaded, done), ()),
        call_ensures(ConfigRefresher::is_due_at, (final(r), at), due),
        at.nanos >= done.nanos,
    ensures
        loaded matches Ok(c) ==> final(r)@.enabled == c.transparent_acceleration_enabled && final(r)@.cosranger_enabled == c.transparent_acceleration_cosranger_enabled,
        loaded is Err ==> final(r)@ == old(r)@,
        due == (at.nanos - done.nanos >= old(r).expiry().nanos),
{
}

/// A refresher with a given expiry starts with what could be loaded, and else with
/// acceleration on and the ranger off.
pub proof fn law_refresher_is_made_with_its_expiry(
    expire: Duration,
    initial: Result<GoosefsConfig, ConfigLoadError>,
    r: ConfigRefresher,
)
    requires
        call_ensures(ConfigRefresher::with_expire, (expire, initial), r),
    ensures
        r.expiry() == expire,
        initial matches Ok(c) ==> r@.enabled == c.transparent_acceleration_enabled
            && r@.cosranger_enabled == c.transparent_acceleration_cosranger_enabled,
        initial is Err ==> r@.enabled && !r@.cosranger_enabled,
{
}

/// A refresher is made with an expiry of half a minute, and a reload outside of its turn
/// does not count for its age.
pub proof fn law_refresher_expires_after_half_a_minute(
    initial: Result<GoosefsConfig, ConfigLoadError>,
    made: ConfigRefresher,
    r: &mut ConfigRefresher,
    loaded: Result<GoosefsConfig, ConfigLoadError>,
)
    requires
        call_ensures(ConfigRefresher::new, (initial,), made),
        call_ensures(ConfigRefresher::reload_properties, (r, loaded), ()),
    ensures
        made.expiry().nanos == 30_000_000_000,
        initial matches Ok(c) ==> made@.enabled == c.transparent_acceleration_enabled
            && made@.cosranger_enabled == c.transparent_acceleration_cosranger_enabled,
        loaded matches Ok(c) ==> final(r)@.enabled == c.transparent_acceleration_enabled
            && final(r)@.cosranger_enabled == c.transparent_acceleration_cosranger_enabled,
        loaded is Err ==> final(r)@ == old(r)@,
        final(r).loaded_at() == old(r).loaded_at(),
{
}

} // verus!
