//! One user's schedule: configuration, runtime flags and the handle of the
//! background task that fires the bedtime, with the reconfiguration state
//! machine that keeps them consistent.

use vstd::prelude::*;
use vstd::string::StringExecFns;

use crate::clock::{is_zone_name, twelve_hour_text, Time, TimeZone};
use crate::nag::RuntimeFlags;

verus! {

/// A configuration as values: alerts on or off, the zone's name, the bedtime.
pub struct ConfigView {
    pub enabled: bool,
    pub zone: Option<Seq<char>>,
    pub bedtime: Option<Time>,
}

impl ConfigView {
    /// A task may run: alerts on, with both a zone and a bedtime.
    pub open spec fn eligible(self) -> bool {
        self.enabled && self.zone is Some && self.bedtime is Some
    }

    /// A set bedtime is a valid time of day, and a set zone is a known one.
    pub open spec fn wf(self) -> bool {
        &&& (self.bedtime matches Some(b) ==> b.wf())
        &&& (self.zone matches Some(z) ==> is_zone_name(z))
    }
}

/// The configuration of a user not seen before: alerts on, nothing set.
pub open spec fn default_config() -> ConfigView {
    ConfigView { enabled: true, zone: None, bedtime: None }
}

/// A user's durable configuration.
pub struct ScheduleConfig {
    pub on: bool,
    pub time_zone: Option<TimeZone>,
    pub bedtime: Option<Time>,
}

impl View for ScheduleConfig {
    type V = ConfigView;

    open spec fn view(&self) -> ConfigView {
        ConfigView {
            enabled: self.on,
            zone: match self.time_zone {
                Some(z) => Some(z@),
                None => None,
            },
            bedtime: self.bedtime,
        }
    }
}

impl ScheduleConfig {
    /// Alerts on, no zone, no bedtime.
    pub fn new() -> (r: ScheduleConfig)
        ensures
            r@ == default_config(),
    {
        ScheduleConfig { on: true, time_zone: None, bedtime: None }
    }

    /// A set bedtime is a valid time of day.
    pub open spec fn wf(&self) -> bool {
        self.bedtime matches Some(b) ==> b.wf()
    }

    /// Whether a task may run for this configuration.
    pub fn is_eligible(&self) -> (r: bool)
        ensures
            r == self@.eligible(),
    {
        self.on && self.time_zone.is_some() && self.bedtime.is_some()
    }
}

/// What a new task needs: the zone and the bedtime to fire at.
pub struct ArmPlan {
    pub time_zone: TimeZone,
    pub bedtime: Time,
}

/// The result of a reconfiguration: the handle of the task that must be
/// canceled, if one was live, and the task to start, if the configuration is
/// eligible. The caller cancels the first before it starts the second, and
/// hands the new task's handle back with `attach`.
pub struct SchedUpdate<H> {
    pub cancelled: Option<H>,
    pub arm: Option<ArmPlan>,
}

/// A schedule as values: its configuration and its live task, if any.
pub struct UserView<H> {
    pub config: ConfigView,
    pub task: Option<H>,
}

/// The schedule with its task taken out: `Idle`.
pub open spec fn cleared<H>(v: UserView<H>) -> UserView<H> {
    UserView { config: v.config, task: None }
}

/// The schedule with `h` as its live task: `Armed`.
pub open spec fn armed_with<H>(v: UserView<H>, h: H) -> UserView<H> {
    UserView { config: v.config, task: Some(h) }
}

/// What a reconfiguration hands back: the old task to cancel, and a plan
/// for the configuration exactly when it is eligible.
pub open spec fn update_result<H>(v: UserView<H>, r: SchedUpdate<H>) -> bool {
    &&& r.cancelled == v.task
    &&& (r.arm is Some <==> v.config.eligible())
    &&& (r.arm matches Some(p) ==> v.config.zone == Some(p.time_zone@)
        && v.config.bedtime == Some(p.bedtime))
}

/// `on`, `true` or `false`.
pub open spec fn bool_text(b: bool) -> Seq<char> {
    if b { "true"@ } else { "false"@ }
}

/// How a user's settings read: alerts on or off, the zone's name or
/// `none`, the bedtime on a twelve-hour clock or `none`.
pub open spec fn describe_text(c: ConfigView) -> Seq<char> {
    "**on**: "@ + bool_text(c.enabled) + "\n**time zone**: "@ + (match c.zone {
        Some(z) => z,
        None => "none"@,
    }) + "\n**bedtime**: "@ + (match c.bedtime {
        Some(b) => twelve_hour_text(b.hour as int, b.minute as int),
        None => "none"@,
    })
}

/// A user's schedule: configuration, runtime flags, and at most one live
/// background task, held by its handle `H`.
pub struct UserInfo<H> {
    config: ScheduleConfig,
    flags: RuntimeFlags,
    sched: Option<H>,
}

impl<H> View for UserInfo<H> {
    type V = UserView<H>;

    closed spec fn view(&self) -> UserView<H> {
        UserView { config: self.config@, task: self.sched }
    }
}

impl<H> UserInfo<H> {
    /// The schedule's invariant: a set bedtime is valid, and a task is live
    /// only for an eligible configuration.
    pub closed spec fn wf(&self) -> bool {
        &&& self.config.wf()
        &&& (self.sched is Some ==> self.config@.eligible())
    }

    /// The schedule of a user not seen before: default configuration, fresh
    /// flags, `Idle`.
    pub fn default() -> (r: UserInfo<H>)
        ensures
            r.wf(),
            r@ == (UserView::<H> { config: default_config(), task: None }),
    {
        UserInfo { config: ScheduleConfig::new(), flags: RuntimeFlags::new(), sched: None }
    }

    /// A schedule for a stored configuration, `Idle`, with fresh flags.
    pub fn with_config(config: ScheduleConfig) -> (r: UserInfo<H>)
        requires
            config.wf(),
        ensures
            r.wf(),
            r@ == (UserView::<H> { config: config@, task: None }),
    {
        UserInfo { config, flags: RuntimeFlags::new(), sched: None }
    }

    /// The configuration.
    pub fn config(&self) -> (r: &ScheduleConfig)
        ensures
            r@ == self@.config,
            self.wf() ==> r.wf(),
    {
        &self.config
    }

    /// Whether a task is live.
    pub fn is_armed(&self) -> (r: bool)
        ensures
            r == self@.task is Some,
    {
        self.sched.is_some()
    }

    /// Takes out the live task, if any, and says what to start for the
    /// current configuration: a plan exactly when it is eligible.
    pub fn update_sched(&mut self) -> (r: SchedUpdate<H>)
        requires
            old(self).wf(),
        ensures
            final(self).wf(),
            final(self)@ == cleared(old(self)@),
            update_result(old(self)@, r),
    {
        self.reconfigure()
    }

    /// `update_sched`, also where the configuration has just changed under a
    /// live task.
    fn reconfigure(&mut self) -> (r: SchedUpdate<H>)
        requires
            old(self).config.wf(),
        ensures
            final(self).wf(),
            final(self)@ == cleared(old(self)@),
            update_result(old(self)@, r),
    {
        let cancelled = self.sched.take();
        let arm = match (&self.config.time_zone, &self.config.bedtime) {
            (Some(z), Some(b)) => if self.config.on {
                Some(ArmPlan { time_zone: z.copy(), bedtime: *b })
            } else {
                None
            },
            _ => None,
        };
        SchedUpdate { cancelled, arm }
    }

    /// Records the handle of the task started from the plan of the last
    /// `update_sched`: the schedule is `Armed`.
    pub fn attach(&mut self, handle: H)
        requires
            old(self).wf(),
            old(self)@.task is None,
            old(self)@.config.eligible(),
        ensures
            final(self).wf(),
            final(self)@ == armed_with(old(self)@, handle),
    {
        self.sched = Some(handle);
    }

    /// Replaces the whole configuration, then reconfigures.
    pub fn set_config(&mut self, config: ScheduleConfig) -> (r: SchedUpdate<H>)
        requires
            old(self).wf(),
            config.wf(),
        ensures
            final(self).wf(),
            final(self)@ == (UserView::<H> { config: config@, task: None }),
            update_result(UserView::<H> { config: config@, task: old(self)@.task }, r),
    {
        self.config = config;
        self.reconfigure()
    }

    /// Sets the time zone, then reconfigures.
    pub fn set_time_zone(&mut self, time_zone: TimeZone) -> (r: SchedUpdate<H>)
        requires
            old(self).wf(),
        ensures
            final(self).wf(),
            final(self)@ == (UserView::<H> {
                config: apply_setting(old(self)@.config, Setting::Zone(time_zone@)),
                task: None,
            }),
            update_result(UserView::<H> { config: final(self)@.config, task: old(self)@.task }, r),
    {
        self.config.time_zone = Some(time_zone);
        self.reconfigure()
    }

    /// Sets the bedtime, then reconfigures.
    pub fn set_bedtime(&mut self, bedtime: Time) -> (r: SchedUpdate<H>)
        requires
            old(self).wf(),
            bedtime.wf(),
        ensures
            final(self).wf(),
            final(self)@ == (UserView::<H> {
                config: apply_setting(old(self)@.config, Setting::Bedtime(bedtime)),
                task: None,
            }),
            update_result(UserView::<H> { config: final(self)@.config, task: old(self)@.task }, r),
    {
        self.config.bedtime = Some(bedtime);
        self.reconfigure()
    }

    /// Turns alerts on, then reconfigures.
    pub fn on(&mut self) -> (r: SchedUpdate<H>)
        requires
            old(self).wf(),
        ensures
            final(self).wf(),
            final(self)@ == (UserView::<H> {
                config: apply_setting(old(self)@.config, Setting::On),
                task: None,
            }),
            update_result(UserView::<H> { config: final(self)@.config, task: old(self)@.task }, r),
    {
        self.config.on = true;
        self.reconfigure()
    }

    /// Turns alerts off, then reconfigures: the schedule is `Idle` and
    /// nothing is to be started.
    pub fn off(&mut self) -> (r: SchedUpdate<H>)
        requires
            old(self).wf(),
        ensures
            final(self).wf(),
            final(self)@ == (UserView::<H> {
                config: apply_setting(old(self)@.config, Setting::Off),
                task: None,
            }),
            r.cancelled == old(self)@.task,
            r.arm is None,
    {
        self.config.on = false;
        self.reconfigure()
    }

    /// The presence feed reports the user online.
    pub fn awake(&self) {
        self.flags.awake()
    }

    /// The presence feed reports the user offline.
    pub fn asleep(&self) {
        self.flags.asleep()
    }

    /// The user acknowledges waking: the current episode ends.
    pub fn allow_awake(&self) {
        self.flags.allow_awake()
    }

    /// A handle to this user's flags, for the reminder loop.
    pub fn flags(&self) -> (r: RuntimeFlags) {
        self.flags.share()
    }

    /// The settings as text: alerts on, zone, bedtime.
    pub fn to_string(&self) -> (r: String)
        requires
            self.wf(),
        ensures
            r@ == describe_text(self@.config),
    {
        let mut s = String::from_str("**on**: ");
        if self.config.on {
            s.append("true");
        } else {
            s.append("false");
        }
        s.append("\n**time zone**: ");
        match &self.config.time_zone {
            Some(z) => {
                let name = z.name();
                s.append(name.as_str());
            },
            None => s.append("none"),
        }
        s.append("\n**bedtime**: ");
        match &self.config.bedtime {
            Some(b) => {
                let text = b.to_string();
                s.append(text.as_str());
            },
            None => s.append("none"),
        }
        assert(s@ =~= describe_text(self@.config));
        s
    }
}

/// One reconfiguration of a schedule, as its caller performs it.
pub enum SchedOp<H> {
    /// Set the configuration to the given one and reconfigure; when it is
    /// eligible, start the task whose handle is given and `attach` it.
    Reconfigure(ConfigView, H),
    /// Turn alerts off and reconfigure (`off`).
    Cancel,
}

/// A step of the model: the schedule after `op`, the handle handed back to
/// be canceled, and the handle started, following the contracts of
/// `update_sched`, the setters, `attach` and `off`.
pub open spec fn apply_op<H>(v: UserView<H>, op: SchedOp<H>) -> (UserView<H>, Option<H>, Option<H>) {
    match op {
        SchedOp::Reconfigure(c, h) => {
            let idle = UserView { config: c, task: None };
            if c.eligible() {
                (armed_with(idle, h), v.task, Some(h))
            } else {
                (idle, v.task, None)
            }
        },
        SchedOp::Cancel => (
            UserView { config: ConfigView { enabled: false, ..v.config }, task: None },
            v.task,
            None,
        ),
    }
}

/// After a sequence of reconfigurations: the schedule, the number of tasks
/// started, and the number of handles handed back to be canceled.
pub open spec fn run_ops<H>(v: UserView<H>, ops: Seq<SchedOp<H>>) -> (UserView<H>, int, int)
    decreases ops.len(),
{
    if ops.len() == 0 {
        (v, 0, 0)
    } else {
        let (w, started, stopped) = run_ops(v, ops.drop_last());
        let (x, back, new) = apply_op(w, ops.last());
        (
            x,
            started + (if new is Some { 1int } else { 0 }),
            stopped + (if back is Some { 1int } else { 0 }),
        )
    }
}

/// 1 for a live task, 0 for none.
pub open spec fn live_count<H>(v: UserView<H>) -> int {
    if v.task is Some { 1 } else { 0 }
}

/// However reconfigurations and cancellations follow one another on one
/// user, every task started is handed back to be canceled except the one
/// the schedule holds: at any time at most one task is live.
pub proof fn lemma_at_most_one_live<H>(v: UserView<H>, ops: Seq<SchedOp<H>>)
    ensures
        live_count(v) + run_ops(v, ops).1 - run_ops(v, ops).2 == live_count(run_ops(v, ops).0),
        live_count(v) + run_ops(v, ops).1 - run_ops(v, ops).2 <= 1,
    decreases ops.len(),
{
    if ops.len() > 0 {
        lemma_at_most_one_live(v, ops.drop_last());
    }
}

/// Reconfiguring twice with the same eligible configuration leaves exactly
/// one live task, the second, and hands the first back to be canceled.
pub proof fn lemma_reconfigure_twice<H>(v: UserView<H>, c: ConfigView, h1: H, h2: H)
    requires
        c.eligible(),
    ensures
        ({
            let (w, back1, new1) = apply_op(v, SchedOp::Reconfigure(c, h1));
            let (x, back2, new2) = apply_op(w, SchedOp::Reconfigure(c, h2));
            &&& back1 == v.task
            &&& new1 == Some(h1)
            &&& back2 == Some(h1)
            &&& new2 == Some(h2)
            &&& x.task == Some(h2)
            &&& x.config == c
        }),
        ({
            let ops = seq![SchedOp::Reconfigure(c, h1), SchedOp::Reconfigure(c, h2)];
            let (x, started, stopped) = run_ops(v, ops);
            live_count(v) + started - stopped == 1 && x.task == Some(h2)
        }),
{
    let ops = seq![SchedOp::Reconfigure(c, h1), SchedOp::Reconfigure(c, h2)];
    assert(ops.drop_last() =~= seq![SchedOp::Reconfigure(c, h1)]);
    assert(ops.drop_last().drop_last() =~= Seq::<SchedOp<H>>::empty());
    let one = ops.drop_last();
    assert(run_ops(v, one.drop_last()) == (v, 0int, 0int));
    assert(one.last() == SchedOp::Reconfigure(c, h1));
    assert(ops.last() == SchedOp::Reconfigure(c, h2));
    lemma_at_most_one_live(v, ops);
}

/// Disabling leaves the schedule `Idle` with alerts off; while alerts stay
/// off (every later configuration disabled), no task is started and none
/// is live.
pub proof fn lemma_disabled_stays_idle<H>(v: UserView<H>, ops: Seq<SchedOp<H>>)
    requires
        forall|i: int| 0 <= i < ops.len() ==> (#[trigger] ops[i] matches SchedOp::Reconfigure(c, h) ==> !c.enabled),
    ensures
        ({
            let (w, back, new) = apply_op(v, SchedOp::Cancel);
            let (x, started, stopped) = run_ops(w, ops);
            &&& back == v.task
            &&& new is None
            &&& w.task is None && !w.config.enabled
            &&& x.task is None && !x.config.enabled
            &&& started == 0
        }),
    decreases ops.len(),
{
    if ops.len() > 0 {
        let prefix = ops.drop_last();
        assert forall|i: int| 0 <= i < prefix.len() implies (#[trigger] prefix[i] matches SchedOp::Reconfigure(c, h) ==> !c.enabled) by {
            assert(prefix[i] == ops[i]);
        }
        lemma_disabled_stays_idle(v, prefix);
        assert(ops.last() == ops[ops.len() - 1]);
    }
}

/// One of the setters, as it changes a configuration.
pub enum Setting {
    Zone(Seq<char>),
    Bedtime(Time),
    On,
    Off,
}

/// The configuration after one setter, as `set_time_zone`, `set_bedtime`,
/// `on` and `off` state it.
pub open spec fn apply_setting(c: ConfigView, s: Setting) -> ConfigView {
    match s {
        Setting::Zone(z) => ConfigView { zone: Some(z), ..c },
        Setting::Bedtime(b) => ConfigView { bedtime: Some(b), ..c },
        Setting::On => ConfigView { enabled: true, ..c },
        Setting::Off => ConfigView { enabled: false, ..c },
    }
}

/// The configuration after a sequence of setters.
pub open spec fn apply_settings(c: ConfigView, ss: Seq<Setting>) -> ConfigView
    decreases ss.len(),
{
    if ss.len() == 0 {
        c
    } else {
        apply_setting(apply_settings(c, ss.drop_last()), ss.last())
    }
}

/// The zone set last in `ss`, else the one `c` had.
pub open spec fn last_zone(c: ConfigView, ss: Seq<Setting>) -> Option<Seq<char>>
    decreases ss.len(),
{
    if ss.len() == 0 {
        c.zone
    } else if let Setting::Zone(z) = ss.last() {
        Some(z)
    } else {
        last_zone(c, ss.drop_last())
    }
}

/// The bedtime set last in `ss`, else the one `c` had.
pub open spec fn last_bedtime(c: ConfigView, ss: Seq<Setting>) -> Option<Time>
    decreases ss.len(),
{
    if ss.len() == 0 {
        c.bedtime
    } else if let Setting::Bedtime(b) = ss.last() {
        Some(b)
    } else {
        last_bedtime(c, ss.drop_last())
    }
}

/// Whether alerts are on after the last `on` or `off` in `ss`, else as in
/// `c`.
pub open spec fn last_enabled(c: ConfigView, ss: Seq<Setting>) -> bool
    decreases ss.len(),
{
    if ss.len() == 0 {
        c.enabled
    } else if ss.last() is On {
        true
    } else if ss.last() is Off {
        false
    } else {
        last_enabled(c, ss.drop_last())
    }
}

/// After any sequence of setters the configuration, and so the settings
/// text, holds exactly the last value set for each field.
pub proof fn lemma_describe_shows_last_settings(c: ConfigView, ss: Seq<Setting>)
    ensures
        apply_settings(c, ss) == (ConfigView {
            enabled: last_enabled(c, ss),
            zone: last_zone(c, ss),
            bedtime: last_bedtime(c, ss),
        }),
        describe_text(apply_settings(c, ss)) == describe_text(ConfigView {
            enabled: last_enabled(c, ss),
            zone: last_zone(c, ss),
            bedtime: last_bedtime(c, ss),
        }),
    decreases ss.len(),
{
    if ss.len() > 0 {
        lemma_describe_shows_last_settings(c, ss.drop_last());
    }
}

} // verus!
