//! The registry of users' schedules, and the records in which their
//! configurations are stored.

use vstd::prelude::*;

use crate::nag::RuntimeFlags;
use crate::clock::{digit_char, digit_value, is_zone_name, parse_record_text, record_text, two_digit_value, two_digits, Time, TimeZone};
use crate::schedule::{apply_setting, default_config, describe_text, update_result, ArmPlan, ConfigView, SchedUpdate, ScheduleConfig, Setting, UserInfo, UserView};

verus! {

/// A stored record as values.
pub struct RecordView {
    pub on: bool,
    pub time_zone: Option<Seq<char>>,
    pub bedtime: Option<Seq<char>>,
}

/// The stored form of one user's configuration: alerts on, the zone's
/// name, the bedtime as `HH:MM`.
pub struct UserRecord {
    pub on: bool,
    pub time_zone: Option<String>,
    pub bedtime: Option<String>,
}

impl View for UserRecord {
    type V = RecordView;

    open spec fn view(&self) -> RecordView {
        RecordView {
            on: self.on,
            time_zone: match self.time_zone {
                Some(s) => Some(s@),
                None => None,
            },
            bedtime: match self.bedtime {
                Some(s) => Some(s@),
                None => None,
            },
        }
    }
}

/// The record that stores a configuration.
pub open spec fn record_of(c: ConfigView) -> RecordView {
    RecordView {
        on: c.enabled,
        time_zone: c.zone,
        bedtime: match c.bedtime {
            Some(b) => Some(record_text(b.hour as int, b.minute as int)),
            None => None,
        },
    }
}

/// The configuration a record stores. A record that names an unknown zone
/// or holds a malformed bedtime cannot be read, and the user falls back to
/// the default configuration.
pub open spec fn config_of_record(r: RecordView) -> ConfigView {
    let zone_ok = r.time_zone matches Some(z) ==> is_zone_name(z);
    let bedtime_ok = r.bedtime matches Some(b) ==> parse_record_text(b) is Some;
    if zone_ok && bedtime_ok {
        ConfigView {
            enabled: r.on,
            zone: r.time_zone,
            bedtime: match r.bedtime {
                Some(b) => parse_record_text(b),
                None => None,
            },
        }
    } else {
        default_config()
    }
}

impl UserRecord {
    /// The record that stores `config`.
    pub fn from_config(config: &ScheduleConfig) -> (r: UserRecord)
        requires
            config.wf(),
        ensures
            r@ == record_of(config@),
    {
        UserRecord {
            on: config.on,
            time_zone: match &config.time_zone {
                Some(z) => Some(z.name()),
                None => None,
            },
            bedtime: match &config.bedtime {
                Some(b) => Some(b.to_record_text()),
                None => None,
            },
        }
    }

    /// The configuration this record stores, or the default one where the
    /// record cannot be read.
    pub fn to_config(&self) -> (r: ScheduleConfig)
        ensures
            r@ == config_of_record(self@),
            r.wf(),
    {
        let zone = match &self.time_zone {
            Some(name) => match TimeZone::parse(name.as_str()) {
                Some(z) => Some(z),
                None => return ScheduleConfig::new(),
            },
            None => None,
        };
        let bedtime = match &self.bedtime {
            Some(text) => match Time::from_record_text(text.as_str()) {
                Some(b) => Some(b),
                None => return ScheduleConfig::new(),
            },
            None => None,
        };
        ScheduleConfig { on: self.on, time_zone: zone, bedtime }
    }
}

/// Two digits read back give the number written.
proof fn lemma_two_digits_read_back(n: int)
    requires
        0 <= n < 100,
    ensures
        two_digit_value(two_digits(n)[0], two_digits(n)[1]) == Some(n),
{
    assert(0 <= n / 10 < 10);
    assert(0 <= n % 10 < 10);
    assert(digit_value(digit_char(n / 10)) == Some(n / 10));
    assert(digit_value(digit_char(n % 10)) == Some(n % 10));
}

/// A time of day written as `HH:MM` reads back as itself.
pub proof fn lemma_record_text_round_trip(t: Time)
    requires
        t.wf(),
    ensures
        parse_record_text(record_text(t.hour as int, t.minute as int)) == Some(t),
{
    let s = record_text(t.hour as int, t.minute as int);
    lemma_two_digits_read_back(t.hour as int);
    lemma_two_digits_read_back(t.minute as int);
    assert(s[0] == two_digits(t.hour as int)[0]);
    assert(s[1] == two_digits(t.hour as int)[1]);
    assert(s[3] == two_digits(t.minute as int)[0]);
    assert(s[4] == two_digits(t.minute as int)[1]);
}

/// Storing a configuration and reading it back after a restart gives the
/// same configuration, and so the same settings text.
pub proof fn lemma_config_round_trip(c: ConfigView)
    requires
        c.wf(),
    ensures
        config_of_record(record_of(c)) == c,
        describe_text(config_of_record(record_of(c))) == describe_text(c),
{
    if let Some(b) = c.bedtime {
        lemma_record_text_round_trip(b);
    }
}

/// The schedules of a list of users, by id; where an id occurs twice the
/// later entry counts.
pub open spec fn users_view<H>(s: Seq<(u64, UserInfo<H>)>) -> Map<u64, UserView<H>>
    decreases s.len(),
{
    if s.len() == 0 {
        Map::empty()
    } else {
        users_view(s.drop_last()).insert(s.last().0, s.last().1@)
    }
}

/// No id occurs twice.
pub open spec fn ids_unique<H>(s: Seq<(u64, UserInfo<H>)>) -> bool {
    forall|i: int, j: int| 0 <= i < j < s.len() ==> s[i].0 != s[j].0
}

/// The schedule of a user not seen before.
pub open spec fn fresh_user<H>() -> UserView<H> {
    UserView { config: default_config(), task: None }
}

/// The schedule of `id`: its own, or a fresh one where `id` is not known.
pub open spec fn user_or_fresh<H>(m: Map<u64, UserView<H>>, id: u64) -> UserView<H> {
    if m.contains_key(id) { m[id] } else { fresh_user() }
}

proof fn lemma_users_view_has<H>(s: Seq<(u64, UserInfo<H>)>, i: int)
    requires
        ids_unique(s),
        0 <= i < s.len(),
    ensures
        users_view(s).contains_key(s[i].0),
        users_view(s)[s[i].0] == s[i].1@,
    decreases s.len(),
{
    if i < s.len() - 1 {
        lemma_users_view_has(s.drop_last(), i);
    }
}

proof fn lemma_users_view_lacks<H>(s: Seq<(u64, UserInfo<H>)>, id: u64)
    requires
        forall|i: int| 0 <= i < s.len() ==> s[i].0 != id,
    ensures
        !users_view(s).contains_key(id),
    decreases s.len(),
{
    if s.len() > 0 {
        lemma_users_view_lacks(s.drop_last(), id);
    }
}

proof fn lemma_users_view_update<H>(s: Seq<(u64, UserInfo<H>)>, i: int, e: (u64, UserInfo<H>))
    requires
        ids_unique(s),
        0 <= i < s.len(),
        e.0 == s[i].0,
    ensures
        users_view(s.update(i, e)) == users_view(s).insert(e.0, e.1@),
    decreases s.len(),
{
    let t = s.update(i, e);
    if i == s.len() - 1 {
        assert(t.drop_last() =~= s.drop_last());
        assert forall|j: int| 0 <= j < s.drop_last().len() implies s.drop_last()[j].0 != e.0 by {}
        lemma_users_view_lacks(s.drop_last(), e.0);
        assert(users_view(t) =~= users_view(s).insert(e.0, e.1@));
    } else {
        assert(t.drop_last() =~= s.drop_last().update(i, e));
        lemma_users_view_update(s.drop_last(), i, e);
        assert(users_view(t) =~= users_view(s).insert(e.0, e.1@));
    }
}

/// Every known user's schedule, by id.
pub struct State<H> {
    users: Vec<(u64, UserInfo<H>)>,
}

impl<H> View for State<H> {
    type V = Map<u64, UserView<H>>;

    closed spec fn view(&self) -> Map<u64, UserView<H>> {
        users_view(self.users@)
    }
}

impl<H> State<H> {
    /// Ids are unique and each schedule keeps its own invariant.
    pub closed spec fn wf(&self) -> bool {
        &&& ids_unique(self.users@)
        &&& forall|i: int| 0 <= i < self.users@.len() ==> (#[trigger] self.users@[i]).1.wf()
    }

    /// No users yet.
    pub fn new() -> (r: State<H>)
        ensures
            r.wf(),
            r@ == Map::<u64, UserView<H>>::empty(),
    {
        State { users: Vec::new() }
    }

    /// Where `id` stands in the list, if it is known.
    fn find(&self, id: u64) -> (r: Option<usize>)
        requires
            self.wf(),
        ensures
            r matches Some(i) ==> i < self.users@.len() && self.users@[i as int].0 == id,
            r is None ==> !self@.contains_key(id),
    {
        let mut i: usize = 0;
        while i < self.users.len()
            invariant
                i <= self.users@.len(),
                forall|j: int| 0 <= j < i ==> self.users@[j].0 != id,
            decreases self.users@.len() - i,
        {
            if self.users[i].0 == id {
                return Some(i);
            }
            i = i + 1;
        }
        proof {
            lemma_users_view_lacks(self.users@, id);
        }
        None
    }

    /// Where `id` stands in the list, after adding a fresh schedule for it
    /// if it was not known.
    fn entry(&mut self, id: u64) -> (r: usize)
        requires
            old(self).wf(),
        ensures
            final(self).wf(),
            r < final(self).users@.len(),
            final(self).users@[r as int].0 == id,
            final(self).users@[r as int].1@ == user_or_fresh(old(self)@, id),
            final(self)@ == old(self)@.insert(id, user_or_fresh(old(self)@, id)),
    {
        match self.find(id) {
            Some(i) => {
                proof {
                    lemma_users_view_has(self.users@, i as int);
                    assert(self@.insert(id, self@[id]) =~= self@);
                }
                i
            },
            None => {
                let ghost before = self.users@;
                self.users.push((id, UserInfo::default()));
                proof {
                    assert(self.users@.drop_last() =~= before);
                    assert forall|j: int| 0 <= j < before.len() implies before[j].0 != id by {
                        if before[j].0 == id {
                            lemma_users_view_has(before, j);
                        }
                    }
                }
                self.users.len() - 1
            },
        }
    }

    /// Sets `id`'s time zone and reconfigures its schedule.
    pub fn set_time_zone(&mut self, id: u64, time_zone: TimeZone) -> (r: SchedUpdate<H>)
        requires
            old(self).wf(),
        ensures
            final(self).wf(),
            ({
                let before = user_or_fresh(old(self)@, id);
                let config = apply_setting(before.config, Setting::Zone(time_zone@));
                &&& final(self)@ == old(self)@.insert(id, UserView { config, task: None })
                &&& update_result(UserView { config, task: before.task }, r)
            }),
    {
        let i = self.entry(id);
        let ghost mid = self.users@;
        let r = self.users[i].1.set_time_zone(time_zone);
        proof {
            lemma_users_view_update(mid, i as int, self.users@[i as int]);
            assert(self.users@ =~= mid.update(i as int, self.users@[i as int]));
        }
        r
    }

    /// Sets `id`'s bedtime and reconfigures its schedule.
    pub fn set_bedtime(&mut self, id: u64, bedtime: Time) -> (r: SchedUpdate<H>)
        requires
            old(self).wf(),
            bedtime.wf(),
        ensures
            final(self).wf(),
            ({
                let before = user_or_fresh(old(self)@, id);
                let config = apply_setting(before.config, Setting::Bedtime(bedtime));
                &&& final(self)@ == old(self)@.insert(id, UserView { config, task: None })
                &&& update_result(UserView { config, task: before.task }, r)
            }),
    {
        let i = self.entry(id);
        let ghost mid = self.users@;
        let r = self.users[i].1.set_bedtime(bedtime);
        proof {
            lemma_users_view_update(mid, i as int, self.users@[i as int]);
            assert(self.users@ =~= mid.update(i as int, self.users@[i as int]));
        }
        r
    }

    /// Turns `id`'s alerts on and reconfigures its schedule.
    pub fn on(&mut self, id: u64) -> (r: SchedUpdate<H>)
        requires
            old(self).wf(),
        ensures
            final(self).wf(),
            ({
                let before = user_or_fresh(old(self)@, id);
                let config = apply_setting(before.config, Setting::On);
                &&& final(self)@ == old(self)@.insert(id, UserView { config, task: None })
                &&& update_result(UserView { config, task: before.task }, r)
            }),
    {
        let i = self.entry(id);
        let ghost mid = self.users@;
        let r = self.users[i].1.on();
        proof {
            lemma_users_view_update(mid, i as int, self.users@[i as int]);
            assert(self.users@ =~= mid.update(i as int, self.users@[i as int]));
        }
        r
    }

    /// Turns `id`'s alerts off and reconfigures: nothing is to be started.
    pub fn off(&mut self, id: u64) -> (r: SchedUpdate<H>)
        requires
            old(self).wf(),
        ensures
            final(self).wf(),
            ({
                let before = user_or_fresh(old(self)@, id);
                let config = apply_setting(before.config, Setting::Off);
                &&& final(self)@ == old(self)@.insert(id, UserView { config, task: None })
                &&& update_result(UserView { config, task: before.task }, r)
            }),
    {
        let i = self.entry(id);
        let ghost mid = self.users@;
        let r = self.users[i].1.off();
        proof {
            lemma_users_view_update(mid, i as int, self.users@[i as int]);
            assert(self.users@ =~= mid.update(i as int, self.users@[i as int]));
        }
        r
    }

    /// Reconfigures `id`'s schedule as it stands.
    pub fn update_sched(&mut self, id: u64) -> (r: SchedUpdate<H>)
        requires
            old(self).wf(),
        ensures
            final(self).wf(),
            ({
                let before = user_or_fresh(old(self)@, id);
                let config = before.config;
                &&& final(self)@ == old(self)@.insert(id, UserView { config, task: None })
                &&& update_result(UserView { config, task: before.task }, r)
            }),
    {
        let i = self.entry(id);
        let ghost mid = self.users@;
        let r = self.users[i].1.update_sched();
        proof {
            lemma_users_view_update(mid, i as int, self.users@[i as int]);
            assert(self.users@ =~= mid.update(i as int, self.users@[i as int]));
        }
        r
    }

    /// Replaces `id`'s whole configuration and reconfigures its schedule.
    pub fn set_config(&mut self, id: u64, config: ScheduleConfig) -> (r: SchedUpdate<H>)
        requires
            old(self).wf(),
            config.wf(),
        ensures
            final(self).wf(),
            ({
                let before = user_or_fresh(old(self)@, id);
                let config = config@;
                &&& final(self)@ == old(self)@.insert(id, UserView { config, task: None })
                &&& update_result(UserView { config, task: before.task }, r)
            }),
    {
        let i = self.entry(id);
        let ghost mid = self.users@;
        let r = self.users[i].1.set_config(config);
        proof {
            lemma_users_view_update(mid, i as int, self.users@[i as int]);
            assert(self.users@ =~= mid.update(i as int, self.users@[i as int]));
        }
        r
    }

    /// Whether `attach` may record a task for `id`: it is known, `Idle`,
    /// and eligible.
    pub fn can_attach(&self, id: u64) -> (r: bool)
        requires
            self.wf(),
        ensures
            r == (self@.contains_key(id) && self@[id].task is None && self@[id].config.eligible()),
    {
        match self.find(id) {
            Some(i) => {
                proof {
                    lemma_users_view_has(self.users@, i as int);
                }
                !self.users[i].1.is_armed() && self.users[i].1.config().is_eligible()
            },
            None => false,
        }
    }

    /// Records the handle of the task started for `id` from the plan of its
    /// last reconfiguration: `id` is `Armed`.
    pub fn attach(&mut self, id: u64, handle: H)
        requires
            old(self).wf(),
            old(self)@.contains_key(id),
            old(self)@[id].task is None,
            old(self)@[id].config.eligible(),
        ensures
            final(self).wf(),
            final(self)@ == old(self)@.insert(id, UserView { config: old(self)@[id].config, task: Some(handle) }),
    {
        let i = self.entry(id);
        let ghost mid = self.users@;
        self.users[i].1.attach(handle);
        proof {
            lemma_users_view_update(mid, i as int, self.users@[i as int]);
            assert(self.users@ =~= mid.update(i as int, self.users@[i as int]));
        }
    }

    /// The presence feed reports `id` online (`true`) or offline.
    pub fn presence(&mut self, id: u64, online: bool)
        requires
            old(self).wf(),
        ensures
            final(self).wf(),
            final(self)@ == old(self)@.insert(id, user_or_fresh(old(self)@, id)),
    {
        let i = self.entry(id);
        if online {
            self.users[i].1.awake();
        } else {
            self.users[i].1.asleep();
        }
    }

    /// `id` acknowledges waking: its current episode ends.
    pub fn allow_awake(&mut self, id: u64)
        requires
            old(self).wf(),
        ensures
            final(self).wf(),
            final(self)@ == old(self)@.insert(id, user_or_fresh(old(self)@, id)),
    {
        let i = self.entry(id);
        self.users[i].1.allow_awake();
    }

    /// A handle to `id`'s runtime flags, for its reminder loop.
    pub fn flags(&mut self, id: u64) -> (r: RuntimeFlags)
        requires
            old(self).wf(),
        ensures
            final(self).wf(),
            final(self)@ == old(self)@.insert(id, user_or_fresh(old(self)@, id)),
    {
        let i = self.entry(id);
        self.users[i].1.flags()
    }

    /// `id`'s settings as text.
    pub fn describe(&mut self, id: u64) -> (r: String)
        requires
            old(self).wf(),
        ensures
            final(self).wf(),
            final(self)@ == old(self)@.insert(id, user_or_fresh(old(self)@, id)),
            r@ == describe_text(user_or_fresh(old(self)@, id).config),
    {
        let i = self.entry(id);
        self.users[i].1.to_string()
    }

    /// The registry after a restart: every stored record read back into an
    /// `Idle` schedule with fresh flags (an unreadable record gives the
    /// default configuration); a later record for the same id counts.
    pub fn load(records: &Vec<(u64, UserRecord)>) -> (r: State<H>)
        ensures
            r.wf(),
            r@ == loaded_view::<H>(record_views(records@)),
    {
        let mut state = State::new();
        let mut i: usize = 0;
        while i < records.len()
            invariant
                i <= records@.len(),
                state.wf(),
                state@ == loaded_view::<H>(record_views(records@.take(i as int))),
            decreases records@.len() - i,
        {
            let config = records[i].1.to_config();
            let _ = state.set_config(records[i].0, config);
            proof {
                assert(record_views(records@.take(i + 1)).drop_last() =~= record_views(records@.take(i as int)));
            }
            i = i + 1;
        }
        proof {
            assert(records@.take(i as int) =~= records@);
        }
        state
    }

    /// At start-up, for a registry with no live task: what to start for
    /// every user, one plan for each user whose configuration is eligible
    /// and for no other.
    pub fn arm_all(&mut self) -> (r: Vec<(u64, ArmPlan)>)
        requires
            old(self).wf(),
            forall|id: u64| old(self)@.contains_key(id) ==> (#[trigger] old(self)@[id]).task is None,
        ensures
            final(self).wf(),
            final(self)@ == old(self)@,
            forall|k: int| 0 <= k < r@.len() ==> {
                let id = (#[trigger] r@[k]).0;
                &&& old(self)@.contains_key(id)
                &&& old(self)@[id].config.eligible()
                &&& old(self)@[id].config.zone == Some(r@[k].1.time_zone@)
                &&& old(self)@[id].config.bedtime == Some(r@[k].1.bedtime)
            },
            forall|id: u64| old(self)@.contains_key(id) && (#[trigger] old(self)@[id]).config.eligible()
                ==> exists|k: int| 0 <= k < r@.len() && r@[k].0 == id,
    {
        let mut plans: Vec<(u64, ArmPlan)> = Vec::new();
        let ghost start = self.users@;
        let mut i: usize = 0;
        while i < self.users.len()
            invariant
                i <= self.users@.len(),
                self.wf(),
                self.users@.len() == start.len(),
                forall|j: int| 0 <= j < start.len() ==> (#[trigger] self.users@[j]).0 == start[j].0
                    && self.users@[j].1@ == start[j].1@,
                users_view(start) == old(self)@,
                ids_unique(start),
                forall|k: int| 0 <= k < plans@.len() ==> {
                    let id = (#[trigger] plans@[k]).0;
                    &&& old(self)@.contains_key(id)
                    &&& old(self)@[id].config.eligible()
                    &&& old(self)@[id].config.zone == Some(plans@[k].1.time_zone@)
                    &&& old(self)@[id].config.bedtime == Some(plans@[k].1.bedtime)
                },
                forall|j: int| 0 <= j < i && (#[trigger] start[j]).1@.config.eligible()
                    ==> exists|k: int| 0 <= k < plans@.len() && plans@[k].0 == start[j].0,
                forall|id: u64| old(self)@.contains_key(id) ==> (#[trigger] old(self)@[id]).task is None,
            decreases start.len() - i,
        {
            proof {
                lemma_users_view_has(start, i as int);
            }
            let ghost mid = self.users@;
            let update = self.users[i].1.update_sched();
            proof {
                assert(self.users@ =~= mid.update(i as int, self.users@[i as int]));
            }
            let ghost before = plans@;
            match update.arm {
                Some(plan) => {
                    plans.push((self.users[i].0, plan));
                },
                None => {},
            }
            proof {
                assert forall|j: int| 0 <= j < i + 1 && (#[trigger] start[j]).1@.config.eligible()
                    implies exists|k: int| 0 <= k < plans@.len() && plans@[k].0 == start[j].0 by {
                    if j == i {
                        assert(plans@[plans@.len() - 1].0 == start[j].0);
                    } else {
                        let k = choose|k: int| 0 <= k < before.len() && before[k].0 == start[j].0;
                        assert(plans@[k] == before[k]);
                    }
                }
            }
            i = i + 1;
        }
        proof {
            lemma_users_view_same(self.users@, start);
            assert forall|id: u64| old(self)@.contains_key(id) && (#[trigger] old(self)@[id]).config.eligible()
                implies exists|k: int| 0 <= k < plans@.len() && plans@[k].0 == id by {
                let j = lemma_users_view_index(start, id);
                lemma_users_view_has(start, j);
            }
        }
        plans
    }

    /// One stored record per known user.
    pub fn records(&self) -> (r: Vec<(u64, UserRecord)>)
        requires
            self.wf(),
        ensures
            forall|k: int| 0 <= k < r@.len() ==> {
                let id = (#[trigger] r@[k]).0;
                &&& self@.contains_key(id)
                &&& r@[k].1@ == record_of(self@[id].config)
            },
            forall|id: u64| #[trigger] self@.contains_key(id) ==> exists|k: int| 0 <= k < r@.len() && r@[k].0 == id,
    {
        let mut out: Vec<(u64, UserRecord)> = Vec::new();
        let mut i: usize = 0;
        while i < self.users.len()
            invariant
                i <= self.users@.len(),
                self.wf(),
                out@.len() == i,
                forall|k: int| 0 <= k < i ==> (#[trigger] out@[k]).0 == self.users@[k].0
                    && out@[k].1@ == record_of(self.users@[k].1@.config),
            decreases self.users@.len() - i,
        {
            let rec = UserRecord::from_config(self.users[i].1.config());
            out.push((self.users[i].0, rec));
            i = i + 1;
        }
        proof {
            assert forall|k: int| 0 <= k < out@.len() implies {
                let id = (#[trigger] out@[k]).0;
                &&& self@.contains_key(id)
                &&& out@[k].1@ == record_of(self@[id].config)
            } by {
                lemma_users_view_has(self.users@, k);
            }
            assert forall|id: u64| #[trigger] self@.contains_key(id) implies exists|k: int| 0 <= k < out@.len() && out@[k].0 == id by {
                let j = lemma_users_view_index(self.users@, id);
                assert(out@[j].0 == id);
            }
        }
        out
    }
}

/// Stored records as values.
pub open spec fn record_views(s: Seq<(u64, UserRecord)>) -> Seq<(u64, RecordView)> {
    s.map_values(|p: (u64, UserRecord)| (p.0, p.1@))
}

/// The registry that a list of stored records loads into: each id's last
/// record read back, `Idle`.
pub open spec fn loaded_view<H>(s: Seq<(u64, RecordView)>) -> Map<u64, UserView<H>>
    decreases s.len(),
{
    if s.len() == 0 {
        Map::empty()
    } else {
        loaded_view(s.drop_last()).insert(
            s.last().0,
            UserView { config: config_of_record(s.last().1), task: None },
        )
    }
}

/// Lists with the same ids and the same schedules, place by place, give
/// the same registry.
proof fn lemma_users_view_same<H>(s: Seq<(u64, UserInfo<H>)>, t: Seq<(u64, UserInfo<H>)>)
    requires
        s.len() == t.len(),
        forall|j: int| 0 <= j < t.len() ==> (#[trigger] s[j]).0 == t[j].0 && s[j].1@ == t[j].1@,
    ensures
        users_view(s) == users_view(t),
    decreases s.len(),
{
    if s.len() > 0 {
        lemma_users_view_same(s.drop_last(), t.drop_last());
        assert(s.last().0 == t.last().0);
    }
}

/// A known id stands somewhere in the list.
proof fn lemma_users_view_index<H>(s: Seq<(u64, UserInfo<H>)>, id: u64) -> (j: int)
    requires
        users_view(s).contains_key(id),
    ensures
        0 <= j < s.len(),
        s[j].0 == id,
    decreases s.len(),
{
    if s.last().0 == id {
        s.len() - 1
    } else {
        lemma_users_view_index(s.drop_last(), id)
    }
}

} // verus!
