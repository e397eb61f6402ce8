use vstd::prelude::*;
use crate::chance::random_below;
use crate::text::{lex_less, sorts_before, lemma_lex_irreflexive, lemma_lex_trichotomy, lemma_lex_transitive};
use crate::brain::{Command, Disposition, Reply, Response, ResponseView, ReplyView};
use crate::pattern::{Pattern, regex_compiles, regex_is_match};
use crate::schedule::{CronSchedule, cron_parses, cron_next_after, date_text, local_offset_at, format_date, DAY_SECS};
use crate::time::{Timestamp, representable, earlier, utc_now, EARLIEST_SECS, LATEST_SECS, CLOCK_FLOOR_SECS};

verus! {

/// The content of a joy list: its sections in order, each a title and the
/// sayings filed under it.
pub type JoyEntries = Seq<(Seq<char>, Seq<Seq<char>>)>;

/// The titles strictly ascend, so no title occurs twice.
pub open spec fn titles_ascend(entries: JoyEntries) -> bool {
    forall|i: int, j: int| 0 <= i < j < entries.len() ==> lex_less(entries[i].0, entries[j].0)
}

/// The sayings filed under `title`, if the list has such a section.
pub open spec fn section_of(entries: JoyEntries, title: Seq<char>) -> Option<Seq<Seq<char>>> {
    if exists|i: int| 0 <= i < entries.len() && entries[i].0 == title {
        Some(entries[choose|i: int| 0 <= i < entries.len() && entries[i].0 == title].1)
    } else {
        None
    }
}

/// `after` is `before` with `sayings` filed under `title`: that section is
/// replaced or added, and every other section is as it was.
pub open spec fn inserted(before: JoyEntries, after: JoyEntries, title: Seq<char>, sayings: Seq<Seq<char>>) -> bool {
    forall|t: Seq<char>|
        #[trigger] section_of(after, t) == if t == title {
            Some(sayings)
        } else {
            section_of(before, t)
        }
}

/// Filing under the same title twice keeps only the later sayings.
pub proof fn lemma_later_insert_wins(
    first: JoyEntries,
    second: JoyEntries,
    third: JoyEntries,
    title: Seq<char>,
    earlier_sayings: Seq<Seq<char>>,
    later_sayings: Seq<Seq<char>>,
)
    requires
        inserted(first, second, title, earlier_sayings),
        inserted(second, third, title, later_sayings),
    ensures
        section_of(third, title) == Some(later_sayings),
        forall|t: Seq<char>| t != title ==> #[trigger] section_of(third, t) == section_of(first, t),
{
    assert(section_of(third, title) == Some(later_sayings));
    assert forall|t: Seq<char>| t != title implies #[trigger] section_of(third, t) == section_of(first, t) by {
        assert(section_of(third, t) == section_of(second, t));
        assert(section_of(second, t) == section_of(first, t));
    }
}

/// Sayings worth hearing, filed in sections kept in the order of their titles.
pub struct JoyList {
    items: Vec<(String, Vec<String>)>,
}

impl View for JoyList {
    type V = JoyEntries;

    closed spec fn view(&self) -> JoyEntries {
        self.items.deep_view()
    }
}

/// In titles that ascend, the section at index `i` is the one found under
/// its title.
pub proof fn lemma_section_at(entries: JoyEntries, i: int)
    requires
        titles_ascend(entries),
        0 <= i < entries.len(),
    ensures
        section_of(entries, entries[i].0) == Some(entries[i].1),
{
    let t = entries[i].0;
    assert(0 <= i < entries.len() && entries[i].0 == t);
    let k = choose|k: int| 0 <= k < entries.len() && entries[k].0 == t;
    lemma_lex_irreflexive(t);
    if k < i {
        assert(lex_less(entries[k].0, entries[i].0));
    } else if k > i {
        assert(lex_less(entries[i].0, entries[k].0));
    }
}

impl JoyList {
    /// Sections in title order, titles unique.
    pub open spec fn well_formed(&self) -> bool {
        titles_ascend(self@)
    }

    /// There is a section, and no section is empty: a saying can be drawn.
    pub open spec fn can_choose(&self) -> bool {
        &&& self@.len() > 0
        &&& forall|s: int| 0 <= s < self@.len() ==> #[trigger] self@[s].1.len() > 0
    }

    /// `item` is one of the sayings on the list.
    pub open spec fn offers(&self, item: Seq<char>) -> bool {
        exists|s: int, i: int|
            0 <= s < self@.len() && 0 <= i < self@[s].1.len() && #[trigger] self@[s].1[i] == item
    }

    /// An empty list.
    pub fn new() -> (res: JoyList)
        ensures
            res@ == Seq::<(Seq<char>, Seq<Seq<char>>)>::empty(),
            res.well_formed(),
    {
        let res = JoyList { items: Vec::new() };
        assert(res@ =~= Seq::<(Seq<char>, Seq<Seq<char>>)>::empty());
        res
    }

    /// The number of sections.
    pub fn len(&self) -> (res: usize)
        ensures
            res == self@.len(),
    {
        self.items.len()
    }

    /// Files `sayings` under `title`, replacing a section of that title.
    pub fn insert(&mut self, title: String, sayings: Vec<String>)
        requires
            old(self).well_formed(),
        ensures
            final(self).well_formed(),
            inserted(old(self)@, final(self)@, title@, sayings.deep_view()),
            final(self)@.len() == old(self)@.len() + if section_of(old(self)@, title@) is Some {
                0int
            } else {
                1int
            },
    {
        let ghost before = self@;
        let n = self.items.len();
        let mut i: usize = 0;
        while i < n && sorts_before(self.items[i].0.as_str(), title.as_str())
            invariant
                n == self.items@.len(),
                self@ == before,
                titles_ascend(before),
                i <= n,
                forall|j: int| 0 <= j < i ==> lex_less(#[trigger] before[j].0, title@),
            decreases n - i,
        {
            i = i + 1;
        }
        let ghost entry = (title@, sayings.deep_view());
        if i < n && self.items[i].0 == title {
            proof {
                lemma_section_at(before, i as int);
            }
            self.items.set(i, (title, sayings));
            assert(self@ =~= before.update(i as int, entry));
            assert forall|t: Seq<char>|
                #[trigger] section_of(self@, t) == if t == entry.0 {
                    Some(entry.1)
                } else {
                    section_of(before, t)
                } by {
                assert(titles_ascend(self@)) by {
                    assert forall|a: int, b: int| 0 <= a < b < self@.len() implies lex_less(
                        self@[a].0,
                        self@[b].0,
                    ) by {
                        assert(self@[a].0 == before[a].0);
                        assert(self@[b].0 == before[b].0);
                    }
                }
                if t == entry.0 {
                    lemma_section_at(self@, i as int);
                } else if exists|k: int| 0 <= k < self@.len() && self@[k].0 == t {
                    let k = choose|k: int| 0 <= k < self@.len() && self@[k].0 == t;
                    lemma_section_at(self@, k);
                    assert(k != i);
                    assert(before[k] == self@[k]);
                    lemma_section_at(before, k);
                } else {
                    if exists|k: int| 0 <= k < before.len() && before[k].0 == t {
                        let k = choose|k: int| 0 <= k < before.len() && before[k].0 == t;
                        assert(k != i);
                        assert(self@[k] == before[k]);
                    }
                }
            }
        } else {
            proof {
                if i < n {
                    lemma_lex_trichotomy(before[i as int].0, title@);
                }
                assert forall|j: int| i <= j < n implies lex_less(title@, #[trigger] before[j].0) by {
                    if j > i {
                        lemma_lex_transitive(title@, before[i as int].0, before[j].0);
                    }
                }
                assert forall|k: int| 0 <= k < before.len() implies before[k].0 != title@ by {
                    lemma_lex_irreflexive(title@);
                }
            }
            self.items.insert(i, (title, sayings));
            assert(self@ =~= before.insert(i as int, entry));
            assert(titles_ascend(self@)) by {
                assert forall|a: int, b: int| 0 <= a < b < self@.len() implies lex_less(
                    self@[a].0,
                    self@[b].0,
                ) by {
                    if b < i {
                    } else if a > i {
                        assert(self@[a] == before[a - 1]);
                        assert(self@[b] == before[b - 1]);
                    } else if a == i {
                        assert(self@[b] == before[b - 1]);
                    } else if b == i {
                    } else {
                        assert(self@[b] == before[b - 1]);
                        lemma_lex_transitive(before[a].0, title@, before[b - 1].0);
                    }
                }
            }
            assert forall|t: Seq<char>|
                #[trigger] section_of(self@, t) == if t == entry.0 {
                    Some(entry.1)
                } else {
                    section_of(before, t)
                } by {
                if t == entry.0 {
                    lemma_section_at(self@, i as int);
                } else if exists|k: int| 0 <= k < self@.len() && self@[k].0 == t {
                    let k = choose|k: int| 0 <= k < self@.len() && self@[k].0 == t;
                    lemma_section_at(self@, k);
                    if k < i {
                        lemma_section_at(before, k);
                    } else {
                        assert(k != i);
                        lemma_section_at(before, k - 1);
                    }
                } else {
                    if exists|k: int| 0 <= k < before.len() && before[k].0 == t {
                        let k = choose|k: int| 0 <= k < before.len() && before[k].0 == t;
                        if k < i {
                            assert(self@[k] == before[k]);
                        } else {
                            assert(self@[k + 1] == before[k]);
                        }
                    }
                }
            }
        }
    }

    /// Whether a saying can be drawn.
    pub fn is_choosable(&self) -> (res: bool)
        ensures
            res == self.can_choose(),
    {
        let n = self.items.len();
        if n == 0 {
            return false;
        }
        let mut s: usize = 0;
        while s < n
            invariant
                n == self@.len(),
                s <= n,
                forall|k: int| 0 <= k < s ==> #[trigger] self@[k].1.len() > 0,
            decreases n - s,
        {
            if self.items[s].1.len() == 0 {
                assert(self@[s as int].1.len() == 0);
                return false;
            }
            s = s + 1;
        }
        true
    }

    /// The saying at position `item` of section `section`.
    pub fn pick(&self, section: usize, item: usize) -> (res: &str)
        requires
            section < self@.len(),
            item < self@[section as int].1.len(),
        ensures
            res@ == self@[section as int].1[item as int],
    {
        self.items[section].1[item].as_str()
    }

    /// A saying drawn at random: first a section, then a saying in it.
    pub fn draw(&self) -> (res: &str)
        requires
            self.can_choose(),
        ensures
            self.offers(res@),
    {
        let section = random_below(self.items.len());
        assert(self@[section as int].1.len() > 0);
        let item = random_below(self.items[section].1.len());
        let res = self.pick(section, item);
        assert(self@[section as int].1[item as int] == res@);
        res
    }
}


/// When joy is announced: at 20:00 UTC on the 1st, 4th, 7th, 10th, 13th,
/// 16th, 19th, 21st, 24th, 27th and 30th of each month.
pub const NOTIFY_SCHEDULE: &'static str = "0 0 20 1,4,7,10,13,16,19,21,24,27,30 * * *";

/// Where joy is announced.
pub const NOTIFY_ROOM: &'static str = "#general";

/// What every announcement starts with.
pub const JOY_PREFIX: &'static str = "Slippy says: ";

pub const START_PATTERN: &'static str = r"(?i)start joy";

pub const STOP_PATTERN: &'static str = r"(?i)stop joy";

pub const NOW_PATTERN: &'static str = r"(?i)joy now";

pub const STARTED_ANSWER: &'static str = "I won't let you down.";

pub const STOPPED_ANSWER: &'static str = "I'll stop saying stuff.";

pub const ALREADY_QUIET_ANSWER: &'static str = "I'm already keeping quiet.";

/// The answer to "start joy" while running reads this, then when the next
/// announcement comes, then [`ALREADY_RUNNING_TAIL`].
pub const ALREADY_RUNNING_HEAD: &'static str = "I'm already spouting joy. (You'll next hear from me on *";

pub const ALREADY_RUNNING_TAIL: &'static str = "*)";

/// Said in place of a date when the schedule has no next date.
pub const NEVER: &'static str = "Hmm, looks like never";

pub const JOY_USAGE: &'static str = "`start`/`stop` `joy` or `joy now`";

pub const JOY_DESCRIPTION: &'static str = "Starts or stops me announcing ways to preserve the joy. (Or says one right now)";

/// The answer to "start joy" while running, given when the next
/// announcement comes.
pub open spec fn already_running_text(when: Seq<char>) -> Seq<char> {
    ALREADY_RUNNING_HEAD@ + when + ALREADY_RUNNING_TAIL@
}

/// `text` is how the instant reads in some local time zone, at most a day
/// away from UTC.
pub open spec fn local_date(instant: Timestamp, text: Seq<char>) -> bool {
    exists|offset: i32| -DAY_SECS < offset < DAY_SECS && text == #[trigger] date_text(instant.secs, instant.nanos, offset)
}

/// An announcement of `item`.
pub open spec fn announcement_text(item: Seq<char>) -> Seq<char> {
    JOY_PREFIX@ + item
}

/// The instant one minute before `now`: where announcing restarts from, since
/// the schedule only looks at instants after it.
pub open spec fn minute_before(now: Timestamp) -> Timestamp {
    Timestamp { secs: (now.secs - 60) as i64, nanos: now.nanos }
}

/// Announces, now and then, a saying to preserve the joy.
pub struct Joy {
    start_pattern: Pattern,
    stop_pattern: Pattern,
    now_pattern: Pattern,
    schedule: CronSchedule,
    last: Option<Timestamp>,
    list: JoyList,
}

impl Joy {
    /// When the last announcement was due; `None` while stopped.
    pub closed spec fn last(&self) -> Option<Timestamp> {
        self.last
    }

    /// The sayings.
    pub closed spec fn list(&self) -> JoyList {
        self.list
    }

    /// The same, with `last` in place of the last announcement.
    pub closed spec fn with_last(self, last: Option<Timestamp>) -> Joy {
        Joy { last, ..self }
    }

    /// Announcing.
    pub open spec fn running(&self) -> bool {
        self.last() is Some
    }

    /// The next announcement due after the last one, by the schedule.
    pub open spec fn next_run(&self) -> Option<Timestamp> {
        match self.last() {
            Some(l) => match cron_next_after(NOTIFY_SCHEDULE@, l.secs, l.nanos) {
                Some((secs, nanos)) => Some(Timestamp { secs, nanos }),
                None => None,
            },
            None => None,
        }
    }

    /// Started at `now`.
    pub open spec fn started_at(self, now: Timestamp) -> Joy {
        self.with_last(Some(minute_before(now)))
    }

    /// Stopped.
    pub open spec fn stopped(self) -> Joy {
        self.with_last(None)
    }

    /// `item` is one of the sayings.
    pub open spec fn offers(&self, item: Seq<char>) -> bool {
        self.list().offers(item)
    }

    /// The state after the timer fires at `now`, and whether an announcement
    /// is due: when the next scheduled instant has passed, it becomes the
    /// last announcement; when the schedule has run out, announcing stops.
    pub open spec fn advanced(self, now: Timestamp) -> (Joy, bool) {
        if !self.running() {
            (self, false)
        } else {
            match self.next_run() {
                None => (self.stopped(), false),
                Some(next) => if earlier(next, now) {
                    (self.with_last(Some(next)), true)
                } else {
                    (self, false)
                },
            }
        }
    }

    /// What the timer may post: nothing, or a saying in [`NOTIFY_ROOM`].
    pub open spec fn announces(&self, reply: Option<ReplyView>) -> bool {
        match reply {
            None => true,
            Some(r) => r.channel == NOTIFY_ROOM@ && exists|item: Seq<char>|
                self.offers(item) && r.text == announcement_text(item),
        }
    }

    /// A joy announcer over `list`, running from now when
    /// `enabled_on_startup`. Its patterns and schedule must compile, and a
    /// saying must be drawable from the list.
    pub fn new(enabled_on_startup: bool, list: JoyList) -> (res: Joy)
        requires
            regex_compiles(START_PATTERN@),
            regex_compiles(STOP_PATTERN@),
            regex_compiles(NOW_PATTERN@),
            cron_parses(NOTIFY_SCHEDULE@),
            list.well_formed(),
            list.can_choose(),
        ensures
            res.well_formed(),
            res.running() == enabled_on_startup,
            enabled_on_startup ==> exists|now: Timestamp| representable(now) && now.secs >= CLOCK_FLOOR_SECS
                && res.last() == Some(minute_before(now)),
            res.list() == list,
    {
        let start_pattern = match Pattern::compile(START_PATTERN) {
            Some(p) => p,
            None => vstd::pervasive::unreached(),
        };
        let stop_pattern = match Pattern::compile(STOP_PATTERN) {
            Some(p) => p,
            None => vstd::pervasive::unreached(),
        };
        let now_pattern = match Pattern::compile(NOW_PATTERN) {
            Some(p) => p,
            None => vstd::pervasive::unreached(),
        };
        let schedule = match CronSchedule::parse(NOTIFY_SCHEDULE) {
            Some(s) => s,
            None => vstd::pervasive::unreached(),
        };
        let last = if enabled_on_startup {
            let now = utc_now();
            Some(now.minus_one_minute())
        } else {
            None
        };
        Joy { start_pattern, stop_pattern, now_pattern, schedule, last, list }
    }

    /// A joy announcer as [`Joy::new`] makes it, or `None` when one of its
    /// patterns or its schedule does not compile.
    pub fn try_new(enabled_on_startup: bool, list: JoyList) -> (res: Option<Joy>)
        requires
            list.well_formed(),
            list.can_choose(),
        ensures
            res is Some <==> (regex_compiles(START_PATTERN@) && regex_compiles(STOP_PATTERN@)
                && regex_compiles(NOW_PATTERN@) && cron_parses(NOTIFY_SCHEDULE@)),
            res matches Some(j) ==> j.well_formed() && j.running() == enabled_on_startup
                && j.list() == list,
            res matches Some(j) ==> (enabled_on_startup ==> exists|now: Timestamp| representable(now)
                && now.secs >= CLOCK_FLOOR_SECS && j.last() == Some(minute_before(now))),
    {
        if Pattern::compile(START_PATTERN).is_none() || Pattern::compile(STOP_PATTERN).is_none()
            || Pattern::compile(NOW_PATTERN).is_none() || CronSchedule::parse(NOTIFY_SCHEDULE).is_none() {
            return None;
        }
        Some(Joy::new(enabled_on_startup, list))
    }

    /// Whether announcing.
    pub fn is_running(&self) -> (res: bool)
        ensures
            res == self.running(),
    {
        self.last.is_some()
    }

    /// When the last announcement was due; `None` while stopped.
    pub fn last_announcement(&self) -> (res: Option<Timestamp>)
        ensures
            res == self.last(),
    {
        self.last
    }

    /// Starts announcing as of `now`.
    pub fn start_at(&mut self, now: Timestamp)
        requires
            old(self).well_formed(),
            representable(now),
            now.secs >= EARLIEST_SECS + 60,
        ensures
            final(self).well_formed(),
            *final(self) == old(self).started_at(now),
    {
        self.last = Some(now.minus_one_minute());
    }

    /// Starts announcing as of the clock's time.
    pub fn start(&mut self)
        requires
            old(self).well_formed(),
        ensures
            final(self).well_formed(),
            exists|now: Timestamp| representable(now) && now.secs >= CLOCK_FLOOR_SECS
                && *final(self) == old(self).started_at(now),
    {
        let now = utc_now();
        self.start_at(now);
    }

    /// Stops announcing.
    pub fn stop(&mut self)
        requires
            old(self).well_formed(),
        ensures
            final(self).well_formed(),
            *final(self) == old(self).stopped(),
    {
        self.last = None;
    }

    /// When the next announcement comes, written in local time, or
    /// [`NEVER`] when the schedule has no next date.
    pub fn next_announcement(&self) -> (res: String)
        requires
            self.well_formed(),
            self.running(),
        ensures
            match self.next_run() {
                None => res@ == NEVER@,
                Some(next) => local_date(next, res@),
            },
    {
        let last = self.last.unwrap();
        match self.schedule.next_after(last) {
            Some(next) => {
                let offset = local_offset_at(next);
                let res = format_date(next, offset);
                assert(-DAY_SECS < offset < DAY_SECS && res@ == date_text(next.secs, next.nanos, offset));
                res
            },
            None => NEVER.to_owned(),
        }
    }

    /// A saying drawn from the list, to post in `channel`.
    pub fn announcement(&self, channel: &str) -> (res: Reply)
        requires
            self.well_formed(),
        ensures
            res@.channel == channel@,
            exists|item: Seq<char>| self.offers(item) && res@.text == announcement_text(item),
    {
        let chosen = self.list.draw();
        let mut text = JOY_PREFIX.to_owned();
        text.append(chosen);
        assert(self.offers(chosen@) && text@ == announcement_text(chosen@));
        Reply { channel: channel.to_owned(), text }
    }

    /// Moves the schedule on as of `now`, and tells whether an announcement
    /// is due.
    pub fn advance(&mut self, now: Timestamp) -> (due: bool)
        requires
            old(self).well_formed(),
        ensures
            final(self).well_formed(),
            (*final(self), due) == old(self).advanced(now),
            due ==> (old(self).last() matches Some(l) && final(self).last() matches Some(n) && earlier(l, n)),
            !due ==> final(self).last() is None || *final(self) == *old(self),
    {
        match self.last {
            None => false,
            Some(last) => match self.schedule.next_after(last) {
                Some(next) => {
                    if next.is_before(&now) {
                        self.last = Some(next);
                        true
                    } else {
                        false
                    }
                },
                None => {
                    self.last = None;
                    false
                },
            },
        }
    }
}

impl Command for Joy {
    closed spec fn well_formed(&self) -> bool {
        &&& self.start_pattern.source() == START_PATTERN@
        &&& self.stop_pattern.source() == STOP_PATTERN@
        &&& self.now_pattern.source() == NOW_PATTERN@
        &&& self.schedule.source() == NOTIFY_SCHEDULE@
        &&& self.list.well_formed()
        &&& self.list.can_choose()
        &&& self.last matches Some(t) ==> representable(t) && t.secs < LATEST_SECS
    }

    /// "start joy" starts announcing, or says when the next announcement
    /// comes when already running; "stop joy" stops; "joy now" says a saying
    /// right away; anything else passes.
    open spec fn handles(
        &self,
        text: Seq<char>,
        user_id: Seq<char>,
        channel: Seq<char>,
        after: Self,
        response: ResponseView,
    ) -> bool {
        if regex_is_match(START_PATTERN@, text) {
            &&& response.disposition == Disposition::Handled
            &&& if self.running() {
                &&& after == *self
                &&& match response.reply {
                    Some(r) => r.channel == channel && match self.next_run() {
                        None => r.text == already_running_text(NEVER@),
                        Some(next) => exists|when: Seq<char>| local_date(next, when) && r.text == already_running_text(when),
                    },
                    None => false,
                }
            } else {
                &&& exists|now: Timestamp| representable(now) && now.secs >= CLOCK_FLOOR_SECS
                    && after == self.started_at(now)
                &&& response.reply == Some(ReplyView { channel, text: STARTED_ANSWER@ })
            }
        } else if regex_is_match(STOP_PATTERN@, text) {
            &&& response.disposition == Disposition::Handled
            &&& if self.running() {
                after == self.stopped() && response.reply == Some(ReplyView { channel, text: STOPPED_ANSWER@ })
            } else {
                after == *self && response.reply == Some(ReplyView { channel, text: ALREADY_QUIET_ANSWER@ })
            }
        } else if regex_is_match(NOW_PATTERN@, text) {
            &&& after == *self
            &&& response.disposition == Disposition::Handled
            &&& match response.reply {
                Some(r) => r.channel == channel && exists|item: Seq<char>|
                    self.offers(item) && r.text == announcement_text(item),
                None => false,
            }
        } else {
            after == *self && response == (ResponseView { disposition: Disposition::Unhandled, reply: None })
        }
    }

    /// The timer moves the schedule on as of some instant and, when an
    /// announcement is due, posts a saying in [`NOTIFY_ROOM`].
    open spec fn ticks(&self, after: Self, reply: Option<ReplyView>) -> bool {
        &&& exists|now: Timestamp| #[trigger] self.advanced(now) == (after, reply is Some)
        &&& self.announces(reply)
        &&& reply is Some ==> (self.last() matches Some(l) && after.last() matches Some(n) && earlier(l, n))
    }

    open spec fn usage_text(&self) -> Seq<char> {
        JOY_USAGE@
    }

    open spec fn description_text(&self) -> Seq<char> {
        JOY_DESCRIPTION@
    }

    fn handle(&mut self, text: &str, user_id: &str, channel: &str) -> (response: Response) {
        if self.start_pattern.is_match(text) {
            if self.last.is_some() {
                let when = self.next_announcement();
                let mut answer = ALREADY_RUNNING_HEAD.to_owned();
                answer.append(when.as_str());
                answer.append(ALREADY_RUNNING_TAIL);
                assert(answer@ == already_running_text(when@));
                Response { disposition: Disposition::Handled, reply: Some(Reply { channel: channel.to_owned(), text: answer }) }
            } else {
                self.start();
                Response { disposition: Disposition::Handled, reply: Some(Reply::new(channel, STARTED_ANSWER)) }
            }
        } else if self.stop_pattern.is_match(text) {
            if self.last.is_some() {
                self.stop();
                Response { disposition: Disposition::Handled, reply: Some(Reply::new(channel, STOPPED_ANSWER)) }
            } else {
                Response { disposition: Disposition::Handled, reply: Some(Reply::new(channel, ALREADY_QUIET_ANSWER)) }
            }
        } else if self.now_pattern.is_match(text) {
            let reply = self.announcement(channel);
            Response { disposition: Disposition::Handled, reply: Some(reply) }
        } else {
            Response { disposition: Disposition::Unhandled, reply: None }
        }
    }

    fn periodic(&mut self) -> (reply: Option<Reply>) {
        let now = utc_now();
        if self.advance(now) {
            Some(self.announcement(NOTIFY_ROOM))
        } else {
            None
        }
    }

    fn usage(&self) -> (res: &'static str) {
        JOY_USAGE
    }

    fn description(&self) -> (res: &'static str) {
        JOY_DESCRIPTION
    }
}


/// Stopping after starting leaves the announcer as stopping alone would, and
/// stopped.
pub proof fn lemma_stop_undoes_start(joy: Joy, now: Timestamp)
    ensures
        joy.started_at(now).stopped() == joy.stopped(),
        !joy.started_at(now).stopped().running(),
{
}

/// A started announcer is running, from a minute before the start.
pub proof fn lemma_start_runs(joy: Joy, now: Timestamp)
    ensures
        joy.started_at(now).running(),
        joy.started_at(now).last() == Some(minute_before(now)),
        joy.started_at(now).list() == joy.list(),
{
}

/// When the timer fires, the last announcement either stays as it was, or
/// moves strictly forward and exactly then something is announced, or
/// announcing stops.
pub proof fn lemma_announcements_move_forward(joy: Joy, after: Joy, reply: Option<ReplyView>)
    requires
        joy.ticks(after, reply),
    ensures
        reply is Some <==> (after.running() && after.last() != joy.last()),
        reply is Some ==> earlier(joy.last().unwrap(), after.last().unwrap()),
        reply is None ==> (after == joy || !after.running()),
{
    let now = choose|now: Timestamp| #[trigger] joy.advanced(now) == (after, reply is Some);
    if reply is Some {
        assert(after.last() != joy.last()) by {
            let l = joy.last().unwrap();
            let n = after.last().unwrap();
            assert(earlier(l, n));
        }
    }
}

/// Stopping twice is stopping once.
pub proof fn lemma_stop_is_idempotent(joy: Joy)
    ensures
        joy.stopped().stopped() == joy.stopped(),
{
}

/// A stopped announcer stays quiet and stopped when the timer fires.
pub proof fn lemma_stopped_stays_quiet(joy: Joy, now: Timestamp)
    requires
        !joy.running(),
    ensures
        joy.advanced(now) == (joy, false),
{
}

/// An announcement is due only once its scheduled instant has passed, and
/// then that instant becomes the last announcement.
pub proof fn lemma_due_only_when_passed(joy: Joy, now: Timestamp)
    requires
        joy.advanced(now).1,
    ensures
        joy.next_run() matches Some(next) && earlier(next, now) && joy.advanced(now).0.last() == Some(next),
{
}

/// When the timer fires at `now` and the next scheduled instant is not
/// strictly before `now`, nothing is announced and nothing changes; when it
/// is, exactly one announcement is due and the last announcement becomes
/// that instant. A stopped announcer, or one whose schedule ran out, never
/// announces.
pub proof fn lemma_tick_announces_exactly_when_due(joy: Joy, now: Timestamp)
    ensures
        joy.advanced(now).1 <==> (joy.next_run() matches Some(next) && earlier(next, now)),
        (joy.next_run() matches Some(next) && !earlier(next, now)) ==> joy.advanced(now) == (joy, false),
        joy.advanced(now).1 ==> joy.advanced(now).0 == joy.with_last(joy.next_run()),
        joy.next_run() is None ==> !joy.advanced(now).1,
{
}

/// While announcing, "start joy" changes nothing.
pub proof fn lemma_start_while_running_changes_nothing(
    joy: Joy,
    text: Seq<char>,
    user_id: Seq<char>,
    channel: Seq<char>,
    after: Joy,
    response: ResponseView,
)
    requires
        joy.running(),
        regex_is_match(START_PATTERN@, text),
        joy.handles(text, user_id, channel, after, response),
    ensures
        after == joy,
        response.disposition == Disposition::Handled,
{
}

/// "stop joy" (when not also "start joy") leaves the announcer stopped.
pub proof fn lemma_stop_command_stops(
    joy: Joy,
    text: Seq<char>,
    user_id: Seq<char>,
    channel: Seq<char>,
    after: Joy,
    response: ResponseView,
)
    requires
        !regex_is_match(START_PATTERN@, text),
        regex_is_match(STOP_PATTERN@, text),
        joy.handles(text, user_id, channel, after, response),
    ensures
        !after.running(),
        response.disposition == Disposition::Handled,
{
}

/// Messages that ask nothing of joy change nothing and pass on.
pub proof fn lemma_other_messages_pass(
    joy: Joy,
    text: Seq<char>,
    user_id: Seq<char>,
    channel: Seq<char>,
    after: Joy,
    response: ResponseView,
)
    requires
        !regex_is_match(START_PATTERN@, text),
        !regex_is_match(STOP_PATTERN@, text),
        !regex_is_match(NOW_PATTERN@, text),
        joy.handles(text, user_id, channel, after, response),
    ensures
        after == joy,
        response.disposition == Disposition::Unhandled,
        response.reply is None,
{
}

} // verus!
