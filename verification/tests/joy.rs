use slippybot::brain::{Command, Disposition};
use slippybot::commands::joy::{Joy, JoyList};
use slippybot::time::Timestamp;

fn strings(items: &[&str]) -> Vec<String> {
    items.iter().map(|s| s.to_string()).collect()
}

fn sample_list() -> JoyList {
    let mut list = JoyList::new();
    list.insert("zen".to_string(), strings(&["Breathe."]));
    list.insert("food".to_string(), strings(&["Eat a taco.", "Have some pie."]));
    list
}

/// 2024-01-01T00:00:00Z
const NEW_YEAR: i64 = 1704067200;

#[test]
fn joy_list_keeps_titles_in_order() {
    let list = sample_list();
    assert_eq!(list.len(), 2);
    assert_eq!(list.pick(0, 0), "Eat a taco.");
    assert_eq!(list.pick(0, 1), "Have some pie.");
    assert_eq!(list.pick(1, 0), "Breathe.");
}

#[test]
fn joy_list_later_insert_replaces() {
    let mut list = sample_list();
    list.insert("zen".to_string(), strings(&["Sit still.", "Smile."]));
    assert_eq!(list.len(), 2);
    assert_eq!(list.pick(1, 0), "Sit still.");
    assert_eq!(list.pick(1, 1), "Smile.");
    list.insert("art".to_string(), strings(&["Draw a horse."]));
    assert_eq!(list.len(), 3);
    assert_eq!(list.pick(0, 0), "Draw a horse.");
    assert_eq!(list.pick(1, 0), "Eat a taco.");
}

#[test]
fn joy_list_titles_order_by_code_point() {
    let mut list = JoyList::new();
    list.insert("b".to_string(), strings(&["two"]));
    list.insert("B".to_string(), strings(&["one"]));
    list.insert("ba".to_string(), strings(&["three"]));
    list.insert("é".to_string(), strings(&["four"]));
    assert_eq!(list.pick(0, 0), "one");
    assert_eq!(list.pick(1, 0), "two");
    assert_eq!(list.pick(2, 0), "three");
    assert_eq!(list.pick(3, 0), "four");
}

#[test]
fn joy_list_choosable_only_without_empty_sections() {
    let mut list = JoyList::new();
    assert!(!list.is_choosable());
    list.insert("a".to_string(), strings(&["x"]));
    assert!(list.is_choosable());
    list.insert("b".to_string(), Vec::new());
    assert!(!list.is_choosable());
}

#[test]
fn joy_list_draws_a_saying() {
    let list = sample_list();
    for _ in 0..50 {
        let drawn = list.draw();
        assert!(["Eat a taco.", "Have some pie.", "Breathe."].contains(&drawn));
    }
}

#[test]
fn joy_starts_and_stops() {
    let mut joy = Joy::try_new(false, sample_list()).expect("patterns and schedule compile");
    assert!(!joy.is_running());
    let r = joy.handle("please start joy", "U1", "C1");
    assert_eq!(r.disposition, Disposition::Handled);
    let reply = r.reply.unwrap();
    assert_eq!(reply.channel, "C1");
    assert_eq!(reply.text, "I won't let you down.");
    assert!(joy.is_running());

    let again = joy.handle("START JOY", "U1", "C1").reply.unwrap();
    assert!(again.text.starts_with("I'm already spouting joy. (You'll next hear from me on *"));
    assert!(again.text.ends_with("*)"));
    assert!(again.text.len() > "I'm already spouting joy. (You'll next hear from me on **)".len());
    assert!(joy.is_running());

    let stop = joy.handle("stop joy", "U1", "C2").reply.unwrap();
    assert_eq!(stop.channel, "C2");
    assert_eq!(stop.text, "I'll stop saying stuff.");
    assert!(!joy.is_running());
    assert_eq!(joy.last_announcement(), None);

    let quiet = joy.handle("stop joy", "U1", "C2").reply.unwrap();
    assert_eq!(quiet.text, "I'm already keeping quiet.");
}

#[test]
fn joy_now_says_a_saying() {
    let mut joy = Joy::try_new(false, sample_list()).expect("patterns and schedule compile");
    let r = joy.handle("joy now!", "U1", "C9");
    assert_eq!(r.disposition, Disposition::Handled);
    let reply = r.reply.unwrap();
    assert_eq!(reply.channel, "C9");
    assert!([
        "Slippy says: Eat a taco.",
        "Slippy says: Have some pie.",
        "Slippy says: Breathe."
    ]
    .contains(&reply.text.as_str()));
    assert!(!joy.is_running());
}

#[test]
fn joy_lets_other_messages_pass() {
    let mut joy = Joy::try_new(true, sample_list()).expect("patterns and schedule compile");
    let r = joy.handle("enjoy your lunch", "U1", "C1");
    assert_eq!(r.disposition, Disposition::Unhandled);
    assert!(r.reply.is_none());
    assert!(joy.is_running());
}

#[test]
fn joy_enabled_on_startup_runs_from_a_minute_ago() {
    let joy = Joy::try_new(true, sample_list()).expect("patterns and schedule compile");
    let last = joy.last_announcement().expect("running");
    assert!(last.secs > NEW_YEAR);
}

#[test]
fn start_at_goes_back_one_minute() {
    let mut joy = Joy::try_new(false, sample_list()).unwrap();
    joy.start_at(Timestamp { secs: NEW_YEAR, nanos: 5 });
    assert_eq!(joy.last_announcement(), Some(Timestamp { secs: NEW_YEAR - 60, nanos: 5 }));
}

#[test]
fn announcements_follow_the_schedule() {
    let mut joy = Joy::try_new(false, sample_list()).unwrap();
    joy.start_at(Timestamp { secs: NEW_YEAR, nanos: 0 });
    // 2024-01-01T20:00:00Z is the first scheduled instant.
    let first = NEW_YEAR + 20 * 3600;
    assert!(!joy.advance(Timestamp { secs: first - 1, nanos: 0 }));
    assert!(!joy.advance(Timestamp { secs: first, nanos: 0 }));
    assert_eq!(joy.last_announcement(), Some(Timestamp { secs: NEW_YEAR - 60, nanos: 0 }));
    assert!(joy.advance(Timestamp { secs: first, nanos: 1 }));
    assert_eq!(joy.last_announcement(), Some(Timestamp { secs: first, nanos: 0 }));
    // The next one is on the 4th.
    assert!(!joy.advance(Timestamp { secs: first + 3600, nanos: 0 }));
    assert!(joy.advance(Timestamp { secs: first + 3 * 86400 + 1, nanos: 0 }));
    assert_eq!(joy.last_announcement(), Some(Timestamp { secs: first + 3 * 86400, nanos: 0 }));
}

#[test]
fn a_stopped_joy_announces_nothing() {
    let mut joy = Joy::try_new(false, sample_list()).unwrap();
    assert!(!joy.advance(Timestamp { secs: NEW_YEAR, nanos: 0 }));
    assert!(joy.periodic().is_none());
    assert_eq!(joy.last_announcement(), None);
}

#[test]
fn periodic_announces_in_general_when_due() {
    let mut joy = Joy::try_new(false, sample_list()).unwrap();
    joy.start_at(Timestamp { secs: NEW_YEAR, nanos: 0 });
    let reply = joy.periodic().expect("a scheduled instant has passed since 2024");
    assert_eq!(reply.channel, "#general");
    assert!(reply.text.starts_with("Slippy says: "));
    let last = joy.last_announcement().unwrap();
    assert_eq!(last.secs, NEW_YEAR + 20 * 3600);
    assert_eq!(last.nanos, 0);
}

#[test]
fn joy_usage_and_description() {
    let joy = Joy::try_new(false, sample_list()).unwrap();
    assert_eq!(joy.usage(), "`start`/`stop` `joy` or `joy now`");
    assert_eq!(joy.description(), "Starts or stops me announcing ways to preserve the joy. (Or says one right now)");
}

#[test]
fn missed_announcements_come_one_per_tick() {
    // 2017-01-01T20:00:00Z, then the clock reads 2017-01-11T00:00:00Z.
    let first = 1483300800;
    let now = Timestamp { secs: 1484092800, nanos: 0 };
    let mut joy = Joy::try_new(false, sample_list()).unwrap();
    joy.start_at(Timestamp { secs: first + 60, nanos: 0 });
    assert_eq!(joy.last_announcement(), Some(Timestamp { secs: first, nanos: 0 }));
    for days in [3, 6, 9] {
        assert!(joy.advance(now));
        assert_eq!(joy.last_announcement(), Some(Timestamp { secs: first + days * 86400, nanos: 0 }));
    }
    assert!(!joy.advance(now));
    assert_eq!(joy.last_announcement(), Some(Timestamp { secs: first + 9 * 86400, nanos: 0 }));
}
