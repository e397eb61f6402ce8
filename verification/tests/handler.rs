use slippybot::config::Configuration;
use slippybot::handler::{direct_channel, mention_pattern_for, SlippyHandler};

fn connected() -> SlippyHandler {
    let mut h = SlippyHandler::new(30);
    assert!(h.connect(Some("slippy".to_string()), Some("U0SLIPPY".to_string())));
    h
}

#[test]
fn mention_pattern_is_built_from_name_and_id() {
    assert_eq!(mention_pattern_for("slippy", "U1"), "(?i)(?:^|[^:])slippy|@U1");
}

#[test]
fn direct_channels_start_with_d() {
    assert!(direct_channel("D123"));
    assert!(!direct_channel("C123"));
    assert!(!direct_channel(""));
}

#[test]
fn nothing_is_interpreted_before_connecting() {
    let h = SlippyHandler::new(30);
    assert_eq!(h.interval(), 30);
    assert!(!h.should_interpret(Some("slippy hi"), Some("D1"), Some("U9")));
}

#[test]
fn connecting_needs_name_and_id() {
    let mut h = SlippyHandler::new(5);
    assert!(h.connect(Some("slippy".to_string()), None));
    assert!(!h.should_interpret(Some("hey slippy"), Some("D1"), Some("U9")));
}

#[test]
fn mentions_are_interpreted() {
    let h = connected();
    assert!(h.should_interpret(Some("hey Slippy, hi"), Some("C1"), Some("U9")));
    assert!(h.should_interpret(Some("<@U0SLIPPY> hi"), Some("C1"), Some("U9")));
    assert!(!h.should_interpret(Some("hi everyone"), Some("C1"), Some("U9")));
    assert!(!h.should_interpret(Some(":slippy: emoji"), Some("C1"), Some("U9")));
}

#[test]
fn direct_messages_are_interpreted() {
    let h = connected();
    assert!(h.should_interpret(Some("hi"), Some("D42"), Some("U9")));
}

#[test]
fn own_messages_are_ignored() {
    let h = connected();
    assert!(!h.should_interpret(Some("hey slippy"), Some("D42"), Some("U0SLIPPY")));
}

#[test]
fn incomplete_messages_are_ignored() {
    let h = connected();
    assert!(!h.should_interpret(None, Some("D42"), Some("U9")));
    assert!(!h.should_interpret(Some("slippy"), None, Some("U9")));
    assert!(!h.should_interpret(Some("slippy"), Some("C1"), None));
}

#[test]
fn a_name_that_is_no_pattern_is_refused() {
    let mut h = SlippyHandler::new(5);
    assert!(!h.connect(Some("bad(".to_string()), Some("U1".to_string())));
    assert!(!h.should_interpret(Some("hi"), Some("D1"), Some("U9")));
}

#[test]
fn configuration_holds_key_and_interval() {
    let c = Configuration { api_key: "SECRET-REDACTED".to_string(), interval: 60 };
    assert_eq!(c.interval, 60);
    assert_eq!(c.api_key, "SECRET-REDACTED");
}
