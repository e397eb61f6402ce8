use slippybot::brain::{Interpretation, SlippyBrain, Stage};
use slippybot::commands::joy::JoyList;

fn brain() -> SlippyBrain {
    let mut list = JoyList::new();
    list.insert("general".to_string(), vec!["Be kind.".to_string()]);
    SlippyBrain::try_new(list).expect("all patterns compile")
}

fn run(brain: &mut SlippyBrain, text: &str, channel: &str) -> Vec<(String, String)> {
    let mut conv = Interpretation::new(text, "U1", channel);
    let mut replies = Vec::new();
    let mut steps = 0;
    while !conv.is_finished() {
        if let Some(reply) = brain.interpret(&mut conv) {
            replies.push((reply.channel, reply.text));
        }
        steps += 1;
        assert!(steps < 100);
    }
    replies
}

const HELP: &str = "Things I understand:\n*`help`* - _Prints this message_\n*`hi` or `hello`* - _Says hi to me, to which I reply_\n*`thanks`/`thank you`* - _Thanks me for something I did. I'll accept, graciously._\n*`how are you`* - _Asks me how I'm doing, to which I'll reply_\n*`start`/`stop` `joy` or `joy now`* - _Starts or stops me announcing ways to preserve the joy. (Or says one right now)_";

#[test]
fn help_lists_every_command() {
    let b = brain();
    assert_eq!(b.help_message(), HELP);
}

#[test]
fn help_is_answered_without_fallback() {
    let mut b = brain();
    let replies = run(&mut b, "help me", "C1");
    assert_eq!(replies, vec![("C1".to_string(), HELP.to_string())]);
}

#[test]
fn greeting_is_answered() {
    let mut b = brain();
    let replies = run(&mut b, "hi slippy", "C1");
    assert_eq!(replies, vec![("C1".to_string(), "Hello to you".to_string())]);
}

#[test]
fn several_commands_answer_in_order() {
    let mut b = brain();
    let replies = run(&mut b, "help, hi, thanks, how are you", "C3");
    let texts: Vec<&str> = replies.iter().map(|(_, t)| t.as_str()).collect();
    assert_eq!(texts, vec![HELP, "Hello to you", "You're welcome!", "Great!"]);
}

#[test]
fn nothing_understood_gets_the_fallback() {
    let mut b = brain();
    let replies = run(&mut b, "neigh", "C2");
    assert_eq!(
        replies,
        vec![("C2".to_string(), "Can you try speaking Horse? (a hint: you can ask for `help`)".to_string())]
    );
}

#[test]
fn interpretation_goes_through_the_stages() {
    let mut b = brain();
    let mut conv = Interpretation::new("hello", "U1", "C1");
    assert_eq!(conv.stage(), Stage::Help);
    assert!(b.interpret(&mut conv).is_none());
    assert_eq!(conv.stage(), Stage::Command(0));
    assert!(b.interpret(&mut conv).is_some());
    assert!(conv.handled());
    assert_eq!(conv.stage(), Stage::Command(1));
    b.interpret(&mut conv);
    b.interpret(&mut conv);
    b.interpret(&mut conv);
    assert_eq!(conv.stage(), Stage::Command(4));
    assert!(b.interpret(&mut conv).is_none());
    assert!(conv.is_finished());
    assert!(b.interpret(&mut conv).is_none());
    assert!(conv.is_finished());
}

#[test]
fn joy_can_be_stopped_through_the_brain() {
    let mut b = brain();
    let replies = run(&mut b, "stop joy", "C1");
    assert_eq!(replies, vec![("C1".to_string(), "I'll stop saying stuff.".to_string())]);
    let replies = run(&mut b, "stop joy", "C1");
    assert_eq!(replies, vec![("C1".to_string(), "I'm already keeping quiet.".to_string())]);
    assert!(b.periodic().is_empty());
}
