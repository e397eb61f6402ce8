use slippybot::brain::{Command, Disposition, Response};
use slippybot::commands::celery::CeleryMan;
use slippybot::commands::hello::Hello;
use slippybot::commands::how_are_you::HowAreYou;
use slippybot::commands::say::Say;
use slippybot::commands::thanks::Thanks;

fn answered(response: &Response, channel: &str, text: &str) {
    assert_eq!(response.disposition, Disposition::Handled);
    let reply = response.reply.as_ref().expect("a reply");
    assert_eq!(reply.channel, channel);
    assert_eq!(reply.text, text);
}

fn passed(response: &Response) {
    assert_eq!(response.disposition, Disposition::Unhandled);
    assert!(response.reply.is_none());
}

#[test]
fn hello_answers_greetings() {
    let mut hello = Hello::try_new().expect("the greeting pattern compiles");
    answered(&hello.handle("hi there", "U1", "C1"), "C1", "Hello to you");
    answered(&hello.handle("well, HELLO slippy", "U1", "C2"), "C2", "Hello to you");
    passed(&hello.handle("ship it", "U1", "C1"));
    passed(&hello.handle("helloooo", "U1", "C1"));
    passed(&hello.handle("this is ohio", "U1", "C1"));
    assert!(hello.periodic().is_none());
    assert_eq!(hello.usage(), "`hi` or `hello`");
    assert_eq!(hello.description(), "Says hi to me, to which I reply");
}

#[test]
fn thanks_are_accepted() {
    let mut thanks = Thanks::try_new().expect("the thanks pattern compiles");
    answered(&thanks.handle("Thank you, bot", "U1", "C1"), "C1", "You're welcome!");
    answered(&thanks.handle("thanks!", "U1", "C1"), "C1", "You're welcome!");
    passed(&thanks.handle("happy thanksgiving", "U1", "C1"));
    passed(&thanks.handle("thanksgiving dinner", "U1", "C1"));
    assert_eq!(thanks.usage(), "`thanks`/`thank you`");
}

#[test]
fn how_are_you_is_great() {
    let mut how = HowAreYou::try_new().expect("the question pattern compiles");
    answered(&how.handle("Slippy, how are you?", "U1", "C1"), "C1", "Great!");
    passed(&how.handle("how you are", "U1", "C1"));
    assert_eq!(how.description(), "Asks me how I'm doing, to which I'll reply");
}

#[test]
fn celery_man_loads() {
    let mut celery = CeleryMan::try_new().expect("the request pattern compiles");
    answered(&celery.handle("Computer, load up Celery Man please", "U1", "C1"), "C1", ":celery_man:");
    passed(&celery.handle("load up", "U1", "C1"));
    assert_eq!(celery.usage(), "`load up Celery Man`");
}

#[test]
fn say_here() {
    let mut say = Say::try_new().expect("the say pattern compiles");
    answered(&say.handle("say hello world", "U1", "C1"), "C1", "hello world");
}

#[test]
fn say_in_another_channel() {
    let mut say = Say::try_new().expect("the say pattern compiles");
    answered(&say.handle("say in <#C42|random> hi all", "U1", "C1"), "C42", "hi all");
    answered(&say.handle("Say in <@U7|bob> psst", "U1", "C1"), "U7", "psst");
}

#[test]
fn say_needs_something_to_say() {
    let mut say = Say::try_new().expect("the say pattern compiles");
    passed(&say.handle("say", "U1", "C1"));
    passed(&say.handle("nothing to see", "U1", "C1"));
    assert_eq!(say.description(), "Says something (optionally in another channel)");
}
