use vstd::prelude::*;
use crate::brain::{Command, Reply, Response, ResponseView, ReplyView, answer_if, fixed_answer};
use crate::pattern::{Pattern, regex_compiles, regex_is_match};

verus! {

/// Greetings: "hi" or "hello" as whole words, in any case.
pub const HELLO_PATTERN: &'static str = r"(?i)\bhi\b|\bhello\b";

/// The bot's answer to a greeting.
pub const HELLO_ANSWER: &'static str = "Hello to you";

pub const HELLO_USAGE: &'static str = "`hi` or `hello`";

pub const HELLO_DESCRIPTION: &'static str = "Says hi to me, to which I reply";

/// Answers greetings.
pub struct Hello {
    pattern: Pattern,
}

impl Hello {
    /// A greeter; the greeting pattern must compile.
    pub fn new() -> (res: Hello)
        requires
            regex_compiles(HELLO_PATTERN@),
        ensures
            res.well_formed(),
    {
        match Pattern::compile(HELLO_PATTERN) {
            Some(pattern) => Hello { pattern },
            None => vstd::pervasive::unreached(),
        }
    }

    /// A greeter, or `None` when the greeting pattern does not compile.
    pub fn try_new() -> (res: Option<Hello>)
        ensures
            res is Some <==> regex_compiles(HELLO_PATTERN@),
            res matches Some(h) ==> h.well_formed(),
    {
        match Pattern::compile(HELLO_PATTERN) {
            Some(_) => Some(Hello::new()),
            None => None,
        }
    }
}

impl Command for Hello {
    closed spec fn well_formed(&self) -> bool {
        self.pattern.source() == HELLO_PATTERN@
    }

    open spec fn handles(
        &self,
        text: Seq<char>,
        user_id: Seq<char>,
        channel: Seq<char>,
        after: Self,
        response: ResponseView,
    ) -> bool {
        &&& after == *self
        &&& response == fixed_answer(regex_is_match(HELLO_PATTERN@, text), channel, HELLO_ANSWER@)
    }

    open spec fn ticks(&self, after: Self, reply: Option<ReplyView>) -> bool {
        after == *self && reply is None
    }

    open spec fn usage_text(&self) -> Seq<char> {
        HELLO_USAGE@
    }

    open spec fn description_text(&self) -> Seq<char> {
        HELLO_DESCRIPTION@
    }

    fn handle(&mut self, text: &str, user_id: &str, channel: &str) -> (response: Response) {
        answer_if(self.pattern.is_match(text), channel, HELLO_ANSWER)
    }

    fn periodic(&mut self) -> (reply: Option<Reply>) {
        None
    }

    fn usage(&self) -> (res: &'static str) {
        HELLO_USAGE
    }

    fn description(&self) -> (res: &'static str) {
        HELLO_DESCRIPTION
    }
}

} // verus!
