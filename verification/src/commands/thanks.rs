use vstd::prelude::*;
use crate::brain::{Command, Reply, Response, ResponseView, ReplyView, answer_if, fixed_answer};
use crate::pattern::{Pattern, regex_compiles, regex_is_match};

verus! {

/// Thanks: "thanks" or "thank you" as whole words, in any case.
pub const THANKS_PATTERN: &'static str = r"(?i)\bthanks\b|\bthank you\b";

/// The bot's answer to thanks.
pub const THANKS_ANSWER: &'static str = "You're welcome!";

pub const THANKS_USAGE: &'static str = "`thanks`/`thank you`";

pub const THANKS_DESCRIPTION: &'static str = "Thanks me for something I did. I'll accept, graciously.";

/// Accepts thanks.
pub struct Thanks {
    pattern: Pattern,
}

impl Thanks {
    /// A thanks acceptor; the thanks pattern must compile.
    pub fn new() -> (res: Thanks)
        requires
            regex_compiles(THANKS_PATTERN@),
        ensures
            res.well_formed(),
    {
        match Pattern::compile(THANKS_PATTERN) {
            Some(pattern) => Thanks { pattern },
            None => vstd::pervasive::unreached(),
        }
    }

    /// A thanks acceptor, or `None` when the thanks pattern does not compile.
    pub fn try_new() -> (res: Option<Thanks>)
        ensures
            res is Some <==> regex_compiles(THANKS_PATTERN@),
            res matches Some(c) ==> c.well_formed(),
    {
        match Pattern::compile(THANKS_PATTERN) {
            Some(_) => Some(Thanks::new()),
            None => None,
        }
    }
}

impl Command for Thanks {
    closed spec fn well_formed(&self) -> bool {
        self.pattern.source() == THANKS_PATTERN@
    }

    open spec fn handles(
        &self,
        text: Seq<char>,
        user_id: Seq<char>,
        channel: Seq<char>,
        after: Self,
        response: ResponseView,
    ) -> bool {
        &&& after == *self
        &&& response == fixed_answer(regex_is_match(THANKS_PATTERN@, text), channel, THANKS_ANSWER@)
    }

    open spec fn ticks(&self, after: Self, reply: Option<ReplyView>) -> bool {
        after == *self && reply is None
    }

    open spec fn usage_text(&self) -> Seq<char> {
        THANKS_USAGE@
    }

    open spec fn description_text(&self) -> Seq<char> {
        THANKS_DESCRIPTION@
    }

    fn handle(&mut self, text: &str, user_id: &str, channel: &str) -> (response: Response) {
        answer_if(self.pattern.is_match(text), channel, THANKS_ANSWER)
    }

    fn periodic(&mut self) -> (reply: Option<Reply>) {
        None
    }

    fn usage(&self) -> (res: &'static str) {
        THANKS_USAGE
    }

    fn description(&self) -> (res: &'static str) {
        THANKS_DESCRIPTION
    }
}

} // verus!
