use vstd::prelude::*;
use crate::brain::{Command, Reply, Response, ResponseView, ReplyView, answer_if, fixed_answer};
use crate::pattern::{Pattern, regex_compiles, regex_is_match};

verus! {

/// The question "how are you", in any case.
pub const HOW_ARE_YOU_PATTERN: &'static str = r"(?i)how are you";

/// The bot's answer to the question.
pub const HOW_ARE_YOU_ANSWER: &'static str = "Great!";

pub const HOW_ARE_YOU_USAGE: &'static str = "`how are you`";

pub const HOW_ARE_YOU_DESCRIPTION: &'static str = "Asks me how I'm doing, to which I'll reply";

/// Answers "how are you".
pub struct HowAreYou {
    pattern: Pattern,
}

impl HowAreYou {
    /// An answerer; the question pattern must compile.
    pub fn new() -> (res: HowAreYou)
        requires
            regex_compiles(HOW_ARE_YOU_PATTERN@),
        ensures
            res.well_formed(),
    {
        match Pattern::compile(HOW_ARE_YOU_PATTERN) {
            Some(pattern) => HowAreYou { pattern },
            None => vstd::pervasive::unreached(),
        }
    }

    /// An answerer, or `None` when the question pattern does not compile.
    pub fn try_new() -> (res: Option<HowAreYou>)
        ensures
            res is Some <==> regex_compiles(HOW_ARE_YOU_PATTERN@),
            res matches Some(c) ==> c.well_formed(),
    {
        match Pattern::compile(HOW_ARE_YOU_PATTERN) {
            Some(_) => Some(HowAreYou::new()),
            None => None,
        }
    }
}

impl Command for HowAreYou {
    closed spec fn well_formed(&self) -> bool {
        self.pattern.source() == HOW_ARE_YOU_PATTERN@
    }

    open spec fn handles(
        &self,
        text: Seq<char>,
        user_id: Seq<char>,
        channel: Seq<char>,
        after: Self,
        response: ResponseView,
    ) -> bool {
        &&& after == *self
        &&& response == fixed_answer(regex_is_match(HOW_ARE_YOU_PATTERN@, text), channel, HOW_ARE_YOU_ANSWER@)
    }

    open spec fn ticks(&self, after: Self, reply: Option<ReplyView>) -> bool {
        after == *self && reply is None
    }

    open spec fn usage_text(&self) -> Seq<char> {
        HOW_ARE_YOU_USAGE@
    }

    open spec fn description_text(&self) -> Seq<char> {
        HOW_ARE_YOU_DESCRIPTION@
    }

    fn handle(&mut self, text: &str, user_id: &str, channel: &str) -> (response: Response) {
        answer_if(self.pattern.is_match(text), channel, HOW_ARE_YOU_ANSWER)
    }

    fn periodic(&mut self) -> (reply: Option<Reply>) {
        None
    }

    fn usage(&self) -> (res: &'static str) {
        HOW_ARE_YOU_USAGE
    }

    fn description(&self) -> (res: &'static str) {
        HOW_ARE_YOU_DESCRIPTION
    }
}

} // verus!
