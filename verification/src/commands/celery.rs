use vstd::prelude::*;
use crate::brain::{Command, Reply, Response, ResponseView, ReplyView, answer_if, fixed_answer};
use crate::pattern::{Pattern, regex_compiles, regex_is_match};

verus! {

/// The request "load up celery man", in any case.
pub const CELERY_PATTERN: &'static str = r"(?i)load up celery man";

/// The bot's answer: the Celery Man emoji.
pub const CELERY_ANSWER: &'static str = ":celery_man:";

pub const CELERY_USAGE: &'static str = "`load up Celery Man`";

pub const CELERY_DESCRIPTION: &'static str = "Loads up Celery Man, for your important work";

/// Loads up Celery Man.
pub struct CeleryMan {
    pattern: Pattern,
}

impl CeleryMan {
    /// A Celery Man loader; the request pattern must compile.
    pub fn new() -> (res: CeleryMan)
        requires
            regex_compiles(CELERY_PATTERN@),
        ensures
            res.well_formed(),
    {
        match Pattern::compile(CELERY_PATTERN) {
            Some(pattern) => CeleryMan { pattern },
            None => vstd::pervasive::unreached(),
        }
    }

    /// A Celery Man loader, or `None` when the request pattern does not compile.
    pub fn try_new() -> (res: Option<CeleryMan>)
        ensures
            res is Some <==> regex_compiles(CELERY_PATTERN@),
            res matches Some(c) ==> c.well_formed(),
    {
        match Pattern::compile(CELERY_PATTERN) {
            Some(_) => Some(CeleryMan::new()),
            None => None,
        }
    }
}

impl Command for CeleryMan {
    closed spec fn well_formed(&self) -> bool {
        self.pattern.source() == CELERY_PATTERN@
    }

    open spec fn handles(
        &self,
        text: Seq<char>,
        user_id: Seq<char>,
        channel: Seq<char>,
        after: Self,
        response: ResponseView,
    ) -> bool {
        &&& after == *self
        &&& response == fixed_answer(regex_is_match(CELERY_PATTERN@, text), channel, CELERY_ANSWER@)
    }

    open spec fn ticks(&self, after: Self, reply: Option<ReplyView>) -> bool {
        after == *self && reply is None
    }

    open spec fn usage_text(&self) -> Seq<char> {
        CELERY_USAGE@
    }

    open spec fn description_text(&self) -> Seq<char> {
        CELERY_DESCRIPTION@
    }

    fn handle(&mut self, text: &str, user_id: &str, channel: &str) -> (response: Response) {
        answer_if(self.pattern.is_match(text), channel, CELERY_ANSWER)
    }

    fn periodic(&mut self) -> (reply: Option<Reply>) {
        None
    }

    fn usage(&self) -> (res: &'static str) {
        CELERY_USAGE
    }

    fn description(&self) -> (res: &'static str) {
        CELERY_DESCRIPTION
    }
}

} // verus!
