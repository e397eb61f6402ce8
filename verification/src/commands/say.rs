use vstd::prelude::*;
use crate::brain::{Command, Disposition, Reply, Response, ResponseView, ReplyView};
use crate::pattern::{Pattern, regex_compiles, regex_capture_group};

verus! {

/// "say", optionally "in <#channel|name> " or "in <@user|name> ", then the
/// message to say.
pub const SAY_PATTERN: &'static str = r"(?i)say (?:in <[#@](?P<channel>\w+)\|\w+> )?(?P<message>.+)";

/// The capture group holding the message.
pub const MESSAGE_GROUP: &'static str = "message";

/// The capture group holding the channel to say it in.
pub const CHANNEL_GROUP: &'static str = "channel";

pub const SAY_USAGE: &'static str = "`say (in #channel) message";

pub const SAY_DESCRIPTION: &'static str = "Says something (optionally in another channel)";

/// What the bot answers to `text` seen in `channel`: when the pattern
/// captured a message, it says the message in the captured channel, or in
/// `channel` when none was captured.
pub open spec fn say_response(text: Seq<char>, channel: Seq<char>) -> ResponseView {
    match regex_capture_group(SAY_PATTERN@, text, MESSAGE_GROUP@) {
        Some(Some(message)) => ResponseView {
            disposition: Disposition::Handled,
            reply: Some(ReplyView {
                channel: match regex_capture_group(SAY_PATTERN@, text, CHANNEL_GROUP@) {
                    Some(Some(target)) => target,
                    _ => channel,
                },
                text: message,
            }),
        },
        _ => ResponseView { disposition: Disposition::Unhandled, reply: None },
    }
}

/// Says things, here or in another channel.
pub struct Say {
    pattern: Pattern,
}

impl Say {
    /// A sayer; the pattern must compile.
    pub fn new() -> (res: Say)
        requires
            regex_compiles(SAY_PATTERN@),
        ensures
            res.well_formed(),
    {
        match Pattern::compile(SAY_PATTERN) {
            Some(pattern) => Say { pattern },
            None => vstd::pervasive::unreached(),
        }
    }

    /// A sayer, or `None` when the pattern does not compile.
    pub fn try_new() -> (res: Option<Say>)
        ensures
            res is Some <==> regex_compiles(SAY_PATTERN@),
            res matches Some(c) ==> c.well_formed(),
    {
        match Pattern::compile(SAY_PATTERN) {
            Some(_) => Some(Say::new()),
            None => None,
        }
    }
}

impl Command for Say {
    closed spec fn well_formed(&self) -> bool {
        self.pattern.source() == SAY_PATTERN@
    }

    open spec fn handles(
        &self,
        text: Seq<char>,
        user_id: Seq<char>,
        channel: Seq<char>,
        after: Self,
        response: ResponseView,
    ) -> bool {
        &&& after == *self
        &&& response == say_response(text, channel)
    }

    open spec fn ticks(&self, after: Self, reply: Option<ReplyView>) -> bool {
        after == *self && reply is None
    }

    open spec fn usage_text(&self) -> Seq<char> {
        SAY_USAGE@
    }

    open spec fn description_text(&self) -> Seq<char> {
        SAY_DESCRIPTION@
    }

    fn handle(&mut self, text: &str, user_id: &str, channel: &str) -> (response: Response) {
        if let Some(Some(message)) = self.pattern.capture_group(text, MESSAGE_GROUP) {
            let reply_channel = match self.pattern.capture_group(text, CHANNEL_GROUP) {
                Some(Some(target)) => target,
                _ => channel.to_owned(),
            };
            return Response {
                disposition: Disposition::Handled,
                reply: Some(Reply { channel: reply_channel, text: message }),
            };
        }
        Response { disposition: Disposition::Unhandled, reply: None }
    }

    fn periodic(&mut self) -> (reply: Option<Reply>) {
        None
    }

    fn usage(&self) -> (res: &'static str) {
        SAY_USAGE
    }

    fn description(&self) -> (res: &'static str) {
        SAY_DESCRIPTION
    }
}

} // verus!
