use vstd::prelude::*;
use crate::pattern::{Pattern, regex_compiles, regex_is_match};
use crate::schedule::{CronSchedule, cron_parses};
use crate::commands::BuiltinCommand;
use crate::commands::hello::{Hello, HELLO_PATTERN};
use crate::commands::thanks::{Thanks, THANKS_PATTERN};
use crate::commands::how_are_you::{HowAreYou, HOW_ARE_YOU_PATTERN};
use crate::commands::joy::{Joy, JoyList, START_PATTERN, STOP_PATTERN, NOW_PATTERN, NOTIFY_SCHEDULE, minute_before};
use crate::time::{Timestamp, representable, CLOCK_FLOOR_SECS};

verus! {

/// What a command made of a message.
#[derive(Clone, Copy, Debug, PartialEq, Eq, Structural)]
pub enum Disposition {
    /// The command answered the message.
    Handled,
    /// The message was not for this command.
    Unhandled,
    /// The command answered, and no further command may see the message.
    Terminal,
}

/// A message the bot wants posted: the channel and the text.
#[derive(Debug)]
pub struct Reply {
    pub channel: String,
    pub text: String,
}

/// The content of a [`Reply`].
pub struct ReplyView {
    pub channel: Seq<char>,
    pub text: Seq<char>,
}

impl View for Reply {
    type V = ReplyView;

    open spec fn view(&self) -> ReplyView {
        ReplyView { channel: self.channel@, text: self.text@ }
    }
}

/// The content of an optional reply.
pub open spec fn reply_view(reply: Option<Reply>) -> Option<ReplyView> {
    match reply {
        Some(r) => Some(r@),
        None => None,
    }
}

impl Reply {
    /// A reply with the given channel and text.
    pub fn new(channel: &str, text: &str) -> (res: Reply)
        ensures
            res@ == (ReplyView { channel: channel@, text: text@ }),
    {
        Reply { channel: channel.to_owned(), text: text.to_owned() }
    }
}

/// What a command does with one message: its disposition and the message it
/// posts, if any.
#[derive(Debug)]
pub struct Response {
    pub disposition: Disposition,
    pub reply: Option<Reply>,
}

/// The content of a [`Response`].
pub struct ResponseView {
    pub disposition: Disposition,
    pub reply: Option<ReplyView>,
}

impl View for Response {
    type V = ResponseView;

    open spec fn view(&self) -> ResponseView {
        ResponseView { disposition: self.disposition, reply: reply_view(self.reply) }
    }
}

/// The response of a command that answers `answer` in the same channel when
/// its pattern matched, and lets the message pass otherwise.
pub open spec fn fixed_answer(matched: bool, channel: Seq<char>, answer: Seq<char>) -> ResponseView {
    if matched {
        ResponseView {
            disposition: Disposition::Handled,
            reply: Some(ReplyView { channel: channel, text: answer }),
        }
    } else {
        ResponseView { disposition: Disposition::Unhandled, reply: None }
    }
}

/// Answers `answer` in `channel` when `matched`, and lets the message pass
/// otherwise.
pub fn answer_if(matched: bool, channel: &str, answer: &str) -> (res: Response)
    ensures
        res@ == fixed_answer(matched, channel@, answer@),
{
    if matched {
        Response { disposition: Disposition::Handled, reply: Some(Reply::new(channel, answer)) }
    } else {
        Response { disposition: Disposition::Unhandled, reply: None }
    }
}

/// Something the bot understands. Each command looks at every message and may
/// answer it; it may also post on its own when the bot's timer fires.
pub trait Command: Sized {
    /// The command's own invariant.
    spec fn well_formed(&self) -> bool;

    /// `response` is what the command may answer to `text` from `user_id` in
    /// `channel`, leaving the command as `after`.
    spec fn handles(
        &self,
        text: Seq<char>,
        user_id: Seq<char>,
        channel: Seq<char>,
        after: Self,
        response: ResponseView,
    ) -> bool;

    /// `reply` is what the command may post when the timer fires, leaving the
    /// command as `after`.
    spec fn ticks(&self, after: Self, reply: Option<ReplyView>) -> bool;

    /// How to invoke the command.
    spec fn usage_text(&self) -> Seq<char>;

    /// What the command does.
    spec fn description_text(&self) -> Seq<char>;

    /// Looks at one message.
    fn handle(&mut self, text: &str, user_id: &str, channel: &str) -> (response: Response)
        requires
            old(self).well_formed(),
        ensures
            final(self).well_formed(),
            old(self).handles(text@, user_id@, channel@, *final(self), response@),
    ;

    /// Runs when the bot's timer fires.
    fn periodic(&mut self) -> (reply: Option<Reply>)
        requires
            old(self).well_formed(),
        ensures
            final(self).well_formed(),
            old(self).ticks(*final(self), reply_view(reply)),
    ;

    /// How to invoke the command.
    fn usage(&self) -> (res: &'static str)
        ensures
            res@ == self.usage_text(),
    ;

    /// What the command does.
    fn description(&self) -> (res: &'static str)
        ensures
            res@ == self.description_text(),
    ;
}


/// A request for help: "help" as a whole word, in any case.
pub const HELP_PATTERN: &'static str = r"(?i)\bhelp\b";

/// The first line of the help message.
pub const HELP_HEADER: &'static str = "Things I understand:\n*`help`* - _Prints this message_";

/// The help message has one line per command: this, the usage,
/// [`HELP_ENTRY_MIDDLE`], the description, and [`HELP_ENTRY_CLOSE`].
pub const HELP_ENTRY_OPEN: &'static str = "\n*";

pub const HELP_ENTRY_MIDDLE: &'static str = "* - _";

pub const HELP_ENTRY_CLOSE: &'static str = "_";

/// What the bot says when nothing understood the message.
pub const FALLBACK_ANSWER: &'static str = "Can you try speaking Horse? (a hint: you can ask for `help`)";

/// The line of the help message that describes one command.
pub open spec fn help_entry(command: BuiltinCommand) -> Seq<char> {
    HELP_ENTRY_OPEN@ + command.usage_text() + HELP_ENTRY_MIDDLE@ + command.description_text()
        + HELP_ENTRY_CLOSE@
}

/// The help message for these commands: the header, then one line per
/// command, in order.
pub open spec fn help_text(commands: Seq<BuiltinCommand>) -> Seq<char>
    decreases commands.len(),
{
    if commands.len() == 0 {
        HELP_HEADER@
    } else {
        help_text(commands.drop_last()) + help_entry(commands.last())
    }
}

/// The help message for the first commands starts the help message for all
/// of them.
pub proof fn lemma_help_prefix(commands: Seq<BuiltinCommand>, k: int)
    requires
        0 <= k <= commands.len(),
    ensures
        help_text(commands.take(k)).len() <= help_text(commands).len(),
        help_text(commands).subrange(0, help_text(commands.take(k)).len() as int) == help_text(commands.take(k)),
    decreases commands.len() - k,
{
    if k == commands.len() {
        assert(commands.take(k) =~= commands);
        assert(help_text(commands).subrange(0, help_text(commands).len() as int) =~= help_text(commands));
    } else {
        lemma_help_prefix(commands, k + 1);
        assert(commands.take(k + 1).drop_last() =~= commands.take(k));
        let short = help_text(commands.take(k));
        let longer = help_text(commands.take(k + 1));
        assert(longer == short + help_entry(commands[k]));
        assert(longer.subrange(0, short.len() as int) =~= short);
        assert(help_text(commands).subrange(0, short.len() as int) =~= longer.subrange(0, short.len() as int));
    }
}

/// The help message describes every command, in order: the line of the
/// command at position `i` follows the lines of the commands before it.
pub proof fn lemma_help_lists_every_command(commands: Seq<BuiltinCommand>, i: int)
    requires
        0 <= i < commands.len(),
    ensures
        ({
            let before = help_text(commands.take(i));
            let entry = help_entry(commands[i]);
            &&& before.len() + entry.len() <= help_text(commands).len()
            &&& help_text(commands).subrange(before.len() as int, (before.len() + entry.len()) as int) == entry
        }),
{
    lemma_help_prefix(commands, i + 1);
    assert(commands.take(i + 1).drop_last() =~= commands.take(i));
    let before = help_text(commands.take(i));
    let entry = help_entry(commands[i]);
    let upto = help_text(commands.take(i + 1));
    assert(upto == before + entry);
    assert(help_text(commands).subrange(before.len() as int, (before.len() + entry.len()) as int)
        =~= upto.subrange(before.len() as int, (before.len() + entry.len()) as int));
    assert(upto.subrange(before.len() as int, (before.len() + entry.len()) as int) =~= entry);
}

/// The messages posted when each command posted what `ticks` says, in order.
pub open spec fn posted(ticks: Seq<Option<ReplyView>>) -> Seq<ReplyView>
    decreases ticks.len(),
{
    if ticks.len() == 0 {
        Seq::empty()
    } else {
        match ticks.last() {
            Some(r) => posted(ticks.drop_last()).push(r),
            None => posted(ticks.drop_last()),
        }
    }
}

/// The command `before` saw the message and became `after`, with a response
/// whose reply is `reply`: the message is handled once anything answered it,
/// and it goes on to the next command unless the response ended it.
pub open spec fn command_step(
    before: BuiltinCommand,
    after: BuiltinCommand,
    text: Seq<char>,
    user_id: Seq<char>,
    channel: Seq<char>,
    position: usize,
    handled_before: bool,
    handled_after: bool,
    next: Stage,
    reply: Option<ReplyView>,
) -> bool {
    exists|response: ResponseView| {
        &&& #[trigger] before.handles(text, user_id, channel, after, response)
        &&& reply == response.reply
        &&& handled_after == (handled_before || response.disposition == Disposition::Handled)
        &&& next == if response.disposition == Disposition::Terminal {
            Stage::Finished
        } else {
            Stage::Command((position + 1) as usize)
        }
    }
}

/// The usual commands, in the order they see each message: greetings, thanks,
/// "how are you", and joy over `joy_list`, announcing from a minute before
/// the clock reading at the start.
pub open spec fn usual_commands(commands: Seq<BuiltinCommand>, joy_list: JoyList) -> bool {
    &&& commands.len() == 4
    &&& commands[0] is Hello
    &&& commands[1] is Thanks
    &&& commands[2] is HowAreYou
    &&& commands[3] matches BuiltinCommand::Joy(j) && j.running() && j.list() == joy_list
        && exists|now: Timestamp| representable(now) && now.secs >= CLOCK_FLOOR_SECS
            && j.last() == Some(minute_before(now))
}

/// How far the bot has got with one message.
#[derive(Clone, Copy, Debug, PartialEq, Eq, Structural)]
pub enum Stage {
    /// Checking for a request for help.
    Help,
    /// Offering the message to the command at this position, or, past the
    /// last command, deciding on the fallback answer.
    Command(usize),
    /// Done with the message.
    Finished,
}

/// A message being interpreted: the text, who sent it, where, how far the
/// bot has got and whether anything has answered yet.
pub struct Interpretation {
    text: String,
    user_id: String,
    channel: String,
    stage: Stage,
    handled: bool,
}

impl Interpretation {
    pub closed spec fn text_view(&self) -> Seq<char> {
        self.text@
    }

    pub closed spec fn user_view(&self) -> Seq<char> {
        self.user_id@
    }

    pub closed spec fn channel_view(&self) -> Seq<char> {
        self.channel@
    }

    pub closed spec fn stage_view(&self) -> Stage {
        self.stage
    }

    pub closed spec fn handled_view(&self) -> bool {
        self.handled
    }

    /// A measure of the work left with `command_count` commands; each step
    /// lowers it until the interpretation is finished.
    pub open spec fn work_left(&self, command_count: nat) -> nat {
        match self.stage_view() {
            Stage::Help => command_count + 2,
            Stage::Command(i) => if i <= command_count { (command_count - i + 1) as nat } else { 0 },
            Stage::Finished => 0,
        }
    }

    /// The stage fits a bot with `command_count` commands.
    pub open spec fn fits(&self, command_count: nat) -> bool {
        self.stage_view() matches Stage::Command(i) ==> i <= command_count
    }

    /// The start of the interpretation of `text` from `user_id` in `channel`.
    pub fn new(text: &str, user_id: &str, channel: &str) -> (res: Interpretation)
        ensures
            res.text_view() == text@,
            res.user_view() == user_id@,
            res.channel_view() == channel@,
            res.stage_view() == Stage::Help,
            !res.handled_view(),
    {
        Interpretation {
            text: text.to_owned(),
            user_id: user_id.to_owned(),
            channel: channel.to_owned(),
            stage: Stage::Help,
            handled: false,
        }
    }

    /// How far the bot has got.
    pub fn stage(&self) -> (res: Stage)
        ensures
            res == self.stage_view(),
    {
        self.stage
    }

    /// Whether the bot is done with the message.
    pub fn is_finished(&self) -> (res: bool)
        ensures
            res == (self.stage_view() == Stage::Finished),
    {
        match self.stage {
            Stage::Finished => true,
            _ => false,
        }
    }

    /// Whether anything has answered the message so far.
    pub fn handled(&self) -> (res: bool)
        ensures
            res == self.handled_view(),
    {
        self.handled
    }
}

/// One step of interpretation: with the bot `before` and the
/// interpretation `conv_before`, a step leaves `after` and `conv_after` and
/// posts `reply`. This is the contract of [`SlippyBrain::interpret`].
pub open spec fn interpret_step(
    before: SlippyBrain,
    conv_before: Interpretation,
    after: SlippyBrain,
    conv_after: Interpretation,
    reply: Option<ReplyView>,
) -> bool {
    &&& after.well_formed()
    &&& after.commands().len() == before.commands().len()
    &&& conv_after.fits(after.commands().len())
    &&& conv_after.text_view() == conv_before.text_view()
    &&& conv_after.user_view() == conv_before.user_view()
    &&& conv_after.channel_view() == conv_before.channel_view()
    &&& conv_before.stage_view() != Stage::Finished ==> conv_after.work_left(after.commands().len())
        < conv_before.work_left(before.commands().len())
    &&& conv_before.handled_view() ==> conv_after.handled_view()
    &&& conv_before.stage_view() == Stage::Help ==> {
        &&& after == before
        &&& conv_after.stage_view() == Stage::Command(0)
        &&& if regex_is_match(HELP_PATTERN@, conv_before.text_view()) {
            &&& conv_after.handled_view()
            &&& reply == Some(ReplyView { channel: conv_before.channel_view(), text: help_text(before.commands()) })
        } else {
            &&& conv_after.handled_view() == conv_before.handled_view()
            &&& reply is None
        }
    }
    &&& conv_before.stage_view() is Command && conv_before.stage_view()->Command_0 < before.commands().len() ==> {
        let i = conv_before.stage_view()->Command_0;
        &&& after.commands() == before.commands().update(i as int, after.commands()[i as int])
        &&& command_step(
            before.commands()[i as int],
            after.commands()[i as int],
            conv_before.text_view(),
            conv_before.user_view(),
            conv_before.channel_view(),
            i,
            conv_before.handled_view(),
            conv_after.handled_view(),
            conv_after.stage_view(),
            reply,
        )
    }
    &&& conv_before.stage_view() is Command && conv_before.stage_view()->Command_0 >= before.commands().len() ==> {
        &&& after == before
        &&& conv_after.stage_view() == Stage::Finished
        &&& conv_after.handled_view() == conv_before.handled_view()
        &&& reply == if conv_before.handled_view() {
            None
        } else {
            Some(ReplyView { channel: conv_before.channel_view(), text: FALLBACK_ANSWER@ })
        }
    }
    &&& conv_before.stage_view() == Stage::Finished ==> {
        &&& after == before
        &&& conv_after == conv_before
        &&& reply is None
    }
}

/// A run of interpretation steps: before step `k` the bot is `bots[k]` and
/// the interpretation `convs[k]`; the step posts `replies[k]`.
pub open spec fn is_run(
    bots: Seq<SlippyBrain>,
    convs: Seq<Interpretation>,
    replies: Seq<Option<ReplyView>>,
) -> bool {
    &&& bots.len() == replies.len() + 1
    &&& convs.len() == replies.len() + 1
    &&& forall|k: int|
        0 <= k < replies.len() ==> #[trigger] interpret_step(bots[k], convs[k], bots[k + 1], convs[k + 1], replies[k])
}

/// The interpretation is offering the message to the command at position
/// `j` (or, past the last command, deciding on the fallback).
pub open spec fn at_command(conv: Interpretation, j: int) -> bool {
    conv.stage_view() is Command && conv.stage_view()->Command_0 == j
}

/// After `m` steps of a run that starts by checking for help, the run is at
/// the command at position `m - 1` (past the last command it decides on the
/// fallback) or finished, and the bot still has as many commands.
pub proof fn lemma_run_stage(
    bots: Seq<SlippyBrain>,
    convs: Seq<Interpretation>,
    replies: Seq<Option<ReplyView>>,
    m: int,
)
    requires
        is_run(bots, convs, replies),
        convs[0].stage_view() == Stage::Help,
        1 <= m < convs.len(),
    ensures
        at_command(convs[m], m - 1) || convs[m].stage_view() == Stage::Finished,
        at_command(convs[m], m - 1) ==> m - 1 <= bots[0].commands().len(),
        bots[m].commands().len() == bots[0].commands().len(),
    decreases m,
{
    let k = m - 1;
    assert(interpret_step(bots[k], convs[k], bots[k + 1], convs[k + 1], replies[k]));
    if m > 1 {
        lemma_run_stage(bots, convs, replies, k);
    }
}

/// Once a run is finished it stays finished: no command sees the message
/// again and nothing more is posted.
pub proof fn lemma_run_stays_finished(
    bots: Seq<SlippyBrain>,
    convs: Seq<Interpretation>,
    replies: Seq<Option<ReplyView>>,
    m: int,
    later: int,
)
    requires
        is_run(bots, convs, replies),
        0 <= m <= later < convs.len(),
        convs[m].stage_view() == Stage::Finished,
    ensures
        convs[later].stage_view() == Stage::Finished,
        bots[later] == bots[m],
        later > m ==> replies[later - 1] is None,
    decreases later - m,
{
    if later > m {
        let k = later - 1;
        lemma_run_stays_finished(bots, convs, replies, m, k);
        assert(interpret_step(bots[k], convs[k], bots[k + 1], convs[k + 1], replies[k]));
    }
}

/// In a run that starts by checking for help, the commands see the message
/// one per step, in order, each at most once: the step after `j + 1` steps
/// offers the message to the command at position `j`, unless the run has
/// finished, and once finished it stays finished.
pub proof fn lemma_run_goes_in_order(
    bots: Seq<SlippyBrain>,
    convs: Seq<Interpretation>,
    replies: Seq<Option<ReplyView>>,
)
    requires
        is_run(bots, convs, replies),
        convs[0].stage_view() == Stage::Help,
    ensures
        forall|m: int|
            1 <= m < convs.len() ==> at_command(#[trigger] convs[m], m - 1)
                || convs[m].stage_view() == Stage::Finished,
        forall|m: int, later: int|
            0 <= m <= later < convs.len() && #[trigger] convs[m].stage_view() == Stage::Finished
                ==> #[trigger] convs[later].stage_view() == Stage::Finished,
{
    assert forall|m: int| 1 <= m < convs.len() implies at_command(#[trigger] convs[m], m - 1)
        || convs[m].stage_view() == Stage::Finished by {
        lemma_run_stage(bots, convs, replies, m);
    }
    assert forall|m: int, later: int|
        0 <= m <= later < convs.len() && #[trigger] convs[m].stage_view() == Stage::Finished
            implies #[trigger] convs[later].stage_view() == Stage::Finished by {
        lemma_run_stays_finished(bots, convs, replies, m, later);
    }
}

/// In a run that starts by checking for help with nothing handled yet, the
/// step past the last command posts the fallback answer exactly when no
/// earlier step marked the message handled: not the help check (which marks
/// it exactly when the text asks for help) and no command (which marks it
/// exactly when it answered).
pub proof fn lemma_run_fallback(
    bots: Seq<SlippyBrain>,
    convs: Seq<Interpretation>,
    replies: Seq<Option<ReplyView>>,
    k: int,
)
    requires
        is_run(bots, convs, replies),
        convs[0].stage_view() == Stage::Help,
        !convs[0].handled_view(),
        0 <= k < replies.len(),
        at_command(convs[k], bots[0].commands().len() as int),
    ensures
        k == bots[0].commands().len() + 1,
        convs[1].handled_view() == regex_is_match(HELP_PATTERN@, convs[0].text_view()),
        forall|j: int| 1 <= j < k ==> (#[trigger] convs[j + 1].handled_view() == (convs[j].handled_view()
            || exists|response: ResponseView| {
                &&& bots[j].commands()[j - 1].handles(
                    convs[0].text_view(),
                    convs[0].user_view(),
                    convs[0].channel_view(),
                    bots[j + 1].commands()[j - 1],
                    response,
                )
                &&& response.disposition == Disposition::Handled
                &&& replies[j] == response.reply
            })),
        replies[k] == if convs[k].handled_view() {
            None
        } else {
            Some(ReplyView { channel: convs[0].channel_view(), text: FALLBACK_ANSWER@ })
        },
        convs[k + 1].stage_view() == Stage::Finished,
        forall|m: int| k < m < replies.len() ==> #[trigger] replies[m] is None,
{
    let n = bots[0].commands().len();
    if k == 0 {
        assert(convs[0].stage_view() == Stage::Help);
    } else {
        lemma_run_stage(bots, convs, replies, k);
    }
    assert(k == n + 1);
    let first = 0int;
    assert(interpret_step(bots[first], convs[first], bots[first + 1], convs[first + 1], replies[first]));
    lemma_run_keeps_message(bots, convs, replies, k);
    assert forall|j: int| 1 <= j < k implies (#[trigger] convs[j + 1].handled_view() == (convs[j].handled_view()
        || exists|response: ResponseView| {
            &&& bots[j].commands()[j - 1].handles(
                convs[0].text_view(),
                convs[0].user_view(),
                convs[0].channel_view(),
                bots[j + 1].commands()[j - 1],
                response,
            )
            &&& response.disposition == Disposition::Handled
            &&& replies[j] == response.reply
        })) by {
        assert(interpret_step(bots[j], convs[j], bots[j + 1], convs[j + 1], replies[j]));
        lemma_run_stage(bots, convs, replies, j);
        lemma_run_keeps_message(bots, convs, replies, j);
        if convs[j].stage_view() == Stage::Finished {
            lemma_run_stays_finished(bots, convs, replies, j, k);
        }
    }
    assert(interpret_step(bots[k], convs[k], bots[k + 1], convs[k + 1], replies[k]));
    if k >= 1 {
        lemma_run_stage(bots, convs, replies, k);
    }
    assert forall|m: int| k < m < replies.len() implies #[trigger] replies[m] is None by {
        lemma_run_stays_finished(bots, convs, replies, k + 1, m + 1);
    }
}

/// Every step of a run keeps the text, sender and channel of the message.
pub proof fn lemma_run_keeps_message(
    bots: Seq<SlippyBrain>,
    convs: Seq<Interpretation>,
    replies: Seq<Option<ReplyView>>,
    m: int,
)
    requires
        is_run(bots, convs, replies),
        0 <= m < convs.len(),
    ensures
        convs[m].text_view() == convs[0].text_view(),
        convs[m].user_view() == convs[0].user_view(),
        convs[m].channel_view() == convs[0].channel_view(),
    decreases m,
{
    if m > 0 {
        let k = m - 1;
        lemma_run_keeps_message(bots, convs, replies, k);
        assert(interpret_step(bots[k], convs[k], bots[k + 1], convs[k + 1], replies[k]));
    }
}

/// The bot: the commands it knows, in the order they see each message.
pub struct SlippyBrain {
    commands: Vec<BuiltinCommand>,
    help_pattern: Pattern,
}

impl SlippyBrain {
    pub closed spec fn commands(&self) -> Seq<BuiltinCommand> {
        self.commands@
    }

    /// Every command keeps its invariant, and the help pattern is the right one.
    pub closed spec fn well_formed(&self) -> bool {
        &&& self.help_pattern.source() == HELP_PATTERN@
        &&& forall|i: int| 0 <= i < self.commands@.len() ==> #[trigger] self.commands@[i].well_formed()
    }

    /// The bot with the usual commands: greetings, thanks, "how are you" and
    /// joy, announcing from the start over `joy_list`. All their patterns and
    /// the joy schedule must compile, and a saying must be drawable.
    pub fn new(joy_list: JoyList) -> (res: SlippyBrain)
        requires
            regex_compiles(HELP_PATTERN@),
            regex_compiles(HELLO_PATTERN@),
            regex_compiles(THANKS_PATTERN@),
            regex_compiles(HOW_ARE_YOU_PATTERN@),
            regex_compiles(START_PATTERN@),
            regex_compiles(STOP_PATTERN@),
            regex_compiles(NOW_PATTERN@),
            cron_parses(NOTIFY_SCHEDULE@),
            joy_list.well_formed(),
            joy_list.can_choose(),
        ensures
            res.well_formed(),
            usual_commands(res.commands(), joy_list),
    {
        let help_pattern = match Pattern::compile(HELP_PATTERN) {
            Some(p) => p,
            None => vstd::pervasive::unreached(),
        };
        let mut commands: Vec<BuiltinCommand> = Vec::new();
        commands.push(BuiltinCommand::Hello(Hello::new()));
        commands.push(BuiltinCommand::Thanks(Thanks::new()));
        commands.push(BuiltinCommand::HowAreYou(HowAreYou::new()));
        commands.push(BuiltinCommand::Joy(Joy::new(true, joy_list)));
        SlippyBrain { commands, help_pattern }
    }

    /// The bot as [`SlippyBrain::new`] makes it, or `None` when one of the
    /// patterns or the joy schedule does not compile.
    pub fn try_new(joy_list: JoyList) -> (res: Option<SlippyBrain>)
        requires
            joy_list.well_formed(),
            joy_list.can_choose(),
        ensures
            res is Some <==> (regex_compiles(HELP_PATTERN@) && regex_compiles(HELLO_PATTERN@)
                && regex_compiles(THANKS_PATTERN@) && regex_compiles(HOW_ARE_YOU_PATTERN@)
                && regex_compiles(START_PATTERN@) && regex_compiles(STOP_PATTERN@)
                && regex_compiles(NOW_PATTERN@) && cron_parses(NOTIFY_SCHEDULE@)),
            res matches Some(b) ==> b.well_formed() && usual_commands(b.commands(), joy_list),
    {
        if Pattern::compile(HELP_PATTERN).is_none() || Hello::try_new().is_none()
            || Thanks::try_new().is_none() || HowAreYou::try_new().is_none() {
            return None;
        }
        if Pattern::compile(START_PATTERN).is_none() || Pattern::compile(STOP_PATTERN).is_none()
            || Pattern::compile(NOW_PATTERN).is_none() || CronSchedule::parse(NOTIFY_SCHEDULE).is_none() {
            return None;
        }
        Some(SlippyBrain::new(joy_list))
    }

    /// The help message.
    pub fn help_message(&self) -> (res: String)
        ensures
            res@ == help_text(self.commands()),
    {
        let mut res = HELP_HEADER.to_owned();
        let n = self.commands.len();
        let mut i: usize = 0;
        while i < n
            invariant
                n == self.commands@.len(),
                i <= n,
                res@ == help_text(self.commands@.take(i as int)),
            decreases n - i,
        {
            res.append(HELP_ENTRY_OPEN);
            res.append(self.commands[i].usage());
            res.append(HELP_ENTRY_MIDDLE);
            res.append(self.commands[i].description());
            res.append(HELP_ENTRY_CLOSE);
            assert(self.commands@.take(i + 1).drop_last() =~= self.commands@.take(i as int));
            i = i + 1;
        }
        assert(self.commands@.take(n as int) =~= self.commands@);
        res
    }

    /// One step of the interpretation of a message; the caller posts the
    /// reply, if any, and calls again until the interpretation is finished.
    ///
    /// First a request for help is answered with the help message. Then each
    /// command in turn sees the message; a command that answers marks the
    /// message handled, and one that ends the message stops it there. After
    /// the last command, a message that nothing answered gets the fallback
    /// answer.
    pub fn interpret(&mut self, conv: &mut Interpretation) -> (reply: Option<Reply>)
        requires
            old(self).well_formed(),
            old(conv).fits(old(self).commands().len()),
        ensures
            interpret_step(*old(self), *old(conv), *final(self), *final(conv), reply_view(reply)),
    {
        match conv.stage {
            Stage::Help => {
                conv.stage = Stage::Command(0);
                if self.help_pattern.is_match(conv.text.as_str()) {
                    conv.handled = true;
                    let text = self.help_message();
                    let reply = Reply { channel: conv.channel.clone(), text };
                    assert(reply_view(Some(reply)) == Some(ReplyView { channel: conv.channel@, text: help_text(self.commands()) }));
                    Some(reply)
                } else {
                    None
                }
            },
            Stage::Command(i) => {
                if i < self.commands.len() {
                    assert(self.commands@[i as int].well_formed());
                    let ghost before = self.commands@;
                    let response = self.commands[i].handle(conv.text.as_str(), conv.user_id.as_str(), conv.channel.as_str());
                    assert(before[i as int].handles(conv.text@, conv.user_id@, conv.channel@, self.commands@[i as int], response@));
                    assert(self.commands@ =~= before.update(i as int, self.commands@[i as int]));
                    match response.disposition {
                        Disposition::Handled => {
                            conv.handled = true;
                            conv.stage = Stage::Command(i + 1);
                        },
                        Disposition::Unhandled => {
                            conv.stage = Stage::Command(i + 1);
                        },
                        Disposition::Terminal => {
                            conv.stage = Stage::Finished;
                        },
                    }
                    assert(self.commands@[i as int].well_formed());
                    assert(command_step(before[i as int], self.commands@[i as int], conv.text@, conv.user_id@,
                        conv.channel@, i, old(conv).handled_view(), conv.handled, conv.stage, reply_view(response.reply)));
                    response.reply
                } else {
                    conv.stage = Stage::Finished;
                    if conv.handled {
                        None
                    } else {
                        Some(Reply::new(conv.channel.as_str(), FALLBACK_ANSWER))
                    }
                }
            },
            Stage::Finished => None,
        }
    }

    /// Lets every command act on the timer, in order, and gathers what they
    /// post.
    pub fn periodic(&mut self) -> (replies: Vec<Reply>)
        requires
            old(self).well_formed(),
        ensures
            final(self).well_formed(),
            final(self).commands().len() == old(self).commands().len(),
            exists|ticks: Seq<Option<ReplyView>>| {
                &&& ticks.len() == old(self).commands().len()
                &&& forall|i: int| 0 <= i < ticks.len() ==>
                    #[trigger] old(self).commands()[i].ticks(final(self).commands()[i], ticks[i])
                &&& replies@.map_values(|r: Reply| r@) == posted(ticks)
            },
    {
        let ghost before = self.commands@;
        let ghost mut ticks: Seq<Option<ReplyView>> = Seq::empty();
        let mut replies: Vec<Reply> = Vec::new();
        let n = self.commands.len();
        let mut i: usize = 0;
        while i < n
            invariant
                n == self.commands@.len(),
                n == before.len(),
                i <= n,
                self.help_pattern.source() == HELP_PATTERN@,
                forall|k: int| 0 <= k < n ==> #[trigger] self.commands@[k].well_formed(),
                forall|k: int| i <= k < n ==> self.commands@[k] == before[k],
                ticks.len() == i,
                forall|k: int| 0 <= k < i ==> #[trigger] before[k].ticks(self.commands@[k], ticks[k]),
                replies@.map_values(|r: Reply| r@) == posted(ticks),
            decreases n - i,
        {
            assert(self.commands@[i as int].well_formed());
            let reply = self.commands[i].periodic();
            let ghost earlier_ticks = ticks;
            let ghost earlier_replies = replies@;
            proof {
                ticks = ticks.push(reply_view(reply));
                assert(ticks.drop_last() =~= earlier_ticks);
            }
            match reply {
                Some(r) => {
                    replies.push(r);
                    assert(replies@.map_values(|r: Reply| r@) =~= earlier_replies.map_values(|r: Reply| r@).push(r@));
                },
                None => {},
            }
            assert(replies@.map_values(|r: Reply| r@) =~= posted(ticks));
            i = i + 1;
        }
        replies
    }
}

} // verus!
