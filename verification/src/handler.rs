use vstd::prelude::*;
use crate::pattern::{Pattern, regex_compiles, regex_is_match};

verus! {

/// Mentions of the bot start like this, then its name, [`MENTION_MIDDLE`] and
/// its id: the name not right after a colon, or "@" and the id.
pub const MENTION_HEAD: &'static str = "(?i)(?:^|[^:])";

pub const MENTION_MIDDLE: &'static str = "|@";

/// The pattern that finds mentions of the bot called `name` with id `id`.
/// The name and id are put in as they are, not escaped.
pub open spec fn mention_pattern(name: Seq<char>, id: Seq<char>) -> Seq<char> {
    MENTION_HEAD@ + name + MENTION_MIDDLE@ + id
}

/// The channel is a direct conversation: its id starts with "D".
pub open spec fn is_direct_channel(channel: Seq<char>) -> bool {
    channel.len() > 0 && channel[0] == 'D'
}

/// The pattern that finds mentions of the bot called `name` with id `id`.
pub fn mention_pattern_for(name: &str, id: &str) -> (res: String)
    ensures
        res@ == mention_pattern(name@, id@),
{
    let mut res = MENTION_HEAD.to_owned();
    res.append(name);
    res.append(MENTION_MIDDLE);
    res.append(id);
    res
}

/// Whether the channel is a direct conversation.
pub fn direct_channel(channel: &str) -> (res: bool)
    ensures
        res == is_direct_channel(channel@),
{
    channel.unicode_len() > 0 && channel.get_char(0) == 'D'
}

/// What the bot knows of itself on the connection: its name, its id, the
/// pattern that finds mentions of it, and how often its timer fires.
pub struct SlippyHandler {
    my_name: Option<String>,
    my_id: Option<String>,
    me_finder: Option<Pattern>,
    interval: u64,
}

impl SlippyHandler {
    pub closed spec fn name_view(&self) -> Option<Seq<char>> {
        match self.my_name {
            Some(n) => Some(n@),
            None => None,
        }
    }

    pub closed spec fn id_view(&self) -> Option<Seq<char>> {
        match self.my_id {
            Some(i) => Some(i@),
            None => None,
        }
    }

    /// The pattern that finds mentions, once connected.
    pub closed spec fn finder_view(&self) -> Option<Seq<char>> {
        match self.me_finder {
            Some(p) => Some(p.source()),
            None => None,
        }
    }

    pub closed spec fn interval_view(&self) -> u64 {
        self.interval
    }

    /// Whether a message should go to the bot: it has text, a channel and a
    /// sender; the bot knows who it is; the message mentions the bot or comes
    /// in a direct conversation; and the bot did not send it itself.
    pub open spec fn wants(
        &self,
        text: Option<Seq<char>>,
        channel: Option<Seq<char>>,
        user: Option<Seq<char>>,
    ) -> bool {
        match (text, self.id_view(), self.finder_view(), channel, user) {
            (Some(t), Some(me), Some(finder), Some(c), Some(u)) =>
                (regex_is_match(finder, t) || is_direct_channel(c)) && u != me,
            _ => false,
        }
    }

    /// A handler that does not know itself yet, with the timer firing every
    /// `periodic_interval` seconds.
    pub fn new(periodic_interval: u64) -> (res: SlippyHandler)
        ensures
            res.name_view() is None,
            res.id_view() is None,
            res.finder_view() is None,
            res.interval_view() == periodic_interval,
    {
        SlippyHandler { my_name: None, my_id: None, me_finder: None, interval: periodic_interval }
    }

    /// How often the timer fires, in seconds.
    pub fn interval(&self) -> (res: u64)
        ensures
            res == self.interval_view(),
    {
        self.interval
    }

    /// Learns the bot's name and id when the connection reports both, and
    /// from them the pattern that finds mentions, which must compile; learns
    /// nothing otherwise.
    pub fn on_connect(&mut self, name: Option<String>, id: Option<String>)
        requires
            name matches Some(n) ==> (id matches Some(i) ==> regex_compiles(mention_pattern(n@, i@))),
        ensures
            final(self).interval_view() == old(self).interval_view(),
            match (name, id) {
                (Some(n), Some(i)) => {
                    &&& final(self).name_view() == Some(n@)
                    &&& final(self).id_view() == Some(i@)
                    &&& final(self).finder_view() == Some(mention_pattern(n@, i@))
                },
                _ => *final(self) == *old(self),
            },
    {
        match (name, id) {
            (Some(n), Some(i)) => {
                let source = mention_pattern_for(n.as_str(), i.as_str());
                let finder = match Pattern::compile(source.as_str()) {
                    Some(p) => p,
                    None => vstd::pervasive::unreached(),
                };
                self.my_name = Some(n);
                self.my_id = Some(i);
                self.me_finder = Some(finder);
            },
            _ => {},
        }
    }

    /// [`SlippyHandler::on_connect`], or `false` and no change when the
    /// pattern made from the reported name and id does not compile.
    pub fn connect(&mut self, name: Option<String>, id: Option<String>) -> (res: bool)
        ensures
            final(self).interval_view() == old(self).interval_view(),
            match (name, id) {
                (Some(n), Some(i)) => if regex_compiles(mention_pattern(n@, i@)) {
                    &&& res
                    &&& final(self).name_view() == Some(n@)
                    &&& final(self).id_view() == Some(i@)
                    &&& final(self).finder_view() == Some(mention_pattern(n@, i@))
                } else {
                    !res && *final(self) == *old(self)
                },
                _ => res && *final(self) == *old(self),
            },
    {
        match (&name, &id) {
            (Some(n), Some(i)) => {
                let source = mention_pattern_for(n.as_str(), i.as_str());
                if Pattern::compile(source.as_str()).is_none() {
                    return false;
                }
            },
            _ => {},
        }
        self.on_connect(name, id);
        true
    }

    /// Whether a message with this text, channel and sender should go to the
    /// bot.
    pub fn should_interpret(&self, text: Option<&str>, channel: Option<&str>, user: Option<&str>) -> (res: bool)
        ensures
            res == self.wants(
                match text { Some(t) => Some(t@), None => None },
                match channel { Some(c) => Some(c@), None => None },
                match user { Some(u) => Some(u@), None => None },
            ),
    {
        match (text, &self.my_id, &self.me_finder, channel, user) {
            (Some(t), Some(me), Some(finder), Some(c), Some(u)) => {
                if finder.is_match(t) || direct_channel(c) {
                    let sender = u.to_owned();
                    let from_me = sender == *me;
                    !from_me
                } else {
                    false
                }
            },
            _ => false,
        }
    }
}

/// The bot never answers its own messages.
pub proof fn lemma_ignores_itself(handler: SlippyHandler, text: Option<Seq<char>>, channel: Option<Seq<char>>, me: Seq<char>)
    requires
        handler.id_view() == Some(me),
    ensures
        !handler.wants(text, channel, Some(me)),
{
}

/// Before it knows who it is, the bot answers nothing.
pub proof fn lemma_silent_until_connected(
    handler: SlippyHandler,
    text: Option<Seq<char>>,
    channel: Option<Seq<char>>,
    user: Option<Seq<char>>,
)
    requires
        handler.id_view() is None || handler.finder_view() is None,
    ensures
        !handler.wants(text, channel, user),
{
}

/// A channel counts as a direct conversation exactly when its id starts with
/// "D": any id that starts with "D" does, and an empty id or one that starts
/// with another character does not, whatever follows.
pub proof fn lemma_direct_channel_is_a_prefix_test(rest: Seq<char>, first: char)
    ensures
        is_direct_channel(seq!['D'] + rest),
        first != 'D' ==> !is_direct_channel(seq![first] + rest),
        !is_direct_channel(Seq::<char>::empty()),
{
    assert((seq!['D'] + rest)[0] == 'D');
    assert((seq![first] + rest)[0] == first);
}

/// A message that does not mention the bot, in a channel whose id does not
/// start with "D", never goes to the bot, whoever sent it.
pub proof fn lemma_unaddressed_messages_are_ignored(
    handler: SlippyHandler,
    text: Seq<char>,
    channel: Seq<char>,
    user: Option<Seq<char>>,
)
    requires
        handler.finder_view() matches Some(finder) && !regex_is_match(finder, text),
        channel.len() == 0 || channel[0] != 'D',
    ensures
        !handler.wants(Some(text), Some(channel), user),
{
}

/// Once connected, a message from someone else in any channel whose id
/// starts with "D" goes to the bot, mentioned or not.
pub proof fn lemma_d_channels_reach_the_bot(
    handler: SlippyHandler,
    text: Seq<char>,
    rest: Seq<char>,
    user: Seq<char>,
)
    requires
        handler.id_view() is Some,
        handler.finder_view() is Some,
        handler.id_view() != Some(user),
    ensures
        handler.wants(Some(text), Some(seq!['D'] + rest), Some(user)),
{
    assert((seq!['D'] + rest)[0] == 'D');
}

/// Once connected, every message from someone else in a direct conversation
/// goes to the bot.
pub proof fn lemma_direct_messages_reach_the_bot(
    handler: SlippyHandler,
    text: Seq<char>,
    channel: Seq<char>,
    user: Seq<char>,
)
    requires
        handler.id_view() is Some,
        handler.finder_view() is Some,
        handler.id_view() != Some(user),
        is_direct_channel(channel),
    ensures
        handler.wants(Some(text), Some(channel), Some(user)),
{
}

} // verus!
