//! The commands the bot understands.

pub mod hello;
pub mod thanks;
pub mod how_are_you;
pub mod celery;
pub mod say;
pub mod joy;

use vstd::prelude::*;
use crate::brain::{Command, Reply, Response, ResponseView, ReplyView};
use self::hello::Hello;
use self::thanks::Thanks;
use self::how_are_you::HowAreYou;
use self::celery::CeleryMan;
use self::say::Say;
use self::joy::Joy;

verus! {

/// One of the commands this library provides.
pub enum BuiltinCommand {
    Hello(Hello),
    Thanks(Thanks),
    HowAreYou(HowAreYou),
    Joy(Joy),
    CeleryMan(CeleryMan),
    Say(Say),
}

impl Command for BuiltinCommand {
    open spec fn well_formed(&self) -> bool {
        match self {
            BuiltinCommand::Hello(c) => c.well_formed(),
            BuiltinCommand::Thanks(c) => c.well_formed(),
            BuiltinCommand::HowAreYou(c) => c.well_formed(),
            BuiltinCommand::Joy(c) => c.well_formed(),
            BuiltinCommand::CeleryMan(c) => c.well_formed(),
            BuiltinCommand::Say(c) => c.well_formed(),
        }
    }

    open spec fn handles(
        &self,
        text: Seq<char>,
        user_id: Seq<char>,
        channel: Seq<char>,
        after: Self,
        response: ResponseView,
    ) -> bool {
        match (*self, after) {
            (BuiltinCommand::Hello(a), BuiltinCommand::Hello(b)) => a.handles(text, user_id, channel, b, response),
            (BuiltinCommand::Thanks(a), BuiltinCommand::Thanks(b)) => a.handles(text, user_id, channel, b, response),
            (BuiltinCommand::HowAreYou(a), BuiltinCommand::HowAreYou(b)) => a.handles(text, user_id, channel, b, response),
            (BuiltinCommand::Joy(a), BuiltinCommand::Joy(b)) => a.handles(text, user_id, channel, b, response),
            (BuiltinCommand::CeleryMan(a), BuiltinCommand::CeleryMan(b)) => a.handles(text, user_id, channel, b, response),
            (BuiltinCommand::Say(a), BuiltinCommand::Say(b)) => a.handles(text, user_id, channel, b, response),
            _ => false,
        }
    }

    open spec fn ticks(&self, after: Self, reply: Option<ReplyView>) -> bool {
        match (*self, after) {
            (BuiltinCommand::Hello(a), BuiltinCommand::Hello(b)) => a.ticks(b, reply),
            (BuiltinCommand::Thanks(a), BuiltinCommand::Thanks(b)) => a.ticks(b, reply),
            (BuiltinCommand::HowAreYou(a), BuiltinCommand::HowAreYou(b)) => a.ticks(b, reply),
            (BuiltinCommand::Joy(a), BuiltinCommand::Joy(b)) => a.ticks(b, reply),
            (BuiltinCommand::CeleryMan(a), BuiltinCommand::CeleryMan(b)) => a.ticks(b, reply),
            (BuiltinCommand::Say(a), BuiltinCommand::Say(b)) => a.ticks(b, reply),
            _ => false,
        }
    }

    open spec fn usage_text(&self) -> Seq<char> {
        match self {
            BuiltinCommand::Hello(c) => c.usage_text(),
            BuiltinCommand::Thanks(c) => c.usage_text(),
            BuiltinCommand::HowAreYou(c) => c.usage_text(),
            BuiltinCommand::Joy(c) => c.usage_text(),
            BuiltinCommand::CeleryMan(c) => c.usage_text(),
            BuiltinCommand::Say(c) => c.usage_text(),
        }
    }

    open spec fn description_text(&self) -> Seq<char> {
        match self {
            BuiltinCommand::Hello(c) => c.description_text(),
            BuiltinCommand::Thanks(c) => c.description_text(),
            BuiltinCommand::HowAreYou(c) => c.description_text(),
            BuiltinCommand::Joy(c) => c.description_text(),
            BuiltinCommand::CeleryMan(c) => c.description_text(),
            BuiltinCommand::Say(c) => c.description_text(),
        }
    }

    fn handle(&mut self, text: &str, user_id: &str, channel: &str) -> (response: Response) {
        match self {
            BuiltinCommand::Hello(c) => c.handle(text, user_id, channel),
            BuiltinCommand::Thanks(c) => c.handle(text, user_id, channel),
            BuiltinCommand::HowAreYou(c) => c.handle(text, user_id, channel),
            BuiltinCommand::Joy(c) => c.handle(text, user_id, channel),
            BuiltinCommand::CeleryMan(c) => c.handle(text, user_id, channel),
            BuiltinCommand::Say(c) => c.handle(text, user_id, channel),
        }
    }

    fn periodic(&mut self) -> (reply: Option<Reply>) {
        match self {
            BuiltinCommand::Hello(c) => c.periodic(),
            BuiltinCommand::Thanks(c) => c.periodic(),
            BuiltinCommand::HowAreYou(c) => c.periodic(),
            BuiltinCommand::Joy(c) => c.periodic(),
            BuiltinCommand::CeleryMan(c) => c.periodic(),
            BuiltinCommand::Say(c) => c.periodic(),
        }
    }

    fn usage(&self) -> (res: &'static str) {
        match self {
            BuiltinCommand::Hello(c) => c.usage(),
            BuiltinCommand::Thanks(c) => c.usage(),
            BuiltinCommand::HowAreYou(c) => c.usage(),
            BuiltinCommand::Joy(c) => c.usage(),
            BuiltinCommand::CeleryMan(c) => c.usage(),
            BuiltinCommand::Say(c) => c.usage(),
        }
    }

    fn description(&self) -> (res: &'static str) {
        match self {
            BuiltinCommand::Hello(c) => c.description(),
            BuiltinCommand::Thanks(c) => c.description(),
            BuiltinCommand::HowAreYou(c) => c.description(),
            BuiltinCommand::Joy(c) => c.description(),
            BuiltinCommand::CeleryMan(c) => c.description(),
            BuiltinCommand::Say(c) => c.description(),
        }
    }
}

} // verus!
