use vstd::prelude::*;

verus! {

/// The bot's settings: the Slack API key and how often, in seconds, its
/// timer fires.
#[derive(Debug)]
pub struct Configuration {
    pub api_key: String,
    pub interval: u64,
}

} // verus!
