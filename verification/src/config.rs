//! The read-only configuration the engine consumes: the admin and
//! verification channels and the emoji-shortcode overrides.  The engine
//! tolerates absent channels and reports a distinct "not configured"
//! condition instead of failing.

use vstd::hash_map::StringHashMap;
use vstd::prelude::*;

verus! {

/// The channels the engine posts to, when configured.
#[derive(Clone, Copy, Debug)]
pub struct Channels {
    pub admin_channel: Option<u64>,
    pub verification_channel: Option<u64>,
}

/// Configuration: channel ids and the mapping from a country's derived
/// shortcode to the shortcode that should be used instead.
pub struct Config {
    pub channels: Channels,
    pub emoji_exceptions: StringHashMap<String>,
}

impl Config {
    /// An empty configuration: no channels, no overrides.
    pub fn new() -> (c: Config)
        ensures
            c.channels.admin_channel is None,
            c.channels.verification_channel is None,
            c.emoji_exceptions@ == Map::<Seq<char>, String>::empty(),
    {
        Config {
            channels: Channels { admin_channel: None, verification_channel: None },
            emoji_exceptions: StringHashMap::new(),
        }
    }

    /// Maps a country shortcode to an override shortcode.
    pub fn add_emoji_exception(&mut self, country: String, shortcode: String)
        ensures
            final(self).emoji_exceptions@ == old(self).emoji_exceptions@.insert(
                country@,
                shortcode,
            ),
            final(self).channels == old(self).channels,
    {
        self.emoji_exceptions.insert(country, shortcode);
    }

    /// Drops the override for a country shortcode; reports whether one was
    /// there.
    pub fn remove_emoji_exception(&mut self, country: &str) -> (removed: bool)
        ensures
            final(self).emoji_exceptions@ == old(self).emoji_exceptions@.remove(country@),
            final(self).channels == old(self).channels,
            removed == old(self).emoji_exceptions@.contains_key(country@),
    {
        let removed = self.emoji_exceptions.contains_key(country);
        self.emoji_exceptions.remove(country);
        removed
    }

    /// Sets the admin-only channel.
    pub fn set_admin_channel(&mut self, channel: u64)
        ensures
            final(self).channels.admin_channel == Some(channel),
            final(self).channels.verification_channel == old(
                self,
            ).channels.verification_channel,
            final(self).emoji_exceptions@ == old(self).emoji_exceptions@,
    {
        self.channels.admin_channel = Some(channel);
    }

    /// Sets the verifications channel.
    pub fn set_verification_channel(&mut self, channel: u64)
        ensures
            final(self).channels.verification_channel == Some(channel),
            final(self).channels.admin_channel == old(self).channels.admin_channel,
            final(self).emoji_exceptions@ == old(self).emoji_exceptions@,
    {
        self.channels.verification_channel = Some(channel);
    }
}

impl Default for Config {
    /// The default configuration is the empty one.
    fn default() -> (c: Config)
        ensures
            c.channels.admin_channel is None,
            c.channels.verification_channel is None,
            c.emoji_exceptions@ == Map::<Seq<char>, String>::empty(),
    {
        Config::new()
    }
}

} // verus!
