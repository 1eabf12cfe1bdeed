//! What a connection is configured with.

use vstd::prelude::*;

verus! {

/// The settings of one connection. Durations are in seconds.
#[derive(Debug)]
pub struct Config {
    pub name: String,
    pub url: String,
    pub ping_duration: u64,
    pub ping_message: String,
    pub ping_timeout: u64,
    pub reconnect_timeout: u64,
}

impl Clone for Config {
    fn clone(&self) -> (copy: Self)
        ensures
            copy == *self,
    {
        Config {
            name: self.name.clone(),
            url: self.url.clone(),
            ping_duration: self.ping_duration,
            ping_message: self.ping_message.clone(),
            ping_timeout: self.ping_timeout,
            reconnect_timeout: self.reconnect_timeout,
        }
    }
}

/// A copy of the settings has every setting.
pub proof fn law_copied_settings_are_the_same(config: Config, copy: Config)
    requires
        call_ensures(Config::clone, (&config,), copy),
    ensures
        copy.name@ == config.name@,
        copy.url@ == config.url@,
        copy.ping_duration == config.ping_duration,
        copy.ping_message@ == config.ping_message@,
        copy.ping_timeout == config.ping_timeout,
        copy.reconnect_timeout == config.reconnect_timeout,
{
}

} // verus!
