//! The active configuration: which channel carries verification traffic and
//! which role is granted on success.

use vstd::prelude::*;

verus! {

/// The pair an administrator sets: the challenge channel and the role granted
/// to members who verify.
#[derive(Clone, Copy, Debug, PartialEq, Eq, Structural)]
pub struct Config {
    pub channel_id: u64,
    pub verified_role_id: u64,
}

/// Holds the configuration that is currently in force, if any. It is absent
/// at cold start and stays absent until a persisted copy is loaded or an
/// administrator issues the configuration command.
pub struct ConfigStore {
    current: Option<Config>,
}

impl View for ConfigStore {
    type V = Option<Config>;

    closed spec fn view(&self) -> Option<Config> {
        self.current
    }
}

impl ConfigStore {
    /// A store with no configuration in force.
    pub fn new() -> (s: Self)
        ensures
            s@ is None,
    {
        ConfigStore { current: None }
    }

    /// Replaces the active configuration. Reading the store back afterwards
    /// yields exactly the pair that was set.
    pub fn set(&mut self, c: Config)
        ensures
            final(self)@ == Some(c),
    {
        self.current = Some(c);
    }

    /// A snapshot of the active configuration, `None` while unset.
    pub fn get(&self) -> (r: Option<Config>)
        ensures
            r == self@,
    {
        self.current
    }
}

} // verus!
