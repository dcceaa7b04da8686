use crate::connection::{get_lcu_state, ConnectionState};
use crate::error::CommandError;
use vstd::prelude::*;

verus! {

/// The settings of the user.
#[derive(Debug, PartialEq)]
pub struct Config {
    /// The statistics provider that lobby links point to.
    pub multi_provider: String,
}

impl Clone for Config {
    fn clone(&self) -> (copy: Self)
        ensures
            copy == *self,
    {
        Config { multi_provider: self.multi_provider.clone() }
    }
}

/// What the interface needs when it comes up: the connection status to
/// broadcast to the observers, and the current configuration.
pub fn app_ready(lcu: &ConnectionState, cfg: &Config) -> (ready: (bool, Config))
    ensures
        ready.0 == (lcu@ is Some),
        ready.1 == *cfg,
{
    (get_lcu_state(lcu), cfg.clone())
}

/// Reads the current configuration.
pub fn get_config(cfg: &Config) -> (current: Config)
    ensures
        current == *cfg,
{
    cfg.clone()
}

/// Replaces the configuration in memory and returns the value to persist.
/// The last write wins: nothing of the old value is kept. The caller writes
/// the value out and hands the outcome to `finish_set_config`.
pub fn set_config(cfg: &mut Config, new_cfg: Config) -> (to_persist: Config)
    ensures
        *final(cfg) == new_cfg,
        to_persist == new_cfg,
{
    *cfg = new_cfg;
    cfg.clone()
}

/// The result of `set_config` once the write was attempted: a write that
/// failed is reported, never swallowed.
pub fn finish_set_config(written: bool) -> (done: Result<(), CommandError>)
    ensures
        written ==> done == Ok::<(), CommandError>(()),
        !written ==> done == Err::<(), CommandError>(CommandError::PersistenceError),
{
    if written {
        Ok(())
    } else {
        Err(CommandError::PersistenceError)
    }
}

} // verus!
