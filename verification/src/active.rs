use vstd::prelude::*;
use crate::config::{TuningConfig, default_config_with_workers, max_usize};

verus! {

/// Make `state` the adaptive state of the running transfer.
pub fn register_active_state<T>(slot: &mut Option<T>, state: T)
    ensures
        *final(slot) == Some(state),
{
    *slot = Some(state);
}

/// Clear the adaptive state of the running transfer.
pub fn deregister_active_state<T>(slot: &mut Option<T>)
    ensures
        *final(slot) is None,
{
    *slot = None;
}

/// The tuning configuration to use: the active transfer's, or the default
/// one when no transfer is registered.
pub fn get_active_config(active: Option<TuningConfig>) -> (c: TuningConfig)
    ensures
        active matches Some(a) ==> c == a,
        active is None ==> exists|cpus: usize| c == default_config_with_workers(max_usize(cpus, 2)),
{
    match active {
        Some(a) => a,
        None => TuningConfig::default(),
    }
}

} // verus!
