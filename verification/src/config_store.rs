//! The configuration that is in force, and when it is replaced by one that was
//! loaded anew.

use vstd::prelude::*;

verus! {

/// Seconds between two looks at a configuration file.
pub const FILE_REFRESH_INTERVAL_SECS: u64 = 10;

/// Seconds between two readings of a directory of configuration fragments.
pub const DIR_REFRESH_INTERVAL_SECS: u64 = 5;

/// The configuration in force. Readers take the whole of it at once, and a reload
/// replaces the whole of it at once.
#[derive(Debug)]
pub struct ConfigStore<C> {
    pub current: C,
}

impl<C> ConfigStore<C> {
    /// A store that holds `initial`.
    pub fn new(initial: C) -> (r: Self)
        ensures
            r.current == initial,
    {
        ConfigStore { current: initial }
    }

    /// The configuration in force.
    pub fn load(&self) -> (r: &C)
        ensures
            *r == self.current,
    {
        &self.current
    }

    /// Puts a configuration in force and hands back the one that was.
    pub fn swap(&mut self, new: C) -> (r: C)
        ensures
            final(self).current == new,
            r == old(self).current,
    {
        let mut previous = new;
        core::mem::swap(&mut self.current, &mut previous);
        previous
    }
}

/// Takes what an attempt to load a configuration gave: the configuration and the
/// time at which its file was last modified, or nothing where the file could not be
/// read or understood. A configuration that was loaded is put in force, and the
/// time is handed on. After a failed attempt the configuration in force stays.
pub fn load_and_swap_config<C>(loaded: Option<(C, u64)>, config_store: &mut ConfigStore<C>) -> (r:
    Option<u64>)
    ensures
        match loaded {
            Some((config, modified)) => final(config_store).current == config && r == Some(
                modified,
            ),
            None => final(config_store).current == old(config_store).current && r is None,
        },
{
    match loaded {
        Some((config, modified)) => {
            config_store.current = config;
            Some(modified)
        },
        None => None,
    }
}

/// Whether a configuration file is to be loaded again: when the time of its last
/// modification can be read and is not the one of the last load.
pub fn needs_reload(modified: Option<u64>, last_modified: u64) -> (r: bool)
    ensures
        r == (modified is Some && modified->0 != last_modified),
{
    match modified {
        Some(m) => m != last_modified,
        None => false,
    }
}

/// Takes a configuration that was read anew from a directory of fragments, and
/// whether it differs from the one in force. One that differs is put in force, and
/// those who wait for changes are to be told; one that does not is dropped.
pub fn refresh<C>(new: C, differs: bool, config_store: &mut ConfigStore<C>) -> (r: bool)
    ensures
        r == differs,
        final(config_store).current == if differs {
            new
        } else {
            old(config_store).current
        },
{
    if differs {
        config_store.current = new;
    }
    differs
}

} // verus!
