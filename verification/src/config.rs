//! The connection parameters, and the store that holds the current ones.

use crate::error::ConfigError;
use vstd::prelude::*;

verus! {

/// What a [`Config`] holds, as mathematics.
pub struct ConfigView {
    pub base_url: Seq<char>,
    pub token: Seq<char>,
    pub os_file_path: Seq<char>,
}

impl ConfigView {
    /// A configuration names a device: its `base_url` is not empty.
    pub open spec fn valid(self) -> bool {
        self.base_url.len() > 0
    }
}

/// Where the device is, how to authenticate to it, and where the firmware
/// image lies. A value never changes: a new one replaces it as a whole.
#[derive(Debug, PartialEq, Eq)]
pub struct Config {
    base_url: String,
    token: String,
    os_file_path: String,
}

impl View for Config {
    type V = ConfigView;

    closed spec fn view(&self) -> ConfigView {
        ConfigView {
            base_url: self.base_url@,
            token: self.token@,
            os_file_path: self.os_file_path@,
        }
    }
}

impl Config {
    #[verifier::type_invariant]
    spec fn well_formed(self) -> bool {
        self@.valid()
    }

    /// Builds a configuration from its three fields, or says why not.
    pub fn new(base_url: String, token: String, os_file_path: String) -> (made: Result<
        Config,
        ConfigError,
    >)
        ensures
            made is Ok <==> base_url@.len() > 0,
            made matches Ok(config) ==> config@ == (ConfigView {
                base_url: base_url@,
                token: token@,
                os_file_path: os_file_path@,
            }),
            made matches Err(e) ==> e == ConfigError::EmptyBaseUrl,
    {
        if base_url.as_str().is_empty() {
            Err(ConfigError::EmptyBaseUrl)
        } else {
            Ok(Config { base_url, token, os_file_path })
        }
    }

    /// The prefix of every URL of the device's management interface.
    pub fn base_url(&self) -> (text: &str)
        ensures
            text@ == self@.base_url,
            self@.valid(),
    {
        proof {
            use_type_invariant(self);
        }
        self.base_url.as_str()
    }

    /// The bearer credential.
    pub fn token(&self) -> (text: &str)
        ensures
            text@ == self@.token,
    {
        self.token.as_str()
    }

    /// The path of the firmware image in the local file system.
    pub fn os_file_path(&self) -> (text: &str)
        ensures
            text@ == self@.os_file_path,
    {
        self.os_file_path.as_str()
    }

}

impl Clone for Config {
    /// A full copy: each field of the copy is that field of the value copied.
    fn clone(&self) -> (copy: Config)
        ensures
            copy@ == self@,
    {
        proof {
            use_type_invariant(self);
        }
        Config {
            base_url: self.base_url.clone(),
            token: self.token.clone(),
            os_file_path: self.os_file_path.clone(),
        }
    }
}

/// What a read of a store in state `store` returns.
pub open spec fn read_of(store: ConfigView) -> ConfigView {
    store
}

/// The state of a store after `new` has replaced what it held.
pub open spec fn replace_in(store: ConfigView, new: ConfigView) -> ConfigView {
    new
}

/// The state of a store after a reload that ended in `update`: the new value
/// where there is one, the state before where the update was turned down.
pub open spec fn reload_in(store: ConfigView, update: Result<ConfigView, ConfigError>) -> ConfigView {
    match update {
        Ok(new) => replace_in(store, new),
        Err(_) => store,
    }
}

/// An update of the configuration source, as mathematics.
pub open spec fn update_view(update: Result<Config, ConfigError>) -> Result<ConfigView, ConfigError> {
    match update {
        Ok(new) => Ok(new@),
        Err(e) => Err(e),
    }
}

/// The one holder of the current configuration.
///
/// Reading borrows the store shared, replacing borrows it exclusively: any
/// number of reads may go on side by side, a replacement excludes them all, and
/// so no read ever sees a value half replaced. A caller that shares the store
/// among tasks keeps it behind a lock of the reader-writer kind.
#[derive(Debug)]
pub struct ConfigStore {
    current: Config,
}

impl View for ConfigStore {
    type V = ConfigView;

    closed spec fn view(&self) -> ConfigView {
        self.current@
    }
}

impl ConfigStore {
    /// A store that holds `initial`.
    pub fn new(initial: Config) -> (store: ConfigStore)
        ensures
            store@ == initial@,
    {
        ConfigStore { current: initial }
    }

    /// A full copy of the current value.
    pub fn read(&self) -> (snapshot: Config)
        ensures
            snapshot@ == read_of(self@),
            snapshot@.valid(),
    {
        let snapshot = self.current.clone();
        proof {
            use_type_invariant(&snapshot);
        }
        snapshot
    }

    /// Puts `new` in the place of the current value, as a whole.
    pub fn replace(&mut self, new: Config)
        ensures
            final(self)@ == replace_in(old(self)@, new@),
    {
        self.current = new;
    }

    /// Ends a reload of the configuration source. A document that was read and
    /// accepted replaces the current value; one that was turned down leaves the
    /// store as it was, and its error is handed back for the report.
    pub fn reload(&mut self, update: Result<Config, ConfigError>) -> (outcome: Result<(), ConfigError>)
        ensures
            final(self)@ == reload_in(old(self)@, update_view(update)),
            outcome is Ok <==> update is Ok,
            outcome matches Err(e) ==> update == Err::<Config, ConfigError>(e),
    {
        match update {
            Ok(new) => {
                self.replace(new);
                Ok(())
            },
            Err(e) => Err(e),
        }
    }
}

/// After a completed replacement a read returns the new value and nothing of
/// the old one: each of its three fields is the field of the replacement.
pub proof fn lemma_read_after_replace(store: ConfigView, new: ConfigView)
    ensures
        read_of(replace_in(store, new)) == new,
        read_of(replace_in(store, new)).base_url == new.base_url,
        read_of(replace_in(store, new)).token == new.token,
        read_of(replace_in(store, new)).os_file_path == new.os_file_path,
{
}

/// An update that was turned down leaves the stored value unchanged, whatever
/// the error and whatever the store held.
pub proof fn lemma_rejected_update_keeps_value(store: ConfigView, error: ConfigError)
    ensures
        reload_in(store, Err(error)) == store,
        read_of(reload_in(store, Err(error))) == read_of(store),
{
}

/// An update that was accepted is what the next read returns.
pub proof fn lemma_accepted_update_is_read(store: ConfigView, new: ConfigView)
    ensures
        read_of(reload_in(store, Ok(new))) == new,
{
}

} // verus!
