//! The single source of truth for the configuration.
//!
//! A store is owned by one holder at a time, so a read sees a whole value
//! and two writes never interleave. What it hands out are copies.

use vstd::prelude::*;
use crate::config::{AppConfig, AppConfigView};

verus! {

/// The configuration that a start of the launcher takes from what the
/// persisted file held: the file's value with its index repaired, or the
/// first-run configuration where the file was missing or unreadable.
pub open spec fn loaded_config(persisted: Option<AppConfigView>) -> AppConfigView {
    match persisted {
        Some(config) => config.repaired(),
        None => AppConfigView::initial(),
    }
}

/// What a start writes to the file: the first-run configuration where the
/// file was missing or unreadable, nothing otherwise.
pub open spec fn written_back(persisted: Option<AppConfigView>) -> Option<AppConfigView> {
    match persisted {
        Some(_) => None,
        None => Some(AppConfigView::initial()),
    }
}

/// Mathematical value of a configuration that may be missing.
pub open spec fn persisted_view(persisted: Option<AppConfig>) -> Option<AppConfigView> {
    match persisted {
        Some(config) => Some(config@),
        None => None,
    }
}

/// Loading never fails and never yields an index outside the list: whatever
/// the file held, the loaded configuration is valid. With targets in the
/// file the index names one of them; without any it is 0.
pub proof fn law_loaded_config_is_valid(persisted: Option<AppConfigView>)
    ensures
        loaded_config(persisted).valid(),
        loaded_config(persisted).ai_engines.len() > 0 ==> loaded_config(persisted).default_ai
            < loaded_config(persisted).ai_engines.len(),
        loaded_config(persisted).ai_engines.len() == 0 ==> loaded_config(persisted).default_ai == 0,
        persisted matches Some(config) ==> loaded_config(persisted).ai_engines == config.ai_engines,
{
}

/// A missing or unreadable file loads as exactly the first-run
/// configuration.
pub proof fn law_unreadable_file_loads_initial()
    ensures
        loaded_config(None) == AppConfigView::initial(),
{
}

/// What was persisted is what is loaded: a file that holds `config` loads as
/// `config` in every field but the default index, which is kept where it
/// names a target and is 0 where it does not. A valid configuration comes
/// back unchanged, and loading what was loaded changes nothing more.
pub proof fn law_persisted_config_round_trips(config: AppConfigView)
    ensures
        loaded_config(Some(config)) == config.with_default_ai(loaded_config(Some(config)).default_ai),
        config.default_ai < config.ai_engines.len() ==> loaded_config(Some(config)) == config,
        config.default_ai >= config.ai_engines.len() ==> loaded_config(Some(config)).default_ai == 0,
        config.valid() ==> loaded_config(Some(config)) == config,
        loaded_config(Some(loaded_config(Some(config)))) == loaded_config(Some(config)),
{
}

/// Holder of the live configuration. The value it holds is always valid.
#[derive(Debug)]
pub struct ConfigStore {
    config: AppConfig,
}

impl View for ConfigStore {
    type V = AppConfigView;

    closed spec fn view(&self) -> AppConfigView {
        self.config@
    }
}

impl ConfigStore {
    #[verifier::type_invariant]
    spec fn holds_valid_config(self) -> bool {
        self.config@.valid()
    }

    /// Sets the store up from what the persisted file held: `None` where the
    /// file was missing or could not be parsed.
    ///
    /// What comes with the store is the value to write to the file: the
    /// first-run configuration where it took the place of a missing or
    /// unreadable file, nothing where the file was readable.
    pub fn load(persisted: Option<AppConfig>) -> (loaded: (ConfigStore, Option<AppConfig>))
        ensures
            loaded.0@ == loaded_config(persisted_view(persisted)),
            loaded.0@.valid(),
            persisted_view(loaded.1) == written_back(persisted_view(persisted)),
    {
        match persisted {
            Some(config) => (ConfigStore { config: config.repaired() }, None),
            None => {
                let config: AppConfig = AppConfig::default();
                let write_back: AppConfig = config.clone();
                (ConfigStore { config }, Some(write_back))
            },
        }
    }

    /// Puts `new_config` in the place of the held value, as a whole, and
    /// hands out the copy of it that is to be written to the file.
    pub fn replace(&mut self, new_config: AppConfig) -> (to_persist: AppConfig)
        requires
            new_config@.valid(),
        ensures
            final(self)@ == new_config@,
            to_persist@ == new_config@,
    {
        self.config = new_config;
        self.config.clone()
    }

    /// A copy of the held value that shares nothing with the store.
    pub fn snapshot(&self) -> (copy: AppConfig)
        ensures
            copy@ == self@,
            copy@.valid(),
    {
        proof {
            use_type_invariant(self);
        }
        self.config.clone()
    }
}

} // verus!
