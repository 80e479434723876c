//! The configuration watcher: which change notifications concern the
//! configuration file, and what a reload does to the registry.
//!
//! Reading and parsing the file is the caller's part. A notification is
//! first put to [`is_config_change`]; only where that says so is the file
//! read, and what came of it handed to [`reload`].

use vstd::prelude::*;
use crate::profile::Profile;
use crate::registry::{cache_states_wf, loaded, ProfileRegistry};

verus! {

/// What a change notification reports of a file.
#[derive(Debug, Clone, Copy, PartialEq, Eq, Structural)]
pub enum ChangeKind {
    /// The file was written to.
    Write,
    /// The file was created.
    Create,
    /// Anything else: a removal, a rename, a change of permissions.
    Other,
}

/// The name of the configuration file.
pub const CONFIG_FILE: &'static str = "profiles.json";

/// Whether a notification of `kind` on a file named `file_name` asks for a
/// reload: a write to the configuration file, or its creation.
pub open spec fn asks_reload(kind: ChangeKind, file_name: Seq<char>) -> bool {
    (kind is Write || kind is Create) && file_name == CONFIG_FILE@
}

/// Filters the notifications that concern the configuration file.
/// `file_name` is the last component of the path that changed.
pub fn is_config_change(kind: ChangeKind, file_name: &str) -> (relevant: bool)
    ensures
        relevant == asks_reload(kind, file_name@),
{
    match kind {
        ChangeKind::Other => false,
        _ => file_name.to_owned() == CONFIG_FILE.to_owned(),
    }
}

/// Why a configuration could not be loaded.
#[derive(Debug, PartialEq, Eq)]
pub enum ConfigError {
    /// The file could not be read; the text says why.
    Unreadable(String),
    /// The file does not hold a configuration; the text says why.
    Malformed(String),
}

/// The mathematical value of a [`ConfigError`].
pub ghost enum ConfigErrorView {
    Unreadable(Seq<char>),
    Malformed(Seq<char>),
}

impl View for ConfigError {
    type V = ConfigErrorView;

    open spec fn view(&self) -> ConfigErrorView {
        match self {
            ConfigError::Unreadable(text) => ConfigErrorView::Unreadable(text@),
            ConfigError::Malformed(text) => ConfigErrorView::Malformed(text@),
        }
    }
}

impl DeepView for ConfigError {
    type V = ConfigErrorView;

    open spec fn deep_view(&self) -> ConfigErrorView {
        self@
    }
}

/// Applies the outcome of reading the configuration to the live registry.
///
/// A configuration that was read replaces the whole registry: every
/// profile of it starts never refreshed, and no profile of the old registry
/// stays. A failure leaves the registry as it was and is handed back for
/// the caller to report.
pub fn reload(registry: &mut ProfileRegistry, parsed: Result<Vec<(String, Profile)>, ConfigError>) -> (report:
    Result<(), ConfigError>)
    ensures
        match parsed {
            Ok(entries) => report is Ok && final(registry)@ == loaded(entries.deep_view()),
            Err(error) => report matches Err(reported) && reported@ == error@ && final(registry)@
                == old(registry)@,
        },
        cache_states_wf(old(registry)@) ==> cache_states_wf(final(registry)@),
{
    match parsed {
        Ok(entries) => {
            registry.replace_all(ProfileRegistry::load(entries));
            Ok(())
        },
        Err(error) => Err(error),
    }
}

} // verus!
