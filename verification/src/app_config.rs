//! The application configuration as the core sees it: the fetch mode and
//! the cache expiry it pushes into the data source. Reading and writing
//! the configuration file, and the on-disk paths, stay with the caller.

use vstd::prelude::*;

use crate::source_provider::opgg::OPGG;
use crate::source_provider::FetchMode;

verus! {

/// The user-facing settings the core acts on.
#[derive(Debug, Clone, Copy, PartialEq, Eq, Structural)]
pub struct AppConfig {
    pub fetch_mode: FetchMode,
    pub auto_select_lane: bool,
    pub expired_days: i64,
    pub mini_mode: bool,
}

impl AppConfig {
    pub fn new() -> (r: Self)
        ensures
            r.fetch_mode == FetchMode::Auto,
            !r.auto_select_lane,
            r.expired_days == 3,
            !r.mini_mode,
    {
        AppConfig {
            fetch_mode: FetchMode::Auto,
            auto_select_lane: false,
            expired_days: AppConfig::default_expired(),
            mini_mode: false,
        }
    }

    /// The default cache expiry, in days.
    pub fn default_expired() -> (r: i64)
        ensures
            r == 3,
    {
        3
    }

    /// Pushes the settings into a data source: its fetch mode and expiry
    /// window afterwards match the configuration, and its cache content is
    /// untouched.
    pub fn invoke(&self, provider: &mut OPGG)
        ensures
            final(provider).spec_fetch_mode() == self.fetch_mode,
            final(provider).cache().expiry_days() == self.expired_days as int,
            final(provider).cache().manifest_view() == old(provider).cache().manifest_view(),
            final(provider).cache().snapshots_view() == old(provider).cache().snapshots_view(),
    {
        provider.set_fetch_mode(self.fetch_mode);
        provider.set_expired(self.expired_days);
    }
}

} // verus!
