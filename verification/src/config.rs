//! Configuration values the sweep runs with: the API credential strings, the
//! dry-run switch, an optional log-file path, and the retention window in
//! days.  Loading these from disk is the caller's business; the library only
//! holds the values and answers questions about them.

use vstd::prelude::*;

verus! {

/// A single configuration override, applied on top of the loaded values.
/// Command-line arguments always override what a configuration file said.
#[derive(Debug)]
pub enum Setting {
    DryRun(bool),
    MaxTweetAge(i64),
}

/// The credential strings required to authenticate as one account.  The
/// sweep never reads the strings itself; it only hands them to whoever
/// performs the authentication call.
#[derive(Debug)]
pub struct ApiConfig {
    pub access_token_key: String,
    pub access_token_secret: String,
    pub consumer_key: String,
    pub consumer_secret: String,
}

/// The optional general settings, with their defaults.
#[derive(Debug)]
pub struct GeneralConfig {
    pub dry_run: Option<bool>,
    pub log_file: Option<String>,
    pub max_tweet_age: i64,
}

impl Default for GeneralConfig {
    /// The defaults when the general section is absent: no dry-run choice,
    /// no log file, and a retention window of 180 days.
    fn default() -> (d: GeneralConfig)
        ensures
            d.dry_run is None,
            d.log_file is None,
            d.max_tweet_age == 180,
    {
        GeneralConfig { dry_run: None, log_file: None, max_tweet_age: 180 }
    }
}

/// The full configuration: credential strings plus general settings.
#[derive(Debug)]
pub struct Config {
    pub api: ApiConfig,
    pub general: GeneralConfig,
}

/// What `Config::dry_run` answers: the configured choice, or `false` when
/// none was made.
pub open spec fn spec_dry_run(c: Config) -> bool {
    match c.general.dry_run {
        Some(b) => b,
        None => false,
    }
}

impl Config {
    /// Applies one override on top of the loaded values.
    pub fn set(&mut self, setting: Setting)
        ensures
            final(self).api == old(self).api,
            match setting {
                Setting::DryRun(b) => final(self).general == GeneralConfig {
                    dry_run: Some(b),
                    ..old(self).general
                },
                Setting::MaxTweetAge(days) => final(self).general == GeneralConfig {
                    max_tweet_age: days,
                    ..old(self).general
                },
            },
    {
        match setting {
            Setting::DryRun(b) => self.general.dry_run = Some(b),
            Setting::MaxTweetAge(days) => self.general.max_tweet_age = days,
        }
    }

    /// Whether the sweep only simulates deletions.  Defaults to `false`
    /// when the configuration made no choice.
    pub fn dry_run(&self) -> (r: bool)
        ensures
            r == spec_dry_run(*self),
    {
        match self.general.dry_run {
            Some(b) => b,
            None => false,
        }
    }

    /// The configured log-file path, if any.
    pub fn log_file(&self) -> (r: &Option<String>)
        ensures
            *r == self.general.log_file,
    {
        &self.general.log_file
    }

    /// The retention window: the maximum age, in days, a post may reach
    /// before it is eligible for deletion.
    pub fn max_tweet_age(&self) -> (r: i64)
        ensures
            r == self.general.max_tweet_age,
    {
        self.general.max_tweet_age
    }
}

} // verus!
