use tweetdelete::config::{ApiConfig, Config, GeneralConfig, Setting};

fn sample_api() -> ApiConfig {
    ApiConfig {
        access_token_key: String::from("atk"),
        access_token_secret: String::from("ats"),
        consumer_key: String::from("ck"),
        consumer_secret: String::from("cs"),
    }
}

#[test]
fn general_defaults() {
    let general = GeneralConfig::default();
    assert_eq!(general.dry_run, None);
    assert_eq!(general.log_file, None);
    assert_eq!(general.max_tweet_age, 180);
}

#[test]
fn dry_run_defaults_to_false() {
    let config = Config { api: sample_api(), general: GeneralConfig::default() };
    assert!(!config.dry_run());
}

#[test]
fn set_overrides_dry_run() {
    let mut config = Config { api: sample_api(), general: GeneralConfig::default() };
    config.set(Setting::DryRun(true));
    assert!(config.dry_run());
    config.set(Setting::DryRun(false));
    assert!(!config.dry_run());
}

#[test]
fn set_overrides_max_tweet_age() {
    let mut config = Config { api: sample_api(), general: GeneralConfig::default() };
    assert_eq!(config.max_tweet_age(), 180);
    config.set(Setting::MaxTweetAge(30));
    assert_eq!(config.max_tweet_age(), 30);
}

#[test]
fn log_file_is_returned_as_configured() {
    let mut config = Config { api: sample_api(), general: GeneralConfig::default() };
    assert_eq!(config.log_file(), &None);
    config.general.log_file = Some(String::from("/tmp/sweep.log"));
    assert_eq!(config.log_file(), &Some(String::from("/tmp/sweep.log")));
}
