use jellyfin_desktop::addresses::unique_addresses;
use jellyfin_desktop::cli::{CliArgs, LogLevel};
use jellyfin_desktop::power::{InhibitCall, ScreensaverInhibitor};
use jellyfin_desktop::taskbar::TaskbarState;

#[test]
fn windowed_overrides_fullscreen() {
    assert!(CliArgs::from_flags(true, false, false, false, None).fullscreen);
    assert!(!CliArgs::from_flags(true, true, false, false, None).fullscreen);
    assert!(CliArgs::from_flags(false, false, true, false, None).tv_mode);
    assert!(!CliArgs::from_flags(false, false, true, true, None).tv_mode);
    let a = CliArgs::from_flags(false, false, false, false, Some("info".to_string()));
    assert_eq!(a.log_level.as_deref(), Some("info"));
}

#[test]
fn cli_log_levels() {
    let lvl = |s: &str| LogLevel::from_cli(&Some(s.to_string()));
    assert_eq!(lvl("error"), LogLevel::Error);
    assert_eq!(lvl("warn"), LogLevel::Warn);
    assert_eq!(lvl("info"), LogLevel::Info);
    assert_eq!(lvl("debug"), LogLevel::Debug);
    assert_eq!(lvl("trace"), LogLevel::Trace);
    assert_eq!(lvl("loud"), LogLevel::Debug);
    assert_eq!(LogLevel::from_cli(&None), LogLevel::Debug);
}

#[test]
fn webview_log_levels() {
    let lvl = |s: &str| LogLevel::for_webview(&s.to_string());
    assert_eq!(lvl("error"), LogLevel::Error);
    assert_eq!(lvl("warn"), LogLevel::Warn);
    assert_eq!(lvl("info"), LogLevel::Info);
    assert_eq!(lvl("debug"), LogLevel::Debug);
    assert_eq!(lvl("trace"), LogLevel::Debug);
}

#[test]
fn taskbar_tags_and_flags() {
    assert_eq!(TaskbarState::from_tag(&"normal".to_string()), TaskbarState::Normal);
    assert_eq!(TaskbarState::from_tag(&"paused".to_string()), TaskbarState::Paused);
    assert_eq!(TaskbarState::from_tag(&"none".to_string()), TaskbarState::NoProgress);
    assert_eq!(TaskbarState::Normal.flag(), 0x02);
    assert_eq!(TaskbarState::Paused.flag(), 0x08);
    assert_eq!(TaskbarState::NoProgress.flag(), 0x00);
}

#[test]
fn screensaver_cookie_round_trip() {
    let mut s = ScreensaverInhibitor::new();
    assert_eq!(s.request(true), InhibitCall::Nothing);
    assert_eq!(s.request(false), InhibitCall::Inhibit);
    s.inhibited(77);
    assert_eq!(s.request(true), InhibitCall::UnInhibit(77));
    assert_eq!(s.request(true), InhibitCall::Nothing);
}

#[test]
fn addresses_deduplicated_in_order() {
    let input: Vec<String> = ["127.0.0.1", "192.168.1.5", "127.0.0.1", "10.0.0.1", "192.168.1.5"]
        .iter()
        .map(|s| s.to_string())
        .collect();
    assert_eq!(
        unique_addresses(&input),
        vec!["127.0.0.1".to_string(), "192.168.1.5".to_string(), "10.0.0.1".to_string()]
    );
    assert!(unique_addresses(&Vec::new()).is_empty());
}
