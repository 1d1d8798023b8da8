use s3_nix_channel::channel::ChannelConfig;
use s3_nix_channel::loader::ConfigError;
use s3_nix_channel::registry::{snapshot_to_install, RefreshAction, Refresher, Registry, TickAction};
use s3_nix_channel::snapshot::ChannelsConfig;

fn snapshot(latest: &str) -> ChannelsConfig {
    let mut s = ChannelsConfig::new();
    s.insert(
        "nixos-24.05".to_string(),
        ChannelConfig { latest: Some(latest.to_string()), file_extension: ".tar.xz".to_string(), previous: vec![] },
    );
    s
}

#[test]
fn failed_refresh_keeps_the_served_snapshot() {
    let registry = Registry::new(snapshot("abc123"));
    let before = registry.current();
    let mut refresher = Refresher::after_initial_load();
    assert!(refresher.on_tick() == TickAction::Wait);
    assert!(refresher.on_tick() == TickAction::Fetch);
    let action = refresher.on_loaded(Err(ConfigError::Fetch));
    assert!(matches!(action, RefreshAction::KeepCurrent(ConfigError::Fetch)));
    assert!(!registry.apply(action));
    let after = registry.current();
    assert!(std::sync::Arc::ptr_eq(&before, &after));
    assert_eq!(after.latest_object_key("nixos-24.05").as_deref(), Some("abc123"));
}

#[test]
fn successful_refresh_installs_the_new_snapshot() {
    let registry = Registry::new(snapshot("abc123"));
    let held = registry.current();
    let mut refresher = Refresher::after_initial_load();
    refresher.on_tick();
    assert!(refresher.on_tick() == TickAction::Fetch);
    let action = refresher.on_loaded(Ok(snapshot("def456")));
    assert!(registry.apply(action));
    assert_eq!(registry.current().latest_object_key("nixos-24.05").as_deref(), Some("def456"));
    // A reader keeps the snapshot it took.
    assert_eq!(held.latest_object_key("nixos-24.05").as_deref(), Some("abc123"));
}

#[test]
fn no_second_fetch_while_one_runs() {
    let mut refresher = Refresher::after_initial_load();
    refresher.on_tick();
    assert!(refresher.on_tick() == TickAction::Fetch);
    assert!(refresher.on_tick() == TickAction::Wait);
    refresher.on_loaded(Err(ConfigError::Parse));
    assert!(refresher.on_tick() == TickAction::Fetch);
}

#[test]
fn only_an_install_gives_a_snapshot_to_store() {
    assert!(snapshot_to_install(RefreshAction::KeepCurrent(ConfigError::Parse)).is_none());
    let s = snapshot_to_install(RefreshAction::Install(snapshot("def456"))).unwrap();
    assert_eq!(s.latest_object_key("nixos-24.05").as_deref(), Some("def456"));
    assert_eq!(s.channels().len(), 1);
}
