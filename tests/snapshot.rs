use s3_nix_channel::channel::{channel_config_key, default_channel_file_extension, ChannelConfig, MANIFEST_KEY};
use s3_nix_channel::cli::{channel_listing, latest_line, Args, Commands};
use s3_nix_channel::loader::{assemble_snapshot, ChannelConfigError, FetchedChannel};
use s3_nix_channel::snapshot::ChannelsConfig;

fn config(latest: Option<&str>, ext: &str, previous: &[&str]) -> ChannelConfig {
    ChannelConfig {
        latest: latest.map(|s| s.to_string()),
        file_extension: ext.to_string(),
        previous: previous.iter().map(|s| s.to_string()).collect(),
    }
}

#[test]
fn default_extension_is_tar_xz() {
    assert_eq!(default_channel_file_extension(), ".tar.xz");
    let c = ChannelConfig::unpublished();
    assert_eq!(c.latest, None);
    assert_eq!(c.file_extension, ".tar.xz");
    assert!(c.previous.is_empty());
}

#[test]
fn store_layout_keys() {
    assert_eq!(MANIFEST_KEY, "channels.json");
    assert_eq!(channel_config_key("nixos-24.05"), "nixos-24.05.json");
}

#[test]
fn empty_snapshot_has_no_channels() {
    let s = ChannelsConfig::new();
    assert!(s.channels().is_empty());
    assert!(s.channel("anything").is_none());
    assert!(s.latest_object_key("anything").is_none());
}

#[test]
fn lookup_by_exact_name() {
    let mut s = ChannelsConfig::new();
    s.insert("nixos-24.05".to_string(), config(Some("abc123"), ".tar.xz", &["old1"]));
    s.insert("iso".to_string(), config(None, ".iso", &[]));
    let c = s.channel("nixos-24.05").unwrap();
    assert_eq!(c.latest.as_deref(), Some("abc123"));
    assert_eq!(c.previous, vec!["old1".to_string()]);
    assert!(s.channel("nixos-24.0").is_none());
    assert!(s.channel("nixos-24.05.tar.xz").is_none());
    assert_eq!(s.latest_object_key("nixos-24.05").as_deref(), Some("abc123"));
    assert_eq!(s.latest_object_key("iso"), None);
}

#[test]
fn insert_same_name_replaces() {
    let mut s = ChannelsConfig::new();
    s.insert("a".to_string(), config(Some("one"), ".tar.xz", &[]));
    s.insert("b".to_string(), config(Some("two"), ".tar.xz", &[]));
    s.insert("a".to_string(), config(Some("three"), ".iso", &[]));
    assert_eq!(s.channels().len(), 2);
    assert_eq!(s.channels()[0].name, "a");
    assert_eq!(s.latest_object_key("a").as_deref(), Some("three"));
    assert_eq!(s.channel("a").unwrap().file_extension, ".iso");
    assert_eq!(s.latest_object_key("b").as_deref(), Some("two"));
}

#[test]
fn load_skips_missing_and_corrupt_channels() {
    let fetched = vec![
        FetchedChannel { name: "good".to_string(), config: Ok(config(Some("abc"), ".tar.xz", &[])) },
        FetchedChannel { name: "missing".to_string(), config: Err(ChannelConfigError::Fetch) },
        FetchedChannel { name: "corrupt".to_string(), config: Err(ChannelConfigError::Parse) },
        FetchedChannel { name: "fresh".to_string(), config: Ok(config(None, ".iso", &[])) },
    ];
    let s = assemble_snapshot(&fetched);
    let names: Vec<&str> = s.channels().iter().map(|e| e.name.as_str()).collect();
    assert_eq!(names, vec!["good", "fresh"]);
    assert!(s.channel("missing").is_none());
    assert!(s.channel("corrupt").is_none());
    assert_eq!(s.channel("fresh").unwrap().file_extension, ".iso");
}

#[test]
fn load_with_every_channel_failing_is_empty() {
    let fetched = vec![
        FetchedChannel { name: "a".to_string(), config: Err(ChannelConfigError::Fetch) },
        FetchedChannel { name: "b".to_string(), config: Err(ChannelConfigError::Parse) },
    ];
    assert!(assemble_snapshot(&fetched).channels().is_empty());
    assert!(assemble_snapshot(&Vec::new()).channels().is_empty());
}

#[test]
fn load_keeps_last_successful_read_of_a_name() {
    let fetched = vec![
        FetchedChannel { name: "a".to_string(), config: Ok(config(Some("first"), ".tar.xz", &[])) },
        FetchedChannel { name: "a".to_string(), config: Ok(config(Some("second"), ".tar.xz", &[])) },
        FetchedChannel { name: "a".to_string(), config: Err(ChannelConfigError::Parse) },
    ];
    let s = assemble_snapshot(&fetched);
    assert_eq!(s.channels().len(), 1);
    assert_eq!(s.latest_object_key("a").as_deref(), Some("second"));
}

#[test]
fn listing_shows_name_and_extension() {
    let mut s = ChannelsConfig::new();
    s.insert("nixos-24.05".to_string(), config(Some("abc123"), ".tar.xz", &[]));
    s.insert("installer".to_string(), config(None, ".iso", &[]));
    assert_eq!(
        channel_listing(&s),
        vec!["nixos-24.05 (.tar.xz)".to_string(), "installer (.iso)".to_string()]
    );
}

#[test]
fn latest_line_shows_pointer_or_placeholder() {
    assert_eq!(latest_line(&config(Some("abc123"), ".tar.xz", &[])), "Latest: abc123");
    assert_eq!(latest_line(&config(None, ".tar.xz", &[])), "Latest: (nothing yet)");
}

#[test]
fn bucket_of_each_command() {
    let list = Args { commands: Commands::ListChannels { bucket: "b1".to_string() } };
    let show = Args { commands: Commands::ShowChannel { bucket: "b2".to_string(), channel: "c".to_string() } };
    let publish = Args {
        commands: Commands::Publish {
            bucket: "b3".to_string(),
            channel: "c".to_string(),
            file: "f.tar.xz".to_string(),
            create: false,
        },
    };
    assert_eq!(list.bucket(), "b1");
    assert_eq!(show.bucket(), "b2");
    assert_eq!(publish.bucket(), "b3");
}
