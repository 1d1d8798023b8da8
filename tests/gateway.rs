use s3_nix_channel::channel::ChannelConfig;
use s3_nix_channel::error::RequestError;
use s3_nix_channel::gateway::{
    immutable_link, presign_method, redirect_for, resolve_channel, resolve_permanent, PresignMethod,
    PresignOutcome, Resolution, PRESIGN_TTL_SECONDS, TEMPORARY_REDIRECT,
};
use s3_nix_channel::snapshot::ChannelsConfig;

fn snapshot() -> ChannelsConfig {
    let mut s = ChannelsConfig::new();
    s.insert(
        "nixos-24.05".to_string(),
        ChannelConfig { latest: Some("abc123".to_string()), file_extension: ".tar.xz".to_string(), previous: vec![] },
    );
    s.insert(
        "installer".to_string(),
        ChannelConfig { latest: Some("inst-7".to_string()), file_extension: ".iso".to_string(), previous: vec![] },
    );
    s.insert(
        "empty".to_string(),
        ChannelConfig { latest: None, file_extension: ".tar.xz".to_string(), previous: vec![] },
    );
    s
}

#[test]
fn channel_happy_path_redirects_with_link() {
    let r = resolve_channel(&snapshot(), "https://example.com", "nixos-24.05.tar.xz").unwrap();
    assert_eq!(r.object_key, "abc123.tar.xz");
    assert_eq!(
        r.link.as_deref(),
        Some("<https://example.com/permanent/abc123.tar.xz>; rel=\"immutable\"")
    );
    let url = "https://bucket.example/abc123.tar.xz?X-Amz-Expires=600".to_string();
    let redirect = redirect_for(r, PresignOutcome::Signed(url.clone())).unwrap();
    assert_eq!(redirect.location, url);
    assert_eq!(
        redirect.link.as_deref(),
        Some("<https://example.com/permanent/abc123.tar.xz>; rel=\"immutable\"")
    );
    assert_eq!(TEMPORARY_REDIRECT, 307);
    assert_eq!(PRESIGN_TTL_SECONDS, 600);
}

#[test]
fn channel_unknown_is_not_found() {
    let e = resolve_channel(&snapshot(), "https://example.com", "unknown.tar.xz").err().unwrap();
    assert!(matches!(&e, RequestError::NoSuchChannel { file_name } if file_name == "unknown.tar.xz"));
    assert_eq!(e.status_code(), 404);
}

#[test]
fn channel_with_no_channels_served_is_bad_request() {
    let e = resolve_channel(&ChannelsConfig::new(), "https://example.com", "unknown.tar.xz").err().unwrap();
    assert_eq!(e.status_code(), 400);
    let e = resolve_permanent(&ChannelsConfig::new(), "abc123.tar.xz").err().unwrap();
    assert_eq!(e.status_code(), 400);
}

#[test]
fn tar_xz_is_not_accepted_unless_a_channel_serves_it() {
    let mut s = ChannelsConfig::new();
    s.insert(
        "installer".to_string(),
        ChannelConfig { latest: Some("inst-7".to_string()), file_extension: ".iso".to_string(), previous: vec![] },
    );
    let e = resolve_channel(&s, "https://example.com", "foo.tar.xz").err().unwrap();
    assert_eq!(e.status_code(), 400);
    let e = resolve_channel(&s, "https://example.com", "foo.iso").err().unwrap();
    assert_eq!(e.status_code(), 404);
}

#[test]
fn channel_wrong_suffix_is_bad_request() {
    let mut s = ChannelsConfig::new();
    s.insert(
        "nixos-24.05".to_string(),
        ChannelConfig { latest: Some("abc123".to_string()), file_extension: ".tar.xz".to_string(), previous: vec![] },
    );
    let e = resolve_channel(&s, "https://example.com", "nixos-24.05.iso").err().unwrap();
    assert!(matches!(&e, RequestError::InvalidFile { file_name } if file_name == "nixos-24.05.iso"));
    assert_eq!(e.status_code(), 400);
    let e = resolve_channel(&snapshot(), "https://example.com", "nixos-24.05.zip").err().unwrap();
    assert_eq!(e.status_code(), 400);
}

#[test]
fn channel_with_another_channels_suffix_is_not_found() {
    // ".iso" is served, but not by this channel.
    let e = resolve_channel(&snapshot(), "https://example.com", "nixos-24.05.iso").err().unwrap();
    assert_eq!(e.status_code(), 404);
}

#[test]
fn channel_uses_its_own_extension() {
    let r = resolve_channel(&snapshot(), "https://example.com", "installer.iso").unwrap();
    assert_eq!(r.object_key, "inst-7.iso");
    assert_eq!(r.link.as_deref(), Some("<https://example.com/permanent/inst-7.iso>; rel=\"immutable\""));
}

#[test]
fn channel_without_latest_is_not_found() {
    let e = resolve_channel(&snapshot(), "https://example.com", "empty.tar.xz").err().unwrap();
    assert_eq!(e.status_code(), 404);
}

#[test]
fn channel_link_that_is_no_header_value_fails() {
    let e = resolve_channel(&snapshot(), "https://example.com\n", "nixos-24.05.tar.xz").err().unwrap();
    assert!(matches!(e, RequestError::Unknown));
    assert_eq!(e.status_code(), 500);
}

#[test]
fn link_format() {
    assert_eq!(immutable_link("https://a.b", "k.tar.xz"), "<https://a.b/permanent/k.tar.xz>; rel=\"immutable\"");
}

#[test]
fn permanent_object_with_known_extension() {
    let r = resolve_permanent(&snapshot(), "made-up.tar.xz").unwrap();
    assert_eq!(r.object_key, "made-up.tar.xz");
    assert!(r.link.is_none());
    let r = resolve_permanent(&snapshot(), "inst-7.iso").unwrap();
    assert_eq!(r.object_key, "inst-7.iso");
    let redirect = redirect_for(r, PresignOutcome::Signed("https://s/x".to_string())).unwrap();
    assert!(redirect.link.is_none());
}

#[test]
fn permanent_object_with_unknown_extension_is_bad_request() {
    let e = resolve_permanent(&snapshot(), "abc123.zip").err().unwrap();
    assert!(matches!(&e, RequestError::InvalidFile { file_name } if file_name == "abc123.zip"));
    assert_eq!(e.status_code(), 400);
}

#[test]
fn presign_failures_are_server_errors() {
    let res = || Resolution { object_key: "abc123.tar.xz".to_string(), link: None };
    let e = redirect_for(res(), PresignOutcome::Failed).err().unwrap();
    assert!(matches!(&e, RequestError::PresignFailure { object_key } if object_key == "abc123.tar.xz"));
    assert_eq!(e.status_code(), 500);
    let e = redirect_for(res(), PresignOutcome::ConfigRejected).err().unwrap();
    assert!(matches!(e, RequestError::PresignConfigFailure));
    assert_eq!(e.status_code(), 500);
}

#[test]
fn only_get_and_head_are_presigned() {
    assert!(presign_method("GET").unwrap() == PresignMethod::Get);
    assert!(presign_method("HEAD").unwrap() == PresignMethod::Head);
    let e = presign_method("PUT").err().unwrap();
    assert!(matches!(&e, RequestError::UnsupportedMethod { method } if method == "PUT"));
    assert_eq!(e.status_code(), 405);
    assert!(presign_method("get").is_err());
}

#[test]
fn status_codes_of_remaining_errors() {
    assert_eq!(RequestError::InvalidToken { reason: "x".to_string() }.status_code(), 401);
    assert_eq!(RequestError::Unknown.status_code(), 500);
}
