use rainbeam_core::images::{image_source, image_url, remote_image_type, ImageSource};
use rainbeam_core::model::ProfileMetadata;

fn hosts(v: &[&str]) -> Vec<String> {
    v.iter().map(|s| s.to_string()).collect()
}

#[test]
fn image_sources() {
    let host = "https://rb.net";
    assert_eq!(image_source("rb://", true, host, &hosts(&[])), ImageSource::Uploaded);
    assert_eq!(image_source("rb://", false, host, &hosts(&[])), ImageSource::Remote);
    assert_eq!(image_source("https://rb.net/x.png", true, host, &hosts(&[])), ImageSource::Default);
    assert_eq!(
        image_source("https://evil.com/a.png", true, host, &hosts(&["https://spam.org", "https://evil.com"])),
        ImageSource::Default
    );
    assert_eq!(image_source("", true, host, &hosts(&[])), ImageSource::Default);
    assert_eq!(image_source("https://ok.com/a.png", true, host, &hosts(&["https://evil.com"])), ImageSource::Remote);
    // an empty host is a prefix of every address
    assert_eq!(image_source("https://ok.com/a.png", true, "", &hosts(&[])), ImageSource::Default);
}

#[test]
fn served_types() {
    assert_eq!(remote_image_type(Some("text/html; charset=utf-8"), "image/png"), None);
    assert_eq!(remote_image_type(Some("image/png"), "text/html"), Some("text/plain".to_string()));
    assert_eq!(remote_image_type(None, "image/gif"), Some("image/gif".to_string()));
    assert_eq!(remote_image_type(Some("image/webp"), "application/octet-stream"), Some("application/octet-stream".to_string()));
}

#[test]
fn image_urls_from_metadata() {
    let mut m = ProfileMetadata::default();
    m.kv.insert("sparkler:avatar_url".to_string(), "https://a/b.png".to_string());
    assert_eq!(image_url(&m, "sparkler:avatar_url"), "https://a/b.png");
    assert_eq!(image_url(&m, "sparkler:banner_url"), "");
}
