use std::hash::{Hash, Hasher};

use brobot::track::{
    embed_request, is_supported_host, is_youtube_dl_capable_host, provider, saved_path, EmbedInfo,
    Provider, TrackSource, TrackState, TrackUrl, MUSIC_DIR,
};

fn url(text: &str) -> TrackUrl {
    let parsed = url::Url::parse(text).unwrap();
    TrackUrl {
        text: parsed.to_string(),
        host: parsed.host_str().map(|h| h.to_string()),
        debug: format!("{:?}", parsed),
    }
}

fn info(title: &str, thumbnail: Option<&str>) -> EmbedInfo {
    EmbedInfo {
        width: String::from("480"),
        height: String::from("270"),
        author_name: String::from("someone"),
        author_url: String::from("https://example.com/someone"),
        version: String::from("1.0"),
        provider_url: String::from("https://www.youtube.com/"),
        provider_name: String::from("YouTube"),
        thumbnail_width: Some(480),
        thumbnail_height: Some(360),
        thumbnail_url: thumbnail.map(|t| t.to_string()),
        html: String::new(),
        url: String::from("https://youtu.be/x"),
        kind: String::from("video"),
        title: title.to_string(),
    }
}

fn hash_of(text: &str) -> String {
    let mut hasher = std::collections::hash_map::DefaultHasher::new();
    text.to_string().hash(&mut hasher);
    format!("{:X}", hasher.finish())
}

#[test]
fn supported_hosts_in_any_letter_case() {
    for host in [
        "youtube.com",
        "youtu.be",
        "soundcloud.com",
        "www.soundcloud.com",
        "www.youtube.com",
        "www.youtu.be",
        "bandcamp.com",
        "artist.bandcamp.com",
        "notbandcamp.com",
    ] {
        assert!(is_supported_host(host), "{}", host);
        assert!(is_youtube_dl_capable_host(host), "{}", host);
        assert!(is_youtube_dl_capable_host(&host.to_uppercase()), "{}", host);
        assert!(!is_supported_host(&host.to_uppercase()), "{}", host);
    }
    for host in ["youtube", "example.com", "youtube.com.example.com", "", "m.youtube.com"] {
        assert!(!is_youtube_dl_capable_host(host), "{}", host);
    }
}

#[test]
fn providers_by_host() {
    for host in ["youtube", "youtu.be", "youtube.com", "www.youtube.com", "www.youtu.be"] {
        assert_eq!(provider(host), Provider::YouTube);
    }
    for host in ["soundcloud.com", "www.soundcloud.com"] {
        assert_eq!(provider(host), Provider::SoundCloud);
    }
    for host in ["YouTube.com", "artist.bandcamp.com", ""] {
        assert_eq!(provider(host), Provider::Other);
    }
}

#[test]
fn sources_from_addresses() {
    let yt = TrackSource::from_url(url("https://youtu.be/x"), Some(info("T", None)));
    assert!(matches!(yt, TrackSource::YouTube { embed_info: Some(_), .. }));
    let sc = TrackSource::from_url(url("https://soundcloud.com/a/b"), None);
    assert!(matches!(sc, TrackSource::SoundCloud { embed_info: None, .. }));
    let other = TrackSource::from_url(url("https://a.bandcamp.com/t"), Some(info("T", None)));
    assert!(matches!(other, TrackSource::Unknown(_)));
}

#[test]
fn embed_requests_only_for_known_sites() {
    assert_eq!(
        embed_request(&url("https://youtu.be/x")),
        Some(String::from("https://noembed.com/embed?url=https://youtu.be/x"))
    );
    assert_eq!(
        embed_request(&url("https://soundcloud.com/a/b")),
        Some(String::from("https://noembed.com/embed?url=https://soundcloud.com/a/b"))
    );
    assert_eq!(embed_request(&url("https://a.bandcamp.com/t")), None);
    assert_eq!(embed_request(&url("mailto:someone@example.com")), None);
}

#[test]
fn ids_hash_the_thumbnail_or_the_address() {
    let plain = TrackSource::from_url(url("https://youtu.be/x"), None);
    assert_eq!(plain.id(), hash_of("https://youtu.be/x"));
    let thumbless = TrackSource::from_url(url("https://youtu.be/x"), Some(info("T", None)));
    assert_eq!(thumbless.id(), plain.id());
    let thumb = TrackSource::from_url(
        url("https://youtu.be/x"),
        Some(info("T", Some("https://i.example.com/x.jpg"))),
    );
    assert_eq!(thumb.id(), hash_of("https://i.example.com/x.jpg"));
    let same_thumb = TrackSource::from_url(
        url("https://soundcloud.com/a/b"),
        Some(info("other", Some("https://i.example.com/x.jpg"))),
    );
    assert_eq!(saved_path(&same_thumb), saved_path(&thumb));
    assert_ne!(thumb.id(), plain.id());
}

#[test]
fn saved_paths_stay_in_their_directory() {
    let source = TrackSource::from_url(url("https://a.bandcamp.com/../../etc/passwd"), None);
    let path = saved_path(&source);
    assert_eq!(path, format!("{}{}", MUSIC_DIR, source.id()));
    assert_eq!(
        std::path::Path::new("saved_tracks/").join(source.id()).to_str(),
        Some(path.as_str())
    );
    let name = &path["saved_tracks/".len()..];
    assert!(name.chars().all(|c| c.is_ascii_hexdigit()));
    assert!(!name.is_empty() && name.len() <= 16);
}

#[test]
fn sources_show_themselves() {
    let titled = TrackSource::from_url(url("https://youtu.be/x"), Some(info("My Song", None)));
    assert_eq!(titled.to_string(), "[My Song](https://youtu.be/x)");
    let bare = TrackSource::from_url(url("https://soundcloud.com/a/b"), None);
    assert_eq!(bare.to_string(), "https://soundcloud.com/a/b");
    assert_eq!(bare.url(), "https://soundcloud.com/a/b");
    let parsed = url::Url::parse("https://a.bandcamp.com/t").unwrap();
    let unknown = TrackSource::from_url(url("https://a.bandcamp.com/t"), None);
    assert_eq!(unknown.to_string(), format!("Unknown({:?})", parsed));
}

#[test]
fn states_show_themselves_and_keep_their_source() {
    let source = TrackSource::from_url(url("https://youtu.be/x"), None);
    let queued = TrackState::Queueed(source.clone());
    assert_eq!(queued.to_string(), "**Queued & Processing** https://youtu.be/x");
    let downloading = TrackState::Downloading(source.clone());
    assert_eq!(downloading.to_string(), "**Downloading** https://youtu.be/x");
    let ready = queued.ready(String::from("saved_tracks/1"));
    assert_eq!(ready.to_string(), "https://youtu.be/x");
    let failed = downloading.fail(String::from("no space"));
    assert!(matches!(failed, TrackState::Failed { .. }));
    assert_eq!(failed.to_string(), "**Failed** https://youtu.be/x, no space");
    let simple = ready.fail_str(String::from("gone"));
    assert!(matches!(simple, TrackState::SimpleFailed { .. }));
    assert_eq!(simple.to_string(), "**Failed** https://youtu.be/x, gone");
    for state in [queued, downloading, ready, failed, simple] {
        assert_eq!(state.source().to_string(), source.to_string());
        assert_eq!(state.url(), "https://youtu.be/x");
        assert_eq!(state.get_info().1, "https://youtu.be/x");
        assert_eq!(state.clone().to_string(), state.to_string());
    }
}
