use brobot::search::{format_results, site_by_name, soundcloud, youtube, SearchResult, Site};

fn result(url: &str, title: &str, author: &str) -> SearchResult {
    SearchResult { url: url.to_string(), title: title.to_string(), author: author.to_string() }
}

#[test]
fn sites_by_name() {
    assert_eq!(Site::from_str("youtube"), Ok(Site::YouTube));
    assert_eq!(Site::from_str("YT"), Ok(Site::YouTube));
    assert_eq!(Site::from_str("SoundCloud"), Ok(Site::SoundCloud));
    assert_eq!(Site::from_str("sC"), Ok(Site::SoundCloud));
    assert_eq!(Site::from_str("bandcamp"), Err(()));
    assert_eq!(Site::from_str(""), Err(()));
    assert_eq!(site_by_name("yt"), Some(Site::YouTube));
    assert_eq!(site_by_name("YT"), None);
    assert_eq!(Site::YouTube.name(), format!("{:?}", Site::YouTube));
    assert_eq!(Site::SoundCloud.name(), format!("{:?}", Site::SoundCloud));
}

#[test]
fn youtube_requests() {
    assert_eq!(
        youtube::search_request("a b", "KEY"),
        "https://www.googleapis.com/youtube/v3/search?order=relevance&q=a+b&type=video&key=KEY&part=snippet"
    );
}

#[test]
fn soundcloud_requests() {
    assert_eq!(
        soundcloud::search_request("a&b=c#d", "ID"),
        "https://api-v2.soundcloud.com/search?q=a%26b%3Dc%23d&client_id=ID"
    );
}

#[test]
fn every_byte_is_form_encoded() {
    let text: String = (0u8..128).map(|b| b as char).chain("äß€😀".chars()).collect();
    let mut expected = String::from("https://api-v2.soundcloud.com/search?q=");
    for b in text.as_bytes() {
        if b.is_ascii_alphanumeric() || b"*-._".contains(b) {
            expected.push(*b as char);
        } else if *b == b' ' {
            expected.push('+');
        } else {
            expected.push_str(&format!("%{:02X}", b));
        }
    }
    expected.push_str("&client_id=");
    assert_eq!(soundcloud::search_request(&text, ""), expected);
}

#[test]
fn different_queries_give_different_requests() {
    let queries = ["a b", "a+b", "a%20b", "ab", "a  b", ""];
    for (i, a) in queries.iter().enumerate() {
        for (j, b) in queries.iter().enumerate() {
            assert_eq!(
                i == j,
                soundcloud::search_request(a, "k") == soundcloud::search_request(b, "k")
            );
        }
    }
}

#[test]
fn youtube_results() {
    let item = |id: &str, title: &str, channel: &str| {
        let mut item = youtube::Item::default();
        item.id.video_id = id.to_string();
        item.snippet.title = title.to_string();
        item.snippet.channel_title = channel.to_string();
        item
    };
    let mut root = youtube::QueryRoot::default();
    root.items = vec![item("abc", "First", "One"), item("def", "Second", "Two")];
    let results = youtube::search_results(root);
    assert_eq!(results.len(), 2);
    assert_eq!(results[0].url, "https://youtube.com/watch?v=abc");
    assert_eq!(results[0].title, "First");
    assert_eq!(results[0].author, "One");
    assert_eq!(results[1].url, "https://youtube.com/watch?v=def");
    assert!(youtube::search_results(youtube::QueryRoot::default()).is_empty());
}

#[test]
fn soundcloud_results() {
    let mut named = soundcloud::Collection::default();
    named.title = Some(String::from("Song"));
    named.uri = String::from("uri:1");
    named.permalink_url = String::from("https://soundcloud.com/a/song");
    let mut user = soundcloud::User::default();
    user.username = String::from("a");
    named.user = Some(user);
    let mut bare = soundcloud::Collection::default();
    bare.uri = String::from("uri:2");
    bare.permalink_url = String::from("https://soundcloud.com/b/song");
    bare.label_name = Some(serde_json::Value::Null);
    assert_eq!(bare.clone(), bare);
    let mut root = soundcloud::QueryRoot::default();
    root.collection = vec![named, bare];
    let results = soundcloud::search_results(root);
    assert_eq!(results[0].title, "Song");
    assert_eq!(results[0].author, "a");
    assert_eq!(results[0].url, "https://soundcloud.com/a/song");
    assert_eq!(results[1].title, "uri:2");
    assert_eq!(results[1].author, "Unknown User");
    assert_eq!(results[1].url, "https://soundcloud.com/b/song");
}

#[test]
fn lists_of_results() {
    assert_eq!(format_results(&[]), "No results");
    assert_eq!(
        format_results(&[result("u1", "t1", "a1"), result("u2", "t2", "a2")]),
        "**1**: [t1](u1) by **a1**\n**2**: [t2](u2) by **a2**\n"
    );
}

#[test]
fn copies_of_replies_keep_what_they_carry() {
    let mut user = soundcloud::User::default();
    user.reposts_count = serde_json::Value::from(3);
    assert_eq!(user.clone().reposts_count, serde_json::Value::from(3));
    assert_eq!(user.clone(), user);
}
