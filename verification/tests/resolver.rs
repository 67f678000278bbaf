use playback_core::classify_parts;
use playback_core::classify_source;
use playback_core::contains_str;
use playback_core::find_param;
use playback_core::str_eq;
use playback_core::QueueElement;
use playback_core::SourceQuery;

#[test]
fn classify_watch_url() {
    let q = "https://www.youtube.com/watch?v=abc123".to_string();
    match classify_source(&q) {
        SourceQuery::Video(v) => assert_eq!(v, "abc123"),
        other => panic!("expected Video, got {other:?}"),
    }
}

#[test]
fn classify_playlist_url() {
    let q = "https://youtube.com/playlist?list=PL42".to_string();
    match classify_source(&q) {
        SourceQuery::Playlist(p) => assert_eq!(p, "PL42"),
        other => panic!("expected Playlist, got {other:?}"),
    }
}

#[test]
fn classify_watch_with_list_prefers_the_playlist() {
    let q = "https://youtube.com/watch?v=abc&list=PL42".to_string();
    match classify_source(&q) {
        SourceQuery::WatchList { playlist_id, video_id } => {
            assert_eq!(playlist_id, "PL42");
            assert_eq!(video_id.as_deref(), Some("abc"));
        },
        other => panic!("expected WatchList, got {other:?}"),
    }
}

#[test]
fn classify_watch_with_lone_list_param_ignores_it() {
    // the list parameter is only consulted when the watch URL carries more
    // than one parameter
    let q = "https://youtube.com/watch?list=PL42".to_string();
    assert!(matches!(classify_source(&q), SourceQuery::Unsupported));
}

#[test]
fn classify_free_text_is_a_search() {
    let q = "never gonna give you up".to_string();
    match classify_source(&q) {
        SourceQuery::Search(s) => assert_eq!(s, "never gonna give you up"),
        other => panic!("expected Search, got {other:?}"),
    }
}

#[test]
fn classify_unsupported_urls() {
    let sc = "https://soundcloud.com/artist/track".to_string();
    assert!(matches!(classify_source(&sc), SourceQuery::Unsupported));

    let ip = "https://127.0.0.1/watch?v=abc".to_string();
    assert!(matches!(classify_source(&ip), SourceQuery::Unsupported));

    let playlist_without_list = "https://youtube.com/playlist".to_string();
    assert!(matches!(classify_source(&playlist_without_list), SourceQuery::Unsupported));

    let other_page = "https://youtube.com/feed/library".to_string();
    assert!(matches!(classify_source(&other_page), SourceQuery::Unsupported));
}

#[test]
fn classify_decodes_query_parameters() {
    let q = "https://youtube.com/watch?v=a%20b&x=1".to_string();
    match classify_source(&q) {
        SourceQuery::Video(v) => assert_eq!(v, "a b"),
        other => panic!("expected Video, got {other:?}"),
    }
}

#[test]
fn classify_parts_directly() {
    let pairs = vec![("v".to_string(), "abc".to_string())];
    let r = classify_parts(&Some("music.youtube.com".to_string()), &"/watch".to_string(), &pairs);
    assert!(matches!(r, SourceQuery::Video(v) if v == "abc"));

    let r2 = classify_parts(&None, &"/watch".to_string(), &pairs);
    assert!(matches!(r2, SourceQuery::Unsupported));

    let r3 = classify_parts(&Some("example.com".to_string()), &"/watch".to_string(), &pairs);
    assert!(matches!(r3, SourceQuery::Unsupported));
}

#[test]
fn find_param_returns_the_first_match() {
    let pairs = vec![
        ("a".to_string(), "1".to_string()),
        ("list".to_string(), "first".to_string()),
        ("list".to_string(), "second".to_string()),
    ];
    assert_eq!(find_param(&pairs, "list"), Some("first".to_string()));
    assert_eq!(find_param(&pairs, "v"), None);
    assert_eq!(find_param(&vec![], "v"), None);
}

#[test]
fn string_helpers() {
    assert!(str_eq("abc", "abc"));
    assert!(!str_eq("abc", "abd"));
    assert!(!str_eq("abc", "ab"));
    assert!(contains_str("www.youtube.com", "youtube.com"));
    assert!(contains_str("anything", ""));
    assert!(!contains_str("youtu.be", "youtube.com"));
    assert!(!contains_str("", "a"));
}

#[test]
fn element_constructors_build_platform_urls() {
    let v = QueueElement::new_video("T".to_string(), "C".to_string(), "abc".to_string());
    assert_eq!(v.url, "https://youtube.com/watch?v=abc");
    assert_eq!(v.id, "abc");
    assert_eq!(v.title, "T");
    assert_eq!(v.channel_name, "C");

    let p = QueueElement::new_playlist("T".to_string(), "C".to_string(), "PL1".to_string());
    assert_eq!(p.url, "https://youtube.com/playlist?list=PL1");
    assert_eq!(p.id, "PL1");
}
