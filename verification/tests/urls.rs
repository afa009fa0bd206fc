use video_dl::platform::{
    create_platform_detector, normalize_url, Platform, PlatformDetector, RedditPlatform, TikTok,
    YouTube,
};
use video_dl::urlparts::parse_url;

#[test]
fn test_normalize_url() {
    let test_cases = vec![
        (
            "https://www.youtube.com/watch?v=dQw4w9WgXcQ&feature=shared",
            "https://www.youtube.com/watch?v=dQw4w9WgXcQ",
        ),
        (
            "https://www.youtube.com/watch?v=dQw4w9WgXcQ&t=30s&feature=shared",
            "https://www.youtube.com/watch?v=dQw4w9WgXcQ&t=30s",
        ),
    ];

    for (input, expected) in test_cases {
        let normalized = normalize_url(input).unwrap();
        assert_eq!(normalized, expected);
    }
}

#[test]
fn normalize_url_is_idempotent() {
    let inputs = [
        "https://www.youtube.com/watch?v=dQw4w9WgXcQ&feature=shared",
        "https://example.com/a/b?id=7&utm_source=x",
        "https://youtu.be/abc123",
    ];
    for input in inputs.iter() {
        let once = normalize_url(input).unwrap();
        let twice = normalize_url(&once).unwrap();
        assert_eq!(twice, once);
    }
}

#[test]
fn normalize_url_rejects_unparseable_input() {
    assert!(normalize_url("not a url").is_err());
    match normalize_url("no-scheme") {
        Err(video_dl::Error::InvalidUrl(m)) => assert_eq!(m, "no-scheme"),
        _ => panic!("expected an invalid-url error"),
    }
}

#[test]
fn test_platform_detection() {
    let mut detector = PlatformDetector::new();

    detector.register(Platform::YouTube(YouTube::new()));
    detector.register(Platform::TikTok(TikTok::new()));

    let youtube_url = parse_url("https://www.youtube.com/watch?v=dQw4w9WgXcQ").unwrap();
    let platform = detector.detect(&youtube_url).unwrap();
    assert_eq!(platform.name(), "YouTube");

    let tiktok_url = parse_url("https://www.tiktok.com/@user/video/1234567890").unwrap();
    let platform = detector.detect(&tiktok_url).unwrap();
    assert_eq!(platform.name(), "TikTok");

    let unsupported_url = parse_url("https://example.com/video").unwrap();
    assert!(detector.detect(&unsupported_url).is_err());
}

#[test]
fn detection_reports_unsupported_platform() {
    let detector = create_platform_detector();
    let url = parse_url("https://example.com/video").unwrap();
    match detector.detect(&url) {
        Err(video_dl::Error::UnsupportedPlatform) => {},
        _ => panic!("expected the unsupported-platform error"),
    }
    let reddit = parse_url("https://old.reddit.com/r/gifs/comments/ghi789").unwrap();
    assert_eq!(detector.detect(&reddit).unwrap().name(), "reddit");
}

#[test]
fn test_reddit_url_detection() {
    let valid_urls = [
        "https://reddit.com/r/videos/comments/abc123",
        "https://www.reddit.com/r/funny/comments/def456",
        "https://old.reddit.com/r/gifs/comments/ghi789",
    ];

    let invalid_urls = [
        "https://youtube.com/watch?v=abc123",
        "https://vimeo.com/123456",
        "https://notreddit.com/video",
    ];

    for url in valid_urls.iter() {
        let parsed_url = parse_url(url).unwrap();
        assert!(RedditPlatform::is_reddit_url(&parsed_url));
    }

    for url in invalid_urls.iter() {
        let parsed_url = parse_url(url).unwrap();
        assert!(!RedditPlatform::is_reddit_url(&parsed_url));
    }
}

#[test]
fn normalize_url_keeps_duplicate_allowed_keys_in_order() {
    let normalized = normalize_url("https://example.com/w?v=1&x=9&v=2").unwrap();
    assert_eq!(normalized, "https://example.com/w?v=1&v=2");
}

#[test]
fn parse_url_exposes_the_parts() {
    let u = parse_url("https://www.youtube.com/watch?v=abc&t=30s").unwrap();
    assert_eq!(u.scheme, "https");
    assert_eq!(u.host, "www.youtube.com");
    assert_eq!(u.path, "/watch");
    assert_eq!(u.query, vec![
        ("v".to_string(), "abc".to_string()),
        ("t".to_string(), "30s".to_string()),
    ]);
}
