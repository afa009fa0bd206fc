use video_dl::platform::tiktok::{
    extract_json_from_html, next_attempt, parse_video_payload, surface_first_error,
    DownloadAttempt, TikTok,
};
use video_dl::platform::youtube::{
    parse_format_listing, parse_metadata_json, parse_progress_line, watch_url,
    youtube_format_spec, YouTube,
};
use video_dl::platform::RedditPlatform;
use video_dl::urlparts::parse_url;
use video_dl::{Error, Format, Quality, VideoFormat};

#[test]
fn youtube_video_id_from_each_url_shape() {
    let yt = YouTube::new();
    let short = parse_url("https://youtu.be/abc123").unwrap();
    assert_eq!(yt.extract_video_id(&short).unwrap(), "abc123");
    let watch = parse_url("https://www.youtube.com/watch?v=dQw4w9WgXcQ").unwrap();
    assert_eq!(yt.extract_video_id(&watch).unwrap(), "dQw4w9WgXcQ");
    let shorts = parse_url("https://www.youtube.com/shorts/xyz9").unwrap();
    assert_eq!(yt.extract_video_id(&shorts).unwrap(), "xyz9");
    let playlist = parse_url("https://www.youtube.com/playlist?list=PL1").unwrap();
    match yt.extract_video_id(&playlist) {
        Err(Error::InvalidUrl(m)) => assert_eq!(m, "No video ID found in URL"),
        _ => panic!("expected the invalid-url error"),
    }
}

#[test]
fn youtube_quality_from_listing_line() {
    let yt = YouTube::new();
    assert_eq!(yt.determine_quality("137 mp4 1920x1080 30"), Quality::HD1080);
    assert_eq!(yt.determine_quality("299 mp4 2160p hdr"), Quality::UHD2160);
    assert_eq!(yt.determine_quality("18 mp4 640x360"), Quality::Low);
    assert_eq!(yt.determine_quality("nothing to see"), Quality::Medium);
}

#[test]
fn youtube_format_listing_parses_rows_and_appends_best() {
    let stdout = "ID  EXT RESOLUTION\n------------\n\n251 webm audio only tiny\n137 mp4 1920x1080 30\n248 webm 1280x720 30\n";
    let formats = parse_format_listing(stdout).unwrap();
    assert_eq!(formats.len(), 3);
    assert_eq!(formats[0].id, "137");
    assert_eq!(formats[0].format, Format::MP4);
    assert_eq!(formats[0].quality, Quality::HD1080);
    assert_eq!(formats[1].id, "248");
    assert_eq!(formats[1].format, Format::WebM);
    assert_eq!(formats[1].quality, Quality::HD720);
    assert_eq!(formats[2].id, "best");
    assert_eq!(formats[2].quality, Quality::HD1080);
    assert_eq!(formats[2].format, Format::MP4);

    match parse_format_listing("ID EXT\n----\n") {
        Err(Error::NoSuitableFormats) => {},
        _ => panic!("expected the no-suitable-formats error"),
    }
}

#[test]
fn youtube_format_spec_covers_the_tool_matrix() {
    let formats = vec![VideoFormat {
        id: "137".to_string(),
        quality: Quality::HD1080,
        format: Format::MP4,
        file_size: None,
    }];
    assert_eq!(
        youtube_format_spec(true, "best", &formats),
        "bestvideo[ext=mp4]+bestaudio[ext=m4a]/best[ext=mp4]/best"
    );
    assert_eq!(youtube_format_spec(true, "137", &formats), "137/best");
    assert_eq!(youtube_format_spec(false, "best", &formats), "best[ext=mp4]/best");
    assert_eq!(
        youtube_format_spec(false, "137", &formats),
        "137/best[height<=1080][ext=mp4]/best"
    );
    assert_eq!(youtube_format_spec(false, "999", &formats), "best[ext=mp4]/best");
}

#[test]
fn youtube_progress_lines_parse_to_thousandths() {
    assert_eq!(parse_progress_line("[download]   42.5% of ~3MiB"), Some(425));
    assert_eq!(parse_progress_line("[download] 100.0%"), Some(1000));
    assert_eq!(parse_progress_line("[download] 0.0%"), Some(0));
    assert_eq!(parse_progress_line("no tag 42.5%"), None);
    assert_eq!(parse_progress_line("[download]42.5%"), None);
    assert_eq!(parse_progress_line("[download]  42%"), None);
}

#[test]
fn youtube_metadata_and_watch_url() {
    let md = parse_metadata_json(
        "{\"title\":\"A Video\",\"id\":\"abc\",\"description\":\"words\",\"duration\":12.7}",
    )
    .unwrap();
    assert_eq!(md.title, "A Video");
    assert_eq!(md.video_id, "abc");
    assert_eq!(md.description.as_deref(), Some("words"));
    assert_eq!(md.duration, Some(12));
    match parse_metadata_json("{\"id\":\"abc\"}") {
        Err(Error::OutputParsing(m)) => assert_eq!(m, "Failed to parse video metadata"),
        _ => panic!("expected the output-parsing error"),
    }
    assert_eq!(watch_url("abc"), "https://www.youtube.com/watch?v=abc");
}

#[test]
fn tiktok_normalize_rewrites_hosts_and_scheme() {
    assert_eq!(
        TikTok::normalize_url("vm.tiktok.com/xyz"),
        "https://www.tiktok.com/xyz"
    );
    assert_eq!(
        TikTok::normalize_url("tiktok.com/@u/video/1"),
        "https://www.tiktok.com/@u/video/1"
    );
    assert_eq!(
        TikTok::normalize_url("https://www.tiktok.com/@u/video/1"),
        "https://www.tiktok.com/@u/video/1"
    );
}

#[test]
fn tiktok_ids_from_each_url_shape() {
    let tt = TikTok::new();
    let (user, id) = tt.extract_ids("https://www.tiktok.com/@user/video/1234567890").unwrap();
    assert_eq!(user, "user");
    assert_eq!(id, "1234567890");
    let (user, id) = tt.extract_ids("https://www.tiktok.com/v/555").unwrap();
    assert_eq!(user, "");
    assert_eq!(id, "555");
    assert!(tt.extract_ids("https://www.tiktok.com/about").is_none());
}

#[test]
fn embedded_json_accepts_plain_and_base64_payloads() {
    let plain = "<script id=\"SIGI_STATE\" type=\"application/json\">{\"a\":1}</script>";
    assert_eq!(extract_json_from_html(plain).as_deref(), Some("{\"a\":1}"));
    // "eyJhIjoxfQ==" is {"a":1} in base64.
    let encoded = "<script id=\"SIGI_STATE\" type=\"application/json\">eyJhIjoxfQ==</script>";
    assert_eq!(extract_json_from_html(encoded).as_deref(), Some("{\"a\":1}"));
    let broken = "<script id=\"SIGI_STATE\" type=\"application/json\">{\"broken</script>";
    assert_eq!(extract_json_from_html(broken), None);
}

#[test]
fn tiktok_payload_reads_the_video_object() {
    let body = "{\"desc\":\"t\",\"video\":{\"height\":1080,\"duration\":10,\"playAddr\":\"p\",\"downloadAddr\":\"d\",\"bitrate\":800},\"author\":{\"nickname\":\"A\",\"uniqueId\":\"a1\"},\"stats\":{\"playCount\":5,\"likeCount\":2}}";
    let p = parse_video_payload(body).unwrap();
    assert_eq!(p.desc, "t");
    assert_eq!(p.height, 1080);
    assert_eq!(p.play_url, "p");
    assert_eq!(p.download_url, "d");
    assert_eq!(p.author_nickname, "A");
    assert_eq!(p.play_count, 5);
    // A present video object must carry its media URLs.
    assert!(parse_video_payload("{\"desc\":\"t\",\"video\":{},\"author\":{\"nickname\":\"A\",\"uniqueId\":\"a1\"},\"stats\":{}}").is_none());

    let tt = TikTok::new();
    let info = tt.build_video_info("https://www.tiktok.com/@a1/video/9", &p);
    assert_eq!(info.title, "t");
    assert_eq!(info.description.as_deref(), Some("By A (@a1) - 5 plays, 2 likes"));
    assert_eq!(info.duration, Some(10));
    assert_eq!(info.formats.len(), 1);
    assert_eq!(info.formats[0].id, "default");
    assert_eq!(info.formats[0].quality, Quality::HD1080);
    assert_eq!(info.formats[0].file_size, Some(1000));
}

#[test]
fn tiktok_chain_falls_through_to_api_then_salvage() {
    let tt = TikTok::new();
    // The embedded payload matches but does not decode into a video object,
    // so the API tier's answer is used.
    let html = "<script id=\"SIGI_STATE\" type=\"application/json\">{\"a\":1}</script>";
    let api = "{\"aweme_list\":[{\"desc\":\"hi\",\"video\":{\"playAddr\":\"pp\",\"downloadAddr\":\"dd\"},\"author\":{\"nickname\":\"N\",\"uniqueId\":\"n1\"},\"stats\":{}}]}";
    let p = tt.choose_extraction(html, Some(api), "7").unwrap();
    assert_eq!(p.desc, "hi");
    assert_eq!(p.play_url, "pp");
    // With no API answer either, salvage scans the raw page.
    let salvage_html = "junk playAddr\":\"https:\\u002F\\u002Fv.test\\u002Fa\" more";
    let p = tt.choose_extraction(salvage_html, None, "42").unwrap();
    assert_eq!(p.play_url, "https://v.test/a");
    assert_eq!(p.download_url, "https://v.test/a");
    assert_eq!(p.desc, "TikTok Video 42");
    assert_eq!(p.author_nickname, "Unknown");
    assert_eq!(p.author_unique_id, "unknown");
    assert_eq!(p.height, 720);
    // When every tier is exhausted, the failure is the platform-parsing
    // error, not a lower-level one.
    match tt.choose_extraction("nothing here", None, "1") {
        Err(Error::Platform(m)) => assert_eq!(m, "Could not extract video URL from HTML"),
        _ => panic!("expected the platform-parsing error"),
    }
}

#[test]
fn tiktok_download_plan_and_format_gate() {
    let tt = TikTok::new();
    assert!(tt.check_format_id("default").is_ok());
    match tt.check_format_id("hd") {
        Err(Error::InvalidFormat(m)) => assert_eq!(m, "hd"),
        _ => panic!("expected the invalid-format error"),
    }
    assert_eq!(next_attempt(0), DownloadAttempt::UseDownloadUrl);
    assert_eq!(next_attempt(1), DownloadAttempt::UsePlayUrl);
    assert_eq!(next_attempt(2), DownloadAttempt::RefreshInfo);
    assert_eq!(next_attempt(3), DownloadAttempt::UseDownloadUrl);
    assert_eq!(next_attempt(4), DownloadAttempt::UsePlayUrl);
    assert_eq!(next_attempt(5), DownloadAttempt::GiveUp);
    let first = Error::Network("timed out".to_string());
    let retry = Error::Network("expired".to_string());
    match surface_first_error(first, retry) {
        Error::Network(m) => assert_eq!(m, "timed out"),
        _ => panic!("expected the first error"),
    }
}

#[test]
fn size_estimate_saturates_and_counts_render_in_full() {
    let tt = TikTok::new();
    let p = video_dl::platform::tiktok::VideoPayload {
        desc: "big".to_string(),
        height: 4000,
        duration: u64::MAX,
        play_url: "p".to_string(),
        download_url: "d".to_string(),
        bit_rate: u64::MAX,
        author_nickname: "N".to_string(),
        author_unique_id: "n".to_string(),
        play_count: u64::MAX,
        like_count: 0,
    };
    let info = tt.build_video_info("u", &p);
    assert_eq!(info.formats[0].file_size, Some(u64::MAX));
    assert_eq!(info.formats[0].quality, Quality::HD1080);
    assert_eq!(
        info.description.as_deref(),
        Some("By N (@n) - 18446744073709551615 plays, 0 likes")
    );
    assert_eq!(
        video_dl::utils::progress::progress_permille(u64::MAX - 1, u64::MAX),
        999
    );
}

#[test]
fn reddit_post_info_and_errors() {
    let reddit = RedditPlatform::new();
    let body = "[{\"data\":{\"children\":[{\"data\":{\"is_video\":true,\"title\":\"Clip\",\"selftext\":\"\",\"media\":{\"reddit_video\":{\"fallback_url\":\"https://v.redd.it/x/DASH_720.mp4\",\"duration\":21}}}}]}}]";
    let info = reddit.extract_post_info("https://www.reddit.com/r/videos/comments/abc", body).unwrap();
    assert_eq!(info.title, "Clip");
    assert_eq!(info.duration, Some(21));
    assert_eq!(info.formats.len(), 1);
    assert_eq!(info.formats[0].id, "high");
    assert_eq!(info.formats[0].quality, Quality::High);
    assert_eq!(
        reddit.fresh_video_url(body).unwrap(),
        "https://v.redd.it/x/DASH_720.mp4"
    );

    let not_video = "[{\"data\":{\"children\":[{\"data\":{\"is_video\":false,\"title\":\"T\"}}]}}]";
    match reddit.extract_post_info("u", not_video) {
        Err(Error::Platform(m)) => assert_eq!(m, "Not a video post"),
        _ => panic!("expected the not-a-video error"),
    }
    match reddit.extract_post_info("u", "garbage") {
        Err(Error::Network(m)) => assert_eq!(m, "malformed response body"),
        _ => panic!("expected the malformed-body error"),
    }
    assert_eq!(
        reddit.api_url("https://www.reddit.com/r/videos/comments/abc"),
        "https://api.reddit.com/r/videos/comments/abc"
    );
}
