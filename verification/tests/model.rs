use video_dl::{Error, Format, Quality, VideoFormat};

#[test]
fn test_quality_display() {
    assert_eq!(Quality::Low.label(), "low");
    assert_eq!(Quality::HD1080.label(), "1080p");
    assert_eq!(Quality::Custom("1440p".to_string()).label(), "1440p");
}

#[test]
fn test_format_display() {
    assert_eq!(Format::MP4.label(), "mp4");
    assert_eq!(Format::WebM.label(), "webm");
    assert_eq!(Format::Other("mkv".to_string()).label(), "mkv");
}

#[test]
fn test_quality_fromstr() {
    assert_eq!("low".parse::<Quality>().unwrap(), Quality::Low);
    assert_eq!("1080p".parse::<Quality>().unwrap(), Quality::HD1080);
    assert_eq!("1440p".parse::<Quality>().unwrap(), Quality::Custom("1440p".to_string()));
}

#[test]
fn test_format_fromstr() {
    assert_eq!("mp4".parse::<Format>().unwrap(), Format::MP4);
    assert_eq!("webm".parse::<Format>().unwrap(), Format::WebM);
    assert_eq!("mkv".parse::<Format>().unwrap(), Format::Other("mkv".to_string()));
}

#[test]
fn quality_parse_is_case_insensitive() {
    assert_eq!("HD1080".parse::<Quality>().unwrap(), Quality::HD1080);
    assert_eq!("4K".parse::<Quality>().unwrap(), Quality::UHD2160);
    assert_eq!("UHD".parse::<Quality>().unwrap(), Quality::UHD2160);
    assert_eq!("MEDIUM".parse::<Quality>().unwrap(), Quality::Medium);
}

#[test]
fn format_matches_ignores_ascii_case() {
    let f = VideoFormat {
        id: "22".to_string(),
        quality: Quality::HD720,
        format: Format::MP4,
        file_size: None,
    };
    assert!(f.matches("720P", "MP4"));
    assert!(f.matches("720p", "mp4"));
    assert!(!f.matches("1080p", "mp4"));
    assert!(!f.matches("720p", "webm"));
}

#[test]
fn error_messages_follow_display_convention() {
    let e = Error::CommandExecution {
        command: "ffmpeg".to_string(),
        reason: "exited with 1".to_string(),
    };
    assert_eq!(e.message(), "Failed to execute external command: ffmpeg - exited with 1");
    assert_eq!(Error::UnsupportedPlatform.message(), "Unsupported platform");
    assert_eq!(Error::NoSuitableFormats.message(), "No suitable formats found");
    assert_eq!(
        Error::InvalidUrl("nope".to_string()).message(),
        "Invalid URL: nope"
    );
    assert_eq!(Error::Network("reset".to_string()).message(), "Network error: reset");
    assert_eq!(Error::IO("denied".to_string()).message(), "IO error: denied");
    assert_eq!(Error::Platform("bad".to_string()).message(), "Platform error: bad");
    assert_eq!(Error::InvalidFormat("x".to_string()).message(), "Invalid format: x");
    assert_eq!(
        Error::OutputParsing("odd".to_string()).message(),
        "Failed to parse command output: odd"
    );
    assert_eq!(
        Error::DownloadFailed { reason: "gone".to_string() }.message(),
        "Download failed: gone"
    );
    assert_eq!(
        Error::InvalidOutputPath("/dev/null/x".to_string()).message(),
        "Invalid output path: /dev/null/x"
    );
    assert_eq!(
        Error::InvalidArgument("few".to_string()).message(),
        "Invalid argument: few"
    );
}

#[test]
fn error_helpers_build_the_named_variants() {
    match video_dl::error::platform_err("boom".to_string()) {
        Error::Platform(m) => assert_eq!(m, "boom"),
        _ => panic!("wrong variant"),
    }
    match video_dl::error::command_err("yt-dlp".to_string(), "gone".to_string()) {
        Error::CommandExecution { command, reason } => {
            assert_eq!(command, "yt-dlp");
            assert_eq!(reason, "gone");
        },
        _ => panic!("wrong variant"),
    }
}
