use video_dl::downloader::{batch_output_filename, default_output_filename, select_format};
use video_dl::{Config, Format, Quality, VideoFormat};

fn sample_formats() -> Vec<VideoFormat> {
    vec![
        VideoFormat {
            id: "a".to_string(),
            quality: Quality::HD720,
            format: Format::MP4,
            file_size: None,
        },
        VideoFormat {
            id: "b".to_string(),
            quality: Quality::HD1080,
            format: Format::WebM,
            file_size: None,
        },
    ]
}

#[test]
fn best_with_container_returns_the_mp4_entry() {
    let formats = sample_formats();
    let i = select_format(&formats, "best", "mp4").unwrap();
    assert_eq!(i, 0);
    assert_eq!(formats[i].quality, Quality::HD720);
    assert_eq!(formats[i].format, Format::MP4);
}

#[test]
fn quality_only_match_beats_container() {
    let formats = sample_formats();
    let i = select_format(&formats, "1080p", "mp4").unwrap();
    assert_eq!(i, 1);
    assert_eq!(formats[i].quality, Quality::HD1080);
    assert_eq!(formats[i].format, Format::WebM);
}

#[test]
fn absent_combination_falls_back_to_first() {
    let formats = sample_formats();
    let i = select_format(&formats, "2160p", "mkv").unwrap();
    assert_eq!(i, 0);
}

#[test]
fn container_only_used_when_quality_not_best() {
    let formats = sample_formats();
    // Quality absent, container present: the container-only tier picks it.
    let i = select_format(&formats, "360p", "webm").unwrap();
    assert_eq!(i, 1);
}

#[test]
fn empty_format_list_is_an_error() {
    let formats: Vec<VideoFormat> = Vec::new();
    match select_format(&formats, "best", "mp4") {
        Err(video_dl::Error::NoSuitableFormats) => {},
        _ => panic!("expected the no-suitable-formats error"),
    }
}

#[test]
fn exact_match_wins_over_everything() {
    let formats = vec![
        VideoFormat {
            id: "x".to_string(),
            quality: Quality::HD1080,
            format: Format::WebM,
            file_size: None,
        },
        VideoFormat {
            id: "y".to_string(),
            quality: Quality::HD1080,
            format: Format::MP4,
            file_size: None,
        },
    ];
    let i = select_format(&formats, "1080P", "MP4").unwrap();
    assert_eq!(i, 1);
}

#[test]
fn config_substitutes_defaults_for_sentinels() {
    let mut config = Config::with_download_dir(".".to_string());
    assert!(config.set_value("default_quality", "1080p"));
    assert!(config.set_value("default_format", "webm"));
    assert_eq!(config.effective_quality("best".to_string()), "1080p");
    assert_eq!(config.effective_quality("720p".to_string()), "720p");
    assert_eq!(config.effective_format("mp4".to_string()), "webm");
    assert_eq!(config.effective_format("mov".to_string()), "mov");
}

#[test]
fn output_filenames_are_sanitized() {
    assert_eq!(batch_output_filename("a/b"), "ab.mp4");
    assert_eq!(batch_output_filename("clip"), "clip.mp4");
    assert_eq!(default_output_filename("My: Clip", "720P", "MP4"), "My Clip-720p.mp4");
}
