use video_dl::commands::batch::{
    collect_urls, make_tasks, require_urls, summarize, task_fail, task_start, task_succeed,
    TaskStatus,
};
use video_dl::commands::merge::{
    build_concat_manifest, check_enough_succeeded, collect_succeeded, concat_list_name,
    merge_precheck, order_by_index, remux_outcome, require_merge_files, workspace_dir_name,
    TempWorkspace,
};
use video_dl::utils::dependency_check::{
    all_dependencies_available, check_dependencies, minimum_dependencies_available,
    parse_ffmpeg_version,
};
use video_dl::utils::progress::{progress_permille, ProgressSlot};
use video_dl::{Config, Error};

#[test]
fn batch_merge_keeps_submission_order() {
    // Three URLs submitted as A, B, C; parallel completion order is C, A, B.
    let urls = vec!["A".to_string(), "B".to_string(), "C".to_string()];
    let mut tasks = make_tasks(&urls);
    assert_eq!(tasks.len(), 3);
    for (i, t) in tasks.iter().enumerate() {
        assert_eq!(t.submission_index, i);
        assert!(matches!(t.status, TaskStatus::Pending));
    }
    // Completion order C, A, B.
    for i in [2usize, 0, 1] {
        task_start(&mut tasks[i]);
        let path = format!("{}.mp4", urls[i]);
        task_succeed(&mut tasks[i], path);
    }
    let mut done = collect_succeeded(&tasks);
    // Model the completion order by scrambling before ordering.
    done.rotate_left(2);
    let ordered = order_by_index(done);
    let paths: Vec<String> = ordered.into_iter().map(|(_, p)| p).collect();
    assert_eq!(paths, vec!["A.mp4".to_string(), "B.mp4".to_string(), "C.mp4".to_string()]);
    let manifest = build_concat_manifest(&paths);
    assert_eq!(manifest, "file 'A.mp4'\nfile 'B.mp4'\nfile 'C.mp4'\n");
}

#[test]
fn manifest_escapes_single_quotes() {
    let paths = vec!["/t/a.mp4".to_string(), "/t/b'c.mp4".to_string()];
    let manifest = build_concat_manifest(&paths);
    assert_eq!(manifest, "file '/t/a.mp4'\nfile '/t/b'\\''c.mp4'\n");
}

#[test]
fn merge_with_one_success_out_of_three_fails_naming_counts() {
    let urls = vec!["A".to_string(), "B".to_string(), "C".to_string()];
    let mut tasks = make_tasks(&urls);
    task_start(&mut tasks[0]);
    task_succeed(&mut tasks[0], "A.mp4".to_string());
    task_start(&mut tasks[1]);
    task_fail(&mut tasks[1], Error::NoSuitableFormats);
    task_start(&mut tasks[2]);
    task_fail(
        &mut tasks[2],
        Error::DownloadFailed { reason: "expired".to_string() },
    );
    let (ok, bad) = summarize(&tasks);
    assert_eq!((ok, bad), (1, 2));
    let succeeded = collect_succeeded(&tasks);
    assert_eq!(succeeded.len(), 1);
    match check_enough_succeeded(succeeded.len()) {
        Err(Error::DownloadFailed { reason }) => assert_eq!(
            reason,
            "Not enough videos were successfully downloaded. Only got 1 out of minimum 2 required."
        ),
        _ => panic!("expected the download-failed error"),
    }
}

#[test]
fn merge_precheck_fails_fast() {
    match merge_precheck(false, 5) {
        Err(Error::CommandExecution { command, reason }) => {
            assert_eq!(command, "ffmpeg");
            assert_eq!(reason, "ffmpeg is required for merging videos. Please install it first.");
        },
        _ => panic!("expected the missing-dependency error"),
    }
    match merge_precheck(true, 1) {
        Err(Error::InvalidArgument(m)) => {
            assert_eq!(m, "At least two URLs are required for download-merge");
        },
        _ => panic!("expected the too-few-urls error"),
    }
    assert!(merge_precheck(true, 2).is_ok());
}

#[test]
fn remux_outcome_surfaces_collaborator_words() {
    assert!(remux_outcome(true, "").is_ok());
    match remux_outcome(false, "muxer exploded") {
        Err(Error::CommandExecution { command, reason }) => {
            assert_eq!(command, "ffmpeg");
            assert_eq!(reason, "muxer exploded");
        },
        _ => panic!("expected the command error"),
    }
}

#[test]
fn url_collection_trims_file_lines_and_keeps_args() {
    let args = vec!["https://a".to_string()];
    let lines = Some(vec![
        "  https://b ".to_string(),
        "".to_string(),
        "\t".to_string(),
        "https://c".to_string(),
    ]);
    let urls = collect_urls(&args, &lines);
    assert_eq!(urls, vec![
        "https://a".to_string(),
        "https://b".to_string(),
        "https://c".to_string(),
    ]);
    assert!(require_urls(&urls).is_ok());
    let none: Vec<String> = Vec::new();
    match require_urls(&none) {
        Err(Error::InvalidArgument(m)) => assert_eq!(m, "No URLs provided for download"),
        _ => panic!("expected the no-urls error"),
    }
}

#[test]
fn progress_fraction_is_clamped_thousandths() {
    assert_eq!(progress_permille(0, 100), 0);
    assert_eq!(progress_permille(50, 200), 250);
    assert_eq!(progress_permille(200, 200), 1000);
    assert_eq!(progress_permille(400, 200), 1000);
    let mut slot = ProgressSlot::new();
    assert_eq!(slot.current(), 0);
    slot.update(437);
    assert_eq!(slot.current(), 437);
    slot.update(2000);
    assert_eq!(slot.current(), 1000);
    slot.update(10);
    assert_eq!(slot.current(), 10);
}

#[test]
fn dependency_snapshot_reads_versions() {
    let ff = "ffmpeg version 6.0-static https://johnvansickle.com\nbuilt with gcc";
    let yt = " 2024.08.06\n";
    let status = check_dependencies(true, Some(yt), true, Some(ff));
    assert!(status.yt_dlp_available);
    assert!(status.ffmpeg_available);
    assert_eq!(status.yt_dlp_version.as_deref(), Some("2024.08.06"));
    assert_eq!(status.ffmpeg_version.as_deref(), Some("6.0-static"));
    assert!(all_dependencies_available(&status));
    assert!(minimum_dependencies_available(&status));

    let partial = check_dependencies(true, None, false, None);
    assert!(!all_dependencies_available(&partial));
    assert!(minimum_dependencies_available(&partial));
    assert!(partial.ffmpeg_version.is_none());

    assert_eq!(parse_ffmpeg_version("no marker here"), "Unknown version");
    assert_eq!(parse_ffmpeg_version("ffmpeg version 7.1"), "7.1");
}

#[test]
fn workspace_outcome_is_released_only_after_cleanup() {
    let mut ws = TempWorkspace::create("/tmp/work".to_string());
    assert_eq!(ws.path(), "/tmp/work");
    // A failing merge still goes through cleanup before its error escapes.
    let failure: Result<(), Error> = check_enough_succeeded(1);
    ws.mark_deleted();
    match ws.finish(failure) {
        Err(Error::DownloadFailed { reason }) => assert!(reason.contains("Only got 1")),
        _ => panic!("expected the download-failed error"),
    }
}

#[test]
fn temp_resource_names_carry_the_unique_token() {
    assert_eq!(workspace_dir_name("u1"), "video_dl_merge_u1");
    assert_eq!(concat_list_name("u2"), "concat_list_u2.txt");
    assert_eq!(video_dl::downloader::temp_file_name("u3"), "video-dl-u3");
}

#[test]
fn merge_of_files_needs_two_inputs() {
    match require_merge_files(1) {
        Err(Error::InvalidArgument(m)) => {
            assert_eq!(m, "At least two input files are required for merging");
        },
        _ => panic!("expected the too-few-files error"),
    }
    assert!(require_merge_files(2).is_ok());
}

#[test]
fn config_updates_follow_the_key_rules() {
    let mut config = Config::with_download_dir("/videos".to_string());
    assert_eq!(config.get_value("download_dir").as_deref(), Some("/videos"));
    assert_eq!(config.get_value("default_quality").as_deref(), Some("best"));
    assert_eq!(config.get_value("show_progress").as_deref(), Some("true"));
    assert_eq!(config.get_value("ytdlp_path").as_deref(), Some("none"));
    assert_eq!(config.get_value("bogus"), None);

    assert!(config.set_value("show_progress", "false"));
    assert_eq!(config.get_value("show_progress").as_deref(), Some("false"));
    assert!(!config.set_value("show_progress", "maybe"));
    assert_eq!(config.get_value("show_progress").as_deref(), Some("false"));

    assert!(config.set_value("ytdlp_path", "/opt/yt-dlp"));
    assert_eq!(config.get_value("ytdlp_path").as_deref(), Some("/opt/yt-dlp"));
    assert!(config.set_value("ytdlp_path", "NONE"));
    assert_eq!(config.get_value("ytdlp_path").as_deref(), Some("none"));

    assert!(!config.set_value("bogus", "1"));
    assert!(config.set_value("overwrite_files", "true"));
    assert!(config.overwrite_files);
}
