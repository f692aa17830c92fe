use media_acquire::binaries::binary_paths;
use media_acquire::metadata::ResourceKind;
use media_acquire::outcome::{
    conclude_run, outcome_of, ExitReport, FailureReason, RunOutcome,
};
use media_acquire::pipeline::{join_path, plan_download, DownloadRequest};
use media_acquire::resolve::resolve_name;

fn request(kind: ResourceKind, playlist_folder: Option<String>) -> DownloadRequest {
    DownloadRequest {
        url: "https://example.invalid/watch?v=1".to_string(),
        format: "mp4".to_string(),
        quality: "1080p".to_string(),
        kind,
        empty_playlist: false,
        base_dir: "/downloads".to_string(),
        playlist_folder,
    }
}

#[test]
fn video_request_downloads_into_the_base_directory() {
    let plan = plan_download(&request(ResourceKind::Video, None), "bin/ffmpeg.exe").unwrap();
    assert_eq!(plan.dest_dir, "/downloads");
    assert!(plan.args.contains(&"--no-playlist".to_string()));
    assert!(!plan.args.contains(&"--yes-playlist".to_string()));
}

#[test]
fn playlist_request_downloads_into_its_resolved_folder() {
    // The base directory already holds a folder of the playlist's title, so
    // resolution picks the variant numbered 2 and the plan targets it.
    let existing = vec!["Lo-Fi Mix".to_string()];
    let folder = resolve_name(&existing, "Lo-Fi Mix");
    assert_eq!(folder, "Lo-Fi Mix (2)");
    let req = DownloadRequest {
        format: "mp3".to_string(),
        quality: "best".to_string(),
        ..request(ResourceKind::Playlist, Some(folder))
    };
    let plan = plan_download(&req, "bin/ffmpeg").unwrap();
    assert_eq!(plan.dest_dir, "/downloads/Lo-Fi Mix (2)");
    assert!(plan.args.contains(&"--yes-playlist".to_string()));
    assert_eq!(plan.args[3], "/downloads/Lo-Fi Mix (2)");
}

#[test]
fn not_actionable_request_is_refused_before_any_spawn() {
    let r = plan_download(&request(ResourceKind::NotActionable, None), "ffmpeg");
    assert_eq!(r.err(), Some(FailureReason::ClassificationAmbiguous));
}

#[test]
fn empty_playlist_request_is_refused_as_nothing_to_do() {
    let req = DownloadRequest {
        empty_playlist: true,
        ..request(ResourceKind::NotActionable, None)
    };
    let r = plan_download(&req, "ffmpeg");
    assert_eq!(r.err(), Some(FailureReason::EmptyResource));
}

#[test]
fn join_path_inserts_one_separator() {
    assert_eq!(join_path("/downloads", "Mix (2)"), "/downloads/Mix (2)");
}

#[test]
fn exit_zero_is_the_only_success() {
    assert_eq!(outcome_of(ExitReport::Exited(0)), RunOutcome::Success);
    assert_eq!(
        outcome_of(ExitReport::Exited(1)),
        RunOutcome::Failure(FailureReason::ToolExitFailure)
    );
    assert_eq!(
        outcome_of(ExitReport::Exited(-9)),
        RunOutcome::Failure(FailureReason::ToolExitFailure)
    );
    assert_eq!(
        outcome_of(ExitReport::NotSpawned),
        RunOutcome::Failure(FailureReason::ToolSpawnFailure)
    );
    assert_eq!(
        outcome_of(ExitReport::Interrupted),
        RunOutcome::Failure(FailureReason::ToolExitFailure)
    );
}

#[test]
fn failed_run_still_delivers_every_line_in_order() {
    let lines = vec![
        "[download] 10%".to_string(),
        "[download] 55%".to_string(),
        "ERROR: network".to_string(),
    ];
    let report = conclude_run(lines.clone(), ExitReport::Exited(2));
    assert_eq!(report.events, lines);
    assert_eq!(
        report.outcome,
        RunOutcome::Failure(FailureReason::ToolExitFailure)
    );
}

#[test]
fn supported_platforms_get_their_bundled_binaries() {
    let p = binary_paths("windows", "x86_64").unwrap();
    assert_eq!(p.extractor, "bin/yt-dlp.exe");
    assert_eq!(p.transcoder, "bin/ffmpeg.exe");
    let p = binary_paths("windows", "x86").unwrap();
    assert_eq!(p.extractor, "bin/yt-dlp_x86.exe");
    assert_eq!(p.transcoder, "bin/ffmpeg_x86.exe");
    let p = binary_paths("macos", "aarch64").unwrap();
    assert_eq!(p.extractor, "bin/yt-dlp_macos");
    assert_eq!(p.transcoder, "bin/ffmpeg_macos_arm");
    let p = binary_paths("macos", "x86_64").unwrap();
    assert_eq!(p.extractor, "bin/yt-dlp_macos");
    assert_eq!(p.transcoder, "bin/ffmpeg_macos_x86");
}

#[test]
fn unsupported_platforms_get_nothing() {
    assert!(binary_paths("linux", "x86_64").is_none());
    assert!(binary_paths("macos", "x86").is_none());
    assert!(binary_paths("", "").is_none());
}
