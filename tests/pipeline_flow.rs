use yt_clipper::aggregate::{overall_percent, PhaseSlot, HALF};
use yt_clipper::cleanup::{artifact_paths, extension_length, temp_path_for};
use yt_clipper::commands::{
    clip_file_name, fetch_invocation, local_invocation, reencode_invocation, section_arg, seconds_arg,
    ContainerFormat, Platform, Tool,
};
use yt_clipper::pipeline::{ClipRequest, Controller, PipelineError, PipelineState, Route, Stage, Step};
use yt_clipper::progress::FULL;
use yt_clipper::quality::QualityTier;

fn request(source: &str, quality: QualityTier) -> ClipRequest {
    ClipRequest {
        source: source.to_string(),
        title: "Title".to_string(),
        start_ms: 10_000,
        end_ms: 140_000,
        quality,
        container: ContainerFormat::Mp4,
        job_id: "job-7".to_string(),
    }
}

#[test]
fn phase_scaling() {
    assert_eq!(overall_percent(PhaseSlot::Only, 4500), 4500);
    assert_eq!(overall_percent(PhaseSlot::Only, 12000), FULL);
    assert_eq!(overall_percent(PhaseSlot::FirstOfTwo, 0), 0);
    assert_eq!(overall_percent(PhaseSlot::FirstOfTwo, 5000), 2500);
    assert_eq!(overall_percent(PhaseSlot::FirstOfTwo, FULL), 4999);
    assert_eq!(overall_percent(PhaseSlot::SecondOfTwo, 0), HALF);
    assert_eq!(overall_percent(PhaseSlot::SecondOfTwo, 5000), 7500);
    assert_eq!(overall_percent(PhaseSlot::SecondOfTwo, FULL), FULL);
}

#[test]
fn cancel_removes_every_variant_of_a_reencoded_clip() {
    let paths = artifact_paths("clip.mp4", true);
    assert_eq!(paths, vec!["clip.mp4", "clip.mp4.part", "clip.temp.mp4", "clip.temp.mp4.part"]);
}

#[test]
fn artifacts_without_reencode() {
    assert_eq!(artifact_paths("/d/a.b/clip.mkv", false), vec!["/d/a.b/clip.mkv", "/d/a.b/clip.mkv.part"]);
}

#[test]
fn temp_paths() {
    assert_eq!(temp_path_for("/home/u/YT_Clipper/clip.mp4"), "/home/u/YT_Clipper/clip.temp.mp4");
    assert_eq!(temp_path_for("/a.b/clip"), "/a.b/clip.temp");
    assert_eq!(temp_path_for("/a/.hidden"), "/a/.hidden.temp");
    assert_eq!(temp_path_for("clip."), "clip..temp");
    assert_eq!(extension_length("C:\\v\\x.webm"), Some(4));
    assert_eq!(extension_length("noext"), None);
}

#[test]
fn seconds_and_sections() {
    assert_eq!(seconds_arg(65_000), "65.000");
    assert_eq!(seconds_arg(1_234_567), "1234.567");
    assert_eq!(seconds_arg(5), "0.005");
    assert_eq!(section_arg(10_500, 20_000), "*10.500-20.000");
}

#[test]
fn fetch_arguments() {
    let inv = fetch_invocation("https://v/x", 0, 5_000, QualityTier::P480, ContainerFormat::Mkv, "/o/c.mkv");
    assert_eq!(inv.tool, Tool::Downloader);
    assert_eq!(
        inv.args,
        vec![
            "--newline",
            "--progress-template",
            "download:PROGRESS|%(progress._percent_str)s|%(progress._speed_str)s|%(progress._eta_str)s|%(progress._total_bytes_str)s",
            "--download-sections",
            "*0.000-5.000",
            "-f",
            "bestvideo[height=480][vcodec^=avc]+bestaudio[ext=m4a]/bestvideo[height=480]+bestaudio/best[height<=480]",
            "--merge-output-format",
            "mkv",
            "-o",
            "/o/c.mkv",
            "https://v/x",
        ]
    );
}

#[test]
fn local_arguments() {
    let inv = local_invocation("/in.mov", 1_000, 2_000, QualityTier::P720, ContainerFormat::Webm, "/o.webm");
    assert_eq!(inv.tool, Tool::Encoder);
    assert_eq!(
        inv.args,
        vec![
            "-y", "-ss", "1.000", "-to", "2.000", "-i", "/in.mov", "-vf", "scale=-2:720", "-c:v",
            "libvpx-vp9", "-c:a", "libopus", "/o.webm",
        ]
    );
    let audio = local_invocation("/in.mov", 0, 1, QualityTier::AudioOnly, ContainerFormat::Mp4, "/o.mp4");
    assert_eq!(
        audio.args,
        vec![
            "-y", "-ss", "0.000", "-to", "0.001", "-i", "/in.mov", "-vn", "-c:v", "libx264",
            "-preset", "fast", "-c:a", "aac", "/o.mp4",
        ]
    );
    let best = local_invocation("/in.mov", 0, 1, QualityTier::Best, ContainerFormat::Mov, "/o.mov");
    assert_eq!(best.args[7], "-c:v");
}

#[test]
fn reencode_arguments_per_platform() {
    let mac = reencode_invocation("t.mp4", "o.mp4", Platform::MacOs);
    assert_eq!(
        mac.args,
        vec!["-y", "-i", "t.mp4", "-c:v", "h264_videotoolbox", "-b:v", "8M", "-c:a", "aac", "o.mp4"]
    );
    let linux = reencode_invocation("t.mp4", "o.mp4", Platform::Linux);
    assert_eq!(linux.args[4], "libx264");
    assert_eq!(linux.args.len(), 12);
}

#[test]
fn containers() {
    assert_eq!(ContainerFormat::Webm.extension(), "webm");
    assert_eq!(ContainerFormat::from_extension("mov"), Some(ContainerFormat::Mov));
    assert_eq!(ContainerFormat::from_extension("MP4"), None);
}

#[test]
fn two_phase_job_reports_half_then_full() {
    let mut c = Controller::new(Platform::Linux);
    let first = c.start(&request("https://v/x", QualityTier::Uhd4K), false, "/o/clip.mp4").unwrap();
    assert_eq!(c.route, Route::TwoPhase);
    assert_eq!(first.tool, Tool::Downloader);
    assert_eq!(first.args[10], "/o/clip.temp.mp4");
    assert!(c.spawned(100));
    let p = c.decode_line("PROGRESS|100.0%|1MiB/s|00:00|3MiB").unwrap();
    assert_eq!(p.percent_hundredths, 4999);
    assert_eq!(p.job_id, "job-7");
    assert!(c.decode_line("frame=1 time=00:00:01.00").is_none());
    let next = match c.exited(true, "") {
        Step::Continue { percent, next } => {
            assert_eq!(percent, HALF);
            next
        }
        other => panic!("unexpected {:?}", other),
    };
    assert_eq!(c.state, PipelineState::Phase1Done);
    assert_eq!(c.active_pid, None);
    assert_eq!(next.tool, Tool::Encoder);
    assert_eq!(next.args[2], "/o/clip.temp.mp4");
    assert_eq!(next.args.last().unwrap(), "/o/clip.mp4");
    assert!(c.spawned(101));
    assert_eq!(c.state, PipelineState::Phase2Running);
    let q = c.decode_line("frame=9 time=00:01:05.00 bitrate=9kbits/s").unwrap();
    assert_eq!(q.percent_hundredths, 7500);
    assert!(c.decode_line("PROGRESS|10%|a|b|c").is_none());
    match c.exited(true, "") {
        Step::Finished { percent, path, remove } => {
            assert_eq!(percent, FULL);
            assert_eq!(path, "/o/clip.mp4");
            assert_eq!(remove, Some("/o/clip.temp.mp4".to_string()));
        }
        other => panic!("unexpected {:?}", other),
    }
    assert_eq!(c.state, PipelineState::Succeeded);
    assert_eq!(c.output_path, None);
}

#[test]
fn single_phase_remote_job() {
    let mut c = Controller::new(Platform::Windows);
    let first = c.start(&request("https://v/x", QualityTier::P1080), false, "/o/c.mp4").unwrap();
    assert_eq!(c.route, Route::Direct);
    assert_eq!(first.args[10], "/o/c.mp4");
    assert!(c.spawned(5));
    let p = c.decode_line("PROGRESS|45.0%| 1.2MiB/s|00:10|10MiB").unwrap();
    assert_eq!(p.percent_hundredths, 4500);
    match c.exited(true, "") {
        Step::Finished { percent, path, remove } => {
            assert_eq!(percent, FULL);
            assert_eq!(path, "/o/c.mp4");
            assert_eq!(remove, None);
        }
        other => panic!("unexpected {:?}", other),
    }
}

#[test]
fn local_job_uses_encoder_progress() {
    let mut c = Controller::new(Platform::MacOs);
    let first = c.start(&request("/videos/in.mov", QualityTier::P720), true, "/o/c.mp4").unwrap();
    assert_eq!(c.route, Route::Local);
    assert_eq!(first.tool, Tool::Encoder);
    assert!(c.spawned(9));
    let p = c.decode_line("frame=10 time=00:01:05.00 bitrate=512kbits/s").unwrap();
    assert_eq!(p.percent_hundredths, 5000);
    match c.exited(false, "bad input") {
        Step::Failed { error, remove } => {
            assert_eq!(error, PipelineError::ExecutionFailure(Stage::Encode, "bad input".to_string()));
            assert_eq!(remove, None);
        }
        other => panic!("unexpected {:?}", other),
    }
    assert_eq!(c.state, PipelineState::Failed);
}

#[test]
fn second_job_while_active_is_refused() {
    let mut c = Controller::new(Platform::Linux);
    c.start(&request("https://v/x", QualityTier::P720), false, "/o/a.mp4").unwrap();
    let again = c.start(&request("https://v/y", QualityTier::P720), false, "/o/b.mp4");
    assert_eq!(again.unwrap_err(), PipelineError::StateConflict);
    assert_eq!(c.output_path, Some("/o/a.mp4".to_string()));
}

#[test]
fn cancelling_an_active_reencode_job() {
    let mut c = Controller::new(Platform::Linux);
    c.start(&request("https://v/x", QualityTier::Best), false, "clip.mp4").unwrap();
    assert!(c.spawned(42));
    let cancel = c.cancel();
    assert_eq!(cancel.kill, Some(42));
    assert_eq!(cancel.remove, vec!["clip.mp4", "clip.mp4.part", "clip.temp.mp4", "clip.temp.mp4.part"]);
    assert_eq!(c.state, PipelineState::Cancelled);
    assert_eq!(c.active_pid, Some(42));
    assert_eq!(c.output_path, Some("clip.mp4".to_string()));
    let during = c.start(&request("https://v/y", QualityTier::P720), false, "other.mp4");
    assert_eq!(during.unwrap_err(), PipelineError::StateConflict);
    c.cleanup_done();
    assert_eq!(c.state, PipelineState::Cancelled);
    assert_eq!(c.active_pid, None);
    assert_eq!(c.output_path, None);
    let again = c.cancel();
    assert_eq!(again.kill, None);
    assert!(again.remove.is_empty());
    match c.exited(false, "killed") {
        Step::Failed { error, .. } => assert_eq!(error, PipelineError::Cancelled),
        other => panic!("unexpected {:?}", other),
    }
    assert!(!c.spawned(43));
}

#[test]
fn failing_fetch_and_failing_spawn() {
    let mut c = Controller::new(Platform::Linux);
    c.start(&request("https://v/x", QualityTier::P480), false, "/o/a.mp4").unwrap();
    match c.spawn_failed() {
        Step::Failed { error, remove } => {
            assert_eq!(error, PipelineError::SpawnFailure(Stage::Fetch));
            assert_eq!(remove, None);
        }
        other => panic!("unexpected {:?}", other),
    }
    c.start(&request("https://v/x", QualityTier::P1440), false, "/o/a.mp4").unwrap();
    assert!(c.spawned(1));
    assert!(matches!(c.exited(true, ""), Step::Continue { .. }));
    match c.spawn_failed() {
        Step::Failed { error, remove } => {
            assert_eq!(error, PipelineError::SpawnFailure(Stage::Encode));
            assert_eq!(remove, Some("/o/a.temp.mp4".to_string()));
        }
        other => panic!("unexpected {:?}", other),
    }
    c.start(&request("https://v/x", QualityTier::P480), false, "/o/a.mp4").unwrap();
    assert!(c.spawned(2));
    match c.exited(false, "HTTP 403") {
        Step::Failed { error, .. } => {
            assert_eq!(error, PipelineError::ExecutionFailure(Stage::Fetch, "HTTP 403".to_string()))
        }
        other => panic!("unexpected {:?}", other),
    }
}

#[test]
fn cleanup_done_outside_cancellation_changes_nothing() {
    let mut c = Controller::new(Platform::Linux);
    c.start(&request("https://v/x", QualityTier::P720), false, "/o/a.mp4").unwrap();
    c.cleanup_done();
    assert_eq!(c.state, PipelineState::Phase1Running);
    assert_eq!(c.output_path, Some("/o/a.mp4".to_string()));
    assert!(c.spawned(3));
    assert!(matches!(c.exited(true, ""), Step::Finished { .. }));
    let nothing = c.cancel();
    assert_eq!(nothing.kill, None);
    assert!(nothing.remove.is_empty());
    assert_eq!(c.state, PipelineState::Succeeded);
}

#[test]
fn clip_file_names() {
    assert_eq!(clip_file_name("My: Video/Part?1", 1700000000, ContainerFormat::Mp4), "My_ Video_Part_1_clip_1700000000.mp4");
    assert_eq!(clip_file_name("", 0, ContainerFormat::Webm), "_clip_0.webm");
    assert_eq!(clip_file_name("a|b<c>\\d*\"e", 5, ContainerFormat::Avi), "a_b_c__d__e_clip_5.avi");
}
