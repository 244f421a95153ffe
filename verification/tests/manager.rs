use voicefox::download::engine::DownloadProgress;
use voicefox::download::manager::{
    auto_cache_gate, clamp_concurrent_songs, completion_notice, dedup_key, enqueue_notice,
    estimate_bitrate, failure_notice, guess_extension, trim_finished, DownloadAttempts,
    DownloadManager, DownloadState, DownloadTask, DownloadTaskView, DownloadTrigger, EnqueueCheck,
    Quality, RuntimeSettings, TaskOutcome, FINISHED_TASK_LIMIT, download_step, existing_destination,
    DownloadAction, DownloadEvent, DownloadJob, JobPhase,
};
use voicefox::download::records::DownloadStatus;
use voicefox::download::engine::{DownloadOptions, ProgressSnapshot};
use voicefox::song::SongInfo;

fn task(id: u64, state: DownloadState) -> DownloadTask {
    DownloadTask {
        id,
        name: format!("song {id}"),
        singer: String::new(),
        source: "kw".to_string(),
        quality: Quality::Flac,
        dest: format!("/tmp/{id}.flac"),
        state,
        error: None,
        progress: DownloadProgress::new(),
        started_at_ms: 0,
        finished_at_ms: None,
        bytes: 0,
        expected_size: None,
        duration_secs: 0,
        trigger: DownloadTrigger::Manual,
    }
}

fn settings(quality: Option<Quality>, play_quality: Quality) -> RuntimeSettings {
    RuntimeSettings {
        dir: "/music".to_string(),
        quality,
        filename_template: "{singer} - {name}".to_string(),
        skip_existing: true,
        write_tags: true,
        embed_cover: true,
        save_lyric: true,
        auto_cache_on_play: false,
        auto_cache_after_secs: 30,
        auto_toggle: true,
        concurrent_songs: 2,
        play_quality,
        proxy_url: String::new(),
        timeout_secs: 30,
        options: DownloadOptions::default(),
    }
}

#[test]
fn quality_prefers_configured_value() {
    let s = settings(Some(Quality::Flac), Quality::High320);
    assert_eq!(s.quality(), Quality::Flac);
    let s = settings(None, Quality::High320);
    assert_eq!(s.quality(), Quality::High320);
}

#[test]
fn guess_extension_follows_quality() {
    assert_eq!(guess_extension(Quality::Flac24), "flac");
    assert_eq!(guess_extension(Quality::Low128), "mp3");
}

#[test]
fn finished_tasks_are_trimmed() {
    let mut tasks: Vec<DownloadTask> = (0..FINISHED_TASK_LIMIT as u64 + 5)
        .map(|id| task(id, DownloadState::Done))
        .collect();
    tasks.push(task(9999, DownloadState::Downloading));

    trim_finished(&mut tasks);

    assert_eq!(tasks.len(), FINISHED_TASK_LIMIT + 1);
    assert!(tasks.iter().any(|task| task.id == 9999));
    // The oldest finished tasks are the ones that went.
    assert_eq!(tasks[0].id, 5);
}

#[test]
fn task_view_name_includes_singer() {
    let view = DownloadTaskView {
        id: 1,
        name: "晴天".to_string(),
        singer: "周杰伦".to_string(),
        source: "kw".to_string(),
        quality: Quality::Flac,
        dest: "/tmp/a.flac".to_string(),
        state: DownloadState::Done,
        error: None,
        progress: ProgressSnapshot { downloaded: 10, total: 20, cancelled: false },
        elapsed_ms: 1000,
        bytes: 20,
        expected_size: Some(20),
        bitrate_kbps: None,
        trigger: DownloadTrigger::Manual,
    };
    assert_eq!(view.display_name(), "晴天 - 周杰伦");
    let mut blank = view.clone();
    blank.singer = "  ".to_string();
    assert_eq!(blank.display_name(), "晴天");
}

#[test]
fn bitrate_estimate_uses_size_and_duration() {
    assert_eq!(estimate_bitrate(4 * 1024 * 1024, 100), Some(335));
    assert_eq!(estimate_bitrate(4 * 1024 * 1024, 0), None);
    assert_eq!(estimate_bitrate(0, 100), None);
    assert_eq!(estimate_bitrate(1, 3600), None);
}

fn song() -> SongInfo {
    SongInfo::new("42".to_string(), "kw".to_string(), "晴天".to_string(), "周杰伦".to_string())
}

#[test]
fn repeated_requests_for_one_song_are_merged() {
    let mut m = DownloadManager::new();
    assert_eq!(m.begin_enqueue(&song()), EnqueueCheck::Ready);
    assert_eq!(m.begin_enqueue(&song()), EnqueueCheck::AlreadyQueued);
    let id = m.add_task("晴天".into(), "周杰伦".into(), "kw".into(), Quality::Flac, "/m/a.flac".into(), 240, DownloadTrigger::Manual, 0);
    assert_eq!(id, 1);
    assert_eq!(m.active_count(), 1);
    let status = m.complete(id, &dedup_key("kw", "42"), TaskOutcome::Done { dest: "/m/b.flac".into(), bytes: 7 }, 10);
    assert_eq!(status, Some(DownloadStatus::Done));
    assert_eq!(m.active_count(), 0);
    assert_eq!(m.tasks()[0].dest, "/m/b.flac");
    assert_eq!(m.begin_enqueue(&song()), EnqueueCheck::Ready);
}

#[test]
fn local_files_are_never_downloaded() {
    let mut m = DownloadManager::new();
    let mut local = SongInfo::new("1".into(), "local".into(), "本地歌曲".into(), "歌手".into());
    local.file_path = Some("/tmp/local.flac".into());
    assert_eq!(m.begin_enqueue(&local), EnqueueCheck::LocalFile);
    assert_eq!(
        enqueue_notice(EnqueueCheck::LocalFile, DownloadTrigger::Manual, "本地歌曲").as_deref(),
        Some("本地文件无需下载")
    );
    assert_eq!(enqueue_notice(EnqueueCheck::LocalFile, DownloadTrigger::AutoCache, "x"), None);
}

#[test]
fn cancelled_tasks_stay_cancelled_when_their_result_arrives() {
    let mut m = DownloadManager::new();
    let id = m.add_task("a".into(), "b".into(), "kw".into(), Quality::Flac, "/m/a.flac".into(), 0, DownloadTrigger::Manual, 5);
    m.cancel(id, 7);
    assert_eq!(m.tasks()[0].state, DownloadState::Cancelled);
    assert!(m.tasks()[0].progress.is_cancelled());
    assert_eq!(m.tasks()[0].finished_at_ms, Some(7));
    m.finish(id, DownloadState::Done, None, 100, Some("/m/z.flac".into()), 9);
    assert_eq!(m.tasks()[0].state, DownloadState::Cancelled);
    assert_eq!(m.tasks()[0].dest, "/m/a.flac");
    // Cancelling a finished task takes it off the list.
    m.cancel(id, 11);
    assert!(m.tasks().is_empty());
}

#[test]
fn clearing_keeps_only_running_tasks() {
    let mut m = DownloadManager::new();
    let a = m.add_task("a".into(), "".into(), "kw".into(), Quality::Flac, "/a".into(), 0, DownloadTrigger::Manual, 0);
    let b = m.add_task("b".into(), "".into(), "kw".into(), Quality::Flac, "/b".into(), 0, DownloadTrigger::Manual, 0);
    m.update_state(b, DownloadState::Downloading, None);
    m.finish(a, DownloadState::Failed, Some("网络错误".into()), 0, None, 3);
    m.clear_finished();
    assert_eq!(m.tasks().len(), 1);
    assert_eq!(m.tasks()[0].id, b);
    m.set_expected_size(b, Some(0));
    assert_eq!(m.tasks()[0].expected_size, None);
    m.set_expected_size(b, Some(4 * 1024 * 1024));
    let view = m.snapshot(2000);
    assert_eq!(view[0].expected_size, Some(4 * 1024 * 1024));
    assert_eq!(view[0].elapsed_ms, 2000);
    assert_eq!(m.task_progress(999).unwrap_err(), "下载任务已被移除");
}

#[test]
fn auto_cache_respects_threshold_and_marks_once() {
    assert!(!auto_cache_gate(true, 5_000, 10, "kw"));
    assert!(auto_cache_gate(true, 12_000, 10, "kw"));
    assert!(!auto_cache_gate(false, 600_000, 10, "kw"));
    assert!(!auto_cache_gate(true, 600_000, 10, "local"));
    let mut m = DownloadManager::new();
    assert!(m.mark_auto_cached("周杰伦 - 晴天"));
    assert!(!m.mark_auto_cached("周杰伦 - 晴天"));
    m.unmark_auto_cached("周杰伦 - 晴天");
    assert!(m.mark_auto_cached("周杰伦 - 晴天"));
}

#[test]
fn notices_name_the_song_and_the_file() {
    assert_eq!(completion_notice(DownloadTrigger::Manual, "/m/a.flac"), "下载完成 → /m/a.flac");
    assert_eq!(completion_notice(DownloadTrigger::AutoCache, "/m/a.flac"), "已缓存到本地 → /m/a.flac");
    assert_eq!(failure_notice("晴天", "超时"), "下载失败 晴天: 超时");
    assert_eq!(
        enqueue_notice(EnqueueCheck::Ready, DownloadTrigger::Manual, "晴天").as_deref(),
        Some("开始下载: 晴天")
    );
    assert_eq!(dedup_key("kw", "42"), "kw:42");
}

#[test]
fn attempts_move_through_the_script_sources() {
    let mut a = DownloadAttempts::new();
    a.resolve_failed();
    assert_eq!(a.js_start_index, 1);
    a.resolved(Some(3));
    assert_eq!(a.js_start_index, 4);
    a.rejected("下载地址返回的不是音频文件".to_string());
    assert!(a.skip_builtin_fallback);
    a.download_failed("网络错误".to_string());
    assert_eq!(a.js_start_index, 5);
    assert_eq!(a.final_error(), "网络错误");
    assert_eq!(DownloadAttempts::new().final_error(), "下载失败");
    assert_eq!(clamp_concurrent_songs(0), 1);
    assert_eq!(clamp_concurrent_songs(20), 8);
}

#[test]
fn auto_cache_queues_each_song_once() {
    let mut m = DownloadManager::new();
    assert!(!m.auto_cache_step(false, "kw", "周杰伦 - 晴天", 600_000, 10, false));
    assert!(!m.auto_cache_step(true, "kw", "周杰伦 - 晴天", 5_000, 10, false));
    assert!(!m.auto_cache_step(true, "kw", "周杰伦 - 晴天", 12_000, 10, true));
    assert!(!m.auto_cache_step(true, "local", "周杰伦 - 晴天", 12_000, 10, false));
    assert!(m.auto_cache_step(true, "kw", "周杰伦 - 晴天", 12_000, 10, false));
    assert!(!m.auto_cache_step(true, "kw", "周杰伦 - 晴天", 13_000, 10, false));
    m.unmark_auto_cached("周杰伦 - 晴天");
    assert!(m.auto_cache_step(true, "kw", "周杰伦 - 晴天", 14_000, 10, false));
}

#[test]
fn existing_files_are_found_by_index_then_by_name() {
    let a = Some("a.flac".to_string());
    let b = Some("b.flac".to_string());
    assert_eq!(existing_destination(true, a.clone(), b.clone()), a);
    assert_eq!(existing_destination(true, None, b.clone()), b);
    assert_eq!(existing_destination(true, None, None), None);
    assert_eq!(existing_destination(false, a, b), None);
}

fn begin(job: &mut DownloadJob, indexed: Option<&str>) -> DownloadAction {
    download_step(job, DownloadEvent::Begin { skip_existing: true, indexed: indexed.map(|s| s.to_string()), by_name: None })
}

#[test]
fn a_downloaded_song_is_skipped() {
    let mut job = DownloadJob::new();
    assert_eq!(begin(&mut job, Some("/m/a.flac")), DownloadAction::Skip { dest: "/m/a.flac".to_string() });
    assert_eq!(job.phase, JobPhase::Over);
    assert_eq!(download_step(&mut job, DownloadEvent::ResolveFailed), DownloadAction::Wait);
}

#[test]
fn a_download_resolves_transfers_and_finishes() {
    let mut job = DownloadJob::new();
    assert_eq!(begin(&mut job, None), DownloadAction::Resolve { js_start: 0, skip_builtin: false });
    let a = download_step(&mut job, DownloadEvent::Resolved { js_index: Some(1), url: "http://x/a.mp3".to_string() });
    assert_eq!(a, DownloadAction::Transfer { url: "http://x/a.mp3".to_string() });
    let a = download_step(&mut job, DownloadEvent::Transferred { dest: "/m/a.mp3".to_string(), bytes: 42 });
    assert_eq!(a, DownloadAction::Finish { dest: "/m/a.mp3".to_string(), bytes: 42 });
}

#[test]
fn non_audio_stops_the_builtin_fallback_and_three_tries_fail() {
    let mut job = DownloadJob::new();
    let _ = begin(&mut job, None);
    let _ = download_step(&mut job, DownloadEvent::Resolved { js_index: Some(0), url: "u".to_string() });
    let a = download_step(&mut job, DownloadEvent::Rejected { reason: "下载内容不是音频文件".to_string() });
    assert_eq!(a, DownloadAction::Resolve { js_start: 1, skip_builtin: true });
    let a = download_step(&mut job, DownloadEvent::ResolveFailed);
    assert_eq!(a, DownloadAction::Resolve { js_start: 2, skip_builtin: true });
    let _ = download_step(&mut job, DownloadEvent::Resolved { js_index: None, url: "u".to_string() });
    let a = download_step(&mut job, DownloadEvent::TransferFailed { error: "连接中断".to_string() });
    assert_eq!(a, DownloadAction::Fail { error: "连接中断".to_string() });
    assert_eq!(job.phase, JobPhase::Over);
}

#[test]
fn a_cancelled_transfer_stops_the_job() {
    let mut job = DownloadJob::new();
    let _ = begin(&mut job, None);
    let _ = download_step(&mut job, DownloadEvent::Resolved { js_index: None, url: "u".to_string() });
    assert_eq!(download_step(&mut job, DownloadEvent::Cancelled), DownloadAction::Stop);
}
