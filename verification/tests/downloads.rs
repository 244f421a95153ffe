use voicefox::download::engine::ProgressSnapshot;
use voicefox::download::records::{DownloadRecord, DownloadStatus};
use voicefox::download::manager::{DownloadState, DownloadTaskView, DownloadTrigger, Quality};
use voicefox::pages::downloads::{
    cancel_notice, download_dir_footer, format_progress_detail, history_rows, human_size,
    history_heading, history_line, relative_time, size_spec, task_progress, task_title, truncate_to_width,
    DownloadsPanel, PanelCommand, PanelLayout, PanelOutcome, HISTORY_LIMIT,
};
use voicefox::pages::geometry::Rect;
use voicefox::pages::input::{KeyCode, KeyEvent, KeyModifiers};

fn task(state: DownloadState, downloaded: u64, total: u64) -> DownloadTaskView {
    DownloadTaskView {
        id: 1,
        name: "晴天".to_string(),
        singer: "周杰伦".to_string(),
        source: "kw".to_string(),
        quality: Quality::Flac,
        dest: "/music/voicefox/周杰伦 - 晴天.flac".to_string(),
        state,
        error: None,
        progress: ProgressSnapshot { downloaded, total, cancelled: false },
        elapsed_ms: 3000,
        bytes: 0,
        expected_size: None,
        bitrate_kbps: None,
        trigger: DownloadTrigger::Manual,
    }
}

/// The percentage text the interface derives from a task's progress.
fn percent(task: &DownloadTaskView) -> Option<String> {
    if task.progress.total == 0 {
        return None;
    }
    let ratio = (task.progress.downloaded as f64 / task.progress.total as f64).clamp(0.0, 1.0);
    Some(format!("{:>3.0}%", ratio * 100.0))
}

fn detail(task: &DownloadTaskView) -> String {
    format_progress_detail(task, percent(task).as_deref())
}

#[test]
fn human_size_switches_units() {
    assert_eq!(human_size(0), "0B");
    assert_eq!(human_size(512), "512B");
    assert_eq!(human_size(1536), "1.5KB");
    assert_eq!(human_size(5 * 1024 * 1024), "5.0MB");
}

#[test]
fn human_size_matches_one_decimal_rounding() {
    for bytes in [1023u64, 1024, 1075, 1126, 1177, 10 * 1024 * 1024 + 52_428, 3 * 1024 * 1024 * 1024, u64::MAX / 1024] {
        let mut value = bytes as f64;
        let mut unit = 0;
        let units = ["B", "KB", "MB", "GB"];
        while value >= 1024.0 && unit + 1 < units.len() {
            value /= 1024.0;
            unit += 1;
        }
        let expected = if unit == 0 { format!("{bytes}{}", units[unit]) } else { format!("{value:.1}{}", units[unit]) };
        assert_eq!(human_size(bytes), expected, "{bytes}");
    }
}

#[test]
fn truncation_keeps_short_values_intact() {
    assert_eq!(truncate_to_width("abc", 10), "abc");
    assert_eq!(truncate_to_width("abcdef", 4), "abc…");
}

#[test]
fn footer_names_the_download_directory() {
    let footer = download_dir_footer("/home/me/Music/voicefox");
    assert_eq!(footer, "下载目录 /home/me/Music/voicefox/");
}

#[test]
fn finished_tasks_show_the_full_saved_path() {
    let detail = detail(&task(DownloadState::Done, 4096, 4096));
    assert!(detail.contains("已保存"), "{detail}");
    assert!(detail.contains("/music/voicefox/周杰伦 - 晴天.flac"), "{detail}");
}

#[test]
fn running_tasks_show_percentage_and_quality() {
    let detail = detail(&task(DownloadState::Downloading, 512, 1024));
    assert!(detail.contains("50%"), "{detail}");
    assert!(detail.contains("FLAC"), "{detail}");
}

#[test]
fn known_size_and_bitrate_replace_the_quality_label() {
    let mut downloading = task(DownloadState::Downloading, 5 * 1024 * 1024, 0);
    downloading.progress.total = 10 * 1024 * 1024;
    downloading.expected_size = Some(9 * 1024 * 1024);
    downloading.bitrate_kbps = Some(320);
    let detail = detail(&downloading);
    assert!(detail.contains("10.0MB"), "{detail}");
    assert!(detail.contains("320kbps"), "{detail}");
    assert!(detail.contains("50%"), "{detail}");
}

#[test]
fn size_spec_falls_back_to_the_engine_total() {
    let mut done = task(DownloadState::Done, 0, 0);
    done.bytes = 2 * 1024 * 1024;
    done.expected_size = None;
    done.progress.total = 2 * 1024 * 1024;
    assert_eq!(size_spec(&done).as_deref(), Some("2.0MB · FLAC"));
    let unknown = task(DownloadState::Queued, 0, 0);
    assert_eq!(size_spec(&unknown), None);
}

#[test]
fn failed_tasks_surface_the_reason() {
    let mut failed = task(DownloadState::Failed, 0, 0);
    failed.error = Some("网络错误: 连接超时".to_string());
    assert_eq!(detail(&failed), "失败");
    assert_eq!(failed.error.as_deref(), Some("网络错误: 连接超时"));
}

#[test]
fn history_rows_account_for_the_title_only_when_present() {
    assert_eq!(history_rows(0), 0);
    assert_eq!(history_rows(1), 2);
    assert_eq!(history_rows(HISTORY_LIMIT), HISTORY_LIMIT + 1);
}

#[test]
fn relative_time_buckets_by_age() {
    let now = std::time::SystemTime::now()
        .duration_since(std::time::UNIX_EPOCH)
        .unwrap()
        .as_secs() as i64;
    assert_eq!(relative_time(now, now), "刚刚");
    assert_eq!(relative_time(now - 120, now), "2 分钟前");
    assert_eq!(relative_time(now - 7_200, now), "2 小时前");
    assert_eq!(relative_time(now - 172_800, now), "2 天前");
    assert_eq!(relative_time(now + 600, now), "刚刚");
    assert_eq!(relative_time(i64::MIN, i64::MAX), format!("{} 天前", i64::MAX / 86_400));
}

fn key(code: KeyCode) -> KeyEvent {
    KeyEvent::new(code, KeyModifiers::none())
}

#[test]
fn panel_keys_move_the_selection_and_name_commands() {
    let tasks = vec![task(DownloadState::Done, 0, 0), task(DownloadState::Downloading, 0, 0), task(DownloadState::Queued, 0, 0)];
    let mut panel = DownloadsPanel::new();
    assert!(!panel.is_open());
    panel.toggle(tasks.len());
    assert!(panel.is_open());
    assert_eq!(panel.selected(), 2);
    let r = panel.handle_key(&key(KeyCode::Char('j')), &tasks);
    assert_eq!(r.outcome, PanelOutcome::Consumed);
    assert_eq!(panel.selected(), 2);
    panel.handle_key(&key(KeyCode::Char('k')), &tasks);
    assert_eq!(panel.selected(), 1);
    let r = panel.handle_key(&key(KeyCode::Char('c')), &tasks);
    assert_eq!(r.command, PanelCommand::Cancel { id: 1, active: true, name: "晴天".to_string() });
    assert_eq!(panel.selected(), 1);
    let r = panel.handle_key(&key(KeyCode::Char('x')), &tasks);
    assert_eq!(r.command, PanelCommand::ClearFinished);
    assert_eq!(panel.selected(), 0);
    let r = panel.handle_key(&KeyEvent::new(KeyCode::Char('C'), KeyModifiers::shift()), &tasks);
    assert_eq!(r.command, PanelCommand::ClearRecords);
    assert_eq!(panel.handle_key(&key(KeyCode::Esc), &tasks).outcome, PanelOutcome::Close);
    assert_eq!(panel.handle_key(&key(KeyCode::Char('z')), &tasks).outcome, PanelOutcome::Ignore);
    panel.handle_key(&key(KeyCode::End), &tasks);
    assert_eq!(panel.selected(), 2);
    panel.handle_key(&key(KeyCode::PageUp), &tasks);
    assert_eq!(panel.selected(), 0);
    panel.clamp_scroll(3, 1);
    assert_eq!(panel.scroll(), 0);
    assert_eq!(cancel_notice(true, "晴天"), "已取消下载: 晴天");
    assert_eq!(cancel_notice(false, "晴天"), "已移除下载记录: 晴天");
}

#[test]
fn history_rows_read_marker_singer_title_outcome_and_age() {
    let record = DownloadRecord {
        name: "晴天".to_string(),
        singer: "周杰伦".to_string(),
        source: "kw".to_string(),
        status: DownloadStatus::Done,
        error: None,
        rel_path: Some("周杰伦 - 晴天.flac".to_string()),
        finished_at: 100,
    };
    assert_eq!(history_line(&record, 200, 80), "  ✓ 周杰伦 · 晴天 · 成功 · 1 分钟前");
    assert_eq!(history_heading(80), "历史（C 清空，清空后可重新下载）");
}

#[test]
fn task_titles_leave_room_for_the_origin() {
    let t = task(DownloadState::Downloading, 50, 100);
    let (marker, state, name) = task_title(&t, true, 40);
    assert_eq!((marker.as_str(), state.as_str(), name.as_str()), ("▶ ", "下载中 [kw] ", "晴天 - 周杰伦"));
    let mut cached = task(DownloadState::Downloading, 50, 100);
    cached.trigger = DownloadTrigger::AutoCache;
    let (_, state, name) = task_title(&cached, false, 30);
    assert_eq!(state, "下载中 [kw] ");
    assert_eq!(name, "晴…");
}

#[test]
fn task_progress_rows_show_the_bar_or_the_failure() {
    let t = task(DownloadState::Downloading, 50, 100);
    assert_eq!(task_progress(&t, Some(6), Some(" 50%"), 80), "    ██████░░░░░░ 100B · FLAC ·  50% · 3s");
    assert_eq!(task_progress(&t, None, None, 80).chars().filter(|c| *c == '░').count(), 12);
    let mut failed = task(DownloadState::Failed, 0, 0);
    failed.error = Some("boom".to_string());
    assert_eq!(task_progress(&failed, None, None, 80), "   失败: boom");
}

#[test]
fn the_open_panel_is_laid_out_around_its_tasks_and_history() {
    let mut panel = DownloadsPanel::new();
    let area = Rect::new(0, 0, 100, 40);
    assert!(panel.layout(area, 3, 1, 2, 7).is_none());
    panel.toggle(3);
    let layout: PanelLayout = panel.layout(area, 3, 1, 2, 7).unwrap();
    assert_eq!(layout.panel, Rect::new(2, 13, 96, 14));
    assert_eq!(layout.inner, Rect::new(3, 14, 94, 12));
    assert_eq!(layout.list, Rect::new(3, 14, 94, 8));
    assert_eq!(layout.history, Rect::new(3, 22, 94, 3));
    assert_eq!(layout.footer, Rect::new(3, 25, 94, 1));
    assert_eq!((layout.first_task, layout.task_rows), (0, 4));
    assert_eq!(layout.title, " 下载 · 3 条 · 1 进行中 · 历史 7 条 (Ctrl+o 关闭) ");
    let empty = panel.layout(area, 0, 0, 0, 7).unwrap();
    assert_eq!(empty.title, " 下载 · 历史 7 条 (Ctrl+o 关闭) ");
    assert_eq!(empty.task_rows, 0);
    assert!(panel.layout(Rect::new(0, 0, 19, 40), 3, 1, 2, 7).is_none());
}
