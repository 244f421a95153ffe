use voicefox::app_loop::{
    app_step, apply_action, enqueue_outcome, should_expand_bili_parts, AppAction, AppEffect, AppEvent, AppState, EnqueueOutcome,
    GlobalAction, HealthResult, ImportReport, InsertPosition, Overlay, PartsFailure, SearchState,
};
use voicefox::config_migration::SourceCode;
use voicefox::player_settings::fade_out_due;
use voicefox::download::manager::KeySet;
use voicefox::navigation::{NavTab, PlayStep};
use voicefox::notify::NotificationLevel;
use voicefox::pages::frame::{frame_layout, FrameLayout};
use voicefox::pages::geometry::Rect;
use voicefox::pages::input::{KeyCode, KeyEvent, KeyModifiers};
use voicefox::pages::local_music::LocalDiagnosticsKind;
use voicefox::pages::status_bar::PlayerState;

fn state() -> AppState {
    AppState {
        tab: NavTab::Main,
        qr_login_open: false,
        delete_pending: false,
        diagnostics: None,
        song_menu_open: false,
        help_open: false,
        downloads_open: false,
        details_open: false,
        play_request: 0,
        search: SearchState { searching: false, keyword: String::new(), source: String::new(), page: 0 },
        favorites: KeySet::new(),
        quit: false,
        js_sources: vec!["https://a.example/s.js".to_string(), "https://b.example/t.js".to_string()],
        js_generation: 0,
        health_checking: false,
        scan_generation: 0,
    }
}

fn key(c: KeyCode, text_input: bool, tab_key: Option<NavTab>, global: Option<GlobalAction>) -> AppEvent {
    AppEvent::Key {
        key: KeyEvent::new(c, KeyModifiers::none()),
        text_input,
        page_owns_key: false,
        tab_key,
        global,
        player: PlayerState::Paused,
    }
}

#[test]
fn keys_go_to_the_first_open_layer() {
    let mut s = state();
    s.song_menu_open = true;
    s.help_open = true;
    assert_eq!(app_step(&mut s, key(KeyCode::Char('q'), false, None, Some(GlobalAction::Quit))), vec![AppEffect::RouteToOverlay(Overlay::SongMenu)]);
    assert!(!s.quit);
    s.song_menu_open = false;
    assert_eq!(app_step(&mut s, key(KeyCode::Char('2'), false, Some(NavTab::Search), None)), vec![AppEffect::RouteToOverlay(Overlay::Help)]);
    assert_eq!(s.tab, NavTab::Main);
}

#[test]
fn help_opens_unless_text_is_typed() {
    let mut s = state();
    assert_eq!(app_step(&mut s, key(KeyCode::Char('?'), true, None, None)), vec![AppEffect::RouteToPage]);
    assert_eq!(app_step(&mut s, key(KeyCode::Char('?'), false, None, None)), vec![AppEffect::BuildHelp]);
    assert!(s.help_open);
}

#[test]
fn tab_keys_then_global_keys_then_the_page() {
    let mut s = state();
    assert!(app_step(&mut s, key(KeyCode::Char('2'), false, Some(NavTab::Search), None)).is_empty());
    assert_eq!(s.tab, NavTab::Search);
    assert_eq!(app_step(&mut s, key(KeyCode::Char(' '), false, None, Some(GlobalAction::PlayPause))), vec![AppEffect::Play(PlayStep::Resume)]);
    assert_eq!(app_step(&mut s, key(KeyCode::Char('q'), true, None, Some(GlobalAction::Quit))), vec![AppEffect::RouteToPage]);
    assert_eq!(app_step(&mut s, key(KeyCode::Char('q'), false, None, Some(GlobalAction::Quit))), vec![AppEffect::Quit]);
    assert!(s.quit);
}

#[test]
fn the_delete_dialog_and_diagnostics_take_keys() {
    let mut s = state();
    let _ = apply_action(&mut s, AppAction::AskDelete);
    assert!(app_step(&mut s, key(KeyCode::Char('x'), false, None, None)).is_empty());
    assert!(s.delete_pending);
    assert_eq!(app_step(&mut s, key(KeyCode::Char('y'), false, None, None)), vec![AppEffect::DeleteFile]);
    assert!(!s.delete_pending);
    let _ = apply_action(&mut s, AppAction::ShowDiagnostics(LocalDiagnosticsKind::Corrupt));
    let _ = app_step(&mut s, key(KeyCode::Char('i'), false, None, None));
    assert_eq!(s.diagnostics, Some(LocalDiagnosticsKind::Missing));
    let _ = app_step(&mut s, key(KeyCode::Esc, false, None, None));
    assert_eq!(s.diagnostics, None);
}

#[test]
fn searches_load_further_pages_only_in_order() {
    let mut s = state();
    let fx = apply_action(&mut s, AppAction::Search { keyword: "晴天".to_string(), source: "kw".to_string(), is_link: false });
    assert_eq!(fx, vec![AppEffect::RunSearch { keyword: "晴天".to_string(), page: 1, source: "kw".to_string(), append: false }]);
    assert!(apply_action(&mut s, AppAction::SearchMore { keyword: "晴天".to_string(), page: 2, source: "kw".to_string() }).is_empty());
    let _ = apply_action(&mut s, AppAction::SearchDone { page: 1 });
    assert!(apply_action(&mut s, AppAction::SearchMore { keyword: "晴天".to_string(), page: 3, source: "kw".to_string() }).is_empty());
    assert_eq!(
        apply_action(&mut s, AppAction::SearchMore { keyword: "晴天".to_string(), page: 2, source: "kw".to_string() }),
        vec![AppEffect::RunSearch { keyword: "晴天".to_string(), page: 2, source: "kw".to_string(), append: true }]
    );
    let fx = apply_action(&mut s, AppAction::Search { keyword: "https://y.qq.com/x".to_string(), source: "tx".to_string(), is_link: true });
    assert_eq!(fx, vec![AppEffect::ParseLink { keyword: "https://y.qq.com/x".to_string() }]);
}

#[test]
fn favorites_toggle() {
    let mut s = state();
    assert_eq!(
        apply_action(&mut s, AppAction::ToggleFavorite { key: "周杰伦 - 晴天".to_string() }),
        vec![AppEffect::Notify { level: NotificationLevel::Success, text: "已添加收藏".to_string() }]
    );
    assert_eq!(
        apply_action(&mut s, AppAction::ToggleFavorite { key: "周杰伦 - 晴天".to_string() }),
        vec![AppEffect::Notify { level: NotificationLevel::Success, text: "已取消收藏".to_string() }]
    );
}

#[test]
fn a_failed_song_is_skipped_and_stale_failures_ignored() {
    let mut s = state();
    assert_eq!(apply_action(&mut s, AppAction::PlaySong { index: 0 }), vec![AppEffect::StartSong { index: 0, request_id: 1, after_failure: false }]);
    let stale = AppAction::PlaybackFailed { request_id: 0, error: "x".to_string(), next: Some(1), failed: None };
    assert!(apply_action(&mut s, stale).is_empty());
    let fx = apply_action(&mut s, AppAction::PlaybackFailed { request_id: 1, error: "获取播放地址失败".to_string(), next: Some(1), failed: Some("晴天 - 周杰伦".to_string()) });
    assert_eq!(
        fx,
        vec![
            AppEffect::StopPlayer,
            AppEffect::Notify { level: NotificationLevel::Warn, text: "获取播放地址失败；已跳过 晴天 - 周杰伦".to_string() },
            AppEffect::StartSong { index: 1, request_id: 2, after_failure: true },
        ]
    );
    let fx = apply_action(&mut s, AppAction::PlaybackFailed { request_id: 2, error: "e".to_string(), next: None, failed: None });
    assert_eq!(fx, vec![AppEffect::StopPlayer, AppEffect::Notify { level: NotificationLevel::Error, text: "e；队列中没有更多可播放歌曲".to_string() }]);
}

#[test]
fn history_clearing_is_reported() {
    let mut s = state();
    assert_eq!(apply_action(&mut s, AppAction::ClearHistory), vec![AppEffect::ClearHistoryStore]);
    assert_eq!(
        apply_action(&mut s, AppAction::HistoryCleared { removed: false }),
        vec![AppEffect::Notify { level: NotificationLevel::Info, text: "播放历史已经是空的".to_string() }]
    );
}

#[test]
fn the_frame_splits_the_screen() {
    let l: FrameLayout = frame_layout(120, 40, 18).unwrap();
    assert_eq!(l.sidebar, Rect::new(0, 0, 18, 40));
    assert_eq!(l.header, Rect::new(18, 0, 102, 2));
    assert_eq!(l.content, Rect::new(18, 2, 102, 33));
    assert_eq!(l.player, Rect::new(18, 35, 102, 5));
    assert_eq!(l.progress_row, Rect::new(18, 37, 102, 1));
    assert_eq!(l.meta_row, Rect::new(18, 39, 102, 1));
    assert!(frame_layout(47, 40, 18).is_none());
    assert!(frame_layout(120, 9, 18).is_none());
}

#[test]
fn help_opens_over_the_diagnostics_list() {
    let mut s = state();
    let _ = apply_action(&mut s, AppAction::ShowDiagnostics(LocalDiagnosticsKind::Corrupt));
    assert_eq!(app_step(&mut s, key(KeyCode::Char('?'), false, None, None)), vec![AppEffect::BuildHelp]);
    assert!(s.help_open);
    assert_eq!(s.diagnostics, Some(LocalDiagnosticsKind::Corrupt));
}

#[test]
fn queue_insertions_start_an_empty_queue_or_report_the_place() {
    assert_eq!(enqueue_outcome(true, true, InsertPosition::End, 0), EnqueueOutcome::StartPlaying);
    assert_eq!(enqueue_outcome(false, true, InsertPosition::Next, 0), EnqueueOutcome::Queued);
    assert_eq!(enqueue_outcome(false, true, InsertPosition::Next, 3), EnqueueOutcome::PlaysNext);
    assert_eq!(enqueue_outcome(false, true, InsertPosition::End, 3), EnqueueOutcome::Queued);
    let mut s = state();
    let fx = apply_action(
        &mut s,
        AppAction::AddToQueue {
            was_empty: true,
            position: InsertPosition::Next,
            inserted: 0,
            name: "晴天".to_string(),
            singer: "周杰伦".to_string(),
            current: Some((0, "晴天".to_string(), "周杰伦".to_string())),
        },
    );
    assert_eq!(
        fx,
        vec![
            AppEffect::StartQueueEntry { index: 0, request_id: 1, after_failure: false },
            AppEffect::Notify { level: NotificationLevel::Success, text: "开始播放: 晴天 - 周杰伦".to_string() },
        ]
    );
    let fx = apply_action(
        &mut s,
        AppAction::AddToQueue {
            was_empty: false,
            position: InsertPosition::Next,
            inserted: 2,
            name: "七里香".to_string(),
            singer: "周杰伦".to_string(),
            current: Some((0, "晴天".to_string(), "周杰伦".to_string())),
        },
    );
    assert_eq!(fx, vec![AppEffect::Notify { level: NotificationLevel::Success, text: "下一首播放: 七里香 - 周杰伦".to_string() }]);
}

#[test]
fn restoring_a_session_plays_or_only_shows_the_song() {
    let mut s = state();
    let fx = apply_action(&mut s, AppAction::RestorePlayback { index: 1, count: 3, position_ms: 5_000, start: true, paused: true });
    assert_eq!(
        fx,
        vec![
            AppEffect::SetQueue { index: 1 },
            AppEffect::ResetSourceAttempts,
            AppEffect::RestoreSong { index: 1, request_id: 1, position_ms: 5_000, paused: true },
        ]
    );
    let fx = apply_action(&mut s, AppAction::RestorePlayback { index: 1, count: 3, position_ms: 0, start: false, paused: false });
    assert_eq!(fx, vec![AppEffect::SetQueue { index: 1 }, AppEffect::ResetSourceAttempts, AppEffect::StopPlayer, AppEffect::SetCurrent { index: 1 }]);
    assert!(apply_action(&mut s, AppAction::RestorePlayback { index: 3, count: 3, position_ms: 0, start: true, paused: false }).is_empty());
}

#[test]
fn imported_sources_move_to_the_front_and_stale_answers_are_dropped() {
    let mut s = state();
    let fx = apply_action(&mut s, AppAction::ImportSource { url: "https://b.example/t.js".to_string() });
    assert_eq!(fx, vec![AppEffect::ImportJs { url: "https://b.example/t.js".to_string(), generation: 1 }]);
    assert!(apply_action(&mut s, AppAction::SourceImported { url: "https://b.example/t.js".to_string(), generation: 0 }).is_empty());
    let fx = apply_action(&mut s, AppAction::SourceImported { url: "https://b.example/t.js".to_string(), generation: 1 });
    assert_eq!(fx[2], AppEffect::SaveConfig);
    assert_eq!(s.js_sources, vec!["https://b.example/t.js".to_string(), "https://a.example/s.js".to_string()]);
    let fx = apply_action(&mut s, AppAction::JsConfigSaved { error: None });
    assert_eq!(fx[0], AppEffect::LoadJsSources { generation: 2 });
    let fx = apply_action(&mut s, AppAction::SourceImportFailed { error: "x".to_string(), generation: 2 });
    assert_eq!(fx[1], AppEffect::Notify { level: NotificationLevel::Error, text: "JS 音源导入失败: x".to_string() });
    let fx = apply_action(&mut s, AppAction::RemoveSource { url: "https://a.example/s.js".to_string() });
    assert_eq!(fx.len(), 3);
    assert_eq!(s.js_sources, vec!["https://b.example/t.js".to_string()]);
}

#[test]
fn health_checks_run_one_at_a_time_and_report() {
    let mut s = state();
    assert_eq!(apply_action(&mut s, AppAction::CheckSourceHealth), vec![AppEffect::RunHealthCheck]);
    assert!(apply_action(&mut s, AppAction::CheckSourceHealth).is_empty());
    let results = vec![
        HealthResult { name: "kw".to_string(), ok: true, detail: String::new() },
        HealthResult { name: "tx".to_string(), ok: false, detail: "超时".to_string() },
        HealthResult { name: "wy".to_string(), ok: false, detail: "403".to_string() },
    ];
    let fx = apply_action(&mut s, AppAction::SourceHealthChecked { results });
    assert_eq!(
        fx,
        vec![
            AppEffect::StoreHealth,
            AppEffect::SettingsStatus { text: "音源检测完成：1/3 可用；失败：tx: 超时；wy: 403".to_string() },
            AppEffect::Notify { level: NotificationLevel::Info, text: "音源检测完成：1/3 可用".to_string() },
        ]
    );
    assert!(!s.health_checking);
}

#[test]
fn scans_report_their_result_unless_superseded() {
    let mut s = state();
    assert_eq!(apply_action(&mut s, AppAction::ScanLocalMusic { force: true }), vec![AppEffect::StartScan { generation: 1, force: true }]);
    let _ = apply_action(&mut s, AppAction::ScanLocalMusic { force: false });
    assert!(apply_action(&mut s, AppAction::ScanDone { generation: 1, errors: vec![], count: 3 }).is_empty());
    let fx = apply_action(&mut s, AppAction::ScanDone { generation: 2, errors: vec![], count: 3 });
    assert_eq!(fx[1], AppEffect::SettingsStatus { text: "本地音乐扫描完成，共 3 首".to_string() });
    let fx = apply_action(&mut s, AppAction::ScanDone { generation: 2, errors: vec!["a".to_string(), "b".to_string()], count: 0 });
    assert_eq!(
        fx,
        vec![
            AppEffect::StartWatcher,
            AppEffect::SettingsStatus { text: "扫描错误: a; b".to_string() },
            AppEffect::Notify { level: NotificationLevel::Error, text: "a".to_string() },
            AppEffect::Notify { level: NotificationLevel::Error, text: "b".to_string() },
        ]
    );
}

#[test]
fn playlists_history_parts_and_details() {
    let mut s = state();
    let fx = apply_action(&mut s, AppAction::PlaylistImported { report: ImportReport::Imported { name: "我的".to_string(), imported: 10, skipped: 2 } });
    assert_eq!(fx, vec![AppEffect::Notify { level: NotificationLevel::Success, text: "已导入歌单 我的：10 首，跳过 2 首".to_string() }]);
    let fx = apply_action(&mut s, AppAction::HistoryRemoved { removed: true, name: "晴天".to_string() });
    assert_eq!(fx, vec![AppEffect::Notify { level: NotificationLevel::Success, text: "已删除历史记录: 晴天".to_string() }]);
    assert!(apply_action(&mut s, AppAction::HistoryRemoved { removed: false, name: "晴天".to_string() }).is_empty());
    let fx = apply_action(&mut s, AppAction::BiliPartsFailed { reason: PartsFailure::Failed("x".to_string()), current: true });
    assert_eq!(fx, vec![AppEffect::Notify { level: NotificationLevel::Warn, text: "分 P 解析失败: x".to_string() }]);
    assert!(apply_action(&mut s, AppAction::BiliPartsFailed { reason: PartsFailure::TimedOut, current: false }).is_empty());
    assert_eq!(apply_action(&mut s, AppAction::ShowArtistDetails { singer: " 周杰伦 ".to_string() }), vec![AppEffect::LoadArtist { name: "周杰伦".to_string() }]);
    assert!(s.details_open);
    assert!(should_expand_bili_parts(SourceCode::Bili, false, false));
    assert!(!should_expand_bili_parts(SourceCode::Bili, true, false));
    assert!(!should_expand_bili_parts(SourceCode::Kw, false, false));
}

#[test]
fn the_fade_out_starts_once_near_the_end() {
    let mut faded = 0u64;
    assert!(!fade_out_due(&mut faded, true, 3_000, 100_000, 200_000, 7));
    assert!(fade_out_due(&mut faded, true, 3_000, 198_000, 200_000, 7));
    assert_eq!(faded, 7);
    assert!(!fade_out_due(&mut faded, true, 3_000, 199_000, 200_000, 7));
    assert!(!fade_out_due(&mut faded, false, 3_000, 198_000, 200_000, 8));
    assert_eq!(faded, 0);
    assert!(!fade_out_due(&mut faded, true, 0, 199_000, 200_000, 8));
    assert!(!fade_out_due(&mut faded, true, 3_000, 200_000, 200_000, 8));
}
