use unicode_width::UnicodeWidthStr;
use qrcode::QrCode;
use voicefox::pages::bili_login::{calculate_bili_login_area, qr_fits, qr_place, LoginContent, qr_half_blocks, render_qr_terminal, BiliLoginAction, BiliLoginPage, BiliLoginState, QrPoll, QrStatus};
use voicefox::pages::geometry::{Position, Rect};
use voicefox::pages::help::{clamp_scroll, help_overlay_area, sort_entries, HelpLine, HelpPage, PageBindings, Section};
use voicefox::pages::history::{
    context_song_at as history_context_song_at, history_empty_message, history_song_at, history_title, history_view, view_songs, HistoryBinding, HistoryCommand, HistoryState};
use voicefox::pages::input::{KeyCode, KeyEvent, KeyModifiers, MouseEvent, MouseEventKind};
use voicefox::pages::leaderboard::{BoardStyle, LeaderboardAction, LeaderboardPage, SongPanel};
use voicefox::pages::player_controls::seek_fraction;
use voicefox::pages::local_music::{
    context_song_at, delete_dialog_area, delete_dialog_lines, diagnostics_area, diagnostics_title, duplicate_group_line,
    local_body, local_title, song_index_at, LocalBody, LocalDiagnosticsKind, LocalSongView,
};
use voicefox::pages::song_table::{cell, format_duration};
use voicefox::song::SongInfo;

fn plain(code: KeyCode) -> KeyEvent {
    KeyEvent::new(code, KeyModifiers::none())
}

fn song(id: &str, name: &str, singer: &str) -> SongInfo {
    SongInfo::new(id.to_string(), "kw".to_string(), name.to_string(), singer.to_string())
}

fn help() -> HelpPage {
    HelpPage::new(vec![Section {
        title: "Global".to_string(),
        entries: vec![("q".to_string(), "Quit".to_string())],
    }])
}

#[test]
fn esc_and_q_close_the_overlay() {
    let mut help = help();
    assert!(!help.handle_input(&plain(KeyCode::Esc)));
    assert!(!help.handle_input(&plain(KeyCode::Char('q'))));
    assert!(help.handle_input(&plain(KeyCode::Char('j'))));
}

#[test]
fn scroll_clamps_to_content() {
    assert_eq!(clamp_scroll(100, 10, 5), 5);
    assert_eq!(clamp_scroll(2, 10, 5), 2);
}

#[test]
fn help_scrolls_by_line_page_and_ends() {
    let mut help = help();
    assert!(help.handle_input(&plain(KeyCode::Down)));
    assert_eq!(help.scroll(), 1);
    assert!(help.handle_input(&plain(KeyCode::PageDown)));
    assert_eq!(help.scroll(), 16);
    assert!(help.handle_input(&KeyEvent::new(KeyCode::Char('u'), KeyModifiers::control())));
    assert_eq!(help.scroll(), 1);
    assert!(help.handle_input(&plain(KeyCode::Char('G'))));
    assert_eq!(help.scroll(), usize::MAX);
    assert!(help.handle_input(&plain(KeyCode::Home)));
    assert_eq!(help.scroll(), 0);
    assert!(help.handle_input(&plain(KeyCode::Up)));
    assert_eq!(help.scroll(), 0);
    // one section of one entry: blank, title, entry, blank, and one more
    assert_eq!(help.line_count(), 5);
}

#[test]
fn help_closes_on_a_click_and_scrolls_with_the_wheel() {
    let mut help = help();
    let wheel = MouseEvent { kind: MouseEventKind::ScrollDown, column: 0, row: 0 };
    assert!(help.handle_mouse(wheel));
    assert_eq!(help.scroll(), 3);
    let click = MouseEvent { kind: MouseEventKind::LeftDown, column: 0, row: 0 };
    assert!(!help.handle_mouse(click));
}

#[test]
fn truncates_cjk_to_terminal_width() {
    let value = cell("一首很长的中文歌曲", 8);
    assert_eq!(UnicodeWidthStr::width(value.as_str()), 8);
    assert!(value.contains('…'));
}

#[test]
fn short_cells_are_padded_to_the_width() {
    let value = cell("abc", 6);
    assert_eq!(value, "abc   ");
}

#[test]
fn durations_read_as_minutes_and_seconds() {
    assert_eq!(format_duration(0), "--:--");
    assert_eq!(format_duration(185), "03:05");
}

#[test]
fn maps_visible_rows_to_scrolled_song_indices() {
    let area = Rect::new(10, 5, 80, 12);

    assert_eq!(song_index_at(area, Position::new(12, 7), 4, 20, false), Some(4));
    assert_eq!(song_index_at(area, Position::new(12, 10), 4, 20, false), Some(7));
}

#[test]
fn ignores_header_border_and_unused_bottom_row() {
    let area = Rect::new(10, 5, 80, 12);

    assert_eq!(song_index_at(area, Position::new(12, 6), 0, 20, false), None);
    assert_eq!(song_index_at(area, Position::new(12, 15), 0, 20, false), None);
    assert_eq!(song_index_at(area, Position::new(9, 7), 0, 20, false), None);
}

#[test]
fn filter_row_shifts_hit_area_down_by_one() {
    let area = Rect::new(10, 5, 80, 12);

    assert_eq!(song_index_at(area, Position::new(12, 7), 0, 20, true), None);
    assert_eq!(song_index_at(area, Position::new(12, 8), 0, 20, true), Some(0));
    assert_eq!(song_index_at(area, Position::new(12, 7), 0, 20, false), Some(0));
}

#[test]
fn local_filter_matches_name_or_singer_ignoring_case() {
    let all = vec![song("1", "Hello", "Adele"), song("2", "World", "Nobody"), song("3", "Other", "HELLO band")];
    let view = LocalSongView::build(&all, "hello");
    assert_eq!(view.len(), 2);
    assert_eq!(view.get(0).map(|s| s.id.as_str()), Some("1"));
    assert_eq!(view.get(1).map(|s| s.id.as_str()), Some("3"));
    assert!(view.get(2).is_none());
    let everything = LocalSongView::build(&all, "");
    assert_eq!(everything.len(), 3);
    assert_eq!(everything.to_queue().len(), 3);
}

#[test]
fn closing_an_error_does_not_report_login_success() {
    let mut page = BiliLoginPage::new();
    page.state = BiliLoginState::Error("network".to_string());
    let action = page.handle_input(plain(KeyCode::Esc));
    assert!(matches!(action, BiliLoginAction::GoBack));
}

#[test]
fn login_success_is_reported_on_leaving() {
    let mut page = BiliLoginPage::new();
    page.set_waiting("key".to_string(), vec![], 180, 1_000);
    assert_eq!(page.begin_poll(), Some("key".to_string()));
    page.apply_check_result(
        Ok(QrPoll { status: QrStatus::Success, user_name: Some("fox".to_string()) }),
        2_000,
    );
    assert!(matches!(&page.state, BiliLoginState::Success { user_name } if user_name == "fox"));
    assert_eq!(page.handle_input(plain(KeyCode::Char('q'))), BiliLoginAction::LoginSuccess);
    assert_eq!(page.handle_input(plain(KeyCode::Char('x'))), BiliLoginAction::Nothing);
}

#[test]
fn a_scanned_code_does_not_go_back_to_waiting_and_expires_in_time() {
    let mut page = BiliLoginPage::new();
    page.set_waiting("key".to_string(), vec![], 10, 0);
    let _ = page.begin_poll();
    page.apply_check_result(Ok(QrPoll { status: QrStatus::Scanned, user_name: None }), 1_000);
    assert!(matches!(page.state, BiliLoginState::Scanned { .. }));
    let _ = page.begin_poll();
    page.apply_check_result(Ok(QrPoll { status: QrStatus::Waiting, user_name: None }), 2_000);
    assert!(matches!(page.state, BiliLoginState::Scanned { .. }));
    let _ = page.begin_poll();
    page.apply_check_result(Ok(QrPoll { status: QrStatus::Scanned, user_name: None }), 10_000);
    assert!(matches!(page.state, BiliLoginState::Expired));
}

#[test]
fn a_failed_poll_becomes_an_error() {
    let mut page = BiliLoginPage::new();
    page.set_waiting("key".to_string(), vec![], 180, 0);
    let _ = page.begin_poll();
    page.apply_check_result(Err("timeout".to_string()), 500);
    assert!(matches!(&page.state, BiliLoginState::Error(m) if m == "轮询失败: timeout"));
}

#[test]
fn qr_lines_pair_module_rows_inside_the_quiet_zone() {
    let modules = vec![vec![true, false], vec![false, true]];
    let lines = qr_half_blocks(&modules);
    // two modules plus four light ones on each side, two rows per line
    assert_eq!(lines.len(), 5);
    for line in &lines {
        assert_eq!(line.chars().count(), 10);
        assert!(line.chars().all(|ch| matches!(ch, ' ' | '\u{2588}' | '\u{2584}' | '\u{2580}')));
    }
    assert_eq!(lines[2], "\u{2588}\u{2588}\u{2588}\u{2588}\u{2584}\u{2580}\u{2588}\u{2588}\u{2588}\u{2588}");
}

#[test]
fn leaderboard_lists_the_default_boards_and_wraps() {
    let mut page = LeaderboardPage::new();
    assert_eq!(page.boards.len(), 6);
    assert_eq!(page.boards[0].name, "TOP500");
    assert_eq!(page.handle_input(&plain(KeyCode::Up), true), LeaderboardAction::Nothing);
    assert_eq!(page.selected, 5);
    assert_eq!(page.handle_input(&plain(KeyCode::Down), true), LeaderboardAction::Nothing);
    assert_eq!(page.selected, 0);
    assert_eq!(page.handle_input(&plain(KeyCode::Up), false), LeaderboardAction::Nothing);
    assert_eq!(page.selected, 0);
}

#[test]
fn leaderboard_opens_a_board_and_plays_a_song() {
    let mut page = LeaderboardPage::new();
    let _ = page.handle_input(&plain(KeyCode::Down), false);
    let _ = page.handle_input(&plain(KeyCode::Enter), false);
    assert_eq!(page.selected_board, Some(1));
    page.update_songs(vec![song("1", "a", "x"), song("2", "b", "y")]);
    assert!(page.loaded);
    let _ = page.handle_input(&plain(KeyCode::Char('j')), false);
    assert_eq!(page.handle_input(&plain(KeyCode::Enter), false), LeaderboardAction::PlaySong(1));
    let _ = page.handle_input(&plain(KeyCode::Esc), false);
    assert_eq!(page.selected_board, None);
}

#[test]
fn history_clear_takes_two_presses_within_the_window() {
    let mut state = HistoryState { selected: 0, scroll: 0, clear_armed_at: None };
    let d = KeyEvent::new(KeyCode::Char('D'), KeyModifiers::shift());
    assert_eq!(state.handle_input(&d, None, 3, false, false, 1_000), HistoryCommand::ConfirmClear);
    assert_eq!(state.handle_input(&d, None, 3, false, false, 1_500), HistoryCommand::ClearHistory);
    assert_eq!(state.clear_armed_at, None);
    assert_eq!(state.handle_input(&d, None, 3, false, false, 2_000), HistoryCommand::ConfirmClear);
    let _ = state.handle_input(&plain(KeyCode::Esc), None, 3, false, false, 2_100);
    assert_eq!(state.handle_input(&d, None, 3, false, false, 2_200), HistoryCommand::ConfirmClear);
}

#[test]
fn history_moves_and_activates_through_bindings() {
    let mut state = HistoryState { selected: 0, scroll: 0, clear_armed_at: None };
    let any = plain(KeyCode::Char('z'));
    assert_eq!(state.handle_input(&any, Some(HistoryBinding::SelectDown), 3, false, false, 0), HistoryCommand::Nothing);
    assert_eq!(state.selected, 1);
    assert_eq!(state.handle_input(&any, Some(HistoryBinding::Activate), 3, false, false, 0), HistoryCommand::PlayFrom(1));
    assert_eq!(state.handle_input(&any, Some(HistoryBinding::SelectLast), 3, false, false, 0), HistoryCommand::Nothing);
    assert_eq!(state.selected, 2);
}

#[test]
fn history_rows_below_the_header_map_to_songs() {
    let area = Rect::new(0, 0, 40, 10);
    assert_eq!(history_song_at(area, 2, false, 0, 5), Some(0));
    assert_eq!(history_song_at(area, 3, false, 2, 5), Some(3));
    assert_eq!(history_song_at(area, 1, false, 0, 5), None);
}

#[test]
fn qr_renders_half_blocks() {
    let url = "https://example.com";
    let lines = render_qr_terminal(url, 1);
    assert!(!lines.is_empty());
    assert_eq!(lines.first().unwrap().chars().count(), QrCode::new(url.as_bytes()).unwrap().width() + 8);
    for line in &lines {
        assert!(line.chars().all(|ch: char| matches!(ch, ' ' | '\u{2588}' | '\u{2584}' | '\u{2580}')));
    }
}

#[test]
fn qr_scale_repeats_cells_and_lines() {
    let url = "https://example.com";
    let plain_lines = render_qr_terminal(url, 1);
    let scaled = render_qr_terminal(url, 2);
    assert_eq!(scaled.len(), plain_lines.len() * 2);
    assert_eq!(scaled[0], scaled[1]);
    let doubled: String = plain_lines[0].chars().flat_map(|c| [c, c]).collect();
    assert_eq!(scaled[0], doubled);
    assert_eq!(render_qr_terminal(url, 0), plain_lines);
}

fn right_click(column: u16, row: u16) -> MouseEvent {
    MouseEvent { kind: MouseEventKind::RightDown, column, row }
}

#[test]
fn a_right_click_on_the_local_list_selects_and_returns_the_shown_queue() {
    let all = vec![song("1", "Hello", "Adele"), song("2", "World", "Nobody"), song("3", "Other", "HELLO band")];
    let area = Rect::new(10, 5, 80, 12);
    let mut selected = 2;
    let (queue, index) = context_song_at(right_click(12, 7), area, &all, "", false, 0, &mut selected).unwrap();
    assert_eq!((queue.len(), index, selected), (3, 0, 0));
    let (queue, index) = context_song_at(right_click(12, 9), area, &all, "hello", true, 0, &mut selected).unwrap();
    let ids: Vec<&str> = queue.iter().map(|s| s.id.as_str()).collect();
    assert_eq!(ids, vec!["1", "3"]);
    assert_eq!((index, selected), (1, 1));
    assert!(context_song_at(right_click(12, 10), area, &all, "hello", true, 0, &mut selected).is_none());
    assert_eq!(selected, 1);
}

#[test]
fn a_right_click_on_the_history_selects_the_filtered_song() {
    let sorted = vec![song("1", "Hello", "Adele"), song("2", "World", "Nobody"), song("3", "Other", "HELLO band")];
    let area = Rect::new(0, 0, 40, 10);
    let mut state = HistoryState { selected: 0, scroll: 0, clear_armed_at: None };
    let (list, index) = history_context_song_at(right_click(5, 3), area, &sorted, "", &mut state).unwrap();
    assert_eq!((list.len(), index, state.selected), (3, 1, 1));
    let (list, index) = history_context_song_at(right_click(5, 3), area, &sorted, "hello", &mut state).unwrap();
    assert_eq!((list.len(), index, state.selected), (2, 0, 0));
    assert_eq!(list[0].id, "1");
    assert!(history_context_song_at(right_click(5, 5), area, &sorted, "hello", &mut state).is_none());
}

#[test]
fn view_songs_copies_the_shown_positions() {
    let sorted = vec![song("1", "Hello", "Adele"), song("2", "World", "Nobody"), song("3", "Other", "HELLO band")];
    let view = history_view(&sorted, "world");
    let songs = view_songs(&sorted, &view);
    assert_eq!(songs.len(), 1);
    assert_eq!(songs[0].id, "2");
    assert_eq!(view_songs(&sorted, &history_view(&sorted, " ")).len(), 3);
}

#[test]
fn a_click_on_the_progress_row_gives_a_seek_fraction() {
    let row = Rect::new(0, 20, 100, 1);
    assert_eq!(seek_fraction(row, 6, true), Some((0, 87)));
    assert_eq!(seek_fraction(row, 50, true), Some((44, 87)));
    assert_eq!(seek_fraction(row, 99, true), Some((87, 87)));
    assert_eq!(seek_fraction(row, 2, true), Some((0, 87)));
    assert_eq!(seek_fraction(row, 50, false), None);
    assert_eq!(seek_fraction(row, 100, true), None);
    assert_eq!(seek_fraction(Rect::new(0, 0, 10, 1), 5, true), Some((0, 1)));
}

fn entry(key: &str, label: &str) -> (String, String) {
    (key.to_string(), label.to_string())
}

#[test]
fn help_lists_fixed_global_and_bound_pages() {
    let global = vec![entry("q", "退出应用"), entry("Space", "播放/暂停")];
    let pages = vec![
        PageBindings { display: "搜索".to_string(), page: "search".to_string(), entries: Some(vec![entry("i", "输入")]) },
        PageBindings { display: "歌单".to_string(), page: "playlists".to_string(), entries: None },
    ];
    let help = HelpPage::from_config(&global, &pages);
    let sections = help.sections();
    assert_eq!(sections.len(), 5);
    assert_eq!(sections[0].title, "侧边栏导航（固定）");
    assert_eq!(sections[0].entries.len(), 13);
    assert!(sections[1].entries.iter().any(|(key, label)| key == "q" && label == "退出应用"));
    assert_eq!(sections[2].entries.len(), 10);
    assert_eq!(sections[3].entries.len(), 8);
    assert_eq!(sections[4].title, "搜索（search）");
    assert_eq!(help.scroll(), 0);
}

#[test]
fn custom_global_keys_are_listed() {
    let help = HelpPage::from_config(&vec![entry("Q", "退出应用")], &vec![]);
    assert!(help.sections()[1].entries.iter().any(|(key, label)| key == "Q" && label == "退出应用"));
}

#[test]
fn entries_sort_by_key_ignoring_case_then_by_action() {
    let sorted = sort_entries(vec![entry("b", "x"), entry("A", "y"), entry("a", "x")]);
    assert_eq!(sorted, vec![entry("a", "x"), entry("A", "y"), entry("b", "x")]);
}

#[test]
fn entries_equal_but_for_case_keep_their_order() {
    let sorted = sort_entries(vec![entry("K", "x"), entry("b", "y"), entry("k", "x")]);
    assert_eq!(sorted, vec![entry("b", "y"), entry("K", "x"), entry("k", "x")]);
    let sorted = sort_entries(vec![entry("k", "x"), entry("K", "x")]);
    assert_eq!(sorted, vec![entry("k", "x"), entry("K", "x")]);
}

#[test]
fn the_login_page_is_centred_and_capped() {
    assert_eq!(calculate_bili_login_area(Rect::new(0, 0, 100, 50)), Rect::new(17, 5, 66, 40));
    assert_eq!(calculate_bili_login_area(Rect::new(2, 3, 20, 10)), Rect::new(4, 5, 16, 6));
}

#[test]
fn leaderboard_board_rows_keep_the_selection_in_view() {
    let mut page = LeaderboardPage::new();
    let rows = page.board_rows(3);
    assert_eq!(rows.len(), 3);
    assert_eq!(rows[0], (0, "  kg   TOP500".to_string(), BoardStyle::Selected));
    assert_eq!(rows[1].2, BoardStyle::Normal);
    page.selected = 4;
    let rows = page.board_rows(3);
    assert_eq!(rows.iter().map(|r| r.0).collect::<Vec<_>>(), vec![2, 3, 4]);
    assert_eq!(rows[2].2, BoardStyle::Selected);
}

#[test]
fn leaderboard_song_panel_follows_the_loading_state() {
    let mut page = LeaderboardPage::new();
    assert_eq!(page.song_panel(), SongPanel::Message("选择一个榜单".to_string()));
    assert_eq!(page.song_title(), "歌曲列表");
    let _ = page.handle_input(&plain(KeyCode::Down), false);
    let _ = page.handle_input(&plain(KeyCode::Enter), false);
    assert_eq!(page.song_title(), "飙升榜 - 歌曲列表");
    assert_eq!(page.board_rows(6)[1].2, BoardStyle::Open);
    assert_eq!(page.song_panel(), SongPanel::Blank);
    page.begin_loading();
    assert_eq!(page.song_panel(), SongPanel::Message("加载中...".to_string()));
    page.update_error("timeout".to_string());
    assert_eq!(page.song_panel(), SongPanel::Message("加载失败: timeout".to_string()));
    page.update_songs(vec![]);
    assert_eq!(page.song_panel(), SongPanel::Message("该榜单暂无歌曲".to_string()));
    page.update_songs(vec![song("1", "a", "x")]);
    assert_eq!(page.song_panel(), SongPanel::Songs);
}

#[test]
fn leaderboard_song_list_scrolls_to_the_selection() {
    let mut page = LeaderboardPage::new();
    let _ = page.handle_input(&plain(KeyCode::Enter), false);
    page.update_songs((0..10).map(|i| song(&i.to_string(), "s", "x")).collect());
    page.selected = 7;
    page.fit_song_scroll(5);
    assert_eq!(page.scroll_offset, 3);
    page.selected = 1;
    page.fit_song_scroll(5);
    assert_eq!(page.scroll_offset, 1);
    page.fit_song_scroll(0);
    assert_eq!(page.scroll_offset, 1);
    let rows = page.song_rows(2, 80);
    assert_eq!(rows.iter().map(|r| r.0).collect::<Vec<_>>(), vec![1, 2]);
    assert!(rows[0].1.starts_with('2'));
}

#[test]
fn help_text_and_view_follow_the_scroll() {
    let mut help = help();
    assert_eq!(
        help.lines(),
        vec![
            HelpLine::Blank,
            HelpLine::Title("Global".to_string()),
            HelpLine::Entry("  q           ".to_string(), "Quit".to_string()),
            HelpLine::Blank,
        ]
    );
    let view = help.fit_view(Rect::new(0, 0, 80, 4));
    assert_eq!((view.start, view.visible), (0, 2));
    assert_eq!(view.title, "快捷键说明 · 2/5 行 · j/k 滚动 · ? / \\ 关闭");
    assert!(help.handle_input(&plain(KeyCode::End)));
    let view = help.fit_view(Rect::new(0, 0, 80, 4));
    assert_eq!((view.start, help.scroll()), (3, 3));
    assert_eq!(view.title, "快捷键说明 · 5/5 行 · j/k 滚动 · ? / \\ 关闭");
}

#[test]
fn the_help_overlay_is_centred() {
    assert_eq!(help_overlay_area(Rect::new(0, 0, 100, 30)), Rect::new(8, 1, 84, 28));
    assert_eq!(help_overlay_area(Rect::new(0, 0, 10, 3)), Rect::new(0, 0, 20, 5));
}

#[test]
fn the_login_view_follows_the_state() {
    let area = Rect::new(0, 0, 40, 20);
    let mut page = BiliLoginPage::new();
    let view = page.login_view(area, 0);
    assert_eq!(view.inner, Rect::new(1, 1, 38, 18));
    assert_eq!(view.tips_row, Some(18));
    assert_eq!(view.body, Rect::new(1, 1, 38, 17));
    assert_eq!(view.content, LoginContent::Centered(" █ 正在生成二维码...".to_string()));
    assert_eq!(page.login_view(Rect::new(0, 0, 10, 7), 0).content, LoginContent::TooSmall);

    let code = vec!["█████".to_string(); 3];
    page.set_waiting("key".to_string(), code.clone(), 180, 0);
    assert_eq!(page.login_view(area, 5_000).content, LoginContent::Qr(" 请使用哔哩哔哩客户端扫码 (175s 后过期)".to_string()));
    assert!(qr_fits(view.body, &code));
    assert_eq!(qr_place(view.body, &code), (6, 17, 5));

    page.set_waiting("key".to_string(), vec!["█".to_string(); 30], 180, 0);
    assert_eq!(page.login_view(area, 0).content, LoginContent::Centered("终端窗口太小，无法完整显示二维码".to_string()));
    page.set_error("x".to_string());
    assert_eq!(page.login_view(area, 0).content, LoginContent::Middle(" 错误: x".to_string()));
}

#[test]
fn the_local_title_tells_count_scan_order_filter_and_problems() {
    assert_eq!(local_title(12, true, "按名称", "", 0, 0), " 本地音乐 · 12 首 · ⏳ 扫描中 · 排序 按名称 · s 切换 ");
    assert_eq!(
        local_title(3, false, "按名称", "abc", 1, 2),
        " 本地音乐 · 3 首 · 排序 按名称 · s 切换 · 过滤 'abc' (3 匹配) · 损坏 1 · 缺失 2 "
    );
}

#[test]
fn the_local_card_shows_notices_or_the_scrolled_list() {
    let inner = Rect::new(0, 1, 80, 10);
    assert_eq!(local_body(inner, true, 20, false, false, 12, 0), LocalBody::List { header_y: 1, visible: 8, scroll: 5 });
    assert_eq!(local_body(inner, true, 20, false, true, 12, 0), LocalBody::List { header_y: 2, visible: 7, scroll: 6 });
    assert_eq!(
        local_body(inner, false, 20, false, false, 0, 0),
        LocalBody::Message(" 未配置音乐目录，请在设置（0）→ 数据与本地库中添加".to_string())
    );
    assert_eq!(local_body(inner, true, 0, true, false, 0, 0), LocalBody::Message(" 正在扫描本地音乐，请稍候...".to_string()));
    assert_eq!(local_body(inner, true, 0, false, false, 0, 0), LocalBody::Message(" 目录下未找到音频文件，按 r 重新扫描".to_string()));
    assert_eq!(local_body(Rect::new(0, 0, 80, 1), true, 5, false, false, 0, 0), LocalBody::Nothing);
    assert_eq!(local_body(Rect::new(0, 0, 80, 3), true, 5, false, true, 0, 0), LocalBody::Nothing);
}

#[test]
fn the_delete_confirmation_is_centred_and_names_the_file() {
    assert_eq!(delete_dialog_area(Rect::new(0, 0, 100, 20)), Rect::new(14, 6, 72, 7));
    let lines = delete_dialog_lines("晴天", "/music/晴天.flac");
    assert_eq!(lines, vec!["删除「晴天」？", "/music/晴天.flac", "", "y 确认删除    n / Esc 取消"]);
}

#[test]
fn the_history_card_title_and_empty_message_follow_the_filter() {
    assert_eq!(history_title(4, "最近播放", ""), "播放历史 (4 首) · 排序 最近播放 · s 切换");
    assert_eq!(history_title(1, "最近播放", "jay"), "播放历史 (1 首) · 排序 最近播放 · s 切换 · 过滤 'jay' (1 匹配)");
    assert_eq!(history_empty_message(""), "暂无播放历史");
    assert_eq!(history_empty_message("x"), "无匹配历史记录，按 Esc 清除过滤");
}

#[test]
fn the_library_check_names_its_list_and_duplicates() {
    assert_eq!(diagnostics_title(LocalDiagnosticsKind::Missing), "本地库诊断 · 缺失文件 · i 切换，Esc 关闭");
    assert_eq!(diagnostics_area(Rect::new(0, 0, 200, 40)), Rect::new(45, 2, 110, 36));
    assert_eq!(diagnostics_area(Rect::new(0, 0, 20, 6)), Rect::new(2, 0, 16, 5));
    let mut a = song("1", "a", "x");
    a.file_path = Some("/m/a.flac".to_string());
    let b = song("2", "a", "x");
    assert_eq!(duplicate_group_line(&vec![a, b]), "/m/a.flac  <->  2");
}

#[test]
fn confirmed_history_clear_returns_to_the_top() {
    let mut state = HistoryState { selected: 2, scroll: 1, clear_armed_at: None };
    let d = KeyEvent::new(KeyCode::Char('D'), KeyModifiers::shift());
    assert_eq!(state.handle_input(&d, None, 3, false, false, 1_000), HistoryCommand::ConfirmClear);
    assert_eq!(state.selected, 2);
    assert_eq!(state.handle_input(&d, None, 3, false, false, 1_200), HistoryCommand::ClearHistory);
    assert_eq!(state, HistoryState { selected: 0, scroll: 0, clear_armed_at: None });
}
