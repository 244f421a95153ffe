use voicefox::pages::context_menu::{
    item_at, menu_area, menu_rows, menu_title, MenuGroup, MenuItem, MenuRow, RowRole, MenuLevel, MenuOutcome, PlaybackMenuAction, PlaybackMenuState,
    SongContextMenu, SongContextMenuOptions, SongMenuAction, SongMenuKind, SortTarget, ListAction,
};
use voicefox::pages::geometry::{Position, Rect};
use voicefox::pages::input::{KeyCode, KeyEvent, KeyModifiers};
use voicefox::song::SongInfo;

fn song() -> SongInfo {
    SongInfo::new("1".to_string(), "kw".to_string(), "Song".to_string(), "Artist".to_string())
}

/// What the default key bindings make of a key in a list.
fn default_binding(key: &KeyEvent) -> Option<ListAction> {
    if key.modifiers != KeyModifiers::none() {
        return None;
    }
    match key.code {
        KeyCode::Char('k') => Some(ListAction::SelectUp),
        KeyCode::Char('j') => Some(ListAction::SelectDown),
        _ => None,
    }
}

#[test]
fn context_menu_is_clamped_inside_content_area() {
    let bounds = Rect::new(10, 5, 40, 12);
    let items = vec![
        MenuItem::new("item 1".to_string(), SongMenuAction::Play),
        MenuItem::new("item 2".to_string(), SongMenuAction::Play),
        MenuItem::new("item 3".to_string(), SongMenuAction::Play),
        MenuItem::new("item 4".to_string(), SongMenuAction::Play),
        MenuItem::new("item 5".to_string(), SongMenuAction::Play),
    ];
    let area = menu_area(bounds, Position::new(48, 15), &items);

    assert!(bounds.contains(Position::new(area.x, area.y)));
    assert_eq!(area.right(), bounds.right());
    assert_eq!(area.bottom(), bounds.bottom());
}

#[test]
fn menu_item_hit_test_ignores_border() {
    let area = Rect::new(10, 5, 24, 7);
    assert_eq!(item_at(area, Position::new(12, 6), 5, 0), Some(0));
    assert_eq!(item_at(area, Position::new(12, 10), 5, 0), Some(4));
    assert_eq!(item_at(area, Position::new(12, 6), 8, 3), Some(3));
    assert_eq!(item_at(area, Position::new(10, 6), 5, 0), None);
}

#[test]
fn sortable_pages_append_a_sort_action() {
    let mut options = SongContextMenuOptions::empty();
    options.sort = Some((SortTarget::Favorites, "最新收藏".to_string()));
    let menu = SongContextMenu::new(Position::new(1, 1), vec![song()], 0, SongMenuKind::Standard, false, options).unwrap();
    assert_eq!(
        menu.items().last().map(|item| item.action.clone()),
        Some(SongMenuAction::CycleSort(SortTarget::Favorites))
    );
    assert_eq!(menu.items().last().unwrap().label, "排序：最新收藏（切换）");
}

#[test]
fn escape_closes_the_custom_playlist_submenu_in_one_step() {
    let mut options = SongContextMenuOptions::empty();
    options.custom_playlists = vec![("custom-1".to_string(), "通勤".to_string())];
    let mut menu = SongContextMenu::new(Position::new(1, 1), vec![song()], 0, SongMenuKind::Standard, false, options).unwrap();
    let index = menu.items().iter().position(|item| item.action == SongMenuAction::OpenCustomPlaylists).unwrap();
    menu.select(index);
    assert_eq!(menu.activate(), MenuOutcome::Unchanged);
    assert_eq!(menu.level(), MenuLevel::CustomPlaylists);
    let esc = KeyEvent::new(KeyCode::Esc, KeyModifiers::none());
    assert_eq!(menu.handle_key(&esc, default_binding(&esc), Rect::new(0, 0, 40, 20)), MenuOutcome::Close);
}

#[test]
fn custom_playlist_menu_scrolls_with_the_actual_viewport_height() {
    let mut options = SongContextMenuOptions::empty();
    options.custom_playlists = (0..8).map(|index| (format!("custom-{index}"), format!("歌单 {index}"))).collect();
    let mut menu = SongContextMenu::new(Position::new(0, 0), vec![song()], 0, SongMenuKind::Standard, false, options).unwrap();
    menu.show_level(MenuLevel::CustomPlaylists);
    let bounds = Rect::new(0, 0, 40, 5);
    let down = KeyEvent::new(KeyCode::Down, KeyModifiers::none());
    for _ in 0..4 {
        assert_eq!(menu.handle_key(&down, default_binding(&down), bounds), MenuOutcome::Unchanged);
    }
    assert_eq!(menu.selected(), 4);
    assert_eq!(menu.scroll_offset(), 2);
}

#[test]
fn playback_controls_open_as_a_submenu_and_dispatch_actions() {
    let mut options = SongContextMenuOptions::empty();
    options.playback = Some(PlaybackMenuState {
        speed: format!("{:.2}", 1.25),
        audio_device: "auto".to_string(),
        replaygain_mode: "track".to_string(),
        replaygain_preamp: format!("{:+.1}", 0.0),
        replaygain_clip: false,
        equalizer: "关闭".to_string(),
        channel_mode: "stereo".to_string(),
        balance: format!("{:+.2}", 0.0),
        ab_loop: "未设置".to_string(),
    });
    let mut menu = SongContextMenu::new(Position::new(0, 0), vec![song()], 0, SongMenuKind::Standard, false, options).unwrap();
    let index = menu.items().iter().position(|item| item.action == SongMenuAction::OpenPlaybackControls).unwrap();
    menu.select(index);
    assert_eq!(menu.activate(), MenuOutcome::Unchanged);
    assert_eq!(menu.level(), MenuLevel::PlaybackControls);
    assert_eq!(menu.activate(), MenuOutcome::Action(SongMenuAction::Playback(PlaybackMenuAction::CycleSpeed)));
    assert_eq!(menu.items()[0].label, "播放速度: 1.25x（切换）");
}

#[test]
fn disabled_items_cannot_be_activated() {
    let mut menu = SongContextMenu::new(Position::new(0, 0), vec![song()], 0, SongMenuKind::Standard, false, SongContextMenuOptions::empty()).unwrap();
    menu.show_level(MenuLevel::CustomPlaylists);
    assert!(menu.items()[0].disabled);
    assert_eq!(menu.activate(), MenuOutcome::Close);
}

#[test]
fn menu_items_have_icons_and_shortcuts() {
    let menu = SongContextMenu::new(Position::new(0, 0), vec![song()], 0, SongMenuKind::Standard, false, SongContextMenuOptions::empty()).unwrap();
    let play = menu.items().iter().find(|i| matches!(i.action, SongMenuAction::Play)).unwrap();
    assert_eq!(play.icon, Some("▶"));
    assert_eq!(play.shortcut, Some("Enter"));
    assert!(!play.disabled);
}

#[test]
fn menus_are_only_opened_on_a_listed_song() {
    assert!(SongContextMenu::new(Position::new(0, 0), vec![song()], 1, SongMenuKind::Standard, false, SongContextMenuOptions::empty()).is_none());
    let menu = SongContextMenu::new(Position::new(0, 0), vec![song()], 0, SongMenuKind::Local, true, SongContextMenuOptions::empty()).unwrap();
    let labels: Vec<&str> = menu.items().iter().map(|i| i.label.as_str()).collect();
    assert_eq!(labels, vec!["播放", "设为下一首", "加入队尾", "加入自建歌单…", "取消收藏", "查看歌手", "删除本地文件"]);
    assert_eq!(menu.song().name, "Song");
    assert_eq!(menu.index(), 0);
    assert_eq!(menu.songs().len(), 1);
}

#[test]
fn moving_down_then_up_returns_to_the_same_item() {
    let mut menu = SongContextMenu::new(Position::new(0, 0), vec![song()], 0, SongMenuKind::Queue, false, SongContextMenuOptions::empty()).unwrap();
    let n = menu.items().len();
    menu.select_previous(3);
    assert_eq!(menu.selected(), n - 1);
    menu.select_next(3);
    assert_eq!(menu.selected(), 0);
    let item = MenuItem::new("x".to_string(), SongMenuAction::Play).with_icon("▶").with_shortcut("Enter").disabled();
    assert!(item.disabled);
    assert_eq!(item.icon, Some("▶"));
}

#[test]
fn menu_rows_draw_rules_between_groups_and_push_shortcuts_right() {
    let items = vec![
        MenuItem::new("Play".to_string(), SongMenuAction::Play).with_icon("▶").with_shortcut("Enter").in_group(MenuGroup::Playback),
        MenuItem::new("Next".to_string(), SongMenuAction::PlayNext).in_group(MenuGroup::Playback),
        MenuItem::new("Download".to_string(), SongMenuAction::Download).in_group(MenuGroup::Operations),
        MenuItem::new("Info".to_string(), SongMenuAction::Play).disabled().in_group(MenuGroup::Info),
        MenuItem::new("Queue".to_string(), SongMenuAction::AddToQueue).in_group(MenuGroup::Manage),
    ];
    let rows = menu_rows(&items, 0, 0, Rect::new(0, 0, 30, 10));
    assert_eq!(rows.len(), 5);
    assert_eq!(
        rows[0],
        MenuRow::Item {
            index: 0,
            role: RowRole::Selected,
            icon: " ▶ ".to_string(),
            label: "Play".to_string(),
            shortcut: Some((14, " Enter ".to_string())),
        }
    );
    assert_eq!(
        rows[1],
        MenuRow::Item { index: 1, role: RowRole::Normal, icon: "   ".to_string(), label: "Next".to_string(), shortcut: None }
    );
    let rule = format!(" {} ", "─".repeat(28));
    assert_eq!(rows[2], MenuRow::Separator(rule.clone()));
    assert_eq!(rows[3], MenuRow::Separator(rule));
    assert!(matches!(&rows[4], MenuRow::Item { index: 4, .. }));
    let scrolled = menu_rows(&items, 0, 2, Rect::new(0, 0, 30, 2));
    assert_eq!(scrolled.len(), 2);
    assert!(matches!(&scrolled[0], MenuRow::Item { index: 2, role: RowRole::Normal, .. }));
    assert!(matches!(&scrolled[1], MenuRow::Separator(_)));
    assert_eq!(menu_title(MenuLevel::PlaybackControls), " 歌曲操作 › 播放控制 ");
}
