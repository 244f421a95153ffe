use voicefox::notify::NotificationLevel;
use voicefox::pages::context_menu::{SongContextMenu, SongContextMenuOptions, SongMenuAction, SongMenuKind, SortTarget};
use voicefox::pages::geometry::Position;
use voicefox::pages::song_menu::{
    favorite_notice, playlist_add_notice, playlist_remove_notice, queue_entry_unchanged, queue_removal_notice,
    song_menu_command, sort_notice, SongMenuCommand,
};
use voicefox::song::SongInfo;

fn song(id: &str, name: &str, singer: &str) -> SongInfo {
    SongInfo::new(id.to_string(), "kw".to_string(), name.to_string(), singer.to_string())
}

fn menu(songs: Vec<SongInfo>, index: usize) -> SongContextMenu {
    SongContextMenu::new(Position::new(1, 1), songs, index, SongMenuKind::History, false, SongContextMenuOptions::empty())
        .unwrap()
}

#[test]
fn menu_items_become_commands_on_the_menu_song() {
    let m = menu(vec![song("1", "a", "x"), song("2", "b", ""), song("3", "c", "z")], 1);
    assert!(matches!(song_menu_command(&SongMenuAction::Play, &m), SongMenuCommand::Play { index: 1 }));
    assert!(matches!(song_menu_command(&SongMenuAction::PlayNext, &m), SongMenuCommand::Enqueue { next: true }));
    assert!(matches!(song_menu_command(&SongMenuAction::AddToQueue, &m), SongMenuCommand::Enqueue { next: false }));
    assert!(matches!(song_menu_command(&SongMenuAction::CycleSort(SortTarget::History), &m), SongMenuCommand::CycleSort(SortTarget::History)));
    assert!(matches!(song_menu_command(&SongMenuAction::RemoveFromHistory, &m), SongMenuCommand::RemoveFromHistory { select: 1 }));
    assert!(matches!(song_menu_command(&SongMenuAction::ViewArtist, &m), SongMenuCommand::Nothing));
    match song_menu_command(&SongMenuAction::DeleteLocal, &m) {
        SongMenuCommand::Notice(n) => {
            assert_eq!(n.level, NotificationLevel::Error);
            assert_eq!(n.message, "无法删除：没有本地文件路径");
        },
        _ => panic!("a song without a file cannot be deleted"),
    }
    match song_menu_command(&SongMenuAction::OpenCustomPlaylists, &m) {
        SongMenuCommand::Notice(n) => assert_eq!(n.message, "请选择一个自建歌单"),
        _ => panic!("opening the playlists only asks"),
    }
}

#[test]
fn removing_the_last_history_row_selects_the_one_before() {
    let m = menu(vec![song("1", "a", "x"), song("2", "b", "y"), song("3", "c", "z")], 2);
    assert!(matches!(song_menu_command(&SongMenuAction::RemoveFromHistory, &m), SongMenuCommand::RemoveFromHistory { select: 1 }));
    assert!(matches!(song_menu_command(&SongMenuAction::ViewArtist, &m), SongMenuCommand::ShowArtist));
}

#[test]
fn local_files_ask_before_deleting() {
    let mut local = song("1", "a", "x");
    local.file_path = Some("/music/a.flac".to_string());
    let m = menu(vec![local], 0);
    match song_menu_command(&SongMenuAction::DeleteLocal, &m) {
        SongMenuCommand::ConfirmDelete { name, path } => {
            assert_eq!(name, "a");
            assert_eq!(path, "/music/a.flac");
        },
        _ => panic!("a local file is confirmed first"),
    }
}

#[test]
fn notices_report_how_it_went() {
    let s = song("1", "a", "x");
    assert!(queue_entry_unchanged(Some(&s), &song("1", "other", "y")));
    assert!(!queue_entry_unchanged(Some(&song("2", "a", "x")), &s));
    assert!(!queue_entry_unchanged(None, &s));
    assert_eq!(queue_removal_notice(true, "a").message, "已从队列移除: a");
    assert_eq!(queue_removal_notice(false, "a").level, NotificationLevel::Warn);
    assert_eq!(favorite_notice(true).message, "已取消收藏");
    assert_eq!(favorite_notice(false).message, "已添加收藏");
    assert_eq!(playlist_add_notice(&Ok(true)).message, "已加入自建歌单");
    assert_eq!(playlist_add_notice(&Ok(false)).level, NotificationLevel::Info);
    assert_eq!(playlist_add_notice(&Err("disk".to_string())).level, NotificationLevel::Error);
    assert_eq!(playlist_remove_notice(&Ok(false)).message, "歌曲已经不在这个歌单中");
    assert_eq!(sort_notice("按时间").message, "排序方式: 按时间");
}
