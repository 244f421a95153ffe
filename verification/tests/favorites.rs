use voicefox::pages::favorites::{
    favorites_empty_message, favorites_title, fit_favorites, handle_input, handle_mouse, FavoritesCommand,
};
use voicefox::pages::geometry::Rect;
use voicefox::pages::input::{KeyCode, KeyEvent, KeyModifiers, MouseEvent, MouseEventKind};

fn plain(code: KeyCode) -> KeyEvent {
    KeyEvent::new(code, KeyModifiers::none())
}

#[test]
fn favorites_move_and_wrap() {
    let mut selected = 0;
    assert_eq!(handle_input(&plain(KeyCode::Up), 3, true, &mut selected), FavoritesCommand::Nothing);
    assert_eq!(selected, 2);
    assert_eq!(handle_input(&plain(KeyCode::Char('j')), 3, true, &mut selected), FavoritesCommand::Nothing);
    assert_eq!(selected, 0);
    assert_eq!(handle_input(&plain(KeyCode::Up), 3, false, &mut selected), FavoritesCommand::Nothing);
    assert_eq!(selected, 0);
    assert_eq!(handle_input(&plain(KeyCode::Enter), 3, false, &mut selected), FavoritesCommand::PlaySong(0));
    assert_eq!(handle_input(&plain(KeyCode::Enter), 0, false, &mut selected), FavoritesCommand::Nothing);
}

#[test]
fn removing_the_last_favorite_moves_the_selection_up() {
    let mut selected = 2;
    assert_eq!(handle_input(&plain(KeyCode::Char('d')), 3, false, &mut selected), FavoritesCommand::Remove(2));
    assert_eq!(selected, 1);
    let mut first = 0;
    assert_eq!(handle_input(&plain(KeyCode::Char('d')), 3, false, &mut first), FavoritesCommand::Remove(0));
    assert_eq!(first, 0);
    let ctrl_d = KeyEvent::new(KeyCode::Char('d'), KeyModifiers::control());
    assert_eq!(handle_input(&ctrl_d, 3, false, &mut first), FavoritesCommand::Nothing);
}

#[test]
fn clicks_below_the_header_select_and_play() {
    let area = Rect::new(0, 0, 40, 10);
    let mut selected = 0;
    let click = MouseEvent { kind: MouseEventKind::LeftDown, column: 3, row: 4 };
    assert_eq!(handle_mouse(click, area, 5, &mut selected, 1, true, 3), Some(3));
    assert_eq!(selected, 3);
    let wheel = MouseEvent { kind: MouseEventKind::ScrollDown, column: 3, row: 4 };
    assert_eq!(handle_mouse(wheel, area, 5, &mut selected, 0, false, 3), None);
    assert_eq!(selected, 4);
    let header = MouseEvent { kind: MouseEventKind::LeftDown, column: 3, row: 1 };
    assert_eq!(handle_mouse(header, area, 5, &mut selected, 0, true, 3), None);
    assert_eq!(selected, 4);
}

#[test]
fn the_favorites_card_counts_songs_and_keeps_the_selection_in_view() {
    assert_eq!(favorites_title(3), "收藏 (3 首)");
    assert_eq!(favorites_empty_message(), "暂无收藏，在主页面按 Ctrl+L 收藏当前歌曲");
    assert_eq!(fit_favorites(9, 0, 4, 10), (9, 6));
    assert_eq!(fit_favorites(12, 5, 4, 10), (0, 0));
    assert_eq!(fit_favorites(2, 5, 4, 10), (2, 2));
}
