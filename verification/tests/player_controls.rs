use voicefox::pages::geometry::Rect;
use voicefox::pages::player_controls::{
    control_cells, control_labels, cut, meta_text, progress_line, song_line, PlayMode, SongLabels,
};
use voicefox::pages::status_bar::PlayerState;

#[test]
fn cut_keeps_text_that_fits() {
    assert_eq!(cut("abc", 3), "abc");
    assert_eq!(cut("歌曲", 4), "歌曲");
}

#[test]
fn cut_adds_an_ellipsis() {
    assert_eq!(cut("hello world", 5), "hell…");
    assert_eq!(cut("abc", 1), "…");
    assert_eq!(cut("abc", 0), "");
}

#[test]
fn control_labels_name_mode_state_and_volume() {
    let labels = control_labels(PlayMode::Random, true, 5);
    assert_eq!(labels, vec![" 随机 ", "  <<  ", "  暂停  ", "  >>  ", "  音量   5%  "]);
    let labels = control_labels(PlayMode::Sequential, false, 100);
    assert_eq!(labels[0], " 顺序 ");
    assert_eq!(labels[2], "  播放  ");
    assert_eq!(labels[4], "  音量 100%  ");
}

#[test]
fn control_cells_pad_each_button_and_fill_the_row() {
    let labels: Vec<String> = control_labels(PlayMode::Random, true, 5);
    let (cells, fill) = control_cells(Rect::new(0, 0, 60, 1), &labels);
    assert_eq!(cells[0], " 随机     ");
    assert_eq!(cells[1], "  <<    ");
    assert_eq!(cells[2], "  暂停    ");
    assert_eq!(cells[3], "  >>    ");
    assert_eq!(cells[4], "  音量   5%    ");
    assert_eq!(fill, 9);
}

#[test]
fn control_cells_cut_buttons_on_a_narrow_bar() {
    let labels: Vec<String> = control_labels(PlayMode::ListLoop, false, 50);
    let (cells, fill) = control_cells(Rect::new(0, 0, 10, 1), &labels);
    assert_eq!(cells[0], " 列表     ");
    assert_eq!(cells[1], " …");
    assert_eq!(cells[2], "");
    assert_eq!(cells[3], "");
    assert_eq!(cells[4], "");
    assert_eq!(fill, 0);
}

#[test]
fn meta_text_lists_queue_mode_state_and_flags() {
    assert_eq!(
        meta_text(3, 0, "列表", PlayerState::Playing, true, false, 200),
        " 队列 1/3  ·  列表  ·  播放中  ·  已收藏  ·  无下载任务"
    );
    assert_eq!(
        meta_text(0, 7, "随机", PlayerState::Idle, false, true, 200),
        " 队列 0/0  ·  随机  ·  待机  ·  未收藏  ·  下载中"
    );
    assert_eq!(meta_text(3, 0, "列表", PlayerState::Paused, true, false, 6), " 队列…");
}

#[test]
fn progress_line_places_the_marker() {
    assert_eq!(progress_line(20, 65, 185, 3), Some("01:05 ━━━●──── 03:05".to_string()));
    assert_eq!(progress_line(12, 0, 0, 0), Some("00:00 ● 00:00".to_string()));
    assert_eq!(progress_line(11, 0, 10, 0), None);
}

fn labels() -> SongLabels {
    SongLabels {
        title: "Song".to_string(),
        singer: "Ann".to_string(),
        album: String::new(),
        source: "酷我".to_string(),
        quality: "320k".to_string(),
    }
}

#[test]
fn song_line_adds_pieces_and_pads() {
    let song = labels();
    assert_eq!(
        song_line(Some(&song), PlayerState::Playing, 40),
        vec!["Song", "  ·  Ann", "  ·  酷我 · 320k", "  [播放中]", "  "]
    );
}

#[test]
fn song_line_stops_adding_once_the_row_is_full() {
    let song = labels();
    assert_eq!(song_line(Some(&song), PlayerState::Paused, 10), vec!["S…", "  ·  Ann"]);
    assert!(song_line(Some(&song), PlayerState::Paused, 0).is_empty());
}

#[test]
fn song_line_without_a_song() {
    assert_eq!(
        song_line(None, PlayerState::Idle, 30),
        vec!["暂无播放", "  ·  - · -", "  [待机]", "    "]
    );
}
