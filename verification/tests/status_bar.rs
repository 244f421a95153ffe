use voicefox::pages::status_bar::{
    download_indicator, page_hint, queue_position, song_text, state_label, status_segments, time_text,
    BindingAction, PlayerState, SegmentKind, StatusBarItem, StatusInput,
};
use voicefox::song::SongInfo;

fn input(width: u16) -> StatusInput {
    StatusInput {
        width,
        downloads: None,
        items: vec![StatusBarItem::State, StatusBarItem::Song, StatusBarItem::Time, StatusBarItem::Volume],
        state: PlayerState::Playing,
        source: "kw".to_string(),
        sort_status: None,
        song: "Hello - Adele".to_string(),
        time: "01:05/03:00".to_string(),
        volume: 80,
        mode: "顺序".to_string(),
        quality: "320K".to_string(),
        queue: "1/3".to_string(),
        source_online: true,
        hint: "x".to_string(),
    }
}

#[test]
fn page_hints_name_the_configured_keys() {
    assert_eq!(page_hint("main", &vec![]), "k / j 上下 · Enter 播放 · a 加队尾 · D 清空");
    let bindings = vec![(BindingAction::ListSelectUp, "w".to_string()), (BindingAction::ListSelectUp, "z".to_string())];
    assert_eq!(page_hint("main", &bindings), "w / j 上下 · Enter 播放 · a 加队尾 · D 清空");
    assert_eq!(
        page_hint("local", &vec![(BindingAction::LocalDelete, "x".to_string())]),
        "k / j 导航 · Enter 播放 · a 加队列 · s 排序 · r 扫描 · x 删除 · / 筛选"
    );
    assert_eq!(page_hint("downloads", &vec![]), "↑/k ↓/j 导航 · d 取消/移除 · x 清理完成 · C 清空历史 · Esc 返回");
    assert_eq!(page_hint("queue", &vec![]), "");
}

#[test]
fn all_segments_show_on_a_wide_bar() {
    let segs = status_segments(&input(80));
    let texts: Vec<&str> = segs.iter().map(|s| s.text.as_str()).collect();
    assert_eq!(texts, vec![" 播放 ", "Hello - Adele", "01:05/03:00", "音量 80%", "x"]);
    assert_eq!(segs[0].kind, SegmentKind::Item(StatusBarItem::State));
    assert_eq!(segs[4].kind, SegmentKind::Hint);
}

#[test]
fn a_narrow_bar_truncates_the_song_and_drops_what_no_longer_fits() {
    let segs = status_segments(&input(20));
    let texts: Vec<&str> = segs.iter().map(|s| s.text.as_str()).collect();
    assert_eq!(texts, vec![" 播放 ", "Hello - …"]);
}

#[test]
fn the_download_summary_comes_first() {
    let mut inp = input(80);
    inp.downloads = download_indicator(2, Some(45));
    inp.items = vec![StatusBarItem::Queue, StatusBarItem::JsSourceState];
    let segs = status_segments(&inp);
    let texts: Vec<&str> = segs.iter().map(|s| s.text.as_str()).collect();
    assert_eq!(texts, vec!["下载 2 项 45% (Ctrl+o)", "队列 1/3", "自定义音源在线", "x"]);
    assert_eq!(segs[0].kind, SegmentKind::Downloads);
}

#[test]
fn the_source_is_capped_by_the_bar_width() {
    let mut inp = input(40);
    inp.items = vec![StatusBarItem::Source];
    inp.source = "a very long source name".to_string();
    inp.hint = String::new();
    let segs = status_segments(&inp);
    assert_eq!(segs.len(), 1);
    assert_eq!(segs[0].text, "音源 a very …");
}

#[test]
fn download_indicator_counts_active_tasks() {
    assert_eq!(download_indicator(1, None), Some("下载 1 项 (Ctrl+o)".to_string()));
    assert_eq!(download_indicator(0, Some(10)), None);
}

#[test]
fn time_song_and_queue_texts() {
    assert_eq!(time_text(65_000, 180_000), "01:05/03:00");
    assert_eq!(time_text(5_000, 0), "00:05");
    assert_eq!(song_text(None, None, false), "voicefox");
    let song = SongInfo::new("1".to_string(), "kw".to_string(), "A".to_string(), "B".to_string());
    assert_eq!(song_text(Some(&song), Some("FLAC"), false), "A - B · FLAC");
    assert_eq!(song_text(Some(&song), Some("FLAC"), true), "A - B");
    let blank = SongInfo::new("1".to_string(), "kw".to_string(), "A".to_string(), "  ".to_string());
    assert_eq!(song_text(Some(&blank), None, false), "A");
    assert_eq!(queue_position(0, 3), "0/0");
    assert_eq!(queue_position(10, 2), "3/10");
    assert_eq!(state_label(PlayerState::Paused), "暂停");
}
