use voicefox::download::records::{
    build_dedup, clean_text, relative_path, song_key, DownloadRecord, DownloadRecords,
    DownloadStatus, PathIndex,
};
use voicefox::song::SongInfo;

fn song(name: &str, singer: &str) -> SongInfo {
    SongInfo::new("id-1".to_string(), "kw".to_string(), name.to_string(), singer.to_string())
}

#[test]
fn relative_path_uses_forward_slashes() {
    let dir = "/music";
    let file = "/music/album/a.mp3";
    assert_eq!(relative_path(dir, file).as_deref(), Some("album/a.mp3"));
    assert!(relative_path(dir, "/elsewhere/a.mp3").is_none());
}

#[test]
fn relative_path_is_none_for_the_directory_itself() {
    assert!(relative_path("/music", "/music").is_none());
    assert!(relative_path("/music/", "/music").is_none());
    assert_eq!(relative_path("/music/", "/music//a/./b.mp3").as_deref(), Some("a/b.mp3"));
}

#[test]
fn song_key_normalizes_whitespace_and_control_characters() {
    assert_eq!(DownloadRecords::song_key("  周杰伦 ", "晴天\u{7f}"), "周杰伦 - 晴天");
    assert_eq!(DownloadRecords::song_key("", ""), "Unknown - Unknown");
    assert_eq!(song_key("a\u{1}b", " c "), "ab - c");
    assert_eq!(clean_text("\t x \n"), "x");
}

#[test]
fn failed_downloads_are_recorded_without_becoming_dedup_entries() {
    let mut store = DownloadRecords::from_records(Vec::new());
    store.record(DownloadRecord::new(
        &song("晴天", "周杰伦"),
        DownloadStatus::Failed,
        None,
        Some("获取播放地址失败".to_string()),
        1,
    ));
    let recent = store.recent(10);
    assert_eq!(recent.len(), 1);
    assert_eq!(recent[0].status, DownloadStatus::Failed);
    assert!(store.dedup_path(&song("晴天", "周杰伦")).is_none());
}

#[test]
fn records_keep_newest_first_and_feed_the_index() {
    let mut store = DownloadRecords::from_records(Vec::new());
    store.record(DownloadRecord::new(&song("第一首", "歌手"), DownloadStatus::Done, Some("第一首.mp3".to_string()), None, 1));
    store.record(DownloadRecord::new(&song("第二首", "歌手"), DownloadStatus::Failed, None, Some("下载失败".to_string()), 2));
    let recent = store.recent(10);
    assert_eq!(recent.len(), 2);
    assert_eq!(recent[0].name, "第二首");
    assert_eq!(recent[1].name, "第一首");
    assert_eq!(store.recent(1).len(), 1);
    assert_eq!(store.dedup_path(&song("第一首", "歌手")).as_deref(), Some("第一首.mp3"));
    let reloaded = DownloadRecords::from_records(store.records().clone());
    assert_eq!(reloaded.dedup_path(&song("第一首", "歌手")).as_deref(), Some("第一首.mp3"));
    store.forget(&song("第一首", "歌手"));
    assert!(store.dedup_path(&song("第一首", "歌手")).is_none());
    assert_eq!(store.len(), 2);
    store.clear();
    assert_eq!(store.len(), 0);
}

#[test]
fn old_records_beyond_the_limit_are_dropped() {
    let records: Vec<DownloadRecord> = (0..205)
        .map(|i| DownloadRecord::new(&song(&format!("s{i}"), "a"), DownloadStatus::Done, Some(format!("s{i}.mp3")), None, i))
        .collect();
    let store = DownloadRecords::from_records(records);
    assert_eq!(store.len(), 200);
    assert_eq!(store.recent(1)[0].name, "s204");
    assert!(store.dedup_path(&song("s4", "a")).is_none());
    assert!(store.dedup_path(&song("s5", "a")).is_some());
}

#[test]
fn later_records_win_in_the_index() {
    let records = vec![
        DownloadRecord::new(&song("x", "y"), DownloadStatus::Done, Some("old.mp3".into()), None, 1),
        DownloadRecord::new(&song("x", "y"), DownloadStatus::Skipped, Some("new.mp3".into()), None, 2),
        DownloadRecord::new(&song("x", "y"), DownloadStatus::Done, Some(String::new()), None, 3),
    ];
    let index: PathIndex = build_dedup(&records);
    assert_eq!(index.get("y - x").as_deref(), Some("new.mp3"));
    assert_eq!(DownloadStatus::Done.label(), "成功");
    assert_eq!(DownloadStatus::Skipped.label(), "跳过");
    assert_eq!(DownloadStatus::Failed.label(), "失败");
}

#[test]
fn clearing_empties_records_and_the_index() {
    let mut store = DownloadRecords::from_records(Vec::new());
    store.record(DownloadRecord::new(&song("晴天", "周杰伦"), DownloadStatus::Done, Some("晴天.mp3".to_string()), None, 1));
    assert_eq!(store.dedup_path(&song("晴天", "周杰伦")).as_deref(), Some("晴天.mp3"));
    store.clear();
    assert_eq!(store.len(), 0);
    assert!(store.dedup_path(&song("晴天", "周杰伦")).is_none());
}

#[test]
fn a_forgotten_song_can_be_recorded_again() {
    let mut store = DownloadRecords::from_records(Vec::new());
    store.record(DownloadRecord::new(&song("晴天", "周杰伦"), DownloadStatus::Done, Some("周杰伦 - 晴天.flac".to_string()), None, 1));
    store.forget(&song("晴天", "周杰伦"));
    assert!(store.dedup_path(&song("晴天", "周杰伦")).is_none());
    assert_eq!(store.len(), 1);
    store.record(DownloadRecord::new(&song("晴天", "周杰伦"), DownloadStatus::Done, Some("周杰伦 - 晴天.flac".to_string()), None, 2));
    assert_eq!(store.dedup_path(&song("晴天", "周杰伦")).as_deref(), Some("周杰伦 - 晴天.flac"));
}

#[test]
fn a_recorded_download_is_found_again() {
    let mut store = DownloadRecords::from_records(Vec::new());
    for i in 0..250i64 {
        store.record(DownloadRecord::new(&song(&format!("歌{i}"), "歌手"), DownloadStatus::Done, Some(format!("{i}.mp3")), None, i));
    }
    store.record(DownloadRecord::new(&song("晴天", "周杰伦"), DownloadStatus::Skipped, Some("晴天.flac".to_string()), None, 999));
    assert_eq!(store.dedup_path(&song("晴天", "周杰伦")).as_deref(), Some("晴天.flac"));
    assert_eq!(store.len(), 200);
}

#[test]
fn relative_path_from_an_empty_directory_keeps_the_whole_path() {
    assert_eq!(relative_path("", "music/a.mp3").as_deref(), Some("music/a.mp3"));
    assert_eq!(relative_path("", "/a.mp3").as_deref(), Some("//a.mp3"));
    assert_eq!(relative_path("", "./a.mp3").as_deref(), Some("./a.mp3"));
}
