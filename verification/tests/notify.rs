use voicefox::notify::{notification_timeout_secs, notification_title, utf16_array, Notification, NotificationCenter};

fn decoded<const N: usize>(value: &[u16; N]) -> String {
    let end = value.iter().position(|unit| *unit == 0).unwrap_or(N);
    String::from_utf16(&value[..end]).unwrap()
}

#[test]
fn utf16_writer_handles_empty_and_ascii_text() {
    let empty: [u16; 4] = utf16_array("");
    assert_eq!(empty, [0; 4]);

    let ascii: [u16; 5] = utf16_array("test");
    assert_eq!(decoded(&ascii), "test");
    assert_eq!(ascii[4], 0);
}

#[test]
fn utf16_writer_truncates_on_character_boundaries() {
    let chinese: [u16; 4] = utf16_array("中文测试");
    assert_eq!(decoded(&chinese), "中文测");

    let surrogate: [u16; 4] = utf16_array("A😀B");
    assert_eq!(decoded(&surrogate), "A😀");
    assert_eq!(surrogate[3], 0);
}

#[test]
fn utf16_writer_with_no_room() {
    let none: [u16; 0] = utf16_array("abc");
    assert_eq!(none.len(), 0);
    let one: [u16; 1] = utf16_array("abc");
    assert_eq!(one, [0]);
}

#[test]
fn notification_title_uses_explicit_title_or_level() {
    let explicit = Notification::info("body").with_title("title");
    assert_eq!(notification_title(&explicit), "title");
    assert_eq!(notification_title(&Notification::warning("body")), "voicefox · 警告");
    assert_eq!(notification_title(&Notification::info("body")), "voicefox");
    assert_eq!(notification_title(&Notification::error("body")), "voicefox · 错误");
    assert_eq!(notification_title(&Notification::success("body")), "voicefox · 成功");
}

#[test]
fn the_center_keeps_the_eight_newest() {
    let mut center = NotificationCenter::new();
    assert!(center.newest().is_none());
    for i in 0..10 {
        center.push(Notification::info(&format!("n{i}")));
    }
    assert_eq!(center.len(), 8);
    assert_eq!(center.newest().map(|n| n.message.as_str()), Some("n9"));
    assert!(center.dismiss());
    assert_eq!(center.newest().map(|n| n.message.as_str()), Some("n8"));
    assert_eq!(center.len(), 7);
}

#[test]
fn dismissing_an_empty_center_reports_nothing() {
    let mut center = NotificationCenter::new();
    assert!(!center.dismiss());
    center.push(Notification::warning("w"));
    assert!(center.dismiss());
    assert_eq!(center.len(), 0);
}

#[test]
fn the_toast_timeout_stays_between_one_second_and_a_minute() {
    assert_eq!(notification_timeout_secs(0), 1);
    assert_eq!(notification_timeout_secs(5), 5);
    assert_eq!(notification_timeout_secs(600), 60);
}
