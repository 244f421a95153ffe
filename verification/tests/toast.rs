use voicefox::notify::Notification;
use voicefox::pages::geometry::Rect;
use voicefox::pages::toast::{action_url_at, toast_area};

fn with_action(message: &str) -> Notification {
    let mut n = Notification::info(message).with_title("T");
    n.action_label = Some("Open".to_string());
    n.action_url = Some("https://example.com".to_string());
    n
}

#[test]
fn a_short_toast_sits_in_the_bottom_right_corner() {
    let screen = Rect::new(0, 0, 100, 30);
    let n = Notification::info("hello");
    assert_eq!(toast_area(screen, true, Some(&n)), Some(Rect::new(71, 25, 28, 3)));
}

#[test]
fn title_and_action_add_rows() {
    let screen = Rect::new(0, 0, 100, 30);
    let n = with_action("hello");
    assert_eq!(toast_area(screen, true, Some(&n)), Some(Rect::new(71, 23, 28, 5)));
}

#[test]
fn no_toast_when_off_missing_or_screen_too_small() {
    let n = Notification::info("hello");
    assert_eq!(toast_area(Rect::new(0, 0, 100, 30), false, Some(&n)), None);
    assert_eq!(toast_area(Rect::new(0, 0, 100, 30), true, None), None);
    assert_eq!(toast_area(Rect::new(0, 0, 11, 30), true, Some(&n)), None);
    assert_eq!(toast_area(Rect::new(0, 0, 100, 3), true, Some(&n)), None);
}

#[test]
fn long_messages_wrap_and_are_cut_to_the_screen() {
    let screen = Rect::new(0, 0, 100, 10);
    let long = Notification::info(&"x".repeat(200));
    assert_eq!(toast_area(screen, true, Some(&long)), Some(Rect::new(27, 3, 72, 5)));
    let huge = Notification::info(&"x".repeat(1000));
    assert_eq!(toast_area(screen, true, Some(&huge)), Some(Rect::new(27, 0, 72, 9)));
}

#[test]
fn the_action_button_spans_the_label_and_four_columns_on_the_last_row() {
    let area = Rect::new(71, 23, 28, 5);
    let n = with_action("hello");
    assert_eq!(action_url_at(area, 72, 26, Some(&n)), Some("https://example.com".to_string()));
    assert_eq!(action_url_at(area, 79, 26, Some(&n)), Some("https://example.com".to_string()));
    assert_eq!(action_url_at(area, 80, 26, Some(&n)), None);
    assert_eq!(action_url_at(area, 72, 25, Some(&n)), None);
    assert_eq!(action_url_at(area, 72, 26, Some(&Notification::info("hello"))), None);
    assert_eq!(action_url_at(area, 72, 26, None), None);
}
