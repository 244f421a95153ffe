use voicefox::navigation::{
    delete_confirmation_action, format_clock, nav_page_scope, next_generation, next_list_index,
    playback_restore_flags, previous_list_index, should_go_to_main, should_retransmit_cover,
    should_scan_local_music_on_entry, ClickTracker, DeleteConfirmationAction, NavTab,
    SavedPlayerState, PlayStep, resume_step, toggle_step, volume_update,
};
use voicefox::pages::status_bar::PlayerState;
use voicefox::pages::input::{KeyCode, KeyEvent, KeyModifiers, MouseEvent, MouseEventKind};

#[test]
fn local_list_navigation_wraps_at_both_ends() {
    assert_eq!(previous_list_index(0, 4, true), 3);
    assert_eq!(next_list_index(3, 4, true), 0);
    assert_eq!(previous_list_index(0, 4, false), 0);
    assert_eq!(next_list_index(3, 4, false), 3);
}

#[test]
fn stopped_sessions_restore_the_queue_without_loading_libmpv_media() {
    assert_eq!(playback_restore_flags(SavedPlayerState::Playing), (true, false));
    assert_eq!(playback_restore_flags(SavedPlayerState::Paused), (true, true));
    assert_eq!(playback_restore_flags(SavedPlayerState::Stopped), (false, false));
}

#[test]
fn local_delete_confirmation_accepts_terminal_shift_variants() {
    for key in [
        KeyEvent::new(KeyCode::Char('y'), KeyModifiers::none()),
        KeyEvent::new(KeyCode::Char('Y'), KeyModifiers::shift()),
        KeyEvent::new(KeyCode::Char('Y'), KeyModifiers::none()),
    ] {
        assert_eq!(delete_confirmation_action(&key), DeleteConfirmationAction::Confirm);
    }
    for key in [
        KeyEvent::new(KeyCode::Char('n'), KeyModifiers::none()),
        KeyEvent::new(KeyCode::Char('N'), KeyModifiers::shift()),
        KeyEvent::new(KeyCode::Esc, KeyModifiers::none()),
    ] {
        assert_eq!(delete_confirmation_action(&key), DeleteConfirmationAction::Cancel);
    }
    assert_eq!(
        delete_confirmation_action(&KeyEvent::new(KeyCode::Esc, KeyModifiers::shift())),
        DeleteConfirmationAction::Ignore
    );
}

#[test]
fn playlist_overlays_and_open_lists_receive_escape_before_global_navigation() {
    assert!(!should_go_to_main(NavTab::Playlists, true, false, false));
    assert!(!should_go_to_main(NavTab::Playlists, false, true, false));
    assert!(should_go_to_main(NavTab::Playlists, false, false, false));
}

#[test]
fn entering_empty_local_music_page_starts_scan() {
    assert!(should_scan_local_music_on_entry(NavTab::History, NavTab::LocalMusic, true, true, true, false));
}

#[test]
fn local_music_entry_does_not_start_invalid_or_duplicate_scan() {
    for (enabled, has_paths, songs_empty, is_scanning) in [
        (false, true, true, false),
        (true, false, true, false),
        (true, true, false, false),
        (true, true, true, true),
    ] {
        assert!(!should_scan_local_music_on_entry(
            NavTab::History,
            NavTab::LocalMusic,
            enabled,
            has_paths,
            songs_empty,
            is_scanning,
        ));
    }
    assert!(!should_scan_local_music_on_entry(NavTab::LocalMusic, NavTab::LocalMusic, true, true, true, false));
}

#[test]
fn list_moves_round_trip_with_wrapping() {
    for len in 1..6usize {
        for i in 0..len {
            assert_eq!(previous_list_index(next_list_index(i, len, true), len, true), i);
            assert_eq!(next_list_index(previous_list_index(i, len, true), len, true), i);
        }
    }
    assert_eq!(next_list_index(0, 0, true), 0);
}

#[test]
fn small_main_loop_decisions() {
    assert_eq!(nav_page_scope(NavTab::LocalMusic), "local");
    assert!(should_retransmit_cover(2000));
    assert!(!should_retransmit_cover(1999));
    assert_eq!(format_clock(65), "01:05");
    assert_eq!(format_clock(6000), "100:00");
    let mut g = 7u64;
    assert_eq!(next_generation(&mut g), 8);
    assert_eq!(g, 8);
}

#[test]
fn double_clicks_need_the_same_cell_within_half_a_second() {
    let mut t = ClickTracker::new();
    let click = MouseEvent { kind: MouseEventKind::LeftDown, column: 3, row: 4 };
    assert!(!t.is_double_click(click, 1000));
    assert!(t.is_double_click(click, 1400));
    assert!(!t.is_double_click(click, 1500));
    assert!(!t.is_double_click(click, 2100));
    let other = MouseEvent { kind: MouseEventKind::LeftDown, column: 9, row: 4 };
    assert!(!t.is_double_click(other, 2200));
}

#[test]
fn play_key_pauses_resumes_or_starts() {
    assert_eq!(toggle_step(PlayerState::Playing), PlayStep::Pause);
    assert_eq!(toggle_step(PlayerState::Loading), PlayStep::Pause);
    assert_eq!(toggle_step(PlayerState::Paused), PlayStep::Resume);
    assert_eq!(toggle_step(PlayerState::Idle), PlayStep::StartCurrent);
    assert_eq!(toggle_step(PlayerState::Stopped), PlayStep::StartCurrent);
}

#[test]
fn resume_key_leaves_a_playing_song_alone() {
    assert_eq!(resume_step(PlayerState::Playing), PlayStep::Nothing);
    assert_eq!(resume_step(PlayerState::Loading), PlayStep::Nothing);
    assert_eq!(resume_step(PlayerState::Paused), PlayStep::Resume);
    assert_eq!(resume_step(PlayerState::Stopped), PlayStep::StartCurrent);
}

#[test]
fn volume_is_capped_and_saved_only_when_changed() {
    assert_eq!(volume_update(50, 150), (100, true));
    assert_eq!(volume_update(100, 150), (100, false));
    assert_eq!(volume_update(40, 40), (40, false));
    assert_eq!(volume_update(40, 0), (0, true));
}
