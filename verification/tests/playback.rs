use voicefox::playback::{now_playing_notice, playback_step, reload_cover, PlayPhase, PlaybackAction, PlaybackEvent, PlaybackPlan};

fn begin(plan: &mut PlaybackPlan, downloaded: Option<&str>, source: &str) -> PlaybackAction {
    playback_step(plan, PlaybackEvent::Begin { downloaded: downloaded.map(|s| s.to_string()), source: source.to_string() })
}

#[test]
fn a_downloaded_copy_is_played_first() {
    let mut plan = PlaybackPlan::new(7, true, None, 0, None);
    assert_eq!(begin(&mut plan, Some("/music/a.flac"), "kw"), PlaybackAction::Play { url: "/music/a.flac".to_string() });
    assert_eq!(plan.phase, PlayPhase::Starting);
}

#[test]
fn the_own_source_is_resolved_then_played() {
    let mut plan = PlaybackPlan::new(7, true, None, 0, None);
    assert_eq!(begin(&mut plan, None, "kw"), PlaybackAction::ResolveDirect { js_start: 0 });
    let a = playback_step(
        &mut plan,
        PlaybackEvent::DirectResolved { request_id: 7, result: Ok(("http://x/a.mp3".to_string(), Some(2))), cue_start: Some("1500".to_string()) },
    );
    assert_eq!(a, PlaybackAction::Play { url: "http://x/a.mp3".to_string() });
    assert_eq!(plan.js_index, Some(2));
    assert_eq!(
        playback_step(&mut plan, PlaybackEvent::Started { request_id: 7, accepted: true }),
        PlaybackAction::AfterStart { seek_ms: Some(1500), pause: false, fade_in_ms: None }
    );
}

#[test]
fn stale_events_change_nothing() {
    let mut plan = PlaybackPlan::new(7, true, None, 0, None);
    let _ = begin(&mut plan, None, "kw");
    let a = playback_step(&mut plan, PlaybackEvent::TimedOut { request_id: 6 });
    assert_eq!(a, PlaybackAction::Wait);
    assert_eq!(plan.phase, PlayPhase::Direct);
}

#[test]
fn without_switching_a_direct_failure_ends_the_request() {
    let mut plan = PlaybackPlan::new(1, false, None, 0, None);
    let _ = begin(&mut plan, None, "kw");
    let a = playback_step(&mut plan, PlaybackEvent::DirectResolved { request_id: 1, result: Err("403".to_string()), cue_start: None });
    assert_eq!(a, PlaybackAction::Fail { error: "获取播放地址失败: 403".to_string() });
}

#[test]
fn other_sources_are_each_tried_once() {
    let mut plan = PlaybackPlan::new(1, true, None, 0, None);
    let _ = begin(&mut plan, None, "kw");
    let a = playback_step(&mut plan, PlaybackEvent::DirectResolved { request_id: 1, result: Err("403".to_string()), cue_start: None });
    assert_eq!(a, PlaybackAction::SearchCandidates);
    assert_eq!(playback_step(&mut plan, PlaybackEvent::Candidate { request_id: 1, source: "kw".to_string() }), PlaybackAction::NextCandidate);
    assert_eq!(playback_step(&mut plan, PlaybackEvent::Candidate { request_id: 1, source: "tx".to_string() }), PlaybackAction::ResolveCandidate);
    let a = playback_step(&mut plan, PlaybackEvent::CandidateResolved { request_id: 1, result: Err("x".to_string()), cue_start: None });
    assert_eq!(a, PlaybackAction::NextCandidate);
    assert_eq!(playback_step(&mut plan, PlaybackEvent::Candidate { request_id: 1, source: "tx".to_string() }), PlaybackAction::NextCandidate);
    assert_eq!(
        playback_step(&mut plan, PlaybackEvent::CandidatesExhausted { request_id: 1 }),
        PlaybackAction::Fail { error: "获取播放地址失败，换源后仍不可用: 403".to_string() }
    );
}

#[test]
fn a_tried_source_fails_the_direct_step_and_a_retry_moves_on() {
    let mut plan = PlaybackPlan::new(1, false, None, 0, None);
    let _ = begin(&mut plan, None, "kw");
    let carried = Some((plan.attempted, None));
    let mut again = PlaybackPlan::new(2, false, None, 0, carried);
    assert_eq!(begin(&mut again, None, "kw"), PlaybackAction::Fail { error: "获取播放地址失败: 音源 kw 已尝试".to_string() });
    let mut retry = PlaybackPlan::new(3, false, None, 0, Some((voicefox::download::manager::KeySet::new(), Some(4))));
    assert_eq!(begin(&mut retry, None, "kw"), PlaybackAction::ResolveDirect { js_start: 5 });
}

#[test]
fn a_restored_session_seeks_pauses_and_skips_the_fade() {
    let mut plan = PlaybackPlan::new(1, true, Some((90_000, true)), 800, None);
    let _ = begin(&mut plan, Some("/a.mp3"), "kw");
    assert_eq!(
        playback_step(&mut plan, PlaybackEvent::Started { request_id: 1, accepted: true }),
        PlaybackAction::AfterStart { seek_ms: Some(90_000), pause: true, fade_in_ms: None }
    );
    let mut plan = PlaybackPlan::new(1, true, None, 800, None);
    let _ = begin(&mut plan, Some("/a.mp3"), "kw");
    assert_eq!(
        playback_step(&mut plan, PlaybackEvent::Started { request_id: 1, accepted: true }),
        PlaybackAction::AfterStart { seek_ms: None, pause: false, fade_in_ms: Some(800) }
    );
}

#[test]
fn covers_and_notices() {
    assert!(reload_cover(true, &Some("b".to_string()), &Some("a".to_string())));
    assert!(!reload_cover(true, &Some("a".to_string()), &Some("a".to_string())));
    assert!(!reload_cover(false, &Some("b".to_string()), &None));
    assert_eq!(now_playing_notice("晴天", "周杰伦", "kw"), ("正在播放: 晴天".to_string(), "晴天 - 周杰伦 [kw]".to_string()));
}
