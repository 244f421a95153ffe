//! Starting a song: a downloaded copy is played first; otherwise the song's
//! own source is resolved, then (with source switching on) the matches on
//! other sources, each source tried once per request; once the player takes
//! the URL, a restored session or a cue sheet sets the position.

use vstd::prelude::*;
use crate::download::manager::KeySet;
use crate::text::{parse_u64, parse_u64_spec, push_str, string_of};

verus! {

broadcast use vstd::string::group_string_axioms;

/// Where starting a song stands.
#[derive(Debug, Clone, Copy, PartialEq, Eq, Structural)]
pub enum PlayPhase {
    /// Not begun.
    Idle,
    /// Resolving the song on its own source.
    Direct,
    /// Trying the same song on other sources.
    Searching,
    /// Waiting for the player to take the URL.
    Starting,
    /// Playing.
    Playing,
    /// Given up or superseded.
    Over,
}

/// The state of one play request.
pub struct PlaybackPlan {
    /// The request this plan belongs to; events of other requests are stale.
    pub request_id: u64,
    pub phase: PlayPhase,
    /// Sources already tried for this song.
    pub attempted: KeySet,
    /// The script source that gave the last URL, if any.
    pub js_index: Option<usize>,
    /// Whether other sources may be tried.
    pub auto_toggle: bool,
    /// A restored session's position in milliseconds and whether it was paused.
    pub restored: Option<(u64, bool)>,
    pub fade_in_ms: u64,
    /// Where the resolved song starts within its file (a cue sheet track).
    pub cue_start_ms: Option<u64>,
    /// Why the song's own source failed.
    pub direct_error: String,
}

/// A play request as values.
pub struct PlanView {
    pub request_id: u64,
    pub phase: PlayPhase,
    pub attempted: Set<Seq<char>>,
    pub js_index: Option<usize>,
    pub auto_toggle: bool,
    pub restored: Option<(u64, bool)>,
    pub fade_in_ms: u64,
    pub cue_start_ms: Option<u64>,
    pub direct_error: Seq<char>,
}

impl View for PlaybackPlan {
    type V = PlanView;

    open spec fn view(&self) -> PlanView {
        PlanView {
            request_id: self.request_id,
            phase: self.phase,
            attempted: self.attempted@,
            js_index: self.js_index,
            auto_toggle: self.auto_toggle,
            restored: self.restored,
            fade_in_ms: self.fade_in_ms,
            cue_start_ms: self.cue_start_ms,
            direct_error: self.direct_error@,
        }
    }
}

/// A resolved URL and the script source that gave it, or why none came.
pub type Resolution = Result<(String, Option<usize>), String>;

/// What happened since the last step of a play request.
pub enum PlaybackEvent {
    /// The request begins; `downloaded` is a downloaded copy of the song,
    /// `source` the song's own source.
    Begin { downloaded: Option<String>, source: String },
    /// The song's own source answered; `cue_start` is the song's cue start
    /// as its source gives it.
    DirectResolved { request_id: u64, result: Resolution, cue_start: Option<String> },
    /// The next match of the song on another source.
    Candidate { request_id: u64, source: String },
    /// That match answered.
    CandidateResolved { request_id: u64, result: Resolution, cue_start: Option<String> },
    /// No match is left.
    CandidatesExhausted { request_id: u64 },
    /// Resolving took too long.
    TimedOut { request_id: u64 },
    /// The player took the URL, or refused it.
    Started { request_id: u64, accepted: bool },
}

/// A resolution as values.
pub enum ResolutionView {
    Found { url: Seq<char>, js_index: Option<usize> },
    Failed { error: Seq<char> },
}

pub open spec fn resolution_view(r: Resolution) -> ResolutionView {
    match r {
        Ok((url, js)) => ResolutionView::Found { url: url@, js_index: js },
        Err(e) => ResolutionView::Failed { error: e@ },
    }
}

pub open spec fn opt_view(o: Option<String>) -> Option<Seq<char>> {
    match o {
        Some(s) => Some(s@),
        None => None,
    }
}

/// A play event as values.
pub enum PlayEventView {
    Begin { downloaded: Option<Seq<char>>, source: Seq<char> },
    DirectResolved { request_id: u64, result: ResolutionView, cue_start: Option<Seq<char>> },
    Candidate { request_id: u64, source: Seq<char> },
    CandidateResolved { request_id: u64, result: ResolutionView, cue_start: Option<Seq<char>> },
    CandidatesExhausted { request_id: u64 },
    TimedOut { request_id: u64 },
    Started { request_id: u64, accepted: bool },
}

impl View for PlaybackEvent {
    type V = PlayEventView;

    open spec fn view(&self) -> PlayEventView {
        match self {
            PlaybackEvent::Begin { downloaded, source } => PlayEventView::Begin {
                downloaded: opt_view(*downloaded),
                source: source@,
            },
            PlaybackEvent::DirectResolved { request_id, result, cue_start } => PlayEventView::DirectResolved {
                request_id: *request_id,
                result: resolution_view(*result),
                cue_start: opt_view(*cue_start),
            },
            PlaybackEvent::Candidate { request_id, source } => PlayEventView::Candidate {
                request_id: *request_id,
                source: source@,
            },
            PlaybackEvent::CandidateResolved { request_id, result, cue_start } => PlayEventView::CandidateResolved {
                request_id: *request_id,
                result: resolution_view(*result),
                cue_start: opt_view(*cue_start),
            },
            PlaybackEvent::CandidatesExhausted { request_id } => PlayEventView::CandidatesExhausted {
                request_id: *request_id,
            },
            PlaybackEvent::TimedOut { request_id } => PlayEventView::TimedOut { request_id: *request_id },
            PlaybackEvent::Started { request_id, accepted } => PlayEventView::Started {
                request_id: *request_id,
                accepted: *accepted,
            },
        }
    }
}

/// What the request asks for next.
#[derive(Debug, Clone, PartialEq, Eq)]
pub enum PlaybackAction {
    /// Hand `url` to the player.
    Play { url: String },
    /// Resolve the song on its own source from script source `js_start`.
    ResolveDirect { js_start: usize },
    /// Look the song up on the other sources.
    SearchCandidates,
    /// Resolve the match just offered.
    ResolveCandidate,
    /// Offer the next match.
    NextCandidate,
    /// Report that playing failed.
    Fail { error: String },
    /// Playing began: seek (milliseconds), pause, and fade in (milliseconds).
    AfterStart { seek_ms: Option<u64>, pause: bool, fade_in_ms: Option<u64> },
    /// Nothing to do.
    Wait,
}

/// A play action as values.
pub enum PlayActionView {
    Play { url: Seq<char> },
    ResolveDirect { js_start: usize },
    SearchCandidates,
    ResolveCandidate,
    NextCandidate,
    Fail { error: Seq<char> },
    AfterStart { seek_ms: Option<u64>, pause: bool, fade_in_ms: Option<u64> },
    Wait,
}

impl View for PlaybackAction {
    type V = PlayActionView;

    open spec fn view(&self) -> PlayActionView {
        match self {
            PlaybackAction::Play { url } => PlayActionView::Play { url: url@ },
            PlaybackAction::ResolveDirect { js_start } => PlayActionView::ResolveDirect { js_start: *js_start },
            PlaybackAction::SearchCandidates => PlayActionView::SearchCandidates,
            PlaybackAction::ResolveCandidate => PlayActionView::ResolveCandidate,
            PlaybackAction::NextCandidate => PlayActionView::NextCandidate,
            PlaybackAction::Fail { error } => PlayActionView::Fail { error: error@ },
            PlaybackAction::AfterStart { seek_ms, pause, fade_in_ms } => PlayActionView::AfterStart {
                seek_ms: *seek_ms,
                pause: *pause,
                fade_in_ms: *fade_in_ms,
            },
            PlaybackAction::Wait => PlayActionView::Wait,
        }
    }
}

/// The song's own source failed with `e`: without source switching the
/// request fails, else the other sources are searched.
pub open spec fn direct_failed_spec(p: PlanView, e: Seq<char>) -> (PlanView, PlayActionView) {
    if !p.auto_toggle {
        (
            PlanView { phase: PlayPhase::Over, direct_error: e, ..p },
            PlayActionView::Fail { error: "获取播放地址失败: "@ + e },
        )
    } else {
        (PlanView { phase: PlayPhase::Searching, direct_error: e, ..p }, PlayActionView::SearchCandidates)
    }
}

/// A URL was found: remember its script source and cue start, and play it.
pub open spec fn found_spec(p: PlanView, url: Seq<char>, js: Option<usize>, cue: Option<Seq<char>>) -> (PlanView, PlayActionView) {
    (
        PlanView {
            phase: PlayPhase::Starting,
            js_index: js,
            cue_start_ms: match cue {
                Some(c) => parse_u64_spec(c),
                None => None,
            },
            ..p
        },
        PlayActionView::Play { url },
    )
}

/// The request of an event, if it names one.
pub open spec fn event_request(e: PlayEventView) -> Option<u64> {
    match e {
        PlayEventView::Begin { .. } => None,
        PlayEventView::DirectResolved { request_id, .. } => Some(request_id),
        PlayEventView::Candidate { request_id, .. } => Some(request_id),
        PlayEventView::CandidateResolved { request_id, .. } => Some(request_id),
        PlayEventView::CandidatesExhausted { request_id } => Some(request_id),
        PlayEventView::TimedOut { request_id } => Some(request_id),
        PlayEventView::Started { request_id, .. } => Some(request_id),
    }
}

/// One step of a play request. Events of another request change nothing.
/// Beginning, a downloaded copy is played at once. Otherwise the song's
/// own source is resolved: from the script source after the last one when
/// retrying, else only if that source was not tried yet (it is then marked
/// tried; a source tried before fails the direct step). A direct failure
/// ends the request unless source switching is on, when each offered match
/// on a source not tried yet is resolved (and its source marked); when no
/// match is left the request fails. Once the player takes the URL, a
/// restored session seeks to its position (and pauses if it was paused),
/// else a cue start is sought; a fade-in runs unless the session is
/// restored paused.
pub open spec fn playback_step_spec(p: PlanView, e: PlayEventView) -> (PlanView, PlayActionView) {
    if event_request(e) is Some && event_request(e) != Some(p.request_id) {
        (p, PlayActionView::Wait)
    } else {
        match (p.phase, e) {
            (PlayPhase::Idle, PlayEventView::Begin { downloaded, source }) => match downloaded {
                Some(path) => (
                    PlanView { phase: PlayPhase::Starting, cue_start_ms: None, ..p },
                    PlayActionView::Play { url: path },
                ),
                None => {
                    let retrying = p.js_index matches Some(i) && i < usize::MAX;
                    if retrying {
                        (
                            PlanView { phase: PlayPhase::Direct, ..p },
                            PlayActionView::ResolveDirect { js_start: (p.js_index->0 + 1) as usize },
                        )
                    } else if !p.attempted.contains(source) {
                        (
                            PlanView { phase: PlayPhase::Direct, attempted: p.attempted.insert(source), ..p },
                            PlayActionView::ResolveDirect { js_start: 0 },
                        )
                    } else {
                        direct_failed_spec(p, "音源 "@ + source + " 已尝试"@)
                    }
                },
            },
            (PlayPhase::Direct, PlayEventView::DirectResolved { result, cue_start, .. }) => match result {
                ResolutionView::Found { url, js_index } => found_spec(p, url, js_index, cue_start),
                ResolutionView::Failed { error } => direct_failed_spec(p, error),
            },
            (PlayPhase::Searching, PlayEventView::Candidate { source, .. }) => if !p.attempted.contains(source) {
                (PlanView { attempted: p.attempted.insert(source), ..p }, PlayActionView::ResolveCandidate)
            } else {
                (p, PlayActionView::NextCandidate)
            },
            (PlayPhase::Searching, PlayEventView::CandidateResolved { result, cue_start, .. }) => match result {
                ResolutionView::Found { url, js_index } => found_spec(p, url, js_index, cue_start),
                ResolutionView::Failed { .. } => (p, PlayActionView::NextCandidate),
            },
            (PlayPhase::Searching, PlayEventView::CandidatesExhausted { .. }) => (
                PlanView { phase: PlayPhase::Over, ..p },
                PlayActionView::Fail { error: "获取播放地址失败，换源后仍不可用: "@ + p.direct_error },
            ),
            (PlayPhase::Direct, PlayEventView::TimedOut { .. }) | (PlayPhase::Searching, PlayEventView::TimedOut { .. }) => (
                PlanView { phase: PlayPhase::Over, ..p },
                PlayActionView::Fail { error: "获取播放地址超时，请稍后重试"@ },
            ),
            (PlayPhase::Starting, PlayEventView::Started { accepted, .. }) => if !accepted {
                (PlanView { phase: PlayPhase::Over, ..p }, PlayActionView::Wait)
            } else {
                (
                    PlanView { phase: PlayPhase::Playing, ..p },
                    PlayActionView::AfterStart {
                        seek_ms: match p.restored {
                            Some((pos, _)) => Some(pos),
                            None => p.cue_start_ms,
                        },
                        pause: p.restored matches Some((_, paused)) && paused,
                        fade_in_ms: if p.fade_in_ms > 0 && !(p.restored matches Some((_, paused)) && paused) {
                            Some(p.fade_in_ms)
                        } else {
                            None
                        },
                    },
                )
            },
            _ => (p, PlayActionView::Wait),
        }
    }
}

impl PlaybackPlan {
    /// A new request; `carried` keeps the sources already tried and the
    /// last script source of a retry of the same song.
    pub fn new(
        request_id: u64,
        auto_toggle: bool,
        restored: Option<(u64, bool)>,
        fade_in_ms: u64,
        carried: Option<(KeySet, Option<usize>)>,
    ) -> (p: Self)
        ensures
            p@ == (PlanView {
                request_id,
                phase: PlayPhase::Idle,
                attempted: match carried {
                    Some((s, _)) => s@,
                    None => Set::empty(),
                },
                js_index: match carried {
                    Some((_, j)) => j,
                    None => None,
                },
                auto_toggle,
                restored,
                fade_in_ms,
                cue_start_ms: None,
                direct_error: Seq::empty(),
            }),
    {
        let (attempted, js_index) = match carried {
            Some((s, j)) => (s, j),
            None => (KeySet::new(), None),
        };
        PlaybackPlan {
            request_id,
            phase: PlayPhase::Idle,
            attempted,
            js_index,
            auto_toggle,
            restored,
            fade_in_ms,
            cue_start_ms: None,
            direct_error: String::new(),
        }
    }

    fn direct_failed(&mut self, e: String) -> (a: PlaybackAction)
        ensures
            (final(self)@, a@) == direct_failed_spec(old(self)@, e@),
    {
        self.direct_error = e.clone();
        if !self.auto_toggle {
            self.phase = PlayPhase::Over;
            let mut m = string_of("获取播放地址失败: ");
            push_str(&mut m, e.as_str());
            PlaybackAction::Fail { error: m }
        } else {
            self.phase = PlayPhase::Searching;
            PlaybackAction::SearchCandidates
        }
    }

    fn found(&mut self, url: String, js: Option<usize>, cue: Option<String>) -> (a: PlaybackAction)
        ensures
            (final(self)@, a@) == found_spec(old(self)@, url@, js, opt_view(cue)),
    {
        self.phase = PlayPhase::Starting;
        self.js_index = js;
        self.cue_start_ms = match cue {
            Some(c) => parse_u64(c.as_str()),
            None => None,
        };
        PlaybackAction::Play { url }
    }

}

/// Advances the request by one event and says what to do next.
pub fn playback_step(plan: &mut PlaybackPlan, event: PlaybackEvent) -> (a: PlaybackAction)
    ensures
        (final(plan)@, a@) == playback_step_spec(old(plan)@, event@),
{
    let stale = match &event {
        PlaybackEvent::Begin { .. } => false,
        PlaybackEvent::DirectResolved { request_id, .. } => *request_id != plan.request_id,
        PlaybackEvent::Candidate { request_id, .. } => *request_id != plan.request_id,
        PlaybackEvent::CandidateResolved { request_id, .. } => *request_id != plan.request_id,
        PlaybackEvent::CandidatesExhausted { request_id } => *request_id != plan.request_id,
        PlaybackEvent::TimedOut { request_id } => *request_id != plan.request_id,
        PlaybackEvent::Started { request_id, .. } => *request_id != plan.request_id,
    };
    if stale {
        return PlaybackAction::Wait;
    }
    match (plan.phase, event) {
        (PlayPhase::Idle, PlaybackEvent::Begin { downloaded, source }) => match downloaded {
            Some(path) => {
                plan.phase = PlayPhase::Starting;
                plan.cue_start_ms = None;
                PlaybackAction::Play { url: path }
            },
            None => {
                let next = match plan.js_index {
                    Some(i) => i.checked_add(1),
                    None => None,
                };
                match next {
                    Some(n) => {
                        plan.phase = PlayPhase::Direct;
                        PlaybackAction::ResolveDirect { js_start: n }
                    },
                    None => {
                        if !plan.attempted.contains(source.as_str()) {
                            plan.attempted.insert(source.as_str());
                            plan.phase = PlayPhase::Direct;
                            PlaybackAction::ResolveDirect { js_start: 0 }
                        } else {
                            let mut e = string_of("音源 ");
                            push_str(&mut e, source.as_str());
                            push_str(&mut e, " 已尝试");
                            plan.direct_failed(e)
                        }
                    },
                }
            },
        },
        (PlayPhase::Direct, PlaybackEvent::DirectResolved { result, cue_start, .. }) => match result {
            Ok((url, js)) => plan.found(url, js, cue_start),
            Err(e) => plan.direct_failed(e),
        },
        (PlayPhase::Searching, PlaybackEvent::Candidate { source, .. }) => {
            if !plan.attempted.contains(source.as_str()) {
                plan.attempted.insert(source.as_str());
                PlaybackAction::ResolveCandidate
            } else {
                PlaybackAction::NextCandidate
            }
        },
        (PlayPhase::Searching, PlaybackEvent::CandidateResolved { result, cue_start, .. }) => match result {
            Ok((url, js)) => plan.found(url, js, cue_start),
            Err(_) => PlaybackAction::NextCandidate,
        },
        (PlayPhase::Searching, PlaybackEvent::CandidatesExhausted { .. }) => {
            plan.phase = PlayPhase::Over;
            let mut m = string_of("获取播放地址失败，换源后仍不可用: ");
            push_str(&mut m, plan.direct_error.as_str());
            PlaybackAction::Fail { error: m }
        },
        (PlayPhase::Direct, PlaybackEvent::TimedOut { .. })
        | (PlayPhase::Searching, PlaybackEvent::TimedOut { .. }) => {
            plan.phase = PlayPhase::Over;
            PlaybackAction::Fail { error: string_of("获取播放地址超时，请稍后重试") }
        },
        (PlayPhase::Starting, PlaybackEvent::Started { accepted, .. }) => {
            if !accepted {
                plan.phase = PlayPhase::Over;
                return PlaybackAction::Wait;
            }
            plan.phase = PlayPhase::Playing;
            let paused = match plan.restored {
                Some((_, p)) => p,
                None => false,
            };
            let seek_ms = match plan.restored {
                Some((pos, _)) => Some(pos),
                None => plan.cue_start_ms,
            };
            let fade_in_ms = if plan.fade_in_ms > 0 && !paused {
                Some(plan.fade_in_ms)
            } else {
                None
            };
            PlaybackAction::AfterStart { seek_ms, pause: paused, fade_in_ms }
        },
        _ => PlaybackAction::Wait,
    }
}

/// A downloaded copy is played first: beginning a request with one plays
/// it without resolving anything.
pub proof fn lemma_downloaded_copy_first(p: PlanView, path: Seq<char>, source: Seq<char>)
    requires
        p.phase == PlayPhase::Idle,
    ensures
        playback_step_spec(p, PlayEventView::Begin { downloaded: Some(path), source }).1 == (PlayActionView::Play {
            url: path,
        }),
{
}

/// Within one request a source is resolved at most once: after a match on
/// `source` was resolved, another match on the same source is passed over.
pub proof fn lemma_source_tried_once(p: PlanView, source: Seq<char>)
    requires
        p.phase == PlayPhase::Searching,
    ensures
        ({
            let (p1, a1) = playback_step_spec(p, PlayEventView::Candidate { request_id: p.request_id, source });
            let (p2, a2) = playback_step_spec(p1, PlayEventView::Candidate { request_id: p.request_id, source });
            &&& p1.attempted.contains(source)
            &&& a2 == PlayActionView::NextCandidate
            &&& p2 == p1
        }),
{
}

/// A working URL is played: while other sources are searched, a match of
/// the current request that resolves to a URL plays exactly that URL, the
/// request then waits for the player, and the script source that gave the
/// URL is kept for a retry.
pub proof fn lemma_found_candidate_plays(
    p: PlanView,
    url: Seq<char>,
    js: Option<usize>,
    cue: Option<Seq<char>>,
)
    requires
        p.phase == PlayPhase::Searching,
    ensures
        ({
            let (q, a) = playback_step_spec(
                p,
                PlayEventView::CandidateResolved {
                    request_id: p.request_id,
                    result: ResolutionView::Found { url, js_index: js },
                    cue_start: cue,
                },
            );
            &&& a == (PlayActionView::Play { url })
            &&& q.phase == PlayPhase::Starting
            &&& q.js_index == js
            &&& q.request_id == p.request_id
            &&& q.attempted == p.attempted
        }),
{
}

/// The song's own source is played when it resolves: a URL found for it
/// is played at once and the request waits for the player.
pub proof fn lemma_found_direct_plays(
    p: PlanView,
    url: Seq<char>,
    js: Option<usize>,
    cue: Option<Seq<char>>,
)
    requires
        p.phase == PlayPhase::Direct,
    ensures
        ({
            let (q, a) = playback_step_spec(
                p,
                PlayEventView::DirectResolved {
                    request_id: p.request_id,
                    result: ResolutionView::Found { url, js_index: js },
                    cue_start: cue,
                },
            );
            &&& a == (PlayActionView::Play { url })
            &&& q.phase == PlayPhase::Starting
            &&& q.js_index == js
        }),
{
}

/// Falling back to another source: when the song's own source fails and
/// source switching is on, a match on another source not tried yet is
/// resolved, and the URL it gives is played.
pub proof fn lemma_fallback_source_plays(
    p: PlanView,
    source: Seq<char>,
    other: Seq<char>,
    error: Seq<char>,
    url: Seq<char>,
    js: Option<usize>,
)
    requires
        p.phase == PlayPhase::Idle,
        p.auto_toggle,
        p.js_index is None,
        !p.attempted.contains(source),
        !p.attempted.contains(other),
        other != source,
    ensures
        ({
            let id = p.request_id;
            let (p1, a1) = playback_step_spec(p, PlayEventView::Begin { downloaded: None, source });
            let (p2, a2) = playback_step_spec(
                p1,
                PlayEventView::DirectResolved {
                    request_id: id,
                    result: ResolutionView::Failed { error },
                    cue_start: None,
                },
            );
            let (p3, a3) = playback_step_spec(p2, PlayEventView::Candidate { request_id: id, source: other });
            let (p4, a4) = playback_step_spec(
                p3,
                PlayEventView::CandidateResolved {
                    request_id: id,
                    result: ResolutionView::Found { url, js_index: js },
                    cue_start: None,
                },
            );
            &&& a1 == (PlayActionView::ResolveDirect { js_start: 0 })
            &&& a2 == PlayActionView::SearchCandidates
            &&& a3 == PlayActionView::ResolveCandidate
            &&& a4 == (PlayActionView::Play { url })
            &&& p4.phase == PlayPhase::Starting
            &&& p4.attempted.contains(source) && p4.attempted.contains(other)
        }),
{
}

/// Whether the cover found after playing began must be loaded: covers are
/// shown, one was found, and it differs from the queue's.
pub fn reload_cover(show_cover: bool, resolved: &Option<String>, initial: &Option<String>) -> (r: bool)
    ensures
        r == (show_cover && resolved is Some && opt_view(*resolved) != opt_view(*initial)),
{
    if !show_cover {
        return false;
    }
    match (resolved, initial) {
        (Some(a), Some(b)) => !crate::text::str_eq(a.as_str(), b.as_str()),
        (Some(_), None) => true,
        _ => false,
    }
}

/// The notice once a song plays: its title line and the "name - singer
/// [source]" message.
pub fn now_playing_notice(name: &str, singer: &str, source: &str) -> (r: (String, String))
    ensures
        r.0@ == "正在播放: "@ + name@,
        r.1@ == name@ + " - "@ + singer@ + " ["@ + source@ + "]"@,
{
    let mut title = string_of("正在播放: ");
    push_str(&mut title, name);
    let mut m = string_of(name);
    push_str(&mut m, " - ");
    push_str(&mut m, singer);
    push_str(&mut m, " [");
    push_str(&mut m, source);
    push_str(&mut m, "]");
    (title, m)
}

} // verus!
