//! Playback settings cycled from the keyboard and the menu: ReplayGain and
//! channel modes, fades, the A-B loop, and when changed settings are saved.

use vstd::prelude::*;
use crate::text::{ascii_lower_seq, ascii_lowercase, chars_eq, chars_of, decimal_seq, push_decimal, push_str, string_of, trim_seq};

verus! {

broadcast use vstd::string::group_string_axioms;

/// Changed settings are written at most this often, in milliseconds.
pub const CONFIG_SAVE_DEBOUNCE_MS: u64 = 2000;

/// Fades last at least this long, in milliseconds.
pub const MIN_FADE_MS: u64 = 250;

/// How loudness is normalised.
#[derive(Debug, Clone, Copy, PartialEq, Eq, Structural)]
pub enum ReplayGainMode {
    Off,
    Track,
    Album,
}

/// Which channels play.
#[derive(Debug, Clone, Copy, PartialEq, Eq, Structural)]
pub enum ChannelMode {
    Auto,
    Stereo,
    Mono,
    Left,
    Right,
}

fn is_word(v: &Vec<char>, w: &str) -> (r: bool)
    ensures
        r == (v@ == w@),
{
    chars_eq(v, &chars_of(w))
}

/// A ReplayGain mode by name, ignoring case and surrounding space; anything
/// unknown is off.
pub open spec fn parse_replaygain_spec(v: Seq<char>) -> ReplayGainMode {
    let w = ascii_lower_seq(trim_seq(v));
    if w == "track"@ {
        ReplayGainMode::Track
    } else if w == "album"@ {
        ReplayGainMode::Album
    } else {
        ReplayGainMode::Off
    }
}

/// A ReplayGain mode by name.
pub fn parse_replaygain_mode(value: &str) -> (m: ReplayGainMode)
    ensures
        m == parse_replaygain_spec(value@),
{
    let w = ascii_lowercase(&crate::text::trim_chars(&chars_of(value)));
    if is_word(&w, "track") {
        ReplayGainMode::Track
    } else if is_word(&w, "album") {
        ReplayGainMode::Album
    } else {
        ReplayGainMode::Off
    }
}

/// A channel mode by name, ignoring case and surrounding space; anything
/// unknown is automatic.
pub open spec fn parse_channel_spec(v: Seq<char>) -> ChannelMode {
    let w = ascii_lower_seq(trim_seq(v));
    if w == "stereo"@ {
        ChannelMode::Stereo
    } else if w == "mono"@ {
        ChannelMode::Mono
    } else if w == "left"@ {
        ChannelMode::Left
    } else if w == "right"@ {
        ChannelMode::Right
    } else {
        ChannelMode::Auto
    }
}

/// A channel mode by name.
pub fn parse_channel_mode(value: &str) -> (m: ChannelMode)
    ensures
        m == parse_channel_spec(value@),
{
    let w = ascii_lowercase(&crate::text::trim_chars(&chars_of(value)));
    if is_word(&w, "stereo") {
        ChannelMode::Stereo
    } else if is_word(&w, "mono") {
        ChannelMode::Mono
    } else if is_word(&w, "left") {
        ChannelMode::Left
    } else if is_word(&w, "right") {
        ChannelMode::Right
    } else {
        ChannelMode::Auto
    }
}

/// The ReplayGain setting after `off`, `track`, `album`, in a cycle; an
/// unknown one goes to `off`.
pub open spec fn next_replaygain_spec(v: Seq<char>) -> Seq<char> {
    if v == "off"@ {
        "track"@
    } else if v == "track"@ {
        "album"@
    } else {
        "off"@
    }
}

/// The next ReplayGain setting.
pub fn next_replaygain_name(current: &str) -> (r: &'static str)
    ensures
        r@ == next_replaygain_spec(current@),
{
    let c = chars_of(current);
    if is_word(&c, "off") {
        "track"
    } else if is_word(&c, "track") {
        "album"
    } else {
        "off"
    }
}

/// The channel setting after `auto`, `stereo`, `mono`, `left`, `right`,
/// in a cycle; an unknown one goes to `auto`.
pub open spec fn next_channel_spec(v: Seq<char>) -> Seq<char> {
    if v == "auto"@ {
        "stereo"@
    } else if v == "stereo"@ {
        "mono"@
    } else if v == "mono"@ {
        "left"@
    } else if v == "left"@ {
        "right"@
    } else {
        "auto"@
    }
}

/// The next channel setting.
pub fn next_channel_name(current: &str) -> (r: &'static str)
    ensures
        r@ == next_channel_spec(current@),
{
    let c = chars_of(current);
    if is_word(&c, "auto") {
        "stereo"
    } else if is_word(&c, "stereo") {
        "mono"
    } else if is_word(&c, "mono") {
        "left"
    } else if is_word(&c, "left") {
        "right"
    } else {
        "auto"
    }
}

/// Each ReplayGain setting comes back after three steps.
pub proof fn lemma_replaygain_cycle(v: Seq<char>)
    requires
        v == "off"@ || v == "track"@ || v == "album"@,
    ensures
        next_replaygain_spec(next_replaygain_spec(next_replaygain_spec(v))) == v,
{
    reveal_strlit("off");
    reveal_strlit("track");
    reveal_strlit("album");
    assert("off"@ != "track"@ && "off"@ != "album"@ && "track"@ != "album"@) by {
        assert("off"@.len() == 3 && "track"@.len() == 5 && "album"@.len() == 5);
        assert("track"@[0] != "album"@[0]);
    }
}

/// Each channel setting comes back after five steps.
pub proof fn lemma_channel_cycle(v: Seq<char>)
    requires
        v == "auto"@ || v == "stereo"@ || v == "mono"@ || v == "left"@ || v == "right"@,
    ensures
        next_channel_spec(next_channel_spec(next_channel_spec(next_channel_spec(next_channel_spec(v))))) == v,
{
    reveal_strlit("auto");
    reveal_strlit("stereo");
    reveal_strlit("mono");
    reveal_strlit("left");
    reveal_strlit("right");
    let a = "auto"@;
    let st = "stereo"@;
    let m = "mono"@;
    let l = "left"@;
    let r = "right"@;
    assert(a != st && a != m && a != l && a != r && st != m && st != l && st != r && m != l && m != r && l != r) by {
        assert(a[0] != m[0] && a[0] != l[0] && a[0] != r[0] && a[0] != st[0]);
        assert(st[0] != m[0] && st[0] != l[0] && st[0] != r[0]);
        assert(m[0] != l[0] && m[0] != r[0] && l[0] != r[0]);
    }
}

/// A fade length in words: whole seconds as `N 秒`, else milliseconds.
pub open spec fn fade_label_spec(ms: nat) -> Seq<char> {
    if ms % 1000 == 0 {
        decimal_seq(ms / 1000) + " 秒"@
    } else {
        decimal_seq(ms) + " ms"@
    }
}

/// A fade length in words.
pub fn fade_duration_label(ms: u64) -> (s: String)
    ensures
        s@ == fade_label_spec(ms as nat),
{
    let mut s = String::new();
    if ms % 1000 == 0 {
        push_decimal(&mut s, ms / 1000);
        push_str(&mut s, " 秒");
    } else {
        push_decimal(&mut s, ms);
        push_str(&mut s, " ms");
    }
    s
}

/// The fade length used: the configured one, at least `MIN_FADE_MS`.
pub fn fade_length(configured_ms: u64) -> (ms: u64)
    ensures
        ms == if configured_ms >= MIN_FADE_MS { configured_ms } else { MIN_FADE_MS },
{
    if configured_ms >= MIN_FADE_MS { configured_ms } else { MIN_FADE_MS }
}

/// The message after a fade starts.
pub fn fade_notice(fade_in: bool, ms: u64) -> (s: String)
    ensures
        s@ == (if fade_in { "已开始淡入（"@ } else { "已开始淡出（"@ }) + fade_label_spec(ms as nat) + "）"@,
{
    let mut s = if fade_in { string_of("已开始淡入（") } else { string_of("已开始淡出（") };
    let l = fade_duration_label(ms);
    push_str(&mut s, l.as_str());
    push_str(&mut s, "）");
    s
}

/// The audio device used: the given one trimmed, or `auto` when blank.
pub open spec fn audio_device_spec(d: Seq<char>) -> Seq<char> {
    if trim_seq(d).len() == 0 { "auto"@ } else { trim_seq(d) }
}

/// The audio device used.
pub fn audio_device_name(device: &str) -> (r: String)
    ensures
        r@ == audio_device_spec(device@),
{
    let t = crate::text::trim(device);
    if t.as_str().unicode_len() == 0 {
        string_of("auto")
    } else {
        t
    }
}

/// The message after clipping protection is switched.
pub fn clip_notice(enabled: bool) -> (s: String)
    ensures
        s@ == "ReplayGain 削波保护: "@ + if enabled { "开启"@ } else { "关闭"@ },
{
    let mut s = string_of("ReplayGain 削波保护: ");
    push_str(&mut s, if enabled { "开启" } else { "关闭" });
    s
}

/// An A-B loop between two positions, in milliseconds.
#[derive(Debug, Clone, Copy, PartialEq, Eq, Structural)]
pub struct AbLoop {
    pub start_ms: u64,
    pub end_ms: u64,
}

/// What setting an end point of the A-B loop did.
#[derive(Debug, Clone, Copy, PartialEq, Eq, Structural)]
pub enum AbLoopStep {
    /// There is nothing to loop at this position.
    NoPosition,
    /// Point A is set.
    StartSet(u64),
    /// Point B needs a point A first.
    NeedStart,
    /// Point B must come after point A.
    EndBeforeStart,
    /// The loop is set.
    LoopSet(AbLoop),
}

/// Where the A-B loop stands: a point A waiting for its point B.
#[derive(Debug, Clone, Copy, PartialEq, Eq, Structural)]
pub struct AbLoopState {
    pub pending_start_ms: Option<u64>,
}

impl AbLoopState {
    /// Sets point A at `position_ms`, unless nothing plays there (at or past
    /// the end).
    pub fn set_start(&mut self, position_ms: u64, duration_ms: u64) -> (r: AbLoopStep)
        ensures
            position_ms >= duration_ms ==> r == AbLoopStep::NoPosition && *final(self) == *old(self),
            position_ms < duration_ms ==> r == AbLoopStep::StartSet(position_ms)
                && final(self).pending_start_ms == Some(position_ms),
    {
        if position_ms >= duration_ms {
            return AbLoopStep::NoPosition;
        }
        self.pending_start_ms = Some(position_ms);
        AbLoopStep::StartSet(position_ms)
    }

    /// Sets point B at `position_ms`: the loop runs from point A when B
    /// comes after it, and point A is then used up.
    pub fn set_end(&mut self, position_ms: u64) -> (r: AbLoopStep)
        ensures
            match old(self).pending_start_ms {
                None => r == AbLoopStep::NeedStart && *final(self) == *old(self),
                Some(a) => if position_ms > a {
                    r == AbLoopStep::LoopSet(AbLoop { start_ms: a, end_ms: position_ms })
                        && final(self).pending_start_ms is None
                } else {
                    r == AbLoopStep::EndBeforeStart && *final(self) == *old(self)
                },
            },
    {
        match self.pending_start_ms {
            None => AbLoopStep::NeedStart,
            Some(a) => {
                if position_ms > a {
                    self.pending_start_ms = None;
                    AbLoopStep::LoopSet(AbLoop { start_ms: a, end_ms: position_ms })
                } else {
                    AbLoopStep::EndBeforeStart
                }
            },
        }
    }

    /// Forgets point A.
    pub fn clear(&mut self)
        ensures
            final(self).pending_start_ms is None,
    {
        self.pending_start_ms = None;
    }
}

/// The message for a step of setting the A-B loop (times as `MM:SS`).
pub fn ab_loop_notice(step: AbLoopStep) -> (s: String)
    ensures
        s@ == match step {
            AbLoopStep::NoPosition => "无法设置 A 点：当前没有可循环的播放位置"@,
            AbLoopStep::StartSet(a) => "A 点: "@ + crate::navigation::clock_spec((a / 1000) as nat),
            AbLoopStep::NeedStart => "请先设置 A 点"@,
            AbLoopStep::EndBeforeStart => "B 点必须晚于 A 点"@,
            AbLoopStep::LoopSet(l) => "A-B 循环: "@ + crate::navigation::clock_spec((l.start_ms / 1000) as nat)
                + " - "@ + crate::navigation::clock_spec((l.end_ms / 1000) as nat),
        },
{
    match step {
        AbLoopStep::NoPosition => string_of("无法设置 A 点：当前没有可循环的播放位置"),
        AbLoopStep::StartSet(a) => {
            let mut s = string_of("A 点: ");
            let c = crate::navigation::format_clock(a / 1000);
            push_str(&mut s, c.as_str());
            s
        },
        AbLoopStep::NeedStart => string_of("请先设置 A 点"),
        AbLoopStep::EndBeforeStart => string_of("B 点必须晚于 A 点"),
        AbLoopStep::LoopSet(l) => {
            let mut s = string_of("A-B 循环: ");
            let a = crate::navigation::format_clock(l.start_ms / 1000);
            let b = crate::navigation::format_clock(l.end_ms / 1000);
            push_str(&mut s, a.as_str());
            push_str(&mut s, " - ");
            push_str(&mut s, b.as_str());
            s
        },
    }
}

/// When the settings were first changed since they were last saved.
#[derive(Debug, Clone, Copy, PartialEq, Eq, Structural)]
pub struct DirtyConfig {
    pub dirty_since_ms: Option<u64>,
}

impl DirtyConfig {
    /// Notes a change at `now_ms`; the first unsaved change starts the clock.
    pub fn mark(&mut self, now_ms: u64)
        ensures
            final(self).dirty_since_ms == match old(self).dirty_since_ms {
                Some(t) => Some(t),
                None => Some(now_ms),
            },
    {
        if self.dirty_since_ms.is_none() {
            self.dirty_since_ms = Some(now_ms);
        }
    }

    /// Whether to save now: a change is waiting and the debounce window has
    /// passed since the first of them; saving clears the clock.
    pub fn take_due(&mut self, now_ms: u64) -> (due: bool)
        ensures
            due == (old(self).dirty_since_ms matches Some(t) && (if now_ms >= t { now_ms - t } else { 0 })
                >= CONFIG_SAVE_DEBOUNCE_MS),
            due ==> final(self).dirty_since_ms is None,
            !due ==> *final(self) == *old(self),
    {
        match self.dirty_since_ms {
            Some(t) => {
                if now_ms.saturating_sub(t) >= CONFIG_SAVE_DEBOUNCE_MS {
                    self.dirty_since_ms = None;
                    true
                } else {
                    false
                }
            },
            None => false,
        }
    }
}


/// Whether the fade-out starts now: the song plays, a fade-out is set, the
/// length is known, the position is within the last `fade_ms` of the song
/// (and not past its end), and this player generation has not faded yet.
/// The generation marks are forgotten when the player moved to another
/// generation.
pub open spec fn fade_out_due_spec(
    playing: bool,
    fade_ms: u64,
    position_ms: u64,
    duration_ms: u64,
    faded: u64,
    active: u64,
) -> bool {
    let mark = if active != faded { 0 } else { faded };
    playing && fade_ms > 0 && duration_ms > 0 && position_ms < duration_ms && position_ms >= (if duration_ms
        >= fade_ms {
        duration_ms - fade_ms
    } else {
        0
    }) && mark != active
}

/// One check of the fade-out near a song's end; `faded` is the player
/// generation that last faded. Returns whether to fade out now, and
/// updates the mark: cleared when the generation changed, set to `active`
/// when fading.
pub fn fade_out_due(faded: &mut u64, playing: bool, fade_ms: u64, position_ms: u64, duration_ms: u64, active: u64) -> (r: bool)
    ensures
        r == fade_out_due_spec(playing, fade_ms, position_ms, duration_ms, *old(faded), active),
        *final(faded) == if r {
            active
        } else if active != *old(faded) {
            0
        } else {
            *old(faded)
        },
{
    if active != *faded {
        *faded = 0;
    }
    let start = duration_ms.saturating_sub(fade_ms);
    let due = playing && fade_ms > 0 && duration_ms > 0 && position_ms < duration_ms && position_ms >= start
        && *faded != active;
    if due {
        *faded = active;
    }
    due
}

/// A song fades out once: right after a check started the fade-out, a later
/// check in the same player generation does not start it again.
pub proof fn lemma_fade_out_once(playing: bool, fade_ms: u64, p1: u64, p2: u64, duration_ms: u64, faded: u64, active: u64)
    requires
        fade_out_due_spec(playing, fade_ms, p1, duration_ms, faded, active),
    ensures
        !fade_out_due_spec(playing, fade_ms, p2, duration_ms, active, active),
{
}

} // verus!
