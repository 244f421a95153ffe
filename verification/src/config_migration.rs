//! Bringing an older configuration up to date, one schema version at a
//! time: the old default theme, the default source lists of each release,
//! local music that an old default left disabled, the notification options
//! that moved to their own section, and a history limit of at least one.

use vstd::prelude::*;
use crate::pages::status_bar::StatusBarItem;
use crate::text::{ascii_lower_seq, ascii_lowercase, chars_eq, chars_of};

verus! {

/// The last schema version the migration steps lead to.
pub const LAST_MIGRATED_VERSION: u32 = 16;

/// A music source, as the configuration lists it.
#[derive(Debug, Clone, Copy, PartialEq, Eq, Structural)]
pub enum SourceCode {
    Kw,
    Kg,
    Tx,
    Wy,
    Mg,
    Bili,
    Qianqian,
    Joox,
    Fivesing,
    Jamendo,
    Apple,
    Soda,
    Local,
}

/// The parts of the configuration that migration reads and changes.
#[derive(Debug, Clone)]
pub struct LegacyConfig {
    pub version: u32,
    pub theme_accent: String,
    pub theme_text: String,
    pub theme_muted: String,
    pub theme_border: String,
    pub sources: Vec<SourceCode>,
    /// How many local music folders are configured.
    pub local_paths: usize,
    pub local_enabled: bool,
    /// The notification switch of the old `[ui]` section, if set.
    pub show_notifications: Option<bool>,
    /// The notification timeout of the old `[ui]` section, if set.
    pub notification_timeout: Option<u64>,
    pub in_app: bool,
    pub in_app_timeout: u64,
    pub history_limit: usize,
    /// The status bar's segments, in order.
    pub status_bar: Vec<StatusBarItem>,
}

/// The configuration as values.
pub struct ConfigView {
    pub version: u32,
    pub theme: (Seq<char>, Seq<char>, Seq<char>, Seq<char>),
    pub sources: Seq<SourceCode>,
    pub local_paths: usize,
    pub local_enabled: bool,
    pub show_notifications: Option<bool>,
    pub notification_timeout: Option<u64>,
    pub in_app: bool,
    pub in_app_timeout: u64,
    pub history_limit: usize,
    pub status_bar: Seq<StatusBarItem>,
}

impl View for LegacyConfig {
    type V = ConfigView;

    open spec fn view(&self) -> ConfigView {
        ConfigView {
            version: self.version,
            theme: (self.theme_accent@, self.theme_text@, self.theme_muted@, self.theme_border@),
            sources: self.sources@,
            local_paths: self.local_paths,
            local_enabled: self.local_enabled,
            show_notifications: self.show_notifications,
            notification_timeout: self.notification_timeout,
            in_app: self.in_app,
            in_app_timeout: self.in_app_timeout,
            history_limit: self.history_limit,
            status_bar: self.status_bar@,
        }
    }
}

/// What migration did beyond the fields above.
#[derive(Debug, Clone, Copy, PartialEq, Eq, Structural)]
pub struct Migration {
    /// Something changed, so the configuration must be saved.
    pub changed: bool,
    /// The old default theme was found: the current default theme replaces it.
    pub reset_theme: bool,
    /// The settings page key bindings predate their own section and must be
    /// moved.
    pub migrate_settings_bindings: bool,
}

/// The default sources before the version 2 step.
pub open spec fn v1_sources() -> Seq<SourceCode> {
    seq![SourceCode::Kw, SourceCode::Kg, SourceCode::Tx, SourceCode::Wy, SourceCode::Mg]
}

/// Each release's default sources: after version `k` the list grew by the
/// source that release added.
pub open spec fn defaults_until(k: u32) -> Seq<SourceCode> {
    if k <= 1 {
        v1_sources()
    } else if k <= 10 {
        v1_sources().push(SourceCode::Bili)
    } else if k == 11 {
        v1_sources().push(SourceCode::Bili).push(SourceCode::Qianqian)
    } else if k == 12 {
        v1_sources().push(SourceCode::Bili).push(SourceCode::Qianqian).push(SourceCode::Joox)
    } else if k == 13 {
        v1_sources().push(SourceCode::Bili).push(SourceCode::Qianqian).push(SourceCode::Joox).push(SourceCode::Fivesing)
    } else {
        v1_sources().push(SourceCode::Bili).push(SourceCode::Qianqian).push(SourceCode::Joox).push(SourceCode::Fivesing).push(
            SourceCode::Jamendo,
        )
    }
}

/// The same sources, in any order: as many, and each of `right` in `left`.
pub open spec fn same_sources_spec(left: Seq<SourceCode>, right: Seq<SourceCode>) -> bool {
    left.len() == right.len() && forall|i: int| 0 <= i < right.len() ==> left.contains(#[trigger] right[i])
}

/// Adds `add` to a source list that still is the default of the release
/// before (`previous`).
pub open spec fn grow_default(s: Seq<SourceCode>, version: u32, step: u32, previous: Seq<SourceCode>, add: SourceCode) -> Seq<SourceCode> {
    if version < step && same_sources_spec(s, previous) {
        s.push(add)
    } else {
        s
    }
}

/// The sources after every step.
pub open spec fn migrated_sources(s: Seq<SourceCode>, v: u32) -> Seq<SourceCode> {
    let s1 = if v < 1 && s == seq![SourceCode::Kw] { v1_sources() } else { s };
    let s2 = grow_default(s1, v, 2, v1_sources(), SourceCode::Bili);
    let s11 = grow_default(s2, v, 11, defaults_until(10), SourceCode::Qianqian);
    let s12 = grow_default(s11, v, 12, defaults_until(11), SourceCode::Joox);
    let s13 = grow_default(s12, v, 13, defaults_until(12), SourceCode::Fivesing);
    let s14 = grow_default(s13, v, 14, defaults_until(13), SourceCode::Jamendo);
    grow_default(s14, v, 16, defaults_until(15), SourceCode::Soda)
}

/// The four theme colours of the first release, compared ignoring ASCII case.
pub open spec fn is_first_theme(t: (Seq<char>, Seq<char>, Seq<char>, Seq<char>)) -> bool {
    &&& ascii_lower_seq(t.0) == "cyan"@
    &&& ascii_lower_seq(t.1) == "white"@
    &&& ascii_lower_seq(t.2) == "dark_gray"@
    &&& ascii_lower_seq(t.3) == "cyan"@
}

/// The status bar items with repeats removed, each kept where it first
/// appears.
pub open spec fn first_occurrences(s: Seq<StatusBarItem>) -> Seq<StatusBarItem>
    decreases s.len(),
{
    if s.len() == 0 {
        s
    } else {
        let r = first_occurrences(s.drop_last());
        if r.contains(s.last()) {
            r
        } else {
            r.push(s.last())
        }
    }
}

/// The configuration after migration, and what else must be done. The
/// status bar always loses its repeated items.
pub open spec fn migrate_spec(c: ConfigView) -> (ConfigView, Migration) {
    let v = c.version;
    let status_bar_changed = first_occurrences(c.status_bar).len() != c.status_bar.len();
    let reset_theme = v < 1 && is_first_theme(c.theme);
    (
        ConfigView {
            version: if v < LAST_MIGRATED_VERSION { LAST_MIGRATED_VERSION } else { v },
            sources: migrated_sources(c.sources, v),
            local_enabled: if v < 3 && c.local_paths > 0 { true } else { c.local_enabled },
            show_notifications: if v < 4 { None } else { c.show_notifications },
            notification_timeout: if v < 4 { None } else { c.notification_timeout },
            in_app: if v < 4 && c.show_notifications is Some { c.show_notifications->0 } else { c.in_app },
            in_app_timeout: if v < 4 && c.notification_timeout is Some {
                c.notification_timeout->0
            } else {
                c.in_app_timeout
            },
            history_limit: if v < 5 && c.history_limit < 1 { 1 } else { c.history_limit },
            status_bar: first_occurrences(c.status_bar),
            ..c
        },
        Migration {
            changed: reset_theme || status_bar_changed || v < LAST_MIGRATED_VERSION,
            reset_theme,
            migrate_settings_bindings: v < 9,
        },
    )
}

fn same_sources(left: &Vec<SourceCode>, right: &Vec<SourceCode>) -> (r: bool)
    ensures
        r == same_sources_spec(left@, right@),
{
    if left.len() != right.len() {
        return false;
    }
    let mut i: usize = 0;
    while i < right.len()
        invariant
            i <= right@.len(),
            forall|k: int| 0 <= k < i ==> left@.contains(#[trigger] right@[k]),
        decreases right@.len() - i,
    {
        let mut found = false;
        let mut j: usize = 0;
        while j < left.len()
            invariant
                i < right@.len(),
                j <= left@.len(),
                found ==> left@.contains(right@[i as int]),
                !found ==> forall|m: int| 0 <= m < j ==> left@[m] != right@[i as int],
            decreases left@.len() - j,
        {
            if left[j] == right[i] {
                assert(left@[j as int] == right@[i as int]);
                found = true;
            }
            j = j + 1;
        }
        if !found {
            assert(!left@.contains(right@[i as int]));
            return false;
        }
        i = i + 1;
    }
    true
}

fn defaults(k: u32) -> (r: Vec<SourceCode>)
    ensures
        r@ == defaults_until(k),
{
    let mut r = vec![SourceCode::Kw, SourceCode::Kg, SourceCode::Tx, SourceCode::Wy, SourceCode::Mg];
    assert(r@ == v1_sources());
    if k > 1 {
        r.push(SourceCode::Bili);
    }
    if k > 10 {
        r.push(SourceCode::Qianqian);
    }
    if k > 11 {
        r.push(SourceCode::Joox);
    }
    if k > 12 {
        r.push(SourceCode::Fivesing);
    }
    if k > 13 {
        r.push(SourceCode::Jamendo);
    }
    r
}

fn grow(s: &mut Vec<SourceCode>, version: u32, step: u32, previous: u32, add: SourceCode)
    ensures
        final(s)@ == grow_default(old(s)@, version, step, defaults_until(previous), add),
{
    if version < step {
        let d = defaults(previous);
        if same_sources(s, &d) {
            s.push(add);
        }
    }
}

fn is_lower(s: &String, lit: &str) -> (r: bool)
    ensures
        r == (ascii_lower_seq(s@) == lit@),
{
    let c = chars_of(s.as_str());
    let l = ascii_lowercase(&c);
    let t = chars_of(lit);
    chars_eq(&l, &t)
}

proof fn lemma_first_occurrences_len(s: Seq<StatusBarItem>)
    ensures
        first_occurrences(s).len() <= s.len(),
    decreases s.len(),
{
    if s.len() > 0 {
        lemma_first_occurrences_len(s.drop_last());
    }
}

/// Removes repeated status bar items, keeping each where it first appears;
/// says whether any was removed.
pub fn dedup_status_items(items: &mut Vec<StatusBarItem>) -> (changed: bool)
    ensures
        final(items)@ == first_occurrences(old(items)@),
        changed == (first_occurrences(old(items)@).len() != old(items)@.len()),
{
    let ghost input = items@;
    let mut out: Vec<StatusBarItem> = Vec::new();
    let mut i: usize = 0;
    assert(input.take(0) =~= Seq::<StatusBarItem>::empty());
    while i < items.len()
        invariant
            i <= items@.len(),
            items@ == input,
            out@ == first_occurrences(input.take(i as int)),
        decreases items@.len() - i,
    {
        assert(input.take(i + 1).drop_last() =~= input.take(i as int));
        assert(input.take(i + 1).last() == input[i as int]);
        let x = items[i];
        let mut seen = false;
        let mut j: usize = 0;
        while j < out.len()
            invariant
                j <= out@.len(),
                seen == exists|m: int| 0 <= m < j && out@[m] == x,
            decreases out@.len() - j,
        {
            if out[j] == x {
                seen = true;
            }
            j = j + 1;
        }
        proof {
            if out@.contains(x) {
                let m = choose|m: int| 0 <= m < out@.len() && out@[m] == x;
                assert(seen);
            }
        }
        if !seen {
            out.push(x);
        }
        i = i + 1;
    }
    assert(input.take(i as int) =~= input);
    proof {
        lemma_first_occurrences_len(input);
    }
    let changed = out.len() != items.len();
    *items = out;
    changed
}

/// Brings `config` up to date and says what else must be done.
pub fn migrate_legacy_config(config: &mut LegacyConfig) -> (m: Migration)
    ensures
        (final(config)@, m) == migrate_spec(old(config)@),
{
    let status_bar_changed = dedup_status_items(&mut config.status_bar);
    let v = config.version;
    let reset_theme = v < 1 && is_lower(&config.theme_accent, "cyan") && is_lower(&config.theme_text, "white")
        && is_lower(&config.theme_muted, "dark_gray") && is_lower(&config.theme_border, "cyan");
    if v < 1 && config.sources.len() == 1 && config.sources[0] == SourceCode::Kw {
        assert(config.sources@ =~= seq![SourceCode::Kw]);
        config.sources = defaults(1);
    } else {
        proof {
            if v < 1 && config.sources@ == seq![SourceCode::Kw] {
                assert(config.sources@[0] == SourceCode::Kw);
            }
        }
    }
    grow(&mut config.sources, v, 2, 1, SourceCode::Bili);
    grow(&mut config.sources, v, 11, 10, SourceCode::Qianqian);
    grow(&mut config.sources, v, 12, 11, SourceCode::Joox);
    grow(&mut config.sources, v, 13, 12, SourceCode::Fivesing);
    grow(&mut config.sources, v, 14, 13, SourceCode::Jamendo);
    grow(&mut config.sources, v, 16, 15, SourceCode::Soda);
    if v < 3 && config.local_paths > 0 {
        config.local_enabled = true;
    }
    if v < 4 {
        if let Some(enabled) = config.show_notifications {
            config.in_app = enabled;
        }
        if let Some(timeout) = config.notification_timeout {
            config.in_app_timeout = timeout;
        }
        config.show_notifications = None;
        config.notification_timeout = None;
    }
    if v < 5 && config.history_limit < 1 {
        config.history_limit = 1;
    }
    if v < LAST_MIGRATED_VERSION {
        config.version = LAST_MIGRATED_VERSION;
    }
    Migration {
        changed: reset_theme || status_bar_changed || v < LAST_MIGRATED_VERSION,
        reset_theme,
        migrate_settings_bindings: v < 9,
    }
}

proof fn lemma_first_occurrences_distinct(s: Seq<StatusBarItem>)
    ensures
        forall|i: int, j: int| 0 <= i < j < first_occurrences(s).len() ==> first_occurrences(s)[i] != first_occurrences(s)[j],
    decreases s.len(),
{
    if s.len() > 0 {
        lemma_first_occurrences_distinct(s.drop_last());
        let r = first_occurrences(s.drop_last());
        if !r.contains(s.last()) {
            assert forall|i: int, j: int| 0 <= i < j < r.push(s.last()).len() implies r.push(s.last())[i] != r.push(s.last())[j] by {
                if j == r.len() {
                    assert(r.contains(r[i]));
                }
            }
        }
    }
}

proof fn lemma_first_occurrences_of_distinct(s: Seq<StatusBarItem>)
    requires
        forall|i: int, j: int| 0 <= i < j < s.len() ==> s[i] != s[j],
    ensures
        first_occurrences(s) == s,
    decreases s.len(),
{
    if s.len() > 0 {
        let p = s.drop_last();
        lemma_first_occurrences_of_distinct(p);
        if p.contains(s.last()) {
            let m = choose|m: int| 0 <= m < p.len() && p[m] == s.last();
            assert(s[m] == s[s.len() - 1]);
        }
        assert(p.push(s.last()) =~= s);
    }
}

/// Migration runs once: a migrated configuration migrates to itself and
/// reports no change.
pub proof fn lemma_migration_settles(c: ConfigView)
    ensures
        ({
            let (c1, _) = migrate_spec(c);
            let (c2, m2) = migrate_spec(c1);
            &&& c2 == c1
            &&& !m2.changed
            &&& !m2.migrate_settings_bindings
        }),
{
    let (c1, _) = migrate_spec(c);
    assert(c1.version >= LAST_MIGRATED_VERSION);
    lemma_first_occurrences_distinct(c.status_bar);
    lemma_first_occurrences_of_distinct(c1.status_bar);
    let (c2, _) = migrate_spec(c1);
    assert(c2.sources == c1.sources);
    assert(c2.status_bar == c1.status_bar);
}

} // verus!
