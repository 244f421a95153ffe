//! Desktop notifications: their titles, and the fixed-size UTF-16 buffers
//! the Windows notification area takes.

use vstd::prelude::*;
use crate::text::{chars_of, string_of};

verus! {

broadcast use vstd::string::group_string_axioms;

/// How serious a notification is.
#[derive(Debug, Clone, Copy, PartialEq, Eq, Structural)]
pub enum NotificationLevel {
    Info,
    Success,
    Warn,
    Error,
}

/// A message for the user.
#[derive(Debug, Clone)]
pub struct Notification {
    pub level: NotificationLevel,
    pub message: String,
    /// Shown instead of the level's title when set.
    pub title: Option<String>,
    /// Replaces the previous desktop notification instead of stacking.
    pub replace_previous: bool,
    /// The text of the button that opens `action_url`.
    pub action_label: Option<String>,
    /// The link the notification offers to open.
    pub action_url: Option<String>,
}

impl Notification {
    fn with_level(level: NotificationLevel, message: &str) -> (n: Self)
        ensures
            n.level == level,
            n.message@ == message@,
            n.title is None,
            !n.replace_previous,
            n.action_label is None && n.action_url is None,
    {
        Notification {
            level,
            message: string_of(message),
            title: None,
            replace_previous: false,
            action_label: None,
            action_url: None,
        }
    }

    pub fn info(message: &str) -> (n: Self)
        ensures
            n.level == NotificationLevel::Info && n.message@ == message@ && n.title is None && !n.replace_previous,
            n.action_label is None && n.action_url is None,
    {
        Self::with_level(NotificationLevel::Info, message)
    }

    pub fn success(message: &str) -> (n: Self)
        ensures
            n.level == NotificationLevel::Success && n.message@ == message@ && n.title is None && !n.replace_previous,
            n.action_label is None && n.action_url is None,
    {
        Self::with_level(NotificationLevel::Success, message)
    }

    pub fn warning(message: &str) -> (n: Self)
        ensures
            n.level == NotificationLevel::Warn && n.message@ == message@ && n.title is None && !n.replace_previous,
            n.action_label is None && n.action_url is None,
    {
        Self::with_level(NotificationLevel::Warn, message)
    }

    pub fn error(message: &str) -> (n: Self)
        ensures
            n.level == NotificationLevel::Error && n.message@ == message@ && n.title is None && !n.replace_previous,
            n.action_label is None && n.action_url is None,
    {
        Self::with_level(NotificationLevel::Error, message)
    }

    /// The same notification with an explicit title.
    pub fn with_title(self, title: &str) -> (n: Self)
        ensures
            n.level == self.level && n.message == self.message && n.replace_previous == self.replace_previous,
            n.action_label == self.action_label && n.action_url == self.action_url,
            n.title matches Some(t) && t@ == title@,
    {
        Notification { title: Some(string_of(title)), ..self }
    }
}

/// The most in-app notifications kept; older ones drop off.
pub const MAX_IN_APP: usize = 8;

/// The last `MAX_IN_APP` of `s`.
pub open spec fn keep_newest(s: Seq<Notification>) -> Seq<Notification> {
    if s.len() > MAX_IN_APP {
        s.skip(s.len() - MAX_IN_APP)
    } else {
        s
    }
}

/// The in-app notifications, oldest first.
#[derive(Debug)]
pub struct NotificationCenter {
    items: Vec<Notification>,
}

impl NotificationCenter {
    #[verifier::type_invariant]
    spec fn bounded(self) -> bool {
        self.items@.len() <= MAX_IN_APP
    }

    /// The notifications shown, oldest first.
    pub closed spec fn shown(self) -> Seq<Notification> {
        self.items@
    }

    /// No notifications.
    pub fn new() -> (c: Self)
        ensures
            c.shown().len() == 0,
    {
        NotificationCenter { items: Vec::new() }
    }

    /// Adds a notification; the oldest drop off beyond eight.
    pub fn push(&mut self, n: Notification)
        ensures
            final(self).shown() == keep_newest(old(self).shown().push(n)),
    {
        proof {
            use_type_invariant(&*self);
        }
        let mut items: Vec<Notification> = Vec::new();
        std::mem::swap(&mut items, &mut self.items);
        let ghost start = items@.push(n);
        items.push(n);
        assert(items@.skip(0) =~= start);
        let ghost mut dropped: int = 0;
        while items.len() > MAX_IN_APP
            invariant
                0 <= dropped <= start.len(),
                dropped == 0 || start.len() - dropped >= MAX_IN_APP,
                items@ == start.skip(dropped),
                start.len() <= MAX_IN_APP + 1,
            decreases items@.len(),
        {
            items.remove(0);
            proof {
                assert(start.skip(dropped).subrange(1, start.skip(dropped).len() as int) =~= start.skip(dropped + 1));
                dropped = dropped + 1;
            }
        }
        proof {
            if start.len() > MAX_IN_APP {
                assert(dropped == start.len() - MAX_IN_APP);
            } else {
                assert(dropped == 0);
            }
        }
        self.items = items;
    }

    /// Closes the newest notification; false when there was none.
    pub fn dismiss(&mut self) -> (closed: bool)
        ensures
            closed == (old(self).shown().len() > 0),
            final(self).shown() == if closed { old(self).shown().drop_last() } else { old(self).shown() },
    {
        proof {
            use_type_invariant(&*self);
        }
        let mut items: Vec<Notification> = Vec::new();
        std::mem::swap(&mut items, &mut self.items);
        let closed = items.pop().is_some();
        self.items = items;
        closed
    }

    /// The newest notification, if any.
    pub fn newest(&self) -> (r: Option<&Notification>)
        ensures
            match r {
                Some(n) => self.shown().len() > 0 && *n == self.shown().last(),
                None => self.shown().len() == 0,
            },
    {
        if self.items.len() == 0 {
            None
        } else {
            Some(&self.items[self.items.len() - 1])
        }
    }

    /// How many notifications are kept.
    pub fn len(&self) -> (n: usize)
        ensures
            n == self.shown().len(),
            n <= MAX_IN_APP,
    {
        proof {
            use_type_invariant(self);
        }
        self.items.len()
    }
}

/// Closing the newest notification takes back adding one, while fewer
/// than eight were shown.
pub proof fn lemma_dismiss_undoes_push(before: Seq<Notification>, n: Notification)
    requires
        before.len() < MAX_IN_APP,
    ensures
        keep_newest(before.push(n)).drop_last() == before,
        keep_newest(before.push(n)).last() == n,
{
    assert(keep_newest(before.push(n)).drop_last() =~= before);
}

/// However many are added, at most eight are kept, and the newest is the
/// last one added.
pub proof fn lemma_push_keeps_newest(before: Seq<Notification>, n: Notification)
    ensures
        keep_newest(before.push(n)).len() <= MAX_IN_APP,
        keep_newest(before.push(n)).last() == n,
{
}

/// How long an in-app notification stays, in seconds: the configured
/// time, between one second and a minute.
pub fn notification_timeout_secs(configured: u64) -> (secs: u64)
    ensures
        secs == if configured < 1 {
            1
        } else if configured > 60 {
            60
        } else {
            configured
        },
{
    if configured < 1 {
        1
    } else if configured > 60 {
        60
    } else {
        configured
    }
}

pub open spec fn level_title_spec(level: NotificationLevel) -> Seq<char> {
    match level {
        NotificationLevel::Info => "voicefox"@,
        NotificationLevel::Success => "voicefox · 成功"@,
        NotificationLevel::Warn => "voicefox · 警告"@,
        NotificationLevel::Error => "voicefox · 错误"@,
    }
}

/// The title for a notification's level.
pub fn level_title(notification: &Notification) -> (s: String)
    ensures
        s@ == level_title_spec(notification.level),
{
    match notification.level {
        NotificationLevel::Info => string_of("voicefox"),
        NotificationLevel::Success => string_of("voicefox · 成功"),
        NotificationLevel::Warn => string_of("voicefox · 警告"),
        NotificationLevel::Error => string_of("voicefox · 错误"),
    }
}

/// The title of a desktop notification: its own, else its level's.
pub fn notification_title(notification: &Notification) -> (s: String)
    ensures
        s@ == match notification.title {
            Some(t) => t@,
            None => level_title_spec(notification.level),
        },
{
    match &notification.title {
        Some(t) => t.clone(),
        None => level_title(notification),
    }
}

/// The UTF-16 code units of a character.
pub open spec fn utf16_of(c: char) -> Seq<u16> {
    let v = c as int;
    if v < 0x10000 {
        seq![v as u16]
    } else {
        let w = v - 0x10000;
        seq![(0xD800 + w / 1024) as u16, (0xDC00 + w % 1024) as u16]
    }
}

/// The UTF-16 units written after `acc` while whole characters of `cs` fit
/// in `cap` units.
pub open spec fn utf16_fill(cs: Seq<char>, acc: Seq<u16>, cap: nat) -> Seq<u16>
    decreases cs.len(),
{
    if cs.len() == 0 {
        acc
    } else if acc.len() + utf16_of(cs[0]).len() > cap {
        acc
    } else {
        utf16_fill(cs.drop_first(), acc + utf16_of(cs[0]), cap)
    }
}

proof fn lemma_utf16_fill_len(cs: Seq<char>, acc: Seq<u16>, cap: nat)
    requires
        acc.len() <= cap,
    ensures
        acc.len() <= utf16_fill(cs, acc, cap).len() <= cap,
        utf16_fill(cs, acc, cap).take(acc.len() as int) == acc,
    decreases cs.len(),
{
    if cs.len() > 0 && acc.len() + utf16_of(cs[0]).len() <= cap {
        lemma_utf16_fill_len(cs.drop_first(), acc + utf16_of(cs[0]), cap);
        assert((acc + utf16_of(cs[0])).take(acc.len() as int) =~= acc);
        let r = utf16_fill(cs, acc, cap);
        assert(r.take((acc + utf16_of(cs[0])).len() as int).take(acc.len() as int) =~= r.take(acc.len() as int));
    }
}

fn encode_utf16(c: char) -> (r: (u16, Option<u16>))
    ensures
        utf16_of(c) == match r.1 {
            Some(low) => seq![r.0, low],
            None => seq![r.0],
        },
{
    let v = c as u32;
    if v < 0x10000 {
        (v as u16, None)
    } else {
        let w = v - 0x10000;
        assert(w < 0x100000);
        ((0xD800 + w / 1024) as u16, Some((0xDC00 + w % 1024) as u16))
    }
}

/// `text` as UTF-16 in a zero-terminated buffer of `N` units: whole
/// characters only, as many as fit before the last unit, the rest zeros.
pub fn utf16_array<const N: usize>(text: &str) -> (a: [u16; N])
    ensures
        ({
            let cap: nat = if N > 0 { (N - 1) as nat } else { 0 };
            let w = utf16_fill(text@, Seq::empty(), cap);
            &&& forall|i: int| 0 <= i < w.len() ==> a@[i] == w[i]
            &&& forall|i: int| w.len() <= i < N ==> a@[i] == 0
        }),
{
    let mut a = [0u16; N];
    let cap: usize = if N > 0 { N - 1 } else { 0 };
    let cs = chars_of(text);
    let mut written: usize = 0;
    let mut i: usize = 0;
    let ghost full = utf16_fill(text@, Seq::empty(), cap as nat);
    assert(cs@.skip(0) =~= cs@);
    assert(a@.take(0) =~= Seq::<u16>::empty());
    proof {
        lemma_utf16_fill_len(text@, Seq::empty(), cap as nat);
    }
    while i < cs.len()
        invariant
            cs@ == text@,
            cap as int == if N > 0 { N - 1 } else { 0 },
            i <= cs@.len(),
            written <= cap,
            a@.len() == N,
            full == utf16_fill(cs@.skip(i as int), a@.take(written as int), cap as nat),
            forall|k: int| written <= k < N ==> a@[k] == 0,
        ensures
            full == a@.take(written as int),
            forall|k: int| written <= k < N ==> a@[k] == 0,
            written <= cap,
        decreases cs@.len() - i,
    {
        let ghost acc = a@.take(written as int);
        assert(cs@.skip(i as int)[0] == cs@[i as int]);
        assert(cs@.skip(i as int).drop_first() =~= cs@.skip(i + 1));
        let (high, low) = encode_utf16(cs[i]);
        let units: usize = match low {
            Some(_) => 2,
            None => 1,
        };
        if units > cap - written {
            break;
        }
        a[written] = high;
        match low {
            Some(l) => {
                a[written + 1] = l;
            },
            None => {},
        }
        assert(a@.take(written + units) =~= acc + utf16_of(cs@[i as int]));
        written = written + units;
        i = i + 1;
    }
    proof {
        lemma_utf16_fill_len(text@, Seq::empty(), cap as nat);
    }
    a
}

} // verus!
