//! The download queue: task states, the task list the interface shows, and
//! the decisions taken when songs are queued or finish.

use vstd::prelude::*;
use crate::download::engine::{DownloadConfig, DownloadOptions, DownloadProgress, ProgressSnapshot};
use crate::download::records::DownloadStatus;
use crate::song::{is_local_source, is_local_spec, SongInfo};
use crate::text::{push_str, str_eq, string_of, trim_seq};

verus! {

broadcast use vstd::string::group_string_axioms;

/// Finished tasks kept in the list.
pub const FINISHED_TASK_LIMIT: usize = 100;

/// Attempts per song; each failure moves on to the next resolver.
pub const DOWNLOAD_ATTEMPTS: usize = 3;

/// Cover art larger than this is not embedded.
pub const COVER_SIZE_LIMIT: u64 = 8 * 1024 * 1024;

/// Audio quality levels a source can serve.
#[derive(Debug, Clone, Copy, PartialEq, Eq, Structural)]
pub enum Quality {
    Low128,
    High320,
    Flac,
    Flac24,
}

impl Quality {
    pub open spec fn spec_label(self) -> Seq<char> {
        match self {
            Quality::Low128 => "128K"@,
            Quality::High320 => "320K"@,
            Quality::Flac => "FLAC"@,
            Quality::Flac24 => "Hi-Res"@,
        }
    }

    /// The short name the interface shows for a quality.
    pub fn label(self) -> (s: &'static str)
        ensures
            s@ == self.spec_label(),
    {
        match self {
            Quality::Low128 => "128K",
            Quality::High320 => "320K",
            Quality::Flac => "FLAC",
            Quality::Flac24 => "Hi-Res",
        }
    }
}

/// Who queued a download.
#[derive(Debug, Clone, Copy, PartialEq, Eq, Structural)]
pub enum DownloadTrigger {
    /// The user asked for it.
    Manual,
    /// Cached automatically while playing: quiet until it finishes.
    AutoCache,
}

/// Where a task stands.
#[derive(Debug, Clone, Copy, PartialEq, Eq, Structural)]
pub enum DownloadState {
    Queued,
    Resolving,
    Downloading,
    Tagging,
    Done,
    Skipped,
    Cancelled,
    Failed,
}

impl DownloadState {
    pub open spec fn spec_is_active(self) -> bool {
        match self {
            DownloadState::Queued | DownloadState::Resolving | DownloadState::Downloading
            | DownloadState::Tagging => true,
            _ => false,
        }
    }

    /// Queued, resolving, downloading and tagging tasks are still running.
    pub fn is_active(self) -> (r: bool)
        ensures
            r == self.spec_is_active(),
    {
        match self {
            DownloadState::Queued | DownloadState::Resolving | DownloadState::Downloading
            | DownloadState::Tagging => true,
            _ => false,
        }
    }

    pub open spec fn spec_label(self) -> Seq<char> {
        match self {
            DownloadState::Queued => "排队中"@,
            DownloadState::Resolving => "解析地址"@,
            DownloadState::Downloading => "下载中"@,
            DownloadState::Tagging => "写入标签"@,
            DownloadState::Done => "已完成"@,
            DownloadState::Skipped => "已跳过"@,
            DownloadState::Cancelled => "已取消"@,
            DownloadState::Failed => "失败"@,
        }
    }

    /// The state as the download list shows it.
    pub fn label(self) -> (s: &'static str)
        ensures
            s@ == self.spec_label(),
    {
        match self {
            DownloadState::Queued => "排队中",
            DownloadState::Resolving => "解析地址",
            DownloadState::Downloading => "下载中",
            DownloadState::Tagging => "写入标签",
            DownloadState::Done => "已完成",
            DownloadState::Skipped => "已跳过",
            DownloadState::Cancelled => "已取消",
            DownloadState::Failed => "失败",
        }
    }
}

/// The extension assumed before the real format is detected: lossless
/// qualities are FLAC, the others MP3.
pub fn guess_extension(quality: Quality) -> (s: &'static str)
    ensures
        s@ == match quality {
            Quality::Flac | Quality::Flac24 => "flac"@,
            Quality::High320 | Quality::Low128 => "mp3"@,
        },
{
    match quality {
        Quality::Flac | Quality::Flac24 => "flac",
        Quality::High320 | Quality::Low128 => "mp3",
    }
}

/// The bitrate in kbps a file of `size_bytes` playing `duration_secs` has:
/// `size * 8 / duration / 1000` (the product saturating), unknown when either
/// input is zero or the result rounds down to zero.
pub open spec fn bitrate_spec(size_bytes: u64, duration_secs: u64) -> Option<u32> {
    if duration_secs == 0 || size_bytes == 0 {
        None
    } else {
        let bits: int = if size_bytes * 8 <= u64::MAX {
            size_bytes * 8
        } else {
            u64::MAX as int
        };
        let kbps = bits / duration_secs as int / 1000;
        if kbps > 0 {
            Some(
                if kbps <= u32::MAX {
                    kbps as u32
                } else {
                    u32::MAX
                },
            )
        } else {
            None
        }
    }
}

pub fn estimate_bitrate(size_bytes: u64, duration_secs: u64) -> (r: Option<u32>)
    ensures
        r == bitrate_spec(size_bytes, duration_secs),
{
    if duration_secs == 0 || size_bytes == 0 {
        return None;
    }
    let bits = if size_bytes <= u64::MAX / 8 {
        size_bytes * 8
    } else {
        u64::MAX
    };
    let kbps = bits / duration_secs / 1000;
    if kbps > 0 {
        Some(
            if kbps <= u32::MAX as u64 {
                kbps as u32
            } else {
                u32::MAX
            },
        )
    } else {
        None
    }
}

/// One queued, running or finished download.
#[derive(Debug)]
pub struct DownloadTask {
    pub id: u64,
    pub name: String,
    pub singer: String,
    /// The source's short name.
    pub source: String,
    pub quality: Quality,
    pub dest: String,
    pub state: DownloadState,
    pub error: Option<String>,
    pub progress: DownloadProgress,
    /// When the task was queued, in milliseconds of the caller's clock.
    pub started_at_ms: u64,
    pub finished_at_ms: Option<u64>,
    pub bytes: u64,
    /// The size the source declared, when known.
    pub expected_size: Option<u64>,
    /// The song length, used to turn a size into a bitrate.
    pub duration_secs: u64,
    pub trigger: DownloadTrigger,
}

/// What the interface reads of a task every frame.
#[derive(Debug, Clone)]
pub struct DownloadTaskView {
    pub id: u64,
    pub name: String,
    pub singer: String,
    pub source: String,
    pub quality: Quality,
    pub dest: String,
    pub state: DownloadState,
    pub error: Option<String>,
    pub progress: ProgressSnapshot,
    pub elapsed_ms: u64,
    pub bytes: u64,
    pub expected_size: Option<u64>,
    /// Estimated from the declared size and the song length.
    pub bitrate_kbps: Option<u32>,
    pub trigger: DownloadTrigger,
}

/// `name - singer`, or just the name when the singer is blank.
pub open spec fn display_name_spec(name: Seq<char>, singer: Seq<char>) -> Seq<char> {
    if trim_seq(singer).len() == 0 {
        name
    } else {
        name + " - "@ + singer
    }
}

impl DownloadTaskView {
    /// The title line of the task.
    pub fn display_name(&self) -> (s: String)
        ensures
            s@ == display_name_spec(self.name@, self.singer@),
    {
        let t = crate::text::trim(self.singer.as_str());
        if t.as_str().unicode_len() == 0 {
            string_of(self.name.as_str())
        } else {
            let mut s = String::new();
            push_str(&mut s, self.name.as_str());
            push_str(&mut s, " - ");
            push_str(&mut s, self.singer.as_str());
            assert(s@ =~= display_name_spec(self.name@, self.singer@));
            s
        }
    }
}

/// The number of running tasks in `s`.
pub open spec fn count_active(s: Seq<DownloadTask>) -> nat
    decreases s.len(),
{
    if s.len() == 0 {
        0
    } else {
        count_active(s.drop_last()) + if s.last().state.spec_is_active() {
            1nat
        } else {
            0nat
        }
    }
}

/// The number of finished (done, skipped, cancelled or failed) tasks in `s`.
pub open spec fn count_finished(s: Seq<DownloadTask>) -> nat
    decreases s.len(),
{
    if s.len() == 0 {
        0
    } else {
        count_finished(s.drop_last()) + if s.last().state.spec_is_active() {
            0nat
        } else {
            1nat
        }
    }
}

/// The running tasks of `s`, in order.
pub open spec fn active_tasks(s: Seq<DownloadTask>) -> Seq<DownloadTask> {
    s.filter(|t: DownloadTask| t.state.spec_is_active())
}

/// `s` without its first `k` finished tasks; running tasks all stay.
pub open spec fn drop_oldest_finished(s: Seq<DownloadTask>, k: nat) -> Seq<DownloadTask>
    decreases s.len(),
{
    if s.len() == 0 {
        s
    } else if k > 0 && !s[0].state.spec_is_active() {
        drop_oldest_finished(s.drop_first(), (k - 1) as nat)
    } else {
        seq![s[0]] + drop_oldest_finished(s.drop_first(), k)
    }
}

/// The task list after trimming: when more than `FINISHED_TASK_LIMIT`
/// finished tasks are listed, the oldest finished ones go.
pub open spec fn trimmed(s: Seq<DownloadTask>) -> Seq<DownloadTask> {
    if count_finished(s) <= FINISHED_TASK_LIMIT {
        s
    } else {
        drop_oldest_finished(s, (count_finished(s) - FINISHED_TASK_LIMIT) as nat)
    }
}

proof fn lemma_count_prepend(t: DownloadTask, s: Seq<DownloadTask>)
    ensures
        count_finished(seq![t] + s) == count_finished(s) + if t.state.spec_is_active() {
            0nat
        } else {
            1nat
        },
        count_active(seq![t] + s) == count_active(s) + if t.state.spec_is_active() {
            1nat
        } else {
            0nat
        },
    decreases s.len(),
{
    let w = seq![t] + s;
    if s.len() == 0 {
        assert(w.drop_last() =~= Seq::<DownloadTask>::empty());
        assert(w.last() == t);
        assert(count_finished(w.drop_last()) == 0);
        assert(count_active(w.drop_last()) == 0);
    } else {
        assert(w.drop_last() =~= seq![t] + s.drop_last());
        assert(w.last() == s.last());
        lemma_count_prepend(t, s.drop_last());
    }
}

proof fn lemma_count_first(s: Seq<DownloadTask>)
    requires
        s.len() > 0,
    ensures
        count_finished(s) == count_finished(s.drop_first()) + if s[0].state.spec_is_active() {
            0nat
        } else {
            1nat
        },
        count_active(s) == count_active(s.drop_first()) + if s[0].state.spec_is_active() {
            1nat
        } else {
            0nat
        },
{
    assert(s =~= seq![s[0]] + s.drop_first());
    lemma_count_prepend(s[0], s.drop_first());
}

/// Dropping the oldest `k` finished tasks removes `min(k, finished)` finished
/// tasks and keeps every running task in order.
pub proof fn lemma_drop_oldest_finished(s: Seq<DownloadTask>, k: nat)
    ensures
        count_finished(drop_oldest_finished(s, k)) == if k <= count_finished(s) {
            count_finished(s) - k
        } else {
            0
        },
        active_tasks(drop_oldest_finished(s, k)) == active_tasks(s),
        count_active(drop_oldest_finished(s, k)) == count_active(s),
    decreases s.len(),
{
    reveal(Seq::filter);
    if s.len() > 0 {
        lemma_count_first(s);
        let rest = s.drop_first();
        if k > 0 && !s[0].state.spec_is_active() {
            lemma_drop_oldest_finished(rest, (k - 1) as nat);
            assert(active_tasks(s) == active_tasks(rest)) by {
                assert(s.drop_last().len() >= 0);
                lemma_filter_first(s);
            }
        } else {
            lemma_drop_oldest_finished(rest, k);
            let d = drop_oldest_finished(rest, k);
            lemma_count_prepend(s[0], d);
            lemma_filter_first(s);
            lemma_filter_first(seq![s[0]] + d);
            assert((seq![s[0]] + d).drop_first() =~= d);
            assert((seq![s[0]] + d)[0] == s[0]);
        }
    }
}

proof fn lemma_filter_first(s: Seq<DownloadTask>)
    requires
        s.len() > 0,
    ensures
        active_tasks(s) == if s[0].state.spec_is_active() {
            seq![s[0]] + active_tasks(s.drop_first())
        } else {
            active_tasks(s.drop_first())
        },
{
    let f = |t: DownloadTask| t.state.spec_is_active();
    assert(s =~= seq![s[0]] + s.drop_first());
    Seq::filter_distributes_over_add(seq![s[0]], s.drop_first(), f);
    reveal_with_fuel(Seq::filter, 2);
    assert(seq![s[0]].filter(f) =~= if f(s[0]) {
        seq![s[0]]
    } else {
        Seq::<DownloadTask>::empty()
    }) by {
        assert(seq![s[0]].drop_last() =~= Seq::<DownloadTask>::empty());
    }
}

/// Trimming keeps every running task and at most `FINISHED_TASK_LIMIT`
/// finished ones.
pub proof fn lemma_trimmed(s: Seq<DownloadTask>)
    ensures
        active_tasks(trimmed(s)) == active_tasks(s),
        count_finished(trimmed(s)) == if count_finished(s) <= FINISHED_TASK_LIMIT {
            count_finished(s)
        } else {
            FINISHED_TASK_LIMIT as nat
        },
{
    if count_finished(s) > FINISHED_TASK_LIMIT {
        lemma_drop_oldest_finished(s, (count_finished(s) - FINISHED_TASK_LIMIT) as nat);
    }
}

fn count_finished_exec(tasks: &Vec<DownloadTask>) -> (n: usize)
    ensures
        n == count_finished(tasks@),
{
    let mut n: usize = 0;
    let mut i: usize = 0;
    while i < tasks.len()
        invariant
            i <= tasks.len(),
            n == count_finished(tasks@.take(i as int)),
            n <= i,
        decreases tasks.len() - i,
    {
        assert(tasks@.take(i + 1).drop_last() =~= tasks@.take(i as int));
        if !tasks[i].state.is_active() {
            n = n + 1;
        }
        i = i + 1;
    }
    assert(tasks@.take(i as int) =~= tasks@);
    n
}

proof fn lemma_drop_oldest_split(s: Seq<DownloadTask>, i: int, k: nat)
    requires
        0 <= i < s.len(),
    ensures
        drop_oldest_finished(s.skip(i), k) == if k > 0 && !s[i].state.spec_is_active() {
            drop_oldest_finished(s.skip(i + 1), (k - 1) as nat)
        } else {
            seq![s[i]] + drop_oldest_finished(s.skip(i + 1), k)
        },
{
    assert(s.skip(i).drop_first() =~= s.skip(i + 1));
    assert(s.skip(i)[0] == s[i]);
}

/// Keeps the running tasks and the newest `FINISHED_TASK_LIMIT` finished
/// tasks, in their order.
pub fn trim_finished(tasks: &mut Vec<DownloadTask>)
    ensures
        final(tasks)@ == trimmed(old(tasks)@),
{
    let finished = count_finished_exec(tasks);
    if finished <= FINISHED_TASK_LIMIT {
        return;
    }
    let mut to_remove = finished - FINISHED_TASK_LIMIT;
    let ghost initial = tasks@;
    let ghost total = to_remove as nat;
    let mut i: usize = 0;
    let ghost mut j: int = 0;
    assert(initial.skip(0) =~= initial);
    assert(tasks@.take(0) =~= Seq::<DownloadTask>::empty());
    while i < tasks.len()
        invariant
            0 <= j <= initial.len(),
            i <= tasks.len(),
            tasks@.len() - i == initial.len() - j,
            tasks@.skip(i as int) == initial.skip(j),
            tasks@.take(i as int) + drop_oldest_finished(initial.skip(j), to_remove as nat)
                == drop_oldest_finished(initial, total),
        decreases tasks.len() - i,
    {
        assert(tasks@[i as int] == initial[j]) by {
            assert(tasks@.skip(i as int)[0] == initial.skip(j)[0]);
        }
        proof {
            lemma_drop_oldest_split(initial, j, to_remove as nat);
        }
        let ghost before = tasks@;
        if to_remove > 0 && !tasks[i].state.is_active() {
            tasks.remove(i);
            to_remove = to_remove - 1;
            assert(tasks@.take(i as int) =~= before.take(i as int));
            assert(tasks@.skip(i as int) =~= before.skip(i as int).drop_first());
            assert(initial.skip(j).drop_first() =~= initial.skip(j + 1));
        } else {
            i = i + 1;
            assert(tasks@.take(i as int) =~= before.take(i - 1) + seq![initial[j]]);
            assert(tasks@.skip(i as int) =~= before.skip(i - 1).drop_first());
            assert(initial.skip(j).drop_first() =~= initial.skip(j + 1));
        }
        proof {
            j = j + 1;
        }
    }
    assert(initial.skip(j) =~= Seq::<DownloadTask>::empty());
    assert(tasks@.take(i as int) =~= tasks@);
}


/// `i` is the first position of a task with this id in `s`.
pub open spec fn is_first_with_id(s: Seq<DownloadTask>, id: u64, i: int) -> bool {
    &&& 0 <= i < s.len()
    &&& s[i].id == id
    &&& forall|j: int| 0 <= j < i ==> s[j].id != id
}

/// No task in `s` has this id.
pub open spec fn has_no_id(s: Seq<DownloadTask>, id: u64) -> bool {
    forall|j: int| 0 <= j < s.len() ==> s[j].id != id
}

/// The tasks of `s` whose id is not `id`, in order.
pub open spec fn without_id(s: Seq<DownloadTask>, id: u64) -> Seq<DownloadTask> {
    s.filter(|t: DownloadTask| t.id != id)
}

/// `new` is `old` cancelled at `now_ms`: its progress is flagged cancelled,
/// its error cleared, and nothing else changes.
pub open spec fn cancelled_at(old: DownloadTask, new: DownloadTask, now_ms: u64) -> bool {
    &&& new == (DownloadTask {
        state: DownloadState::Cancelled,
        error: None,
        finished_at_ms: Some(now_ms),
        progress: new.progress,
        ..old
    })
    &&& new.progress@ == (ProgressSnapshot { cancelled: true, ..old.progress@ })
}

/// `new` is `old` finished at `now_ms` in `state`.
pub open spec fn finished_at(
    old: DownloadTask,
    state: DownloadState,
    error: Option<String>,
    bytes: u64,
    dest: Option<String>,
    now_ms: u64,
) -> DownloadTask {
    DownloadTask {
        state: state,
        error: error,
        bytes: bytes,
        dest: match dest {
            Some(d) => d,
            None => old.dest,
        },
        finished_at_ms: Some(now_ms),
        ..old
    }
}

/// The task list after a task's result arrives: the first task with `id`
/// takes the result unless it was cancelled, then the list is trimmed.
pub open spec fn finish_spec(
    s: Seq<DownloadTask>,
    id: u64,
    state: DownloadState,
    error: Option<String>,
    bytes: u64,
    dest: Option<String>,
    now_ms: u64,
) -> Seq<DownloadTask> {
    if exists|i: int| is_first_with_id(s, id, i) {
        let i = choose|i: int| is_first_with_id(s, id, i);
        if s[i].state == DownloadState::Cancelled {
            s
        } else {
            trimmed(s.update(i, finished_at(s[i], state, error, bytes, dest, now_ms)))
        }
    } else {
        trimmed(s)
    }
}

proof fn lemma_first_with_id_unique(s: Seq<DownloadTask>, id: u64, i: int, k: int)
    requires
        is_first_with_id(s, id, i),
        is_first_with_id(s, id, k),
    ensures
        i == k,
{
    if i < k {
        assert(s[i].id != id);
    } else if k < i {
        assert(s[k].id != id);
    }
}

/// The number of running tasks, the initial list's way of saying how busy
/// the queue is.
fn count_active_exec(tasks: &Vec<DownloadTask>) -> (n: usize)
    ensures
        n == count_active(tasks@),
{
    let mut n: usize = 0;
    let mut i: usize = 0;
    while i < tasks.len()
        invariant
            i <= tasks.len(),
            n == count_active(tasks@.take(i as int)),
            n <= i,
        decreases tasks.len() - i,
    {
        assert(tasks@.take(i + 1).drop_last() =~= tasks@.take(i as int));
        if tasks[i].state.is_active() {
            n = n + 1;
        }
        i = i + 1;
    }
    assert(tasks@.take(i as int) =~= tasks@);
    n
}

/// The position of the first task with `id`.
fn find_task(tasks: &Vec<DownloadTask>, id: u64) -> (r: Option<usize>)
    ensures
        match r {
            Some(i) => is_first_with_id(tasks@, id, i as int),
            None => has_no_id(tasks@, id),
        },
{
    let mut i: usize = 0;
    while i < tasks.len()
        invariant
            i <= tasks.len(),
            forall|j: int| 0 <= j < i ==> tasks@[j].id != id,
        decreases tasks.len() - i,
    {
        if tasks[i].id == id {
            return Some(i);
        }
        i = i + 1;
    }
    None
}

/// Removes every task with `id`, keeping the others in order.
fn remove_id(tasks: &mut Vec<DownloadTask>, id: u64)
    ensures
        final(tasks)@ == without_id(old(tasks)@, id),
{
    let ghost initial = tasks@;
    let ghost f = |t: DownloadTask| t.id != id;
    let mut i: usize = 0;
    let ghost mut j: int = 0;
    assert(initial.skip(0) =~= initial);
    assert(initial.take(0) =~= Seq::<DownloadTask>::empty());
    proof {
        reveal(Seq::filter);
    }
    assert(tasks@.take(0) =~= initial.take(0).filter(f));
    while i < tasks.len()
        invariant
            0 <= j <= initial.len(),
            i <= tasks.len(),
            tasks@.len() - i == initial.len() - j,
            tasks@.skip(i as int) == initial.skip(j),
            tasks@.take(i as int) == initial.take(j).filter(f),
            f == (|t: DownloadTask| t.id != id),
        decreases tasks.len() - i,
    {
        assert(tasks@[i as int] == initial[j]) by {
            assert(tasks@.skip(i as int)[0] == initial.skip(j)[0]);
        }
        let ghost before = tasks@;
        assert(initial.take(j + 1).drop_last() =~= initial.take(j));
        assert(initial.skip(j).drop_first() =~= initial.skip(j + 1));
        proof {
            reveal(Seq::filter);
        }
        if tasks[i].id == id {
            tasks.remove(i);
            assert(tasks@.take(i as int) =~= before.take(i as int));
            assert(tasks@.skip(i as int) =~= before.skip(i as int).drop_first());
        } else {
            i = i + 1;
            assert(tasks@.take(i as int) =~= before.take(i - 1).push(initial[j]));
            assert(tasks@.skip(i as int) =~= before.skip(i - 1).drop_first());
        }
        proof {
            j = j + 1;
        }
    }
    assert(initial.take(j) =~= initial);
    assert(tasks@.take(i as int) =~= tasks@);
}

/// Removes every finished task, keeping the running ones in order.
fn retain_active(tasks: &mut Vec<DownloadTask>)
    ensures
        final(tasks)@ == active_tasks(old(tasks)@),
{
    let ghost initial = tasks@;
    let ghost f = |t: DownloadTask| t.state.spec_is_active();
    let mut i: usize = 0;
    let ghost mut j: int = 0;
    assert(initial.skip(0) =~= initial);
    assert(initial.take(0) =~= Seq::<DownloadTask>::empty());
    proof {
        reveal(Seq::filter);
    }
    assert(tasks@.take(0) =~= initial.take(0).filter(f));
    while i < tasks.len()
        invariant
            0 <= j <= initial.len(),
            i <= tasks.len(),
            tasks@.len() - i == initial.len() - j,
            tasks@.skip(i as int) == initial.skip(j),
            tasks@.take(i as int) == initial.take(j).filter(f),
            f == (|t: DownloadTask| t.state.spec_is_active()),
        decreases tasks.len() - i,
    {
        assert(tasks@[i as int] == initial[j]) by {
            assert(tasks@.skip(i as int)[0] == initial.skip(j)[0]);
        }
        let ghost before = tasks@;
        assert(initial.take(j + 1).drop_last() =~= initial.take(j));
        assert(initial.skip(j).drop_first() =~= initial.skip(j + 1));
        proof {
            reveal(Seq::filter);
        }
        if !tasks[i].state.is_active() {
            tasks.remove(i);
            assert(tasks@.take(i as int) =~= before.take(i as int));
            assert(tasks@.skip(i as int) =~= before.skip(i as int).drop_first());
        } else {
            i = i + 1;
            assert(tasks@.take(i as int) =~= before.take(i - 1).push(initial[j]));
            assert(tasks@.skip(i as int) =~= before.skip(i - 1).drop_first());
        }
        proof {
            j = j + 1;
        }
    }
    assert(initial.take(j) =~= initial);
    assert(tasks@.take(i as int) =~= tasks@);
}

/// A set of string keys (song keys, dedup keys), each held once.
pub struct KeySet {
    keys: Vec<String>,
}

impl View for KeySet {
    type V = Set<Seq<char>>;

    closed spec fn view(&self) -> Set<Seq<char>> {
        Set::new(|x: Seq<char>| exists|i: int| 0 <= i < self.keys@.len() && self.keys@[i]@ == x)
    }
}

impl KeySet {
    #[verifier::type_invariant]
    spec fn distinct(self) -> bool {
        forall|i: int, j: int| 0 <= i < j < self.keys@.len() ==> self.keys@[i]@ != self.keys@[j]@
    }

    /// An empty set.
    pub fn new() -> (s: Self)
        ensures
            s@ == Set::<Seq<char>>::empty(),
    {
        let s = KeySet { keys: Vec::new() };
        assert(s@ =~= Set::<Seq<char>>::empty());
        s
    }

    fn position(&self, key: &str) -> (r: Option<usize>)
        ensures
            match r {
                Some(i) => i < self.keys@.len() && self.keys@[i as int]@ == key@,
                None => forall|j: int| 0 <= j < self.keys@.len() ==> self.keys@[j]@ != key@,
            },
    {
        let mut i: usize = 0;
        while i < self.keys.len()
            invariant
                i <= self.keys@.len(),
                forall|j: int| 0 <= j < i ==> self.keys@[j]@ != key@,
            decreases self.keys@.len() - i,
        {
            if str_eq(self.keys[i].as_str(), key) {
                return Some(i);
            }
            i = i + 1;
        }
        None
    }

    /// Whether `key` is in the set.
    pub fn contains(&self, key: &str) -> (r: bool)
        ensures
            r == self@.contains(key@),
    {
        match self.position(key) {
            Some(i) => {
                assert(self@.contains(key@)) by {
                    assert(self.keys@[i as int]@ == key@);
                }
                true
            },
            None => false,
        }
    }

    /// Adds `key`; says whether it was new.
    pub fn insert(&mut self, key: &str) -> (r: bool)
        ensures
            r == !old(self)@.contains(key@),
            final(self)@ == old(self)@.insert(key@),
    {
        proof {
            use_type_invariant(&*self);
        }
        match self.position(key) {
            Some(i) => {
                assert(old(self)@.contains(key@)) by {
                    assert(self.keys@[i as int]@ == key@);
                }
                assert(self@ =~= old(self)@.insert(key@));
                false
            },
            None => {
                let ghost before = self.keys@;
                let k = string_of(key);
                let mut keys: Vec<String> = Vec::new();
                std::mem::swap(&mut keys, &mut self.keys);
                keys.push(k);
                self.keys = keys;
                assert(self@ =~= old(self)@.insert(key@)) by {
                    assert(self.keys@[before.len() as int]@ == key@);
                    assert forall|x: Seq<char>| #[trigger] self@.contains(x) implies old(self)@.insert(key@).contains(x) by {
                        let i = choose|i: int| 0 <= i < self.keys@.len() && self.keys@[i]@ == x;
                        if i < before.len() {
                            assert(before[i]@ == x);
                        }
                    }
                    assert forall|x: Seq<char>| #[trigger] old(self)@.contains(x) implies self@.contains(x) by {
                        let i = choose|i: int| 0 <= i < before.len() && before[i]@ == x;
                        assert(self.keys@[i]@ == x);
                    }
                }
                true
            },
        }
    }

    /// Drops `key`; says whether it was there.
    pub fn remove(&mut self, key: &str) -> (r: bool)
        ensures
            r == old(self)@.contains(key@),
            final(self)@ == old(self)@.remove(key@),
    {
        proof {
            use_type_invariant(&*self);
        }
        match self.position(key) {
            Some(i) => {
                let ghost before = self.keys@;
                assert(old(self)@.contains(key@)) by {
                    assert(before[i as int]@ == key@);
                }
                let mut keys: Vec<String> = Vec::new();
                std::mem::swap(&mut keys, &mut self.keys);
                keys.remove(i);
                proof {
                    assert forall|a: int, b: int| 0 <= a < b < keys@.len() implies keys@[a]@ != keys@[b]@ by {
                        let a0 = if a < i { a } else { a + 1 };
                        let b0 = if b < i { b } else { b + 1 };
                        assert(keys@[a] == before[a0]);
                        assert(keys@[b] == before[b0]);
                    }
                }
                self.keys = keys;
                assert(self@ =~= old(self)@.remove(key@)) by {
                    assert forall|x: Seq<char>| #[trigger] self@.contains(x) implies old(self)@.remove(key@).contains(x) by {
                        let j = choose|j: int| 0 <= j < self.keys@.len() && self.keys@[j]@ == x;
                        if j < i {
                            assert(before[j]@ == x);
                            assert(x != key@);
                        } else {
                            assert(before[j + 1]@ == x);
                            assert(x != key@);
                        }
                    }
                    assert forall|x: Seq<char>| #[trigger] old(self)@.remove(key@).contains(x) implies self@.contains(x) by {
                        let j = choose|j: int| 0 <= j < before.len() && before[j]@ == x;
                        assert(j != i);
                        if j < i {
                            assert(self.keys@[j]@ == x);
                        } else {
                            assert(self.keys@[j - 1]@ == x);
                        }
                    }
                }
                true
            },
            None => {
                assert(self@ =~= old(self)@.remove(key@));
                false
            },
        }
    }
}

/// What the interface shows of `t` at `now_ms`.
pub open spec fn task_view(t: DownloadTask, now_ms: u64) -> DownloadTaskView {
    DownloadTaskView {
        id: t.id,
        name: t.name,
        singer: t.singer,
        source: t.source,
        quality: t.quality,
        dest: t.dest,
        state: t.state,
        error: t.error,
        progress: t.progress@,
        elapsed_ms: elapsed_spec(t.started_at_ms, t.finished_at_ms, now_ms),
        bytes: t.bytes,
        expected_size: t.expected_size,
        bitrate_kbps: match t.expected_size {
            Some(size) => bitrate_spec(size, t.duration_secs),
            None => None,
        },
        trigger: t.trigger,
    }
}

/// Time from queueing to the end (or to `now_ms` while it runs), never
/// below zero.
pub open spec fn elapsed_spec(started_ms: u64, finished_ms: Option<u64>, now_ms: u64) -> u64 {
    let end = match finished_ms {
        Some(f) => f,
        None => now_ms,
    };
    if end >= started_ms {
        (end - started_ms) as u64
    } else {
        0
    }
}

fn clone_opt_string(o: &Option<String>) -> (r: Option<String>)
    ensures
        r == *o,
{
    match o {
        Some(s) => Some(s.clone()),
        None => None,
    }
}

/// The queue of downloads: the task list the interface shows, the songs
/// being fetched, the songs already cached automatically this session, and
/// the next task id.
pub struct DownloadManager {
    tasks: Vec<DownloadTask>,
    inflight: KeySet,
    auto_cached: KeySet,
    next_id: u64,
}

impl DownloadManager {
    /// The tasks, oldest first.
    pub closed spec fn task_list(&self) -> Seq<DownloadTask> {
        self.tasks@
    }

    /// Dedup keys (`source:id`) of the songs being fetched.
    pub closed spec fn inflight_keys(&self) -> Set<Seq<char>> {
        self.inflight@
    }

    /// Song keys already cached automatically this session.
    pub closed spec fn auto_cached_keys(&self) -> Set<Seq<char>> {
        self.auto_cached@
    }

    /// The id the next task gets.
    pub closed spec fn next_task_id(&self) -> u64 {
        self.next_id
    }

    /// An empty queue; ids start at 1.
    pub fn new() -> (m: Self)
        ensures
            m.task_list() == Seq::<DownloadTask>::empty(),
            m.inflight_keys() == Set::<Seq<char>>::empty(),
            m.auto_cached_keys() == Set::<Seq<char>>::empty(),
            m.next_task_id() == 1,
    {
        DownloadManager { tasks: Vec::new(), inflight: KeySet::new(), auto_cached: KeySet::new(), next_id: 1 }
    }

    /// The tasks, oldest first.
    pub fn tasks(&self) -> (r: &Vec<DownloadTask>)
        ensures
            r@ == self.task_list(),
    {
        &self.tasks
    }

    /// What the interface shows of every task at `now_ms`, in list order.
    pub fn snapshot(&self, now_ms: u64) -> (v: Vec<DownloadTaskView>)
        ensures
            v@.len() == self.task_list().len(),
            forall|i: int| 0 <= i < v@.len() ==> #[trigger] v@[i] == task_view(self.task_list()[i], now_ms),
    {
        let mut v: Vec<DownloadTaskView> = Vec::new();
        let mut i: usize = 0;
        while i < self.tasks.len()
            invariant
                i <= self.tasks@.len(),
                v@.len() == i,
                forall|k: int| 0 <= k < i ==> #[trigger] v@[k] == task_view(self.tasks@[k], now_ms),
            decreases self.tasks@.len() - i,
        {
            let t = &self.tasks[i];
            let end = match t.finished_at_ms {
                Some(f) => f,
                None => now_ms,
            };
            let elapsed = if end >= t.started_at_ms {
                end - t.started_at_ms
            } else {
                0
            };
            let bitrate = match t.expected_size {
                Some(size) => estimate_bitrate(size, t.duration_secs),
                None => None,
            };
            let view = DownloadTaskView {
                id: t.id,
                name: t.name.clone(),
                singer: t.singer.clone(),
                source: t.source.clone(),
                quality: t.quality,
                dest: t.dest.clone(),
                state: t.state,
                error: clone_opt_string(&t.error),
                progress: t.progress.snapshot(),
                elapsed_ms: elapsed,
                bytes: t.bytes,
                expected_size: t.expected_size,
                bitrate_kbps: bitrate,
                trigger: t.trigger,
            };
            v.push(view);
            i = i + 1;
        }
        v
    }

    /// How many tasks are still running.
    pub fn active_count(&self) -> (n: usize)
        ensures
            n == count_active(self.task_list()),
    {
        count_active_exec(&self.tasks)
    }

    /// Cancels a running task at `now_ms`; a finished task is only taken off
    /// the list. An unknown id changes nothing.
    pub fn cancel(&mut self, id: u64, now_ms: u64)
        ensures
            final(self).inflight_keys() == old(self).inflight_keys(),
            final(self).auto_cached_keys() == old(self).auto_cached_keys(),
            final(self).next_task_id() == old(self).next_task_id(),
            has_no_id(old(self).task_list(), id) ==> final(self).task_list() == old(self).task_list(),
            forall|i: int| #[trigger] is_first_with_id(old(self).task_list(), id, i) ==> {
                if old(self).task_list()[i].state.spec_is_active() {
                    &&& final(self).task_list().len() == old(self).task_list().len()
                    &&& cancelled_at(old(self).task_list()[i], final(self).task_list()[i], now_ms)
                    &&& forall|j: int| 0 <= j < old(self).task_list().len() && j != i
                        ==> final(self).task_list()[j] == old(self).task_list()[j]
                } else {
                    final(self).task_list() == without_id(old(self).task_list(), id)
                }
            },
    {
        match find_task(&self.tasks, id) {
            None => {},
            Some(i) => {
                if self.tasks[i].state.is_active() {
                    let ghost before = self.tasks@;
                    self.tasks[i].progress.cancel();
                    self.tasks[i].state = DownloadState::Cancelled;
                    self.tasks[i].error = None;
                    self.tasks[i].finished_at_ms = Some(now_ms);
                    proof {
                        assert forall|k: int| #[trigger] is_first_with_id(before, id, k) implies k == i by {
                            lemma_first_with_id_unique(before, id, i as int, k);
                        }
                    }
                } else {
                    proof {
                        assert forall|k: int| #[trigger] is_first_with_id(self.tasks@, id, k) implies k == i by {
                            lemma_first_with_id_unique(self.tasks@, id, i as int, k);
                        }
                    }
                    remove_id(&mut self.tasks, id);
                }
            },
        }
    }

    /// Drops every finished task, keeping the running ones in order.
    pub fn clear_finished(&mut self)
        ensures
            final(self).task_list() == active_tasks(old(self).task_list()),
            final(self).inflight_keys() == old(self).inflight_keys(),
            final(self).auto_cached_keys() == old(self).auto_cached_keys(),
            final(self).next_task_id() == old(self).next_task_id(),
    {
        retain_active(&mut self.tasks);
    }

    /// Records a task's result at `now_ms` and trims the finished tasks; a
    /// task the user cancelled keeps its cancelled state.
    pub fn finish(
        &mut self,
        id: u64,
        state: DownloadState,
        error: Option<String>,
        bytes: u64,
        dest: Option<String>,
        now_ms: u64,
    )
        ensures
            final(self).task_list() == finish_spec(old(self).task_list(), id, state, error, bytes, dest, now_ms),
            final(self).inflight_keys() == old(self).inflight_keys(),
            final(self).auto_cached_keys() == old(self).auto_cached_keys(),
            final(self).next_task_id() == old(self).next_task_id(),
    {
        let ghost before = self.tasks@;
        match find_task(&self.tasks, id) {
            Some(i) => {
                proof {
                    lemma_first_with_id_unique(before, id, i as int, choose|k: int| is_first_with_id(before, id, k));
                }
                if self.tasks[i].state == DownloadState::Cancelled {
                    return;
                }
                self.tasks[i].state = state;
                self.tasks[i].error = error;
                self.tasks[i].bytes = bytes;
                match dest {
                    Some(d) => {
                        self.tasks[i].dest = d;
                    },
                    None => {},
                }
                self.tasks[i].finished_at_ms = Some(now_ms);
                assert(self.tasks@ =~= before.update(i as int, finished_at(before[i as int], state, error, bytes, dest, now_ms)));
            },
            None => {},
        }
        trim_finished(&mut self.tasks);
    }

    /// Moves a task to its next stage, and to its final file when `dest` is
    /// given; a cancelled task stays as it is.
    pub fn update_state(&mut self, id: u64, state: DownloadState, dest: Option<String>)
        ensures
            final(self).inflight_keys() == old(self).inflight_keys(),
            final(self).auto_cached_keys() == old(self).auto_cached_keys(),
            final(self).next_task_id() == old(self).next_task_id(),
            has_no_id(old(self).task_list(), id) ==> final(self).task_list() == old(self).task_list(),
            forall|i: int| #[trigger] is_first_with_id(old(self).task_list(), id, i) ==>
                final(self).task_list() == if old(self).task_list()[i].state == DownloadState::Cancelled {
                    old(self).task_list()
                } else {
                    old(self).task_list().update(i, DownloadTask {
                        state: state,
                        dest: match dest {
                            Some(d) => d,
                            None => old(self).task_list()[i].dest,
                        },
                        ..old(self).task_list()[i]
                    })
                },
    {
        let ghost before = self.tasks@;
        match find_task(&self.tasks, id) {
            Some(i) => {
                proof {
                    assert forall|k: int| #[trigger] is_first_with_id(before, id, k) implies k == i by {
                        lemma_first_with_id_unique(before, id, i as int, k);
                    }
                }
                if self.tasks[i].state == DownloadState::Cancelled {
                    return;
                }
                self.tasks[i].state = state;
                match dest {
                    Some(d) => {
                        self.tasks[i].dest = d;
                    },
                    None => {},
                }
            },
            None => {},
        }
    }

    /// Notes the size a source declared, so the interface can show it (and a
    /// bitrate) before the transfer starts. A missing or zero size changes
    /// nothing.
    pub fn set_expected_size(&mut self, id: u64, size: Option<u64>)
        ensures
            final(self).inflight_keys() == old(self).inflight_keys(),
            final(self).auto_cached_keys() == old(self).auto_cached_keys(),
            final(self).next_task_id() == old(self).next_task_id(),
            (has_no_id(old(self).task_list(), id) || !(size matches Some(n) && n > 0))
                ==> final(self).task_list() == old(self).task_list(),
            forall|i: int| #[trigger] is_first_with_id(old(self).task_list(), id, i) && (size matches Some(n) && n > 0)
                ==> final(self).task_list() == old(self).task_list().update(i, DownloadTask {
                    expected_size: size,
                    ..old(self).task_list()[i]
                }),
    {
        let n = match size {
            Some(n) => n,
            None => {
                return;
            },
        };
        if n == 0 {
            return;
        }
        let ghost before = self.tasks@;
        match find_task(&self.tasks, id) {
            Some(i) => {
                proof {
                    assert forall|k: int| #[trigger] is_first_with_id(before, id, k) implies k == i by {
                        lemma_first_with_id_unique(before, id, i as int, k);
                    }
                }
                self.tasks[i].expected_size = Some(n);
            },
            None => {},
        }
    }

    /// The progress of a task, or the message shown when it was taken off
    /// the list meanwhile.
    pub fn task_progress(&self, id: u64) -> (r: Result<ProgressSnapshot, String>)
        ensures
            has_no_id(self.task_list(), id) ==> (r matches Err(e) && e@ == "下载任务已被移除"@),
            forall|i: int| #[trigger] is_first_with_id(self.task_list(), id, i)
                ==> r == Ok::<ProgressSnapshot, String>(self.task_list()[i].progress@),
    {
        match find_task(&self.tasks, id) {
            Some(i) => {
                proof {
                    assert forall|k: int| #[trigger] is_first_with_id(self.tasks@, id, k) implies k == i by {
                        lemma_first_with_id_unique(self.tasks@, id, i as int, k);
                    }
                }
                Ok(self.tasks[i].progress.snapshot())
            },
            None => Err(string_of("下载任务已被移除")),
        }
    }

    /// Adds a queued task at `now_ms` and returns its id.
    pub fn add_task(
        &mut self,
        name: String,
        singer: String,
        source: String,
        quality: Quality,
        dest: String,
        duration_secs: u64,
        trigger: DownloadTrigger,
        now_ms: u64,
    ) -> (id: u64)
        ensures
            id == old(self).next_task_id(),
            final(self).next_task_id() == vstd::wrapping::u64_specs::wrapping_add(id, 1),
            final(self).task_list().len() == old(self).task_list().len() + 1,
            final(self).task_list().drop_last() == old(self).task_list(),
            final(self).task_list().last() == (DownloadTask {
                id: id,
                name: name,
                singer: singer,
                source: source,
                quality: quality,
                dest: dest,
                state: DownloadState::Queued,
                error: None,
                progress: final(self).task_list().last().progress,
                started_at_ms: now_ms,
                finished_at_ms: None,
                bytes: 0,
                expected_size: None,
                duration_secs: duration_secs,
                trigger: trigger,
            }),
            final(self).task_list().last().progress@ == (ProgressSnapshot {
                downloaded: 0,
                total: 0,
                cancelled: false,
            }),
            final(self).inflight_keys() == old(self).inflight_keys(),
            final(self).auto_cached_keys() == old(self).auto_cached_keys(),
    {
        let id = self.next_id;
        self.next_id = self.next_id.wrapping_add(1);
        let task = DownloadTask {
            id,
            name,
            singer,
            source,
            quality,
            dest,
            state: DownloadState::Queued,
            error: None,
            progress: DownloadProgress::new(),
            started_at_ms: now_ms,
            finished_at_ms: None,
            bytes: 0,
            expected_size: None,
            duration_secs,
            trigger,
        };
        let ghost before = self.tasks@;
        self.tasks.push(task);
        assert(self.tasks@.drop_last() =~= before);
        id
    }

    /// Claims a dedup key for a song about to be fetched; false when it is
    /// already being fetched.
    pub fn reserve(&mut self, key: &str) -> (r: bool)
        ensures
            r == !old(self).inflight_keys().contains(key@),
            final(self).inflight_keys() == old(self).inflight_keys().insert(key@),
            final(self).task_list() == old(self).task_list(),
            final(self).auto_cached_keys() == old(self).auto_cached_keys(),
            final(self).next_task_id() == old(self).next_task_id(),
    {
        self.inflight.insert(key)
    }

    /// Gives a dedup key back once its song is done.
    pub fn release(&mut self, key: &str)
        ensures
            final(self).inflight_keys() == old(self).inflight_keys().remove(key@),
            final(self).task_list() == old(self).task_list(),
            final(self).auto_cached_keys() == old(self).auto_cached_keys(),
            final(self).next_task_id() == old(self).next_task_id(),
    {
        self.inflight.remove(key);
    }

    /// Marks a song as cached automatically this session; false when it
    /// already was.
    pub fn mark_auto_cached(&mut self, key: &str) -> (r: bool)
        ensures
            r == !old(self).auto_cached_keys().contains(key@),
            final(self).auto_cached_keys() == old(self).auto_cached_keys().insert(key@),
            final(self).task_list() == old(self).task_list(),
            final(self).inflight_keys() == old(self).inflight_keys(),
            final(self).next_task_id() == old(self).next_task_id(),
    {
        self.auto_cached.insert(key)
    }

    /// One playback tick of automatic caching for the song keyed `key`
    /// (`singer - name`) of `source`: it is queued when caching is on, it
    /// has played long enough, it is not a local file, it was not downloaded
    /// before, and it was not already queued this session; a queued song is
    /// marked so later ticks leave it alone.
    pub fn auto_cache_step(
        &mut self,
        enabled: bool,
        source: &str,
        key: &str,
        position_ms: u64,
        after_secs: u64,
        already_downloaded: bool,
    ) -> (enqueue: bool)
        ensures
            enqueue == (auto_cache_gate_spec(enabled, position_ms, after_secs, source@) && !already_downloaded
                && !old(self).auto_cached_keys().contains(key@)),
            final(self).auto_cached_keys() == if enqueue {
                old(self).auto_cached_keys().insert(key@)
            } else {
                old(self).auto_cached_keys()
            },
            final(self).task_list() == old(self).task_list(),
            final(self).inflight_keys() == old(self).inflight_keys(),
            final(self).next_task_id() == old(self).next_task_id(),
    {
        if !auto_cache_gate(enabled, position_ms, after_secs, source) || already_downloaded {
            return false;
        }
        let fresh = self.mark_auto_cached(key);
        if !fresh {
            assert(old(self).auto_cached_keys().insert(key@) =~= old(self).auto_cached_keys());
        }
        fresh
    }

    /// Takes the mark back when the song could not be queued, so a later
    /// check may try again.
    pub fn unmark_auto_cached(&mut self, key: &str)
        ensures
            final(self).auto_cached_keys() == old(self).auto_cached_keys().remove(key@),
            final(self).task_list() == old(self).task_list(),
            final(self).inflight_keys() == old(self).inflight_keys(),
            final(self).next_task_id() == old(self).next_task_id(),
    {
        self.auto_cached.remove(key);
    }
}

/// A late result never overwrites a cancellation: once the first task with
/// `id` is cancelled, recording a result for `id` leaves the list as it is.
pub proof fn lemma_finish_keeps_cancelled(
    s: Seq<DownloadTask>,
    id: u64,
    i: int,
    state: DownloadState,
    error: Option<String>,
    bytes: u64,
    dest: Option<String>,
    now_ms: u64,
)
    requires
        is_first_with_id(s, id, i),
        s[i].state == DownloadState::Cancelled,
    ensures
        finish_spec(s, id, state, error, bytes, dest, now_ms) == s,
{
    lemma_first_with_id_unique(s, id, i, choose|k: int| is_first_with_id(s, id, k));
}

/// Cancelling a running task and then receiving its result leaves the task
/// cancelled: `after` is the list `cancel` gives for `before`.
pub proof fn lemma_cancel_then_finish(
    before: Seq<DownloadTask>,
    after: Seq<DownloadTask>,
    id: u64,
    i: int,
    cancel_ms: u64,
    state: DownloadState,
    error: Option<String>,
    bytes: u64,
    dest: Option<String>,
    now_ms: u64,
)
    requires
        is_first_with_id(before, id, i),
        before[i].state.spec_is_active(),
        after.len() == before.len(),
        cancelled_at(before[i], after[i], cancel_ms),
        forall|j: int| 0 <= j < before.len() && j != i ==> after[j] == before[j],
    ensures
        finish_spec(after, id, state, error, bytes, dest, now_ms) == after,
        after[i].state == DownloadState::Cancelled,
{
    assert(is_first_with_id(after, id, i)) by {
        assert forall|j: int| 0 <= j < i implies after[j].id != id by {
            assert(after[j] == before[j]);
        }
    }
    lemma_finish_keeps_cancelled(after, id, i, state, error, bytes, dest, now_ms);
}

/// Clearing the finished tasks keeps exactly the running ones: as many as
/// before, and no finished task.
pub proof fn lemma_clear_finished_counts(s: Seq<DownloadTask>)
    ensures
        count_active(active_tasks(s)) == count_active(s),
        count_finished(active_tasks(s)) == 0,
    decreases s.len(),
{
    reveal(Seq::filter);
    if s.len() > 0 {
        let rest = s.drop_last();
        lemma_clear_finished_counts(rest);
        if s.last().state.spec_is_active() {
            assert(active_tasks(s) == active_tasks(rest).push(s.last()));
            assert(active_tasks(rest).push(s.last()).drop_last() =~= active_tasks(rest));
        } else {
            assert(active_tasks(s) == active_tasks(rest));
        }
    }
}

/// The key that merges repeated requests for one song: `source:id`.
pub open spec fn dedup_key_spec(source: Seq<char>, id: Seq<char>) -> Seq<char> {
    source + ":"@ + id
}

/// The key that merges repeated requests for one song: `source:id`.
pub fn dedup_key(source: &str, id: &str) -> (k: String)
    ensures
        k@ == dedup_key_spec(source@, id@),
{
    let mut k = string_of(source);
    push_str(&mut k, ":");
    push_str(&mut k, id);
    k
}

/// What became of a request to download a song.
#[derive(Debug, Clone, Copy, PartialEq, Eq, Structural)]
pub enum EnqueueCheck {
    /// The song is a file on this machine already.
    LocalFile,
    /// The same song is being fetched.
    AlreadyQueued,
    /// The song's dedup key is now claimed; the task can be added.
    Ready,
}

/// The message shown when a song is requested, if any: automatic caching
/// stays quiet.
pub open spec fn enqueue_notice_spec(check: EnqueueCheck, trigger: DownloadTrigger, name: Seq<char>) -> Option<Seq<char>> {
    if trigger == DownloadTrigger::AutoCache {
        None
    } else {
        match check {
            EnqueueCheck::LocalFile => Some("本地文件无需下载"@),
            EnqueueCheck::AlreadyQueued => Some("这首歌已经在下载队列中"@),
            EnqueueCheck::Ready => Some("开始下载: "@ + name),
        }
    }
}

/// The message shown when a song is requested, if any.
pub fn enqueue_notice(check: EnqueueCheck, trigger: DownloadTrigger, name: &str) -> (r: Option<String>)
    ensures
        match r {
            Some(m) => enqueue_notice_spec(check, trigger, name@) == Some(m@),
            None => enqueue_notice_spec(check, trigger, name@) is None,
        },
{
    if trigger == DownloadTrigger::AutoCache {
        return None;
    }
    match check {
        EnqueueCheck::LocalFile => Some(string_of("本地文件无需下载")),
        EnqueueCheck::AlreadyQueued => Some(string_of("这首歌已经在下载队列中")),
        EnqueueCheck::Ready => {
            let mut m = string_of("开始下载: ");
            push_str(&mut m, name);
            Some(m)
        },
    }
}

/// Whether playing `position_ms` into a song of `source` is reason to cache
/// it: caching is on, the song has played at least `after_secs` seconds,
/// and it is not a local file.
pub open spec fn auto_cache_gate_spec(enabled: bool, position_ms: u64, after_secs: u64, source: Seq<char>) -> bool {
    enabled && position_ms >= after_secs * 1000 && !is_local_spec(source)
}

/// Whether playing `position_ms` into a song of `source` is reason to cache it.
pub fn auto_cache_gate(enabled: bool, position_ms: u64, after_secs: u64, source: &str) -> (r: bool)
    ensures
        r == auto_cache_gate_spec(enabled, position_ms, after_secs, source@),
{
    if !enabled {
        return false;
    }
    let threshold = match after_secs.checked_mul(1000) {
        Some(t) => t,
        None => {
            return false;
        },
    };
    position_ms >= threshold && !is_local_source(source)
}

/// How a task ended.
#[derive(Debug, Clone)]
pub enum TaskOutcome {
    /// Downloaded and tagged.
    Done { dest: String, bytes: u64 },
    /// The file was there already.
    Skipped { dest: String },
    Cancelled,
    Failed(String),
}

/// The list after an outcome is recorded.
pub open spec fn outcome_finish(s: Seq<DownloadTask>, id: u64, o: TaskOutcome, now_ms: u64) -> Seq<DownloadTask> {
    match o {
        TaskOutcome::Done { dest, bytes } => finish_spec(s, id, DownloadState::Done, None, bytes, Some(dest), now_ms),
        TaskOutcome::Skipped { dest } => finish_spec(s, id, DownloadState::Skipped, None, 0, Some(dest), now_ms),
        TaskOutcome::Cancelled => finish_spec(s, id, DownloadState::Cancelled, None, 0, None, now_ms),
        TaskOutcome::Failed(e) => finish_spec(s, id, DownloadState::Failed, Some(e), 0, None, now_ms),
    }
}

/// The message shown when a download completes: automatic caching says
/// where the file was cached.
pub open spec fn completion_notice_spec(trigger: DownloadTrigger, dest: Seq<char>) -> Seq<char> {
    if trigger == DownloadTrigger::AutoCache {
        "已缓存到本地 → "@ + dest
    } else {
        "下载完成 → "@ + dest
    }
}

/// The message shown when a download completes.
pub fn completion_notice(trigger: DownloadTrigger, dest: &str) -> (m: String)
    ensures
        m@ == completion_notice_spec(trigger, dest@),
{
    let mut m = if trigger == DownloadTrigger::AutoCache {
        string_of("已缓存到本地 → ")
    } else {
        string_of("下载完成 → ")
    };
    push_str(&mut m, dest);
    m
}

/// The message shown when a download fails.
pub fn failure_notice(name: &str, error: &str) -> (m: String)
    ensures
        m@ == "下载失败 "@ + name@ + ": "@ + error@,
{
    let mut m = string_of("下载失败 ");
    push_str(&mut m, name);
    push_str(&mut m, ": ");
    push_str(&mut m, error);
    m
}

impl DownloadManager {
    /// The first step of queueing a song: a local file is refused, and a
    /// song already being fetched is merged; otherwise its dedup key is
    /// claimed.
    pub fn begin_enqueue(&mut self, song: &SongInfo) -> (r: EnqueueCheck)
        ensures
            (is_local_spec(song.source@) && song.file_path is Some) ==> r == EnqueueCheck::LocalFile
                && final(self).inflight_keys() == old(self).inflight_keys(),
            !(is_local_spec(song.source@) && song.file_path is Some) ==> {
                &&& r == if old(self).inflight_keys().contains(dedup_key_spec(song.source@, song.id@)) {
                    EnqueueCheck::AlreadyQueued
                } else {
                    EnqueueCheck::Ready
                }
                &&& final(self).inflight_keys() == old(self).inflight_keys().insert(
                    dedup_key_spec(song.source@, song.id@))
            },
            final(self).task_list() == old(self).task_list(),
            final(self).auto_cached_keys() == old(self).auto_cached_keys(),
            final(self).next_task_id() == old(self).next_task_id(),
    {
        if is_local_source(song.source.as_str()) && song.file_path.is_some() {
            return EnqueueCheck::LocalFile;
        }
        let key = dedup_key(song.source.as_str(), song.id.as_str());
        if self.reserve(key.as_str()) {
            EnqueueCheck::Ready
        } else {
            EnqueueCheck::AlreadyQueued
        }
    }

    /// Records how a task ended: its dedup key is given back, and the task
    /// takes the matching final state (a cancelled task stays cancelled).
    /// Returns the status to record for the song, if any.
    pub fn complete(&mut self, id: u64, key: &str, outcome: TaskOutcome, now_ms: u64) -> (r: Option<DownloadStatus>)
        ensures
            final(self).inflight_keys() == old(self).inflight_keys().remove(key@),
            final(self).task_list() == outcome_finish(old(self).task_list(), id, outcome, now_ms),
            final(self).auto_cached_keys() == old(self).auto_cached_keys(),
            final(self).next_task_id() == old(self).next_task_id(),
            r == match outcome {
                TaskOutcome::Done { .. } => Some(DownloadStatus::Done),
                TaskOutcome::Skipped { .. } => Some(DownloadStatus::Skipped),
                TaskOutcome::Cancelled => None,
                TaskOutcome::Failed(_) => Some(DownloadStatus::Failed),
            },
    {
        self.release(key);
        match outcome {
            TaskOutcome::Done { dest, bytes } => {
                self.finish(id, DownloadState::Done, None, bytes, Some(dest), now_ms);
                Some(DownloadStatus::Done)
            },
            TaskOutcome::Skipped { dest } => {
                self.finish(id, DownloadState::Skipped, None, 0, Some(dest), now_ms);
                Some(DownloadStatus::Skipped)
            },
            TaskOutcome::Cancelled => {
                self.finish(id, DownloadState::Cancelled, None, 0, None, now_ms);
                None
            },
            TaskOutcome::Failed(e) => {
                self.finish(id, DownloadState::Failed, Some(e), 0, None, now_ms);
                Some(DownloadStatus::Failed)
            },
        }
    }
}

/// Where the tries of one song stand: which script source to resolve with
/// next, whether the built-in fallback is ruled out, and the last error.
#[derive(Debug, Clone)]
pub struct DownloadAttempts {
    pub js_start_index: usize,
    /// Set once a URL served something that is not audio.
    pub skip_builtin_fallback: bool,
    pub last_error: Option<String>,
}

/// The error text that marks a response as not being audio.
pub open spec fn not_audio_marker() -> Seq<char> {
    "不是音频文件"@
}

impl DownloadAttempts {
    /// The state before the first try.
    pub fn new() -> (a: Self)
        ensures
            a.js_start_index == 0,
            !a.skip_builtin_fallback,
            a.last_error is None,
    {
        DownloadAttempts { js_start_index: 0, skip_builtin_fallback: false, last_error: None }
    }

    /// No playable URL came back: try the next script source.
    pub fn resolve_failed(&mut self)
        ensures
            final(self).js_start_index == if old(self).js_start_index < usize::MAX {
                (old(self).js_start_index + 1) as usize
            } else {
                usize::MAX
            },
            final(self).skip_builtin_fallback == old(self).skip_builtin_fallback,
            final(self).last_error matches Some(e) && e@ == "获取播放地址失败"@,
    {
        self.last_error = Some(string_of("获取播放地址失败"));
        self.js_start_index = self.js_start_index.saturating_add(1);
    }

    /// A URL was resolved by the script source at `js_index` (if any); the
    /// next try starts after it.
    pub fn resolved(&mut self, js_index: Option<usize>)
        requires
            js_index matches Some(i) ==> i < usize::MAX,
        ensures
            final(self).js_start_index == match js_index {
                Some(i) => (i + 1) as usize,
                None => old(self).js_start_index,
            },
            final(self).skip_builtin_fallback == old(self).skip_builtin_fallback,
            final(self).last_error == old(self).last_error,
    {
        match js_index {
            Some(i) => {
                self.js_start_index = i + 1;
            },
            None => {},
        }
    }

    /// The fetched file was rejected for `reason`; a non-audio response rules
    /// out the built-in fallback from then on.
    pub fn rejected(&mut self, reason: String)
        ensures
            final(self).skip_builtin_fallback == (old(self).skip_builtin_fallback
                || crate::text::contains_seq(reason@, not_audio_marker())),
            final(self).js_start_index == old(self).js_start_index,
            final(self).last_error == Some(reason),
    {
        let chars = crate::text::chars_of(reason.as_str());
        let marker = crate::text::chars_of("不是音频文件");
        if crate::text::contains(&chars, &marker) {
            self.skip_builtin_fallback = true;
        }
        self.last_error = Some(reason);
    }

    /// Copying a local file failed with `error`.
    pub fn copy_failed(&mut self, error: String)
        ensures
            final(self).last_error == Some(error),
            final(self).js_start_index == old(self).js_start_index,
            final(self).skip_builtin_fallback == old(self).skip_builtin_fallback,
    {
        self.last_error = Some(error);
    }

    /// The transfer failed with `error`: try the next script source.
    pub fn download_failed(&mut self, error: String)
        ensures
            final(self).last_error == Some(error),
            final(self).js_start_index == if old(self).js_start_index < usize::MAX {
                (old(self).js_start_index + 1) as usize
            } else {
                usize::MAX
            },
            final(self).skip_builtin_fallback == old(self).skip_builtin_fallback,
    {
        self.last_error = Some(error);
        self.js_start_index = self.js_start_index.saturating_add(1);
    }

    /// The error reported when every try failed.
    pub fn final_error(&self) -> (e: String)
        ensures
            e@ == match self.last_error {
                Some(m) => m@,
                None => "下载失败"@,
            },
    {
        match &self.last_error {
            Some(m) => m.clone(),
            None => string_of("下载失败"),
        }
    }
}

/// A song is queued for automatic caching at most once a session: after a
/// tick queued it, the next tick for the same song does not, however long it
/// has played.
pub proof fn lemma_auto_cache_once(
    enabled: bool,
    source: Seq<char>,
    key: Seq<char>,
    before: Set<Seq<char>>,
    p1: u64,
    p2: u64,
    after_secs: u64,
    downloaded: bool,
)
    requires
        auto_cache_gate_spec(enabled, p1, after_secs, source) && !downloaded && !before.contains(key),
    ensures
        !(auto_cache_gate_spec(enabled, p2, after_secs, source) && !downloaded && !before.insert(key).contains(key)),
{
}

/// The file a song is skipped for when existing files are skipped: the one
/// the dedup index records, else one under the song's file name.
pub open spec fn existing_destination_spec(skip_existing: bool, indexed: Option<String>, by_name: Option<String>) -> Option<String> {
    if skip_existing {
        if indexed is Some {
            indexed
        } else {
            by_name
        }
    } else {
        None
    }
}

/// The file a song is skipped for: with skipping on, the indexed file,
/// else the file found under the song's file name.
pub fn existing_destination(skip_existing: bool, indexed: Option<String>, by_name: Option<String>) -> (r: Option<String>)
    ensures
        r == existing_destination_spec(skip_existing, indexed, by_name),
{
    if skip_existing {
        if indexed.is_some() {
            indexed
        } else {
            by_name
        }
    } else {
        None
    }
}

/// A song whose file exists is not downloaded again: with skipping on, a
/// beginning job is skipped for the file the index records, else for the
/// file found under the song's name, and is then over; with skipping off,
/// or with no such file, URLs are resolved from where the job stands.
pub proof fn lemma_begin_skips_existing(
    j: JobView,
    skip_existing: bool,
    indexed: Option<Seq<char>>,
    by_name: Option<Seq<char>>,
)
    requires
        j.phase == JobPhase::Start,
    ensures
        ({
            let (k, a) = download_step_spec(j, EventView::Begin { skip_existing, indexed, by_name });
            &&& skip_existing && indexed is Some ==> a == (ActionView::Skip { dest: indexed->0 })
                && k.phase == JobPhase::Over
            &&& skip_existing && indexed is None && by_name is Some ==> a == (ActionView::Skip {
                dest: by_name->0,
            }) && k.phase == JobPhase::Over
            &&& !skip_existing || (indexed is None && by_name is None) ==> a == (ActionView::Resolve {
                js_start: j.js_start,
                skip_builtin: j.skip_builtin,
            }) && k.phase == JobPhase::Resolving
            &&& k.tries == j.tries
        }),
{
}

/// Where a song's download stands.
#[derive(Debug, Clone, Copy, PartialEq, Eq, Structural)]
pub enum JobPhase {
    /// Not begun.
    Start,
    /// Waiting for a playable URL.
    Resolving,
    /// Waiting for the file to be fetched and checked.
    Transferring,
    /// Skipped, finished, failed or cancelled.
    Over,
}

/// One song's download: its phase, the tries used, and where the tries
/// stand.
#[derive(Debug, Clone)]
pub struct DownloadJob {
    pub phase: JobPhase,
    pub tries: usize,
    pub attempts: DownloadAttempts,
}

/// A download job as values.
pub struct JobView {
    pub phase: JobPhase,
    pub tries: usize,
    pub js_start: usize,
    pub skip_builtin: bool,
    pub last_error: Option<Seq<char>>,
}

pub open spec fn opt_chars(o: Option<String>) -> Option<Seq<char>> {
    match o {
        Some(s) => Some(s@),
        None => None,
    }
}

impl View for DownloadJob {
    type V = JobView;

    open spec fn view(&self) -> JobView {
        JobView {
            phase: self.phase,
            tries: self.tries,
            js_start: self.attempts.js_start_index,
            skip_builtin: self.attempts.skip_builtin_fallback,
            last_error: opt_chars(self.attempts.last_error),
        }
    }
}

/// What happened since the last step of a download.
#[derive(Debug, Clone)]
pub enum DownloadEvent {
    /// The download begins; `indexed` is the file the dedup index records
    /// for the song (when it still exists), `by_name` a file under its
    /// rendered name.
    Begin { skip_existing: bool, indexed: Option<String>, by_name: Option<String> },
    /// No source gave a playable URL.
    ResolveFailed,
    /// A URL was resolved, by the script source at `js_index` if any.
    Resolved { js_index: Option<usize>, url: String },
    /// The fetched or copied file was checked and rejected for `reason`
    /// (for instance because it is not audio).
    Rejected { reason: String },
    /// Copying a file the source handed over failed.
    CopyFailed { error: String },
    /// The transfer failed.
    TransferFailed { error: String },
    /// The transfer was cancelled.
    Cancelled,
    /// The file is in place and checked.
    Transferred { dest: String, bytes: u64 },
}

/// A download event as values.
pub enum EventView {
    Begin { skip_existing: bool, indexed: Option<Seq<char>>, by_name: Option<Seq<char>> },
    ResolveFailed,
    Resolved { js_index: Option<usize>, url: Seq<char> },
    Rejected { reason: Seq<char> },
    CopyFailed { error: Seq<char> },
    TransferFailed { error: Seq<char> },
    Cancelled,
    Transferred { dest: Seq<char>, bytes: u64 },
}

impl View for DownloadEvent {
    type V = EventView;

    open spec fn view(&self) -> EventView {
        match self {
            DownloadEvent::Begin { skip_existing, indexed, by_name } => EventView::Begin {
                skip_existing: *skip_existing,
                indexed: opt_chars(*indexed),
                by_name: opt_chars(*by_name),
            },
            DownloadEvent::ResolveFailed => EventView::ResolveFailed,
            DownloadEvent::Resolved { js_index, url } => EventView::Resolved { js_index: *js_index, url: url@ },
            DownloadEvent::Rejected { reason } => EventView::Rejected { reason: reason@ },
            DownloadEvent::CopyFailed { error } => EventView::CopyFailed { error: error@ },
            DownloadEvent::TransferFailed { error } => EventView::TransferFailed { error: error@ },
            DownloadEvent::Cancelled => EventView::Cancelled,
            DownloadEvent::Transferred { dest, bytes } => EventView::Transferred { dest: dest@, bytes: *bytes },
        }
    }
}

/// What the download asks for next.
#[derive(Debug, Clone, PartialEq, Eq)]
pub enum DownloadAction {
    /// The song was downloaded before: record it as skipped for `dest`.
    Skip { dest: String },
    /// Resolve a URL, starting at script source `js_start`; the built-in
    /// fallback is not to be used when `skip_builtin` is set.
    Resolve { js_start: usize, skip_builtin: bool },
    /// Fetch (or copy) the file at `url`.
    Transfer { url: String },
    /// The download is complete.
    Finish { dest: String, bytes: u64 },
    /// Every try failed, the last with `error`.
    Fail { error: String },
    /// The download was cancelled.
    Stop,
    /// The event does not apply now; nothing to do.
    Wait,
}

/// A download action as values.
pub enum ActionView {
    Skip { dest: Seq<char> },
    Resolve { js_start: usize, skip_builtin: bool },
    Transfer { url: Seq<char> },
    Finish { dest: Seq<char>, bytes: u64 },
    Fail { error: Seq<char> },
    Stop,
    Wait,
}

impl View for DownloadAction {
    type V = ActionView;

    open spec fn view(&self) -> ActionView {
        match self {
            DownloadAction::Skip { dest } => ActionView::Skip { dest: dest@ },
            DownloadAction::Resolve { js_start, skip_builtin } => ActionView::Resolve {
                js_start: *js_start,
                skip_builtin: *skip_builtin,
            },
            DownloadAction::Transfer { url } => ActionView::Transfer { url: url@ },
            DownloadAction::Finish { dest, bytes } => ActionView::Finish { dest: dest@, bytes: *bytes },
            DownloadAction::Fail { error } => ActionView::Fail { error: error@ },
            DownloadAction::Stop => ActionView::Stop,
            DownloadAction::Wait => ActionView::Wait,
        }
    }
}

/// One more script source along, without passing the largest index.
pub open spec fn next_source(i: usize) -> usize {
    if i < usize::MAX {
        (i + 1) as usize
    } else {
        usize::MAX
    }
}

/// After a failed try: resolve again while tries remain, else fail with the
/// last error (or a generic one).
pub open spec fn next_try_spec(j: JobView) -> (JobView, ActionView) {
    if j.tries < DOWNLOAD_ATTEMPTS {
        (
            JobView { phase: JobPhase::Resolving, ..j },
            ActionView::Resolve { js_start: j.js_start, skip_builtin: j.skip_builtin },
        )
    } else {
        (
            JobView { phase: JobPhase::Over, ..j },
            ActionView::Fail {
                error: match j.last_error {
                    Some(e) => e,
                    None => "下载失败"@,
                },
            },
        )
    }
}

/// One step of a song's download. Beginning, an existing file (when
/// skipping is on) ends the job with a skip; otherwise URLs are resolved
/// from script source 0. A resolved URL is fetched, and the next resolution
/// starts after the source that gave it. A failed resolution or transfer
/// moves to the next script source; a rejected file keeps the source, and a
/// file that is not audio rules out the built-in fallback from then on.
/// After three failed tries the job fails with the last error. Events that
/// do not fit the phase change nothing.
pub open spec fn download_step_spec(j: JobView, e: EventView) -> (JobView, ActionView) {
    let failed = |k: JobView| next_try_spec(JobView { tries: (k.tries + 1) as usize, ..k });
    match (j.phase, e) {
        (JobPhase::Start, EventView::Begin { skip_existing, indexed, by_name }) => {
            let found = if skip_existing {
                if indexed is Some {
                    indexed
                } else {
                    by_name
                }
            } else {
                None
            };
            match found {
                Some(d) => (JobView { phase: JobPhase::Over, ..j }, ActionView::Skip { dest: d }),
                None => (
                    JobView { phase: JobPhase::Resolving, ..j },
                    ActionView::Resolve { js_start: j.js_start, skip_builtin: j.skip_builtin },
                ),
            }
        },
        (JobPhase::Resolving, EventView::ResolveFailed) => failed(
            JobView { js_start: next_source(j.js_start), last_error: Some("获取播放地址失败"@), ..j },
        ),
        (JobPhase::Resolving, EventView::Resolved { js_index, url }) => (
            JobView {
                phase: JobPhase::Transferring,
                js_start: match js_index {
                    Some(i) => (i + 1) as usize,
                    None => j.js_start,
                },
                ..j
            },
            ActionView::Transfer { url },
        ),
        (JobPhase::Transferring, EventView::Rejected { reason }) => failed(
            JobView {
                skip_builtin: j.skip_builtin || crate::text::contains_seq(reason, not_audio_marker()),
                last_error: Some(reason),
                ..j
            },
        ),
        (JobPhase::Transferring, EventView::CopyFailed { error }) => failed(JobView { last_error: Some(error), ..j }),
        (JobPhase::Transferring, EventView::TransferFailed { error }) => failed(
            JobView { js_start: next_source(j.js_start), last_error: Some(error), ..j },
        ),
        (JobPhase::Transferring, EventView::Cancelled) => (JobView { phase: JobPhase::Over, ..j }, ActionView::Stop),
        (JobPhase::Transferring, EventView::Transferred { dest, bytes }) => (
            JobView { phase: JobPhase::Over, ..j },
            ActionView::Finish { dest, bytes },
        ),
        _ => (j, ActionView::Wait),
    }
}

impl DownloadJob {
    /// A download not yet begun.
    pub fn new() -> (j: Self)
        ensures
            j@ == (JobView { phase: JobPhase::Start, tries: 0, js_start: 0, skip_builtin: false, last_error: None }),
    {
        DownloadJob { phase: JobPhase::Start, tries: 0, attempts: DownloadAttempts::new() }
    }

    /// After a failed try.
    fn next_try(&mut self) -> (a: DownloadAction)
        requires
            old(self).tries < DOWNLOAD_ATTEMPTS,
        ensures
            (final(self)@, a@) == next_try_spec(JobView { tries: (old(self)@.tries + 1) as usize, ..old(self)@ }),
    {
        self.tries = self.tries + 1;
        if self.tries < DOWNLOAD_ATTEMPTS {
            self.phase = JobPhase::Resolving;
            DownloadAction::Resolve {
                js_start: self.attempts.js_start_index,
                skip_builtin: self.attempts.skip_builtin_fallback,
            }
        } else {
            self.phase = JobPhase::Over;
            DownloadAction::Fail { error: self.attempts.final_error() }
        }
    }
}

/// Advances a song's download by one event and says what to do next.
pub fn download_step(job: &mut DownloadJob, event: DownloadEvent) -> (a: DownloadAction)
    requires
        old(job).tries < DOWNLOAD_ATTEMPTS || old(job).phase == JobPhase::Over,
        event matches DownloadEvent::Resolved { js_index: Some(i), .. } ==> i < usize::MAX,
    ensures
        (final(job)@, a@) == download_step_spec(old(job)@, event@),
        final(job).tries < DOWNLOAD_ATTEMPTS || final(job).phase == JobPhase::Over,
{
    match (job.phase, event) {
        (JobPhase::Start, DownloadEvent::Begin { skip_existing, indexed, by_name }) => {
            match existing_destination(skip_existing, indexed, by_name) {
                Some(d) => {
                    job.phase = JobPhase::Over;
                    DownloadAction::Skip { dest: d }
                },
                None => {
                    job.phase = JobPhase::Resolving;
                    DownloadAction::Resolve {
                        js_start: job.attempts.js_start_index,
                        skip_builtin: job.attempts.skip_builtin_fallback,
                    }
                },
            }
        },
        (JobPhase::Resolving, DownloadEvent::ResolveFailed) => {
            job.attempts.resolve_failed();
            job.next_try()
        },
        (JobPhase::Resolving, DownloadEvent::Resolved { js_index, url }) => {
            job.attempts.resolved(js_index);
            job.phase = JobPhase::Transferring;
            DownloadAction::Transfer { url }
        },
        (JobPhase::Transferring, DownloadEvent::Rejected { reason }) => {
            job.attempts.rejected(reason);
            job.next_try()
        },
        (JobPhase::Transferring, DownloadEvent::CopyFailed { error }) => {
            job.attempts.copy_failed(error);
            job.next_try()
        },
        (JobPhase::Transferring, DownloadEvent::TransferFailed { error }) => {
            job.attempts.download_failed(error);
            job.next_try()
        },
        (JobPhase::Transferring, DownloadEvent::Cancelled) => {
            job.phase = JobPhase::Over;
            DownloadAction::Stop
        },
        (JobPhase::Transferring, DownloadEvent::Transferred { dest, bytes }) => {
            job.phase = JobPhase::Over;
            DownloadAction::Finish { dest, bytes }
        },
        _ => DownloadAction::Wait,
    }
}

/// Download settings taken from the configuration.
#[derive(Debug, Clone)]
pub struct RuntimeSettings {
    pub dir: String,
    /// A fixed download quality; `None` follows the playback quality.
    pub quality: Option<Quality>,
    pub filename_template: String,
    pub skip_existing: bool,
    pub write_tags: bool,
    pub embed_cover: bool,
    pub save_lyric: bool,
    pub auto_cache_on_play: bool,
    pub auto_cache_after_secs: u64,
    pub auto_toggle: bool,
    pub concurrent_songs: usize,
    pub play_quality: Quality,
    pub proxy_url: String,
    pub timeout_secs: u64,
    pub options: DownloadOptions,
}

impl RuntimeSettings {
    /// The quality to download in: the configured one, else the playback
    /// quality.
    pub fn quality(&self) -> (q: Quality)
        ensures
            q == match self.quality {
                Some(c) => c,
                None => self.play_quality,
            },
    {
        match self.quality {
            Some(c) => c,
            None => self.play_quality,
        }
    }
}

/// How many songs download at once: the configured number, between 1 and 8.
pub fn clamp_concurrent_songs(n: usize) -> (r: usize)
    ensures
        r == if n < 1 {
            1
        } else if n > 8 {
            8
        } else {
            n
        },
{
    if n < 1 {
        1
    } else if n > 8 {
        8
    } else {
        n
    }
}

} // verus!
