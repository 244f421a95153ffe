//! Download records kept across sessions, and the dedup index derived from
//! them: a song (`singer - name`) downloaded before is found again by its
//! key, whatever file name template was in use.

use vstd::prelude::*;
use crate::song::SongInfo;
use crate::text::{
    chars_eq, chars_of, join_chars, join_spec, nested_view, push_str, slice_chars, split_char, split_spec,
    str_eq, string_from_chars, string_of, trim_chars, trim_seq,
};

verus! {

broadcast use vstd::string::group_string_axioms;

/// How many records are kept.
pub const DEFAULT_RECORD_LIMIT: usize = 200;

/// How a download ended, as recorded.
#[derive(Debug, Clone, Copy, PartialEq, Eq, Structural)]
pub enum DownloadStatus {
    /// Downloaded and tagged.
    Done,
    /// An existing file or a dedup hit; nothing was fetched.
    Skipped,
    /// Failed; the record holds the reason.
    Failed,
}

impl DownloadStatus {
    pub open spec fn spec_label(self) -> Seq<char> {
        match self {
            DownloadStatus::Done => "成功"@,
            DownloadStatus::Skipped => "跳过"@,
            DownloadStatus::Failed => "失败"@,
        }
    }

    /// The word shown for the status.
    pub fn label(self) -> (s: &'static str)
        ensures
            s@ == self.spec_label(),
    {
        match self {
            DownloadStatus::Done => "成功",
            DownloadStatus::Skipped => "跳过",
            DownloadStatus::Failed => "失败",
        }
    }
}

/// One finished download.
#[derive(Debug, Clone, PartialEq, Eq)]
pub struct DownloadRecord {
    pub name: String,
    pub singer: String,
    /// The source's short name.
    pub source: String,
    pub status: DownloadStatus,
    pub error: Option<String>,
    /// The file's path inside the download directory; failures have none.
    pub rel_path: Option<String>,
    /// When it ended, in Unix seconds.
    pub finished_at: i64,
}

fn copy_opt(o: &Option<String>) -> (r: Option<String>)
    ensures
        r == *o,
{
    match o {
        Some(s) => Some(s.clone()),
        None => None,
    }
}

/// A copy of a record.
fn copy_record(r: &DownloadRecord) -> (c: DownloadRecord)
    ensures
        c == *r,
{
    DownloadRecord {
        name: r.name.clone(),
        singer: r.singer.clone(),
        source: r.source.clone(),
        status: r.status,
        error: copy_opt(&r.error),
        rel_path: copy_opt(&r.rel_path),
        finished_at: r.finished_at,
    }
}

impl DownloadRecord {
    /// The record of `song` ending in `status` at `finished_at`.
    pub fn new(
        song: &SongInfo,
        status: DownloadStatus,
        rel_path: Option<String>,
        error: Option<String>,
        finished_at: i64,
    ) -> (r: Self)
        ensures
            r == (DownloadRecord {
                name: song.name,
                singer: song.singer,
                source: song.source,
                status,
                error,
                rel_path,
                finished_at,
            }),
    {
        DownloadRecord {
            name: song.name.clone(),
            singer: song.singer.clone(),
            source: song.source.clone(),
            status,
            error,
            rel_path,
            finished_at,
        }
    }
}

/// Whether a character is kept in a key: control characters and DEL go.
pub open spec fn key_char(c: char) -> bool {
    c >= ' ' && c != '\u{7f}'
}

/// `value` without control characters, trimmed.
pub open spec fn clean_text_spec(value: Seq<char>) -> Seq<char> {
    trim_seq(value.filter(|c: char| key_char(c)))
}

/// A key part, `Unknown` when empty.
pub open spec fn key_part(v: Seq<char>) -> Seq<char> {
    if v.len() == 0 {
        "Unknown"@
    } else {
        v
    }
}

/// The dedup key of a song: `singer - name`, each cleaned.
pub open spec fn song_key_spec(singer: Seq<char>, name: Seq<char>) -> Seq<char> {
    key_part(clean_text_spec(singer)) + " - "@ + key_part(clean_text_spec(name))
}

/// `value` without control characters, trimmed.
pub fn clean_text(value: &str) -> (out: String)
    ensures
        out@ == clean_text_spec(value@),
{
    let chars = chars_of(value);
    let ghost f = |c: char| key_char(c);
    let mut kept: Vec<char> = Vec::new();
    let mut i: usize = 0;
    proof {
        reveal(Seq::filter);
    }
    assert(chars@.take(0).filter(f) =~= Seq::<char>::empty());
    while i < chars.len()
        invariant
            i <= chars.len(),
            kept@ == chars@.take(i as int).filter(f),
            f == (|c: char| key_char(c)),
        decreases chars.len() - i,
    {
        proof {
            reveal(Seq::filter);
        }
        assert(chars@.take(i + 1).drop_last() =~= chars@.take(i as int));
        let c = chars[i];
        if c >= ' ' && c != '\u{7f}' {
            kept.push(c);
        }
        i = i + 1;
    }
    assert(chars@.take(i as int) =~= chars@);
    let t = trim_chars(&kept);
    string_from_chars(&t)
}

/// Whether a record feeds the dedup index: it succeeded or was skipped, and
/// names a file.
pub open spec fn indexed(r: DownloadRecord) -> bool {
    &&& (r.status == DownloadStatus::Done || r.status == DownloadStatus::Skipped)
    &&& r.rel_path matches Some(p) && p@.len() > 0
}

/// The dedup index of a record list: key to file, later records winning.
pub open spec fn dedup_spec(s: Seq<DownloadRecord>) -> Map<Seq<char>, Seq<char>>
    decreases s.len(),
{
    if s.len() == 0 {
        Map::empty()
    } else {
        let m = dedup_spec(s.drop_last());
        let r = s.last();
        if indexed(r) {
            m.insert(song_key_spec(r.singer@, r.name@), r.rel_path.unwrap()@)
        } else {
            m
        }
    }
}

/// A map from keys to paths, each key held once.
pub struct PathIndex {
    entries: Vec<(String, String)>,
}

/// The map held by a list of (key, path) entries.
pub open spec fn index_map(entries: Seq<(String, String)>) -> Map<Seq<char>, Seq<char>> {
    Map::new(
        |k: Seq<char>| exists|i: int| 0 <= i < entries.len() && entries[i].0@ == k,
        |k: Seq<char>| {
            let i = choose|i: int| 0 <= i < entries.len() && entries[i].0@ == k;
            entries[i].1@
        },
    )
}

/// No key occurs twice among the entries.
pub open spec fn distinct_keys(entries: Seq<(String, String)>) -> bool {
    forall|i: int, j: int| 0 <= i < j < entries.len() ==> entries[i].0@ != entries[j].0@
}

proof fn lemma_index_lookup(entries: Seq<(String, String)>, i: int)
    requires
        distinct_keys(entries),
        0 <= i < entries.len(),
    ensures
        index_map(entries).contains_key(entries[i].0@),
        index_map(entries)[entries[i].0@] == entries[i].1@,
{
    let k = entries[i].0@;
    assert(exists|j: int| 0 <= j < entries.len() && entries[j].0@ == k);
    let j = choose|j: int| 0 <= j < entries.len() && entries[j].0@ == k;
    if j != i {
        if j < i {
            assert(entries[j].0@ != entries[i].0@);
        } else {
            assert(entries[i].0@ != entries[j].0@);
        }
    }
}

impl View for PathIndex {
    type V = Map<Seq<char>, Seq<char>>;

    closed spec fn view(&self) -> Map<Seq<char>, Seq<char>> {
        index_map(self.entries@)
    }
}

impl PathIndex {
    #[verifier::type_invariant]
    spec fn distinct(self) -> bool {
        distinct_keys(self.entries@)
    }

    /// An empty index.
    pub fn new() -> (p: Self)
        ensures
            p@ == Map::<Seq<char>, Seq<char>>::empty(),
    {
        let p = PathIndex { entries: Vec::new() };
        assert(p@ =~= Map::<Seq<char>, Seq<char>>::empty());
        p
    }

    fn position(&self, key: &str) -> (r: Option<usize>)
        ensures
            match r {
                Some(i) => i < self.entries@.len() && self.entries@[i as int].0@ == key@,
                None => forall|j: int| 0 <= j < self.entries@.len() ==> self.entries@[j].0@ != key@,
            },
    {
        let mut i: usize = 0;
        while i < self.entries.len()
            invariant
                i <= self.entries@.len(),
                forall|j: int| 0 <= j < i ==> self.entries@[j].0@ != key@,
            decreases self.entries@.len() - i,
        {
            if str_eq(self.entries[i].0.as_str(), key) {
                return Some(i);
            }
            i = i + 1;
        }
        None
    }

    /// The path stored for `key`.
    pub fn get(&self, key: &str) -> (r: Option<String>)
        ensures
            match r {
                Some(p) => self@.contains_key(key@) && self@[key@] == p@,
                None => !self@.contains_key(key@),
            },
    {
        match self.position(key) {
            Some(i) => {
                proof {
                    use_type_invariant(self);
                    lemma_index_lookup(self.entries@, i as int);
                }
                Some(self.entries[i].1.clone())
            },
            None => None,
        }
    }

    /// Stores `path` for `key`, replacing an earlier one.
    pub fn insert(&mut self, key: &str, path: &str)
        ensures
            final(self)@ == old(self)@.insert(key@, path@),
    {
        proof {
            use_type_invariant(&*self);
        }
        let ghost old_map = self@;
        let pos = self.position(key);
        let ghost before = self.entries@;
        let mut entries: Vec<(String, String)> = Vec::new();
        std::mem::swap(&mut entries, &mut self.entries);
        let entry = (string_of(key), string_of(path));
        match pos {
            Some(i) => {
                entries.set(i, entry);
                proof {
                    assert forall|a: int, b: int| 0 <= a < b < entries@.len() implies entries@[a].0@ != entries@[b].0@ by {
                        if a != i && b != i {
                            assert(entries@[a] == before[a] && entries@[b] == before[b]);
                        } else if a == i {
                            assert(entries@[b] == before[b]);
                            assert(before[a].0@ != before[b].0@);
                        } else {
                            assert(entries@[a] == before[a]);
                            assert(before[a].0@ != before[b].0@);
                        }
                    }
                }
            },
            None => {
                entries.push(entry);
            },
        }
        self.entries = entries;
        proof {
            let new_map = self@;
            let want = old_map.insert(key@, path@);
            let n = self.entries@.len();
            let k_idx: int = match pos {
                Some(i) => i as int,
                None => before.len() as int,
            };
            assert(self.entries@[k_idx].0@ == key@);
            assert(self.entries@[k_idx].1@ == path@);
            lemma_index_lookup(self.entries@, k_idx);
            assert forall|x: Seq<char>| new_map.contains_key(x) <==> want.contains_key(x) by {
                if new_map.contains_key(x) {
                    let j = choose|j: int| 0 <= j < n && self.entries@[j].0@ == x;
                    if j != k_idx {
                        assert(before[j] == self.entries@[j]);
                        assert(old_map.contains_key(x));
                    }
                }
                if want.contains_key(x) && x != key@ {
                    let j = choose|j: int| 0 <= j < before.len() && before[j].0@ == x;
                    assert(j != k_idx);
                    assert(self.entries@[j] == before[j]);
                }
            }
            assert forall|x: Seq<char>| #[trigger] new_map.contains_key(x) implies new_map[x] == want[x] by {
                if x != key@ {
                    let j = choose|j: int| 0 <= j < n && self.entries@[j].0@ == x;
                    assert(j != k_idx);
                    assert(before[j] == self.entries@[j]);
                    lemma_index_lookup(self.entries@, j);
                    lemma_index_lookup(before, j);
                }
            }
            assert(new_map =~= want);
        }
    }
}

impl PathIndex {
    /// Drops the path stored for `key`.
    pub fn remove(&mut self, key: &str)
        ensures
            final(self)@ == old(self)@.remove(key@),
    {
        proof {
            use_type_invariant(&*self);
        }
        let ghost old_map = self@;
        let pos = self.position(key);
        let ghost before = self.entries@;
        match pos {
            None => {
                assert(self@ =~= old_map.remove(key@));
            },
            Some(i) => {
                let mut entries: Vec<(String, String)> = Vec::new();
                std::mem::swap(&mut entries, &mut self.entries);
                entries.remove(i);
                proof {
                    assert forall|a: int, b: int| 0 <= a < b < entries@.len() implies entries@[a].0@ != entries@[b].0@ by {
                        let a0 = if a < i { a } else { a + 1 };
                        let b0 = if b < i { b } else { b + 1 };
                        assert(entries@[a] == before[a0]);
                        assert(entries@[b] == before[b0]);
                    }
                }
                self.entries = entries;
                proof {
                    let new_map = self@;
                    let want = old_map.remove(key@);
                    let n = self.entries@.len();
                    assert forall|x: Seq<char>| new_map.contains_key(x) <==> want.contains_key(x) by {
                        if new_map.contains_key(x) {
                            let j = choose|j: int| 0 <= j < n && self.entries@[j].0@ == x;
                            let j0 = if j < i { j } else { j + 1 };
                            assert(self.entries@[j] == before[j0]);
                            assert(j0 != i);
                            assert(before[j0].0@ != before[i as int].0@) by {
                                if j0 < i {
                                } else {
                                }
                            }
                            assert(old_map.contains_key(x));
                        }
                        if want.contains_key(x) {
                            let j = choose|j: int| 0 <= j < before.len() && before[j].0@ == x;
                            assert(j != i);
                            let j1 = if j < i { j } else { j - 1 };
                            assert(self.entries@[j1] == before[j]);
                        }
                    }
                    assert forall|x: Seq<char>| #[trigger] new_map.contains_key(x) implies new_map[x] == want[x] by {
                        let j = choose|j: int| 0 <= j < n && self.entries@[j].0@ == x;
                        let j0 = if j < i { j } else { j + 1 };
                        assert(self.entries@[j] == before[j0]);
                        lemma_index_lookup(self.entries@, j);
                        lemma_index_lookup(before, j0);
                    }
                    assert(new_map =~= want);
                }
            },
        }
    }

    /// Empties the index.
    pub fn clear(&mut self)
        ensures
            final(self)@ == Map::<Seq<char>, Seq<char>>::empty(),
    {
        self.entries = Vec::new();
        assert(self@ =~= Map::<Seq<char>, Seq<char>>::empty());
    }
}

/// The dedup key of a song: `singer - name`, each cleaned of control
/// characters and trimmed, `Unknown` standing in for an empty part.
pub fn song_key(singer: &str, name: &str) -> (k: String)
    ensures
        k@ == song_key_spec(singer@, name@),
{
    let s = clean_text(singer);
    let n = clean_text(name);
    proof {
        reveal_strlit("Unknown");
    }
    let mut k = if s.as_str().unicode_len() == 0 {
        string_of("Unknown")
    } else {
        s
    };
    push_str(&mut k, " - ");
    if n.as_str().unicode_len() == 0 {
        push_str(&mut k, "Unknown");
    } else {
        push_str(&mut k, n.as_str());
    }
    k
}

/// Whether a record feeds the dedup index.
fn is_indexed(r: &DownloadRecord) -> (b: bool)
    ensures
        b == indexed(*r),
{
    let status_ok = match r.status {
        DownloadStatus::Done => true,
        DownloadStatus::Skipped => true,
        DownloadStatus::Failed => false,
    };
    if !status_ok {
        return false;
    }
    match &r.rel_path {
        Some(p) => p.as_str().unicode_len() > 0,
        None => false,
    }
}

/// The dedup index of a record list: done or skipped records that name a
/// file, later records winning.
pub fn build_dedup(records: &Vec<DownloadRecord>) -> (idx: PathIndex)
    ensures
        idx@ == dedup_spec(records@),
{
    let mut idx = PathIndex::new();
    let mut i: usize = 0;
    assert(records@.take(0) =~= Seq::<DownloadRecord>::empty());
    while i < records.len()
        invariant
            i <= records@.len(),
            idx@ == dedup_spec(records@.take(i as int)),
        decreases records@.len() - i,
    {
        assert(records@.take(i + 1).drop_last() =~= records@.take(i as int));
        assert(records@.take(i + 1).last() == records@[i as int]);
        let r = &records[i];
        if is_indexed(r) {
            let key = song_key(r.singer.as_str(), r.name.as_str());
            match &r.rel_path {
                Some(p) => {
                    idx.insert(key.as_str(), p.as_str());
                },
                None => {},
            }
        }
        i = i + 1;
    }
    assert(records@.take(i as int) =~= records@);
    idx
}

/// The last `n` records of `s` (all of them when there are fewer).
pub open spec fn keep_last(s: Seq<DownloadRecord>, n: nat) -> Seq<DownloadRecord> {
    if s.len() > n {
        s.skip(s.len() - n)
    } else {
        s
    }
}

/// The newest `n` records of `s`, newest first.
pub open spec fn newest_first(s: Seq<DownloadRecord>, n: nat) -> Seq<DownloadRecord> {
    s.reverse().take(if n < s.len() { n as int } else { s.len() as int })
}

/// The record store: the records (oldest first, at most `limit`), and the
/// dedup index from song keys to files.
pub struct DownloadRecords {
    records: Vec<DownloadRecord>,
    dedup: PathIndex,
    limit: usize,
}

impl DownloadRecords {
    /// A store keeps at least one record.
    #[verifier::type_invariant]
    spec fn keeps_some(self) -> bool {
        self.limit > 0
    }

    /// The records, oldest first.
    pub closed spec fn record_list(&self) -> Seq<DownloadRecord> {
        self.records@
    }

    /// The dedup index.
    pub closed spec fn dedup_index(&self) -> Map<Seq<char>, Seq<char>> {
        self.dedup@
    }

    /// How many records are kept.
    pub closed spec fn record_limit(&self) -> nat {
        self.limit as nat
    }

    /// A store holding the last `DEFAULT_RECORD_LIMIT` of `records`, with its
    /// dedup index built from them.
    pub fn from_records(records: Vec<DownloadRecord>) -> (s: Self)
        ensures
            s.record_list() == keep_last(records@, DEFAULT_RECORD_LIMIT as nat),
            s.dedup_index() == dedup_spec(s.record_list()),
            s.record_limit() == DEFAULT_RECORD_LIMIT,
    {
        let mut records = records;
        let limit = DEFAULT_RECORD_LIMIT;
        if records.len() > limit {
            let cut = records.len() - limit;
            let tail = records.split_off(cut);
            records = tail;
        }
        let dedup = build_dedup(&records);
        DownloadRecords { records, dedup, limit }
    }

    /// The dedup key of a song.
    pub fn song_key(singer: &str, name: &str) -> (k: String)
        ensures
            k@ == song_key_spec(singer@, name@),
    {
        song_key(singer, name)
    }

    /// The file recorded for `song`, relative to the download directory,
    /// if the index holds one.
    pub fn dedup_path(&self, song: &SongInfo) -> (r: Option<String>)
        ensures
            match r {
                Some(p) => self.dedup_index().contains_key(song_key_spec(song.singer@, song.name@))
                    && self.dedup_index()[song_key_spec(song.singer@, song.name@)] == p@,
                None => !self.dedup_index().contains_key(song_key_spec(song.singer@, song.name@)),
            },
    {
        let key = song_key(song.singer.as_str(), song.name.as_str());
        self.dedup.get(key.as_str())
    }

    /// Forgets the file of `song` (it was deleted), so the song can be
    /// downloaded again; the records stay.
    pub fn forget(&mut self, song: &SongInfo)
        ensures
            final(self).dedup_index() == old(self).dedup_index().remove(song_key_spec(song.singer@, song.name@)),
            final(self).record_list() == old(self).record_list(),
            final(self).record_limit() == old(self).record_limit(),
    {
        proof {
            use_type_invariant(&*self);
        }
        let key = song_key(song.singer.as_str(), song.name.as_str());
        let mut dedup = PathIndex::new();
        std::mem::swap(&mut dedup, &mut self.dedup);
        dedup.remove(key.as_str());
        self.dedup = dedup;
    }

    /// Appends a record, drops the oldest beyond the limit, and rebuilds the
    /// dedup index.
    pub fn record(&mut self, record: DownloadRecord)
        ensures
            final(self).record_list() == keep_last(old(self).record_list().push(record), old(self).record_limit()),
            final(self).dedup_index() == dedup_spec(final(self).record_list()),
            final(self).record_limit() == old(self).record_limit(),
            old(self).record_limit() > 0,
    {
        proof {
            use_type_invariant(&*self);
        }
        let mut records: Vec<DownloadRecord> = Vec::new();
        std::mem::swap(&mut records, &mut self.records);
        records.push(record);
        if records.len() > self.limit {
            let cut = records.len() - self.limit;
            let tail = records.split_off(cut);
            records = tail;
        }
        self.dedup = build_dedup(&records);
        self.records = records;
    }

    /// The newest `limit` records, newest first.
    pub fn recent(&self, limit: usize) -> (r: Vec<DownloadRecord>)
        ensures
            r@ == newest_first(self.record_list(), limit as nat),
    {
        let mut out: Vec<DownloadRecord> = Vec::new();
        let n = self.records.len();
        let count = if limit < n { limit } else { n };
        let mut i: usize = 0;
        while i < count
            invariant
                count <= n == self.records@.len(),
                i <= count,
                out@ == self.records@.reverse().take(i as int),
            decreases count - i,
        {
            let c = copy_record(&self.records[n - 1 - i]);
            out.push(c);
            assert(self.records@.reverse().take(i + 1) =~= self.records@.reverse().take(i as int).push(
                self.records@[n - 1 - i],
            ));
            i = i + 1;
        }
        out
    }

    /// How many records are kept.
    pub fn len(&self) -> (n: usize)
        ensures
            n == self.record_list().len(),
    {
        self.records.len()
    }

    /// Empties the records and the dedup index: songs downloaded before can
    /// be downloaded again.
    pub fn clear(&mut self)
        ensures
            final(self).record_list() == Seq::<DownloadRecord>::empty(),
            final(self).dedup_index() == Map::<Seq<char>, Seq<char>>::empty(),
            final(self).record_limit() == old(self).record_limit(),
    {
        proof {
            use_type_invariant(&*self);
        }
        self.records = Vec::new();
        self.dedup = PathIndex::new();
    }

    /// The records, oldest first, to be written out.
    pub fn records(&self) -> (r: &Vec<DownloadRecord>)
        ensures
            r@ == self.record_list(),
    {
        &self.records
    }
}

/// A failed download is recorded but never becomes a dedup entry: the index
/// is what it was without the record.
pub proof fn lemma_failed_record_not_indexed(s: Seq<DownloadRecord>, r: DownloadRecord)
    requires
        r.status == DownloadStatus::Failed,
    ensures
        dedup_spec(s.push(r)) == dedup_spec(s),
{
    assert(s.push(r).drop_last() =~= s);
}

/// The newest indexed record of a song decides its file.
pub proof fn lemma_latest_record_wins(s: Seq<DownloadRecord>, r: DownloadRecord)
    requires
        indexed(r),
    ensures
        dedup_spec(s.push(r)).contains_key(song_key_spec(r.singer@, r.name@)),
        dedup_spec(s.push(r))[song_key_spec(r.singer@, r.name@)] == r.rel_path.unwrap()@,
{
    assert(s.push(r).drop_last() =~= s);
}

/// Recording a song that was downloaded (or skipped) with a file makes that
/// file what the dedup index holds for the song, in a store that keeps at
/// least one record.
pub proof fn lemma_record_then_lookup(list: Seq<DownloadRecord>, limit: nat, r: DownloadRecord)
    requires
        limit > 0,
        indexed(r),
    ensures
        dedup_spec(keep_last(list.push(r), limit)).contains_key(song_key_spec(r.singer@, r.name@)),
        dedup_spec(keep_last(list.push(r), limit))[song_key_spec(r.singer@, r.name@)] == r.rel_path.unwrap()@,
{
    let t = keep_last(list.push(r), limit);
    assert(t.len() > 0 && t.last() == r);
    assert(t =~= t.drop_last().push(r));
    lemma_latest_record_wins(t.drop_last(), r);
}

/// Whether a path piece names a file or directory (not empty, not `.`).
pub open spec fn normal_piece(x: Seq<char>) -> bool {
    x.len() > 0 && x != seq!['.']
}

/// The components of a `/`-separated path, as `Path::components` gives
/// them on Unix: `/` for a leading root, `.` for a leading current
/// directory, then every non-empty piece other than `.`.
pub open spec fn path_components_spec(p: Seq<char>) -> Seq<Seq<char>> {
    let pieces = split_spec(p, '/');
    let head: Seq<Seq<char>> = if p.len() > 0 && p[0] == '/' {
        seq![seq!['/']]
    } else if pieces[0] == seq!['.'] {
        seq![seq!['.']]
    } else {
        Seq::empty()
    };
    head + pieces.filter(|x: Seq<char>| normal_piece(x))
}

pub fn path_components(p: &Vec<char>) -> (out: Vec<Vec<char>>)
    ensures
        nested_view(out@) == path_components_spec(p@),
{
    let pieces = split_char(p, '/');
    let ghost pv = nested_view(pieces@);
    assert(pv.len() >= 1);
    let ghost f = |x: Seq<char>| normal_piece(x);
    let mut out: Vec<Vec<char>> = Vec::new();
    let dot = vec!['.'];
    assert(pv[0] == pieces@[0]@);
    if p.len() > 0 && p[0] == '/' {
        let root = vec!['/'];
        assert(root@ =~= seq!['/']);
        out.push(root);
        assert(nested_view(out@) =~= seq![seq!['/']]);
    } else if chars_eq(&pieces[0], &dot) {
        let cur = vec!['.'];
        assert(cur@ =~= seq!['.']);
        assert(dot@ =~= seq!['.']);
        out.push(cur);
        assert(nested_view(out@) =~= seq![seq!['.']]);
    } else {
        assert(dot@ =~= seq!['.']);
    }
    let ghost head = nested_view(out@);
    assert(head =~= if p@.len() > 0 && p@[0] == '/' {
        seq![seq!['/']]
    } else if pv[0] == seq!['.'] {
        seq![seq!['.']]
    } else {
        Seq::<Seq<char>>::empty()
    });
    let mut i: usize = 0;
    proof {
        reveal(Seq::filter);
    }
    assert(pv.take(0).filter(f) =~= Seq::<Seq<char>>::empty());
    assert(nested_view(out@) =~= head + pv.take(0).filter(f));
    while i < pieces.len()
        invariant
            i <= pieces@.len(),
            pv == nested_view(pieces@),
            nested_view(out@) == head + pv.take(i as int).filter(f),
            f == (|x: Seq<char>| normal_piece(x)),
        decreases pieces@.len() - i,
    {
        proof {
            reveal(Seq::filter);
        }
        assert(pv.take(i + 1).drop_last() =~= pv.take(i as int));
        assert(pv.take(i + 1).last() == pieces@[i as int]@);
        let piece = &pieces[i];
        let keep = piece.len() > 0 && !(piece.len() == 1 && piece[0] == '.');
        assert(keep == normal_piece(piece@)) by {
            if piece@.len() == 1 && piece@[0] == '.' {
                assert(piece@ =~= seq!['.']);
            }
        }
        if keep {
            let copy = slice_chars(piece, 0, piece.len());
            assert(copy@ =~= piece@);
            let ghost before = nested_view(out@);
            out.push(copy);
            assert(nested_view(out@) =~= before.push(piece@));
        }
        i = i + 1;
    }
    assert(pv.take(i as int) =~= pv);
    out
}

/// The path of `file` inside `download_dir`, its components joined by `/`;
/// `None` when `file` is not inside it, or is the directory itself.
pub open spec fn relative_path_spec(download_dir: Seq<char>, file: Seq<char>) -> Option<Seq<char>> {
    let d = path_components_spec(download_dir);
    let f = path_components_spec(file);
    if d.len() < f.len() && f.take(d.len() as int) == d {
        Some(join_spec(f.skip(d.len() as int), "/"@))
    } else {
        None
    }
}

proof fn lemma_filter_all(s: Seq<Seq<char>>)
    requires
        forall|i: int| 0 <= i < s.len() ==> normal_piece(#[trigger] s[i]),
    ensures
        s.filter(|x: Seq<char>| normal_piece(x)) == s,
    decreases s.len(),
{
    reveal(Seq::filter);
    if s.len() > 0 {
        let sp = s.drop_last();
        assert forall|i: int| 0 <= i < sp.len() implies normal_piece(#[trigger] sp[i]) by {
            assert(sp[i] == s[i]);
        }
        lemma_filter_all(sp);
        assert(normal_piece(s[s.len() - 1]));
        assert(sp.push(s.last()) =~= s);
    }
}

/// The components of normal pieces joined with `/` are those pieces.
proof fn lemma_components_of_join(parts: Seq<Seq<char>>)
    requires
        forall|i: int| 0 <= i < parts.len() ==> normal_piece(#[trigger] parts[i]),
        forall|i: int, k: int| 0 <= i < parts.len() && 0 <= k < parts[i].len() ==> #[trigger] parts[i][k] != '/',
    ensures
        path_components_spec(join_spec(parts, "/"@)) == parts,
{
    reveal_strlit("/");
    assert("/"@ =~= seq!['/']);
    let j = join_spec(parts, "/"@);
    if parts.len() == 0 {
        assert(j =~= Seq::<char>::empty());
        crate::text::lemma_split_first(j, '/');
        let pieces = split_spec(j, '/');
        assert(pieces =~= seq![Seq::<char>::empty()]);
        reveal_with_fuel(Seq::filter, 2);
        assert(pieces.drop_last() =~= Seq::<Seq<char>>::empty());
        assert(pieces.filter(|x: Seq<char>| normal_piece(x)) =~= Seq::<Seq<char>>::empty());
        assert(path_components_spec(j) =~= parts);
    } else {
        crate::text::lemma_split_join(parts, '/');
        assert(normal_piece(parts[0]));
        crate::text::lemma_join_first(parts, "/"@);
        assert(j[0] == parts[0][0]);
        assert(parts[0][0] != '/');
        lemma_filter_all(parts);
        assert(split_spec(j, '/')[0] == parts[0]);
        assert(path_components_spec(j) =~= parts);
    }
}

/// The components of a root (`/`) or current directory (`.`) followed by
/// normal pieces, joined with `/`, are those components.
proof fn lemma_components_of_headed_join(hd: Seq<char>, filt: Seq<Seq<char>>)
    requires
        hd == seq!['/'] || hd == seq!['.'],
        forall|i: int| 0 <= i < filt.len() ==> normal_piece(#[trigger] filt[i]),
        forall|i: int, k: int| 0 <= i < filt.len() && 0 <= k < filt[i].len() ==> #[trigger] filt[i][k] != '/',
    ensures
        path_components_spec(join_spec(seq![hd] + filt, "/"@)) == seq![hd] + filt,
{
    reveal_strlit("/");
    assert("/"@ =~= seq!['/']);
    let parts = seq![hd] + filt;
    let j = join_spec(parts, "/"@);
    let e = Seq::<char>::empty();
    // The pieces of the head alone.
    let head_pieces: Seq<Seq<char>> = if hd == seq!['/'] {
        seq![e, e]
    } else {
        seq![hd]
    };
    if hd == seq!['/'] {
        crate::text::lemma_split_concat(e, e, '/');
        assert(e + seq!['/'] + e =~= hd);
        crate::text::lemma_split_first(e, '/');
        assert(split_spec(e, '/') =~= seq![e]);
        assert(split_spec(hd, '/') =~= head_pieces);
    } else {
        crate::text::lemma_split_join(seq![hd], '/');
        assert(join_spec(seq![hd], seq!['/']) == hd);
        assert(split_spec(hd, '/') =~= head_pieces);
    }
    let pred = |x: Seq<char>| normal_piece(x);
    assert(head_pieces.filter(pred) =~= Seq::<Seq<char>>::empty()) by {
        reveal_with_fuel(Seq::filter, 3);
        assert(!normal_piece(e));
        assert(!normal_piece(seq!['.']));
        if hd == seq!['/'] {
            assert(head_pieces.drop_last() =~= seq![e]);
            assert(head_pieces.drop_last().drop_last() =~= Seq::<Seq<char>>::empty());
        } else {
            assert(head_pieces.drop_last() =~= Seq::<Seq<char>>::empty());
        }
    }
    let pieces = split_spec(j, '/');
    if filt.len() == 0 {
        assert(parts =~= seq![hd]);
        assert(j == hd);
        assert(pieces == head_pieces);
    } else {
        crate::text::lemma_join_cons(hd, filt, "/"@);
        assert(j == hd + seq!['/'] + join_spec(filt, "/"@));
        crate::text::lemma_split_concat(hd, join_spec(filt, "/"@), '/');
        crate::text::lemma_split_join(filt, '/');
        assert(pieces == head_pieces + filt);
        Seq::filter_distributes_over_add(head_pieces, filt, pred);
    }
    lemma_filter_all(filt);
    if filt.len() == 0 {
        assert(filt.filter(pred) =~= Seq::<Seq<char>>::empty()) by {
            reveal(Seq::filter);
        }
    }
    assert(pieces.filter(pred) =~= filt);
    assert(j[0] == hd[0]);
    assert(pieces[0] == head_pieces[0]);
    assert(path_components_spec(j) =~= parts);
}

/// Joining the relative path back onto the download directory gives the
/// file: the directory's components followed by those of the relative
/// path are the file's components.
pub proof fn lemma_relative_path_rejoins(download_dir: Seq<char>, file: Seq<char>)
    requires
        relative_path_spec(download_dir, file) is Some,
    ensures
        path_components_spec(download_dir) + path_components_spec(relative_path_spec(download_dir, file)->0)
            == path_components_spec(file),
{
    reveal_strlit("/");
    let d = path_components_spec(download_dir);
    let f = path_components_spec(file);
    let pieces = split_spec(file, '/');
    let filt = pieces.filter(|x: Seq<char>| normal_piece(x));
    let head: Seq<Seq<char>> = if file.len() > 0 && file[0] == '/' {
        seq![seq!['/']]
    } else if pieces[0] == seq!['.'] {
        seq![seq!['.']]
    } else {
        Seq::empty()
    };
    assert(f == head + filt);
    crate::text::lemma_split_pieces(file, '/');
    assert forall|m: int| 0 <= m < filt.len() implies normal_piece(#[trigger] filt[m]) && forall|k: int|
        0 <= k < filt[m].len() ==> filt[m][k] != '/' by {
        pieces.lemma_filter_pred(|x: Seq<char>| normal_piece(x), m);
        pieces.lemma_filter_contains_rev(|x: Seq<char>| normal_piece(x), filt[m]);
        assert(filt.contains(filt[m]));
        let w = choose|w: int| 0 <= w < pieces.len() && pieces[w] == filt[m];
        assert forall|k: int| 0 <= k < filt[m].len() implies filt[m][k] != '/' by {
            assert(pieces[w][k] != '/');
        }
    }
    let parts = f.skip(d.len() as int);
    if d.len() >= head.len() {
        assert forall|i: int| 0 <= i < parts.len() implies normal_piece(#[trigger] parts[i]) && forall|k: int|
            0 <= k < parts[i].len() ==> parts[i][k] != '/' by {
            let m = i + d.len() - head.len();
            assert(parts[i] == f[i + d.len()]);
            assert(f[i + d.len()] == filt[m]);
            assert(normal_piece(filt[m]));
            assert forall|k: int| 0 <= k < parts[i].len() implies parts[i][k] != '/' by {
                assert(filt[m][k] != '/');
            }
        }
        lemma_components_of_join(parts);
    } else {
        // An empty directory: the file's root or current directory stays.
        assert(d.len() == 0 && head.len() == 1);
        assert(parts =~= seq![head[0]] + filt);
        assert forall|i: int| 0 <= i < filt.len() implies normal_piece(#[trigger] filt[i]) by {}
        assert forall|i: int, k: int| 0 <= i < filt.len() && 0 <= k < filt[i].len() implies #[trigger] filt[i][k] != '/' by {}
        lemma_components_of_headed_join(head[0], filt);
    }
    assert(d + parts =~= f);
}

/// The path of `file` inside `download_dir`, written with `/` whatever the
/// platform, so records read the same everywhere.
pub fn relative_path(download_dir: &str, file: &str) -> (r: Option<String>)
    ensures
        match r {
            Some(p) => relative_path_spec(download_dir@, file@) == Some(p@),
            None => relative_path_spec(download_dir@, file@) is None,
        },
{
    let dc = chars_of(download_dir);
    let fc = chars_of(file);
    let d = path_components(&dc);
    let f = path_components(&fc);
    let ghost dv = nested_view(d@);
    let ghost fv = nested_view(f@);
    assert(dv == path_components_spec(download_dir@));
    assert(fv == path_components_spec(file@));
    assert(dv.len() == d@.len() && fv.len() == f@.len());
    if d.len() >= f.len() {
        return None;
    }
    let mut i: usize = 0;
    while i < d.len()
        invariant
            i <= d@.len() < f@.len(),
            dv == nested_view(d@),
            fv == nested_view(f@),
            forall|k: int| 0 <= k < i ==> dv[k] == fv[k],
            dv == path_components_spec(download_dir@),
            fv == path_components_spec(file@),
        decreases d@.len() - i,
    {
        if !chars_eq(&d[i], &f[i]) {
            assert(dv[i as int] == d@[i as int]@ && fv[i as int] == f@[i as int]@);
            assert(fv.take(d@.len() as int)[i as int] != dv[i as int]);
            assert(fv.take(d@.len() as int) != dv);
            return None;
        }
        i = i + 1;
    }
    assert(fv.take(d@.len() as int) =~= dv);
    let mut rest: Vec<Vec<char>> = Vec::new();
    let mut j: usize = d.len();
    while j < f.len()
        invariant
            d@.len() <= j <= f@.len(),
            fv == nested_view(f@),
            nested_view(rest@) == fv.subrange(d@.len() as int, j as int),
        decreases f@.len() - j,
    {
        let copy = slice_chars(&f[j], 0, f[j].len());
        assert(copy@ =~= f@[j as int]@);
        let ghost before = nested_view(rest@);
        rest.push(copy);
        assert(nested_view(rest@) =~= before.push(fv[j as int]));
        assert(fv.subrange(d@.len() as int, j + 1) =~= fv.subrange(d@.len() as int, j as int).push(fv[j as int]));
        j = j + 1;
    }
    assert(fv.subrange(d@.len() as int, f@.len() as int) =~= fv.skip(d@.len() as int));
    Some(join_chars(&rest, "/"))
}

} // verus!
