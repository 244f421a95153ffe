//! Transfer planning for one download: range splitting, candidate URLs,
//! integrity checks, retry policy and progress accounting.
//!
//! The HTTP transfers themselves run outside the library; every decision they
//! take between requests is made here.

use vstd::prelude::*;
use md5::Digest;
use crate::download::records::{path_components, path_components_spec};
use crate::text::{
    join_chars, join_spec, string_of, push_char,
    ascii_lower, ascii_lower_seq, ascii_lowercase, chars_of, contains, contains_seq, decimal_seq, find,
    find_seq, occurs_at, parse_u64_chars, parse_u64_spec, push_chars, push_decimal, push_str,
    rfind_char, last_index_of, chars_eq, contains_chars, nested_view, strings_view,
    strings_from_nested, slice_chars, string_from_chars, trim_chars, trim_seq,
};

verus! {

broadcast use vstd::string::group_string_axioms;

/// Why a transfer failed.
#[derive(Debug, Clone, PartialEq, Eq)]
pub enum DownloadError {
    Cancelled,
    RangesUnsupported,
    Network(String),
    Integrity(String),
    Io(String),
    Http { status: u16 },
    Other(String),
}

impl DownloadError {
    pub open spec fn spec_is_retryable(&self) -> bool {
        match self {
            DownloadError::Network(_) | DownloadError::Io(_) => true,
            DownloadError::RangesUnsupported => true,
            DownloadError::Http { status } => *status >= 500 || *status == 408 || *status == 429,
            DownloadError::Cancelled | DownloadError::Integrity(_) | DownloadError::Other(_) => false,
        }
    }

    /// Network, I/O and server-side (5xx, 408, 429) failures are worth another
    /// attempt; integrity failures and cancellation are final.
    pub fn is_retryable(&self) -> (r: bool)
        ensures
            r == self.spec_is_retryable(),
    {
        match self {
            DownloadError::Network(_) | DownloadError::Io(_) => true,
            DownloadError::RangesUnsupported => true,
            DownloadError::Http { status } => *status >= 500 || *status == 408 || *status == 429,
            DownloadError::Cancelled | DownloadError::Integrity(_) | DownloadError::Other(_) => false,
        }
    }

    pub open spec fn spec_message(&self) -> Seq<char> {
        match self {
            DownloadError::Cancelled => "下载已取消"@,
            DownloadError::RangesUnsupported => "音源不支持 Range 分片"@,
            DownloadError::Network(m) => "网络错误: "@ + m@,
            DownloadError::Integrity(m) => "文件完整性校验失败: "@ + m@,
            DownloadError::Io(m) => "写入文件失败: "@ + m@,
            DownloadError::Http { status } => "HTTP "@ + decimal_seq(*status as nat),
            DownloadError::Other(m) => m@,
        }
    }

    /// The user-facing text of the error.
    pub fn message(&self) -> (s: String)
        ensures
            s@ == self.spec_message(),
    {
        let mut s = String::new();
        match self {
            DownloadError::Cancelled => push_str(&mut s, "下载已取消"),
            DownloadError::RangesUnsupported => push_str(&mut s, "音源不支持 Range 分片"),
            DownloadError::Network(m) => {
                push_str(&mut s, "网络错误: ");
                push_str(&mut s, m.as_str());
            },
            DownloadError::Integrity(m) => {
                push_str(&mut s, "文件完整性校验失败: ");
                push_str(&mut s, m.as_str());
            },
            DownloadError::Io(m) => {
                push_str(&mut s, "写入文件失败: ");
                push_str(&mut s, m.as_str());
            },
            DownloadError::Http { status } => {
                push_str(&mut s, "HTTP ");
                push_decimal(&mut s, *status as u64);
            },
            DownloadError::Other(m) => push_str(&mut s, m.as_str()),
        }
        assert(s@ =~= self.spec_message());
        s
    }
}

pub open spec fn short_file_message(expected: u64, actual: u64) -> Seq<char> {
    "文件偏短: 实际 "@ + decimal_seq(actual as nat) + " 字节，预期至少 "@ + decimal_seq(
        expected as nat,
    ) + " 字节"@
}

pub open spec fn size_mismatch_message(expected: u64, actual: u64) -> Seq<char> {
    "文件大小不符: 实际 "@ + decimal_seq(actual as nat) + " 字节，预期 "@ + decimal_seq(
        expected as nat,
    ) + " 字节"@
}

/// Whether `actual` written bytes satisfy a declared size of `expected`:
/// a zero declaration checks nothing, an advisory one only rejects short files.
pub open spec fn size_ok(expected: u64, actual: u64, advisory: bool) -> bool {
    expected == 0 || (if advisory {
        actual >= expected
    } else {
        actual == expected
    })
}

/// Integrity check of the number of bytes written against the declared size.
pub fn verify_size(expected: u64, actual: u64, advisory: bool) -> (r: Result<(), DownloadError>)
    ensures
        r is Ok <==> size_ok(expected, actual, advisory),
        r matches Err(e) ==> e matches DownloadError::Integrity(m) && m@ == (if advisory {
            short_file_message(expected, actual)
        } else {
            size_mismatch_message(expected, actual)
        }),
{
    if expected == 0 {
        return Ok(());
    }
    let ok = if advisory {
        actual >= expected
    } else {
        actual == expected
    };
    if ok {
        return Ok(());
    }
    let mut m = String::new();
    if advisory {
        push_str(&mut m, "文件偏短: 实际 ");
        push_decimal(&mut m, actual);
        push_str(&mut m, " 字节，预期至少 ");
        push_decimal(&mut m, expected);
        push_str(&mut m, " 字节");
        assert(m@ =~= short_file_message(expected, actual));
    } else {
        push_str(&mut m, "文件大小不符: 实际 ");
        push_decimal(&mut m, actual);
        push_str(&mut m, " 字节，预期 ");
        push_decimal(&mut m, expected);
        push_str(&mut m, " 字节");
        assert(m@ =~= size_mismatch_message(expected, actual));
    }
    Err(DownloadError::Integrity(m))
}

/// The last byte of the piece that starts at `start` when pieces hold at
/// most `chunk` bytes of a `total`-byte file.
pub open spec fn piece_end(start: int, total: int, chunk: int) -> int {
    if total - start <= chunk {
        total - 1
    } else {
        start + chunk - 1
    }
}

/// Consecutive inclusive byte ranges of at most `chunk` bytes from `start` to
/// the end of a `total`-byte file.
pub open spec fn pieces_from(start: int, total: int, chunk: int) -> Seq<(u64, u64)>
    decreases total - start,
{
    if start < 0 || chunk <= 0 || start >= total {
        Seq::empty()
    } else {
        seq![(start as u64, piece_end(start, total, chunk) as u64)] + pieces_from(
            piece_end(start, total, chunk) + 1,
            total,
            chunk,
        )
    }
}

/// `rs` splits the bytes `from..total` into non-empty, gap-free, ordered
/// inclusive ranges.
pub open spec fn tiles(rs: Seq<(u64, u64)>, from: int, total: int) -> bool {
    &&& (rs.len() == 0 <==> from >= total)
    &&& rs.len() > 0 ==> rs[0].0 == from && rs.last().1 == total - 1
    &&& forall|i: int| 0 <= i < rs.len() ==> #[trigger] rs[i].0 <= rs[i].1
    &&& forall|i: int| 0 <= i < rs.len() - 1 ==> #[trigger] rs[i].1 + 1 == rs[i + 1].0
}

/// The summed length of inclusive ranges.
pub open spec fn covered(rs: Seq<(u64, u64)>) -> int
    decreases rs.len(),
{
    if rs.len() == 0 {
        0
    } else {
        covered(rs.drop_last()) + (rs.last().1 - rs.last().0 + 1)
    }
}

/// Every range holds at most `cap` bytes.
pub open spec fn pieces_at_most(rs: Seq<(u64, u64)>, cap: int) -> bool {
    forall|i: int| 0 <= i < rs.len() ==> #[trigger] rs[i].1 - rs[i].0 + 1 <= cap
}

proof fn lemma_covered_prepend(x: (u64, u64), rs: Seq<(u64, u64)>)
    ensures
        covered(seq![x] + rs) == (x.1 - x.0 + 1) + covered(rs),
    decreases rs.len(),
{
    if rs.len() == 0 {
        let whole = seq![x] + rs;
        assert(whole.drop_last() =~= Seq::<(u64, u64)>::empty());
        assert(whole.last() == x);
        assert(covered(whole) == covered(whole.drop_last()) + (whole.last().1 - whole.last().0 + 1));
    } else {
        let whole = seq![x] + rs;
        assert(whole.drop_last() =~= seq![x] + rs.drop_last());
        assert(whole.last() == rs.last());
        lemma_covered_prepend(x, rs.drop_last());
        assert(covered(whole) == covered(whole.drop_last()) + (whole.last().1 - whole.last().0 + 1));
    }
}

/// Pieces produced from `start` tile `start..total`, stay within `chunk`
/// bytes each, and cover exactly `total - start` bytes.
pub proof fn lemma_pieces_tile(start: int, total: int, chunk: int)
    requires
        0 <= start,
        0 < chunk,
        total <= u64::MAX + 1,
    ensures
        tiles(pieces_from(start, total, chunk), start, total),
        pieces_at_most(pieces_from(start, total, chunk), chunk),
        covered(pieces_from(start, total, chunk)) == if start < total {
            total - start
        } else {
            0
        },
    decreases total - start,
{
    if start < total {
        let e = piece_end(start, total, chunk);
        let rest = pieces_from(e + 1, total, chunk);
        lemma_pieces_tile(e + 1, total, chunk);
        let rs = pieces_from(start, total, chunk);
        assert(rs == seq![(start as u64, e as u64)] + rest);
        lemma_covered_prepend((start as u64, e as u64), rest);
        if rest.len() > 0 {
            assert(rs.last() == rest.last());
        }
        assert forall|i: int| 0 <= i < rs.len() - 1 implies #[trigger] rs[i].1 + 1 == rs[i + 1].0 by {
            if i > 0 {
                assert(rs[i] == rest[i - 1]);
                assert(rs[i + 1] == rest[i]);
            }
        }
        assert forall|i: int| 0 <= i < rs.len() implies #[trigger] rs[i].0 <= rs[i].1 by {
            if i > 0 {
                assert(rs[i] == rest[i - 1]);
            }
        }
        assert forall|i: int| 0 <= i < rs.len() implies #[trigger] rs[i].1 - rs[i].0 + 1 <= chunk by {
            if i > 0 {
                assert(rs[i] == rest[i - 1]);
            }
        }
    }
}

/// Splits `total` bytes into consecutive ranges of `chunk` bytes, the last
/// range taking the remainder.
fn split_ranges(total: u64, chunk: u64) -> (out: Vec<(u64, u64)>)
    requires
        chunk > 0,
    ensures
        out@ == pieces_from(0, total as int, chunk as int),
{
    let mut out: Vec<(u64, u64)> = Vec::new();
    let mut start: u64 = 0;
    while start < total
        invariant
            chunk > 0,
            start <= total,
            out@ + pieces_from(start as int, total as int, chunk as int) == pieces_from(
                0,
                total as int,
                chunk as int,
            ),
        decreases total - start,
    {
        let end = if total - start <= chunk {
            total - 1
        } else {
            start + chunk - 1
        };
        let ghost rest = pieces_from(end + 1, total as int, chunk as int);
        let ghost prev = out@;
        assert(pieces_from(start as int, total as int, chunk as int) == seq![(start, end)] + rest);
        out.push((start, end));
        assert(out@ + rest =~= prev + (seq![(start, end)] + rest));
        start = end + 1;
    }
    assert(out@ + pieces_from(start as int, total as int, chunk as int) =~= out@);
    out
}

/// The usable number of parallel connections: the configured value clamped
/// to `1..=16`.
pub open spec fn clamp_workers(concurrency: usize) -> int {
    if concurrency < 1 {
        1
    } else if concurrency > 16 {
        16
    } else {
        concurrency as int
    }
}

/// Pieces are at least one MiB, so small files use fewer connections.
pub const MIN_PART_SIZE: u64 = 1048576;

/// The number of connections `plan_ranges` splits a file into.
pub open spec fn range_workers(total: u64, concurrency: usize) -> int {
    let max_useful: int = if total / MIN_PART_SIZE >= 1 {
        (total / MIN_PART_SIZE) as int
    } else {
        1
    };
    if clamp_workers(concurrency) <= max_useful {
        clamp_workers(concurrency)
    } else {
        max_useful
    }
}

/// The piece size of `plan_ranges`: the ceiling of `total / workers`.
pub open spec fn range_chunk(total: u64, concurrency: usize) -> int {
    (total - 1) / range_workers(total, concurrency) + 1
}

fn clamp_concurrency(concurrency: usize) -> (w: u64)
    ensures
        w == clamp_workers(concurrency),
{
    if concurrency < 1 {
        1
    } else if concurrency > 16 {
        16
    } else {
        concurrency as u64
    }
}

/// Splits a file of `total` bytes into consecutive ranges for parallel
/// download: one range per connection, pieces of at least one MiB, the last
/// range taking the remainder.
pub fn plan_ranges(total: u64, concurrency: usize) -> (out: Vec<(u64, u64)>)
    ensures
        total == 0 ==> out@.len() == 0,
        total > 0 ==> out@ == pieces_from(0, total as int, range_chunk(total, concurrency)),
        tiles(out@, 0, total as int),
        covered(out@) == total,
{
    if total == 0 {
        return Vec::new();
    }
    let min_part: u64 = MIN_PART_SIZE;
    let max_useful = if total / min_part >= 1 {
        total / min_part
    } else {
        1
    };
    let clamped = clamp_concurrency(concurrency);
    let workers = if clamped <= max_useful {
        clamped
    } else {
        max_useful
    };
    assert(workers == range_workers(total, concurrency));
    let chunk = (total - 1) / workers + 1;
    proof {
        lemma_pieces_tile(0, total as int, chunk as int);
    }
    split_ranges(total, chunk)
}

/// The piece size of `plan_bounded_ranges`: an even share per connection,
/// replaced by the cap when the share is empty or larger than the cap.
pub open spec fn bounded_chunk(total: u64, concurrency: usize, max_chunk: u64) -> int {
    let part: int = total as int / clamp_workers(concurrency);
    if part == 0 || part > max_chunk {
        max_chunk as int
    } else {
        part
    }
}

/// Splits a file into ranges that never exceed `max_chunk` bytes, using more
/// ranges than connections when the cap requires it. Empty without a size or
/// without a cap.
pub fn plan_bounded_ranges(total: u64, concurrency: usize, max_chunk: u64) -> (out: Vec<(u64, u64)>)
    ensures
        (total == 0 || max_chunk == 0) ==> out@.len() == 0,
        (total > 0 && max_chunk > 0) ==> out@ == pieces_from(
            0,
            total as int,
            bounded_chunk(total, concurrency, max_chunk),
        ),
        max_chunk > 0 ==> tiles(out@, 0, total as int),
        max_chunk > 0 ==> covered(out@) == total,
        pieces_at_most(out@, max_chunk as int),
{
    if total == 0 || max_chunk == 0 {
        return Vec::new();
    }
    let workers = clamp_concurrency(concurrency);
    let mut part = total / workers;
    if part == 0 || part > max_chunk {
        part = max_chunk;
    }
    proof {
        lemma_pieces_tile(0, total as int, part as int);
    }
    split_ranges(total, part)
}

/// What `value.rsplit('/').next()?.trim().parse::<u64>().ok()` gives: the
/// number after the last `/` of a `Content-Range` header.
pub open spec fn content_range_total_spec(value: Seq<char>) -> Option<u64> {
    parse_u64_spec(trim_seq(value.skip(last_index_of(value, '/') + 1)))
}

/// Reads the total length from `Content-Range: bytes 0-0/12345`.
pub fn parse_content_range_total(value: &str) -> (r: Option<u64>)
    ensures
        r == content_range_total_spec(value@),
{
    let chars = chars_of(value);
    let start = match rfind_char(&chars, '/') {
        Some(i) => i + 1,
        None => 0,
    };
    let tail = slice_chars(&chars, start, chars.len());
    assert(tail@ =~= value@.skip(last_index_of(value@, '/') + 1));
    let trimmed = trim_chars(&tail);
    parse_u64_chars(&trimmed)
}

/// Reads a `Content-Length` header value: trimmed, then parsed as `u64`.
pub fn parse_content_length(value: &str) -> (r: Option<u64>)
    ensures
        r == parse_u64_spec(trim_seq(value@)),
{
    let chars = chars_of(value);
    let trimmed = trim_chars(&chars);
    parse_u64_chars(&trimmed)
}

/// Whether an `Accept-Ranges` header value announces byte ranges: its ASCII
/// lowercase form contains `bytes`.
pub fn supports_ranges(accept_ranges: &str) -> (r: bool)
    ensures
        r == contains_seq(ascii_lower_seq(accept_ranges@), "bytes"@),
{
    let chars = chars_of(accept_ranges);
    let lower = ascii_lowercase(&chars);
    let pat = chars_of("bytes");
    contains(&lower, &pat)
}

/// The NetEase CDN node a host is moved to, tried in order: `m801.`, `m804.`
/// and `m704.` become `m701.`, `m8.` becomes `m7.`.
pub open spec fn rewrite_host_seq(host: Seq<char>) -> Option<Seq<char>> {
    if occurs_at(host, "m801."@, 0) {
        Some("m701."@ + host.skip(5))
    } else if occurs_at(host, "m804."@, 0) {
        Some("m701."@ + host.skip(5))
    } else if occurs_at(host, "m704."@, 0) {
        Some("m701."@ + host.skip(5))
    } else if occurs_at(host, "m8."@, 0) {
        Some("m7."@ + host.skip(3))
    } else {
        None
    }
}

/// The part of a URL before its host (`scheme://`, or nothing).
pub open spec fn url_scheme_prefix(url: Seq<char>) -> Seq<char> {
    match find_seq(url, "://"@) {
        Some(i) => url.take(i + 3),
        None => Seq::empty(),
    }
}

/// The part of a URL from its host on.
pub open spec fn url_after_scheme(url: Seq<char>) -> Seq<char> {
    match find_seq(url, "://"@) {
        Some(i) => url.skip(i + 3),
        None => url,
    }
}

pub open spec fn url_host(url: Seq<char>) -> Seq<char> {
    let rest = url_after_scheme(url);
    match find_seq(rest, "/"@) {
        Some(j) => rest.take(j),
        None => rest,
    }
}

pub open spec fn url_tail(url: Seq<char>) -> Seq<char> {
    let rest = url_after_scheme(url);
    match find_seq(rest, "/"@) {
        Some(j) => rest.skip(j),
        None => Seq::empty(),
    }
}

/// `url` with its NetEase CDN host moved to the node that answers; other
/// URLs unchanged.
pub open spec fn rewrite_netease_seq(url: Seq<char>) -> Seq<char> {
    match rewrite_host_seq(url_host(url)) {
        Some(h) => url_scheme_prefix(url) + h + url_tail(url),
        None => url,
    }
}

fn prefix_is(s: &Vec<char>, lit: &str) -> (r: bool)
    ensures
        r == occurs_at(s@, lit@, 0),
{
    let pat = chars_of(lit);
    crate::text::starts_with(s, &pat)
}

fn rewrite_host(host: &Vec<char>) -> (r: Option<Vec<char>>)
    ensures
        r matches Some(h) ==> rewrite_host_seq(host@) == Some(h@),
        r is None ==> rewrite_host_seq(host@) is None,
{
    proof {
        reveal_strlit("m801.");
        reveal_strlit("m804.");
        reveal_strlit("m704.");
        reveal_strlit("m8.");
    }
    let (from_len, to) = if prefix_is(host, "m801.") {
        (5usize, "m701.")
    } else if prefix_is(host, "m804.") {
        (5usize, "m701.")
    } else if prefix_is(host, "m704.") {
        (5usize, "m701.")
    } else if prefix_is(host, "m8.") {
        (3usize, "m7.")
    } else {
        return None;
    };
    let mut out = chars_of(to);
    let rest = slice_chars(host, from_len, host.len());
    let ghost before = out@;
    let mut i: usize = 0;
    while i < rest.len()
        invariant
            i <= rest.len(),
            out@ == before + rest@.take(i as int),
        decreases rest.len() - i,
    {
        out.push(rest[i]);
        assert(rest@.take(i + 1) =~= rest@.take(i as int).push(rest@[i as int]));
        i = i + 1;
    }
    assert(rest@.take(rest.len() as int) =~= rest@);
    assert(out@ =~= rewrite_host_seq(host@)->0);
    Some(out)
}

fn append_all(out: &mut Vec<char>, more: &Vec<char>)
    ensures
        final(out)@ == old(out)@ + more@,
{
    let ghost before = out@;
    let mut i: usize = 0;
    while i < more.len()
        invariant
            i <= more.len(),
            out@ == before + more@.take(i as int),
        decreases more.len() - i,
    {
        out.push(more[i]);
        assert(more@.take(i + 1) =~= more@.take(i as int).push(more@[i as int]));
        i = i + 1;
    }
    assert(more@.take(more.len() as int) =~= more@);
}

fn rewrite_netease_chars(url: &Vec<char>) -> (out: Vec<char>)
    ensures
        out@ == rewrite_netease_seq(url@),
{
    let sep = chars_of("://");
    proof {
        reveal_strlit("://");
    }
    let (prefix_end, rest_start) = match find(url, &sep) {
        Some(i) => (i + 3, i + 3),
        None => (0, 0),
    };
    let prefix = slice_chars(url, 0, prefix_end);
    let rest = slice_chars(url, rest_start, url.len());
    assert(prefix@ =~= url_scheme_prefix(url@));
    assert(rest@ =~= url_after_scheme(url@));
    let slash = chars_of("/");
    let (host, tail) = match find(&rest, &slash) {
        Some(j) => (slice_chars(&rest, 0, j), slice_chars(&rest, j, rest.len())),
        None => (slice_chars(&rest, 0, rest.len()), Vec::new()),
    };
    assert(host@ =~= url_host(url@));
    assert(tail@ =~= url_tail(url@));
    match rewrite_host(&host) {
        Some(h) => {
            let mut out = prefix;
            append_all(&mut out, &h);
            append_all(&mut out, &tail);
            out
        },
        None => slice_chars(url, 0, url.len()),
    }
}

proof fn lemma_slash_at(s: Seq<char>, k: int)
    ensures
        occurs_at(s, "/"@, k) <==> (0 <= k < s.len() && s[k] == '/'),
{
    reveal_strlit("/");
    if 0 <= k < s.len() && s[k] == '/' {
        assert(s.subrange(k, k + 1) =~= "/"@);
    }
    if occurs_at(s, "/"@, k) {
        assert(s.subrange(k, k + 1)[0] == s[k]);
    }
}

/// The host of a URL holds no `/`, and the URL is its scheme prefix, its
/// host and its tail, the tail empty or starting with `/`.
proof fn lemma_url_parts(url: Seq<char>)
    ensures
        url_after_scheme(url) == url_host(url) + url_tail(url),
        url == url_scheme_prefix(url) + url_after_scheme(url),
        forall|k: int| 0 <= k < url_host(url).len() ==> url_host(url)[k] != '/',
        url_tail(url).len() > 0 ==> url_tail(url)[0] == '/',
{
    reveal_strlit("://");
    let rest = url_after_scheme(url);
    match find_seq(url, "://"@) {
        Some(i) => {
            crate::text::lemma_find_from(url, "://"@, 0);
            assert(url =~= url.take(i + 3) + url.skip(i + 3));
        },
        None => {
            assert(url =~= Seq::<char>::empty() + url);
        },
    }
    crate::text::lemma_find_from(rest, "/"@, 0);
    match find_seq(rest, "/"@) {
        Some(j) => {
            assert(rest =~= rest.take(j) + rest.skip(j));
            assert forall|k: int| 0 <= k < url_host(url).len() implies url_host(url)[k] != '/' by {
                lemma_slash_at(rest, k);
            }
            lemma_slash_at(rest, j);
        },
        None => {
            assert(rest =~= rest + Seq::<char>::empty());
            assert forall|k: int| 0 <= k < url_host(url).len() implies url_host(url)[k] != '/' by {
                lemma_slash_at(rest, k);
            }
        },
    }
}

/// A rewritten host keeps its length, holds no `/` when the host held
/// none, and is not rewritten again.
proof fn lemma_rewritten_host(host: Seq<char>)
    requires
        rewrite_host_seq(host) is Some,
    ensures
        ({
            let h = rewrite_host_seq(host)->0;
            let n: int = if occurs_at(host, "m8."@, 0) && !occurs_at(host, "m801."@, 0) && !occurs_at(host, "m804."@, 0)
                && !occurs_at(host, "m704."@, 0) {
                3
            } else {
                5
            };
            &&& h.len() == host.len()
            &&& n <= host.len()
            &&& h.skip(n) == host.skip(n)
            &&& forall|k: int| 0 <= k < n ==> h[k] != ':' && h[k] != '/'
            &&& rewrite_host_seq(h) is None
        }),
{
    reveal_strlit("m801.");
    reveal_strlit("m804.");
    reveal_strlit("m704.");
    reveal_strlit("m8.");
    reveal_strlit("m701.");
    reveal_strlit("m7.");
    let h = rewrite_host_seq(host)->0;
    if occurs_at(host, "m801."@, 0) || occurs_at(host, "m804."@, 0) || occurs_at(host, "m704."@, 0) {
        assert(h =~= "m701."@ + host.skip(5));
        assert(h.skip(5) =~= host.skip(5));
        assert(h[1] == '7' && h[3] == '1');
        if occurs_at(h, "m801."@, 0) {
            assert(h.subrange(0, 5)[1] == '8');
        }
        if occurs_at(h, "m804."@, 0) {
            assert(h.subrange(0, 5)[1] == '8');
        }
        if occurs_at(h, "m704."@, 0) {
            assert(h.subrange(0, 5)[3] == '4');
        }
        if occurs_at(h, "m8."@, 0) {
            assert(h.subrange(0, 3)[1] == '8');
        }
    } else {
        assert(h =~= "m7."@ + host.skip(3));
        assert(h.skip(3) =~= host.skip(3));
        assert(h[1] == '7' && h[2] == '.');
        if occurs_at(h, "m801."@, 0) {
            assert(h.subrange(0, 5)[1] == '8');
        }
        if occurs_at(h, "m804."@, 0) {
            assert(h.subrange(0, 5)[1] == '8');
        }
        if occurs_at(h, "m704."@, 0) {
            assert(h.subrange(0, 5)[2] == '0');
        }
        if occurs_at(h, "m8."@, 0) {
            assert(h.subrange(0, 3)[1] == '8');
        }
    }
}

/// Rewriting a NetEase URL twice gives what rewriting it once gives.
pub proof fn lemma_rewrite_idempotent(url: Seq<char>)
    ensures
        rewrite_netease_seq(rewrite_netease_seq(url)) == rewrite_netease_seq(url),
{
    reveal_strlit("://");
    let host = url_host(url);
    if rewrite_host_seq(host) is Some {
        let h = rewrite_host_seq(host)->0;
        let p = url_scheme_prefix(url);
        let t = url_tail(url);
        let u2 = p + h + t;
        lemma_url_parts(url);
        lemma_rewritten_host(host);
        let n: int = if occurs_at(host, "m8."@, 0) && !occurs_at(host, "m801."@, 0) && !occurs_at(host, "m804."@, 0)
            && !occurs_at(host, "m704."@, 0) {
            3
        } else {
            5
        };
        assert(url =~= p + host + t);
        // u2 and url agree from the end of the rewritten prefix on.
        assert forall|k: int| 0 <= k < url.len() && !(p.len() <= k < p.len() + n) implies #[trigger] u2[k] == url[k] by {
            if k >= p.len() + n && k < p.len() + host.len() {
                assert(h.skip(n)[k - p.len() - n] == host.skip(n)[k - p.len() - n]);
            }
        }
        assert(u2.len() == url.len());
        // The scheme separator is found where it was.
        crate::text::lemma_find_from(url, "://"@, 0);
        match find_seq(url, "://"@) {
            Some(i) => {
                assert(p =~= url.take(i + 3));
                assert(u2.subrange(i, i + 3) =~= url.subrange(i, i + 3));
                assert forall|k: int| 0 <= k < i implies !occurs_at(u2, "://"@, k) by {
                    assert(!occurs_at(url, "://"@, k));
                    assert forall|m: int| 0 <= m < 3 implies #[trigger] u2.subrange(k, k + 3)[m] == url.subrange(k, k + 3)[m] by {
                        assert(u2[k + m] == url[k + m]);
                    }
                    assert(u2.subrange(k, k + 3) =~= url.subrange(k, k + 3));
                }
                crate::text::lemma_find_unique(u2, "://"@, Some(i));
                assert(u2.take(i + 3) =~= p);
                assert(u2.skip(i + 3) =~= h + t);
            },
            None => {
                assert(p.len() == 0);
                assert forall|k: int| 0 <= k implies !occurs_at(u2, "://"@, k) by {
                    if occurs_at(u2, "://"@, k) {
                        assert(u2.subrange(k, k + 3)[0] == u2[k]);
                        assert(u2[k] == ':');
                        if k < n {
                            assert(u2[k] == h[k]);
                        } else {
                            assert(!occurs_at(url, "://"@, k));
                            assert forall|m: int| 0 <= m < 3 implies #[trigger] u2.subrange(k, k + 3)[m] == url.subrange(k, k + 3)[m] by {
                                assert(u2[k + m] == url[k + m]);
                            }
                            assert(u2.subrange(k, k + 3) =~= url.subrange(k, k + 3));
                        }
                    }
                }
                crate::text::lemma_find_unique(u2, "://"@, None);
                assert(u2 =~= h + t);
            },
        }
        assert(url_scheme_prefix(u2) == p);
        assert(url_after_scheme(u2) == h + t);
        // The host ends where the tail's slash is.
        let rest2 = h + t;
        assert forall|k: int| 0 <= k < h.len() implies h[k] != '/' by {
            if k >= n {
                assert(h.skip(n)[k - n] == host.skip(n)[k - n]);
            }
        }
        if t.len() > 0 {
            assert forall|k: int| 0 <= k < h.len() implies !occurs_at(rest2, "/"@, k) by {
                lemma_slash_at(rest2, k);
            }
            lemma_slash_at(rest2, h.len() as int);
            crate::text::lemma_find_unique(rest2, "/"@, Some(h.len() as int));
            assert(rest2.take(h.len() as int) =~= h);
            assert(rest2.skip(h.len() as int) =~= t);
        } else {
            assert forall|k: int| 0 <= k implies !occurs_at(rest2, "/"@, k) by {
                lemma_slash_at(rest2, k);
            }
            crate::text::lemma_find_unique(rest2, "/"@, None);
            assert(rest2 =~= h);
        }
        assert(url_host(u2) == h);
        assert(url_tail(u2) == t);
    }
}

/// Moves NetEase CDN URLs from nodes that often refuse downloads (`m8`,
/// `m801`, `m804`, `m704`) to the `m7`/`m701` family; other URLs are
/// returned unchanged.
pub fn rewrite_netease_host(url: &str) -> (out: String)
    ensures
        out@ == rewrite_netease_seq(url@),
{
    let chars = chars_of(url);
    let out = rewrite_netease_chars(&chars);
    string_from_chars(&out)
}

/// Adds one given URL to the candidate list: trimmed, and skipped when empty
/// or already present.
pub open spec fn push_input(acc: Seq<Seq<char>>, value: Seq<char>) -> Seq<Seq<char>> {
    let v = trim_seq(value);
    if v.len() == 0 || acc.contains(v) {
        acc
    } else {
        acc.push(v)
    }
}

pub open spec fn inputs_fold(acc: Seq<Seq<char>>, inputs: Seq<Seq<char>>) -> Seq<Seq<char>>
    decreases inputs.len(),
{
    if inputs.len() == 0 {
        acc
    } else {
        inputs_fold(push_input(acc, inputs[0]), inputs.drop_first())
    }
}

/// Adds the NetEase node rewrite of `v` when it differs from `v` and is not
/// in the list yet.
pub open spec fn push_rewrite(acc: Seq<Seq<char>>, v: Seq<char>) -> Seq<Seq<char>> {
    let rw = rewrite_netease_seq(v);
    if rw != v && !acc.contains(rw) {
        acc.push(rw)
    } else {
        acc
    }
}

pub open spec fn rewrites_fold(acc: Seq<Seq<char>>, vs: Seq<Seq<char>>) -> Seq<Seq<char>>
    decreases vs.len(),
{
    if vs.len() == 0 {
        acc
    } else {
        rewrites_fold(push_rewrite(acc, vs[0]), vs.drop_first())
    }
}

/// The given URLs kept as candidates: trimmed, without blanks or repeats,
/// the primary first.
pub open spec fn given_candidates(primary: Seq<char>, extra: Seq<Seq<char>>) -> Seq<Seq<char>> {
    inputs_fold(Seq::empty(), seq![primary] + extra)
}

/// The candidate download URLs for a primary URL and the source's extra CDN
/// URLs, in the order they are tried: the given URLs, then the NetEase node
/// rewrites of each of them as the last fallback.
pub open spec fn candidate_urls_spec(primary: Seq<char>, extra: Seq<Seq<char>>) -> Seq<Seq<char>> {
    let base = given_candidates(primary, extra);
    rewrites_fold(base, base)
}

/// No URL is empty and none appears twice.
pub open spec fn distinct_nonempty(v: Seq<Seq<char>>) -> bool {
    &&& forall|i: int| 0 <= i < v.len() ==> (#[trigger] v[i]).len() > 0
    &&& forall|i: int, j: int| 0 <= i < j < v.len() ==> v[i] != v[j]
}

proof fn lemma_rewrite_nonempty(v: Seq<char>)
    requires
        rewrite_netease_seq(v) != v,
    ensures
        rewrite_netease_seq(v).len() > 0,
{
    reveal_strlit("m701.");
    reveal_strlit("m7.");
    let h = rewrite_host_seq(url_host(v));
    if h is Some {
        let full = url_scheme_prefix(v) + h->0 + url_tail(v);
        assert(full.len() >= (h->0).len());
    }
}

proof fn lemma_push_new(acc: Seq<Seq<char>>, v: Seq<char>)
    requires
        distinct_nonempty(acc),
        v.len() > 0,
        !acc.contains(v),
    ensures
        distinct_nonempty(acc.push(v)),
        acc.push(v).take(acc.len() as int) == acc,
{
    let w = acc.push(v);
    assert forall|i: int, j: int| 0 <= i < j < w.len() implies w[i] != w[j] by {
        if j == acc.len() {
            assert(acc.contains(acc[i]));
        }
    }
    assert(w.take(acc.len() as int) =~= acc);
}

proof fn lemma_push_input(acc: Seq<Seq<char>>, value: Seq<char>)
    requires
        distinct_nonempty(acc),
    ensures
        distinct_nonempty(push_input(acc, value)),
        push_input(acc, value).len() >= acc.len(),
        push_input(acc, value).take(acc.len() as int) == acc,
{
    let v = trim_seq(value);
    if v.len() == 0 || acc.contains(v) {
        assert(acc.take(acc.len() as int) =~= acc);
    } else {
        lemma_push_new(acc, v);
    }
}

proof fn lemma_push_rewrite(acc: Seq<Seq<char>>, v: Seq<char>)
    requires
        distinct_nonempty(acc),
    ensures
        distinct_nonempty(push_rewrite(acc, v)),
        push_rewrite(acc, v).len() >= acc.len(),
        push_rewrite(acc, v).take(acc.len() as int) == acc,
{
    let rw = rewrite_netease_seq(v);
    if rw != v && !acc.contains(rw) {
        lemma_rewrite_nonempty(v);
        lemma_push_new(acc, rw);
    } else {
        assert(acc.take(acc.len() as int) =~= acc);
    }
}

proof fn lemma_inputs_fold(acc: Seq<Seq<char>>, inputs: Seq<Seq<char>>)
    requires
        distinct_nonempty(acc),
    ensures
        distinct_nonempty(inputs_fold(acc, inputs)),
        inputs_fold(acc, inputs).len() >= acc.len(),
        inputs_fold(acc, inputs).take(acc.len() as int) == acc,
    decreases inputs.len(),
{
    if inputs.len() > 0 {
        let next = push_input(acc, inputs[0]);
        lemma_push_input(acc, inputs[0]);
        lemma_inputs_fold(next, inputs.drop_first());
        let r = inputs_fold(next, inputs.drop_first());
        assert(r.take(acc.len() as int) =~= r.take(next.len() as int).take(acc.len() as int));
    } else {
        assert(acc.take(acc.len() as int) =~= acc);
    }
}

proof fn lemma_rewrites_fold(acc: Seq<Seq<char>>, vs: Seq<Seq<char>>)
    requires
        distinct_nonempty(acc),
    ensures
        distinct_nonempty(rewrites_fold(acc, vs)),
        rewrites_fold(acc, vs).len() >= acc.len(),
        rewrites_fold(acc, vs).take(acc.len() as int) == acc,
    decreases vs.len(),
{
    if vs.len() > 0 {
        let next = push_rewrite(acc, vs[0]);
        lemma_push_rewrite(acc, vs[0]);
        lemma_rewrites_fold(next, vs.drop_first());
        let r = rewrites_fold(next, vs.drop_first());
        assert(r.take(acc.len() as int) =~= r.take(next.len() as int).take(acc.len() as int));
    } else {
        assert(acc.take(acc.len() as int) =~= acc);
    }
}

fn push_input_exec(acc: &mut Vec<Vec<char>>, value: &Vec<char>)
    ensures
        nested_view(final(acc)@) == push_input(nested_view(old(acc)@), value@),
{
    let v = trim_chars(value);
    if v.len() == 0 || contains_chars(acc, &v) {
        return;
    }
    let ghost before = nested_view(acc@);
    acc.push(v);
    assert(nested_view(acc@) =~= before.push(v@));
}

fn push_rewrite_exec(acc: &mut Vec<Vec<char>>, v: &Vec<char>)
    ensures
        nested_view(final(acc)@) == push_rewrite(nested_view(old(acc)@), v@),
{
    let rw = rewrite_netease_chars(v);
    if !chars_eq(&rw, v) && !contains_chars(acc, &rw) {
        let ghost before = nested_view(acc@);
        acc.push(rw);
        assert(nested_view(acc@) =~= before.push(rw@));
    }
}

/// The download URLs to try for one resource, in order: the primary URL,
/// then the source's extra CDN URLs, then the NetEase node rewrites of each
/// of them as the last fallback; blank and repeated URLs are dropped.
pub fn candidate_download_urls(primary: &str, extra: &Vec<String>) -> (out: Vec<String>)
    ensures
        strings_view(out@) == candidate_urls_spec(primary@, strings_view(extra@)),
        distinct_nonempty(strings_view(out@)),
        trim_seq(primary@).len() > 0 ==> out@.len() > 0 && out@[0]@ == trim_seq(primary@),
{
    let mut acc: Vec<Vec<char>> = Vec::new();
    let ghost inputs = seq![primary@] + strings_view(extra@);
    let p = chars_of(primary);
    push_input_exec(&mut acc, &p);
    assert(nested_view(Seq::<Vec<char>>::empty()) =~= Seq::<Seq<char>>::empty());
    assert(inputs.drop_first() =~= strings_view(extra@));
    assert(strings_view(extra@).skip(0) =~= strings_view(extra@));
    assert(inputs[0] == primary@);
    assert(inputs_fold(Seq::empty(), inputs) == inputs_fold(push_input(Seq::empty(), inputs[0]), inputs.drop_first()));
    let mut i: usize = 0;
    while i < extra.len()
        invariant
            i <= extra.len(),
            inputs == seq![primary@] + strings_view(extra@),
            inputs_fold(nested_view(acc@), strings_view(extra@).skip(i as int)) == given_candidates(
                primary@,
                strings_view(extra@),
            ),
        decreases extra.len() - i,
    {
        let item = chars_of(extra[i].as_str());
        let ghost rest = strings_view(extra@).skip(i as int);
        assert(rest[0] == extra@[i as int]@);
        assert(rest.drop_first() =~= strings_view(extra@).skip(i + 1));
        push_input_exec(&mut acc, &item);
        i = i + 1;
    }
    assert(strings_view(extra@).skip(i as int) =~= Seq::<Seq<char>>::empty());
    let ghost base = nested_view(acc@);
    assert(base == given_candidates(primary@, strings_view(extra@)));
    let n = acc.len();
    let mut k: usize = 0;
    assert(base.skip(0) =~= base);
    assert(base.take(n as int) =~= base);
    while k < n
        invariant
            k <= n == base.len(),
            nested_view(acc@).len() >= n,
            nested_view(acc@).take(n as int) == base,
            distinct_nonempty(base) ==> distinct_nonempty(nested_view(acc@)),
            rewrites_fold(nested_view(acc@), base.skip(k as int)) == candidate_urls_spec(primary@, strings_view(extra@)),
        decreases n - k,
    {
        let item = acc[k].clone();
        assert(nested_view(acc@).take(n as int)[k as int] == nested_view(acc@)[k as int]);
        assert(item@ == base[k as int]);
        let ghost rest = base.skip(k as int);
        assert(rest[0] == base[k as int]);
        assert(rest.drop_first() =~= base.skip(k + 1));
        let ghost before = nested_view(acc@);
        push_rewrite_exec(&mut acc, &item);
        proof {
            if distinct_nonempty(base) {
                lemma_push_rewrite(before, item@);
            } else {
                lemma_rewrite_take(before, item@);
            }
            assert(nested_view(acc@).take(n as int) =~= nested_view(acc@).take(before.len() as int).take(n as int));
        }
        k = k + 1;
    }
    assert(base.skip(k as int) =~= Seq::<Seq<char>>::empty());
    proof {
        assert(distinct_nonempty(Seq::<Seq<char>>::empty()));
        lemma_inputs_fold(Seq::empty(), inputs);
        lemma_rewrites_fold(base, base);
        if trim_seq(primary@).len() > 0 {
            let first = push_input(Seq::empty(), inputs[0]);
            lemma_push_input(Seq::empty(), inputs[0]);
            lemma_inputs_fold(first, inputs.drop_first());
            assert(first[0] == trim_seq(primary@));
            assert(base.take(first.len() as int)[0] == first[0]);
            let r = candidate_urls_spec(primary@, strings_view(extra@));
            assert(r.take(base.len() as int)[0] == base[0]);
        }
    }
    strings_from_nested(&acc)
}

/// `c` is a given URL: some input trims to it, and it is not blank.
pub open spec fn is_given(inputs: Seq<Seq<char>>, c: Seq<char>) -> bool {
    c.len() > 0 && exists|k: int| 0 <= k < inputs.len() && #[trigger] trim_seq(inputs[k]) == c
}

/// `c` is the NetEase rewrite of one of `vs`, differing from it.
pub open spec fn is_rewrite_of(vs: Seq<Seq<char>>, c: Seq<char>) -> bool {
    exists|k: int| 0 <= k < vs.len() && #[trigger] rewrite_netease_seq(vs[k]) == c && c != vs[k]
}

proof fn lemma_inputs_fold_members(acc: Seq<Seq<char>>, inputs: Seq<Seq<char>>, c: Seq<char>)
    ensures
        inputs_fold(acc, inputs).contains(c) <==> (acc.contains(c) || is_given(inputs, c)),
    decreases inputs.len(),
{
    if inputs.len() > 0 {
        let v = trim_seq(inputs[0]);
        let next = push_input(acc, inputs[0]);
        let rest = inputs.drop_first();
        lemma_inputs_fold_members(next, rest, c);
        assert(next.contains(c) <==> (acc.contains(c) || (c == v && v.len() > 0))) by {
            if !(v.len() == 0 || acc.contains(v)) {
                assert(next == acc.push(v));
                if c == v {
                    assert(next[acc.len() as int] == v);
                }
                if acc.contains(c) {
                    let j = choose|j: int| 0 <= j < acc.len() && acc[j] == c;
                    assert(next[j] == c);
                }
                if next.contains(c) && !acc.contains(c) {
                    let j = choose|j: int| 0 <= j < next.len() && next[j] == c;
                    if j < acc.len() {
                        assert(acc[j] == c);
                    }
                }
            }
        }
        if is_given(rest, c) {
            let k = choose|k: int| 0 <= k < rest.len() && #[trigger] trim_seq(rest[k]) == c;
            assert(inputs[k + 1] == rest[k]);
            assert(trim_seq(inputs[k + 1]) == c);
        }
        if is_given(inputs, c) {
            let k = choose|k: int| 0 <= k < inputs.len() && #[trigger] trim_seq(inputs[k]) == c;
            if k > 0 {
                assert(rest[k - 1] == inputs[k]);
                assert(trim_seq(rest[k - 1]) == c);
            }
        }
    }
}

proof fn lemma_rewrites_fold_members(acc: Seq<Seq<char>>, vs: Seq<Seq<char>>, c: Seq<char>)
    ensures
        rewrites_fold(acc, vs).contains(c) <==> (acc.contains(c) || is_rewrite_of(vs, c)),
    decreases vs.len(),
{
    if vs.len() > 0 {
        let rw = rewrite_netease_seq(vs[0]);
        let next = push_rewrite(acc, vs[0]);
        let rest = vs.drop_first();
        lemma_rewrites_fold_members(next, rest, c);
        assert(next.contains(c) <==> (acc.contains(c) || (c == rw && rw != vs[0]))) by {
            if rw != vs[0] && !acc.contains(rw) {
                assert(next == acc.push(rw));
                if c == rw {
                    assert(next[acc.len() as int] == rw);
                }
                if acc.contains(c) {
                    let j = choose|j: int| 0 <= j < acc.len() && acc[j] == c;
                    assert(next[j] == c);
                }
                if next.contains(c) && !acc.contains(c) {
                    let j = choose|j: int| 0 <= j < next.len() && next[j] == c;
                    if j < acc.len() {
                        assert(acc[j] == c);
                    }
                }
            }
        }
        if is_rewrite_of(rest, c) {
            let k = choose|k: int| 0 <= k < rest.len() && #[trigger] rewrite_netease_seq(rest[k]) == c && c != rest[k];
            assert(vs[k + 1] == rest[k]);
            assert(rewrite_netease_seq(vs[k + 1]) == c);
        }
        if is_rewrite_of(vs, c) {
            let k = choose|k: int| 0 <= k < vs.len() && #[trigger] rewrite_netease_seq(vs[k]) == c && c != vs[k];
            if k > 0 {
                assert(rest[k - 1] == vs[k]);
                assert(rewrite_netease_seq(rest[k - 1]) == c);
            }
        }
    }
}

/// The candidates are exactly the given URLs, trimmed and without blanks,
/// and the NetEase rewrites that differ from them: every given URL and
/// each such rewrite appears, and nothing else does; a given URL is
/// already trimmed.
pub proof fn lemma_candidates_members(primary: Seq<char>, extra: Seq<Seq<char>>, c: Seq<char>)
    ensures
        is_given(seq![primary] + extra, c) ==> trim_seq(c) == c,
        candidate_urls_spec(primary, extra).contains(c) <==> (is_given(seq![primary] + extra, c) || exists|
            v: Seq<char>,
        | #![trigger rewrite_netease_seq(v)] is_given(seq![primary] + extra, v) && rewrite_netease_seq(v) == c && c != v),
{
    let inputs = seq![primary] + extra;
    let base = given_candidates(primary, extra);
    lemma_inputs_fold_members(Seq::empty(), inputs, c);
    lemma_rewrites_fold_members(base, base, c);
    assert(!Seq::<Seq<char>>::empty().contains(c));
    if is_given(inputs, c) {
        let k = choose|k: int| 0 <= k < inputs.len() && #[trigger] trim_seq(inputs[k]) == c;
        crate::text::lemma_trim_idempotent(inputs[k]);
    }
    if is_rewrite_of(base, c) {
        let k = choose|k: int| 0 <= k < base.len() && #[trigger] rewrite_netease_seq(base[k]) == c && c != base[k];
        lemma_inputs_fold_members(Seq::empty(), inputs, base[k]);
        assert(base.contains(base[k]));
        assert(is_given(inputs, base[k]));
    }
    if exists|v: Seq<char>| #![trigger rewrite_netease_seq(v)] is_given(inputs, v) && rewrite_netease_seq(v) == c && c != v {
        let v = choose|v: Seq<char>| #![trigger rewrite_netease_seq(v)] is_given(inputs, v) && rewrite_netease_seq(v) == c && c != v;
        lemma_inputs_fold_members(Seq::empty(), inputs, v);
        let j = choose|j: int| 0 <= j < base.len() && base[j] == v;
        assert(rewrite_netease_seq(base[j]) == c && c != base[j]);
    }
}

/// The NetEase rewrite of a trimmed URL is trimmed and not empty.
proof fn lemma_rewrite_keeps_trimmed(v: Seq<char>)
    requires
        trim_seq(v) == v,
        v.len() > 0,
    ensures
        rewrite_netease_seq(v).len() > 0,
        trim_seq(rewrite_netease_seq(v)) == rewrite_netease_seq(v),
{
    crate::text::lemma_trimmed_ends(v);
    let host = url_host(v);
    if rewrite_host_seq(host) is Some {
        reveal_strlit("m701.");
        reveal_strlit("m7.");
        let h = rewrite_host_seq(host)->0;
        let p = url_scheme_prefix(v);
        let t = url_tail(v);
        lemma_url_parts(v);
        lemma_rewritten_host(host);
        let n: int = if occurs_at(host, "m8."@, 0) && !occurs_at(host, "m801."@, 0) && !occurs_at(host, "m804."@, 0)
            && !occurs_at(host, "m704."@, 0) {
            3
        } else {
            5
        };
        assert(v =~= p + host + t);
        let r = p + h + t;
        assert(h[0] == 'm') by {
            reveal_strlit("m801.");
            reveal_strlit("m804.");
            reveal_strlit("m704.");
            reveal_strlit("m8.");
        }
        if p.len() > 0 {
            assert(r[0] == v[0]);
        } else {
            assert(r[0] == h[0]);
            assert(!crate::text::is_white_space('m'));
        }
        if t.len() > 0 {
            assert(r.last() == v.last());
        } else if host.len() > n {
            assert(r.last() == h.last());
            assert(h.last() == h.skip(n)[h.len() - 1 - n]);
            assert(host.last() == host.skip(n)[host.len() - 1 - n]);
            assert(v.last() == host.last());
        } else {
            assert(r.last() == h.last());
            assert(h.last() == '.') by {
                reveal_strlit("m801.");
                reveal_strlit("m804.");
                reveal_strlit("m704.");
                reveal_strlit("m8.");
            }
            assert(!crate::text::is_white_space('.'));
        }
        crate::text::lemma_trim_fixed(r);
    }
}

proof fn lemma_input_appears(primary: Seq<char>, extra: Seq<Seq<char>>, k: int)
    requires
        0 <= k < (seq![primary] + extra).len(),
        trim_seq((seq![primary] + extra)[k]).len() > 0,
    ensures
        candidate_urls_spec(primary, extra).contains(trim_seq((seq![primary] + extra)[k])),
        candidate_urls_spec(primary, extra).contains(rewrite_netease_seq(trim_seq((seq![primary] + extra)[k]))),
{
    let inputs = seq![primary] + extra;
    let v = trim_seq(inputs[k]);
    assert(is_given(inputs, v));
    lemma_candidates_members(primary, extra, v);
    let w = rewrite_netease_seq(v);
    lemma_candidates_members(primary, extra, w);
}

proof fn lemma_candidate_origin(primary: Seq<char>, extra: Seq<Seq<char>>, c: Seq<char>)
    requires
        candidate_urls_spec(primary, extra).contains(c),
    ensures
        trim_seq(c) == c,
        exists|k: int|
            0 <= k < (seq![primary] + extra).len() && trim_seq(#[trigger] (seq![primary] + extra)[k]).len() > 0 && (c
                == trim_seq((seq![primary] + extra)[k]) || c == rewrite_netease_seq(trim_seq((seq![primary] + extra)[k]))),
{
    let inputs = seq![primary] + extra;
    lemma_candidates_members(primary, extra, c);
    if is_given(inputs, c) {
        let k = choose|k: int| 0 <= k < inputs.len() && #[trigger] trim_seq(inputs[k]) == c;
        assert(trim_seq(inputs[k]).len() > 0);
    } else {
        let v = choose|v: Seq<char>| #![trigger rewrite_netease_seq(v)] is_given(inputs, v) && rewrite_netease_seq(v) == c && c != v;
        let k = choose|k: int| 0 <= k < inputs.len() && #[trigger] trim_seq(inputs[k]) == v;
        lemma_candidates_members(primary, extra, v);
        lemma_rewrite_keeps_trimmed(v);
        assert(trim_seq(inputs[k]).len() > 0);
    }
}

proof fn lemma_candidates_shape(primary: Seq<char>, extra: Seq<Seq<char>>)
    ensures
        distinct_nonempty(candidate_urls_spec(primary, extra)),
        trim_seq(primary).len() > 0 ==> candidate_urls_spec(primary, extra).len() > 0 && candidate_urls_spec(
            primary,
            extra,
        )[0] == trim_seq(primary),
{
    let inputs = seq![primary] + extra;
    let base = given_candidates(primary, extra);
    let r = candidate_urls_spec(primary, extra);
    assert(distinct_nonempty(Seq::<Seq<char>>::empty()));
    lemma_inputs_fold(Seq::empty(), inputs);
    lemma_rewrites_fold(base, base);
    if trim_seq(primary).len() > 0 {
        let first = push_input(Seq::empty(), inputs[0]);
        assert(inputs[0] == primary);
        lemma_push_input(Seq::empty(), inputs[0]);
        lemma_inputs_fold(first, inputs.drop_first());
        assert(inputs.drop_first() =~= extra);
        assert(base == inputs_fold(first, inputs.drop_first()));
        assert(first[0] == trim_seq(primary));
        assert(base.take(first.len() as int)[0] == first[0]);
        assert(r.take(base.len() as int)[0] == base[0]);
    }
}

/// The candidate URLs of a primary URL and extra URLs: none is blank or
/// untrimmed and none appears twice; the trimmed primary comes first when
/// it is not blank; each non-blank trimmed input and its NetEase rewrite
/// appear; every candidate is such an input or its rewrite; and blank
/// inputs alone give no candidate.
#[verifier::rlimit(60)]
pub proof fn lemma_candidate_urls_law(primary: Seq<char>, extra: Seq<Seq<char>>)
    ensures
        ({
            let inputs = seq![primary] + extra;
            let r = candidate_urls_spec(primary, extra);
            &&& distinct_nonempty(r)
            &&& forall|i: int| 0 <= i < r.len() ==> trim_seq(#[trigger] r[i]) == r[i]
            &&& trim_seq(primary).len() > 0 ==> r.len() > 0 && r[0] == trim_seq(primary)
            &&& forall|k: int|
                0 <= k < inputs.len() && trim_seq(#[trigger] inputs[k]).len() > 0 ==> r.contains(trim_seq(inputs[k]))
                    && r.contains(rewrite_netease_seq(trim_seq(inputs[k])))
            &&& forall|i: int|
                #![trigger r[i]]
                0 <= i < r.len() ==> exists|k: int|
                    0 <= k < inputs.len() && trim_seq(#[trigger] inputs[k]).len() > 0 && (r[i] == trim_seq(inputs[k])
                        || r[i] == rewrite_netease_seq(trim_seq(inputs[k])))
            &&& (forall|k: int| 0 <= k < inputs.len() ==> trim_seq(#[trigger] inputs[k]).len() == 0) ==> r.len() == 0
        }),
{
    let inputs = seq![primary] + extra;
    let r = candidate_urls_spec(primary, extra);
    lemma_candidates_shape(primary, extra);
    assert forall|k: int| 0 <= k < inputs.len() && trim_seq(#[trigger] inputs[k]).len() > 0 implies r.contains(
        trim_seq(inputs[k]),
    ) && r.contains(rewrite_netease_seq(trim_seq(inputs[k]))) by {
        lemma_input_appears(primary, extra, k);
    }
    assert forall|i: int| 0 <= i < r.len() implies trim_seq(#[trigger] r[i]) == r[i] by {
        assert(r.contains(r[i]));
        lemma_candidate_origin(primary, extra, r[i]);
    }
    assert forall|i: int|
        #![trigger r[i]]
        0 <= i < r.len() implies exists|k: int|
        0 <= k < inputs.len() && trim_seq(#[trigger] inputs[k]).len() > 0 && (r[i] == trim_seq(inputs[k]) || r[i]
            == rewrite_netease_seq(trim_seq(inputs[k]))) by {
        assert(r.contains(r[i]));
        lemma_candidate_origin(primary, extra, r[i]);
    }
    if r.len() > 0 {
        assert(r.contains(r[0]));
        lemma_candidate_origin(primary, extra, r[0]);
    }
}

proof fn lemma_rewrite_take(acc: Seq<Seq<char>>, v: Seq<char>)
    ensures
        push_rewrite(acc, v).len() >= acc.len(),
        push_rewrite(acc, v).take(acc.len() as int) == acc,
{
    let rw = rewrite_netease_seq(v);
    if rw != v && !acc.contains(rw) {
        assert(acc.push(rw).take(acc.len() as int) =~= acc);
    } else {
        assert(acc.take(acc.len() as int) =~= acc);
    }
}

/// The progress of one transfer: bytes written so far, the expected total
/// (`0` when unknown) and whether cancellation was requested.
#[derive(Debug, Clone, Copy, PartialEq, Eq)]
pub struct ProgressSnapshot {
    pub downloaded: u64,
    pub total: u64,
    pub cancelled: bool,
}

/// Progress counters of a running transfer.
#[derive(Debug)]
pub struct DownloadProgress {
    downloaded: u64,
    total: u64,
    cancel: bool,
}

impl View for DownloadProgress {
    type V = ProgressSnapshot;

    closed spec fn view(&self) -> ProgressSnapshot {
        ProgressSnapshot { downloaded: self.downloaded, total: self.total, cancelled: self.cancel }
    }
}

impl DownloadProgress {
    pub fn new() -> (p: Self)
        ensures
            p@ == (ProgressSnapshot { downloaded: 0, total: 0, cancelled: false }),
    {
        DownloadProgress { downloaded: 0, total: 0, cancel: false }
    }

    /// Counts `bytes` more written bytes (wrapping like an atomic add).
    pub fn add(&mut self, bytes: u64)
        ensures
            final(self)@ == (ProgressSnapshot {
                downloaded: if bytes > 0 {
                    vstd::wrapping::u64_specs::wrapping_add(old(self)@.downloaded, bytes)
                } else {
                    old(self)@.downloaded
                },
                ..old(self)@
            }),
            old(self)@.downloaded + bytes <= u64::MAX ==> final(self)@.downloaded
                == old(self)@.downloaded + bytes,
    {
        if bytes > 0 {
            self.downloaded = self.downloaded.wrapping_add(bytes);
        }
    }

    /// Takes back `bytes` counted bytes, stopping at zero (a part is retried).
    pub fn sub(&mut self, bytes: u64)
        ensures
            final(self)@ == (ProgressSnapshot {
                downloaded: if old(self)@.downloaded >= bytes {
                    (old(self)@.downloaded - bytes) as u64
                } else {
                    0
                },
                ..old(self)@
            }),
    {
        if bytes == 0 {
            return;
        }
        self.downloaded = self.downloaded.saturating_sub(bytes);
    }

    pub fn set_total(&mut self, total: u64)
        ensures
            final(self)@ == (ProgressSnapshot { total, ..old(self)@ }),
    {
        self.total = total;
    }

    /// Clears the counters before the next candidate URL is tried.
    pub fn reset(&mut self)
        ensures
            final(self)@ == (ProgressSnapshot { downloaded: 0, total: 0, ..old(self)@ }),
    {
        self.downloaded = 0;
        self.total = 0;
    }

    pub fn snapshot(&self) -> (s: ProgressSnapshot)
        ensures
            s == self@,
    {
        ProgressSnapshot { downloaded: self.downloaded, total: self.total, cancelled: self.cancel }
    }

    /// Requests cancellation; the transfer stops at its next check.
    pub fn cancel(&mut self)
        ensures
            final(self)@ == (ProgressSnapshot { cancelled: true, ..old(self)@ }),
    {
        self.cancel = true;
    }

    pub fn is_cancelled(&self) -> (r: bool)
        ensures
            r == self@.cancelled,
    {
        self.cancel
    }

    pub fn check_cancelled(&self) -> (r: Result<(), DownloadError>)
        ensures
            self@.cancelled ==> r == Err::<(), DownloadError>(DownloadError::Cancelled),
            !self@.cancelled ==> r is Ok,
    {
        if self.cancel {
            Err(DownloadError::Cancelled)
        } else {
            Ok(())
        }
    }
}

/// The download settings of the user configuration that transfers read.
#[derive(Debug, Clone, PartialEq, Eq)]
pub struct DownloadConfig {
    pub concurrency: usize,
    pub multipart: bool,
    pub multipart_min_size_bytes: u64,
    pub max_retries: u32,
    pub verify_size: bool,
}

/// How transfers are carried out.
#[derive(Debug, Clone, PartialEq, Eq)]
pub struct DownloadOptions {
    /// Parallel connections per file.
    pub concurrency: usize,
    /// Whether large files are split into ranges.
    pub multipart: bool,
    /// Files smaller than this are never split.
    pub multipart_min_size: u64,
    /// Retries after network failures.
    pub max_retries: u32,
    /// Whether the written size is checked.
    pub verify_size: bool,
}

impl Default for DownloadOptions {
    fn default() -> (o: Self)
        ensures
            o.concurrency == 4,
            o.multipart,
            o.multipart_min_size == 5 * 1024 * 1024,
            o.max_retries == 3,
            o.verify_size,
    {
        DownloadOptions {
            concurrency: 4,
            multipart: true,
            multipart_min_size: 5 * 1024 * 1024,
            max_retries: 3,
            verify_size: true,
        }
    }
}

impl DownloadOptions {
    /// Options from the user configuration, with out-of-range values pulled
    /// back: 1 to 16 connections, at most 10 retries.
    pub fn from_config(config: &DownloadConfig) -> (o: Self)
        ensures
            o.concurrency == clamp_workers(config.concurrency),
            o.multipart == config.multipart,
            o.multipart_min_size == config.multipart_min_size_bytes,
            o.max_retries == if config.max_retries <= 10 {
                config.max_retries
            } else {
                10
            },
            o.verify_size == config.verify_size,
    {
        DownloadOptions {
            concurrency: clamp_concurrency(config.concurrency) as usize,
            multipart: config.multipart,
            multipart_min_size: config.multipart_min_size_bytes,
            max_retries: if config.max_retries <= 10 {
                config.max_retries
            } else {
                10
            },
            verify_size: config.verify_size,
        }
    }
}

/// One file to download.
#[derive(Debug, Clone)]
pub struct DownloadRequest {
    pub url: String,
    /// Extra request headers the source requires (Referer, User-Agent ...).
    pub headers: Vec<(String, String)>,
    /// The final file name; the transfer writes a staging file next to it.
    pub dest: String,
    /// The size the source declares, used for the integrity check.
    pub expected_size: Option<u64>,
    /// The declared size may be a few bytes short: only shorter files fail.
    pub size_is_advisory: bool,
    /// The MD5 the source provides; empty means unchecked.
    pub md5: Option<String>,
    /// Extra CDN URLs of the same file, tried after the primary one.
    pub candidate_urls: Vec<String>,
    /// A cap on the size of each range request; `0` when the source has none.
    pub max_chunk_size: u64,
}

/// What a transfer learnt about the source before downloading.
#[derive(Debug, Clone, Copy, PartialEq, Eq)]
pub struct SourceProbe {
    /// The file size, when known.
    pub total: Option<u64>,
    /// Whether byte ranges are served.
    pub ranges: bool,
}

impl Default for SourceProbe {
    fn default() -> (p: Self)
        ensures
            p.total is None,
            !p.ranges,
    {
        SourceProbe { total: None, ranges: false }
    }
}

/// The probe a `HEAD` answer settles: only a successful answer with a length.
pub fn probe_from_head(success: bool, total: Option<u64>, ranges: bool) -> (r: Option<SourceProbe>)
    ensures
        r == if success && total is Some {
            Some(SourceProbe { total, ranges })
        } else {
            None
        },
{
    if success && total.is_some() {
        Some(SourceProbe { total, ranges })
    } else {
        None
    }
}

/// The probe a `GET` with `Range: bytes=0-0` settles: `206` proves range
/// support and carries the total in `Content-Range`; another success only
/// gives the body length; a failure leaves everything unknown.
pub fn probe_from_range_get(
    status: Option<u16>,
    content_range_total: Option<u64>,
    content_length: Option<u64>,
) -> (p: SourceProbe)
    ensures
        status == Some(206u16) ==> p == (SourceProbe { total: content_range_total, ranges: true }),
        (status matches Some(s) && s != 206 && 200 <= s <= 299) ==> p == (SourceProbe {
            total: content_length,
            ranges: false,
        }),
        (status matches Some(s) && !(200 <= s <= 299)) ==> p == (SourceProbe {
            total: None,
            ranges: false,
        }),
        status is None ==> p == (SourceProbe { total: None, ranges: false }),
{
    match status {
        Some(206) => SourceProbe { total: content_range_total, ranges: true },
        Some(s) if 200 <= s && s <= 299 => SourceProbe { total: content_length, ranges: false },
        _ => SourceProbe { total: None, ranges: false },
    }
}

/// How a candidate URL is fetched.
#[derive(Debug, Clone, Copy, PartialEq, Eq)]
pub enum TransferRoute {
    /// Strictly capped ranges over a declared size; no probing, no fallback.
    Chunked { total: u64 },
    /// A capped source without a declared size cannot be fetched.
    MissingDeclaredSize,
    /// Probe the source, then split or stream.
    Probe,
}

/// Sources that cap range requests must declare a size; all others are
/// probed first.
pub fn transfer_route(max_chunk_size: u64, expected_size: Option<u64>) -> (r: TransferRoute)
    ensures
        max_chunk_size == 0 ==> r == TransferRoute::Probe,
        max_chunk_size > 0 ==> r == match expected_size {
            Some(t) if t > 0 => TransferRoute::Chunked { total: t },
            _ => TransferRoute::MissingDeclaredSize,
        },
{
    if max_chunk_size > 0 {
        match expected_size {
            Some(t) if t > 0 => TransferRoute::Chunked { total: t },
            _ => TransferRoute::MissingDeclaredSize,
        }
    } else {
        TransferRoute::Probe
    }
}

/// The error of a capped source without a declared size.
pub fn missing_declared_size_error() -> (e: DownloadError)
    ensures
        e matches DownloadError::Other(m) && m@ == "严格分片下载需要音源声明的文件大小"@,
{
    DownloadError::Other(crate::text::string_of("严格分片下载需要音源声明的文件大小"))
}

/// The total a probed transfer works with: the probed size, else the
/// declared one.
pub fn probed_total(probe: &SourceProbe, expected_size: Option<u64>) -> (t: Option<u64>)
    ensures
        t == if probe.total is Some {
            probe.total
        } else {
            expected_size
        },
{
    match probe.total {
        Some(t) => Some(t),
        None => expected_size,
    }
}

/// Whether a probed transfer is split into ranges: splitting is on, the
/// source serves ranges and the file is at least the minimum size.
pub fn multipart_ready(options: &DownloadOptions, probe: &SourceProbe, total: Option<u64>) -> (r: bool)
    ensures
        r == (options.multipart && probe.ranges && (total matches Some(t)
            && t >= options.multipart_min_size)),
{
    options.multipart && probe.ranges && match total {
        Some(t) => t >= options.multipart_min_size,
        None => false,
    }
}

/// The integrity check after a candidate finished: the size check runs when
/// enabled and a size was declared.
pub fn check_written(
    options: &DownloadOptions,
    expected_size: Option<u64>,
    advisory: bool,
    written: u64,
) -> (r: Result<(), DownloadError>)
    ensures
        (options.verify_size && expected_size is Some) ==> (r is Ok <==> size_ok(
            expected_size->0,
            written,
            advisory,
        )),
        r matches Err(e) ==> e matches DownloadError::Integrity(m) && m@ == (if advisory {
            short_file_message(expected_size->0, written)
        } else {
            size_mismatch_message(expected_size->0, written)
        }),
        !(options.verify_size && expected_size is Some) ==> r is Ok,
{
    if options.verify_size {
        if let Some(expected) = expected_size {
            return verify_size(expected, written, advisory);
        }
    }
    Ok(())
}

/// `200..=299` is success.
pub open spec fn is_success(status: u16) -> bool {
    200 <= status <= 299
}

/// A response outside `2xx` fails with its status.
pub fn check_status(status: u16) -> (r: Result<(), DownloadError>)
    ensures
        is_success(status) ==> r is Ok,
        !is_success(status) ==> r == Err::<(), DownloadError>(DownloadError::Http { status }),
{
    if 200 <= status && status <= 299 {
        Ok(())
    } else {
        Err(DownloadError::Http { status })
    }
}

/// The answer to a range request: a failure status is an HTTP error, and a
/// plain `200` for a range that does not start at zero means the source
/// ignored the range.
pub fn check_part_status(status: u16, start: u64) -> (r: Result<(), DownloadError>)
    ensures
        !is_success(status) ==> r == Err::<(), DownloadError>(DownloadError::Http { status }),
        (is_success(status) && status == 200 && start > 0) ==> r == Err::<(), DownloadError>(
            DownloadError::RangesUnsupported,
        ),
        (is_success(status) && !(status == 200 && start > 0)) ==> r is Ok,
{
    if !(200 <= status && status <= 299) {
        return Err(DownloadError::Http { status });
    }
    if status == 200 && start > 0 {
        return Err(DownloadError::RangesUnsupported);
    }
    Ok(())
}

/// The number of bytes of the inclusive range `start..=end`.
pub fn part_len(start: u64, end: u64) -> (n: u64)
    requires
        start <= end,
        end - start + 1 <= u64::MAX,
    ensures
        n == end - start + 1,
{
    end - start + 1
}

pub open spec fn part_length_message(start: u64, written: u64, expected: u64) -> Seq<char> {
    "分片 "@ + decimal_seq(start as nat) + " 字节数不符: 实际 "@ + decimal_seq(written as nat)
        + "，预期 "@ + decimal_seq(expected as nat)
}

/// A finished range must hold exactly the bytes it asked for.
pub fn check_part_length(start: u64, written: u64, expected: u64) -> (r: Result<(), DownloadError>)
    ensures
        written == expected ==> r is Ok,
        written != expected ==> (r matches Err(e) && e matches DownloadError::Integrity(m) && m@
            == part_length_message(start, written, expected)),
{
    if written == expected {
        return Ok(());
    }
    let mut m = String::new();
    push_str(&mut m, "分片 ");
    push_decimal(&mut m, start);
    push_str(&mut m, " 字节数不符: 实际 ");
    push_decimal(&mut m, written);
    push_str(&mut m, "，预期 ");
    push_decimal(&mut m, expected);
    assert(m@ =~= part_length_message(start, written, expected));
    Err(DownloadError::Integrity(m))
}

pub open spec fn merged_size_message(written: u64, total: u64) -> Seq<char> {
    "分片合并后大小不一致: 实际 "@ + decimal_seq(written as nat) + " 字节，预期 "@ + decimal_seq(
        total as nat,
    ) + " 字节"@
}

/// After all ranges finished, the bytes written must add up to the file size
/// (when size checks are on).
pub fn check_merged_size(options: &DownloadOptions, written: u64, total: u64) -> (r: Result<
    (),
    DownloadError,
>)
    ensures
        (!options.verify_size || written == total) ==> r is Ok,
        (options.verify_size && written != total) ==> (r matches Err(e) && e matches DownloadError::Integrity(m)
            && m@ == merged_size_message(written, total)),
{
    if !options.verify_size || written == total {
        return Ok(());
    }
    let mut m = String::new();
    push_str(&mut m, "分片合并后大小不一致: 实际 ");
    push_decimal(&mut m, written);
    push_str(&mut m, " 字节，预期 ");
    push_decimal(&mut m, total);
    push_str(&mut m, " 字节");
    assert(m@ =~= merged_size_message(written, total));
    Err(DownloadError::Integrity(m))
}

pub open spec fn declared_too_large_message(length: u64, limit: u64) -> Seq<char> {
    "响应体积 "@ + decimal_seq(length as nat) + " 超过上限 "@ + decimal_seq(limit as nat)
}

pub open spec fn body_too_large_message(limit: u64) -> Seq<char> {
    "响应体积超过上限 "@ + decimal_seq(limit as nat)
}

/// A small in-memory fetch (cover art) refuses a declared length above the
/// limit before reading the body.
pub fn check_declared_length(length: Option<u64>, limit: u64) -> (r: Result<(), DownloadError>)
    ensures
        (length matches Some(l) && l > limit) ==> (r matches Err(e) && e matches DownloadError::Other(m)
            && m@ == declared_too_large_message(length->0, limit)),
        !(length matches Some(l) && l > limit) ==> r is Ok,
{
    match length {
        Some(l) if l > limit => {
            let mut m = String::new();
            push_str(&mut m, "响应体积 ");
            push_decimal(&mut m, l);
            push_str(&mut m, " 超过上限 ");
            push_decimal(&mut m, limit);
            assert(m@ =~= declared_too_large_message(l, limit));
            Err(DownloadError::Other(m))
        },
        _ => Ok(()),
    }
}

/// The body read so far must stay within the limit.
pub fn check_body_length(received: u64, limit: u64) -> (r: Result<(), DownloadError>)
    ensures
        received <= limit ==> r is Ok,
        received > limit ==> (r matches Err(e) && e matches DownloadError::Other(m) && m@
            == body_too_large_message(limit)),
{
    if received <= limit {
        return Ok(());
    }
    let mut m = String::new();
    push_str(&mut m, "响应体积超过上限 ");
    push_decimal(&mut m, limit);
    assert(m@ =~= body_too_large_message(limit));
    Err(DownloadError::Other(m))
}

/// A request without a URL is refused before anything is written.
pub fn check_request_url(url: &str) -> (r: Result<(), DownloadError>)
    ensures
        trim_seq(url@).len() > 0 ==> r is Ok,
        trim_seq(url@).len() == 0 ==> (r matches Err(e) && e matches DownloadError::Other(m) && m@
            == "缺少下载地址"@),
{
    let t = crate::text::trim(url);
    if t.as_str().unicode_len() == 0 {
        Err(DownloadError::Other(crate::text::string_of("缺少下载地址")))
    } else {
        Ok(())
    }
}

/// The error reported when no candidate URL could be tried.
pub fn no_candidate_error() -> (e: DownloadError)
    ensures
        e matches DownloadError::Other(m) && m@ == "没有可用的下载地址"@,
{
    DownloadError::Other(crate::text::string_of("没有可用的下载地址"))
}

/// Attempts per transfer: the retry budget, but at least one.
pub fn attempts(max_retries: u32) -> (n: u32)
    ensures
        n == if max_retries >= 1 {
            max_retries
        } else {
            1
        },
{
    if max_retries >= 1 {
        max_retries
    } else {
        1
    }
}

/// Exponential backoff before retry `attempt`: 400 ms doubled per attempt
/// (at most five doublings), capped at 8 s.
pub open spec fn backoff_ms(attempt: u32) -> int {
    let doubled = 400 * vstd::arithmetic::power2::pow2(if attempt <= 5 {
        attempt as nat
    } else {
        5
    });
    if doubled <= 8000 {
        doubled as int
    } else {
        8000
    }
}

/// Backoff plus up to 249 ms of jitter taken from `seed`.
pub open spec fn retry_delay_spec(attempt: u32, seed: u128) -> int {
    backoff_ms(attempt) + (seed % 250) as int
}

/// The wait before retry `attempt`, in milliseconds.
pub fn retry_delay_ms(attempt: u32, seed: u128) -> (ms: u64)
    ensures
        ms == retry_delay_spec(attempt, seed),
        ms < 8250,
{
    let shift: u32 = if attempt <= 5 {
        attempt
    } else {
        5
    };
    let factor: u64 = match shift {
        0 => 1,
        1 => 2,
        2 => 4,
        3 => 8,
        4 => 16,
        _ => 32,
    };
    proof {
        vstd::arithmetic::power2::lemma2_to64();
    }
    let doubled = 400 * factor;
    let backoff = if doubled <= 8000 {
        doubled
    } else {
        8000
    };
    let jitter = (seed % 250) as u64;
    backoff + jitter
}

/// The jitter seed: the sub-second clock reading mixed with a per-process
/// counter, so parallel ranges do not retry in lock step.
pub fn retry_jitter_seed(subsec_nanos: u32, sequence: u64) -> (seed: u128)
    ensures
        seed == subsec_nanos as int * 31 + sequence as int,
{
    (subsec_nanos as u128) * 31 + (sequence as u128)
}

/// The request and connect timeouts of the HTTP client: `1..=600` and
/// `1..=30` seconds.
pub fn engine_timeouts(timeout_secs: u64) -> (r: (u64, u64))
    ensures
        r.0 == if timeout_secs < 1 {
            1
        } else if timeout_secs > 600 {
            600
        } else {
            timeout_secs
        },
        r.1 == if timeout_secs < 1 {
            1
        } else if timeout_secs > 30 {
            30
        } else {
            timeout_secs
        },
{
    let request = if timeout_secs < 1 {
        1
    } else if timeout_secs > 600 {
        600
    } else {
        timeout_secs
    };
    let connect = if timeout_secs < 1 {
        1
    } else if timeout_secs > 30 {
        30
    } else {
        timeout_secs
    };
    (request, connect)
}

/// The proxy to configure: the trimmed setting, unless it is blank.
pub fn proxy_setting(proxy_url: &str) -> (r: Option<String>)
    ensures
        trim_seq(proxy_url@).len() == 0 ==> r is None,
        trim_seq(proxy_url@).len() > 0 ==> (r matches Some(p) && p@ == trim_seq(proxy_url@)),
{
    let t = crate::text::trim(proxy_url);
    if t.as_str().unicode_len() == 0 {
        None
    } else {
        Some(t)
    }
}

/// The name of the staging file written next to the destination:
/// `.<name>.part`, or `.download.part` when the destination has no name.
pub open spec fn staging_name_spec(file_name: Option<Seq<char>>) -> Seq<char> {
    match file_name {
        Some(n) => "."@ + n + ".part"@,
        None => ".download.part"@,
    }
}

pub fn staging_file_name(file_name: Option<&str>) -> (r: String)
    ensures
        r@ == staging_name_spec(match file_name {
            Some(n) => Some(n@),
            None => None,
        }),
{
    let mut r = String::new();
    match file_name {
        Some(n) => {
            push_str(&mut r, ".");
            push_str(&mut r, n);
            push_str(&mut r, ".part");
        },
        None => push_str(&mut r, ".download.part"),
    }
    assert(r@ =~= staging_name_spec(match file_name {
        Some(n) => Some(n@),
        None => None,
    }));
    r
}

/// The MD5 digest of a byte sequence.
pub uninterp spec fn md5_digest(data: Seq<u8>) -> Seq<u8>;

/// Computes the MD5 digest with `md5::Md5::digest` (the md-5 crate). The
/// contract names the result and states its 16-byte length; that it is the
/// MD5 of `data` is not stated beyond the name.
#[verifier::external_body]
fn md5_bytes(data: &[u8]) -> (out: Vec<u8>)
    ensures
        out@ == md5_digest(data@),
        out@.len() == 16,
{
    md5::Md5::digest(data).to_vec()
}

pub open spec fn hex_digit(n: nat) -> char {
    if n < 10 {
        ((n + '0' as u32) as u32) as char
    } else {
        ((n - 10 + 'a' as u32) as u32) as char
    }
}

/// Lowercase hexadecimal, two digits per byte (`{:x}` of a digest).
pub open spec fn hex_seq(bytes: Seq<u8>) -> Seq<char>
    decreases bytes.len(),
{
    if bytes.len() == 0 {
        Seq::empty()
    } else {
        hex_seq(bytes.drop_last()) + seq![
            hex_digit((bytes.last() / 16) as nat),
            hex_digit((bytes.last() % 16) as nat),
        ]
    }
}

fn hex_char(n: u8) -> (c: char)
    requires
        n < 16,
    ensures
        c == hex_digit(n as nat),
{
    if n < 10 {
        ((n + 48) as u8) as char
    } else {
        ((n - 10 + 97) as u8) as char
    }
}

pub fn hex_string(bytes: &Vec<u8>) -> (s: Vec<char>)
    ensures
        s@ == hex_seq(bytes@),
{
    let mut s: Vec<char> = Vec::new();
    let mut i: usize = 0;
    while i < bytes.len()
        invariant
            i <= bytes.len(),
            s@ == hex_seq(bytes@.take(i as int)),
        decreases bytes.len() - i,
    {
        let b = bytes[i];
        s.push(hex_char(b / 16));
        s.push(hex_char(b % 16));
        assert(bytes@.take(i + 1).drop_last() =~= bytes@.take(i as int));
        assert(s@ =~= hex_seq(bytes@.take(i + 1)));
        i = i + 1;
    }
    assert(bytes@.take(i as int) =~= bytes@);
    s
}

/// Whether a character is a lowercase hexadecimal digit.
pub open spec fn is_lower_hex(c: char) -> bool {
    ('0' <= c && c <= '9') || ('a' <= c && c <= 'f')
}

/// The value of a lowercase hexadecimal digit.
pub open spec fn hex_value(c: char) -> int {
    if '0' <= c && c <= '9' {
        c as int - '0' as int
    } else {
        c as int - 'a' as int + 10
    }
}

/// Each hex digit is lowercase and reads back as the value it was made
/// from.
pub proof fn lemma_hex_digit(n: nat)
    requires
        n < 16,
    ensures
        is_lower_hex(hex_digit(n)),
        hex_value(hex_digit(n)) == n,
        ascii_lower(hex_digit(n)) == hex_digit(n),
{
}

/// The hex text of bytes is lowercase, two digits per byte, and reads back
/// as the bytes (high digit first); lowercasing it changes nothing.
pub proof fn lemma_hex_text(bytes: Seq<u8>)
    ensures
        hex_seq(bytes).len() == 2 * bytes.len(),
        forall|k: int| 0 <= k < hex_seq(bytes).len() ==> is_lower_hex(#[trigger] hex_seq(bytes)[k]),
        forall|i: int|
            0 <= i < bytes.len() ==> hex_value(hex_seq(bytes)[2 * i]) * 16 + hex_value(hex_seq(bytes)[2 * i + 1])
                == #[trigger] bytes[i],
        ascii_lower_seq(hex_seq(bytes)) == hex_seq(bytes),
    decreases bytes.len(),
{
    if bytes.len() > 0 {
        let init = bytes.drop_last();
        let b = bytes.last();
        lemma_hex_text(init);
        lemma_hex_digit((b / 16) as nat);
        lemma_hex_digit((b % 16) as nat);
        let h = hex_seq(bytes);
        let hi = hex_seq(init);
        assert(h == hi + seq![hex_digit((b / 16) as nat), hex_digit((b % 16) as nat)]);
        assert forall|k: int| 0 <= k < h.len() implies is_lower_hex(#[trigger] h[k]) by {
            if k < hi.len() {
                assert(h[k] == hi[k]);
            }
        }
        assert forall|i: int| 0 <= i < bytes.len() implies hex_value(h[2 * i]) * 16 + hex_value(h[2 * i + 1])
            == #[trigger] bytes[i] by {
            if i < init.len() {
                assert(h[2 * i] == hi[2 * i]);
                assert(h[2 * i + 1] == hi[2 * i + 1]);
                assert(bytes[i] == init[i]);
            } else {
                assert(h[2 * i] == hex_digit((b / 16) as nat));
                assert(h[2 * i + 1] == hex_digit((b % 16) as nat));
            }
        }
        assert(ascii_lower_seq(h) =~= h) by {
            assert forall|k: int| 0 <= k < h.len() implies ascii_lower(h[k]) == h[k] by {
                if k < hi.len() {
                    assert(h[k] == hi[k]);
                    assert(ascii_lower_seq(hi)[k] == ascii_lower(hi[k]));
                }
            }
        }
    } else {
        assert(ascii_lower_seq(hex_seq(bytes)) =~= hex_seq(bytes));
    }
}

/// An expected digest may be written in either ASCII case: one that
/// matches the data's hex digest up to case is what `check_md5` accepts
/// (its lowercasing equals the digest text), and one that differs from it
/// beyond case is not.
pub proof fn lemma_md5_any_case(data: Seq<u8>, expected: Seq<char>)
    ensures
        (hex_seq(md5_digest(data)) == ascii_lower_seq(expected)) <==> (ascii_lower_seq(expected)
            == ascii_lower_seq(hex_seq(md5_digest(data)))),
{
    lemma_hex_text(md5_digest(data));
}

pub open spec fn md5_mismatch_message(actual: Seq<char>, expected: Seq<char>) -> Seq<char> {
    "MD5 不匹配: 实际 "@ + actual + ", 预期 "@ + expected
}

/// Checks file contents against the MD5 a source provided: nothing to check
/// when the expectation is empty, otherwise the lowercase hex digest must
/// equal the ASCII-lowercased expectation.
pub fn check_md5(data: &[u8], expected: &str) -> (r: Result<(), DownloadError>)
    ensures
        expected@.len() == 0 ==> r is Ok,
        expected@.len() > 0 ==> (r is Ok <==> hex_seq(md5_digest(data@)) == ascii_lower_seq(
            expected@,
        )),
        r matches Err(e) ==> e matches DownloadError::Integrity(m) && m@ == md5_mismatch_message(
            hex_seq(md5_digest(data@)),
            expected@,
        ),
{
    let exp = chars_of(expected);
    if exp.len() == 0 {
        return Ok(());
    }
    let digest = md5_bytes(data);
    let actual = hex_string(&digest);
    let lower = ascii_lowercase(&exp);
    if chars_eq(&actual, &lower) {
        Ok(())
    } else {
        let mut m = String::new();
        push_str(&mut m, "MD5 不匹配: 实际 ");
        crate::text::push_chars(&mut m, &actual);
        push_str(&mut m, ", 预期 ");
        push_str(&mut m, expected);
        assert(m@ =~= md5_mismatch_message(actual@, expected@));
        Err(DownloadError::Integrity(m))
    }
}

/// Components written back as a path: a leading root is `/`, the rest are
/// joined with `/`.
pub open spec fn render_components(c: Seq<Seq<char>>) -> Seq<char> {
    if c.len() > 0 && c[0] == seq!['/'] {
        "/"@ + join_spec(c.drop_first(), "/"@)
    } else {
        join_spec(c, "/"@)
    }
}

/// Whether a component names a file (not the root, `.` or `..`).
pub open spec fn names_file(x: Seq<char>) -> bool {
    x != seq!['/'] && x != seq!['.'] && x != seq!['.', '.']
}

/// The staging file of a download: `.<name>.part` next to the destination
/// (`.download.part` when the destination names no file).
pub open spec fn staging_path_spec(dest: Seq<char>) -> Seq<char> {
    let c = path_components_spec(dest);
    let has_name = c.len() > 0 && names_file(c.last());
    let parent = if has_name { c.drop_last() } else { c };
    let name = staging_name_spec(if has_name { Some(c.last()) } else { None });
    if parent.len() == 0 {
        name
    } else if parent == seq![seq!['/']] {
        "/"@ + name
    } else {
        render_components(parent) + "/"@ + name
    }
}

/// The staging file a download is written to before it is moved into place.
pub fn staging_path(dest: &str) -> (r: String)
    ensures
        r@ == staging_path_spec(dest@),
{
    let chars = chars_of(dest);
    let comps = path_components(&chars);
    let ghost cv = nested_view(comps@);
    assert(cv.len() == comps@.len());
    let n = comps.len();
    let root = vec!['/'];
    let dot = vec!['.'];
    let dots = vec!['.', '.'];
    assert(root@ =~= seq!['/'] && dot@ =~= seq!['.'] && dots@ =~= seq!['.', '.']);
    let has_name = n > 0 && !chars_eq(&comps[n - 1], &root) && !chars_eq(&comps[n - 1], &dot)
        && !chars_eq(&comps[n - 1], &dots);
    let name_s = if has_name {
        let s = string_from_chars(&comps[n - 1]);
        assert(cv.last() == comps@[n - 1]@);
        staging_file_name(Some(s.as_str()))
    } else {
        staging_file_name(None)
    };
    let parent_len = if has_name { n - 1 } else { n };
    let ghost parent = if has_name { cv.drop_last() } else { cv };
    assert(parent =~= cv.take(parent_len as int));
    if parent_len == 0 {
        return name_s;
    }
    if parent_len == 1 && chars_eq(&comps[0], &root) {
        assert(parent =~= seq![seq!['/']]);
        let mut r = string_of("/");
        push_str(&mut r, name_s.as_str());
        return r;
    }
    assert(parent != seq![seq!['/']]) by {
        if parent_len == 1 {
            assert(parent[0] == comps@[0]@);
        }
    }
    let starts_root = chars_eq(&comps[0], &root);
    assert(cv[0] == comps@[0]@);
    let mut parts: Vec<Vec<char>> = Vec::new();
    let first: usize = if starts_root { 1 } else { 0 };
    let mut i: usize = first;
    while i < parent_len
        invariant
            first <= i <= parent_len <= n == comps@.len(),
            cv == nested_view(comps@),
            nested_view(parts@) == cv.subrange(first as int, i as int),
        decreases parent_len - i,
    {
        let copy = slice_chars(&comps[i], 0, comps[i].len());
        assert(copy@ =~= comps@[i as int]@);
        let ghost before = nested_view(parts@);
        parts.push(copy);
        assert(nested_view(parts@) =~= before.push(cv[i as int]));
        assert(cv.subrange(first as int, i + 1) =~= cv.subrange(first as int, i as int).push(cv[i as int]));
        i = i + 1;
    }
    let mut r = if starts_root {
        assert(parent.drop_first() =~= cv.subrange(1, parent_len as int));
        let mut r0 = string_of("/");
        let joined = join_chars(&parts, "/");
        push_str(&mut r0, joined.as_str());
        r0
    } else {
        assert(parent =~= cv.subrange(0, parent_len as int));
        join_chars(&parts, "/")
    };
    push_str(&mut r, "/");
    push_str(&mut r, name_s.as_str());
    r
}

} // verus!
