//! Cover art: which address to fetch, which referer to send, where the
//! file is cached, and the loading states of the current cover.

use vstd::prelude::*;
use vstd::string::StringSliceAdditionalSpecFns;
use std::collections::hash_map::DefaultHasher;
use std::hash::{Hash, Hasher};
use crate::text::{chars_of, contains, contains_seq, push_str, slice_chars, starts_with, string_from_chars, string_of, trim_seq};

verus! {

broadcast use vstd::string::group_string_axioms;

/// Where the current cover stands.
#[derive(Debug, Clone, PartialEq, Eq)]
pub enum CoverState {
    Empty,
    Loading,
    Ready,
    Unavailable(String),
}

/// A cover address as fetched: trimmed, with `https:` added to a
/// scheme-relative `//host/...` address.
pub open spec fn normalize_url_spec(url: Seq<char>) -> Seq<char> {
    let t = trim_seq(url);
    if t.len() >= 2 && t[0] == '/' && t[1] == '/' {
        "https:"@ + t
    } else {
        t
    }
}

/// A cover address as fetched.
pub fn normalize_url(url: &str) -> (r: String)
    ensures
        r@ == normalize_url_spec(url@),
{
    let t = crate::text::trim(url);
    let c = chars_of(t.as_str());
    if c.len() >= 2 && c[0] == '/' && c[1] == '/' {
        let mut r = string_of("https:");
        push_str(&mut r, t.as_str());
        r
    } else {
        t
    }
}

/// The referer some image hosts want, by the address's host.
pub open spec fn cover_referer_spec(url: Seq<char>) -> Option<Seq<char>> {
    if contains_seq(url, "kuwo.cn"@) {
        Some("https://www.kuwo.cn/"@)
    } else if contains_seq(url, "kugou.com"@) {
        Some("https://www.kugou.com/"@)
    } else if contains_seq(url, "qq.com"@) {
        Some("https://y.qq.com/"@)
    } else if contains_seq(url, "music.163.com"@) || contains_seq(url, "126.net"@) {
        Some("https://music.163.com/"@)
    } else {
        None
    }
}

fn has(url: &Vec<char>, pat: &str) -> (r: bool)
    ensures
        r == contains_seq(url@, pat@),
{
    contains(url, &chars_of(pat))
}

/// The referer some image hosts want.
pub fn cover_referer(url: &str) -> (r: Option<&'static str>)
    ensures
        match r {
            Some(s) => cover_referer_spec(url@) == Some(s@),
            None => cover_referer_spec(url@) is None,
        },
{
    let c = chars_of(url);
    if has(&c, "kuwo.cn") {
        Some("https://www.kuwo.cn/")
    } else if has(&c, "kugou.com") {
        Some("https://www.kugou.com/")
    } else if has(&c, "qq.com") {
        Some("https://y.qq.com/")
    } else if has(&c, "music.163.com") || has(&c, "126.net") {
        Some("https://music.163.com/")
    } else {
        None
    }
}

/// The value `DefaultHasher::new()` gives for a byte slice hashed with
/// `Hash::hash` and read with `finish`.
pub uninterp spec fn default_hash(data: Seq<u8>) -> u64;

/// Hashes bytes with std's `DefaultHasher::new()` (an unkeyed SipHash, the
/// same in every process of one build); only its name is stated.
#[verifier::external_body]
fn hash_bytes(data: &[u8]) -> (h: u64)
    ensures
        h == default_hash(data@),
{
    let mut hasher = DefaultHasher::new();
    data.hash(&mut hasher);
    hasher.finish()
}

/// `n` in lower-case hexadecimal without leading zeros.
pub open spec fn hex_spec(n: nat) -> Seq<char>
    decreases n,
{
    if n < 16 {
        seq![hex_char(n)]
    } else {
        hex_spec(n / 16).push(hex_char(n % 16))
    }
}

pub open spec fn hex_char(d: nat) -> char {
    if d < 10 {
        (('0' as nat) + d) as char
    } else {
        (('a' as nat) + d - 10) as char
    }
}

fn push_hex(s: &mut String, n: u64)
    ensures
        final(s)@ == old(s)@ + hex_spec(n as nat),
    decreases n,
{
    if n >= 16 {
        push_hex(s, n / 16);
    }
    let d = n % 16;
    let c = if d < 10 { ((d as u8) + 48) as char } else { ((d as u8) + 87) as char };
    assert(c == hex_char(d as nat));
    crate::text::push_char(s, c);
}

/// The name part of a cached cover: the address's hash in hexadecimal.
pub fn simple_hash(data: &[u8]) -> (s: String)
    ensures
        s@ == hex_spec(default_hash(data@) as nat),
{
    let h = hash_bytes(data);
    let mut s = String::new();
    push_hex(&mut s, h);
    s
}

/// The file a remote cover is cached in: `<hash>.jpg`.
pub fn cache_file_name(url: &str) -> (s: String)
    ensures
        s@ == hex_spec(default_hash(url.spec_bytes()) as nat) + ".jpg"@,
{
    let mut s = simple_hash(url.as_bytes());
    push_str(&mut s, ".jpg");
    s
}

/// A cover that is a file on this machine: an absolute path, or a
/// `file://` address (without its scheme).
pub open spec fn local_cover_path_spec(url: Seq<char>) -> Option<Seq<char>> {
    if url.len() > 0 && url[0] == '/' {
        Some(url)
    } else if url.len() >= 7 && url.take(7) == "file://"@ {
        Some(url.skip(7))
    } else {
        None
    }
}

/// The local path of a cover that is a file on this machine.
pub fn local_cover_path(url: &str) -> (r: Option<String>)
    ensures
        match r {
            Some(p) => local_cover_path_spec(url@) == Some(p@),
            None => local_cover_path_spec(url@) is None,
        },
{
    let c = chars_of(url);
    if c.len() > 0 && c[0] == '/' {
        return Some(string_of(url));
    }
    let scheme = chars_of("file://");
    proof {
        reveal_strlit("file://");
    }
    if starts_with(&c, &scheme) {
        let rest = slice_chars(&c, 7, c.len());
        assert(c@.take(7) =~= scheme@) by {
            assert(crate::text::occurs_at(c@, scheme@, 0));
        }
        assert(rest@ =~= c@.skip(7));
        return Some(string_from_chars(&rest));
    }
    assert(!(c@.len() >= 7 && c@.take(7) == "file://"@)) by {
        if c@.len() >= 7 && c@.take(7) == "file://"@ {
            assert(c@.subrange(0, 7) =~= c@.take(7));
            assert(crate::text::occurs_at(c@, scheme@, 0));
        }
    }
    None
}

/// The pause before retry `attempt` (counted from zero) of a cover
/// download, in milliseconds.
pub fn retry_pause_ms(attempt: u64) -> (ms: u64)
    requires
        attempt < 1000,
    ensures
        ms == 150 * (attempt + 1),
{
    150 * (attempt + 1)
}

/// The current cover: its file when ready, its state, the number of the
/// latest load, and how many covers have been made ready.
#[derive(Debug)]
pub struct CoverModel {
    pub image_path: Option<String>,
    pub state: CoverState,
    pub request_id: u64,
    pub display_gen: u64,
}

impl CoverModel {
    /// No cover.
    pub fn new() -> (m: Self)
        ensures
            m.image_path is None,
            m.state == CoverState::Empty,
            m.request_id == 0,
            m.display_gen == 0,
    {
        CoverModel { image_path: None, state: CoverState::Empty, request_id: 0, display_gen: 0 }
    }

    /// Drops the cover; any load still running is outdated.
    pub fn clear(&mut self)
        ensures
            final(self).request_id == vstd::wrapping::u64_specs::wrapping_add(old(self).request_id, 1),
            final(self).image_path is None,
            final(self).state == CoverState::Empty,
            final(self).display_gen == old(self).display_gen,
    {
        self.request_id = self.request_id.wrapping_add(1);
        self.image_path = None;
        self.state = CoverState::Empty;
    }

    /// Whether a cover is ready.
    pub fn has_image(&self) -> (r: bool)
        ensures
            r == self.image_path is Some,
    {
        self.image_path.is_some()
    }

    /// Starts loading the cover at `url`: returns the load's number and the
    /// address to fetch, or `None` (and the cover is unavailable) when the
    /// source gave no address.
    pub fn begin_load(&mut self, url: Option<String>) -> (r: Option<(u64, String)>)
        ensures
            final(self).request_id == vstd::wrapping::u64_specs::wrapping_add(old(self).request_id, 1),
            final(self).image_path is None,
            final(self).display_gen == old(self).display_gen,
            match url {
                Some(u) if trim_seq(normalize_url_spec(u@)).len() > 0 => (r matches Some((id, a)) && id
                    == final(self).request_id && a@ == normalize_url_spec(u@)) && final(self).state
                    == CoverState::Loading,
                _ => r is None && (final(self).state matches CoverState::Unavailable(m) && m@
                    == "当前音源没有返回封面"@),
            },
    {
        self.request_id = self.request_id.wrapping_add(1);
        self.image_path = None;
        let normalized = match url {
            Some(u) => {
                let n = normalize_url(u.as_str());
                let t = crate::text::trim(n.as_str());
                if t.as_str().unicode_len() > 0 {
                    Some(n)
                } else {
                    None
                }
            },
            None => None,
        };
        match normalized {
            Some(n) => {
                self.state = CoverState::Loading;
                Some((self.request_id, n))
            },
            None => {
                self.state = CoverState::Unavailable(string_of("当前音源没有返回封面"));
                None
            },
        }
    }

    /// Whether load `request_id` is still the latest.
    pub fn is_current(&self, request_id: u64) -> (r: bool)
        ensures
            r == (self.request_id == request_id),
    {
        self.request_id == request_id
    }

    /// Records the outcome of load `request_id` (the cached file, or the
    /// last error); an outdated load changes nothing.
    pub fn finish_load(&mut self, request_id: u64, result: Result<String, String>)
        ensures
            final(self).request_id == old(self).request_id,
            old(self).request_id != request_id ==> final(self).image_path == old(self).image_path
                && final(self).state == old(self).state && final(self).display_gen == old(self).display_gen,
            old(self).request_id == request_id ==> match result {
                Ok(p) => final(self).image_path == Some(p) && final(self).state == CoverState::Ready
                    && final(self).display_gen == vstd::wrapping::u64_specs::wrapping_add(old(self).display_gen, 1),
                Err(e) => final(self).state == CoverState::Unavailable(e) && final(self).image_path
                    == old(self).image_path && final(self).display_gen == old(self).display_gen,
            },
    {
        if self.request_id != request_id {
            return;
        }
        match result {
            Ok(p) => {
                self.image_path = Some(p);
                self.state = CoverState::Ready;
                self.display_gen = self.display_gen.wrapping_add(1);
            },
            Err(e) => {
                self.state = CoverState::Unavailable(e);
            },
        }
    }
}

} // verus!
