//! WebDAV sync: where a downloaded file goes on the server, and the checks
//! on the server address and on the answers to directory creation.

use vstd::prelude::*;
use crate::text::{
    ascii_lower_seq, ascii_lowercase, chars_eq, chars_of, find, find_seq, join_chars, join_spec,
    last_index_of, nested_view, occurs_at, push_chars, push_str, rfind_char, slice_chars, split_char, split_spec,
    string_from_chars, string_of, trim_chars, trim_seq,
};

verus! {

broadcast use vstd::string::group_string_axioms;

/// The WebDAV part of the configuration.
#[derive(Debug, Clone)]
pub struct WebdavConfig {
    pub enabled: bool,
    pub url: String,
    pub username: String,
    pub password: String,
    /// The remote directory files go to; empty for the server root.
    pub dir: String,
}

/// Whether sync is on: switched on, with an address.
pub fn is_configured(config: &WebdavConfig) -> (r: bool)
    ensures
        r == (config.enabled && trim_seq(config.url@).len() > 0),
{
    if !config.enabled {
        return false;
    }
    let t = crate::text::trim(config.url.as_str());
    t.as_str().unicode_len() > 0
}

/// `s` without trailing `c` (`trim_end_matches`).
pub open spec fn strip_trailing(s: Seq<char>, c: char) -> Seq<char>
    decreases s.len(),
{
    if s.len() > 0 && s.last() == c {
        strip_trailing(s.drop_last(), c)
    } else {
        s
    }
}

/// `s` without leading `c` (`trim_start_matches`).
pub open spec fn strip_leading(s: Seq<char>, c: char) -> Seq<char>
    decreases s.len(),
{
    if s.len() > 0 && s[0] == c {
        strip_leading(s.drop_first(), c)
    } else {
        s
    }
}

fn strip_trailing_chars(s: &Vec<char>, c: char) -> (out: Vec<char>)
    ensures
        out@ == strip_trailing(s@, c),
{
    let mut n = s.len();
    assert(s@.take(n as int) =~= s@);
    while n > 0 && s[n - 1] == c
        invariant
            n <= s.len(),
            strip_trailing(s@, c) == strip_trailing(s@.take(n as int), c),
        decreases n,
    {
        assert(s@.take(n as int).drop_last() =~= s@.take(n - 1));
        n = n - 1;
    }
    slice_chars(s, 0, n)
}

fn strip_leading_chars(s: &Vec<char>, c: char) -> (out: Vec<char>)
    ensures
        out@ == strip_leading(s@, c),
{
    let mut k: usize = 0;
    assert(s@.skip(0) =~= s@);
    while k < s.len() && s[k] == c
        invariant
            k <= s.len(),
            strip_leading(s@, c) == strip_leading(s@.skip(k as int), c),
        decreases s.len() - k,
    {
        assert(s@.skip(k as int).drop_first() =~= s@.skip(k + 1));
        k = k + 1;
    }
    let out = slice_chars(s, k, s.len());
    assert(out@ =~= s@.skip(k as int));
    out
}

pub open spec fn empty_address_error() -> Seq<char> {
    "WebDAV 地址为空"@
}

pub open spec fn scheme_error() -> Seq<char> {
    "WebDAV 地址必须以 http:// 或 https:// 开头"@
}

pub open spec fn host_error() -> Seq<char> {
    "WebDAV 地址缺少主机名"@
}

/// The server address as used to build request URLs: trimmed, `http` or
/// `https`, with a host, trailing slashes removed.
pub open spec fn parse_base_url_spec(raw: Seq<char>) -> Result<Seq<char>, Seq<char>> {
    let t = trim_seq(raw);
    if t.len() == 0 {
        Err(empty_address_error())
    } else {
        match find_seq(t, "://"@) {
            None => Err(scheme_error()),
            Some(i) => {
                let scheme = t.take(i);
                let rest = t.skip(i + 3);
                if scheme != "http"@ && scheme != "https"@ {
                    Err(scheme_error())
                } else if split_spec(rest, '/')[0].len() == 0 {
                    Err(host_error())
                } else {
                    Ok(strip_trailing(t, '/'))
                }
            },
        }
    }
}

proof fn lemma_strip_trailing(s: Seq<char>, c: char)
    ensures
        strip_trailing(s, c).len() <= s.len(),
        strip_trailing(s, c) == s.take(strip_trailing(s, c).len() as int),
        strip_trailing(s, c).len() > 0 ==> strip_trailing(s, c).last() != c,
        forall|k: int| 0 <= k < s.len() && s[k] != c ==> k < strip_trailing(s, c).len(),
    decreases s.len(),
{
    if s.len() > 0 && s.last() == c {
        lemma_strip_trailing(s.drop_last(), c);
        let r = strip_trailing(s.drop_last(), c);
        assert(s.drop_last().take(r.len() as int) =~= s.take(r.len() as int));
        assert forall|k: int| 0 <= k < s.len() && s[k] != c implies k < r.len() by {
            assert(k < s.len() - 1);
            assert(s.drop_last()[k] == s[k]);
        }
    } else {
        assert(s.take(s.len() as int) =~= s);
    }
}

/// A checked server address checks again to itself, unless whitespace
/// stood before the slashes that were cut from its end (then the second
/// check trims that whitespace too).
pub proof fn lemma_parse_base_url_idempotent(raw: Seq<char>)
    requires
        parse_base_url_spec(raw) is Ok,
        !crate::text::is_white_space(parse_base_url_spec(raw)->Ok_0.last()),
    ensures
        ({
            let u = parse_base_url_spec(raw)->Ok_0;
            &&& u.len() > 0
            &&& u.last() != '/'
            &&& parse_base_url_spec(u) == Ok::<Seq<char>, Seq<char>>(u)
        }),
{
    reveal_strlit("://");
    let t = trim_seq(raw);
    let i = find_seq(t, "://"@)->0;
    let rest = t.skip(i + 3);
    let u = strip_trailing(t, '/');
    crate::text::lemma_find_from(t, "://"@, 0);
    crate::text::lemma_split_first(rest, '/');
    assert(rest.len() > 0 && rest[0] != '/');
    assert(t[i + 3] == rest[0]);
    lemma_strip_trailing(t, '/');
    assert(i + 3 < u.len());
    assert(u[0] == t[0]);
    // `t` is trimmed, so `u` starts with no whitespace; by the premise it
    // ends with none either.
    crate::text::lemma_trim_start_first(raw);
    crate::text::lemma_trim_end_prefix(crate::text::trim_start_seq(raw));
    assert(t[0] == crate::text::trim_start_seq(raw)[0]);
    assert(crate::text::trim_start_seq(u) == u);
    assert(crate::text::trim_end_seq(u) == u);
    assert(trim_seq(u) == u);
    // The separator is found at the same place.
    assert(u.subrange(i, i + 3) =~= t.subrange(i, i + 3));
    assert forall|k: int| 0 <= k < i implies !occurs_at(u, "://"@, k) by {
        assert(!occurs_at(t, "://"@, k));
        assert(u.subrange(k, k + 3) =~= t.subrange(k, k + 3));
    }
    crate::text::lemma_find_unique(u, "://"@, Some(i));
    assert(u.take(i) =~= t.take(i));
    let rest_u = u.skip(i + 3);
    assert(rest_u[0] == rest[0]);
    crate::text::lemma_split_first(rest_u, '/');
    lemma_strip_trailing(u, '/');
    assert(strip_trailing(u, '/') == u);
}

fn lit_chars(s: &str) -> (out: Vec<char>)
    ensures
        out@ == s@,
{
    chars_of(s)
}

/// Checks the server address and readies it for joining paths.
pub fn parse_base_url(raw: &str) -> (r: Result<String, String>)
    ensures
        match r {
            Ok(u) => parse_base_url_spec(raw@) == Ok::<Seq<char>, Seq<char>>(u@),
            Err(e) => parse_base_url_spec(raw@) == Err::<Seq<char>, Seq<char>>(e@),
        },
{
    let raw_chars = chars_of(raw);
    let t = trim_chars(&raw_chars);
    if t.len() == 0 {
        return Err(string_of("WebDAV 地址为空"));
    }
    let sep = lit_chars("://");
    proof {
        reveal_strlit("://");
    }
    match find(&t, &sep) {
        None => Err(string_of("WebDAV 地址必须以 http:// 或 https:// 开头")),
        Some(i) => {
            let scheme = slice_chars(&t, 0, i);
            assert(scheme@ =~= t@.take(i as int));
            let http = lit_chars("http");
            let https = lit_chars("https");
            if !chars_eq(&scheme, &http) && !chars_eq(&scheme, &https) {
                return Err(string_of("WebDAV 地址必须以 http:// 或 https:// 开头"));
            }
            let rest = slice_chars(&t, i + 3, t.len());
            assert(rest@ =~= t@.skip(i + 3));
            let pieces = split_char(&rest, '/');
            assert(nested_view(pieces@).len() == pieces@.len());
            assert(nested_view(pieces@)[0] == pieces@[0]@);
            if pieces[0].len() == 0 {
                return Err(string_of("WebDAV 地址缺少主机名"));
            }
            let stripped = strip_trailing_chars(&t, '/');
            Ok(string_from_chars(&stripped))
        },
    }
}

/// Characters no file name may hold on common file systems.
pub open spec fn illegal_name_char(c: char) -> bool {
    c < ' ' || c == '\\' || c == '/' || c == ':' || c == '*' || c == '?' || c == '"' || c == '<'
        || c == '>' || c == '|'
}

/// `name` with every illegal character turned into `_`, trimmed.
pub open spec fn sanitize_spec(name: Seq<char>) -> Seq<char> {
    trim_seq(name.map_values(|c: char| if illegal_name_char(c) { '_' } else { c }))
}

/// A file name safe on common file systems: characters they refuse become
/// `_`, and surrounding whitespace goes.
pub fn sanitize_filename(name: &str) -> (out: String)
    ensures
        out@ == sanitize_spec(name@),
{
    let chars = chars_of(name);
    let mut mapped: Vec<char> = Vec::new();
    let mut i: usize = 0;
    while i < chars.len()
        invariant
            i <= chars.len(),
            mapped@ == chars@.take(i as int).map_values(|c: char| if illegal_name_char(c) { '_' } else { c }),
        decreases chars.len() - i,
    {
        let c = chars[i];
        let illegal = c < ' ' || c == '\\' || c == '/' || c == ':' || c == '*' || c == '?' || c == '"'
            || c == '<' || c == '>' || c == '|';
        mapped.push(if illegal { '_' } else { c });
        assert(chars@.take(i + 1).map_values(|c: char| if illegal_name_char(c) { '_' } else { c })
            =~= chars@.take(i as int).map_values(|c: char| if illegal_name_char(c) { '_' } else { c }).push(
            if illegal_name_char(c) { '_' } else { c },
        ));
        i = i + 1;
    }
    assert(chars@.take(i as int) =~= chars@);
    let t = trim_chars(&mapped);
    string_from_chars(&t)
}

/// One remote path segment: trimmed, with `.` and `..` (and blanks)
/// dropped, and its characters made safe.
pub open spec fn safe_segment_spec(segment: Seq<char>) -> Seq<char> {
    let t = trim_seq(segment);
    if t.len() == 0 || t == "."@ || t == ".."@ {
        Seq::empty()
    } else {
        sanitize_spec(t)
    }
}

fn safe_segment(segment: &Vec<char>) -> (out: Vec<char>)
    ensures
        out@ == safe_segment_spec(segment@),
{
    let t = trim_chars(segment);
    proof {
        reveal_strlit(".");
        reveal_strlit("..");
    }
    let dot = lit_chars(".");
    let dots = lit_chars("..");
    if t.len() == 0 || chars_eq(&t, &dot) || chars_eq(&t, &dots) {
        return Vec::new();
    }
    let ts = string_from_chars(&t);
    let clean = sanitize_filename(ts.as_str());
    chars_of(clean.as_str())
}

/// The safe, non-empty segments of `pieces`, in order.
pub open spec fn safe_parts(pieces: Seq<Seq<char>>) -> Seq<Seq<char>>
    decreases pieces.len(),
{
    if pieces.len() == 0 {
        Seq::empty()
    } else {
        let prev = safe_parts(pieces.drop_last());
        let seg = safe_segment_spec(pieces.last());
        if seg.len() > 0 {
            prev.push(seg)
        } else {
            prev
        }
    }
}

fn push_safe_parts(parts: &mut Vec<Vec<char>>, pieces: &Vec<Vec<char>>)
    ensures
        nested_view(final(parts)@) == nested_view(old(parts)@) + safe_parts(nested_view(pieces@)),
{
    let ghost start = nested_view(parts@);
    let ghost pv = nested_view(pieces@);
    let mut i: usize = 0;
    assert(pv.take(0) =~= Seq::<Seq<char>>::empty());
    assert(nested_view(parts@) =~= start + safe_parts(pv.take(0)));
    while i < pieces.len()
        invariant
            i <= pieces@.len(),
            pv == nested_view(pieces@),
            nested_view(parts@) == start + safe_parts(pv.take(i as int)),
        decreases pieces@.len() - i,
    {
        assert(pv.take(i + 1).drop_last() =~= pv.take(i as int));
        assert(pv.take(i + 1).last() == pieces@[i as int]@);
        let seg = safe_segment(&pieces[i]);
        if seg.len() > 0 {
            let ghost before = nested_view(parts@);
            parts.push(seg);
            assert(nested_view(parts@) =~= before.push(seg@));
        }
        i = i + 1;
    }
    assert(pv.take(i as int) =~= pv);
}

/// `s` with every backslash turned into a slash.
pub open spec fn slashes(s: Seq<char>) -> Seq<char> {
    s.map_values(|c: char| if c == '\\' { '/' } else { c })
}

pub open spec fn empty_remote_path_error() -> Seq<char> {
    "WebDAV 上传路径为空"@
}

/// Where a file goes on the server: the remote directory's segments, then
/// the file name's own (so template subdirectories are kept), each made
/// safe; traversal segments such as `..` are dropped.
pub open spec fn remote_relative_path_spec(dir: Seq<char>, filename: Seq<char>) -> Result<Seq<char>, Seq<char>> {
    let d = strip_leading(strip_trailing(trim_seq(dir), '/'), '/');
    let dir_parts = if d.len() == 0 {
        Seq::empty()
    } else {
        safe_parts(split_spec(d, '/'))
    };
    let parts = dir_parts + safe_parts(split_spec(slashes(filename), '/'));
    if parts.len() == 0 {
        Err(empty_remote_path_error())
    } else {
        Ok(join_spec(parts, "/"@))
    }
}

/// Where a file goes on the server, relative to the base address.
pub fn remote_relative_path(dir: &str, filename: &str) -> (r: Result<String, String>)
    ensures
        match r {
            Ok(p) => remote_relative_path_spec(dir@, filename@) == Ok::<Seq<char>, Seq<char>>(p@),
            Err(e) => remote_relative_path_spec(dir@, filename@) == Err::<Seq<char>, Seq<char>>(e@),
        },
{
    let dir_chars = chars_of(dir);
    let trimmed = trim_chars(&dir_chars);
    let d1 = strip_trailing_chars(&trimmed, '/');
    let d = strip_leading_chars(&d1, '/');
    let mut parts: Vec<Vec<char>> = Vec::new();
    assert(nested_view(parts@) =~= Seq::<Seq<char>>::empty());
    if d.len() > 0 {
        let pieces = split_char(&d, '/');
        push_safe_parts(&mut parts, &pieces);
    }
    let ghost dir_parts = nested_view(parts@);
    let name_chars = chars_of(filename);
    let mut fixed: Vec<char> = Vec::new();
    let mut i: usize = 0;
    while i < name_chars.len()
        invariant
            i <= name_chars.len(),
            fixed@ == slashes(name_chars@.take(i as int)),
        decreases name_chars.len() - i,
    {
        let c = name_chars[i];
        fixed.push(if c == '\\' { '/' } else { c });
        assert(slashes(name_chars@.take(i + 1)) =~= slashes(name_chars@.take(i as int)).push(
            if c == '\\' { '/' } else { c },
        ));
        i = i + 1;
    }
    assert(name_chars@.take(i as int) =~= name_chars@);
    let pieces = split_char(&fixed, '/');
    push_safe_parts(&mut parts, &pieces);
    assert(nested_view(parts@).len() == parts@.len());
    if parts.len() == 0 {
        return Err(string_of("WebDAV 上传路径为空"));
    }
    Ok(join_chars(&parts, "/"))
}

/// The lower-cased text after the last `.` of a file name, empty when there
/// is none.
pub open spec fn extension_spec(filename: Seq<char>) -> Seq<char> {
    let i = last_index_of(filename, '.');
    if i < 0 {
        Seq::empty()
    } else {
        ascii_lower_seq(filename.skip(i + 1))
    }
}

/// The MIME type sent for an audio file, by extension; MP3 when unknown.
pub open spec fn content_type_spec(filename: Seq<char>) -> Seq<char> {
    let e = extension_spec(filename);
    if e == "flac"@ {
        "audio/flac"@
    } else if e == "ogg"@ || e == "opus"@ {
        "audio/ogg"@
    } else if e == "m4a"@ || e == "mp4"@ || e == "aac"@ {
        "audio/mp4"@
    } else if e == "wav"@ {
        "audio/wav"@
    } else if e == "wma"@ {
        "audio/x-ms-wma"@
    } else {
        "audio/mpeg"@
    }
}

/// The last dot of `stem.ext`, when `ext` holds none, is the one before
/// `ext`.
proof fn lemma_last_dot(stem: Seq<char>, ext: Seq<char>)
    requires
        !ext.contains('.'),
    ensures
        last_index_of(stem + "."@ + ext, '.') == stem.len(),
    decreases ext.len(),
{
    reveal_strlit(".");
    let s = stem + "."@ + ext;
    if ext.len() == 0 {
        assert(s =~= stem.push('.'));
    } else {
        assert(ext.last() == ext[ext.len() - 1]);
        assert(s.last() == ext.last());
        assert(!ext.drop_last().contains('.')) by {
            if ext.drop_last().contains('.') {
                let i = choose|i: int| 0 <= i < ext.drop_last().len() && ext.drop_last()[i] == '.';
                assert(ext[i] == '.');
            }
        }
        assert(s.drop_last() =~= stem + "."@ + ext.drop_last());
        lemma_last_dot(stem, ext.drop_last());
    }
}

/// An audio file is labelled by its extension, in any case and whatever
/// comes before the last dot: `.ogg` and `.opus` are sent as Ogg, `.flac`
/// as FLAC, `.m4a`, `.mp4` and `.aac` as MP4, `.wav` as WAV, `.wma` as WMA,
/// and only an extension none of these is sent as MP3.
pub proof fn lemma_content_type_by_extension(stem: Seq<char>, ext: Seq<char>)
    requires
        !ext.contains('.'),
    ensures
        ({
            let t = content_type_spec(stem + "."@ + ext);
            let e = ascii_lower_seq(ext);
            let known = e == "flac"@ || e == "ogg"@ || e == "opus"@ || e == "m4a"@ || e == "mp4"@ || e == "aac"@
                || e == "wav"@ || e == "wma"@;
            &&& (e == "ogg"@ || e == "opus"@) ==> t == "audio/ogg"@
            &&& e == "flac"@ ==> t == "audio/flac"@
            &&& (e == "m4a"@ || e == "mp4"@ || e == "aac"@) ==> t == "audio/mp4"@
            &&& e == "wav"@ ==> t == "audio/wav"@
            &&& e == "wma"@ ==> t == "audio/x-ms-wma"@
            &&& (t == "audio/mpeg"@ <==> !known)
        }),
{
    lemma_last_dot(stem, ext);
    let s = stem + "."@ + ext;
    reveal_strlit(".");
    assert(s.skip(stem.len() + 1int) =~= ext);
    assert(extension_spec(s) == ascii_lower_seq(ext));
    reveal_strlit("flac");
    reveal_strlit("ogg");
    reveal_strlit("opus");
    reveal_strlit("m4a");
    reveal_strlit("mp4");
    reveal_strlit("aac");
    reveal_strlit("wav");
    reveal_strlit("wma");
    reveal_strlit("audio/mpeg");
    reveal_strlit("audio/ogg");
    reveal_strlit("audio/flac");
    reveal_strlit("audio/mp4");
    reveal_strlit("audio/wav");
    reveal_strlit("audio/x-ms-wma");
    assert("audio/mpeg"@[6] == 'm' && "audio/ogg"@[6] == 'o' && "audio/flac"@[6] == 'f');
    assert("audio/mp4"@.len() != "audio/mpeg"@.len() && "audio/wav"@.len() != "audio/mpeg"@.len());
    assert("audio/x-ms-wma"@.len() != "audio/mpeg"@.len());
    assert("ogg"@.len() != "flac"@.len() && "opus"@[0] != "flac"@[0]);
    assert("m4a"@[0] != "ogg"@[0] && "mp4"@[0] != "ogg"@[0] && "aac"@[0] != "ogg"@[0]);
    assert("m4a"@.len() != "flac"@.len() && "m4a"@[0] != "opus"@[0]);
    assert("mp4"@.len() != "flac"@.len() && "mp4"@[0] != "opus"@[0]);
    assert("aac"@.len() != "flac"@.len() && "aac"@[0] != "opus"@[0]);
    assert("wav"@.len() != "flac"@.len() && "wav"@[0] != "ogg"@[0] && "wav"@[0] != "opus"@[0]);
    assert("wav"@[0] != "m4a"@[0] && "wav"@[0] != "mp4"@[0] && "wav"@[0] != "aac"@[0]);
    assert("wma"@.len() != "flac"@.len() && "wma"@[0] != "ogg"@[0] && "wma"@[0] != "opus"@[0]);
    assert("wma"@[0] != "m4a"@[0] && "wma"@[0] != "mp4"@[0] && "wma"@[0] != "aac"@[0]);
    assert("wma"@[1] != "wav"@[1]);
    assert("audio/ogg"@ != "audio/mpeg"@);
    assert("audio/flac"@ != "audio/mpeg"@);
    assert("audio/mp4"@ != "audio/mpeg"@);
    assert("audio/wav"@ != "audio/mpeg"@);
    assert("audio/x-ms-wma"@ != "audio/mpeg"@);
}

fn is_ext(e: &Vec<char>, lit: &str) -> (r: bool)
    ensures
        r == (e@ == lit@),
{
    let l = lit_chars(lit);
    chars_eq(e, &l)
}

/// The MIME type sent for an audio file.
pub fn content_type_for(filename: &str) -> (t: &'static str)
    ensures
        t@ == content_type_spec(filename@),
{
    let chars = chars_of(filename);
    let ext = match rfind_char(&chars, '.') {
        Some(i) => {
            let tail = slice_chars(&chars, i + 1, chars.len());
            assert(tail@ =~= chars@.skip(i + 1));
            ascii_lowercase(&tail)
        },
        None => Vec::new(),
    };
    assert(ext@ =~= extension_spec(filename@));
    if is_ext(&ext, "flac") {
        "audio/flac"
    } else if is_ext(&ext, "ogg") || is_ext(&ext, "opus") {
        "audio/ogg"
    } else if is_ext(&ext, "m4a") || is_ext(&ext, "mp4") || is_ext(&ext, "aac") {
        "audio/mp4"
    } else if is_ext(&ext, "wav") {
        "audio/wav"
    } else if is_ext(&ext, "wma") {
        "audio/x-ms-wma"
    } else {
        "audio/mpeg"
    }
}

/// Answers to directory creation that count as success: created, OK, no
/// content, or not allowed because it exists already.
pub open spec fn mkcol_accepted_spec(status: u16) -> bool {
    status == 200 || status == 201 || status == 204 || status == 405
}

/// Whether an answer to directory creation counts as success.
pub fn mkcol_accepted(status: u16) -> (r: bool)
    ensures
        r == mkcol_accepted_spec(status),
{
    status == 200 || status == 201 || status == 204 || status == 405
}

/// The message for a directory that could not be created, given the HTTP
/// status the server answered; `None` when the answer counts as success.
pub fn mkcol_status_error(segment: &str, status: u16) -> (r: Option<String>)
    ensures
        mkcol_accepted_spec(status) <==> r is None,
        r matches Some(m) ==> m@ == "创建 WebDAV 目录 "@ + segment@ + " 失败: HTTP "@
            + crate::text::decimal_seq(status as nat),
{
    if mkcol_accepted(status) {
        return None;
    }
    let mut m = string_of("创建 WebDAV 目录 ");
    push_str(&mut m, segment);
    push_str(&mut m, " 失败: HTTP ");
    crate::text::push_decimal(&mut m, status as u64);
    Some(m)
}

/// The URL a file is uploaded to.
pub fn upload_target(base: &str, remote_rel: &str) -> (u: String)
    ensures
        u@ == strip_trailing(base@, '/') + "/"@ + remote_rel@,
{
    let b = strip_trailing_chars(&chars_of(base), '/');
    let mut u = string_from_chars(&b);
    push_str(&mut u, "/");
    push_str(&mut u, remote_rel);
    u
}

/// The directories to create before an upload, outermost first, each with
/// the segment it adds: every segment of `remote_rel` but the file name,
/// skipping blank ones.
pub open spec fn mkcol_targets_spec(base: Seq<char>, pieces: Seq<Seq<char>>) -> Seq<(Seq<char>, Seq<char>)>
    decreases pieces.len(),
{
    if pieces.len() == 0 {
        Seq::empty()
    } else {
        let prev = mkcol_targets_spec(base, pieces.drop_last());
        let seg = pieces.last();
        if trim_seq(seg).len() == 0 {
            prev
        } else {
            let current = if prev.len() == 0 {
                base
            } else {
                prev.last().1
            };
            prev.push((seg, strip_trailing(current, '/') + "/"@ + seg + "/"@))
        }
    }
}

/// The directories to create before uploading to `remote_rel` under `base`:
/// pairs of the segment and the directory URL, outermost first.
pub fn mkcol_targets(base: &str, remote_rel: &str) -> (r: Vec<(String, String)>)
    ensures
        ({
            let pieces = split_spec(remote_rel@, '/');
            let dirs = if pieces.len() <= 1 {
                Seq::empty()
            } else {
                pieces.drop_last()
            };
            r@.map_values(|p: (String, String)| (p.0@, p.1@)) == mkcol_targets_spec(base@, dirs)
        }),
{
    let rel = chars_of(remote_rel);
    let pieces = split_char(&rel, '/');
    let ghost pv = nested_view(pieces@);
    assert(pv.len() == pieces@.len());
    let mut out: Vec<(String, String)> = Vec::new();
    if pieces.len() <= 1 {
        assert(out@.map_values(|p: (String, String)| (p.0@, p.1@)) =~= Seq::<(Seq<char>, Seq<char>)>::empty());
        return out;
    }
    let ghost dirs = pv.drop_last();
    let n = pieces.len() - 1;
    let mut current = string_of(base);
    let mut i: usize = 0;
    assert(dirs.take(0) =~= Seq::<Seq<char>>::empty());
    assert(out@.map_values(|p: (String, String)| (p.0@, p.1@)) =~= mkcol_targets_spec(base@, dirs.take(0)));
    while i < n
        invariant
            n == pieces@.len() - 1,
            i <= n,
            pv == nested_view(pieces@),
            dirs == pv.drop_last(),
            out@.map_values(|p: (String, String)| (p.0@, p.1@)) == mkcol_targets_spec(base@, dirs.take(i as int)),
            current@ == if out@.len() == 0 {
                base@
            } else {
                out@.last().1@
            },
        decreases n - i,
    {
        let ghost prev = out@.map_values(|p: (String, String)| (p.0@, p.1@));
        assert(dirs.take(i + 1).drop_last() =~= dirs.take(i as int));
        assert(dirs.take(i + 1).last() == pieces@[i as int]@);
        let seg = &pieces[i];
        let t = trim_chars(seg);
        if t.len() > 0 {
            let cur_chars = chars_of(current.as_str());
            let stripped = strip_trailing_chars(&cur_chars, '/');
            let mut url = string_from_chars(&stripped);
            push_str(&mut url, "/");
            push_chars(&mut url, seg);
            push_str(&mut url, "/");
            let seg_s = string_from_chars(seg);
            let url_copy = url.clone();
            out.push((seg_s, url));
            current = url_copy;
            assert(out@.map_values(|p: (String, String)| (p.0@, p.1@)) =~= prev.push((seg@, current@)));
        }
        i = i + 1;
    }
    assert(dirs.take(n as int) =~= dirs);
    out
}

/// The message for a failed upload: the status text, and the server's
/// answer when it said anything.
pub fn upload_failure_message(status: &str, body: &str) -> (m: String)
    ensures
        m@ == "上传到 WebDAV 失败: "@ + status@ + if trim_seq(body@).len() == 0 {
            Seq::<char>::empty()
        } else {
            ": "@ + trim_seq(body@)
        },
{
    let mut m = string_of("上传到 WebDAV 失败: ");
    push_str(&mut m, status);
    let t = crate::text::trim(body);
    if t.as_str().unicode_len() > 0 {
        push_str(&mut m, ": ");
        push_str(&mut m, t.as_str());
    }
    m
}

} // verus!
