//! The song a download or a record is about, as plain values.

use vstd::prelude::*;
use crate::download::manager::Quality;
use crate::text::{str_eq, string_of};

verus! {

broadcast use vstd::string::group_string_axioms;

/// A song as the sources describe it.
#[derive(Debug, Clone)]
pub struct SongInfo {
    pub id: String,
    /// The source's short name, such as `kw`; local files use `local`.
    pub source: String,
    pub name: String,
    pub singer: String,
    pub album_name: String,
    pub duration_secs: u64,
    /// Set for songs that are files on this machine.
    pub file_path: Option<String>,
    pub cover_url: Option<String>,
    /// The qualities the source offers, lowest first.
    pub qualities: Vec<Quality>,
}

/// Whether a source name stands for files on this machine.
pub open spec fn is_local_spec(source: Seq<char>) -> bool {
    source == "local"@
}

/// Whether a source name stands for files on this machine.
pub fn is_local_source(source: &str) -> (r: bool)
    ensures
        r == is_local_spec(source@),
{
    str_eq(source, "local")
}

impl SongInfo {
    /// A song with an id, a source, a title and a singer; everything else
    /// empty.
    pub fn new(id: String, source: String, name: String, singer: String) -> (s: Self)
        ensures
            s.id == id,
            s.source == source,
            s.name == name,
            s.singer == singer,
            s.album_name@ == Seq::<char>::empty(),
            s.duration_secs == 0,
            s.file_path is None,
            s.cover_url is None,
            s.qualities@ == Seq::<Quality>::empty(),
    {
        let album = string_of("");
        proof {
            reveal_strlit("");
        }
        SongInfo {
            id,
            source,
            name,
            singer,
            album_name: album,
            duration_secs: 0,
            file_path: None,
            cover_url: None,
            qualities: Vec::new(),
        }
    }
}

fn copy_opt(o: &Option<String>) -> (r: Option<String>)
    ensures
        r == *o,
{
    match o {
        Some(s) => Some(s.clone()),
        None => None,
    }
}

/// Two songs with the same fields and qualities.
pub open spec fn same_song(a: SongInfo, b: SongInfo) -> bool {
    &&& a.id == b.id && a.source == b.source && a.name == b.name && a.singer == b.singer
    &&& a.album_name == b.album_name && a.duration_secs == b.duration_secs
    &&& a.file_path == b.file_path && a.cover_url == b.cover_url
    &&& a.qualities@ == b.qualities@
}

/// A copy of a song.
pub fn copy_song(s: &SongInfo) -> (c: SongInfo)
    ensures
        same_song(c, *s),
{
    let mut qualities: Vec<Quality> = Vec::new();
    let mut i: usize = 0;
    while i < s.qualities.len()
        invariant
            i <= s.qualities@.len(),
            qualities@ == s.qualities@.take(i as int),
        decreases s.qualities@.len() - i,
    {
        qualities.push(s.qualities[i]);
        assert(s.qualities@.take(i + 1) =~= s.qualities@.take(i as int).push(s.qualities@[i as int]));
        i = i + 1;
    }
    assert(s.qualities@.take(i as int) =~= s.qualities@);
    let c = SongInfo {
        id: s.id.clone(),
        source: s.source.clone(),
        name: s.name.clone(),
        singer: s.singer.clone(),
        album_name: s.album_name.clone(),
        duration_secs: s.duration_secs,
        file_path: copy_opt(&s.file_path),
        cover_url: copy_opt(&s.cover_url),
        qualities,
    };
    c
}

} // verus!
