//! The library scanner's pure half: track records, the case-insensitive
//! audio-extension filter, and the catalog builder that assigns unique,
//! monotonically increasing track ids.
//!
//! The caller walks the filesystem and reads tags; it hands the results in
//! as plain [`FileEntry`] values. Everything that decides what enters the
//! catalog, and under which id, is verified here.

use vstd::prelude::*;
use vstd::string::StrSliceExecFns;

use crate::meta::MetaData;

verus! {

/// One record of the catalog. Immutable once created.
#[derive(Debug)]
pub struct Track {
    /// Unique within the catalog; never reused by one coordinator.
    pub id: u32,
    pub path: String,
    pub filename: String,
    pub title: Option<String>,
    pub artist: Option<String>,
    pub album: Option<String>,
    pub duration_secs: u64,
}

impl Clone for Track {
    fn clone(&self) -> (t: Track)
        ensures
            t == *self,
    {
        Track {
            id: self.id,
            path: self.path.clone(),
            filename: self.filename.clone(),
            title: self.title.clone(),
            artist: self.artist.clone(),
            album: self.album.clone(),
            duration_secs: self.duration_secs,
        }
    }
}

/// One file found by the walk, as the scanner sees it: its path, its final
/// path component, and the metadata read for it — `None` when the read
/// failed, which makes the scanner skip the file and carry on.
#[derive(Debug)]
pub struct FileEntry {
    pub path: String,
    pub filename: String,
    pub meta: Option<MetaData>,
}

/// ASCII lower-casing of one character; anything but `A`..=`Z` is kept.
pub open spec fn lower_char(c: char) -> char {
    match c {
        'A' => 'a',
        'B' => 'b',
        'C' => 'c',
        'D' => 'd',
        'E' => 'e',
        'F' => 'f',
        'G' => 'g',
        'H' => 'h',
        'I' => 'i',
        'J' => 'j',
        'K' => 'k',
        'L' => 'l',
        'M' => 'm',
        'N' => 'n',
        'O' => 'o',
        'P' => 'p',
        'Q' => 'q',
        'R' => 'r',
        'S' => 's',
        'T' => 't',
        'U' => 'u',
        'V' => 'v',
        'W' => 'w',
        'X' => 'x',
        'Y' => 'y',
        'Z' => 'z',
        _ => c,
    }
}

/// ASCII lower-casing of a whole character sequence.
pub open spec fn lower_seq(s: Seq<char>) -> Seq<char> {
    Seq::new(s.len(), |i: int| lower_char(s[i]))
}

fn lower_char_exec(c: char) -> (r: char)
    ensures
        r == lower_char(c),
{
    match c {
        'A' => 'a',
        'B' => 'b',
        'C' => 'c',
        'D' => 'd',
        'E' => 'e',
        'F' => 'f',
        'G' => 'g',
        'H' => 'h',
        'I' => 'i',
        'J' => 'j',
        'K' => 'k',
        'L' => 'l',
        'M' => 'm',
        'N' => 'n',
        'O' => 'o',
        'P' => 'p',
        'Q' => 'q',
        'R' => 'r',
        'S' => 's',
        'T' => 't',
        'U' => 'u',
        'V' => 'v',
        'W' => 'w',
        'X' => 'x',
        'Y' => 'y',
        'Z' => 'z',
        _ => c,
    }
}

/// Does `s`, lower-cased, spell exactly `lower`?
fn matches_lower(s: &str, lower: &str) -> (b: bool)
    ensures
        b == (lower_seq(s@) == lower@),
{
    let n = s.unicode_len();
    let m = lower.unicode_len();
    if n != m {
        proof {
            assert(lower_seq(s@).len() == s@.len());
        }
        return false;
    }
    let mut i: usize = 0;
    while i < n
        invariant
            n == s@.len(),
            n == lower@.len(),
            i <= n,
            forall|j: int| 0 <= j < i ==> lower_char(s@[j]) == lower@[j],
        decreases n - i,
    {
        let c = s.get_char(i);
        let d = lower.get_char(i);
        if lower_char_exec(c) != d {
            proof {
                assert(lower_seq(s@)[i as int] != lower@[i as int]);
            }
            return false;
        }
        i += 1;
    }
    proof {
        assert(lower_seq(s@) =~= lower@);
    }
    true
}

/// The fixed set of accepted audio extensions, compared case-insensitively.
pub open spec fn is_audio_ext(ext: Seq<char>) -> bool {
    ||| lower_seq(ext) == "mp3"@
    ||| lower_seq(ext) == "wav"@
    ||| lower_seq(ext) == "flac"@
    ||| lower_seq(ext) == "ogg"@
    ||| lower_seq(ext) == "m4a"@
    ||| lower_seq(ext) == "aac"@
    ||| lower_seq(ext) == "opus"@
    ||| lower_seq(ext) == "wma"@
}

/// Case-insensitive membership of an extension in the accepted set.
pub fn is_allowed_extension(ext: &str) -> (b: bool)
    ensures
        b == is_audio_ext(ext@),
{
    matches_lower(ext, "mp3") || matches_lower(ext, "wav") || matches_lower(ext, "flac")
        || matches_lower(ext, "ogg") || matches_lower(ext, "m4a") || matches_lower(ext, "aac")
        || matches_lower(ext, "opus") || matches_lower(ext, "wma")
}

/// Index of the last `.` in `name`, if any.
pub open spec fn last_dot_index(name: Seq<char>) -> Option<int>
    decreases name.len(),
{
    if name.len() == 0 {
        None
    } else if name[name.len() - 1] == '.' {
        Some(name.len() - 1)
    } else {
        last_dot_index(name.drop_last())
    }
}

/// The extension of a file name: what follows the last `.`, provided that
/// dot is not the leading character (a name such as `.config` has none).
pub open spec fn extension_spec(name: Seq<char>) -> Option<Seq<char>> {
    match last_dot_index(name) {
        Some(i) => if i > 0 {
            Some(name.subrange(i + 1, name.len() as int))
        } else {
            None
        },
        None => None,
    }
}

/// Does `name` carry an extension from the accepted audio set?
pub open spec fn has_audio_ext(name: Seq<char>) -> bool {
    match extension_spec(name) {
        Some(ext) => is_audio_ext(ext),
        None => false,
    }
}

fn rfind_dot(name: &str) -> (r: Option<usize>)
    ensures
        match r {
            Some(i) => last_dot_index(name@) == Some(i as int) && i < name@.len(),
            None => last_dot_index(name@) is None,
        },
{
    let n = name.unicode_len();
    let mut j: usize = n;
    proof {
        assert(name@.subrange(0, n as int) =~= name@);
    }
    loop
        invariant
            n == name@.len(),
            j <= n,
            last_dot_index(name@) == last_dot_index(name@.subrange(0, j as int)),
        decreases j,
    {
        if j == 0 {
            proof {
                assert(name@.subrange(0, 0).len() == 0);
            }
            return None;
        }
        let c = name.get_char(j - 1);
        proof {
            assert(name@.subrange(0, j as int).last() == name@[j - 1]);
        }
        if c == '.' {
            return Some(j - 1);
        }
        proof {
            assert(name@.subrange(0, j as int).drop_last() =~= name@.subrange(0, j - 1));
        }
        j -= 1;
    }
}

/// Case-insensitive audio-extension filter on a file name, as the scanner
/// applies it to every regular file it visits.
pub fn has_audio_extension(name: &str) -> (b: bool)
    ensures
        b == has_audio_ext(name@),
{
    let n = name.unicode_len();
    match rfind_dot(name) {
        None => false,
        Some(i) => {
            if i == 0 {
                false
            } else {
                let ext = name.substring_char(i + 1, n);
                is_allowed_extension(ext)
            }
        },
    }
}

/// Does the scanner keep this entry? Only files whose metadata read
/// succeeded and whose extension is in the accepted set enter the catalog;
/// a per-file failure is skipped, never fatal.
pub open spec fn accepts(e: FileEntry) -> bool {
    e.meta is Some && has_audio_ext(e.filename@)
}

/// The track record built for an accepted entry under the given id.
pub open spec fn track_of(e: FileEntry, id: u32) -> Track {
    Track {
        id,
        path: e.path,
        filename: e.filename,
        title: crate::meta::title_spec(e.meta->Some_0),
        artist: match e.meta->Some_0.tag {
            Some(t) => t.artist,
            None => None,
        },
        album: match e.meta->Some_0.tag {
            Some(t) => t.album,
            None => None,
        },
        duration_secs: e.meta->Some_0.duration_secs,
    }
}

/// The catalog a scan yields: accepted entries in discovery order, each
/// assigned the next value of the id counter, starting from `base`.
pub open spec fn scan_tracks(entries: Seq<FileEntry>, base: u32) -> Seq<Track>
    decreases entries.len(),
{
    if entries.len() == 0 {
        Seq::empty()
    } else {
        let prefix = scan_tracks(entries.drop_last(), base);
        if accepts(entries.last()) {
            prefix.push(track_of(entries.last(), (base + prefix.len()) as u32))
        } else {
            prefix
        }
    }
}

/// A scan never yields more tracks than it saw entries.
pub proof fn lemma_scan_tracks_len(entries: Seq<FileEntry>, base: u32)
    ensures
        scan_tracks(entries, base).len() <= entries.len(),
    decreases entries.len(),
{
    if entries.len() > 0 {
        lemma_scan_tracks_len(entries.drop_last(), base);
    }
}

/// The `k`-th track of a scan carries id `base + k`: ids are issued in
/// order, one per accepted entry, with none skipped and none repeated.
pub proof fn lemma_scan_track_ids(entries: Seq<FileEntry>, base: u32)
    requires
        base + entries.len() <= u32::MAX,
    ensures
        forall|k: int|
            0 <= k < scan_tracks(entries, base).len() ==> (#[trigger] scan_tracks(entries, base)[k]).id
                == base + k,
    decreases entries.len(),
{
    if entries.len() > 0 {
        lemma_scan_track_ids(entries.drop_last(), base);
        lemma_scan_tracks_len(entries.drop_last(), base);
    }
}

/// The catalog a scan returns holds only files whose extension is in the
/// accepted audio set, and its ids are strictly increasing, hence unique.
pub proof fn lemma_scan_catalog_sound(entries: Seq<FileEntry>, base: u32)
    requires
        base + entries.len() <= u32::MAX,
    ensures
        forall|k: int|
            0 <= k < scan_tracks(entries, base).len() ==> has_audio_ext(
                (#[trigger] scan_tracks(entries, base)[k]).filename@,
            ),
        forall|k1: int, k2: int|
            0 <= k1 < k2 < scan_tracks(entries, base).len() ==> scan_tracks(entries, base)[k1].id
                < scan_tracks(entries, base)[k2].id,
    decreases entries.len(),
{
    lemma_scan_track_ids(entries, base);
    if entries.len() > 0 {
        lemma_scan_catalog_sound(entries.drop_last(), base);
        lemma_scan_tracks_len(entries.drop_last(), base);
    }
}

/// Ids issued by two successive scans are disjoint whenever the second
/// scan's counter starts at or above where the first one stopped. Chained
/// over every rescan, no id is ever repeated within one coordinator.
pub proof fn lemma_ids_never_reused(e1: Seq<FileEntry>, b1: u32, e2: Seq<FileEntry>, b2: u32)
    requires
        b1 + e1.len() <= u32::MAX,
        b2 + e2.len() <= u32::MAX,
        b1 + scan_tracks(e1, b1).len() <= b2,
    ensures
        forall|i: int, j: int|
            0 <= i < scan_tracks(e1, b1).len() && 0 <= j < scan_tracks(e2, b2).len() ==> (
            #[trigger] scan_tracks(e1, b1)[i]).id != (#[trigger] scan_tracks(e2, b2)[j]).id,
{
    lemma_scan_track_ids(e1, b1);
    lemma_scan_track_ids(e2, b2);
}

/// Position of the first track carrying the given id, if any.
pub open spec fn find_index(tracks: Seq<Track>, track_id: u32) -> Option<int>
    decreases tracks.len(),
{
    if tracks.len() == 0 {
        None
    } else if tracks[0].id == track_id {
        Some(0)
    } else {
        match find_index(tracks.drop_first(), track_id) {
            Some(j) => Some(j + 1),
            None => None,
        }
    }
}

/// What `find_index` answers: the position it returns carries the id and
/// nothing before it does; `None` means no track carries it at all.
pub proof fn lemma_find_index_char(tracks: Seq<Track>, track_id: u32)
    ensures
        match find_index(tracks, track_id) {
            Some(i) => 0 <= i < tracks.len() && tracks[i].id == track_id && (forall|j: int|
                0 <= j < i ==> tracks[j].id != track_id),
            None => forall|j: int| 0 <= j < tracks.len() ==> tracks[j].id != track_id,
        },
    decreases tracks.len(),
{
    if tracks.len() > 0 && tracks[0].id != track_id {
        let rest = tracks.drop_first();
        lemma_find_index_char(rest, track_id);
        match find_index(rest, track_id) {
            Some(j) => {
                assert(rest[j] == tracks[j + 1]);
                assert forall|k: int| 0 <= k < j + 1 implies tracks[k].id != track_id by {
                    if k > 0 {
                        assert(rest[k - 1] == tracks[k]);
                    }
                }
            },
            None => {
                assert forall|k: int| 0 <= k < tracks.len() implies tracks[k].id != track_id by {
                    if k > 0 {
                        assert(rest[k - 1] == tracks[k]);
                    }
                }
            },
        }
    }
}

/// A witness pins `find_index` down: a position that carries the id, with
/// none before it, is the one returned.
pub proof fn lemma_find_index_witness(tracks: Seq<Track>, track_id: u32, i: int)
    requires
        0 <= i < tracks.len(),
        tracks[i].id == track_id,
        forall|j: int| 0 <= j < i ==> tracks[j].id != track_id,
    ensures
        find_index(tracks, track_id) == Some(i),
    decreases tracks.len(),
{
    if i > 0 {
        lemma_find_index_witness(tracks.drop_first(), track_id, i - 1);
    }
}

/// Look a track id up in the playlist, as the transport commands do.
pub fn find_track(tracks: &Vec<Track>, track_id: u32) -> (r: Option<usize>)
    ensures
        match r {
            Some(i) => find_index(tracks@, track_id) == Some(i as int),
            None => find_index(tracks@, track_id) is None,
        },
{
    let mut i: usize = 0;
    while i < tracks.len()
        invariant
            i <= tracks@.len(),
            forall|j: int| 0 <= j < i ==> tracks@[j].id != track_id,
        decreases tracks@.len() - i,
    {
        if tracks[i].id == track_id {
            proof {
                lemma_find_index_witness(tracks@, track_id, i as int);
            }
            return Some(i);
        }
        i += 1;
    }
    proof {
        lemma_find_index_char(tracks@, track_id);
        if find_index(tracks@, track_id) is Some {
            let w = find_index(tracks@, track_id)->Some_0;
            assert(tracks@[w].id == track_id);
        }
    }
    None
}

/// One scan pass over the walked entries: filter, read, and number. The
/// result pairs the new catalog with the advanced id counter.
pub fn collect_tracks(entries: &Vec<FileEntry>, next_id: u32) -> (r: (Vec<Track>, u32))
    requires
        next_id + entries@.len() <= u32::MAX,
    ensures
        r.0@ == scan_tracks(entries@, next_id),
        r.1 == next_id + scan_tracks(entries@, next_id).len(),
{
    let mut tracks: Vec<Track> = Vec::new();
    let mut counter: u32 = next_id;
    let mut i: usize = 0;
    proof {
        assert(entries@.subrange(0, 0) =~= Seq::<FileEntry>::empty());
    }
    while i < entries.len()
        invariant
            i <= entries@.len(),
            next_id + entries@.len() <= u32::MAX,
            tracks@ == scan_tracks(entries@.subrange(0, i as int), next_id),
            counter == next_id + tracks@.len(),
        decreases entries@.len() - i,
    {
        proof {
            lemma_scan_tracks_len(entries@.subrange(0, i as int), next_id);
        }
        let e = &entries[i];
        match &e.meta {
            Some(m) => {
                if has_audio_extension(e.filename.as_str()) {
                    let t = Track {
                        id: counter,
                        path: e.path.clone(),
                        filename: e.filename.clone(),
                        title: m.title(),
                        artist: m.artist(),
                        album: m.album(),
                        duration_secs: m.duration(),
                    };
                    tracks.push(t);
                    counter = counter + 1;
                }
            },
            None => {},
        }
        proof {
            assert(entries@.subrange(0, i as int + 1).drop_last() =~= entries@.subrange(
                0,
                i as int,
            ));
            assert(entries@.subrange(0, i as int + 1).last() == entries@[i as int]);
        }
        i += 1;
    }
    proof {
        assert(entries@.subrange(0, entries@.len() as int) =~= entries@);
    }
    (tracks, counter)
}

} // verus!
