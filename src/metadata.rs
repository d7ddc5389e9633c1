use vstd::prelude::*;
use vstd::utf8::encode_utf8;
use crate::http::text;
use crate::paths::{parent_of, file_name_of, joined, path_parent, path_file_name, path_join};
use crate::request::bytes_eq;

verus! {

/// The MD5 digest of `data` in lower-case hexadecimal, as `md5::compute` and the
/// digest's `LowerHex` give it.
pub uninterp spec fn md5_hex_of(data: Seq<u8>) -> Seq<char>;

/// Relies on `md5::compute` and `LowerHex` on its digest: two lower-case hex digits
/// for each of the digest's 16 bytes.
#[verifier::external_body]
fn md5_hex(data: &[u8]) -> (r: String)
    ensures
        r@ == md5_hex_of(data@),
        r@.len() == 32,
{
    format!("{:x}", md5::compute(data))
}

/// The identifier of the track stored at `file_path`.
pub open spec fn song_id_of(file_path: Seq<char>) -> Seq<char> {
    md5_hex_of(encode_utf8(file_path))
}

/// One track as the status file describes it. The duration is kept in whole
/// seconds, the fraction cut off.
pub struct MediaMetadata {
    pub song_id: String,
    pub title: String,
    pub artist: String,
    pub album: String,
    pub duration: u32,
    pub file_path: String,
    pub play_status: String,
}

impl MediaMetadata {
    /// The identifier is the one that belongs to the file path.
    pub open spec fn wf(&self) -> bool {
        self.song_id@ == song_id_of(self.file_path@)
    }

    pub fn new(
        title: String,
        artist: String,
        album: String,
        duration: u32,
        file_path: String,
        play_status: String,
    ) -> (r: Self)
        ensures
            r.wf(),
            r.song_id@.len() == 32,
            r.title == title,
            r.artist == artist,
            r.album == album,
            r.duration == duration,
            r.file_path == file_path,
            r.play_status == play_status,
    {
        let song_id = md5_hex(file_path.as_str().as_bytes());
        MediaMetadata { song_id, title, artist, album, duration, file_path, play_status }
    }
}

/// Two tracks read from the same file path carry the same identifier, however
/// often the status file is read again.
pub proof fn lemma_song_id_deterministic(a: MediaMetadata, b: MediaMetadata)
    requires
        a.wf(),
        b.wf(),
        a.file_path@ == b.file_path@,
    ensures
        a.song_id@ == b.song_id@,
{
}

/// `s` without one leading byte-order mark (EF BB BF), where it has one.
pub open spec fn without_bom(s: Seq<u8>) -> Seq<u8> {
    if s.len() >= 3 && s[0] == 0xEF && s[1] == 0xBB && s[2] == 0xBF {
        s.subrange(3, s.len() as int)
    } else {
        s
    }
}

/// Drops a single leading UTF-8 byte-order mark.
pub fn strip_bom(s: &[u8]) -> (r: Vec<u8>)
    ensures
        r@ == without_bom(s@),
{
    let start: usize = if s.len() >= 3 && s[0] == 0xEF && s[1] == 0xBB && s[2] == 0xBF {
        3
    } else {
        0
    };
    let mut out: Vec<u8> = Vec::new();
    let mut i: usize = start;
    while i < s.len()
        invariant
            start <= i <= s@.len(),
            out@ == s@.subrange(start as int, i as int),
        decreases s@.len() - i,
    {
        out.push(s[i]);
        proof {
            assert(s@.subrange(start as int, i as int + 1) == s@.subrange(start as int, i as int).push(
                s@[i as int],
            ));
        }
        i = i + 1;
    }
    proof {
        assert(s@.subrange(0, s@.len() as int) == s@);
    }
    out
}

/// Whether a play status keeps a track in the store.
pub open spec fn is_active_status(status: Seq<char>) -> bool {
    encode_utf8(status) == text("playing") || encode_utf8(status) == text("paused")
}

/// What the store holds after reading the status file: the decoded track while it
/// is playing or paused, and nothing when it is in any other state or the file
/// could not be read or decoded.
pub open spec fn stored(decoded: Option<MediaMetadata>) -> Option<MediaMetadata> {
    match decoded {
        Some(m) => if is_active_status(m.play_status@) {
            Some(m)
        } else {
            None
        },
        None => None,
    }
}

pub fn retain_active(decoded: Option<MediaMetadata>) -> (r: Option<MediaMetadata>)
    ensures
        r == stored(decoded),
{
    match decoded {
        Some(m) => {
            let s = m.play_status.as_str().as_bytes();
            if bytes_eq(s, "playing".as_bytes()) || bytes_eq(s, "paused".as_bytes()) {
                Some(m)
            } else {
                None
            }
        },
        None => None,
    }
}

/// A status other than playing or paused empties the store, whatever else was read.
pub proof fn lemma_inactive_status_empties(m: MediaMetadata)
    requires
        !is_active_status(m.play_status@),
    ensures
        stored(Some(m)) is None,
{
}

/// Why no directory to search for album art could be found.
pub struct AlbumArtError {
    pub reason: String,
}

/// Whether a directory name marks a disc of a multi-disc album: it begins with `CD`.
pub open spec fn is_disc_dir(name: Seq<char>) -> bool {
    let b = encode_utf8(name);
    b.len() >= 2 && b[0] == 67 && b[1] == 68
}

/// The directory searched for album art: the track's directory, or the one above
/// it where the track's directory is a disc folder.
pub open spec fn candidate_dir_of(file_path: Seq<char>) -> Option<Seq<char>> {
    match parent_of(file_path) {
        None => None,
        Some(d) => match file_name_of(d) {
            None => None,
            Some(n) => if is_disc_dir(n) {
                parent_of(d)
            } else {
                Some(d)
            },
        },
    }
}

fn no_parent() -> (r: AlbumArtError) {
    AlbumArtError { reason: "directory has no parent".to_owned() }
}

pub fn find_album_art_candidate_dir(song_file_path: &str) -> (r: Result<String, AlbumArtError>)
    ensures
        r is Ok <==> candidate_dir_of(song_file_path@) is Some,
        r matches Ok(d) ==> candidate_dir_of(song_file_path@) == Some(d@),
{
    let dir = match path_parent(song_file_path) {
        Some(d) => d,
        None => return Err(no_parent()),
    };
    let name = match path_file_name(dir.as_str()) {
        Some(n) => n,
        None => {
            return Err(AlbumArtError { reason: "directory has no name".to_owned() });
        },
    };
    let b = name.as_str().as_bytes();
    if b.len() >= 2 && b[0] == 67 && b[1] == 68 {
        match path_parent(dir.as_str()) {
            Some(up) => Ok(up),
            None => Err(no_parent()),
        }
    } else {
        Ok(dir)
    }
}

/// The file names looked for in the album directory, best first.
pub open spec fn art_file_name(i: int) -> &'static str {
    if i == 0 {
        "cover.jpg"
    } else if i == 1 {
        "folder.jpg"
    } else if i == 2 {
        "front.jpg"
    } else if i == 3 {
        "cover.png"
    } else if i == 4 {
        "folder.png"
    } else {
        "front.png"
    }
}

/// The number of file names looked for.
pub const ART_FILE_COUNT: usize = 6;

/// The paths at which album art is looked for in `dir`, best first.
pub fn album_art_candidates(dir: &str) -> (r: Vec<String>)
    ensures
        r@.len() == ART_FILE_COUNT,
        forall|i: int| 0 <= i < r@.len() ==> #[trigger] r@[i]@ == joined(dir@, art_file_name(i)@),
{
    let mut r: Vec<String> = Vec::new();
    r.push(path_join(dir, "cover.jpg"));
    r.push(path_join(dir, "folder.jpg"));
    r.push(path_join(dir, "front.jpg"));
    r.push(path_join(dir, "cover.png"));
    r.push(path_join(dir, "folder.png"));
    r.push(path_join(dir, "front.png"));
    r
}

} // verus!
