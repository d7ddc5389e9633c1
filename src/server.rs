use vstd::prelude::*;
use vstd::utf8::encode_utf8;
use crate::http::{text, HttpContentType, HttpResponse};
use crate::metadata::{
    album_art_candidates, art_file_name, candidate_dir_of, find_album_art_candidate_dir,
    retain_active, stored, MediaMetadata, ART_FILE_COUNT,
};
use crate::paths::{extension_of, joined, path_extension};
use crate::request::bytes_eq;
use crate::templates::{MetadataJSONTemplate, NowPlayingMainTemplate};

verus! {

/// The media type of an image with extension `ext`; `None` for one that is not served.
pub open spec fn image_type_of(ext: Option<Seq<char>>) -> Option<HttpContentType> {
    match ext {
        Some(e) => if encode_utf8(e) == text("png") {
            Some(HttpContentType::ImagePng)
        } else if encode_utf8(e) == text("jpg") || encode_utf8(e) == text("jpeg") {
            Some(HttpContentType::ImageJpeg)
        } else if encode_utf8(e) == text("gif") {
            Some(HttpContentType::ImageGif)
        } else if encode_utf8(e) == text("webp") {
            Some(HttpContentType::ImageWebp)
        } else {
            None
        },
        None => None,
    }
}

impl HttpResponse {
    /// A 200 response carrying the bytes read from the image at `img_path`, typed by
    /// its extension; an error where the extension is not one of an image served.
    pub fn from_image_file(img_path: &str, image_data: Vec<u8>) -> (r: Result<Self, String>)
        ensures
            r is Ok <==> image_type_of(extension_of(img_path@)) is Some,
            r matches Ok(resp) ==> resp.status_code == 200 && resp.body() == Some(image_data@)
                && resp.content_type == image_type_of(extension_of(img_path@))
                && is_image_response(resp),
    {
        let content_type = match path_extension(img_path) {
            Some(ext) => {
                let e = ext.as_str().as_bytes();
                if bytes_eq(e, "png".as_bytes()) {
                    HttpContentType::ImagePng
                } else if bytes_eq(e, "jpg".as_bytes()) || bytes_eq(e, "jpeg".as_bytes()) {
                    HttpContentType::ImageJpeg
                } else if bytes_eq(e, "gif".as_bytes()) {
                    HttpContentType::ImageGif
                } else if bytes_eq(e, "webp".as_bytes()) {
                    HttpContentType::ImageWebp
                } else {
                    return Err("Unknown image extension".to_owned());
                }
            },
            None => return Err("Unknown image extension".to_owned()),
        };
        Ok(HttpResponse::new(200, image_data, content_type))
    }
}

/// The first of the looked-for names, best first, whose file is present in `dir`.
pub open spec fn first_present_art(dir: Seq<char>, present: Seq<bool>, from: int) -> Option<
    Seq<char>,
>
    decreases ART_FILE_COUNT - from,
{
    if from < 0 || from >= ART_FILE_COUNT {
        None
    } else if present[from] {
        Some(joined(dir, art_file_name(from)@))
    } else {
        first_present_art(dir, present, from + 1)
    }
}

/// The album art file for a track: `present[i]` tells whether the `i`-th looked-for
/// file exists in the track's album directory.
pub open spec fn album_art_path_of(file_path: Seq<char>, present: Seq<bool>) -> Option<Seq<char>> {
    match candidate_dir_of(file_path) {
        Some(d) => first_present_art(d, present, 0),
        None => None,
    }
}

impl MediaMetadata {
    /// The paths at which album art is looked for, best first; `None` where no
    /// album directory can be found.
    pub fn album_art_candidates(&self) -> (r: Option<Vec<String>>)
        ensures
            r is Some <==> candidate_dir_of(self.file_path@) is Some,
            r matches Some(v) ==> v@.len() == ART_FILE_COUNT && forall|i: int|
                0 <= i < v@.len() ==> #[trigger] v@[i]@ == joined(
                    candidate_dir_of(self.file_path@).unwrap(),
                    art_file_name(i)@,
                ),
    {
        match find_album_art_candidate_dir(self.file_path.as_str()) {
            Ok(dir) => Some(album_art_candidates(dir.as_str())),
            Err(_) => None,
        }
    }

    /// The best album art file present, given for each looked-for name whether its
    /// file exists.
    pub fn find_album_art_path(&self, present: &[bool]) -> (r: Option<String>)
        requires
            present@.len() == ART_FILE_COUNT,
        ensures
            match r {
                Some(p) => album_art_path_of(self.file_path@, present@) == Some(p@),
                None => album_art_path_of(self.file_path@, present@) is None,
            },
    {
        let candidates = match self.album_art_candidates() {
            Some(c) => c,
            None => return None,
        };
        let ghost dir = candidate_dir_of(self.file_path@).unwrap();
        let mut i: usize = 0;
        while i < ART_FILE_COUNT
            invariant
                0 <= i <= ART_FILE_COUNT,
                candidates@.len() == ART_FILE_COUNT,
                present@.len() == ART_FILE_COUNT,
                forall|k: int|
                    0 <= k < ART_FILE_COUNT ==> #[trigger] candidates@[k]@ == joined(
                        dir,
                        art_file_name(k)@,
                    ),
                album_art_path_of(self.file_path@, present@) == first_present_art(
                    dir,
                    present@,
                    i as int,
                ),
            decreases ART_FILE_COUNT - i,
        {
            if present[i] {
                proof {
                    assert(first_present_art(dir, present@, i as int) == Some(
                        joined(dir, art_file_name(i as int)@),
                    ));
                }
                let found: String = candidates[i].clone();
                return Some(found);
            }
            i = i + 1;
        }
        None
    }
}

/// A trouble-free response: 200 with `body` as `content_type`.
pub open spec fn ok_response(r: HttpResponse, body: Seq<u8>, content_type: HttpContentType) -> bool {
    r.status_code == 200 && r.body() == Some(body) && r.content_type == Some(content_type)
}

/// The response for a page that a template renders: the rendered text, or a
/// server error where rendering failed.
pub fn serve_rendered(rendered: Result<String, String>, content_type: HttpContentType) -> (r:
    HttpResponse)
    ensures
        rendered matches Ok(t) ==> ok_response(r, encode_utf8(t@), content_type),
        rendered is Err ==> r.status_code == 500 && r.content_type == Some(HttpContentType::TextPlain)
            && r.body() == Some(text("Internal Server Error: ") + text("Template error")),
{
    match rendered {
        Ok(t) => {
            let mut body: Vec<u8> = Vec::new();
            crate::http::push_text(&mut body, t.as_str());
            HttpResponse::new(200, body, content_type)
        },
        Err(_) => HttpResponse::server_error_with_message("Template error"),
    }
}

/// Whether a media type is one of an image.
pub open spec fn is_image_type(t: HttpContentType) -> bool {
    t == HttpContentType::ImagePng || t == HttpContentType::ImageJpeg || t
        == HttpContentType::ImageGif || t == HttpContentType::ImageWebp
}

/// Whether a response is a 200 that carries an image.
pub open spec fn is_image_response(r: HttpResponse) -> bool {
    r.status_code == 200 && r.content is Some && (r.content_type matches Some(t) && is_image_type(
        t,
    ))
}

/// Whether a looked-up album art is an image response that can be served as it is.
pub open spec fn usable_art(art: Result<HttpResponse, String>) -> bool {
    match art {
        Ok(a) => is_image_response(a),
        Err(_) => false,
    }
}

/// The album art response: the image found, or the bundled default image as PNG
/// where none could be found or read, or what was found is no image response.
/// Either way the client receives a 200 with an image.
pub fn serve_album_art(art: Result<HttpResponse, String>, default_art: Vec<u8>) -> (r: HttpResponse)
    ensures
        is_image_response(r),
        art matches Ok(a) ==> (is_image_response(a) ==> r == a),
        !usable_art(art) ==> ok_response(
            r,
            default_art@,
            HttpContentType::ImagePng,
        ),
{
    match art {
        Ok(a) => {
            let image = a.status_code == 200 && a.content.is_some() && match a.content_type {
                Some(HttpContentType::ImagePng) => true,
                Some(HttpContentType::ImageJpeg) => true,
                Some(HttpContentType::ImageGif) => true,
                Some(HttpContentType::ImageWebp) => true,
                _ => false,
            };
            if image {
                a
            } else {
                HttpResponse::new(200, default_art, HttpContentType::ImagePng)
            }
        },
        Err(_) => HttpResponse::new(200, default_art, HttpContentType::ImagePng),
    }
}

/// The state of the server: where the status file lies, the track it last
/// described while playing or paused, and the overlay's size.
pub struct NowPlayingServer {
    pub json_source_path: String,
    pub currently_playing: Option<MediaMetadata>,
    pub app_width: u64,
    pub app_height: u64,
}

impl NowPlayingServer {
    /// Every stored track carries the identifier of its file path and is playing or paused.
    pub open spec fn wf(&self) -> bool {
        match self.currently_playing {
            Some(m) => m.wf() && crate::metadata::is_active_status(m.play_status@),
            None => true,
        }
    }

    /// A server whose store holds what the first read of the status file gave.
    pub fn new(
        json_source_path: String,
        app_width: u64,
        app_height: u64,
        decoded: Option<MediaMetadata>,
    ) -> (r: Self)
        requires
            decoded matches Some(m) ==> m.wf(),
        ensures
            r.wf(),
            r.json_source_path == json_source_path,
            r.app_width == app_width,
            r.app_height == app_height,
            r.currently_playing == stored(decoded),
    {
        NowPlayingServer {
            json_source_path,
            currently_playing: retain_active(decoded),
            app_width,
            app_height,
        }
    }

    /// Replaces the store with what a new read of the status file gave.
    pub fn update_current_playing(&mut self, decoded: Option<MediaMetadata>)
        requires
            decoded matches Some(m) ==> m.wf(),
        ensures
            final(self).wf(),
            final(self).currently_playing == stored(decoded),
            final(self).json_source_path == old(self).json_source_path,
            final(self).app_width == old(self).app_width,
            final(self).app_height == old(self).app_height,
    {
        self.currently_playing = retain_active(decoded);
    }

    pub fn serve_not_found(&self) -> (r: HttpResponse)
        ensures
            r.status_code == 404,
            r.content_type == Some(HttpContentType::TextPlain),
            r.body() == Some(text("404 Not Found")),
    {
        let mut body: Vec<u8> = Vec::new();
        crate::http::push_text(&mut body, "404 Not Found");
        HttpResponse::new(404, body, HttpContentType::TextPlain)
    }

    /// Refreshes the store and answers with no content.
    pub fn serve_update(&mut self, decoded: Option<MediaMetadata>) -> (r: HttpResponse)
        requires
            decoded matches Some(m) ==> m.wf(),
        ensures
            final(self).wf(),
            final(self).currently_playing == stored(decoded),
            final(self).json_source_path == old(self).json_source_path,
            final(self).app_width == old(self).app_width,
            final(self).app_height == old(self).app_height,
            r.status_code == 204,
            r.content is None,
            r.content_type is None,
    {
        self.update_current_playing(decoded);
        HttpResponse::new_without_content(204)
    }

    /// The parameters of the overlay page.
    pub fn main_page_template(&self) -> (r: NowPlayingMainTemplate)
        ensures
            r.app_width == self.app_width,
            r.app_height == self.app_height,
    {
        NowPlayingMainTemplate { app_width: self.app_width, app_height: self.app_height }
    }

    /// The fields of the metadata document for the stored track, or the empty
    /// document with status `none`.
    pub fn metadata_template(&self) -> (r: MetadataJSONTemplate)
        ensures
            match self.currently_playing {
                Some(m) => r.status@ == m.play_status@ && r.song_id@ == m.song_id@ && r.title@
                    == m.title@ && r.artist@ == m.artist@ && r.album@ == m.album@ && r.duration
                    == m.duration,
                None => r.status@ == "none"@ && r.song_id@.len() == 0 && r.title@.len() == 0
                    && r.artist@.len() == 0 && r.album@.len() == 0 && r.duration == 0,
            },
    {
        match &self.currently_playing {
            Some(m) => MetadataJSONTemplate::from(m),
            None => MetadataJSONTemplate::none(),
        }
    }

    /// The album art file to serve, given for each looked-for name whether its file
    /// exists; `None` when no track is active or none is present.
    pub fn album_art_path(&self, present: &[bool]) -> (r: Option<String>)
        requires
            present@.len() == ART_FILE_COUNT,
        ensures
            match self.currently_playing {
                Some(m) => match r {
                    Some(p) => album_art_path_of(m.file_path@, present@) == Some(p@),
                    None => album_art_path_of(m.file_path@, present@) is None,
                },
                None => r is None,
            },
    {
        match &self.currently_playing {
            Some(m) => m.find_album_art_path(present),
            None => None,
        }
    }
}


/// The best name present wins: a file is chosen exactly when every better-ranked
/// name is missing.
pub proof fn lemma_art_priority(dir: Seq<char>, present: Seq<bool>, i: int)
    requires
        present.len() == ART_FILE_COUNT,
        0 <= i < ART_FILE_COUNT,
        present[i],
        forall|k: int| 0 <= k < i ==> !present[k],
    ensures
        first_present_art(dir, present, 0) == Some(joined(dir, art_file_name(i)@)),
{
    lemma_art_priority_from(dir, present, i, 0);
}

proof fn lemma_art_priority_from(dir: Seq<char>, present: Seq<bool>, i: int, from: int)
    requires
        present.len() == ART_FILE_COUNT,
        0 <= from <= i < ART_FILE_COUNT,
        present[i],
        forall|k: int| 0 <= k < i ==> !present[k],
    ensures
        first_present_art(dir, present, from) == Some(joined(dir, art_file_name(i)@)),
    decreases i - from,
{
    if from < i {
        lemma_art_priority_from(dir, present, i, from + 1);
    }
}

/// A track in a folder whose name begins with `CD` has its art looked for one
/// directory up, in the album's folder.
pub proof fn lemma_disc_folder_uses_album_dir(
    file_path: Seq<char>,
    disc_dir: Seq<char>,
    disc_name: Seq<char>,
    album_dir: Seq<char>,
)
    requires
        crate::paths::parent_of(file_path) == Some(disc_dir),
        crate::paths::file_name_of(disc_dir) == Some(disc_name),
        crate::metadata::is_disc_dir(disc_name),
        crate::paths::parent_of(disc_dir) == Some(album_dir),
    ensures
        candidate_dir_of(file_path) == Some(album_dir),
{
}

} // verus!
