use now_playing::assets::load_default_album_art;
use now_playing::http::{HttpContentType, HttpResponse};
use now_playing::metadata::MediaMetadata;
use now_playing::server::{serve_album_art, serve_rendered, NowPlayingServer};

fn track(path: &str, status: &str) -> MediaMetadata {
    MediaMetadata::new(
        "Song".to_string(),
        "Band".to_string(),
        "Record".to_string(),
        187,
        path.to_string(),
        status.to_string(),
    )
}

#[test]
fn image_types_follow_extensions() {
    let cases = [
        ("/a/cover.png", HttpContentType::ImagePng),
        ("/a/cover.jpg", HttpContentType::ImageJpeg),
        ("/a/cover.jpeg", HttpContentType::ImageJpeg),
        ("/a/cover.gif", HttpContentType::ImageGif),
        ("/a/cover.webp", HttpContentType::ImageWebp),
    ];
    for (path, t) in cases {
        let r = HttpResponse::from_image_file(path, vec![1, 2, 3]).ok().unwrap();
        assert_eq!(r.status_code, 200);
        assert_eq!(r.content_type, Some(t));
        assert_eq!(r.content, Some(vec![1, 2, 3]));
    }
}

#[test]
fn unknown_image_extension_is_an_error() {
    assert!(HttpResponse::from_image_file("/a/cover.bmp", vec![1]).is_err());
    assert!(HttpResponse::from_image_file("/a/cover.PNG", vec![1]).is_err());
    assert!(HttpResponse::from_image_file("/a/cover", vec![1]).is_err());
}

#[test]
fn album_art_falls_back_to_default() {
    let r = serve_album_art(Err("missing".to_string()), vec![9, 8, 7]);
    assert_eq!(r.status_code, 200);
    assert_eq!(r.content, Some(vec![9, 8, 7]));
    assert_eq!(r.content_type, Some(HttpContentType::ImagePng));
    let found = HttpResponse::new(200, vec![1], HttpContentType::ImageJpeg);
    let r = serve_album_art(Ok(found), vec![9]);
    assert_eq!(r.content, Some(vec![1]));
    assert_eq!(r.content_type, Some(HttpContentType::ImageJpeg));
}

#[test]
fn no_track_gets_default_art() {
    let server = NowPlayingServer::new("/tmp/np.json".to_string(), 900, 200, None);
    assert_eq!(server.album_art_path(&[true; 6]), None);
    let art = load_default_album_art(Some(vec![0x89, b'P', b'N', b'G']));
    let r = serve_album_art(Err("no track".to_string()), art);
    let out = r.response_string();
    let head = b"HTTP/1.1 200 OK\r\nContent-Type: image/png\r\nContent-Length: 4\r\n\r\n";
    assert_eq!(&out[..head.len()], &head[..]);
    assert_eq!(&out[head.len()..], &[0x89, b'P', b'N', b'G'][..]);
}

#[test]
fn active_track_art_path() {
    let server = NowPlayingServer::new(
        "/tmp/np.json".to_string(),
        900,
        200,
        Some(track("/m/Album/CD1/t.flac", "playing")),
    );
    let present = [false, false, false, false, true, false];
    assert_eq!(server.album_art_path(&present), Some("/m/Album/folder.png".to_string()));
}

#[test]
fn stopped_track_gives_empty_metadata() {
    let server =
        NowPlayingServer::new("/tmp/np.json".to_string(), 900, 200, Some(track("/m/t.flac", "stopped")));
    assert!(server.currently_playing.is_none());
    let t = server.metadata_template();
    assert_eq!(t.status, "none");
    assert_eq!(t.song_id, "");
    assert_eq!(t.title, "");
    assert_eq!(t.artist, "");
    assert_eq!(t.album, "");
    assert_eq!(t.duration, 0);
}

#[test]
fn playing_track_fills_metadata() {
    let m = track("/music/Album/track.flac", "playing");
    let server = NowPlayingServer::new("/tmp/np.json".to_string(), 900, 200, Some(m));
    let t = server.metadata_template();
    assert_eq!(t.status, "playing");
    assert_eq!(t.song_id, "bb39bbfff92fd2e1d842e748062112ce");
    assert_eq!(t.title, "Song");
    assert_eq!(t.artist, "Band");
    assert_eq!(t.album, "Record");
    assert_eq!(t.duration, 187);
}

#[test]
fn update_replaces_store_and_answers_no_content() {
    let mut server =
        NowPlayingServer::new("/tmp/np.json".to_string(), 900, 200, Some(track("/m/t.flac", "paused")));
    assert!(server.currently_playing.is_some());
    let first = server.metadata_template().song_id;
    let r = server.serve_update(Some(track("/m/t.flac", "playing")));
    assert_eq!(String::from_utf8(r.response_string()).unwrap(), "HTTP/1.1 204 No Content\r\n\r\n");
    assert_eq!(server.metadata_template().song_id, first);
    server.serve_update(None);
    assert!(server.currently_playing.is_none());
    assert_eq!(server.json_source_path, "/tmp/np.json");
}

#[test]
fn not_found_is_plain_text() {
    let server = NowPlayingServer::new("/tmp/np.json".to_string(), 900, 200, None);
    let r = server.serve_not_found();
    assert_eq!(
        String::from_utf8(r.response_string()).unwrap(),
        "HTTP/1.1 404 Not Found\r\nContent-Type: text/plain\r\nContent-Length: 13\r\n\r\n404 Not Found"
    );
}

#[test]
fn rendered_pages() {
    let r = serve_rendered(Ok("<p>x</p>".to_string()), HttpContentType::TextHtml);
    assert_eq!(r.status_code, 200);
    assert_eq!(r.content, Some(b"<p>x</p>".to_vec()));
    assert_eq!(r.content_type, Some(HttpContentType::TextHtml));
    let r = serve_rendered(Err("boom".to_string()), HttpContentType::TextCSS);
    assert_eq!(r.status_code, 500);
    assert_eq!(r.content, Some(b"Internal Server Error: Template error".to_vec()));
    assert_eq!(r.content_type, Some(HttpContentType::TextPlain));
}

#[test]
fn main_page_parameters() {
    let server = NowPlayingServer::new("/tmp/np.json".to_string(), 640, 120, None);
    let t = server.main_page_template();
    assert_eq!(t.app_width, 640);
    assert_eq!(t.app_height, 120);
}

#[test]
fn default_art_is_the_embedded_asset() {
    assert_eq!(load_default_album_art(Some(vec![1, 2])), vec![1, 2]);
}

#[test]
fn non_image_art_falls_back_to_default() {
    let text = HttpResponse::new(200, vec![1], HttpContentType::TextPlain);
    let r = serve_album_art(Ok(text), vec![5]);
    assert_eq!(r.status_code, 200);
    assert_eq!(r.content, Some(vec![5]));
    assert_eq!(r.content_type, Some(HttpContentType::ImagePng));
    let not_ok = HttpResponse::new(404, vec![1], HttpContentType::ImageGif);
    let r = serve_album_art(Ok(not_ok), vec![6]);
    assert_eq!(r.content, Some(vec![6]));
    let empty = HttpResponse::new_without_content(200);
    let r = serve_album_art(Ok(empty), vec![7]);
    assert_eq!(r.content, Some(vec![7]));
}

#[test]
fn song_id_has_thirty_two_hex_digits() {
    let m = track("/any/where.mp3", "playing");
    assert_eq!(m.song_id.len(), 32);
    assert!(m.song_id.chars().all(|c| c.is_ascii_hexdigit() && !c.is_ascii_uppercase()));
}

#[test]
fn extension_follows_the_last_dot_of_the_name() {
    let r = HttpResponse::from_image_file("/a/cover.tar.png", vec![1]).ok().unwrap();
    assert_eq!(r.content_type, Some(HttpContentType::ImagePng));
    assert!(HttpResponse::from_image_file("/a/.png", vec![1]).is_err());
    assert!(HttpResponse::from_image_file("/a/cover.", vec![1]).is_err());
    assert!(HttpResponse::from_image_file("/a.png/cover", vec![1]).is_err());
}
