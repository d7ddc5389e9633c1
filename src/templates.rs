use vstd::prelude::*;
use crate::metadata::MediaMetadata;

verus! {

/// Parameters of the overlay's page.
pub struct NowPlayingMainTemplate {
    pub app_width: u64,
    pub app_height: u64,
}

/// The overlay's script takes no parameters.
pub struct NowPlayingMainJSTemplate {}

/// The overlay's stylesheet takes no parameters.
pub struct NowPlayingMainCSSTemplate {}

/// The fields of the metadata document.
pub struct MetadataJSONTemplate {
    pub status: String,
    pub song_id: String,
    pub title: String,
    pub artist: String,
    pub album: String,
    pub duration: u32,
}

impl MetadataJSONTemplate {
    /// The document for a track.
    pub fn from(metadata: &MediaMetadata) -> (r: Self)
        ensures
            r.status@ == metadata.play_status@,
            r.song_id@ == metadata.song_id@,
            r.title@ == metadata.title@,
            r.artist@ == metadata.artist@,
            r.album@ == metadata.album@,
            r.duration == metadata.duration,
    {
        MetadataJSONTemplate {
            status: metadata.play_status.clone(),
            song_id: metadata.song_id.clone(),
            title: metadata.title.clone(),
            artist: metadata.artist.clone(),
            album: metadata.album.clone(),
            duration: metadata.duration,
        }
    }

    /// The document when no track is active: status `none`, empty text, no duration.
    pub fn none() -> (r: Self)
        ensures
            r.status@ == "none"@,
            r.song_id@.len() == 0,
            r.title@.len() == 0,
            r.artist@.len() == 0,
            r.album@.len() == 0,
            r.duration == 0,
    {
        MetadataJSONTemplate {
            status: "none".to_owned(),
            song_id: String::new(),
            title: String::new(),
            artist: String::new(),
            album: String::new(),
            duration: 0,
        }
    }
}

} // verus!
