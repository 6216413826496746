//! ID3 tags: each field of a track's metadata with the frame it is written to.

use crate::error::Error;
use vstd::prelude::*;

verus! {

/// A value bound to the ID3 frame `id` that holds it.
#[derive(Debug)]
pub struct MetadataTag<T> {
    pub id: String,
    pub value: Option<T>,
}

impl<T> MetadataTag<T> {
    /// The tag for frame `id`, holding `value`.
    pub fn new(id: &str, value: Option<T>) -> (r: Self)
        ensures
            r.id@ == id@,
            r.value == value,
    {
        MetadataTag { id: id.to_owned(), value }
    }
}

/// A track's metadata, each field with its ID3 frame.
#[derive(Debug)]
pub struct Metadata {
    pub title: MetadataTag<String>,
    pub artist: MetadataTag<Vec<String>>,
    pub album: MetadataTag<String>,
    pub album_artist: MetadataTag<Vec<String>>,
    pub year: MetadataTag<String>,
    pub genre: MetadataTag<Vec<String>>,
    pub track_number: MetadataTag<String>,
    pub composer: MetadataTag<Vec<String>>,
    pub isrc: MetadataTag<String>,
    pub artwork: MetadataTag<String>,
}

impl Metadata {
    /// Whether every field is bound to its frame: title TIT2, artist TPE1,
    /// album TALB, album artist TPE2, year TYER, genre TCON, track number
    /// TRCK, composer TCOM, ISRC TSRC, artwork APIC.
    pub open spec fn frames_bound(&self) -> bool {
        &&& self.title.id@ == "TIT2"@
        &&& self.artist.id@ == "TPE1"@
        &&& self.album.id@ == "TALB"@
        &&& self.album_artist.id@ == "TPE2"@
        &&& self.year.id@ == "TYER"@
        &&& self.genre.id@ == "TCON"@
        &&& self.track_number.id@ == "TRCK"@
        &&& self.composer.id@ == "TCOM"@
        &&& self.isrc.id@ == "TSRC"@
        &&& self.artwork.id@ == "APIC"@
    }

    /// Whether every field is empty.
    pub open spec fn all_empty(&self) -> bool {
        &&& self.title.value.is_none()
        &&& self.artist.value.is_none()
        &&& self.album.value.is_none()
        &&& self.album_artist.value.is_none()
        &&& self.year.value.is_none()
        &&& self.genre.value.is_none()
        &&& self.track_number.value.is_none()
        &&& self.composer.value.is_none()
        &&& self.isrc.value.is_none()
        &&& self.artwork.value.is_none()
    }

    /// Metadata with every field bound to its frame and empty.
    pub fn new() -> (r: Self)
        ensures
            r.frames_bound(),
            r.all_empty(),
    {
        Self {
            title: MetadataTag::new("TIT2", None::<String>),
            artist: MetadataTag::new("TPE1", None::<Vec<String>>),
            album: MetadataTag::new("TALB", None::<String>),
            album_artist: MetadataTag::new("TPE2", None::<Vec<String>>),
            year: MetadataTag::new("TYER", None::<String>),
            genre: MetadataTag::new("TCON", None::<Vec<String>>),
            track_number: MetadataTag::new("TRCK", None::<String>),
            composer: MetadataTag::new("TCOM", None::<Vec<String>>),
            isrc: MetadataTag::new("TSRC", None::<String>),
            artwork: MetadataTag::new("APIC", None::<String>),
        }
    }

    /// Metadata read from a JSON text. Only a sample is filled in so far: the
    /// album holds the text itself and the title reads `title example`; every
    /// other field is empty.
    pub fn from_json(json: String) -> (r: Result<Self, Error>)
        ensures
            r.is_ok(),
            r.unwrap().frames_bound(),
            r.unwrap().album.value == Some(json),
            r.unwrap().title.value.is_some() && r.unwrap().title.value.unwrap()@
                == "title example"@,
            r.unwrap().artist.value.is_none(),
            r.unwrap().album_artist.value.is_none(),
            r.unwrap().year.value.is_none(),
            r.unwrap().genre.value.is_none(),
            r.unwrap().track_number.value.is_none(),
            r.unwrap().composer.value.is_none(),
            r.unwrap().isrc.value.is_none(),
            r.unwrap().artwork.value.is_none(),
    {
        let mut data = Metadata::new();
        data.album.value = Some(json.clone());
        data.title.value = Some("title example".to_owned());
        Ok(data)
    }
}

} // verus!
