//! The compact configuration layout, with fewer metadata fields.

use crate::cli::{join_comma, join_values, views, Parameter};
use crate::tags::{inserted, TagMap};
use vstd::prelude::*;

verus! {

/// The metadata section of a configuration in the compact layout.
#[derive(Debug)]
pub struct Metadata {
    pub title: Option<String>,
    pub artists: Option<Vec<String>>,
    pub album: Option<String>,
    pub album_artists: Option<Vec<String>>,
    pub year: Option<String>,
    pub genres: Option<Vec<String>>,
    pub track_number: Option<String>,
    pub composer: Option<Vec<String>>,
}

/// A configuration in the compact layout.
#[derive(Debug)]
pub struct ConfigJson {
    pub audio_url: String,
    pub cover_url: String,
    pub metadata: Metadata,
}

/// The items of `values` joined with `", "`; `None` for an empty list.
pub fn convert_vector_to_string(values: Vec<String>) -> (r: Option<String>)
    ensures
        values@.len() == 0 ==> r.is_none(),
        values@.len() > 0 ==> r.is_some() && r.unwrap()@ == join_comma(views(values@)),
{
    if values.len() == 0 {
        return None;
    }
    Some(join_values(&values))
}

/// `m` with `name` set to `text` when there is a text, even an empty one.
pub open spec fn set_some(m: Seq<(Seq<char>, Seq<char>)>, name: Seq<char>, text: Option<Seq<char>>) -> Seq<
    (Seq<char>, Seq<char>),
> {
    match text {
        Some(x) => inserted(m, name, x),
        None => m,
    }
}

/// The text of a string field.
pub open spec fn single(v: Option<String>) -> Option<Seq<char>> {
    match v {
        Some(s) => Some(s@),
        None => None,
    }
}

/// The text of a list field: its items joined with `", "`, if it is present
/// and not empty.
pub open spec fn joined(v: Option<Vec<String>>) -> Option<Seq<char>> {
    match v {
        Some(l) => if l@.len() == 0 {
            None
        } else {
            Some(join_comma(views(l@)))
        },
        None => None,
    }
}

/// The tags that metadata in the compact layout gives, in this order: title,
/// artist, album, album_artist, year, genres, track_number, composer.
pub open spec fn config_tags(md: Metadata) -> Seq<(Seq<char>, Seq<char>)> {
    let m = Seq::empty();
    let m = set_some(m, "title"@, single(md.title));
    let m = set_some(m, "artist"@, joined(md.artists));
    let m = set_some(m, "album"@, single(md.album));
    let m = set_some(m, "album_artist"@, joined(md.album_artists));
    let m = set_some(m, "year"@, single(md.year));
    let m = set_some(m, "genres"@, joined(md.genres));
    let m = set_some(m, "track_number"@, single(md.track_number));
    let m = set_some(m, "composer"@, joined(md.composer));
    m
}

/// Sets `name` to the string, if there is one.
fn set_single(m: &mut TagMap, name: &str, v: Option<String>)
    requires
        old(m).wf(),
    ensures
        final(m).wf(),
        final(m)@ == set_some(old(m)@, name@, single(v)),
{
    match v {
        Some(s) => m.insert(name.to_owned(), s),
        None => {},
    }
}

/// Sets `name` to the joined list, if there is a non-empty one.
fn set_joined(m: &mut TagMap, name: &str, v: Option<Vec<String>>)
    requires
        old(m).wf(),
    ensures
        final(m).wf(),
        final(m)@ == set_some(old(m)@, name@, joined(v)),
{
    match v {
        Some(l) => match convert_vector_to_string(l) {
            Some(s) => m.insert(name.to_owned(), s),
            None => {},
        },
        None => {},
    }
}

impl ConfigJson {
    /// The job that the configuration describes: its URLs, its tags (see
    /// [`config_tags`]), no output path yet and no debug output.
    pub fn into(self) -> (r: Parameter)
        ensures
            r.wf(),
            r.audio_url@ == self.audio_url@,
            r.cover_url.is_some() && r.cover_url.unwrap()@ == self.cover_url@,
            r.output@.len() == 0,
            !r.debug,
            r.metadata.is_some() && r.metadata.unwrap()@ == config_tags(self.metadata),
    {
        let mut m = TagMap::new();
        let source = self.metadata;
        set_single(&mut m, "title", source.title);
        set_joined(&mut m, "artist", source.artists);
        set_single(&mut m, "album", source.album);
        set_joined(&mut m, "album_artist", source.album_artists);
        set_single(&mut m, "year", source.year);
        set_joined(&mut m, "genres", source.genres);
        set_single(&mut m, "track_number", source.track_number);
        set_joined(&mut m, "composer", source.composer);
        Parameter {
            audio_url: self.audio_url,
            cover_url: Some(self.cover_url),
            output: String::new(),
            debug: false,
            metadata: Some(m),
        }
    }
}

} // verus!
