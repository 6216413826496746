//! The job's parameters, and the mapping of a configuration's metadata to
//! container tags.

pub mod config_parser;

use crate::tags::{inserted, lookup, TagMap};
use vstd::prelude::*;

verus! {

/// `items` joined with `", "` between consecutive items.
pub open spec fn join_comma(items: Seq<Seq<char>>) -> Seq<char>
    decreases items.len(),
{
    if items.len() == 0 {
        Seq::empty()
    } else if items.len() == 1 {
        items[0]
    } else {
        join_comma(items.drop_last()) + seq![',', ' '] + items.last()
    }
}

/// The views of the strings of `v`.
pub open spec fn views(v: Seq<String>) -> Seq<Seq<char>> {
    v.map_values(|s: String| s@)
}

/// The values of a non-empty list, joined with `", "`.
pub fn join_values(values: &Vec<String>) -> (r: String)
    requires
        values@.len() > 0,
    ensures
        r@ == join_comma(views(values@)),
{
    let mut out = values[0].clone();
    let mut i: usize = 1;
    proof {
        assert(views(values@).subrange(0, 1) =~= seq![values@[0]@]);
    }
    while i < values.len()
        invariant
            1 <= i <= values@.len(),
            out@ == join_comma(views(values@).subrange(0, i as int)),
        decreases values.len() - i,
    {
        let ghost prev = out@;
        out.append(", ");
        out.append(values[i].as_str());
        proof {
            reveal_strlit(", ");
            let sub = views(values@).subrange(0, i + 1);
            assert(sub.drop_last() =~= views(values@).subrange(0, i as int));
            assert(sub.last() == values@[i as int]@);
            assert(out@ =~= prev + seq![',', ' '] + values@[i as int]@);
        }
        i = i + 1;
    }
    proof {
        assert(views(values@).subrange(0, values@.len() as int) =~= views(values@));
    }
    out
}

/// A metadata field that may give a tag value.
pub trait TagValue {
    /// The text of the tag, if the field gives one.
    spec fn text(&self) -> Option<Seq<char>>;

    /// The text of the tag, if the field gives one.
    fn to_string(&self) -> (r: Option<String>)
        ensures
            r.is_some() == self.text().is_some(),
            r.is_some() ==> r.unwrap()@ == self.text().unwrap(),
    ;
}

impl TagValue for Option<String> {
    /// A present string is the tag's text.
    open spec fn text(&self) -> Option<Seq<char>> {
        match self {
            Some(s) => Some(s@),
            None => None,
        }
    }

    fn to_string(&self) -> (r: Option<String>) {
        match self {
            Some(s) => Some(s.clone()),
            None => None,
        }
    }
}

impl TagValue for Option<Vec<String>> {
    /// A present, non-empty list gives its items joined with `", "`.
    open spec fn text(&self) -> Option<Seq<char>> {
        match self {
            Some(v) => if v@.len() == 0 {
                None
            } else {
                Some(join_comma(views(v@)))
            },
            None => None,
        }
    }

    fn to_string(&self) -> (r: Option<String>) {
        match self {
            Some(v) => {
                if v.len() == 0 {
                    None
                } else {
                    Some(join_values(v))
                }
            },
            None => None,
        }
    }
}

/// `m` after adding the tag `name`: set to `text` when there is a text and
/// it is not empty, unchanged otherwise.
pub open spec fn added(m: Seq<(Seq<char>, Seq<char>)>, name: Seq<char>, text: Option<Seq<char>>) -> Seq<
    (Seq<char>, Seq<char>),
> {
    match text {
        Some(x) => if x.len() > 0 {
            inserted(m, name, x)
        } else {
            m
        },
        None => m,
    }
}

/// Sets tag `name` to the text of `tag`, when it gives one that is not empty.
pub fn add_metadata<T: TagValue>(metadata: &mut TagMap, name: String, tag: &T)
    requires
        old(metadata).wf(),
    ensures
        final(metadata).wf(),
        final(metadata)@ == added(old(metadata)@, name@, tag.text()),
{
    let val = tag.to_string();
    match val {
        Some(v) => {
            if !v.as_str().is_empty() {
                metadata.insert(name, v);
            }
        },
        None => {},
    }
}

/// What a job is given: where the audio and the cover come from, where the
/// result goes, and the tags to write.
#[derive(Debug)]
pub struct Parameter {
    pub audio_url: String,
    pub cover_url: Option<String>,
    /// Path of the output file; its extension names the container.
    pub output: String,
    pub metadata: Option<TagMap>,
    pub debug: bool,
}

impl Parameter {
    /// Well-formed: the tags, if any, are well-formed.
    pub open spec fn wf(&self) -> bool {
        self.metadata.is_some() ==> self.metadata.unwrap().wf()
    }

    /// The name of the output file, without extension: the `title` tag if
    /// there is one, `dowload` otherwise.
    pub fn output_name(&self) -> (r: String)
        requires
            self.wf(),
        ensures
            ({
                let t = if self.metadata.is_some() {
                    lookup(self.metadata.unwrap()@, "title"@)
                } else {
                    None
                };
                &&& t.is_some() ==> r@ == t.unwrap()
                &&& t.is_none() ==> r@ == "dowload"@
            }),
    {
        match &self.metadata {
            Some(m) => {
                let key = "title".to_owned();
                match m.get(&key) {
                    Some(title) => title.clone(),
                    None => "dowload".to_owned(),
                }
            },
            None => "dowload".to_owned(),
        }
    }
}

/// The metadata section of a job's configuration.
#[derive(Debug)]
pub struct Metadata {
    pub title: Option<String>,
    pub comment: Option<String>,
    pub description: Option<String>,
    pub artist: Option<Vec<String>>,
    pub album_artist: Option<Vec<String>>,
    pub album: Option<String>,
    pub date: Option<String>,
    pub track: Option<String>,
    pub track_total: Option<String>,
    pub disc: Option<String>,
    pub genre: Option<Vec<String>>,
    pub grouping: Option<String>,
    pub composer: Option<Vec<String>>,
    pub producer: Option<Vec<String>>,
    pub publisher: Option<Vec<String>>,
    pub copyright: Option<String>,
    pub author_url: Option<String>,
}

/// A job's configuration.
#[derive(Debug)]
pub struct ConfigJson {
    pub audio_url: String,
    pub cover_url: String,
    pub metadata: Metadata,
}

/// The tags that a configuration's metadata gives, in this order: title,
/// comment, description, artist, album_artist, album, date, track,
/// TRACKTOTAL, disc, genre, grouping, composer, producer, publisher,
/// copyright, author_url. A field is left out when it is absent or its text
/// is empty; a list gives its items joined with `", "`.
pub open spec fn config_tags(md: Metadata) -> Seq<(Seq<char>, Seq<char>)> {
    let m = Seq::empty();
    let m = added(m, "title"@, md.title.text());
    let m = added(m, "comment"@, md.comment.text());
    let m = added(m, "description"@, md.description.text());
    let m = added(m, "artist"@, md.artist.text());
    let m = added(m, "album_artist"@, md.album_artist.text());
    let m = added(m, "album"@, md.album.text());
    let m = added(m, "date"@, md.date.text());
    let m = added(m, "track"@, md.track.text());
    let m = added(m, "TRACKTOTAL"@, md.track_total.text());
    let m = added(m, "disc"@, md.disc.text());
    let m = added(m, "genre"@, md.genre.text());
    let m = added(m, "grouping"@, md.grouping.text());
    let m = added(m, "composer"@, md.composer.text());
    let m = added(m, "producer"@, md.producer.text());
    let m = added(m, "publisher"@, md.publisher.text());
    let m = added(m, "copyright"@, md.copyright.text());
    let m = added(m, "author_url"@, md.author_url.text());
    m
}

impl ConfigJson {
    /// The job that the configuration describes: its URLs, its tags (see
    /// [`config_tags`]), no output path yet and no debug output.
    pub fn into(self) -> (r: Parameter)
        ensures
            r.wf(),
            r.audio_url@ == self.audio_url@,
            r.cover_url.is_some() && r.cover_url.unwrap()@ == self.cover_url@,
            r.output@.len() == 0,
            !r.debug,
            r.metadata.is_some() && r.metadata.unwrap()@ == config_tags(self.metadata),
    {
        let mut m = TagMap::new();
        let source = self.metadata;
        add_metadata(&mut m, "title".to_owned(), &source.title);
        add_metadata(&mut m, "comment".to_owned(), &source.comment);
        add_metadata(&mut m, "description".to_owned(), &source.description);
        add_metadata(&mut m, "artist".to_owned(), &source.artist);
        add_metadata(&mut m, "album_artist".to_owned(), &source.album_artist);
        add_metadata(&mut m, "album".to_owned(), &source.album);
        add_metadata(&mut m, "date".to_owned(), &source.date);
        add_metadata(&mut m, "track".to_owned(), &source.track);
        add_metadata(&mut m, "TRACKTOTAL".to_owned(), &source.track_total);
        add_metadata(&mut m, "disc".to_owned(), &source.disc);
        add_metadata(&mut m, "genre".to_owned(), &source.genre);
        add_metadata(&mut m, "grouping".to_owned(), &source.grouping);
        add_metadata(&mut m, "composer".to_owned(), &source.composer);
        add_metadata(&mut m, "producer".to_owned(), &source.producer);
        add_metadata(&mut m, "publisher".to_owned(), &source.publisher);
        add_metadata(&mut m, "copyright".to_owned(), &source.copyright);
        add_metadata(&mut m, "author_url".to_owned(), &source.author_url);
        Parameter {
            audio_url: self.audio_url,
            cover_url: Some(self.cover_url),
            output: String::new(),
            debug: false,
            metadata: Some(m),
        }
    }
}

} // verus!
