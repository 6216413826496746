//! Decisions taken while fetching the source audio and the cover art.

use crate::error::Error;
use vstd::prelude::*;

verus! {

/// Fetches the audio of a video. The requests are made by the caller; this
/// type holds the decisions about them.
#[derive(Debug, Clone, Copy)]
pub struct YoutubeDownloader;

/// How many times the audio is requested before giving up.
pub const MAX_ATTEMPTS: u32 = 3;

/// What to do after a request for the audio.
#[derive(Debug, Clone, Copy, PartialEq, Eq, Structural)]
pub enum FetchStep {
    /// The request got a response: go on with it.
    Proceed,
    /// The request failed: request again.
    Retry,
    /// The request failed and no attempt is left.
    GiveUp,
}

impl YoutubeDownloader {
    /// What to do after attempt number `attempt` (counted from 1), which
    /// got a response or not: go on after a response, request again after
    /// a failure while fewer than [`MAX_ATTEMPTS`] were made, give up
    /// otherwise.
    pub fn after_attempt(attempt: u32, responded: bool) -> (r: FetchStep)
        ensures
            responded ==> r == FetchStep::Proceed,
            !responded && attempt < MAX_ATTEMPTS ==> r == FetchStep::Retry,
            !responded && attempt >= MAX_ATTEMPTS ==> r == FetchStep::GiveUp,
    {
        if responded {
            FetchStep::Proceed
        } else if attempt < MAX_ATTEMPTS {
            FetchStep::Retry
        } else {
            FetchStep::GiveUp
        }
    }
}

/// The characters of `s` before its first `/`; all of `s` if it has none.
pub open spec fn first_segment(s: Seq<char>) -> Seq<char>
    decreases s.len(),
{
    if s.len() == 0 || s[0] == '/' {
        Seq::empty()
    } else {
        seq![s[0]] + first_segment(s.drop_first())
    }
}

proof fn lemma_first_segment(s: Seq<char>, k: int)
    requires
        0 <= k <= s.len(),
        forall|i: int| 0 <= i < k ==> s[i] != '/',
        k == s.len() || s[k] == '/',
    ensures
        first_segment(s) == s.subrange(0, k),
    decreases k,
{
    if k == 0 {
        assert(s.subrange(0, 0) =~= Seq::<char>::empty());
    } else {
        lemma_first_segment(s.drop_first(), k - 1);
        assert(seq![s[0]] + s.drop_first().subrange(0, k - 1) =~= s.subrange(0, k));
    }
}

/// Whether `s` is a MIME type of the `image/` family.
pub open spec fn is_image_type(s: Seq<char>) -> bool {
    s.len() >= 6 && s.subrange(0, 6) == "image/"@
}

/// The file extension of a cover image, from the response's content type:
/// the subtype of an `image/` type (what follows `image/`, up to the next
/// `/`). Fails when the header is missing or names no image.
pub fn cover_art_extension(content_type: Option<&str>) -> (r: Result<String, Error>)
    ensures
        content_type.is_none() ==> r.is_err() && r.unwrap_err() is Generic
            && r.unwrap_err()->Generic_0@ == "Cover art content-Type header missing."@,
        content_type.is_some() && !is_image_type(content_type.unwrap()@) ==> r.is_err()
            && r.unwrap_err() is Generic && r.unwrap_err()->Generic_0@
            == "Cover art URL does not point to an image."@,
        content_type.is_some() && is_image_type(content_type.unwrap()@) ==> r.is_ok()
            && r.unwrap()@ == first_segment(
            content_type.unwrap()@.subrange(6, content_type.unwrap()@.len() as int),
        ),
{
    let c = match content_type {
        Some(c) => c,
        None => {
            return Err(Error::Generic("Cover art content-Type header missing.".to_owned()));
        },
    };
    let prefix = "image/";
    proof {
        reveal_strlit("image/");
    }
    let n = c.unicode_len();
    let mut is_image = n >= 6;
    let mut i: usize = 0;
    while is_image && i < 6
        invariant
            n == c@.len(),
            prefix@ == "image/"@,
            prefix@.len() == 6,
            i <= 6,
            is_image ==> n >= 6,
            is_image ==> forall|j: int| 0 <= j < i ==> c@[j] == prefix@[j],
            !is_image ==> !is_image_type(c@),
        decreases 6 - i,
    {
        if c.get_char(i) != prefix.get_char(i) {
            is_image = false;
        }
        i = i + 1;
    }
    if !is_image {
        return Err(Error::Generic("Cover art URL does not point to an image.".to_owned()));
    }
    proof {
        assert(c@.subrange(0, 6) =~= "image/"@);
    }
    let mut k: usize = 6;
    while k < n && c.get_char(k) != '/'
        invariant
            n == c@.len(),
            6 <= k <= n,
            forall|j: int| 6 <= j < k ==> c@[j] != '/',
        decreases n - k,
    {
        k = k + 1;
    }
    proof {
        let rest = c@.subrange(6, n as int);
        lemma_first_segment(rest, k - 6);
        assert(rest.subrange(0, k - 6) =~= c@.subrange(6, k as int));
    }
    Ok(c.substring_char(6, k).to_owned())
}

} // verus!
