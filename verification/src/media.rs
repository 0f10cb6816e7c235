use vstd::prelude::*;
use crate::text::{
    chars_eq_str, chars_of, joined, lowercase, seq_starts_with, to_lowercase, trim, trimmed,
};

verus! {

/// The kind of media a link points at.
#[derive(Debug, Clone, Copy, PartialEq, Eq, Structural)]
pub enum MediaType {
    Video,
    Audio,
    Image,
    Carousel,
    Playlist,
}

/// What a platform reports about a link before downloading it.
#[derive(Debug, Clone)]
pub struct MediaInfo {
    pub title: String,
    pub author: String,
    pub thumbnail_url: Option<String>,
    /// Length of the media, as the bit pattern of an `f64` number of seconds.
    pub duration_seconds_bits: Option<u64>,
    pub file_size_bytes: Option<u64>,
    pub media_type: MediaType,
    /// Labels of the qualities (or, for collections, the entries) on offer.
    pub available_qualities: Vec<String>,
}

/// A copy of a list of strings.
pub fn copy_strings(v: &Vec<String>) -> (r: Vec<String>)
    ensures
        r@ == v@,
{
    let mut r: Vec<String> = Vec::new();
    let mut i: usize = 0;
    while i < v.len()
        invariant
            i <= v@.len(),
            r@ == v@.take(i as int),
        decreases v@.len() - i,
    {
        r.push(v[i].clone());
        i = i + 1;
        assert(r@ =~= v@.take(i as int));
    }
    assert(v@.take(i as int) =~= v@);
    r
}

/// The mathematical value of a [`MediaInfo`].
pub struct MediaInfoView {
    pub title: String,
    pub author: String,
    pub thumbnail_url: Option<String>,
    pub duration_seconds_bits: Option<u64>,
    pub file_size_bytes: Option<u64>,
    pub media_type: MediaType,
    pub available_qualities: Seq<String>,
}

impl View for MediaInfo {
    type V = MediaInfoView;

    open spec fn view(&self) -> MediaInfoView {
        MediaInfoView {
            title: self.title,
            author: self.author,
            thumbnail_url: self.thumbnail_url,
            duration_seconds_bits: self.duration_seconds_bits,
            file_size_bytes: self.file_size_bytes,
            media_type: self.media_type,
            available_qualities: self.available_qualities@,
        }
    }
}

impl MediaInfo {
    /// A copy of this information.
    pub fn duplicate(&self) -> (m: MediaInfo)
        ensures
            m@ == self@,
    {
        MediaInfo {
            title: self.title.clone(),
            author: self.author.clone(),
            thumbnail_url: crate::item::copy_opt_string(&self.thumbnail_url),
            duration_seconds_bits: self.duration_seconds_bits,
            file_size_bytes: self.file_size_bytes,
            media_type: self.media_type,
            available_qualities: copy_strings(&self.available_qualities),
        }
    }

    /// How many files the download of this media yields, as stored (a `u32`).
    pub open spec fn spec_file_count(self) -> u32 {
        if self.media_type == MediaType::Carousel || self.media_type == MediaType::Playlist {
            self.available_qualities.len() as u32
        } else {
            1
        }
    }

    /// How many files the download of this media yields: one per entry of a
    /// carousel or playlist, otherwise one.
    pub fn file_count(&self) -> (n: u32)
        ensures
            n == self.spec_file_count(),
    {
        if self.media_type == MediaType::Carousel || self.media_type == MediaType::Playlist {
            self.available_qualities.len() as u32
        } else {
            1
        }
    }
}

/// Titles that platforms report when they know nothing better.
pub open spec fn is_generic_text(t: Seq<char>) -> bool {
    ||| t.len() == 0
    ||| t == "video"@
    ||| t == "media"@
    ||| t == "untitled"@
    ||| t == "unknown"@
    ||| seq_starts_with(t, "video [video]"@)
    ||| seq_starts_with(t, "media [media]"@)
}

/// The title as compared: lower-cased, then trimmed.
pub open spec fn normalized_title(title: Seq<char>) -> Seq<char> {
    trimmed(lowercase(title))
}

/// Whether a title is a placeholder rather than a real name.
pub fn is_generic_title(title: &str) -> (g: bool)
    ensures
        g == is_generic_text(normalized_title(title@)),
{
    let lower = to_lowercase(title);
    let t = trim(lower.as_str());
    is_generic_normalized_title(t)
}

/// Whether an already lower-cased and trimmed title is a placeholder.
pub fn is_generic_normalized_title(t: &str) -> (g: bool)
    ensures
        g == is_generic_text(t@),
{
    let c = chars_of(t);
    c.len() == 0 || chars_eq_str(&c, "video") || chars_eq_str(&c, "media") || chars_eq_str(
        &c,
        "untitled",
    ) || chars_eq_str(&c, "unknown") || crate::text::starts_with_str(&c, "video [video]")
        || crate::text::starts_with_str(&c, "media [media]")
}

/// The title to show for fetched media: placeholder titles are replaced by
/// `video_` followed by `fallback_name`.
pub fn title_or_fallback(title: String, fallback_name: &str) -> (t: String)
    ensures
        is_generic_text(normalized_title(title@)) ==> t@ == "video_"@ + fallback_name@,
        !is_generic_text(normalized_title(title@)) ==> t == title,
{
    if is_generic_title(title.as_str()) {
        joined("video_", fallback_name)
    } else {
        title
    }
}

} // verus!
