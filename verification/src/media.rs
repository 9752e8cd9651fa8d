//! The media descriptor: one downloadable item, built from defaults by an
//! incremental builder.

use vstd::prelude::*;

verus! {

/// Ghost image of a `Media` (and of a `MediaBuilder`): the three fields as
/// character sequences.
pub struct MediaView {
    pub title: Seq<char>,
    pub url: Seq<char>,
    pub file_type: Seq<char>,
}

/// One downloadable item: a display title, the direct source URL, and a
/// file extension (with its leading dot when it came from the format
/// resolver).
#[derive(Debug)]
pub struct Media {
    pub title: String,
    pub url: String,
    pub file_type: String,
}

impl View for Media {
    type V = MediaView;

    open spec fn view(&self) -> MediaView {
        MediaView { title: self.title@, url: self.url@, file_type: self.file_type@ }
    }
}

/// The URL of the placeholder image used when nothing could be extracted.
pub open spec fn placeholder_url() -> Seq<char> {
    "https://i.pinimg.com/originals/13/92/6c/13926cfb3fd8818166d8b3149e0696de.jpg"@
}

/// The builder's default view: an error title, the placeholder image URL,
/// and a bare `jpg` extension. These defaults are the single source of
/// truth for every fallback `Media`.
pub open spec fn default_media_view() -> MediaView {
    MediaView { title: "Error"@, url: placeholder_url(), file_type: "jpg"@ }
}

/// Incremental builder for `Media`: starts from `default_media_view` and
/// overwrites one field per step.
pub struct MediaBuilder {
    pub title: String,
    pub url: String,
    pub file_type: String,
}

impl View for MediaBuilder {
    type V = MediaView;

    open spec fn view(&self) -> MediaView {
        MediaView { title: self.title@, url: self.url@, file_type: self.file_type@ }
    }
}

impl MediaBuilder {
    pub fn new() -> (r: Self)
        ensures
            r@ == default_media_view(),
    {
        MediaBuilder {
            title: String::from_str("Error"),
            url: String::from_str(
                "https://i.pinimg.com/originals/13/92/6c/13926cfb3fd8818166d8b3149e0696de.jpg",
            ),
            file_type: String::from_str("jpg"),
        }
    }

    pub fn add_url(self, url: String) -> (r: Self)
        ensures
            r@ == (MediaView { url: url@, ..self@ }),
    {
        MediaBuilder { title: self.title, url, file_type: self.file_type }
    }

    pub fn add_title(self, title: String) -> (r: Self)
        ensures
            r@ == (MediaView { title: title@, ..self@ }),
    {
        MediaBuilder { title, url: self.url, file_type: self.file_type }
    }

    pub fn add_file_type(self, file_type: String) -> (r: Self)
        ensures
            r@ == (MediaView { file_type: file_type@, ..self@ }),
    {
        MediaBuilder { title: self.title, url: self.url, file_type }
    }

    pub fn build(self) -> (m: Media)
        ensures
            m@ == self@,
    {
        Media { title: self.title, url: self.url, file_type: self.file_type }
    }
}

} // verus!
