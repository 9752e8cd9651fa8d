//! The downloader's decisions: sanitized file names, destination paths,
//! and the skip-if-exists step. Running the external fetch itself is the
//! caller's work; the decision of whether and with what to run it is made
//! and proved here.

use vstd::prelude::*;
use crate::media::{Media, MediaView};
use crate::text::{spec_stripped, strip_spaces};

verus! {

/// The sanitized file-name stem of a title: the title with spaces
/// removed, cut to its first 60 characters when the stripped form is
/// longer than 60.
pub open spec fn spec_title(title: Seq<char>) -> Seq<char> {
    let stripped = spec_stripped(title);
    if stripped.len() <= 60 {
        stripped
    } else {
        stripped.subrange(0, 60)
    }
}

/// Sanitizes a title into a file-name stem, exactly as `spec_title`
/// states.
pub fn format_title(title: &String) -> (r: String)
    ensures
        r@ == spec_title(title@),
{
    let stripped = strip_spaces(title.as_str());
    let len = stripped.as_str().unicode_len();
    if len > 60 {
        let cut = stripped.as_str().substring_char(0, 60);
        String::from_str(cut)
    } else {
        stripped
    }
}

/// The destination file name of a media item: its sanitized title
/// followed by its extension.
pub open spec fn spec_dest_file(m: MediaView) -> Seq<char> {
    spec_title(m.title) + m.file_type
}

/// Computes the destination file name, as `spec_dest_file` states.
pub fn dest_file_name(media: &Media) -> (r: String)
    ensures
        r@ == spec_dest_file(media@),
{
    let stem = format_title(&media.title);
    stem.concat(media.file_type.as_str())
}

/// The destination path: the output directory string followed by the file
/// name, appended as the caller gave it (no separator is inserted).
pub fn dest_file_path(path: &String, media: &Media) -> (r: String)
    ensures
        r@ == path@ + spec_dest_file(media@),
{
    let file = dest_file_name(media);
    path.clone().concat(file.as_str())
}

/// What the downloader must do for one item.
pub enum DownloadAction {
    /// The destination already exists: nothing is fetched.
    Skip,
    /// Fetch `url` into the destination path.
    Fetch { url: String },
}

/// One downloader step, fully decided: the file name (for reporting), the
/// destination path, and the action to take.
pub struct DownloadPlan {
    pub file: String,
    pub file_path: String,
    pub action: DownloadAction,
}

/// Decides the downloader's step for `media` into the directory string
/// `path`, given whether the destination file already exists. An existing
/// destination is never fetched again: a second run over the same media
/// and path is a no-op once the file is in place.
pub fn plan_download(media: &Media, path: &String, exists: bool) -> (p: DownloadPlan)
    ensures
        p.file@ == spec_dest_file(media@),
        p.file_path@ == path@ + spec_dest_file(media@),
        exists ==> p.action is Skip,
        !exists ==> (p.action matches DownloadAction::Fetch { url } && url@ == media@.url),
{
    let file = dest_file_name(media);
    let file_path = dest_file_path(path, media);
    let action = if exists {
        DownloadAction::Skip
    } else {
        DownloadAction::Fetch { url: media.url.clone() }
    };
    DownloadPlan { file, file_path, action }
}

} // verus!
