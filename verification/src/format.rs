//! The format resolver: maps a URL to a file extension by substring
//! containment over a fixed priority list of known tokens.

use vstd::prelude::*;
use crate::text::{contains_sub, spec_contains};

verus! {

/// The extension for `url` under the fixed priority list: the first of
/// `jpeg, jpg, png, gif, webm, avi, mp4, mpg, mpeg` contained in `url`
/// wins (first match, not trailing suffix), and `None` means no token
/// occurs at all.
pub open spec fn spec_get_format(url: Seq<char>) -> Option<Seq<char>> {
    if spec_contains(url, "jpeg"@) {
        Some(".jpeg"@)
    } else if spec_contains(url, "jpg"@) {
        Some(".jpg"@)
    } else if spec_contains(url, "png"@) {
        Some(".png"@)
    } else if spec_contains(url, "gif"@) {
        Some(".gif"@)
    } else if spec_contains(url, "webm"@) {
        Some(".webm"@)
    } else if spec_contains(url, "avi"@) {
        Some(".avi"@)
    } else if spec_contains(url, "mp4"@) {
        Some(".mp4"@)
    } else if spec_contains(url, "mpg"@) {
        Some(".mpg"@)
    } else if spec_contains(url, "mpeg"@) {
        Some(".mpeg"@)
    } else {
        None
    }
}

/// Resolves the file extension of `url`, exactly as `spec_get_format`
/// states: total, and decided by the fixed priority order.
pub fn get_format(url: &str) -> (r: Option<&str>)
    ensures
        match r {
            Some(f) => spec_get_format(url@) == Some(f@),
            None => spec_get_format(url@) is None,
        },
{
    if contains_sub(url, "jpeg") {
        Some(".jpeg")
    } else if contains_sub(url, "jpg") {
        Some(".jpg")
    } else if contains_sub(url, "png") {
        Some(".png")
    } else if contains_sub(url, "gif") {
        Some(".gif")
    } else if contains_sub(url, "webm") {
        Some(".webm")
    } else if contains_sub(url, "avi") {
        Some(".avi")
    } else if contains_sub(url, "mp4") {
        Some(".mp4")
    } else if contains_sub(url, "mpg") {
        Some(".mpg")
    } else if contains_sub(url, "mpeg") {
        Some(".mpeg")
    } else {
        None
    }
}

/// A URL in which none of the nine known tokens occurs resolves to no
/// extension at all.
pub proof fn lemma_format_no_token(url: Seq<char>)
    requires
        !spec_contains(url, "jpeg"@),
        !spec_contains(url, "jpg"@),
        !spec_contains(url, "png"@),
        !spec_contains(url, "gif"@),
        !spec_contains(url, "webm"@),
        !spec_contains(url, "avi"@),
        !spec_contains(url, "mp4"@),
        !spec_contains(url, "mpg"@),
        !spec_contains(url, "mpeg"@),
    ensures
        spec_get_format(url) is None,
{
}

/// A URL in which exactly one of the nine known tokens occurs resolves to
/// that token's extension.
pub proof fn lemma_format_single_token(url: Seq<char>)
    ensures
        spec_contains(url, "jpeg"@) && !spec_contains(url, "jpg"@) && !spec_contains(url, "png"@)
            && !spec_contains(url, "gif"@) && !spec_contains(url, "webm"@) && !spec_contains(
            url,
            "avi"@,
        ) && !spec_contains(url, "mp4"@) && !spec_contains(url, "mpg"@) && !spec_contains(
            url,
            "mpeg"@,
        ) ==> spec_get_format(url) == Some(".jpeg"@),
        spec_contains(url, "jpg"@) && !spec_contains(url, "jpeg"@) && !spec_contains(url, "png"@)
            && !spec_contains(url, "gif"@) && !spec_contains(url, "webm"@) && !spec_contains(
            url,
            "avi"@,
        ) && !spec_contains(url, "mp4"@) && !spec_contains(url, "mpg"@) && !spec_contains(
            url,
            "mpeg"@,
        ) ==> spec_get_format(url) == Some(".jpg"@),
        spec_contains(url, "png"@) && !spec_contains(url, "jpeg"@) && !spec_contains(url, "jpg"@)
            && !spec_contains(url, "gif"@) && !spec_contains(url, "webm"@) && !spec_contains(
            url,
            "avi"@,
        ) && !spec_contains(url, "mp4"@) && !spec_contains(url, "mpg"@) && !spec_contains(
            url,
            "mpeg"@,
        ) ==> spec_get_format(url) == Some(".png"@),
        spec_contains(url, "gif"@) && !spec_contains(url, "jpeg"@) && !spec_contains(url, "jpg"@)
            && !spec_contains(url, "png"@) && !spec_contains(url, "webm"@) && !spec_contains(
            url,
            "avi"@,
        ) && !spec_contains(url, "mp4"@) && !spec_contains(url, "mpg"@) && !spec_contains(
            url,
            "mpeg"@,
        ) ==> spec_get_format(url) == Some(".gif"@),
        spec_contains(url, "webm"@) && !spec_contains(url, "jpeg"@) && !spec_contains(url, "jpg"@)
            && !spec_contains(url, "png"@) && !spec_contains(url, "gif"@) && !spec_contains(
            url,
            "avi"@,
        ) && !spec_contains(url, "mp4"@) && !spec_contains(url, "mpg"@) && !spec_contains(
            url,
            "mpeg"@,
        ) ==> spec_get_format(url) == Some(".webm"@),
        spec_contains(url, "avi"@) && !spec_contains(url, "jpeg"@) && !spec_contains(url, "jpg"@)
            && !spec_contains(url, "png"@) && !spec_contains(url, "gif"@) && !spec_contains(
            url,
            "webm"@,
        ) && !spec_contains(url, "mp4"@) && !spec_contains(url, "mpg"@) && !spec_contains(
            url,
            "mpeg"@,
        ) ==> spec_get_format(url) == Some(".avi"@),
        spec_contains(url, "mp4"@) && !spec_contains(url, "jpeg"@) && !spec_contains(url, "jpg"@)
            && !spec_contains(url, "png"@) && !spec_contains(url, "gif"@) && !spec_contains(
            url,
            "webm"@,
        ) && !spec_contains(url, "avi"@) && !spec_contains(url, "mpg"@) && !spec_contains(
            url,
            "mpeg"@,
        ) ==> spec_get_format(url) == Some(".mp4"@),
        spec_contains(url, "mpg"@) && !spec_contains(url, "jpeg"@) && !spec_contains(url, "jpg"@)
            && !spec_contains(url, "png"@) && !spec_contains(url, "gif"@) && !spec_contains(
            url,
            "webm"@,
        ) && !spec_contains(url, "avi"@) && !spec_contains(url, "mp4"@) && !spec_contains(
            url,
            "mpeg"@,
        ) ==> spec_get_format(url) == Some(".mpg"@),
        spec_contains(url, "mpeg"@) && !spec_contains(url, "jpeg"@) && !spec_contains(url, "jpg"@)
            && !spec_contains(url, "png"@) && !spec_contains(url, "gif"@) && !spec_contains(
            url,
            "webm"@,
        ) && !spec_contains(url, "avi"@) && !spec_contains(url, "mp4"@) && !spec_contains(
            url,
            "mpg"@,
        ) ==> spec_get_format(url) == Some(".mpeg"@),
{
}

} // verus!
