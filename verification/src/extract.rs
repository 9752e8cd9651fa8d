//! The two extractors: post links from a listing page, and one media
//! source from a post page via the fixed selector cascade.
//!
//! HTML parsing and CSS selection are the parser crate's work; everything
//! it hands back goes through `attr_values`, and the logic over those
//! values is verified.

use vstd::prelude::*;
use crate::format::{get_format, spec_get_format};
use crate::media::{default_media_view, Media, MediaBuilder, MediaView};
use crate::text::{replace_slashes, spec_dashed};

verus! {

/// The `attr` values of the elements matching `selector` in the document
/// parsed from `html`, in the order the HTML library yields matches
/// (document order), with `None` where a matched element lacks the
/// attribute. What this sequence holds only the HTML library decides; it
/// is a function of the three strings alone.
pub uninterp spec fn attr_values(html: Seq<char>, selector: Seq<char>, attr: Seq<char>) -> Seq<
    Option<Seq<char>>,
>;

/// The view of an optional owned string.
pub open spec fn opt_str_view(o: Option<String>) -> Option<Seq<char>> {
    match o {
        Some(s) => Some(s@),
        None => None,
    }
}

/// Relies on scraper's `Html::parse_document`, `Selector::parse`,
/// `Html::select` and `ElementRef::attr`: parses `html`, walks the
/// elements matching `selector` in the order `select` yields them, and
/// reads `attr` from each. A selector that does not parse matches no
/// element. Parsing, selection and attribute lookup are deterministic, so
/// the result depends on the three strings alone.
#[verifier::external_body]
fn select_attr_values(html: &str, selector: &str, attr: &str) -> (r: Vec<Option<String>>)
    ensures
        r@.len() == attr_values(html@, selector@, attr@).len(),
        forall|i: int|
            0 <= i < r@.len() ==> opt_str_view(r@[i]) == attr_values(html@, selector@, attr@)[i],
{
    let sel = match scraper::Selector::parse(selector) {
        Ok(sel) => sel,
        Err(_) => return Vec::new(),
    };
    let doc = scraper::Html::parse_document(html);
    doc.select(&sel).map(|e| e.attr(attr).map(|v| v.to_string())).collect()
}

/// The attribute values that are present, in order: absent ones skipped.
pub open spec fn kept_values(vs: Seq<Option<Seq<char>>>) -> Seq<Seq<char>>
    decreases vs.len(),
{
    if vs.len() == 0 {
        Seq::empty()
    } else {
        let rest = kept_values(vs.drop_last());
        match vs.last() {
            Some(s) => rest.push(s),
            None => rest,
        }
    }
}

/// How many attribute values are absent.
pub open spec fn skipped_count(vs: Seq<Option<Seq<char>>>) -> nat
    decreases vs.len(),
{
    if vs.len() == 0 {
        0
    } else {
        skipped_count(vs.drop_last()) + if vs.last() is None {
            1nat
        } else {
            0nat
        }
    }
}

/// The `href` of every post anchor of a listing page (an `a` whose inline
/// style attribute is present and empty, the site's structural marker), in
/// document order, together with the count of matched anchors that lacked
/// an `href` and were skipped.
pub fn source_list_extractor(html: &str) -> (r: (Vec<String>, usize))
    ensures
        r.0@.map_values(|s: String| s@) == kept_values(
            attr_values(html@, "a[style=\"\"]"@, "href"@),
        ),
        r.1 == skipped_count(attr_values(html@, "a[style=\"\"]"@, "href"@)),
{
    let vs = select_attr_values(html, "a[style=\"\"]", "href");
    let ghost gvs = attr_values(html@, "a[style=\"\"]"@, "href"@);
    let mut links: Vec<String> = Vec::new();
    let mut skipped: usize = 0;
    let mut i: usize = 0;
    while i < vs.len()
        invariant
            i <= vs@.len(),
            vs@.len() == gvs.len(),
            forall|k: int| 0 <= k < gvs.len() ==> opt_str_view(vs@[k]) == gvs[k],
            skipped <= i,
            links@.map_values(|s: String| s@) == kept_values(gvs.subrange(0, i as int)),
            skipped == skipped_count(gvs.subrange(0, i as int)),
        decreases vs@.len() - i,
    {
        proof {
            assert(gvs.subrange(0, i + 1).drop_last() =~= gvs.subrange(0, i as int));
        }
        match &vs[i] {
            Some(s) => {
                let link = s.clone();
                links.push(link);
                proof {
                    assert(links@.map_values(|s: String| s@) =~= links@.drop_last().map_values(
                        |s: String| s@,
                    ).push(links@.last()@));
                }
            },
            None => {
                skipped += 1;
            },
        }
        i += 1;
    }
    proof {
        assert(gvs.subrange(0, gvs.len() as int) =~= gvs);
    }
    (links, skipped)
}

/// The source URL that `sel` yields on a post page: the `src` of its first
/// matching element, and nothing when no element matches or the first
/// match has no `src`.
pub open spec fn sel_src(html: Seq<char>, sel: Seq<char>) -> Option<Seq<char>> {
    let vs = attr_values(html, sel, "src"@);
    if vs.len() > 0 && vs[0] is Some {
        vs[0]
    } else {
        None
    }
}

fn try_selector(html: &str, sel: &str) -> (r: Option<String>)
    ensures
        opt_str_view(r) == sel_src(html@, sel@),
{
    let mut vs = select_attr_values(html, sel, "src");
    if vs.len() > 0 {
        vs.remove(0)
    } else {
        None
    }
}

/// The media built from one extracted source URL: the URL itself, a title
/// derived by replacing every `/` with `-`, and the resolved extension —
/// the builder's default extension where no known token occurs in the URL.
pub open spec fn media_from_src_view(src: Seq<char>) -> MediaView {
    MediaView {
        title: spec_dashed(src),
        url: src,
        file_type: match spec_get_format(src) {
            Some(f) => f,
            None => default_media_view().file_type,
        },
    }
}

fn media_from_src(src: String) -> (m: Media)
    ensures
        m@ == media_from_src_view(src@),
{
    let title = replace_slashes(src.as_str());
    let file_type = match get_format(src.as_str()) {
        Some(f) => String::from_str(f),
        None => String::from_str("jpg"),
    };
    MediaBuilder::new().add_url(src).add_title(title).add_file_type(file_type).build()
}

/// The media used when no selector of the cascade matches: the builder's
/// defaults with the title overridden. The builder's defaults are the one
/// source of truth for the placeholder URL and extension.
pub open spec fn fallback_media_view() -> MediaView {
    MediaView { title: "placeholder"@, ..default_media_view() }
}

/// What the cascade extracts from a post page: the first selector of the
/// fixed priority order — the image selector, then the five video MIME
/// types — whose first match carries a `src` wins, and a page matching
/// none yields the placeholder.
pub open spec fn spec_media(html: Seq<char>) -> MediaView {
    let s_img = sel_src(html, "img[id=\"image\"]"@);
    let s_mp4 = sel_src(html, "source[type=\"video/mp4\"]"@);
    let s_mpeg = sel_src(html, "source[type=\"video/mpeg\"]"@);
    let s_mpg = sel_src(html, "source[type=\"video/mpg\"]"@);
    let s_webm = sel_src(html, "source[type=\"video/webm\"]"@);
    let s_avi = sel_src(html, "source[type=\"video/avi\"]"@);
    if s_img is Some {
        media_from_src_view(s_img->Some_0)
    } else if s_mp4 is Some {
        media_from_src_view(s_mp4->Some_0)
    } else if s_mpeg is Some {
        media_from_src_view(s_mpeg->Some_0)
    } else if s_mpg is Some {
        media_from_src_view(s_mpg->Some_0)
    } else if s_webm is Some {
        media_from_src_view(s_webm->Some_0)
    } else if s_avi is Some {
        media_from_src_view(s_avi->Some_0)
    } else {
        fallback_media_view()
    }
}

/// Extracts one media descriptor from a post page, exactly as
/// `spec_media` states.
pub fn media_extractor(html: &str) -> (m: Media)
    ensures
        m@ == spec_media(html@),
{
    if let Some(src) = try_selector(html, "img[id=\"image\"]") {
        return media_from_src(src);
    }
    if let Some(src) = try_selector(html, "source[type=\"video/mp4\"]") {
        return media_from_src(src);
    }
    if let Some(src) = try_selector(html, "source[type=\"video/mpeg\"]") {
        return media_from_src(src);
    }
    if let Some(src) = try_selector(html, "source[type=\"video/mpg\"]") {
        return media_from_src(src);
    }
    if let Some(src) = try_selector(html, "source[type=\"video/webm\"]") {
        return media_from_src(src);
    }
    if let Some(src) = try_selector(html, "source[type=\"video/avi\"]") {
        return media_from_src(src);
    }
    MediaBuilder::new().add_title(String::from_str("placeholder")).build()
}

/// Whatever page is given, the extracted media's extension is drawn from
/// the closed set of recognized extensions, or is the builder's default
/// when no format could be read off the source URL.
pub proof fn lemma_media_file_type_recognized(html: Seq<char>)
    ensures
        spec_media(html).file_type == ".jpeg"@ || spec_media(html).file_type == ".jpg"@
            || spec_media(html).file_type == ".png"@ || spec_media(html).file_type == ".gif"@
            || spec_media(html).file_type == ".webm"@ || spec_media(html).file_type == ".avi"@
            || spec_media(html).file_type == ".mp4"@ || spec_media(html).file_type == ".mpg"@
            || spec_media(html).file_type == ".mpeg"@ || spec_media(html).file_type == "jpg"@,
{
}

/// The fixed origin of the site whose pages are walked.
pub open spec fn site_origin() -> Seq<char> {
    "https://rule34.xxx"@
}

/// The absolute URL of a post page: the site origin followed by the
/// relative link a listing page gave.
pub fn post_url(link: &String) -> (r: String)
    ensures
        r@ == site_origin() + link@,
{
    let mut r = String::from_str("https://rule34.xxx");
    r.append(link.as_str());
    r
}

} // verus!
