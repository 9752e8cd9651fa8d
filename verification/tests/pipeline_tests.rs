use gallery_scraper::download::{
    dest_file_name, dest_file_path, format_title, plan_download, DownloadAction,
};
use gallery_scraper::extract::{media_extractor, post_url, source_list_extractor};
use gallery_scraper::media::MediaBuilder;
use gallery_scraper::pager::page_range;

#[test]
fn listing_extracts_marked_anchors_in_document_order() {
    let html = r#"<a style="" href="/post/1">a</a><a href="/unmarked">b</a><a style="x" href="/styled">c</a><a style="" href="/post/2">d</a>"#;
    let (links, skipped) = source_list_extractor(html);
    assert_eq!(links, vec!["/post/1".to_string(), "/post/2".to_string()]);
    assert_eq!(skipped, 0);
}

#[test]
fn listing_skips_marked_anchor_without_href_and_counts_it() {
    let html = r#"<a style="" href="/a">x</a><a style="">y</a><a style="" href="/b">z</a>"#;
    let (links, skipped) = source_list_extractor(html);
    assert_eq!(links, vec!["/a".to_string(), "/b".to_string()]);
    assert_eq!(skipped, 1);
}

#[test]
fn empty_listing_yields_no_links() {
    let (links, skipped) = source_list_extractor("<p>no anchors</p>");
    assert!(links.is_empty());
    assert_eq!(skipped, 0);
}

#[test]
fn post_url_prefixes_site_origin() {
    assert_eq!(post_url(&"/post/1".to_string()), "https://rule34.xxx/post/1");
}

#[test]
fn format_title_strips_spaces_when_short() {
    assert_eq!(format_title(&"a b c.png".to_string()), "abc.png");
    assert_eq!(format_title(&"plain.png".to_string()), "plain.png");
}

#[test]
fn format_title_truncates_stripped_form_to_sixty() {
    let long = "a".repeat(70);
    assert_eq!(format_title(&long), "a".repeat(60));
    let exact = "b".repeat(60);
    assert_eq!(format_title(&exact), exact);
    // 62 non-space characters among spaces: first 60 of the stripped form
    let spaced = "ab ".repeat(31);
    let stripped: String = spaced.chars().filter(|c| *c != ' ').collect();
    assert_eq!(format_title(&spaced), &stripped[..60]);
}

#[test]
fn destination_names_join_stem_extension_and_directory() {
    let m = MediaBuilder::new()
        .add_url("https://h/x.png".to_string())
        .add_title("my file".to_string())
        .add_file_type(".png".to_string())
        .build();
    assert_eq!(dest_file_name(&m), "myfile.png");
    assert_eq!(dest_file_path(&"./out/".to_string(), &m), "./out/myfile.png");
}

#[test]
fn existing_destination_is_never_fetched_again() {
    let m = MediaBuilder::new()
        .add_url("https://h/x.png".to_string())
        .add_title("t".to_string())
        .add_file_type(".png".to_string())
        .build();
    let out = "./".to_string();
    let first = plan_download(&m, &out, false);
    match first.action {
        DownloadAction::Fetch { url } => assert_eq!(url, "https://h/x.png"),
        DownloadAction::Skip => panic!("first run must fetch"),
    }
    // second run, destination now present: no fetch
    let second = plan_download(&m, &out, true);
    assert!(matches!(second.action, DownloadAction::Skip));
    assert_eq!(second.file, "t.png");
    assert_eq!(second.file_path, "./t.png");
}

#[test]
fn two_posts_end_to_end_in_document_order() {
    let listing = r#"<a style="" href="/post/1">a</a><a style="" href="/post/2">b</a>"#;
    let (links, skipped) = source_list_extractor(listing);
    assert_eq!(links, vec!["/post/1".to_string(), "/post/2".to_string()]);
    assert_eq!(skipped, 0);
    let post = r#"<img id="image" src="https://example.com/a/b.png">"#;
    let mut fetched: Vec<(String, String)> = Vec::new();
    for link in &links {
        let page = post_url(link);
        assert!(page.starts_with("https://rule34.xxx/post/"));
        let m = media_extractor(post);
        let plan = plan_download(&m, &"./out/".to_string(), false);
        match plan.action {
            DownloadAction::Fetch { url } => fetched.push((plan.file, url)),
            DownloadAction::Skip => panic!("nothing exists yet, both must fetch"),
        }
    }
    assert_eq!(fetched.len(), 2);
    for (file, url) in &fetched {
        assert_eq!(file, "https:--example.com-a-b.png.png");
        assert_eq!(url, "https://example.com/a/b.png");
    }
}

#[test]
fn no_selector_match_downloads_the_placeholder() {
    let m = media_extractor("<p>bare page</p>");
    let plan = plan_download(&m, &"./".to_string(), false);
    match plan.action {
        DownloadAction::Fetch { url } => assert_eq!(
            url,
            "https://i.pinimg.com/originals/13/92/6c/13926cfb3fd8818166d8b3149e0696de.jpg"
        ),
        DownloadAction::Skip => panic!("placeholder must still be fetched"),
    }
    assert_eq!(plan.file, "placeholderjpg");
}

#[test]
fn inverted_page_range_walks_nothing() {
    let pages = page_range(2, 1);
    let mut fetches = 0;
    for _ in pages {
        fetches += 1;
    }
    assert_eq!(fetches, 0);
}
