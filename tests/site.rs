use sitegen::cv::{build_cv, cv_markup, read_cv};
use sitegen::feed::{assemble_feed, build_feed};
use sitegen::pages::{archive_list, build_archive, build_markdown_page, build_post_pages, fill_template};
use sitegen::post::{
    ingest_post, ingest_posts, parse_posts, read_front_matter, slug_for, sort_posts, url_path_for,
    BuildError, CvEntryFault, CvField, Ingested, Post, SkipReason, SourceFile,
};
use sitegen::site::{build_site, SiteSources};

const TEMPLATE: &str = "<html><head><title>{{title}}</title></head><body><main>{{body}}</main><footer>{{title}}</footer></body></html>";

fn source(name: &str, contents: &str) -> SourceFile {
    SourceFile { name: name.to_string(), contents: contents.to_string() }
}

fn faults(list: Vec<(usize, Vec<CvField>)>) -> Option<BuildError> {
    Some(BuildError::CvMissingFields(
        list.into_iter().map(|(entry, missing)| CvEntryFault { entry, missing }).collect(),
    ))
}

fn post(ts: i64, slug: &str, title: &str) -> Post {
    Post {
        published_at: ts,
        slug: slug.to_string(),
        url_path: format!("/p/{}", slug),
        title: title.to_string(),
        html_body: format!("<p>{}</p>", title),
    }
}

fn accepted(r: Result<Ingested, BuildError>) -> Post {
    match r {
        Ok(Ingested::Accepted(p)) => p,
        Ok(Ingested::Skipped(s)) => panic!("skipped: {:?}", s),
        Err(e) => panic!("error: {:?}", e),
    }
}

const JAN: i64 = 1704106800; // 2024-01-01 11:00 UTC
const FEB: i64 = 1706785200; // 2024-02-01 11:00 UTC

#[test]
fn feb_constant_is_first_of_february() {
    assert_eq!(FEB, 1706785200);
}

#[test]
fn slug_drops_extension_and_hyphenates_spaces() {
    assert_eq!(slug_for("My First Post.md"), "My-First-Post");
    assert_eq!(slug_for("a.b.md"), "a.b");
    assert_eq!(slug_for("noext"), "noext");
    assert_eq!(slug_for(".hidden"), ".hidden");
}

#[test]
fn url_path_is_under_p() {
    assert_eq!(url_path_for("hello-world"), "/p/hello-world");
}

#[test]
fn front_matter_date_is_read_in_berlin_time() {
    let f = read_front_matter("date: 2024-01-01 12:00\ntitle: A").unwrap();
    assert_eq!(f.date, Some(JAN));
    assert_eq!(f.title.as_deref(), Some("A"));
}

#[test]
fn front_matter_summer_time_offset() {
    let f = read_front_matter("date: 2024-07-01 12:00").unwrap();
    // 2024-07-01 10:00 UTC
    assert_eq!(f.date, Some(1719828000));
    assert_eq!(f.title, None);
}

#[test]
fn front_matter_without_fields() {
    let f = read_front_matter("author: someone").unwrap();
    assert_eq!(f.date, None);
    assert_eq!(f.title, None);
}

#[test]
fn front_matter_malformed_date_is_fatal() {
    assert_eq!(read_front_matter("date: 01.02.2024").err(), Some(BuildError::MalformedDate));
    assert_eq!(read_front_matter("date: 2024-01-01").err(), Some(BuildError::MalformedDate));
}

#[test]
fn front_matter_skipped_local_time_is_fatal() {
    assert_eq!(read_front_matter("date: 2024-03-31 02:30").err(), Some(BuildError::AmbiguousLocalTime));
}

#[test]
fn front_matter_of_wrong_shape() {
    assert_eq!(read_front_matter("- a\n- b").err(), Some(BuildError::FrontMatterShape));
    assert_eq!(read_front_matter("title: [a, b]").err(), Some(BuildError::FrontMatterShape));
    assert_eq!(read_front_matter("date: 5").err(), Some(BuildError::FrontMatterShape));
}

#[test]
fn front_matter_syntax_error() {
    assert_eq!(read_front_matter("a: [b").err(), Some(BuildError::FrontMatterSyntax));
}

#[test]
fn ingest_takes_title_from_front_matter_and_strips_it() {
    let p = accepted(ingest_post(
        "first post.md",
        "---\ndate: 2024-01-01 12:00\ntitle: A\n---\n\n# Heading\n\nHello *world*\n",
    ));
    assert_eq!(p.title, "A");
    assert_eq!(p.published_at, JAN);
    assert_eq!(p.slug, "first-post");
    assert_eq!(p.url_path, "/p/first-post");
    assert!(p.html_body.contains("<h1>Heading</h1>"));
    assert!(p.html_body.contains("<em>world</em>"));
    assert!(!p.html_body.contains("date"));
    assert!(!p.html_body.contains("<hr"));
}

#[test]
fn ingest_falls_back_to_first_level_one_heading() {
    let p = accepted(ingest_post(
        "x.md",
        "---\ndate: 2024-01-01 12:00\n---\n\n## Sub\n\n# Main\n\n# Later\n",
    ));
    assert_eq!(p.title, "Main");
}

#[test]
fn ingest_without_date_is_skipped() {
    match ingest_post("x.md", "# Title\n\ntext\n") {
        Ok(Ingested::Skipped(r)) => assert_eq!(r, SkipReason::NoDate),
        _ => panic!("expected a skip"),
    }
}

#[test]
fn ingest_without_date_or_heading_is_skipped() {
    match ingest_post("x.md", "---\nauthor: me\n---\n\nplain text\n") {
        Ok(Ingested::Skipped(r)) => assert_eq!(r, SkipReason::NoDate),
        _ => panic!("expected a skip"),
    }
}

#[test]
fn ingest_without_title_is_skipped() {
    match ingest_post("x.md", "---\ndate: 2024-01-01 12:00\n---\n\n## Only a subheading\n") {
        Ok(Ingested::Skipped(r)) => assert_eq!(r, SkipReason::NoTitle),
        _ => panic!("expected a skip"),
    }
}

#[test]
fn ingest_malformed_date_aborts() {
    assert_eq!(
        ingest_post("x.md", "---\ndate: yesterday\ntitle: T\n---\n\nbody\n").err(),
        Some(BuildError::MalformedDate)
    );
}

#[test]
fn ingest_keeps_order_and_drops_skipped_files() {
    let files = vec![
        source("a.md", "---\ndate: 2024-01-01 12:00\ntitle: A\n---\n\nx\n"),
        source("skip.md", "no heading and no date\n"),
        source("b.md", "---\ndate: 2024-02-01 12:00\ntitle: B\n---\n\ny\n"),
    ];
    let posts = ingest_posts(&files).unwrap();
    assert_eq!(posts.len(), 2);
    assert_eq!(posts[0].title, "A");
    assert_eq!(posts[1].title, "B");
}

#[test]
fn sort_puts_most_recent_first_and_breaks_ties_by_slug() {
    let sorted = sort_posts(vec![post(1, "a", "A"), post(3, "d", "D"), post(2, "c", "C"), post(3, "b", "B")]);
    let slugs: Vec<&str> = sorted.iter().map(|p| p.slug.as_str()).collect();
    assert_eq!(slugs, vec!["b", "d", "c", "a"]);
}

#[test]
fn sort_result_does_not_depend_on_input_order() {
    let one = sort_posts(vec![post(5, "x", "X"), post(5, "a b", "AB"), post(5, "m", "M")]);
    let two = sort_posts(vec![post(5, "m", "M"), post(5, "x", "X"), post(5, "a b", "AB")]);
    let s1: Vec<&str> = one.iter().map(|p| p.slug.as_str()).collect();
    let s2: Vec<&str> = two.iter().map(|p| p.slug.as_str()).collect();
    assert_eq!(s1, vec!["a b", "m", "x"]);
    assert_eq!(s1, s2);
}

#[test]
fn sort_of_empty_list() {
    assert!(sort_posts(vec![]).is_empty());
}

#[test]
fn template_replaces_every_marker() {
    assert_eq!(fill_template("{{title}}|{{body}}|{{title}}", "T", "B"), "T|B|T");
    assert_eq!(fill_template("no markers", "T", "B"), "no markers");
}

#[test]
fn template_is_not_escaped() {
    assert_eq!(fill_template("<b>{{body}}</b>", "", "<i>&</i>"), "<b><i>&</i></b>");
}

#[test]
fn post_pages_one_per_post() {
    let posts = vec![post(1, "a", "A"), post(2, "b", "B")];
    let pages = build_post_pages("{{title}}:{{body}}", &posts);
    assert_eq!(pages.len(), 2);
    assert_eq!(pages[0].slug, "a");
    assert_eq!(pages[0].html, "A:<p>A</p>");
    assert_eq!(pages[1].html, "B:<p>B</p>");
}

#[test]
fn archive_list_markup() {
    let posts = vec![post(2, "b", "B")];
    let list = archive_list(&posts, &vec!["2024-02-01".to_string()]);
    assert_eq!(
        list,
        "<h1>Archive</h1><ul class=\"archive\">\n                <li>\n                    <a href=\"/p/b\">\n                        <span class=\"date\">2024-02-01</span> B\n                    </a>\n                </li></ul>"
    );
}

#[test]
fn archive_of_no_posts() {
    let page = build_archive("{{title}}:{{body}}", &vec![]).unwrap();
    assert_eq!(page, "Archive:<h1>Archive</h1><ul class=\"archive\"></ul>");
}

#[test]
fn archive_lists_dates_in_utc() {
    // 2024-01-01 00:30 in Berlin is still 2023-12-31 in UTC.
    let page = build_archive("{{body}}", &vec![post(1704065400, "a", "A")]).unwrap();
    assert!(page.contains("<span class=\"date\">2023-12-31</span> A"));
}

#[test]
fn feed_fields() {
    let posts = vec![post(FEB, "b", "B"), post(JAN, "a", "A")];
    let dates = vec!["d1".to_string(), "d2".to_string()];
    let feed = assemble_feed(&posts, &dates);
    assert_eq!(feed.title, "Timm Preetz");
    assert_eq!(feed.link, "https://timm.preetz.xyz");
    assert_eq!(feed.last_build_date.as_deref(), Some("d1"));
    assert_eq!(feed.items.len(), 2);
    assert_eq!(feed.items[0].title, "B");
    assert_eq!(feed.items[0].guid, "https://timm.preetz.xyz/p/b");
    assert!(feed.items[0].guid_is_permalink);
    assert_eq!(feed.items[0].description, "plain text desc");
    assert_eq!(feed.items[0].content, "<p>B</p>");
    assert_eq!(feed.items[1].pub_date, "d2");
}

#[test]
fn feed_of_no_posts_has_no_last_build_date() {
    let feed = assemble_feed(&vec![], &vec![]);
    assert_eq!(feed.last_build_date, None);
    let xml = String::from_utf8(build_feed(&vec![]).unwrap()).unwrap();
    assert!(!xml.contains("lastBuildDate"));
    assert!(xml.contains("<title>Timm Preetz</title>"));
}

#[test]
fn feed_document_dates_and_order() {
    let posts = vec![post(FEB, "b", "B"), post(JAN, "a", "A")];
    let xml = String::from_utf8(build_feed(&posts).unwrap()).unwrap();
    assert!(xml.contains("<lastBuildDate>Thu, 1 Feb 2024 11:00:00 +0000</lastBuildDate>"));
    assert!(xml.contains("<pubDate>Mon, 1 Jan 2024 11:00:00 +0000</pubDate>"));
    let b = xml.find("<title>B</title>").unwrap();
    let a = xml.find("<title>A</title>").unwrap();
    assert!(b < a);
    assert!(xml.contains("https://timm.preetz.xyz/p/b"));
    assert!(xml.contains("\n  <channel>\n    <title>Timm Preetz</title>"));
}

#[test]
fn feed_invalid_date_form_is_rejected() {
    // Past the year 9999: the date cannot be written.
    let posts = vec![post(i64::MAX, "x", "X")];
    assert_eq!(build_feed(&posts).err(), Some(BuildError::DateFormat));
    let posts = vec![post(253402300800, "x", "X")];
    assert_eq!(build_feed(&posts).err(), Some(BuildError::DateFormat));
}

const CV: &str = "- company: Acme\n  startDate: 2020\n  endDate: 2022\n  position: Engineer\n  summary: ignored\n  technologies:\n    - Rust\n    - Go\n  highlights:\n    - Shipped it\n- company: Beta\n  startDate: '2018'\n  endDate: '2020'\n  position: Intern\n  technologies: []\n  highlights:\n    - Learned\n";

#[test]
fn cv_reads_entries_in_order() {
    let cv = "- company: Acme\n  startDate: Jan 2020\n  endDate: Dec 2022\n  position: Engineer\n  technologies: [Rust, 5, Go]\n  highlights: [Shipped it]\n- company: Beta\n  startDate: '2018'\n  endDate: '2020'\n  position: Intern\n  technologies: []\n  highlights: [Learned]\n";
    let es = read_cv(cv).unwrap();
    assert_eq!(es.len(), 2);
    assert_eq!(es[0].company, "Acme");
    assert_eq!(es[0].start_date, "Jan 2020");
    assert_eq!(es[0].technologies, vec!["Rust".to_string(), "Go".to_string()]);
    assert_eq!(es[1].company, "Beta");
    assert_eq!(es[1].highlights, vec!["Learned".to_string()]);
}

#[test]
fn cv_numeric_dates_are_not_strings() {
    assert_eq!(read_cv(CV).err(), faults(vec![(0, vec![CvField::StartDate, CvField::EndDate])]));
}

#[test]
fn cv_missing_end_date_names_the_entry() {
    let cv = "- company: A\n  startDate: x\n  endDate: y\n  position: p\n  technologies: []\n  highlights: []\n- company: B\n  startDate: x\n  position: p\n  technologies: []\n  highlights: []\n";
    assert_eq!(build_cv("{{body}}", cv).err(), faults(vec![(1, vec![CvField::EndDate])]));
}

#[test]
fn cv_technologies_must_be_a_list() {
    let cv = "- company: A\n  startDate: x\n  endDate: y\n  position: p\n  technologies: Rust\n  highlights: []\n";
    assert_eq!(read_cv(cv).err(), faults(vec![(0, vec![CvField::Technologies])]));
}

#[test]
fn cv_document_shape_errors() {
    assert_eq!(read_cv("company: A").err(), Some(BuildError::CvShape));
    assert_eq!(read_cv("").err(), Some(BuildError::CvShape));
    assert_eq!(read_cv("- [a").err(), Some(BuildError::CvSyntax));
    assert_eq!(
        read_cv("- just text").err(),
        faults(vec![(
            0,
            vec![
                CvField::Company,
                CvField::StartDate,
                CvField::EndDate,
                CvField::Position,
                CvField::Technologies,
                CvField::Highlights,
            ],
        )])
    );
}

#[test]
fn cv_markup_sections() {
    let cv = "- company: Acme\n  startDate: '2020'\n  endDate: '2022'\n  position: Engineer\n  technologies: [Rust, Go]\n  highlights: [Shipped]\n";
    let es = read_cv(cv).unwrap();
    let body = cv_markup(&es);
    assert!(body.starts_with("\n        <div class=\"printOnly page-break-after\">"));
    assert!(body.ends_with(
        "<section><h2>Acme</h2>\n<span class=\"date\">2020 – 2022</span><ul class=\"technologies\"><li>Rust</li>\n<li>Go</li>\n</ul>\n<i class=\"role\">Engineer</i><ul class=\"highlights\"><li>Shipped</li>\n</ul>\n</section>"
    ));
}

#[test]
fn cv_page_injections() {
    let cv = "- company: Acme\n  startDate: '2020'\n  endDate: '2022'\n  position: Engineer\n  technologies: []\n  highlights: []\n";
    let page = build_cv(TEMPLATE, cv).unwrap();
    assert!(page.contains("<title>CV</title><meta name=\"robots\" content=\"noindex\">\n</head>"));
    assert!(page.contains("<main class=\"cv\">"));
    assert!(page.contains("<h2>Acme</h2>"));
}

#[test]
fn cv_sections_in_input_order() {
    let cv = "- company: First\n  startDate: a\n  endDate: b\n  position: p\n  technologies: []\n  highlights: []\n- company: Second\n  startDate: a\n  endDate: b\n  position: p\n  technologies: []\n  highlights: []\n";
    let page = build_cv("{{body}}", cv).unwrap();
    assert_eq!(page.matches("<section>").count(), 2);
    assert!(page.find("First").unwrap() < page.find("Second").unwrap());
}

#[test]
fn markdown_page_renders() {
    let page = build_markdown_page("{{title}}:{{body}}", "Projects", "# Hi\n").unwrap();
    assert_eq!(page, "Projects:<h1>Hi</h1>\n");
}

#[test]
fn parse_posts_sorts_most_recent_first() {
    let files = vec![
        source("a.md", "---\ndate: 2024-01-01 12:00\ntitle: A\n---\n\nx\n"),
        source("b.md", "---\ndate: 2024-02-01 12:00\ntitle: B\n---\n\ny\n"),
    ];
    let posts = parse_posts(&files).unwrap();
    assert_eq!(posts[0].title, "B");
    assert_eq!(posts[1].title, "A");
}

fn two_post_site() -> SiteSources {
    SiteSources {
        template: TEMPLATE.to_string(),
        posts: vec![
            source("post one.md", "---\ndate: 2024-01-01 12:00\ntitle: A\n---\n\nfirst\n"),
            source("post two.md", "---\ndate: 2024-02-01 12:00\ntitle: B\n---\n\nsecond\n"),
            source("draft.md", "just a draft\n"),
        ],
        index_html: "<p>home</p>".to_string(),
        projects_md: "# Projects\n".to_string(),
        contact_md: "mail me\n".to_string(),
        cv_yaml: "- company: Acme\n  startDate: '2020'\n  endDate: '2022'\n  position: Engineer\n  technologies: []\n  highlights: []\n".to_string(),
    }
}

#[test]
fn two_posts_scenario() {
    let site = build_site(&two_post_site()).unwrap();
    assert_eq!(site.post_pages.len(), 2);
    let one = site.post_pages.iter().find(|p| p.slug == "post-one").unwrap();
    let two = site.post_pages.iter().find(|p| p.slug == "post-two").unwrap();
    assert!(one.html.contains("<title>A</title>"));
    assert!(two.html.contains("<title>B</title>"));
    let b = site.archive.find("/p/post-two").unwrap();
    let a = site.archive.find("/p/post-one").unwrap();
    assert!(b < a);
    assert!(site.archive.contains("<span class=\"date\">2024-02-01</span> B"));
    let xml = String::from_utf8(site.feed.clone()).unwrap();
    assert!(xml.contains("<lastBuildDate>Thu, 1 Feb 2024 11:00:00 +0000</lastBuildDate>"));
    assert!(xml.find("<title>B</title>").unwrap() < xml.find("<title>A</title>").unwrap());
    assert!(site.index.contains("<title>Homes</title>"));
    assert!(site.projects.contains("<h1>Projects</h1>"));
    assert!(site.contact.contains("<p>mail me</p>"));
    assert!(site.cv.contains("<main class=\"cv\">"));
}

#[test]
fn cv_missing_end_date_fails_the_site() {
    let mut src = two_post_site();
    src.cv_yaml = "- company: Acme\n  startDate: '2020'\n  position: Engineer\n  technologies: []\n  highlights: []\n".to_string();
    assert_eq!(build_site(&src).err(), faults(vec![(0, vec![CvField::EndDate])]));
}

#[test]
fn undated_file_is_in_no_output() {
    let mut src = two_post_site();
    src.posts.push(source("orphan.md", "---\nauthor: x\n---\n\nno heading here\n"));
    let site = build_site(&src).unwrap();
    assert_eq!(site.post_pages.len(), 2);
    assert!(!site.archive.contains("orphan"));
    assert!(!String::from_utf8(site.feed).unwrap().contains("orphan"));
}

#[test]
fn stripping_front_matter_preserves_body_rendering() {
    let body = "# Heading\n\nSome *emphasis*, **strong** and `code`.\n\n- one\n- two\n\n> quoted\n\n[link](https://example.com)\n";
    let with_front = format!("---\ndate: 2024-01-01 12:00\ntitle: T\n---\n\n{}", body);
    let p = accepted(ingest_post("x.md", &with_front));
    assert_eq!(p.html_body, markdown::to_html(body));
}

#[test]
fn document_without_front_matter_keeps_every_block() {
    // No front matter: nothing is removed, so a dated post is impossible and
    // the file is skipped rather than losing its first block.
    match ingest_post("x.md", "# Title\n\n---\n\nafter rule\n") {
        Ok(Ingested::Skipped(r)) => assert_eq!(r, SkipReason::NoDate),
        _ => panic!("expected a skip"),
    }
}

#[test]
fn heading_title_is_its_whole_text_content() {
    let p = accepted(ingest_post("h.md", "---\ndate: 2024-01-01 00:00\n---\n# Hello *world*\n"));
    assert_eq!(p.title, "Hello world");
    let p = accepted(ingest_post("h.md", "---\ndate: 2024-01-01 00:00\n---\n# Use `code` and [a **link**](x)\n"));
    assert_eq!(p.title, "Use code and a link");
}

#[test]
fn empty_level_one_heading_gives_empty_title() {
    let p = accepted(ingest_post("h.md", "---\ndate: 2024-01-01 00:00\n---\n#\n\ntext\n"));
    assert_eq!(p.title, "");
}

#[test]
fn cv_reports_every_missing_field_of_every_faulty_entry() {
    let cv = "- company: A\n  position: p\n  technologies: []\n- company: B\n  startDate: x\n  endDate: y\n  position: p\n  technologies: []\n  highlights: []\n- startDate: x\n  endDate: y\n  technologies: []\n  highlights: []\n";
    assert_eq!(
        read_cv(cv).err(),
        faults(vec![
            (0, vec![CvField::StartDate, CvField::EndDate, CvField::Highlights]),
            (2, vec![CvField::Company, CvField::Position]),
        ])
    );
}

#[test]
fn cv_summary_is_optional() {
    let cv = "- company: A\n  startDate: x\n  endDate: y\n  position: p\n  technologies: []\n  highlights: []\n";
    assert_eq!(read_cv(cv).unwrap().len(), 1);
}
