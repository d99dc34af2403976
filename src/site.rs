//! The whole site, built from its sources in one pass.
use vstd::prelude::*;
use crate::cv::{build_cv, cv_document_spec, reports};
use crate::feed::{build_feed, feed_result};
use crate::document::html_of;
use crate::pages::{
    archive_markup, page_of, build_archive, build_html_page, build_markdown_page, build_post_pages, filled, ymd_dates,
    PostPage,
};
use crate::cv::cv_page;
use crate::post::{accepted_count, ingest_files_spec, ordered_posts_of, parse_posts, BuildError, Post, SourceFile};

verus! {

/// The sources of the site.
pub struct SiteSources {
    /// The page template, with `{{title}}` and `{{body}}` markers.
    pub template: String,
    /// The post sources, one per file of the posts directory.
    pub posts: Vec<SourceFile>,
    /// The home page's HTML.
    pub index_html: String,
    /// The projects page's markdown.
    pub projects_md: String,
    /// The contact page's markdown.
    pub contact_md: String,
    /// The CV document.
    pub cv_yaml: String,
}

/// The rendered site.
pub struct Site {
    pub post_pages: Vec<PostPage>,
    pub archive: String,
    pub feed: Vec<u8>,
    pub index: String,
    pub projects: String,
    pub contact: String,
    pub cv: String,
}

/// One page per post, in order, each the template filled with the post's title and body.
pub open spec fn pages_for(pages: Seq<PostPage>, template: Seq<char>, ps: Seq<Post>) -> bool {
    &&& pages.len() == ps.len()
    &&& forall|i: int| 0 <= i < ps.len() ==> #[trigger] page_of(pages[i], template, ps[i])
}

/// The post pages, the feed and the archive of `site` are those of the ordered posts `ps`.
pub open spec fn post_outputs(site: Site, template: Seq<char>, ps: Seq<Post>) -> bool {
    &&& pages_for(site.post_pages@, template, ps)
    &&& feed_result(ps) == Ok::<_, BuildError>(site.feed@)
    &&& ymd_dates(ps) is Some
    &&& site.archive@ == filled(template, "Archive"@, archive_markup(ps, ymd_dates(ps)->0))
}

/// Builds every page of the site; the first fatal condition stops the build,
/// and the build succeeds where none arises.
/// There is one post page per source file whose date and title both resolve.
pub fn build_site(src: &SiteSources) -> (r: Result<Site, BuildError>)
    ensures
        ingest_files_spec(src.posts@) is Err ==> r == Err::<Site, _>(ingest_files_spec(src.posts@)->Err_0),
        match r {
            Ok(site) => {
                &&& site.post_pages.len() == accepted_count(src.posts@)
                &&& exists|ps: Seq<Post>|
                    #![trigger ordered_posts_of(src.posts@, ps)]
                    ordered_posts_of(src.posts@, ps) && post_outputs(site, src.template@, ps)
                &&& site.index@ == filled(src.template@, "Homes"@, src.index_html@)
                &&& html_of(src.projects_md@) is Some
                &&& site.projects@ == filled(src.template@, "Projects"@, html_of(src.projects_md@)->0)
                &&& html_of(src.contact_md@) is Some
                &&& site.contact@ == filled(src.template@, "Contact"@, html_of(src.contact_md@)->0)
                &&& cv_document_spec(src.cv_yaml@) is Ok
                &&& site.cv@ == cv_page(src.template@, cv_document_spec(src.cv_yaml@)->Ok_0)
            },
            Err(e) => {
                ||| ingest_files_spec(src.posts@) == Err::<Seq<crate::post::PostView>, _>(e)
                ||| exists|ps: Seq<Post>|
                    #![trigger ordered_posts_of(src.posts@, ps)]
                    ordered_posts_of(src.posts@, ps) && (feed_result(ps) == Err::<Seq<u8>, _>(e) || (
                    ymd_dates(ps) is None && e == BuildError::DateFormat))
                ||| e == BuildError::HtmlRender && (html_of(src.projects_md@) is None || html_of(
                    src.contact_md@,
                ) is None)
                ||| cv_document_spec(src.cv_yaml@) is Err && reports(e, cv_document_spec(src.cv_yaml@)->Err_0)
            },
        },
{
    let posts = match parse_posts(&src.posts) {
        Ok(ps) => ps,
        Err(e) => return Err(e),
    };
    let post_pages = build_post_pages(src.template.as_str(), &posts);
    let feed = match build_feed(&posts) {
        Ok(f) => f,
        Err(e) => return Err(e),
    };
    let archive = match build_archive(src.template.as_str(), &posts) {
        Ok(a) => a,
        Err(e) => return Err(e),
    };
    let index = build_html_page(src.template.as_str(), "Homes", src.index_html.as_str());
    let projects = match build_markdown_page(src.template.as_str(), "Projects", src.projects_md.as_str()) {
        Ok(p) => p,
        Err(e) => return Err(e),
    };
    let contact = match build_markdown_page(src.template.as_str(), "Contact", src.contact_md.as_str()) {
        Ok(p) => p,
        Err(e) => return Err(e),
    };
    let cv = match build_cv(src.template.as_str(), src.cv_yaml.as_str()) {
        Ok(c) => c,
        Err(e) => return Err(e),
    };
    let site = Site { post_pages, archive, feed, index, projects, contact, cv };
    assert(post_outputs(site, src.template@, posts@));
    Ok(site)
}

} // verus!
