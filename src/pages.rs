//! Page builders: templated pages, post pages and the archive.
use vstd::prelude::*;
use crate::clock::{format_ymd, ymd_of};
use crate::document::{html_of, render_html};
use crate::post::{sorted_desc, BuildError, Post};
use crate::text::{replace_all, replaced_of};

verus! {

/// The template with every title marker and then every body marker replaced.
pub open spec fn filled(template: Seq<char>, title: Seq<char>, body: Seq<char>) -> Seq<char> {
    replaced_of(replaced_of(template, "{{title}}"@, title), "{{body}}"@, body)
}

/// Renders the page template: every `{{title}}` becomes `title`, then every
/// `{{body}}` becomes `body`, literally and without escaping.
pub fn fill_template(template: &str, title: &str, body: &str) -> (r: String)
    ensures
        r@ == filled(template@, title@, body@),
{
    proof {
        reveal_strlit("{{title}}");
        reveal_strlit("{{body}}");
    }
    let with_title = replace_all(template, "{{title}}", title);
    replace_all(with_title.as_str(), "{{body}}", body)
}

/// A page of a post, to be written under `p/<slug>.html`.
pub struct PostPage {
    pub slug: String,
    pub html: String,
}

/// The page of `post`: its slug, and the template filled with its title and body.
pub open spec fn page_of(page: PostPage, template: Seq<char>, post: Post) -> bool {
    page.slug@ == post.slug@ && page.html@ == filled(template, post.title@, post.html_body@)
}

/// Renders one page per post, in the given order.
pub fn build_post_pages(template: &str, posts: &Vec<Post>) -> (r: Vec<PostPage>)
    ensures
        r.len() == posts.len(),
        forall|i: int| 0 <= i < posts.len() ==> #[trigger] page_of(r@[i], template@, posts@[i]),
{
    let mut out: Vec<PostPage> = Vec::new();
    let mut i: usize = 0;
    while i < posts.len()
        invariant
            i <= posts.len(),
            out.len() == i,
            forall|k: int| 0 <= k < i ==> #[trigger] page_of(out@[k], template@, posts@[k]),
        decreases posts.len() - i,
    {
        let p = &posts[i];
        let html = fill_template(template, p.title.as_str(), p.html_body.as_str());
        let slug = p.slug.clone();
        let page = PostPage { slug, html };
        assert(page_of(page, template@, posts@[i as int]));
        out.push(page);
        i = i + 1;
    }
    out
}

/// A page made of fixed HTML put in the template.
pub fn build_html_page(template: &str, title: &str, source: &str) -> (r: String)
    ensures
        r@ == filled(template@, title@, source@),
{
    fill_template(template, title, source)
}

/// A page whose body is markdown rendered to HTML and put in the template.
pub fn build_markdown_page(template: &str, title: &str, source: &str) -> (r: Result<String, BuildError>)
    ensures
        match r {
            Ok(page) => html_of(source@) is Some && page@ == filled(template@, title@, html_of(source@)->0),
            Err(e) => html_of(source@) is None && e == BuildError::HtmlRender,
        },
{
    match render_html(source) {
        Some(body) => Ok(fill_template(template, title, body.as_str())),
        None => Err(BuildError::HtmlRender),
    }
}

/// The archive entry of one post.
pub open spec fn archive_entry(url_path: Seq<char>, date: Seq<char>, title: Seq<char>) -> Seq<char> {
    "\n                <li>\n                    <a href=\""@ + url_path + "\">\n                        <span class=\"date\">"@
        + date + "</span> "@ + title + "\n                    </a>\n                </li>"@
}

/// The archive entries of the first `n` posts, in order.
pub open spec fn archive_items(posts: Seq<Post>, dates: Seq<Seq<char>>, n: nat) -> Seq<char>
    decreases n,
{
    if n == 0 {
        Seq::empty()
    } else {
        archive_items(posts, dates, (n - 1) as nat) + archive_entry(
            posts[n - 1].url_path@,
            dates[n - 1],
            posts[n - 1].title@,
        )
    }
}

/// The archive's list markup.
pub open spec fn archive_markup(posts: Seq<Post>, dates: Seq<Seq<char>>) -> Seq<char> {
    "<h1>Archive</h1>"@ + "<ul class=\"archive\">"@ + archive_items(posts, dates, posts.len()) + "</ul>"@
}

/// The dates of the posts in the archive's form, where every one can be written.
pub open spec fn ymd_dates(posts: Seq<Post>) -> Option<Seq<Seq<char>>>
    decreases posts.len(),
{
    if posts.len() == 0 {
        Some(Seq::empty())
    } else {
        match (ymd_dates(posts.drop_last()), ymd_of(posts.last().published_at as int)) {
            (Some(ds), Some(d)) => Some(ds.push(d)),
            _ => None,
        }
    }
}

/// The views of a list of strings.
pub open spec fn string_views(v: Seq<String>) -> Seq<Seq<char>> {
    v.map_values(|s: String| s@)
}

/// The archive's list markup: one entry per post, in the given order, with the
/// post's path, its date as given in `dates`, and its title.
pub fn archive_list(posts: &Vec<Post>, dates: &Vec<String>) -> (r: String)
    requires
        dates.len() == posts.len(),
    ensures
        r@ == archive_markup(posts@, string_views(dates@)),
{
    let ghost ds = string_views(dates@);
    let mut list = String::from_str("<h1>Archive</h1>");
    list.append("<ul class=\"archive\">");
    let mut i: usize = 0;
    while i < posts.len()
        invariant
            i <= posts.len(),
            dates.len() == posts.len(),
            ds == string_views(dates@),
            list@ == "<h1>Archive</h1>"@ + "<ul class=\"archive\">"@ + archive_items(posts@, ds, i as nat),
        decreases posts.len() - i,
    {
        let p = &posts[i];
        list.append("\n                <li>\n                    <a href=\"");
        list.append(p.url_path.as_str());
        list.append("\">\n                        <span class=\"date\">");
        list.append(dates[i].as_str());
        list.append("</span> ");
        list.append(p.title.as_str());
        list.append("\n                    </a>\n                </li>");
        assert(ds[i as int] == dates@[i as int]@);
        i = i + 1;
    }
    list.append("</ul>");
    list
}

/// The dates of all posts in the archive's form, `YYYY-MM-DD`.
fn archive_dates(posts: &Vec<Post>) -> (r: Option<Vec<String>>)
    ensures
        match r {
            Some(ds) => ymd_dates(posts@) == Some(string_views(ds@)) && ds.len() == posts.len(),
            None => ymd_dates(posts@) is None,
        },
{
    let mut out: Vec<String> = Vec::new();
    let mut i: usize = 0;
    assert(posts@.take(0) =~= Seq::<Post>::empty());
    assert(string_views(out@) =~= Seq::<Seq<char>>::empty());
    while i < posts.len()
        invariant
            i <= posts.len(),
            out.len() == i,
            ymd_dates(posts@.take(i as int)) == Some(string_views(out@)),
        decreases posts.len() - i,
    {
        assert(posts@.take(i + 1).drop_last() =~= posts@.take(i as int));
        assert(posts@.take(i + 1).last() == posts@[i as int]);
        match format_ymd(posts[i].published_at) {
            Some(d) => {
                let ghost before = out@;
                out.push(d);
                assert(string_views(out@) =~= string_views(before).push(out@.last()@));
            },
            None => {
                proof { lemma_ymd_prefix_none(posts@, i + 1); }
                return None;
            },
        }
        i = i + 1;
    }
    assert(posts@.take(posts@.len() as int) =~= posts@);
    Some(out)
}

/// A date that cannot be written among the first `k` posts leaves all of them without dates.
proof fn lemma_ymd_prefix_none(posts: Seq<Post>, k: int)
    requires
        0 <= k <= posts.len(),
        ymd_dates(posts.take(k)) is None,
    ensures
        ymd_dates(posts) is None,
    decreases posts.len(),
{
    if posts.len() == k {
        assert(posts.take(k) =~= posts);
    } else {
        assert(posts.drop_last().take(k) =~= posts.take(k));
        lemma_ymd_prefix_none(posts.drop_last(), k);
    }
}

/// The archive page: every post in the given order, with its date as `YYYY-MM-DD`.
pub fn build_archive(template: &str, posts: &Vec<Post>) -> (r: Result<String, BuildError>)
    ensures
        match r {
            Ok(page) => ymd_dates(posts@) is Some && page@ == filled(
                template@,
                "Archive"@,
                archive_markup(posts@, ymd_dates(posts@)->0),
            ),
            Err(e) => ymd_dates(posts@) is None && e == BuildError::DateFormat,
        },
{
    match archive_dates(posts) {
        None => Err(BuildError::DateFormat),
        Some(dates) => {
            let list = archive_list(posts, &dates);
            Ok(fill_template(template, "Archive", list.as_str()))
        },
    }
}

/// The archive's entries for the first `m` posts open those for the first `n`.
proof fn lemma_archive_prefix(posts: Seq<Post>, dates: Seq<Seq<char>>, m: nat, n: nat)
    requires
        m <= n,
    ensures
        archive_items(posts, dates, m).is_prefix_of(archive_items(posts, dates, n)),
    decreases n,
{
    if m < n {
        lemma_archive_prefix(posts, dates, m, (n - 1) as nat);
        let a = archive_items(posts, dates, m);
        let b = archive_items(posts, dates, (n - 1) as nat);
        let c = archive_items(posts, dates, n);
        assert(c.take(b.len() as int) =~= b);
        assert(c.take(a.len() as int) =~= b.take(a.len() as int));
    }
}

/// The archive lists one entry per post, in the order given: for `i < j`, the
/// text up to and including entry `i` opens the text up to entry `j`, which
/// ends with entry `j`. For posts in the sorter's order, the dates of the
/// entries never increase down the page.
pub proof fn lemma_archive_in_date_order(posts: Seq<Post>, dates: Seq<Seq<char>>, i: int, j: int)
    requires
        sorted_desc(posts),
        dates.len() == posts.len(),
        0 <= i < j < posts.len(),
    ensures
        posts[i].published_at >= posts[j].published_at,
        archive_items(posts, dates, (i + 1) as nat).is_prefix_of(archive_items(posts, dates, (j + 1) as nat)),
        archive_items(posts, dates, (i + 1) as nat) == archive_items(posts, dates, i as nat) + archive_entry(
            posts[i].url_path@,
            dates[i],
            posts[i].title@,
        ),
        archive_items(posts, dates, (j + 1) as nat) == archive_items(posts, dates, j as nat) + archive_entry(
            posts[j].url_path@,
            dates[j],
            posts[j].title@,
        ),
        archive_items(posts, dates, (j + 1) as nat).is_prefix_of(archive_items(posts, dates, posts.len())),
{
    lemma_archive_prefix(posts, dates, (i + 1) as nat, (j + 1) as nat);
    lemma_archive_prefix(posts, dates, (j + 1) as nat, posts.len());
}

} // verus!
