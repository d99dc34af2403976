//! Posts: front matter, title and date resolution, slugs, ingestion and order.
use vstd::prelude::*;
use vstd::multiset::Multiset;
use crate::clock::{berlin_instant_of, berlin_to_utc, civil_time_of, parse_civil_time};
use crate::document::{
    blocks_of, html_of, markdown_text_of, mdast_of, parse_markdown, remove_first_block,
    render_html, top_blocks, without_first_of, write_markdown, inlines_text, Block, Inline,
};
use crate::text::{replace_all, replaced_of};
use crate::yaml::{load_yaml, lookup, text_of, yaml_docs_of, YamlValue};

verus! {

/// A fatal condition that aborts the build.
#[derive(PartialEq, Eq, Debug)]
pub enum BuildError {
    /// The markdown parser refused a source file.
    MarkdownSyntax,
    /// A front-matter block is not well-formed YAML.
    FrontMatterSyntax,
    /// A front-matter block is not a mapping, or `date` or `title` is not a string.
    FrontMatterShape,
    /// A front-matter `date` does not match `YYYY-MM-DD HH:MM`.
    MalformedDate,
    /// A front-matter `date` names no single instant in the site's time zone.
    AmbiguousLocalTime,
    /// A post's body could not be written back as markdown.
    MarkdownWrite,
    /// Markdown could not be rendered to HTML.
    HtmlRender,
    /// A post's date cannot be written in the feed's or the archive's form.
    DateFormat,
    /// The assembled feed fails the feed format's own validation.
    FeedInvalid,
    /// The feed could not be serialized.
    FeedWrite,
    /// The CV document is not well-formed YAML.
    CvSyntax,
    /// The CV document does not hold a sequence of entries.
    CvShape,
    /// These CV entries lack required fields, or hold them in the wrong shape:
    /// every faulty entry, in order, with every field it lacks.
    CvMissingFields(Vec<CvEntryFault>),
}

/// A CV entry that lacks required fields.
#[derive(PartialEq, Eq, Debug)]
pub struct CvEntryFault {
    /// The entry's index in the CV sequence.
    pub entry: usize,
    /// The fields it lacks, in the order company, start date, end date,
    /// position, technologies, highlights.
    pub missing: Vec<CvField>,
}

/// A required field of a CV entry.
#[derive(PartialEq, Eq, Structural, Clone, Copy, Debug)]
pub enum CvField {
    Company,
    StartDate,
    EndDate,
    Position,
    Technologies,
    Highlights,
}

/// What a front-matter block says of a post.
pub struct FrontMatter {
    /// The publication instant, in seconds since the Unix epoch.
    pub date: Option<i64>,
    pub title: Option<String>,
}

/// A rendered post.
pub struct Post {
    /// The publication instant, in seconds since the Unix epoch (UTC).
    pub published_at: i64,
    pub slug: String,
    pub url_path: String,
    pub title: String,
    pub html_body: String,
}

/// Why a source file yields no post.
#[derive(PartialEq, Eq, Structural, Clone, Copy, Debug)]
pub enum SkipReason {
    NoDate,
    NoTitle,
}

/// The outcome of ingesting one source file.
pub enum Ingested {
    Accepted(Post),
    Skipped(SkipReason),
}

/// A post as plain values.
pub ghost struct PostView {
    pub published_at: int,
    pub slug: Seq<char>,
    pub url_path: Seq<char>,
    pub title: Seq<char>,
    pub html_body: Seq<char>,
}

/// The outcome of ingestion as plain values.
pub ghost enum IngestedView {
    Accepted(PostView),
    Skipped(SkipReason),
}

impl View for Post {
    type V = PostView;

    open spec fn view(&self) -> PostView {
        PostView {
            published_at: self.published_at as int,
            slug: self.slug@,
            url_path: self.url_path@,
            title: self.title@,
            html_body: self.html_body@,
        }
    }
}

impl View for Ingested {
    type V = IngestedView;

    open spec fn view(&self) -> IngestedView {
        match self {
            Ingested::Accepted(p) => IngestedView::Accepted(p@),
            Ingested::Skipped(r) => IngestedView::Skipped(*r),
        }
    }
}

/// The front-matter fields as plain values.
pub open spec fn front_matter_view(f: FrontMatter) -> (Option<int>, Option<Seq<char>>) {
    (
        match f.date {
            Some(d) => Some(d as int),
            None => None,
        },
        crate::opt_view(f.title),
    )
}

/// The instant that a front-matter `date` string names, or why it names none.
pub open spec fn date_value(s: Seq<char>) -> Result<int, BuildError> {
    match civil_time_of(s) {
        None => Err(BuildError::MalformedDate),
        Some((y, mo, d, h, mi)) => match berlin_instant_of(y, mo, d, h, mi) {
            None => Err(BuildError::AmbiguousLocalTime),
            Some(ts) => Ok(ts),
        },
    }
}

/// The date and title that a front-matter block gives, or the fatal error it holds.
pub open spec fn front_matter_spec(text: Seq<char>) -> Result<(Option<int>, Option<Seq<char>>), BuildError> {
    match yaml_docs_of(text) {
        None => Err(BuildError::FrontMatterSyntax),
        Some(docs) => if docs.len() == 0 || !(docs[0] is Mapping) {
            Err(BuildError::FrontMatterShape)
        } else {
            let date = lookup(docs[0], seq!['d', 'a', 't', 'e']);
            let title = lookup(docs[0], seq!['t', 'i', 't', 'l', 'e']);
            if (date is Some && text_of(date->0) is None) || (title is Some && text_of(title->0) is None) {
                Err(BuildError::FrontMatterShape)
            } else {
                let t = match title {
                    Some(v) => text_of(v),
                    None => None,
                };
                match date {
                    None => Ok((None, t)),
                    Some(v) => match date_value(text_of(v)->0) {
                        Err(e) => Err(e),
                        Ok(ts) => Ok((Some(ts), t)),
                    },
                }
            }
        },
    }
}

/// Reads `date` and `title` from the text of a front-matter block.
pub fn read_front_matter(text: &str) -> (r: Result<FrontMatter, BuildError>)
    ensures
        match r {
            Ok(f) => front_matter_spec(text@) == Ok::<_, BuildError>(front_matter_view(f)),
            Err(e) => front_matter_spec(text@) == Err::<(Option<int>, Option<Seq<char>>), _>(e),
        },
{
    let docs = match load_yaml(text) {
        Some(docs) => docs,
        None => return Err(BuildError::FrontMatterSyntax),
    };
    if docs.len() == 0 {
        return Err(BuildError::FrontMatterShape);
    }
    let doc = &docs[0];
    match doc {
        YamlValue::Mapping(_, _) => {},
        _ => return Err(BuildError::FrontMatterShape),
    }
    proof {
        reveal_strlit("date");
        reveal_strlit("title");
        assert("date"@ =~= seq!['d', 'a', 't', 'e']);
        assert("title"@ =~= seq!['t', 'i', 't', 'l', 'e']);
    }
    let date_node = doc.get("date");
    let title_node = doc.get("title");
    let date_text = match date_node {
        None => None,
        Some(v) => match v.as_text() {
            None => return Err(BuildError::FrontMatterShape),
            Some(s) => Some(s),
        },
    };
    let title = match title_node {
        None => None,
        Some(v) => match v.as_text() {
            None => return Err(BuildError::FrontMatterShape),
            Some(s) => Some(s.clone()),
        },
    };
    let date = match date_text {
        None => None,
        Some(s) => {
            let civil = match parse_civil_time(s.as_str()) {
                None => return Err(BuildError::MalformedDate),
                Some(c) => c,
            };
            match berlin_to_utc(&civil) {
                None => return Err(BuildError::AmbiguousLocalTime),
                Some(ts) => Some(ts),
            }
        },
    };
    Ok(FrontMatter { date, title })
}


/// The text content of the first level-1 heading among `blocks`.
pub open spec fn first_h1_title(blocks: Seq<Block>) -> Option<Seq<char>>
    decreases blocks.len(),
{
    if blocks.len() == 0 {
        None
    } else {
        match blocks[0] {
            Block::Heading(depth, content) if depth == 1 => Some(inlines_text(content@)),
            _ => first_h1_title(blocks.drop_first()),
        }
    }
}

/// The text of the front-matter block that opens a document, if it has one.
pub open spec fn leading_front_matter(blocks: Seq<Block>) -> Option<Seq<char>> {
    if blocks.len() > 0 {
        match blocks[0] {
            Block::FrontMatter(t) => Some(t@),
            _ => None,
        }
    } else {
        None
    }
}

/// The index of the last `.` in `s`, or -1.
pub open spec fn last_dot(s: Seq<char>) -> int
    decreases s.len(),
{
    if s.len() == 0 {
        -1
    } else if s.last() == '.' {
        s.len() - 1
    } else {
        last_dot(s.drop_last())
    }
}

/// A file name without its extension; a name whose only dot leads it has none.
pub open spec fn stem_of(name: Seq<char>) -> Seq<char> {
    if last_dot(name) > 0 {
        name.take(last_dot(name))
    } else {
        name
    }
}

/// The slug of a file name: its stem with each space made a hyphen.
pub open spec fn slug_of(name: Seq<char>) -> Seq<char> {
    replaced_of(stem_of(name), seq![' '], seq!['-'])
}

/// The site path of a post.
pub open spec fn url_path_of(slug: Seq<char>) -> Seq<char> {
    seq!['/', 'p', '/'] + slug
}

/// What ingesting the file `name` with contents `source` yields.
pub open spec fn ingest_spec(name: Seq<char>, source: Seq<char>) -> Result<IngestedView, BuildError> {
    match mdast_of(source) {
        None => Err(BuildError::MarkdownSyntax),
        Some(tree) => {
            let blocks = blocks_of(tree);
            let fm = match leading_front_matter(blocks) {
                Some(t) => front_matter_spec(t),
                None => Ok((None, None)),
            };
            match fm {
                Err(e) => Err(e),
                Ok((date, fm_title)) => {
                    let title = if fm_title is Some { fm_title } else { first_h1_title(blocks) };
                    if date is None {
                        Ok(IngestedView::Skipped(SkipReason::NoDate))
                    } else if title is None {
                        Ok(IngestedView::Skipped(SkipReason::NoTitle))
                    } else {
                        let body = if leading_front_matter(blocks) is Some {
                            without_first_of(tree)
                        } else {
                            tree
                        };
                        match markdown_text_of(body) {
                            None => Err(BuildError::MarkdownWrite),
                            Some(md) => match html_of(md) {
                                None => Err(BuildError::HtmlRender),
                                Some(html) => Ok(
                                    IngestedView::Accepted(
                                        PostView {
                                            published_at: date->0,
                                            slug: slug_of(name),
                                            url_path: url_path_of(slug_of(name)),
                                            title: title->0,
                                            html_body: html,
                                        },
                                    ),
                                ),
                            },
                        }
                    }
                },
            }
        },
    }
}

/// The text content of phrasing nodes: their text and code, in order, through
/// every level of nesting.
pub fn heading_text(content: &Vec<Inline>) -> (r: String)
    ensures
        r@ == inlines_text(content@),
    decreases content,
{
    let mut out = String::new();
    let mut i: usize = 0;
    assert(content@.subrange(0, 0) =~= Seq::<Inline>::empty());
    while i < content.len()
        invariant
            i <= content.len(),
            out@ == inlines_text(content@.subrange(0, i as int)),
        decreases content.len() - i,
    {
        let ghost pre = content@.subrange(0, i + 1);
        assert(pre.subrange(0, pre.len() - 1) =~= content@.subrange(0, i as int));
        assert(pre[pre.len() - 1] == content@[i as int]);
        match &content[i] {
            Inline::Text(t) => out.append(t.as_str()),
            Inline::Code(t) => out.append(t.as_str()),
            Inline::Parent(c) => {
                let inner = heading_text(c);
                out.append(inner.as_str());
            },
            Inline::Other => {
                assert(out@ + Seq::<char>::empty() =~= out@);
            },
        }
        i = i + 1;
    }
    assert(content@.subrange(0, content@.len() as int) =~= content@);
    out
}

/// The title of the first level-1 heading.
pub fn find_h1_title(blocks: &Vec<Block>) -> (r: Option<String>)
    ensures
        crate::opt_view(r) == first_h1_title(blocks@),
{
    let mut i: usize = 0;
    assert(blocks@.skip(0) =~= blocks@);
    while i < blocks.len()
        invariant
            i <= blocks.len(),
            first_h1_title(blocks@) == first_h1_title(blocks@.skip(i as int)),
        decreases blocks.len() - i,
    {
        let ghost rest = blocks@.skip(i as int);
        assert(rest[0] == blocks@[i as int]);
        match &blocks[i] {
            Block::Heading(depth, content) => {
                if *depth == 1 {
                    return Some(heading_text(content));
                }
            },
            _ => {},
        }
        assert(rest.drop_first() =~= blocks@.skip(i + 1));
        i = i + 1;
    }
    None
}

/// The index of the last `.` in `name`.
fn find_last_dot(name: &str) -> (r: Option<usize>)
    ensures
        match r {
            Some(k) => last_dot(name@) == k as int && k < name@.len(),
            None => last_dot(name@) == -1,
        },
{
    let mut i: usize = name.unicode_len();
    assert(name@.take(i as int) =~= name@);
    while i > 0
        invariant
            i <= name@.len(),
            last_dot(name@) == last_dot(name@.take(i as int)),
        decreases i,
    {
        let c = name.get_char(i - 1);
        if c == '.' {
            return Some(i - 1);
        }
        assert(name@.take(i as int).drop_last() =~= name@.take(i - 1));
        i = i - 1;
    }
    None
}

/// The slug of a file name: the name without its extension, spaces made hyphens.
pub fn slug_for(name: &str) -> (r: String)
    ensures
        r@ == slug_of(name@),
{
    let stem = match find_last_dot(name) {
        Some(k) => if k > 0 {
            name.substring_char(0, k)
        } else {
            name
        },
        None => name,
    };
    proof {
        reveal_strlit(" ");
        reveal_strlit("-");
        assert(" "@ =~= seq![' ']);
        assert("-"@ =~= seq!['-']);
    }
    replace_all(stem, " ", "-")
}

/// The site path of the post with this slug.
pub fn url_path_for(slug: &str) -> (r: String)
    ensures
        r@ == url_path_of(slug@),
{
    let mut r = String::from_str("/p/");
    proof {
        reveal_strlit("/p/");
        assert("/p/"@ =~= seq!['/', 'p', '/']);
    }
    r.append(slug);
    r
}

/// Ingests one source file: resolves its date and title, strips its front
/// matter and renders the rest; a file without a date or a title is skipped.
pub fn ingest_post(name: &str, source: &str) -> (r: Result<Ingested, BuildError>)
    ensures
        match r {
            Ok(i) => ingest_spec(name@, source@) == Ok::<_, BuildError>(i@),
            Err(e) => ingest_spec(name@, source@) == Err::<IngestedView, _>(e),
        },
{
    let mut tree = match parse_markdown(source) {
        Some(t) => t,
        None => return Err(BuildError::MarkdownSyntax),
    };
    let blocks = top_blocks(&tree);
    let has_front = blocks.len() > 0 && match &blocks[0] {
        Block::FrontMatter(_) => true,
        _ => false,
    };
    let fm = if has_front {
        match &blocks[0] {
            Block::FrontMatter(t) => match read_front_matter(t.as_str()) {
                Ok(f) => f,
                Err(e) => return Err(e),
            },
            _ => FrontMatter { date: None, title: None },
        }
    } else {
        FrontMatter { date: None, title: None }
    };
    let title = match fm.title {
        Some(t) => Some(t),
        None => find_h1_title(&blocks),
    };
    let date = match fm.date {
        Some(d) => d,
        None => return Ok(Ingested::Skipped(SkipReason::NoDate)),
    };
    let title = match title {
        Some(t) => t,
        None => return Ok(Ingested::Skipped(SkipReason::NoTitle)),
    };
    if has_front {
        remove_first_block(&mut tree);
    }
    let md = match write_markdown(&tree) {
        Some(m) => m,
        None => return Err(BuildError::MarkdownWrite),
    };
    let html = match render_html(md.as_str()) {
        Some(h) => h,
        None => return Err(BuildError::HtmlRender),
    };
    let slug = slug_for(name);
    let url_path = url_path_for(slug.as_str());
    Ok(Ingested::Accepted(Post { published_at: date, slug, url_path, title, html_body: html }))
}


/// A source file: its name and its contents.
pub struct SourceFile {
    pub name: String,
    pub contents: String,
}

/// What ingesting one source file yields.
pub open spec fn ingest_file_spec(f: SourceFile) -> Result<IngestedView, BuildError> {
    ingest_spec(f.name@, f.contents@)
}

/// Whether a source file yields a post.
pub open spec fn is_accepted(f: SourceFile) -> bool {
    match ingest_file_spec(f) {
        Ok(IngestedView::Accepted(_)) => true,
        _ => false,
    }
}

/// The posts that a list of source files yields, in file order, or the first
/// fatal error among them.
pub open spec fn ingest_files_spec(files: Seq<SourceFile>) -> Result<Seq<PostView>, BuildError>
    decreases files.len(),
{
    if files.len() == 0 {
        Ok(Seq::empty())
    } else {
        match ingest_files_spec(files.drop_last()) {
            Err(e) => Err(e),
            Ok(ps) => match ingest_file_spec(files.last()) {
                Err(e) => Err(e),
                Ok(IngestedView::Accepted(p)) => Ok(ps.push(p)),
                Ok(IngestedView::Skipped(_)) => Ok(ps),
            },
        }
    }
}

/// The number of source files that yield a post.
pub open spec fn accepted_count(files: Seq<SourceFile>) -> nat
    decreases files.len(),
{
    if files.len() == 0 {
        0
    } else {
        accepted_count(files.drop_last()) + if is_accepted(files.last()) { 1nat } else { 0nat }
    }
}

/// The views of a list of posts.
pub open spec fn post_views(posts: Seq<Post>) -> Seq<PostView> {
    posts.map_values(|p: Post| p@)
}

/// Ingests every source file, in order, keeping the posts of those not skipped.
pub fn ingest_posts(files: &Vec<SourceFile>) -> (r: Result<Vec<Post>, BuildError>)
    ensures
        match r {
            Ok(ps) => ingest_files_spec(files@) == Ok::<_, BuildError>(post_views(ps@)),
            Err(e) => ingest_files_spec(files@) == Err::<Seq<PostView>, _>(e),
        },
{
    let mut out: Vec<Post> = Vec::new();
    let mut i: usize = 0;
    assert(files@.take(0) =~= Seq::<SourceFile>::empty());
    assert(post_views(out@) =~= Seq::<PostView>::empty());
    while i < files.len()
        invariant
            i <= files.len(),
            ingest_files_spec(files@.take(i as int)) == Ok::<_, BuildError>(post_views(out@)),
        decreases files.len() - i,
    {
        let ghost before = out@;
        assert(files@.take(i + 1).drop_last() =~= files@.take(i as int));
        assert(files@.take(i + 1).last() == files@[i as int]);
        let f = &files[i];
        match ingest_post(f.name.as_str(), f.contents.as_str()) {
            Err(e) => {
                proof { lemma_prefix_error(files@, i + 1); }
                return Err(e);
            },
            Ok(Ingested::Accepted(p)) => {
                out.push(p);
                assert(post_views(out@) =~= post_views(before).push(out@.last()@));
            },
            Ok(Ingested::Skipped(_)) => {},
        }
        i = i + 1;
    }
    assert(files@.take(files@.len() as int) =~= files@);
    Ok(out)
}

/// A fatal error in the first `k` files is the error of the whole list.
proof fn lemma_prefix_error(files: Seq<SourceFile>, k: int)
    requires
        0 <= k <= files.len(),
        ingest_files_spec(files.take(k)) is Err,
    ensures
        ingest_files_spec(files) == ingest_files_spec(files.take(k)),
    decreases files.len(),
{
    if files.len() == k {
        assert(files.take(k) =~= files);
    } else {
        assert(files.drop_last().take(k) =~= files.take(k));
        lemma_prefix_error(files.drop_last(), k);
    }
}

/// The number of posts built equals the number of source files whose date and
/// title both resolve.
pub proof fn lemma_post_count(files: Seq<SourceFile>)
    ensures
        ingest_files_spec(files) is Ok ==> ingest_files_spec(files)->Ok_0.len() == accepted_count(files),
    decreases files.len(),
{
    if files.len() > 0 {
        lemma_post_count(files.drop_last());
    }
}

/// A file whose front matter (if any) gives no date is skipped, whatever its headings.
pub proof fn lemma_undated_file_skipped(name: Seq<char>, source: Seq<char>, tree: markdown::mdast::Node)
    requires
        mdast_of(source) == Some(tree),
        match leading_front_matter(blocks_of(tree)) {
            None => true,
            Some(t) => front_matter_spec(t) is Ok && front_matter_spec(t)->Ok_0.0 is None,
        },
    ensures
        ingest_spec(name, source) == Ok::<_, BuildError>(IngestedView::Skipped(SkipReason::NoDate)),
{
}

/// A skipped file adds nothing to the posts, so nothing to the pages, the
/// archive or the feed built from them.
pub proof fn lemma_skipped_file_excluded(files: Seq<SourceFile>, f: SourceFile)
    requires
        ingest_file_spec(f) is Ok,
        ingest_file_spec(f)->Ok_0 is Skipped,
    ensures
        ingest_files_spec(files.push(f)) == ingest_files_spec(files),
{
    assert(files.push(f).drop_last() =~= files);
}

/// Posts ordered from the most recent to the oldest.
pub open spec fn sorted_desc(posts: Seq<Post>) -> bool {
    forall|i: int, j: int| 0 <= i < j < posts.len() ==> posts[i].published_at >= posts[j].published_at
}

/// Lexicographic order on slugs, by code point.
pub open spec fn slug_le(a: Seq<char>, b: Seq<char>) -> bool
    decreases a.len(),
{
    if a.len() == 0 {
        true
    } else if b.len() == 0 {
        false
    } else if (a[0] as u32) != (b[0] as u32) {
        (a[0] as u32) < (b[0] as u32)
    } else {
        slug_le(a.drop_first(), b.drop_first())
    }
}

/// `p` comes before `q`: it is more recent, or as recent with a slug that is not greater.
pub open spec fn post_before(p: Post, q: Post) -> bool {
    p.published_at > q.published_at || (p.published_at == q.published_at && slug_le(p.slug@, q.slug@))
}

/// Posts in the sorter's order: by date, most recent first, then by slug.
pub open spec fn sorted_posts(posts: Seq<Post>) -> bool {
    forall|i: int, j: int| 0 <= i < j < posts.len() ==> #[trigger] post_before(posts[i], posts[j]) && true
}

/// Any two slugs are ordered one way or the other.
proof fn lemma_slug_le_total(a: Seq<char>, b: Seq<char>)
    ensures
        slug_le(a, b) || slug_le(b, a),
    decreases a.len(),
{
    if a.len() > 0 && b.len() > 0 && (a[0] as u32) == (b[0] as u32) {
        lemma_slug_le_total(a.drop_first(), b.drop_first());
    }
}

/// The slug order is transitive.
proof fn lemma_slug_le_transitive(a: Seq<char>, b: Seq<char>, c: Seq<char>)
    requires
        slug_le(a, b),
        slug_le(b, c),
    ensures
        slug_le(a, c),
    decreases a.len(),
{
    if a.len() > 0 && b.len() > 0 && c.len() > 0 && (a[0] as u32) == (b[0] as u32) && (b[0] as u32) == (c[0] as u32) {
        lemma_slug_le_transitive(a.drop_first(), b.drop_first(), c.drop_first());
    }
}

/// Whether slug `a` is not greater than slug `b`.
fn slug_leq(a: &str, b: &str) -> (r: bool)
    ensures
        r == slug_le(a@, b@),
{
    let la = a.unicode_len();
    let lb = b.unicode_len();
    let mut i: usize = 0;
    assert(a@.skip(0) =~= a@);
    assert(b@.skip(0) =~= b@);
    while i < la && i < lb
        invariant
            la == a@.len(),
            lb == b@.len(),
            i <= la,
            i <= lb,
            slug_le(a@, b@) == slug_le(a@.skip(i as int), b@.skip(i as int)),
        decreases la - i,
    {
        let ca = a.get_char(i);
        let cb = b.get_char(i);
        assert(a@.skip(i as int)[0] == ca);
        assert(b@.skip(i as int)[0] == cb);
        if (ca as u32) != (cb as u32) {
            return (ca as u32) < (cb as u32);
        }
        assert(a@.skip(i as int).drop_first() =~= a@.skip(i + 1));
        assert(b@.skip(i as int).drop_first() =~= b@.skip(i + 1));
        i = i + 1;
    }
    i == la
}

/// Orders posts from the most recent to the oldest; posts of equal date are
/// ordered by slug.
pub fn sort_posts(posts: Vec<Post>) -> (r: Vec<Post>)
    ensures
        sorted_posts(r@),
        sorted_desc(r@),
        r@.to_multiset() == posts@.to_multiset(),
{
    let mut rest = posts;
    let mut out: Vec<Post> = Vec::new();
    proof {
        broadcast use vstd::seq_lib::group_to_multiset_ensures;
        assert(out@.to_multiset() =~= Multiset::empty());
    }
    while rest.len() > 0
        invariant
            sorted_posts(out@),
            sorted_desc(out@),
            out@.to_multiset().add(rest@.to_multiset()) == posts@.to_multiset(),
        decreases rest.len(),
    {
        let ghost old_rest = rest@;
        let ghost old_out = out@;
        let x = rest.remove(0);
        let mut j: usize = 0;
        while j < out.len() && (out[j].published_at > x.published_at || (out[j].published_at
            == x.published_at && slug_leq(out[j].slug.as_str(), x.slug.as_str())))
            invariant
                j <= out.len(),
                out@ == old_out,
                forall|k: int| 0 <= k < j ==> #[trigger] post_before(out@[k], x),
            decreases out.len() - j,
        {
            j = j + 1;
        }
        proof {
            if j < out@.len() {
                let y = out@[j as int];
                assert(!post_before(y, x));
                lemma_slug_le_total(y.slug@, x.slug@);
                assert(post_before(x, y));
                assert forall|k: int| j <= k < out@.len() implies #[trigger] post_before(x, out@[k]) by {
                    if k > j {
                        assert(post_before(out@[j as int], out@[k]));
                        if x.published_at == out@[k].published_at {
                            lemma_slug_le_transitive(x.slug@, y.slug@, out@[k].slug@);
                        }
                    }
                }
            }
        }
        let ghost xv = x;
        out.insert(j, x);
        proof {
            broadcast use vstd::seq_lib::to_multiset_insert, vstd::seq_lib::to_multiset_remove,
                vstd::seq_lib::to_multiset_contains;
            assert(old_rest.contains(xv)) by { assert(old_rest[0] == xv); }
            assert(old_rest.to_multiset().count(xv) > 0);
            assert(out@ == old_out.insert(j as int, xv));
            assert(rest@ == old_rest.remove(0));
            assert(old_rest[0] == xv);
            assert(out@.to_multiset() == old_out.to_multiset().insert(xv));
            assert(rest@.to_multiset() == old_rest.to_multiset().remove(xv));
            assert(out@.to_multiset().add(rest@.to_multiset()) =~= old_out.to_multiset().add(old_rest.to_multiset()));
            assert(sorted_posts(out@));
            assert forall|a: int, b: int| 0 <= a < b < out@.len() implies out@[a].published_at >= out@[b].published_at by {
                assert(post_before(out@[a], out@[b]));
            }
        }
    }
    proof {
        assert(rest@.to_multiset() =~= Multiset::empty());
        assert(out@.to_multiset().add(Multiset::empty()) =~= out@.to_multiset());
    }
    out
}


/// A post's body is rendered from the document's tree with the front-matter
/// block taken out and nothing else changed: from the tree as parsed where
/// there is no front matter.
pub proof fn lemma_body_rendered_without_front_matter(name: Seq<char>, source: Seq<char>, tree: markdown::mdast::Node)
    requires
        mdast_of(source) == Some(tree),
        ingest_spec(name, source) is Ok,
        ingest_spec(name, source)->Ok_0 is Accepted,
    ensures
        ({
            let body = if leading_front_matter(blocks_of(tree)) is Some {
                without_first_of(tree)
            } else {
                tree
            };
            &&& markdown_text_of(body) is Some
            &&& html_of(markdown_text_of(body)->0) == Some(ingest_spec(name, source)->Ok_0->Accepted_0.html_body)
        }),
{
}


/// `ps` are the posts that `files` yield, ordered from the most recent to the oldest.
pub open spec fn ordered_posts_of(files: Seq<SourceFile>, ps: Seq<Post>) -> bool {
    &&& ingest_files_spec(files) is Ok
    &&& sorted_posts(ps)
    &&& sorted_desc(ps)
    &&& ps.len() == accepted_count(files)
    &&& exists|u: Seq<Post>|
        #![trigger post_views(u)]
        post_views(u) == ingest_files_spec(files)->Ok_0 && u.to_multiset() == ps.to_multiset()
}

/// Ingests every source file and orders the posts from the most recent to the oldest.
pub fn parse_posts(files: &Vec<SourceFile>) -> (r: Result<Vec<Post>, BuildError>)
    ensures
        match r {
            Ok(ps) => ordered_posts_of(files@, ps@),
            Err(e) => ingest_files_spec(files@) == Err::<Seq<PostView>, _>(e),
        },
{
    let posts = match ingest_posts(files) {
        Ok(ps) => ps,
        Err(e) => return Err(e),
    };
    let ghost unsorted = posts@;
    proof {
        lemma_post_count(files@);
        assert(post_views(unsorted).len() == unsorted.len());
    }
    let sorted = sort_posts(posts);
    proof {
        broadcast use vstd::seq_lib::group_to_multiset_ensures;
        assert(sorted@.len() == sorted@.to_multiset().len());
    }
    Ok(sorted)
}

} // verus!
