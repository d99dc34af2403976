//! The RSS feed: its channel and items, validation and serialization.
use vstd::prelude::*;
use crate::clock::{format_rfc2822, rfc2822_of, RFC2822_FIRST, RFC2822_LAST};
use crate::post::{sorted_desc, BuildError, Post};

verus! {

/// The site's name, the feed channel's title.
pub const SITE_TITLE: &'static str = "Timm Preetz";

/// The site's address, the feed channel's link and the base of permalinks.
pub const SITE_URL: &'static str = "https://timm.preetz.xyz";

/// The description that every item carries.
pub const ITEM_DESCRIPTION: &'static str = "plain text desc";

/// One item of the feed.
pub struct FeedItem {
    pub title: String,
    /// The unique identifier: the absolute address of the post.
    pub guid: String,
    pub guid_is_permalink: bool,
    pub description: String,
    /// The full HTML of the post.
    pub content: String,
    pub pub_date: String,
}

/// The feed channel.
pub struct Feed {
    pub title: String,
    pub link: String,
    /// The date of the most recent post; absent for a feed without posts.
    pub last_build_date: Option<String>,
    pub items: Vec<FeedItem>,
}

/// A feed item as plain values.
pub ghost struct FeedItemView {
    pub title: Seq<char>,
    pub guid: Seq<char>,
    pub guid_is_permalink: bool,
    pub description: Seq<char>,
    pub content: Seq<char>,
    pub pub_date: Seq<char>,
}

/// A feed channel as plain values.
pub ghost struct FeedView {
    pub title: Seq<char>,
    pub link: Seq<char>,
    pub last_build_date: Option<Seq<char>>,
    pub items: Seq<FeedItemView>,
}

impl View for FeedItem {
    type V = FeedItemView;

    open spec fn view(&self) -> FeedItemView {
        FeedItemView {
            title: self.title@,
            guid: self.guid@,
            guid_is_permalink: self.guid_is_permalink,
            description: self.description@,
            content: self.content@,
            pub_date: self.pub_date@,
        }
    }
}

impl View for Feed {
    type V = FeedView;

    open spec fn view(&self) -> FeedView {
        FeedView {
            title: self.title@,
            link: self.link@,
            last_build_date: crate::opt_view(self.last_build_date),
            items: self.items@.map_values(|it: FeedItem| it@),
        }
    }
}

#[verifier::external_type_specification]
#[verifier::external_body]
pub struct ExChannel(rss::Channel);

/// Whether the rss crate's validation accepts the channel of `feed`.
pub uninterp spec fn feed_valid(feed: FeedView) -> bool;

/// The indented XML document that the rss crate writes for `feed`.
pub uninterp spec fn feed_xml_of(feed: FeedView) -> Option<Seq<u8>>;

/// The item of a post, given the post's date in the feed's form.
pub open spec fn item_view_of(post: Post, date: Seq<char>) -> FeedItemView {
    FeedItemView {
        title: post.title@,
        guid: SITE_URL@ + post.url_path@,
        guid_is_permalink: true,
        description: ITEM_DESCRIPTION@,
        content: post.html_body@,
        pub_date: date,
    }
}

/// The feed of `posts`, in the given order, with `dates` their dates in the
/// feed's form; the last build date is the first post's, absent without posts.
pub open spec fn feed_view_of(posts: Seq<Post>, dates: Seq<Seq<char>>) -> FeedView {
    FeedView {
        title: SITE_TITLE@,
        link: SITE_URL@,
        last_build_date: if posts.len() > 0 {
            Some(dates[0])
        } else {
            None
        },
        items: Seq::new(posts.len(), |i: int| item_view_of(posts[i], dates[i])),
    }
}

/// What building the feed of `posts` yields: the document, or the error.
pub open spec fn feed_result(posts: Seq<Post>) -> Result<Seq<u8>, BuildError> {
    match rfc_dates(posts) {
        None => Err(BuildError::DateFormat),
        Some(ds) => {
            let f = feed_view_of(posts, ds);
            if !feed_valid(f) {
                Err(BuildError::FeedInvalid)
            } else {
                match feed_xml_of(f) {
                    Some(b) => Ok(b),
                    None => Err(BuildError::FeedWrite),
                }
            }
        },
    }
}

/// The RFC 2822 dates of the posts, where every one can be written: its year
/// lies between 0 and 9999.
pub open spec fn rfc_dates(posts: Seq<Post>) -> Option<Seq<Seq<char>>>
    decreases posts.len(),
{
    if posts.len() == 0 {
        Some(Seq::empty())
    } else {
        let ts = posts.last().published_at;
        match (rfc_dates(posts.drop_last()), rfc2822_of(ts as int)) {
            (Some(ds), Some(d)) if RFC2822_FIRST <= ts <= RFC2822_LAST => Some(ds.push(d)),
            _ => None,
        }
    }
}

/// Builds the channel with one item per post, in the given order; the last
/// build date is the first post's date, and is absent where there are no posts.
pub fn assemble_feed(posts: &Vec<Post>, dates: &Vec<String>) -> (r: Feed)
    requires
        dates.len() == posts.len(),
    ensures
        r@ == feed_view_of(posts@, crate::pages::string_views(dates@)),
{
    let ghost ds = crate::pages::string_views(dates@);
    let mut items: Vec<FeedItem> = Vec::new();
    let mut i: usize = 0;
    while i < posts.len()
        invariant
            i <= posts.len(),
            dates.len() == posts.len(),
            ds == crate::pages::string_views(dates@),
            items.len() == i,
            forall|k: int| 0 <= k < i ==> #[trigger] items@[k]@ == item_view_of(posts@[k], ds[k]),
        decreases posts.len() - i,
    {
        let p = &posts[i];
        let mut guid = String::from_str(SITE_URL);
        guid.append(p.url_path.as_str());
        items.push(FeedItem {
            title: p.title.clone(),
            guid,
            guid_is_permalink: true,
            description: String::from_str(ITEM_DESCRIPTION),
            content: p.html_body.clone(),
            pub_date: dates[i].clone(),
        });
        assert(ds[i as int] == dates@[i as int]@);
        i = i + 1;
    }
    let last_build_date = if dates.len() > 0 {
        Some(dates[0].clone())
    } else {
        None
    };
    let feed = Feed {
        title: String::from_str(SITE_TITLE),
        link: String::from_str(SITE_URL),
        last_build_date,
        items,
    };
    assert(feed@.items =~= feed_view_of(posts@, ds).items);
    feed
}

/// Converts the feed, field for field, into an rss channel.
#[verifier::external_body]
fn channel_from(feed: &Feed) -> rss::Channel {
    let mut channel = rss::Channel::default();
    channel.title = feed.title.clone();
    channel.link = feed.link.clone();
    channel.last_build_date = feed.last_build_date.clone();
    channel.items = feed.items.iter().map(|it| {
        let mut item = rss::Item::default();
        item.title = Some(it.title.clone());
        item.guid = Some(rss::Guid { value: it.guid.clone(), permalink: it.guid_is_permalink });
        item.description = Some(it.description.clone());
        item.content = Some(it.content.clone());
        item.pub_date = Some(it.pub_date.clone());
        item
    }).collect();
    channel
}

/// Relies on rss's `Validate::validate` for `Channel`: whether it accepts the
/// channel (a URL link, RFC 2822 dates, and well-formed URLs and dates in the items).
#[verifier::external_body]
pub(crate) fn validate_feed(feed: &Feed) -> (r: bool)
    ensures
        r == feed_valid(feed@),
{
    rss::validation::Validate::validate(&channel_from(feed)).is_ok()
}

/// Relies on rss's `Channel::pretty_write_to`, indenting by two spaces.
#[verifier::external_body]
pub(crate) fn write_feed(feed: &Feed) -> (r: Option<Vec<u8>>)
    ensures
        match r {
            Some(b) => feed_xml_of(feed@) == Some(b@),
            None => feed_xml_of(feed@) is None,
        },
{
    channel_from(feed).pretty_write_to(Vec::new(), b' ', 2).ok()
}

/// The dates of all posts in the feed's form.
fn feed_dates(posts: &Vec<Post>) -> (r: Option<Vec<String>>)
    ensures
        match r {
            Some(ds) => rfc_dates(posts@) == Some(crate::pages::string_views(ds@)) && ds.len() == posts.len(),
            None => rfc_dates(posts@) is None,
        },
{
    let mut out: Vec<String> = Vec::new();
    let mut i: usize = 0;
    assert(posts@.take(0) =~= Seq::<Post>::empty());
    assert(crate::pages::string_views(out@) =~= Seq::<Seq<char>>::empty());
    while i < posts.len()
        invariant
            i <= posts.len(),
            out.len() == i,
            rfc_dates(posts@.take(i as int)) == Some(crate::pages::string_views(out@)),
        decreases posts.len() - i,
    {
        assert(posts@.take(i + 1).drop_last() =~= posts@.take(i as int));
        assert(posts@.take(i + 1).last() == posts@[i as int]);
        let ts = posts[i].published_at;
        if ts < RFC2822_FIRST || ts > RFC2822_LAST {
            proof { lemma_rfc_prefix_none(posts@, i + 1); }
            return None;
        }
        match format_rfc2822(ts) {
            Some(d) => {
                let ghost before = out@;
                out.push(d);
                assert(crate::pages::string_views(out@) =~= crate::pages::string_views(before).push(
                    out@.last()@,
                ));
            },
            None => {
                proof { lemma_rfc_prefix_none(posts@, i + 1); }
                return None;
            },
        }
        i = i + 1;
    }
    assert(posts@.take(posts@.len() as int) =~= posts@);
    Some(out)
}

/// A date that cannot be written among the first `k` posts leaves all of them without dates.
proof fn lemma_rfc_prefix_none(posts: Seq<Post>, k: int)
    requires
        0 <= k <= posts.len(),
        rfc_dates(posts.take(k)) is None,
    ensures
        rfc_dates(posts) is None,
    decreases posts.len(),
{
    if posts.len() == k {
        assert(posts.take(k) =~= posts);
    } else {
        assert(posts.drop_last().take(k) =~= posts.take(k));
        lemma_rfc_prefix_none(posts.drop_last(), k);
    }
}

/// Builds, validates and serializes the feed of `posts`, in the given order.
/// A feed that fails validation is an error, never written.
pub fn build_feed(posts: &Vec<Post>) -> (r: Result<Vec<u8>, BuildError>)
    ensures
        match r {
            Ok(bytes) => feed_result(posts@) == Ok::<_, BuildError>(bytes@),
            Err(e) => feed_result(posts@) == Err::<Seq<u8>, _>(e),
        },
{
    let dates = match feed_dates(posts) {
        Some(d) => d,
        None => return Err(BuildError::DateFormat),
    };
    let feed = assemble_feed(posts, &dates);
    if !validate_feed(&feed) {
        return Err(BuildError::FeedInvalid);
    }
    match write_feed(&feed) {
        Some(bytes) => Ok(bytes),
        None => Err(BuildError::FeedWrite),
    }
}

/// For posts in the sorter's order, the feed's last build date is the date of
/// the most recent post, in the feed's form.
pub proof fn lemma_last_build_is_most_recent(feed: FeedView, posts: Seq<Post>)
    requires
        sorted_desc(posts),
        posts.len() > 0,
        rfc_dates(posts) is Some,
        feed == feed_view_of(posts, rfc_dates(posts)->0),
    ensures
        forall|i: int| 0 <= i < posts.len() ==> #[trigger] posts[i].published_at <= posts[0].published_at,
        feed.last_build_date == rfc2822_of(posts[0].published_at as int),
{
    lemma_rfc_dates_index(posts, 0);
}

/// Each written date is the date of the post at the same place.
proof fn lemma_rfc_dates_index(posts: Seq<Post>, i: int)
    requires
        rfc_dates(posts) is Some,
        0 <= i < posts.len(),
    ensures
        rfc_dates(posts)->0.len() == posts.len(),
        rfc2822_of(posts[i].published_at as int) == Some(rfc_dates(posts)->0[i]),
    decreases posts.len(),
{
    lemma_rfc_dates_len(posts);
    if i < posts.len() - 1 {
        lemma_rfc_dates_index(posts.drop_last(), i);
    }
}

/// All posts' dates are written, one each.
proof fn lemma_rfc_dates_len(posts: Seq<Post>)
    requires
        rfc_dates(posts) is Some,
    ensures
        rfc_dates(posts)->0.len() == posts.len(),
    decreases posts.len(),
{
    if posts.len() > 0 {
        lemma_rfc_dates_len(posts.drop_last());
    }
}

} // verus!
