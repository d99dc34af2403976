//! Markdown documents: their top-level blocks, and their rendering.
use vstd::prelude::*;

verus! {

#[verifier::external_type_specification]
#[verifier::external_body]
pub struct ExNode(markdown::mdast::Node);

/// A top-level block of a markdown document, as far as ingestion reads it.
pub enum Block {
    /// A YAML front-matter block, with its raw text.
    FrontMatter(String),
    /// A heading of the given depth, with its phrasing content.
    Heading(u8, Vec<Inline>),
    /// Any other block.
    Other,
}

/// A node of phrasing content.
pub enum Inline {
    /// Plain text.
    Text(String),
    /// Inline code, with its text.
    Code(String),
    /// A node that holds other phrasing content (emphasis, strong, link, ...).
    Parent(Vec<Inline>),
    /// Any other node (an image, a break, ...).
    Other,
}

/// The text content of a run of phrasing nodes: their text and code, in order,
/// through every level of nesting.
pub open spec fn inlines_text(s: Seq<Inline>) -> Seq<char>
    decreases s,
{
    if s.len() == 0 {
        Seq::empty()
    } else {
        inlines_text(s.subrange(0, s.len() - 1)) + match s[s.len() - 1] {
            Inline::Text(t) => t@,
            Inline::Code(t) => t@,
            Inline::Parent(c) => inlines_text(c@),
            Inline::Other => Seq::empty(),
        }
    }
}

/// The syntax tree that the markdown crate builds from `source`, front matter
/// enabled; `None` where it reports an error.
pub uninterp spec fn mdast_of(source: Seq<char>) -> Option<markdown::mdast::Node>;

/// The top-level blocks of a tree, in order; empty for a node without children.
pub uninterp spec fn blocks_of(tree: markdown::mdast::Node) -> Seq<Block>;

/// The tree with its first top-level child removed.
pub uninterp spec fn without_first_of(tree: markdown::mdast::Node) -> markdown::mdast::Node;

/// The markdown text that mdast_util_to_markdown writes for a tree.
pub uninterp spec fn markdown_text_of(tree: markdown::mdast::Node) -> Option<Seq<char>>;

/// The HTML that the markdown crate renders from `text` with its default options.
pub uninterp spec fn html_of(text: Seq<char>) -> Option<Seq<char>>;

/// Relies on `markdown::to_mdast` with the front-matter construct switched on.
#[verifier::external_body]
pub(crate) fn parse_markdown(source: &str) -> (r: Option<markdown::mdast::Node>)
    ensures
        r == mdast_of(source@),
{
    let options = markdown::ParseOptions {
        constructs: markdown::Constructs { frontmatter: true, ..markdown::Constructs::default() },
        ..markdown::ParseOptions::default()
    };
    markdown::to_mdast(source, &options).ok()
}

/// Relies on `markdown::mdast::Node::children`: the top-level children, each
/// converted variant for variant into a `Block`, a heading with all its children.
#[verifier::external_body]
pub(crate) fn top_blocks(tree: &markdown::mdast::Node) -> (r: Vec<Block>)
    ensures
        r@ == blocks_of(*tree),
{
    let children = tree.children().map(|c| c.iter().collect::<Vec<_>>()).unwrap_or_default();
    children.into_iter().map(|child| match child {
        markdown::mdast::Node::Yaml(y) => Block::FrontMatter(y.value.clone()),
        markdown::mdast::Node::Heading(h) => Block::Heading(h.depth, h.children.iter().map(inline_from).collect()),
        _ => Block::Other,
    }).collect()
}

/// Converts a phrasing node, variant for variant, into an `Inline`.
#[verifier::external_body]
fn inline_from(node: &markdown::mdast::Node) -> Inline {
    match node {
        markdown::mdast::Node::Text(t) => Inline::Text(t.value.clone()),
        markdown::mdast::Node::InlineCode(c) => Inline::Code(c.value.clone()),
        _ => match node.children() {
            Some(children) => Inline::Parent(children.iter().map(inline_from).collect()),
            None => Inline::Other,
        },
    }
}

/// Relies on `markdown::mdast::Node::children_mut` and `Vec::remove`: drops the
/// first top-level child and keeps the others in order.
#[verifier::external_body]
pub(crate) fn remove_first_block(tree: &mut markdown::mdast::Node)
    requires
        blocks_of(*old(tree)).len() > 0,
    ensures
        *final(tree) == without_first_of(*old(tree)),
        blocks_of(without_first_of(*old(tree))) == blocks_of(*old(tree)).drop_first(),
{
    if let Some(children) = tree.children_mut() {
        children.remove(0);
    }
}

/// Relies on `mdast_util_to_markdown::to_markdown`: the tree written back as markdown.
#[verifier::external_body]
pub(crate) fn write_markdown(tree: &markdown::mdast::Node) -> (r: Option<String>)
    ensures
        crate::opt_view(r) == markdown_text_of(*tree),
{
    mdast_util_to_markdown::to_markdown(tree).ok()
}

/// Relies on `markdown::to_html_with_options` with the default options.
#[verifier::external_body]
pub(crate) fn render_html(text: &str) -> (r: Option<String>)
    ensures
        crate::opt_view(r) == html_of(text@),
{
    markdown::to_html_with_options(text, &markdown::Options::default()).ok()
}

} // verus!
