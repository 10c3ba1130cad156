use vstd::prelude::*;

use crate::error::StructuralError;

verus! {

/// Discriminator carried by every node of a document payload: a whole
/// block element or an inline span.
#[derive(Debug, Clone, Copy)]
pub enum Block {
    Span,
    Block,
}

/// The closed set of block styles. Each style maps to a fixed default
/// markup tag; the set is also the dispatch key of the style registry.
#[derive(Debug, Clone, Copy, PartialEq, Eq, Hash, Structural)]
pub enum Style {
    H1,
    H2,
    H3,
    H4,
    H5,
    H6,
    Normal,
    Blockquote,
}

/// A child of a block node: either a run of literal text or a nested
/// block node.
#[derive(Debug)]
pub enum Children {
    Text(TextNode),
    Node(Node),
}

/// A block node: a style plus an ordered list of children. The optional
/// metadata fields (`_key`, `markDefs`) carry no rendering semantics.
#[allow(non_snake_case)]
#[derive(Debug)]
pub struct Node {
    pub _key: String,
    pub _type: Block,
    pub children: Vec<Children>,
    pub style: Style,
    pub markDefs: Vec<String>,
}

/// A leaf node holding literal text and no children.
#[derive(Debug)]
pub struct TextNode {
    pub _key: String,
    pub _type: String,
    pub text: String,
    pub marks: Vec<String>,
}

/// The fixed default tag for each style.
pub open spec fn spec_tag(style: Style) -> Seq<char> {
    match style {
        Style::H1 => "h1"@,
        Style::H2 => "h2"@,
        Style::H3 => "h3"@,
        Style::H4 => "h4"@,
        Style::H5 => "h5"@,
        Style::H6 => "h6"@,
        Style::Normal => "p"@,
        Style::Blockquote => "blockquote"@,
    }
}

/// The opening markup emitted for a style: `<` tag `>`.
pub open spec fn spec_open_tag(style: Style) -> Seq<char> {
    "<"@ + spec_tag(style) + ">"@
}

/// The closing markup emitted for a style: `</` tag `>`.
pub open spec fn spec_close_tag(style: Style) -> Seq<char> {
    "</"@ + spec_tag(style) + ">"@
}

/// The default tag of a style, as an executable string slice.
pub fn tag_of(style: &Style) -> (r: &'static str)
    ensures
        r@ == spec_tag(*style),
{
    match style {
        Style::H1 => "h1",
        Style::H2 => "h2",
        Style::H3 => "h3",
        Style::H4 => "h4",
        Style::H5 => "h5",
        Style::H6 => "h6",
        Style::Normal => "p",
        Style::Blockquote => "blockquote",
    }
}

/// Appends `<` tag `>` for `style` to `out`.
pub fn push_open_tag(out: &mut String, style: &Style)
    ensures
        final(out)@ == old(out)@ + spec_open_tag(*style),
{
    out.append("<");
    out.append(tag_of(style));
    out.append(">");
    proof {
        assert(out@ =~= old(out)@ + spec_open_tag(*style));
    }
}

/// Appends `</` tag `>` for `style` to `out`.
pub fn push_close_tag(out: &mut String, style: &Style)
    ensures
        final(out)@ == old(out)@ + spec_close_tag(*style),
{
    out.append("</");
    out.append(tag_of(style));
    out.append(">");
    proof {
        assert(out@ =~= old(out)@ + spec_close_tag(*style));
    }
}

/// A node tree is well formed when every block in it has at least one
/// child. Construction through `Node::new` rejects empty blocks, so a
/// tree built only through it is well formed by construction.
pub open spec fn wf_node(n: Node) -> bool
    decreases n,
{
    &&& n.children@.len() > 0
    &&& forall|i: int| 0 <= i < n.children@.len() ==> wf_child(#[trigger] n.children@[i])
}

pub open spec fn wf_child(c: Children) -> bool
    decreases c,
{
    match c {
        Children::Text(_) => true,
        Children::Node(n) => wf_node(n),
    }
}

impl Node {
    /// Builds a block node, rejecting the one shape the data model rules
    /// out: a block with no children. A text leaf can never carry
    /// children, since `TextNode` has no such field.
    pub fn new(
        _key: String,
        _type: Block,
        style: Style,
        children: Vec<Children>,
        mark_defs: Vec<String>,
    ) -> (r: Result<Node, StructuralError>)
        ensures
            children@.len() == 0 <==> r is Err,
            r is Err ==> r->Err_0 is EmptyBlock,
            r is Ok ==> r->Ok_0 == (Node {
                _key: _key,
                _type: _type,
                children: children,
                style: style,
                markDefs: mark_defs,
            }),
    {
        if children.len() == 0 {
            Err(StructuralError::EmptyBlock)
        } else {
            Ok(Node { _key, _type, children, style, markDefs: mark_defs })
        }
    }
}

/// What `html` returns for a node: each text child is wrapped in the
/// node's own default tag, and each nested block is rendered
/// independently with its own style, in document order.
pub open spec fn spec_html(n: Node) -> Seq<char>
    decreases n,
{
    spec_html_children(n.style, n.children@)
}

pub open spec fn spec_html_children(style: Style, cs: Seq<Children>) -> Seq<char>
    decreases cs,
{
    if cs.len() == 0 {
        Seq::empty()
    } else {
        spec_html_children(style, cs.drop_last()) + spec_html_child(style, cs.last())
    }
}

pub open spec fn spec_html_child(style: Style, c: Children) -> Seq<char>
    decreases c,
{
    match c {
        Children::Text(t) => spec_open_tag(style) + t.text@ + spec_close_tag(style),
        Children::Node(n) => spec_html(n),
    }
}

/// Markup production for a node value, with the exact output pinned by a
/// spec function.
pub trait Render {
    /// The markup this value renders to.
    spec fn html_spec(&self) -> Seq<char>;

    /// Renders the value to markup.
    fn html(&self) -> (r: String)
        ensures
            r@ == self.html_spec(),
    ;
}

impl Render for Node {
    open spec fn html_spec(&self) -> Seq<char> {
        spec_html(*self)
    }

    /// Walks the tree by native recursion; intended for shallow trees and
    /// for use as a registry callback. The iterative engine in the
    /// renderer module handles arbitrarily deep trees.
    fn html(&self) -> (r: String)
        decreases *self,
    {
        let mut result = String::new();
        let mut i: usize = 0;
        while i < self.children.len()
            invariant
                i <= self.children@.len(),
                result@ == spec_html_children(self.style, self.children@.take(i as int)),
            decreases self.children@.len() - i,
        {
            proof {
                assert(self.children@.take(i + 1).drop_last() =~= self.children@.take(i as int));
                assert(self.children@.take(i + 1).last() == self.children@[i as int]);
            }
            match &self.children[i] {
                Children::Text(t) => {
                    push_open_tag(&mut result, &self.style);
                    result.append(t.text.as_str());
                    push_close_tag(&mut result, &self.style);
                    proof {
                        assert(self.children@.take(i + 1).len() == i + 1);
                        assert(spec_html_children(self.style, self.children@.take(i + 1))
                            == spec_html_children(self.style, self.children@.take(i as int))
                                + spec_html_child(self.style, self.children@[i as int]));
                        assert(result@ =~= spec_html_children(
                            self.style,
                            self.children@.take(i + 1),
                        ));
                    }
                },
                Children::Node(n) => {
                    proof {
                        assert(decreases_to!(*self => *n));
                    }
                    let rendered = n.html();
                    result.append(rendered.as_str());
                    proof {
                        assert(self.children@.take(i + 1).len() == i + 1);
                        assert(spec_html_children(self.style, self.children@.take(i + 1))
                            == spec_html_children(self.style, self.children@.take(i as int))
                                + spec_html_child(self.style, self.children@[i as int]));
                        assert(result@ =~= spec_html_children(
                            self.style,
                            self.children@.take(i + 1),
                        ));
                    }
                },
            }
            i += 1;
        }
        proof {
            assert(self.children@.take(self.children@.len() as int) =~= self.children@);
        }
        result
    }
}

} // verus!
