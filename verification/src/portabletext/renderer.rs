use vstd::prelude::*;

use crate::portabletext::blocks::{
    push_close_tag, push_open_tag, spec_close_tag, spec_html, spec_open_tag, Children, Node,
    Render, Style,
};

verus! {

/// A rendering callback: a capability value that takes over the rendering
/// of a whole subtree. The markup it produces is pinned, per implementor,
/// by its `render_spec`.
pub trait NodeCallback {
    /// The markup this callback produces for a node.
    spec fn render_spec(&self, node: Node) -> Seq<char>;

    /// Produces the complete markup for `node`, children included; the
    /// traversal engine uses the returned string verbatim and does not
    /// descend into the node's children itself.
    fn render_node(&self, node: &Node) -> (r: String)
        ensures
            r@ == self.render_spec(*node),
    ;
}

/// Callback that renders a node through `Render::html`: each text child
/// wrapped in the node's default tag, nested blocks rendered recursively.
pub struct HtmlCallback;

impl NodeCallback for HtmlCallback {
    open spec fn render_spec(&self, node: Node) -> Seq<char> {
        spec_html(node)
    }

    fn render_node(&self, node: &Node) -> (r: String) {
        node.html()
    }
}

/// Callback that ignores the node and always returns one fixed string.
pub struct FixedCallback {
    pub text: String,
}

impl NodeCallback for FixedCallback {
    open spec fn render_spec(&self, node: Node) -> Seq<char> {
        self.text@
    }

    fn render_node(&self, node: &Node) -> (r: String) {
        self.text.clone()
    }
}

/// The style registry: one optional override callback per style of the
/// closed style set. Lookup misses fall back to the default tag table in
/// the traversal engine, never here.
pub struct Registry<C: NodeCallback> {
    pub h1: Option<C>,
    pub h2: Option<C>,
    pub h3: Option<C>,
    pub h4: Option<C>,
    pub h5: Option<C>,
    pub h6: Option<C>,
    pub normal: Option<C>,
    pub blockquote: Option<C>,
}

impl<C: NodeCallback> Registry<C> {
    /// The callback registered for a style, if any.
    pub open spec fn spec_lookup(&self, style: Style) -> Option<C> {
        match style {
            Style::H1 => self.h1,
            Style::H2 => self.h2,
            Style::H3 => self.h3,
            Style::H4 => self.h4,
            Style::H5 => self.h5,
            Style::H6 => self.h6,
            Style::Normal => self.normal,
            Style::Blockquote => self.blockquote,
        }
    }

    /// Builds a registry with no callback registered for any style.
    pub fn new() -> (r: Registry<C>)
        ensures
            r == spec_empty_registry::<C>(),
    {
        Registry {
            h1: None,
            h2: None,
            h3: None,
            h4: None,
            h5: None,
            h6: None,
            normal: None,
            blockquote: None,
        }
    }

    /// Stores `callback` for `style`. Registration is last-write-wins:
    /// whatever was registered for `style` before is replaced, and every
    /// other style keeps its entry.
    pub fn register(&mut self, style: Style, callback: C)
        ensures
            final(self).spec_lookup(style) == Some(callback),
            forall|s: Style| s != style ==> final(self).spec_lookup(s) == old(self).spec_lookup(s),
    {
        match style {
            Style::H1 => self.h1 = Some(callback),
            Style::H2 => self.h2 = Some(callback),
            Style::H3 => self.h3 = Some(callback),
            Style::H4 => self.h4 = Some(callback),
            Style::H5 => self.h5 = Some(callback),
            Style::H6 => self.h6 = Some(callback),
            Style::Normal => self.normal = Some(callback),
            Style::Blockquote => self.blockquote = Some(callback),
        }
    }

    /// Returns the callback registered for `style`, or nothing.
    pub fn lookup(&self, style: Style) -> (r: Option<&C>)
        ensures
            match r {
                Some(cb) => self.spec_lookup(style) == Some(*cb),
                None => self.spec_lookup(style) is None,
            },
    {
        match style {
            Style::H1 => self.h1.as_ref(),
            Style::H2 => self.h2.as_ref(),
            Style::H3 => self.h3.as_ref(),
            Style::H4 => self.h4.as_ref(),
            Style::H5 => self.h5.as_ref(),
            Style::H6 => self.h6.as_ref(),
            Style::Normal => self.normal.as_ref(),
            Style::Blockquote => self.blockquote.as_ref(),
        }
    }
}

/// The registry with nothing registered.
pub open spec fn spec_empty_registry<C: NodeCallback>() -> Registry<C> {
    Registry {
        h1: None,
        h2: None,
        h3: None,
        h4: None,
        h5: None,
        h6: None,
        normal: None,
        blockquote: None,
    }
}

/// The markup the traversal engine produces for one node under a registry:
/// a registered callback takes over the whole subtree; otherwise the node's
/// children are rendered in order between the style's default opening and
/// closing tags, with the registry consulted again at every nested block.
pub open spec fn spec_render_node<C: NodeCallback>(reg: Registry<C>, n: Node) -> Seq<char>
    decreases n,
{
    match reg.spec_lookup(n.style) {
        Some(cb) => cb.render_spec(n),
        None => spec_open_tag(n.style) + spec_render_children(reg, n.children@)
            + spec_close_tag(n.style),
    }
}

/// The concatenation of the children's markup, in document order. A text
/// child contributes its literal text; a nested block contributes its own
/// rendering.
pub open spec fn spec_render_children<C: NodeCallback>(
    reg: Registry<C>,
    cs: Seq<Children>,
) -> Seq<char>
    decreases cs,
{
    if cs.len() == 0 {
        Seq::empty()
    } else {
        spec_render_child(reg, cs[0]) + spec_render_children(reg, cs.skip(1))
    }
}

pub open spec fn spec_render_child<C: NodeCallback>(reg: Registry<C>, c: Children) -> Seq<char>
    decreases c,
{
    match c {
        Children::Text(t) => t.text@,
        Children::Node(n) => spec_render_node(reg, n),
    }
}

/// The markup for a whole document: each top-level node rendered
/// independently, concatenated in document order.
pub open spec fn spec_render_doc<C: NodeCallback>(reg: Registry<C>, nodes: Seq<Node>) -> Seq<char>
    decreases nodes,
{
    if nodes.len() == 0 {
        Seq::empty()
    } else {
        spec_render_doc(reg, nodes.drop_last()) + spec_render_node(reg, nodes.last())
    }
}

/// The default rendering of one node, with no registry at all: its
/// children's markup in document order between the default opening and
/// closing tags of its style.
pub open spec fn spec_default_node(n: Node) -> Seq<char>
    decreases n,
{
    spec_open_tag(n.style) + spec_default_children(n.children@) + spec_close_tag(n.style)
}

pub open spec fn spec_default_children(cs: Seq<Children>) -> Seq<char>
    decreases cs,
{
    if cs.len() == 0 {
        Seq::empty()
    } else {
        spec_default_child(cs[0]) + spec_default_children(cs.skip(1))
    }
}

pub open spec fn spec_default_child(c: Children) -> Seq<char>
    decreases c,
{
    match c {
        Children::Text(t) => t.text@,
        Children::Node(n) => spec_default_node(n),
    }
}

/// Under a registry with nothing registered, the engine's rendering is the
/// default rendering.
pub proof fn lemma_empty_registry_node<C: NodeCallback>(reg: Registry<C>, n: Node)
    requires
        forall|s: Style| reg.spec_lookup(s) is None,
    ensures
        spec_render_node(reg, n) == spec_default_node(n),
    decreases n,
{
    lemma_empty_registry_children(reg, n.children@);
}

proof fn lemma_empty_registry_children<C: NodeCallback>(reg: Registry<C>, cs: Seq<Children>)
    requires
        forall|s: Style| reg.spec_lookup(s) is None,
    ensures
        spec_render_children(reg, cs) == spec_default_children(cs),
    decreases cs,
{
    if cs.len() > 0 {
        lemma_empty_registry_child(reg, cs[0]);
        lemma_empty_registry_children(reg, cs.skip(1));
    }
}

proof fn lemma_empty_registry_child<C: NodeCallback>(reg: Registry<C>, c: Children)
    requires
        forall|s: Style| reg.spec_lookup(s) is None,
    ensures
        spec_render_child(reg, c) == spec_default_child(c),
    decreases c,
{
    match c {
        Children::Text(_) => {},
        Children::Node(n) => {
            lemma_empty_registry_node(reg, n);
        },
    }
}

/// One pending step of the iterative traversal: enter a child, or emit the
/// closing tag of a block already entered.
enum WorkItem<'a> {
    Child(&'a Children),
    Close(Style),
}

/// The markup one pending step still owes.
spec fn spec_item<C: NodeCallback>(reg: Registry<C>, it: WorkItem) -> Seq<char> {
    match it {
        WorkItem::Child(c) => spec_render_child(reg, *c),
        WorkItem::Close(s) => spec_close_tag(s),
    }
}

/// The markup a whole work list still owes, popped from the top down.
spec fn spec_stack<C: NodeCallback>(reg: Registry<C>, stack: Seq<WorkItem>) -> Seq<char>
    decreases stack.len(),
{
    if stack.len() == 0 {
        Seq::empty()
    } else {
        spec_item(reg, stack.last()) + spec_stack(reg, stack.drop_last())
    }
}

/// The work a node still costs the traversal: the step of entering it, its
/// closing tag, and the cost of its children.
spec fn spec_size_node(n: Node) -> nat
    decreases n,
{
    2 + spec_size_children(n.children@)
}

spec fn spec_size_children(cs: Seq<Children>) -> nat
    decreases cs,
{
    if cs.len() == 0 {
        0
    } else {
        spec_size_child(cs[0]) + spec_size_children(cs.skip(1))
    }
}

spec fn spec_size_child(c: Children) -> nat
    decreases c,
{
    match c {
        Children::Text(_) => 1,
        Children::Node(n) => spec_size_node(n),
    }
}

spec fn spec_item_size(it: WorkItem) -> nat {
    match it {
        WorkItem::Child(c) => spec_size_child(*c),
        WorkItem::Close(_) => 1,
    }
}

/// The work a whole work list still costs; strictly falls at every step of
/// the traversal, so the traversal terminates.
spec fn spec_stack_size(stack: Seq<WorkItem>) -> nat
    decreases stack.len(),
{
    if stack.len() == 0 {
        0
    } else {
        spec_item_size(stack.last()) + spec_stack_size(stack.drop_last())
    }
}

/// Pushes the children onto the work list in reverse order, so that they
/// pop in document order.
fn push_children<'a, C: NodeCallback>(
    stack: &mut Vec<WorkItem<'a>>,
    cs: &'a Vec<Children>,
    reg: Ghost<Registry<C>>,
)
    ensures
        spec_stack(reg@, final(stack)@) == spec_render_children(reg@, cs@) + spec_stack(
            reg@,
            old(stack)@,
        ),
        spec_stack_size(final(stack)@) == spec_size_children(cs@) + spec_stack_size(old(stack)@),
{
    let mut k: usize = cs.len();
    proof {
        assert(cs@.skip(cs@.len() as int) =~= Seq::<Children>::empty());
    }
    while k > 0
        invariant
            k <= cs@.len(),
            spec_stack(reg@, stack@) == spec_render_children(reg@, cs@.skip(k as int))
                + spec_stack(reg@, old(stack)@),
            spec_stack_size(stack@) == spec_size_children(cs@.skip(k as int)) + spec_stack_size(
                old(stack)@,
            ),
        decreases k,
    {
        k -= 1;
        let ghost prev = stack@;
        stack.push(WorkItem::Child(&cs[k]));
        proof {
            assert(stack@.drop_last() =~= prev);
            assert(cs@.skip(k as int)[0] == cs@[k as int]);
            assert(cs@.skip(k as int).skip(1) =~= cs@.skip(k + 1));
            assert(spec_stack(reg@, stack@) =~= spec_render_children(reg@, cs@.skip(k as int))
                + spec_stack(reg@, old(stack)@));
        }
    }
    proof {
        assert(cs@.skip(0) =~= cs@);
    }
}

/// Renders one node under a registry by an explicit work list: no native
/// recursion, so nesting depth is bounded only by memory, never by the
/// call stack.
fn render_node_with<C: NodeCallback>(reg: &Registry<C>, node: &Node) -> (r: String)
    ensures
        r@ == spec_render_node(*reg, *node),
{
    if let Some(cb) = reg.lookup(node.style) {
        return cb.render_node(node);
    }
    let ghost target = spec_render_node(*reg, *node);
    let mut out = String::new();
    push_open_tag(&mut out, &node.style);
    let mut stack: Vec<WorkItem> = Vec::new();
    stack.push(WorkItem::Close(node.style));
    proof {
        assert(stack@.drop_last() =~= Seq::<WorkItem>::empty());
        assert(spec_stack(*reg, stack@.drop_last()) == Seq::<char>::empty());
        assert(out@ + spec_stack(*reg, stack@) =~= spec_open_tag(node.style) + spec_close_tag(
            node.style,
        ));
    }
    push_children::<C>(&mut stack, &node.children, Ghost(*reg));
    proof {
        assert(out@ + spec_stack(*reg, stack@) =~= target);
    }
    while stack.len() > 0
        invariant
            out@ + spec_stack(*reg, stack@) == target,
        decreases spec_stack_size(stack@),
    {
        let ghost prev = stack@;
        let it = stack.pop();
        proof {
            assert(prev.drop_last() =~= stack@);
            assert(spec_stack(*reg, prev) == spec_item(*reg, prev.last()) + spec_stack(
                *reg,
                stack@,
            ));
        }
        match it {
            Some(WorkItem::Child(c)) => {
                match c {
                    Children::Text(t) => {
                        out.append(t.text.as_str());
                        proof {
                            assert(out@ + spec_stack(*reg, stack@) =~= target);
                        }
                    },
                    Children::Node(n) => {
                        match reg.lookup(n.style) {
                            Some(cb) => {
                                let rendered = cb.render_node(n);
                                out.append(rendered.as_str());
                                proof {
                                    assert(out@ + spec_stack(*reg, stack@) =~= target);
                                }
                            },
                            None => {
                                push_open_tag(&mut out, &n.style);
                                let ghost mid = stack@;
                                stack.push(WorkItem::Close(n.style));
                                proof {
                                    assert(stack@.drop_last() =~= mid);
                                }
                                push_children::<C>(&mut stack, &n.children, Ghost(*reg));
                                proof {
                                    assert(out@ + spec_stack(*reg, stack@) =~= target);
                                }
                            },
                        }
                    },
                }
            },
            Some(WorkItem::Close(s)) => {
                push_close_tag(&mut out, &s);
                proof {
                    assert(out@ + spec_stack(*reg, stack@) =~= target);
                }
            },
            None => {
                proof {
                    assert(false);
                }
            },
        }
    }
    proof {
        assert(out@ + spec_stack(*reg, stack@) =~= out@);
    }
    out
}

/// The built-in fallback: renders a node with the default tag table alone,
/// as if no callback were registered for any style.
pub fn default_callback(node: &Node) -> (r: String)
    ensures
        r@ == spec_default_node(*node),
{
    let empty: Registry<HtmlCallback> = Registry::new();
    let out = render_node_with(&empty, node);
    proof {
        lemma_empty_registry_node(empty, *node);
    }
    out
}

/// Renders an ordered document with a per-style override table. Top-level
/// nodes render independently and in order; every block, at any depth,
/// uses its registered callback when there is one and the default tag
/// table otherwise.
pub struct Renderer<C: NodeCallback> {
    pub input: Vec<Node>,
    pub config: Registry<C>,
}

impl Renderer<HtmlCallback> {
    /// A renderer over `input` with an empty registry, accepting
    /// `HtmlCallback` overrides.
    pub fn new(input: Vec<Node>) -> (r: Renderer<HtmlCallback>)
        ensures
            r.input == input,
            r.config == spec_empty_registry::<HtmlCallback>(),
    {
        Renderer { input, config: Registry::new() }
    }
}

impl<C: NodeCallback> Renderer<C> {
    /// A renderer over `input` with an empty registry, accepting overrides
    /// of any one callback type.
    pub fn with_input(input: Vec<Node>) -> (r: Renderer<C>)
        ensures
            r.input == input,
            r.config == spec_empty_registry::<C>(),
    {
        Renderer { input, config: Registry::new() }
    }

    /// Registers `callback` for `style`, replacing any earlier entry for
    /// that style and leaving every other style untouched.
    pub fn add(&mut self, style: Style, callback: C) -> (r: &mut Renderer<C>)
        ensures
            (*r).input == old(self).input,
            (*r).config.spec_lookup(style) == Some(callback),
            forall|s: Style|
                s != style ==> (*r).config.spec_lookup(s) == old(self).config.spec_lookup(s),
            *final(self) == *final(r),
    {
        self.config.register(style, callback);
        self
    }

    /// Renders the whole document to a single markup string. The output is
    /// a pure function of the document and the registry, so repeated calls
    /// return identical strings.
    pub fn render(&mut self) -> (r: String)
        ensures
            r@ == spec_render_doc(old(self).config, old(self).input@),
            *final(self) == *old(self),
    {
        let mut result = String::new();
        let mut i: usize = 0;
        while i < self.input.len()
            invariant
                i <= self.input@.len(),
                *self == *old(self),
                result@ == spec_render_doc(self.config, self.input@.take(i as int)),
            decreases self.input@.len() - i,
        {
            let frag = render_node_with(&self.config, &self.input[i]);
            result.append(frag.as_str());
            proof {
                assert(self.input@.take(i + 1).drop_last() =~= self.input@.take(i as int));
                assert(self.input@.take(i + 1).last() == self.input@[i as int]);
            }
            i += 1;
        }
        proof {
            assert(self.input@.take(self.input@.len() as int) =~= self.input@);
        }
        result
    }
}

/// Law: rendering is deterministic. The markup of a document under a
/// registry is a single value; any two renderings of the same document
/// under the same registry are equal.
pub proof fn lemma_render_deterministic<C: NodeCallback>(
    reg: Registry<C>,
    doc: Seq<Node>,
    r1: Seq<char>,
    r2: Seq<char>,
)
    requires
        r1 == spec_render_doc(reg, doc),
        r2 == spec_render_doc(reg, doc),
    ensures
        r1 == r2,
{
}

/// Law: a block whose style has no registered callback renders as exactly
/// one opening tag and one closing tag for that block, with its children's
/// markup between them, in document order.
pub proof fn lemma_default_block_markup<C: NodeCallback>(reg: Registry<C>, n: Node)
    requires
        reg.spec_lookup(n.style) is None,
    ensures
        spec_render_node(reg, n) == spec_open_tag(n.style) + spec_render_children(reg, n.children@)
            + spec_close_tag(n.style),
{
}

/// Law: children render independently: the markup of a concatenation of
/// child lists is the concatenation of their markup.
pub proof fn lemma_children_concat<C: NodeCallback>(
    reg: Registry<C>,
    cs1: Seq<Children>,
    cs2: Seq<Children>,
)
    ensures
        spec_render_children(reg, cs1 + cs2) == spec_render_children(reg, cs1)
            + spec_render_children(reg, cs2),
    decreases cs1.len(),
{
    if cs1.len() == 0 {
        assert(cs1 + cs2 =~= cs2);
        assert(spec_render_children(reg, cs1) + spec_render_children(reg, cs2)
            =~= spec_render_children(reg, cs2));
    } else {
        assert((cs1 + cs2)[0] == cs1[0]);
        assert((cs1 + cs2).skip(1) =~= cs1.skip(1) + cs2);
        lemma_children_concat(reg, cs1.skip(1), cs2);
        assert(spec_render_children(reg, cs1 + cs2) =~= spec_render_children(reg, cs1)
            + spec_render_children(reg, cs2));
    }
}

/// Law: top-level nodes render independently: the markup of a document
/// made of two documents in sequence is the concatenation of their markup,
/// with no cross-node nesting.
pub proof fn lemma_doc_concat<C: NodeCallback>(reg: Registry<C>, d1: Seq<Node>, d2: Seq<Node>)
    ensures
        spec_render_doc(reg, d1 + d2) == spec_render_doc(reg, d1) + spec_render_doc(reg, d2),
    decreases d2.len(),
{
    if d2.len() == 0 {
        assert(d1 + d2 =~= d1);
        assert(spec_render_doc(reg, d1) + spec_render_doc(reg, d2) =~= spec_render_doc(reg, d1));
    } else {
        assert((d1 + d2).drop_last() =~= d1 + d2.drop_last());
        assert((d1 + d2).last() == d2.last());
        lemma_doc_concat(reg, d1, d2.drop_last());
        assert(spec_render_doc(reg, d1 + d2) =~= spec_render_doc(reg, d1) + spec_render_doc(
            reg,
            d2,
        ));
    }
}

/// Law: a document of two sibling nodes renders as the concatenation of
/// each node's independent rendering.
pub proof fn lemma_two_siblings<C: NodeCallback>(reg: Registry<C>, a: Node, b: Node)
    ensures
        spec_render_doc(reg, seq![a, b]) == spec_render_node(reg, a) + spec_render_node(reg, b),
{
    let d = seq![a, b];
    assert(d.last() == b);
    assert(d.drop_last() =~= seq![a]);
    assert(seq![a].last() == a);
    assert(seq![a].drop_last() =~= Seq::<Node>::empty());
    assert(spec_render_doc(reg, Seq::<Node>::empty()) == Seq::<char>::empty());
    assert(spec_render_doc(reg, seq![a]) == spec_render_node(reg, a)) by {
        assert(spec_render_doc(reg, seq![a]) == spec_render_doc(reg, seq![a].drop_last())
            + spec_render_node(reg, seq![a].last()));
        assert(Seq::<char>::empty() + spec_render_node(reg, a) =~= spec_render_node(reg, a));
    }
    assert(spec_render_doc(reg, d) =~= spec_render_node(reg, a) + spec_render_node(reg, b));
}

/// Law: an empty document renders to the empty string.
pub proof fn lemma_empty_doc<C: NodeCallback>(reg: Registry<C>)
    ensures
        spec_render_doc(reg, Seq::empty()) == Seq::<char>::empty(),
{
}

/// Law: a registered callback takes over the whole subtree: the node's
/// markup is exactly what the callback produces, whatever the children.
pub proof fn lemma_callback_takes_subtree<C: NodeCallback>(reg: Registry<C>, n: Node, cb: C)
    requires
        reg.spec_lookup(n.style) == Some(cb),
    ensures
        spec_render_node(reg, n) == cb.render_spec(n),
{
}

/// Law: a fixed-string callback registered for a style makes every node of
/// that style render as exactly that string, regardless of its children.
pub proof fn lemma_fixed_callback_output(reg: Registry<FixedCallback>, n: Node)
    requires
        reg.spec_lookup(n.style) is Some,
    ensures
        spec_render_node(reg, n) == reg.spec_lookup(n.style)->0.text@,
{
}

} // verus!
