use vstd::prelude::*;

verus! {

/// One attribute of a markup node, e.g. `class`, `href` or `start`.
#[derive(Clone, Debug, PartialEq, Eq)]
pub struct Attribute {
    pub name: String,
    pub value: String,
}

/// The mathematical value of an [`Attribute`].
pub struct AttrV {
    pub name: Seq<char>,
    pub value: Seq<char>,
}

impl View for Attribute {
    type V = AttrV;

    open spec fn view(&self) -> AttrV {
        AttrV { name: self.name@, value: self.value@ }
    }
}

/// A node of the output tree. The tree mirrors the nesting of the event
/// stream; it is built bottom-up during one render call and immutable once
/// returned.
#[derive(Debug, PartialEq, Eq)]
pub enum MarkupNode {
    /// An element with a tag name, attributes, and ordered children.
    Element { tag: String, attrs: Vec<Attribute>, children: Vec<MarkupNode> },
    /// A text leaf; the host rendering layer escapes it.
    Text(String),
    /// Raw markup, injected unescaped by the host rendering layer.
    RawHtml(String),
}

/// The mathematical value of a [`MarkupNode`].
pub enum NodeV {
    Element { tag: Seq<char>, attrs: Seq<AttrV>, children: Seq<NodeV> },
    Text(Seq<char>),
    RawHtml(Seq<char>),
}

impl MarkupNode {
    pub open spec fn view(self) -> NodeV
        decreases self,
    {
        match self {
            MarkupNode::Element { tag, attrs, children } => NodeV::Element {
                tag: tag@,
                attrs: attrs@.map_values(|a: Attribute| a@),
                children: MarkupNode::views(children@),
            },
            MarkupNode::Text(s) => NodeV::Text(s@),
            MarkupNode::RawHtml(s) => NodeV::RawHtml(s@),
        }
    }

    /// The values of a sequence of nodes, in order.
    pub open spec fn views(nodes: Seq<MarkupNode>) -> Seq<NodeV>
        decreases nodes,
    {
        if nodes.len() == 0 {
            Seq::empty()
        } else {
            seq![nodes[0].view()] + MarkupNode::views(nodes.subrange(1, nodes.len() as int))
        }
    }
}

/// `views` maps the sequence pointwise.
pub proof fn lemma_views_pointwise(nodes: Seq<MarkupNode>)
    ensures
        MarkupNode::views(nodes).len() == nodes.len(),
        forall|i: int| 0 <= i < nodes.len() ==> MarkupNode::views(nodes)[i] == nodes[i].view(),
    decreases nodes.len(),
{
    if nodes.len() > 0 {
        lemma_views_pointwise(nodes.subrange(1, nodes.len() as int));
    }
}

/// `views` distributes over concatenation.
pub proof fn lemma_views_concat(a: Seq<MarkupNode>, b: Seq<MarkupNode>)
    ensures
        MarkupNode::views(a + b) == MarkupNode::views(a) + MarkupNode::views(b),
{
    lemma_views_pointwise(a);
    lemma_views_pointwise(b);
    lemma_views_pointwise(a + b);
    assert(MarkupNode::views(a + b) =~= MarkupNode::views(a) + MarkupNode::views(b));
}

/// Appending one node appends its value.
pub proof fn lemma_views_push(nodes: Seq<MarkupNode>, n: MarkupNode)
    ensures
        MarkupNode::views(nodes.push(n)) == MarkupNode::views(nodes).push(n.view()),
{
    lemma_views_pointwise(nodes);
    lemma_views_pointwise(nodes.push(n));
    assert(MarkupNode::views(nodes.push(n)) =~= MarkupNode::views(nodes).push(n.view()));
}

/// The values of a sequence of attributes, in order.
pub open spec fn attrs_view(attrs: Seq<Attribute>) -> Seq<AttrV> {
    attrs.map_values(|a: Attribute| a@)
}

/// An empty attribute list.
pub fn attrs_new() -> (r: Vec<Attribute>)
    ensures
        attrs_view(r@) == Seq::<AttrV>::empty(),
{
    let r: Vec<Attribute> = Vec::new();
    proof {
        assert(attrs_view(r@) =~= Seq::<AttrV>::empty());
    }
    r
}

/// Appends one attribute to a list under construction.
pub fn attrs_add(attrs: &mut Vec<Attribute>, name: &str, value: String)
    ensures
        attrs_view(final(attrs)@) == attrs_view(old(attrs)@).push(
            AttrV { name: name@, value: value@ },
        ),
{
    let ghost before = attrs@;
    let a = Attribute { name: name.to_owned(), value };
    let ghost av = a@;
    attrs.push(a);
    proof {
        assert(attrs_view(attrs@) =~= attrs_view(before).push(av));
    }
}

/// Builds an element node whose value is pinned to its parts.
pub fn el(tag: &str, attrs: Vec<Attribute>, children: Vec<MarkupNode>) -> (n: MarkupNode)
    ensures
        n.view() == (NodeV::Element {
            tag: tag@,
            attrs: attrs_view(attrs@),
            children: MarkupNode::views(children@),
        }),
{
    MarkupNode::Element { tag: tag.to_owned(), attrs, children }
}

/// Builds a text leaf.
pub fn txt(s: String) -> (n: MarkupNode)
    ensures
        n.view() == NodeV::Text(s@),
{
    MarkupNode::Text(s)
}

} // verus!
