//! XML documents as plain values: the nodes of a document parsed by `roxmltree`,
//! in document order, and queries over them.

use vstd::prelude::*;
use roxmltree::Error as XmlError;
use roxmltree::Document;
use roxmltree::NodeType::{Comment, Element, Root, Text, PI};
use vstd::string::*;

verus! {

/// Declares `roxmltree::Error`, the error of a failed parse.
#[verifier::external_type_specification]
#[verifier::external_body]
pub struct ExXmlError(XmlError);

/// The type of an XML node.
#[derive(Clone, Copy, Debug, PartialEq, Eq, Structural)]
pub enum XmlKind {
    /// the root of the document
    Root,
    /// an element
    Element,
    /// a processing instruction
    ProcessingInstruction,
    /// a comment
    Comment,
    /// text
    Text,
}

/// A node of a parsed document.
#[derive(Debug)]
pub struct XmlNode {
    /// the node's id in its document
    pub id: usize,
    /// the id of its parent, if any
    pub parent: Option<usize>,
    /// its type
    pub kind: XmlKind,
    /// its tag name (empty but for elements)
    pub name: String,
    /// its attributes, local names and values, in order
    pub attributes: Vec<(String, String)>,
    /// the namespace of each attribute, in the same order
    pub attribute_namespaces: Vec<Option<String>>,
}

/// The mathematical value of an [`XmlNode`].
pub struct XmlNodeView {
    pub id: usize,
    pub parent: Option<usize>,
    pub kind: XmlKind,
    pub name: Seq<char>,
    pub attributes: Seq<(Seq<char>, Seq<char>)>,
    pub attribute_namespaces: Seq<Option<Seq<char>>>,
}

impl View for XmlNode {
    type V = XmlNodeView;

    open spec fn view(&self) -> XmlNodeView {
        XmlNodeView {
            id: self.id,
            parent: self.parent,
            kind: self.kind,
            name: self.name@,
            attributes: self.attributes@.map_values(|a: (String, String)| (a.0@, a.1@)),
            attribute_namespaces: self.attribute_namespaces@.map_values(
                |ns: Option<String>|
                    match ns {
                        Some(u) => Some(u@),
                        None => None,
                    },
            ),
        }
    }
}

/// The values of nodes.
pub open spec fn nodes_view(v: Seq<XmlNode>) -> Seq<XmlNodeView> {
    v.map_values(|n: XmlNode| n@)
}

/// The nodes of the document `text`, in document order, when it is well-formed XML.
pub uninterp spec fn xml_parse(text: Seq<char>) -> Option<Seq<XmlNodeView>>;

/// The shape every parsed document has: the root node first, no other root node,
/// and an element among the children of the root.
pub open spec fn well_parsed(nodes: Seq<XmlNodeView>) -> bool {
    &&& nodes.len() > 0
    &&& nodes[0].kind == XmlKind::Root
    &&& forall|j: int| 0 < j < nodes.len() ==> #[trigger] nodes[j].kind != XmlKind::Root
    &&& exists|j: int|
        0 < j < nodes.len() && #[trigger] nodes[j].kind == XmlKind::Element && nodes[j].parent == Some(
            nodes[0].id,
        )
}

/// Calls `roxmltree::Document::parse` and lists the nodes of the document in the
/// order of `Document::descendants`: the root node first, then document order.
/// Each node keeps its id, its parent's id, its type, tag name and attributes
/// (local name, value and namespace).
/// The contract claims that the nodes listed are a function of the text, and, as
/// the source of `roxmltree` shows, that only the first node is the root node and
/// that a parsed document has a root element.
#[verifier::external_body]
fn parse_xml_nodes(text: &str) -> (r: Result<Vec<XmlNode>, XmlError>)
    ensures
        r is Ok <==> xml_parse(text@) is Some,
        r matches Ok(v) ==> nodes_view(v@) == xml_parse(text@)->0 && well_parsed(nodes_view(v@)),
{
    let doc = Document::parse(text)?;
    Ok(doc.descendants().map(|n| XmlNode {
        id: n.id().get_usize(),
        parent: n.parent().map(|p| p.id().get_usize()),
        kind: match n.node_type() {
            Root => XmlKind::Root,
            Element => XmlKind::Element,
            PI => XmlKind::ProcessingInstruction,
            Comment => XmlKind::Comment,
            Text => XmlKind::Text,
        },
        name: n.tag_name().name().to_string(),
        attributes: n.attributes().map(|a| (a.name().to_string(), a.value().to_string())).collect(),
        attribute_namespaces: n.attributes().map(|a| a.namespace().map(String::from)).collect(),
    }).collect())
}

/// A parsed XML document: its text and its nodes.
pub struct XmlDocument {
    /// the text parsed
    pub text: String,
    /// the nodes, root node first, then in document order
    pub nodes: Vec<XmlNode>,
}

/// The children of node `i` among the nodes from `j` on, in order.
pub open spec fn child_list(nodes: Seq<XmlNodeView>, i: int, j: int) -> Seq<int>
    decreases nodes.len() - j,
{
    if j < 0 || j >= nodes.len() {
        Seq::empty()
    } else {
        let rest = child_list(nodes, i, j + 1);
        if nodes[j].parent == Some(nodes[i].id) {
            seq![j].add(rest)
        } else {
            rest
        }
    }
}

/// The children of node `i`: the nodes after it whose parent it is, in order.
pub open spec fn children_of(nodes: Seq<XmlNodeView>, i: int) -> Seq<int> {
    child_list(nodes, i, i + 1)
}

/// The first element among the nodes at the positions `cs`.
pub open spec fn first_element(nodes: Seq<XmlNodeView>, cs: Seq<int>) -> Option<int>
    decreases cs.len(),
{
    if cs.len() == 0 {
        None
    } else if 0 <= cs[0] < nodes.len() && nodes[cs[0]].kind == XmlKind::Element {
        Some(cs[0])
    } else {
        first_element(nodes, cs.drop_first())
    }
}

/// The attributes `attrs` without a namespace, in order; `namespaces` holds the
/// namespace of each.
pub open spec fn plain_pairs(attrs: Seq<(Seq<char>, Seq<char>)>, namespaces: Seq<Option<Seq<char>>>) -> Seq<
    (Seq<char>, Seq<char>),
>
    decreases attrs.len(),
{
    if attrs.len() == 0 || namespaces.len() == 0 {
        Seq::empty()
    } else if namespaces[0] is None {
        seq![attrs[0]] + plain_pairs(attrs.drop_first(), namespaces.drop_first())
    } else {
        plain_pairs(attrs.drop_first(), namespaces.drop_first())
    }
}

/// The attributes of a node that are in no namespace: those that a lookup by
/// name finds.
pub open spec fn plain_attributes(n: XmlNodeView) -> Seq<(Seq<char>, Seq<char>)> {
    plain_pairs(n.attributes, n.attribute_namespaces)
}

/// The value of the first attribute with this name.
pub open spec fn attr_lookup(attrs: Seq<(Seq<char>, Seq<char>)>, name: Seq<char>) -> Option<Seq<char>>
    decreases attrs.len(),
{
    if attrs.len() == 0 {
        None
    } else if attrs[0].0 == name {
        Some(attrs[0].1)
    } else {
        attr_lookup(attrs.drop_first(), name)
    }
}

pub proof fn lemma_child_list(nodes: Seq<XmlNodeView>, i: int, j: int)
    requires
        0 <= j,
    ensures
        forall|k: int| 0 <= k < child_list(nodes, i, j).len() ==> j <= #[trigger] child_list(nodes, i, j)[k]
            < nodes.len() && nodes[child_list(nodes, i, j)[k]].parent == Some(nodes[i].id),
        forall|m: int| j <= m < nodes.len() && nodes[m].parent == Some(nodes[i].id) ==> #[trigger] child_list(
            nodes,
            i,
            j,
        ).contains(m),
    decreases nodes.len() - j,
{
    if j < nodes.len() {
        lemma_child_list(nodes, i, j + 1);
        let rest = child_list(nodes, i, j + 1);
        if nodes[j].parent == Some(nodes[i].id) {
            assert(child_list(nodes, i, j) == seq![j].add(rest));
            assert forall|m: int| j <= m < nodes.len() && nodes[m].parent == Some(nodes[i].id) implies #[trigger] child_list(
                nodes,
                i,
                j,
            ).contains(m) by {
                if m == j {
                    assert(child_list(nodes, i, j)[0] == m);
                } else {
                    assert(rest.contains(m));
                    let w = choose|w: int| 0 <= w < rest.len() && rest[w] == m;
                    assert(child_list(nodes, i, j)[w + 1] == m);
                }
            }
        }
    }
}

pub proof fn lemma_first_element(nodes: Seq<XmlNodeView>, cs: Seq<int>)
    ensures
        match first_element(nodes, cs) {
            Some(k) => cs.contains(k) && 0 <= k < nodes.len() && nodes[k].kind == XmlKind::Element,
            None => forall|w: int| 0 <= w < cs.len() && 0 <= cs[w] < nodes.len() ==> nodes[cs[w]].kind
                != XmlKind::Element,
        },
    decreases cs.len(),
{
    if cs.len() > 0 {
        lemma_first_element(nodes, cs.drop_first());
        if !(0 <= cs[0] < nodes.len() && nodes[cs[0]].kind == XmlKind::Element) {
            match first_element(nodes, cs) {
                Some(k) => {
                    let w = choose|w: int| 0 <= w < cs.drop_first().len() && cs.drop_first()[w] == k;
                    assert(cs[w + 1] == k);
                },
                None => {
                    assert forall|w: int| 0 <= w < cs.len() && 0 <= cs[w] < nodes.len() implies nodes[cs[w]].kind
                        != XmlKind::Element by {
                        if w > 0 {
                            assert(cs.drop_first()[w - 1] == cs[w]);
                        }
                    }
                },
            }
        } else {
            assert(cs[0] == cs[0]);
        }
    }
}

impl XmlDocument {
    /// Parse the text.
    pub fn parse(text: &str) -> (r: Result<XmlDocument, XmlError>)
        ensures
            r is Ok <==> xml_parse(text@) is Some,
            r matches Ok(d) ==> d.text@ == text@ && nodes_view(d.nodes@) == xml_parse(text@)->0 && well_parsed(
                nodes_view(d.nodes@),
            ),
    {
        match parse_xml_nodes(text) {
            Ok(nodes) => Ok(XmlDocument { text: String::from_str(text), nodes }),
            Err(e) => Err(e),
        }
    }

    /// The positions of the children of node `i`, in order.
    pub fn children(&self, i: usize) -> (r: Vec<usize>)
        requires
            i < self.nodes@.len(),
        ensures
            r@.map_values(|k: usize| k as int) == children_of(nodes_view(self.nodes@), i as int),
            forall|k: int| 0 <= k < r@.len() ==> i < #[trigger] r@[k] < self.nodes@.len(),
    {
        let ghost nv = nodes_view(self.nodes@);
        let n = self.nodes.len();
        let id = self.nodes[i].id;
        let mut r: Vec<usize> = Vec::new();
        let mut j = i + 1;
        proof {
            lemma_child_list(nv, i as int, i + 1);
        }
        while j < n
            invariant
                nv == nodes_view(self.nodes@),
                n == self.nodes@.len(),
                i < j <= n,
                id == nv[i as int].id,
                r@.map_values(|k: usize| k as int) + child_list(nv, i as int, j as int) == children_of(nv, i as int),
                forall|k: int| 0 <= k < r@.len() ==> i < #[trigger] r@[k] < j,
            decreases n - j,
        {
            let ghost before = r@;
            if self.nodes[j].parent == Some(id) {
                r.push(j);
                assert(r@.map_values(|k: usize| k as int) =~= before.map_values(|k: usize| k as int).push(j as int));
                assert(child_list(nv, i as int, j as int) == seq![j as int].add(child_list(nv, i as int, j + 1)));
                assert(r@.map_values(|k: usize| k as int) + child_list(nv, i as int, j + 1) =~= before.map_values(
                    |k: usize| k as int,
                ) + child_list(nv, i as int, j as int));
            }
            j = j + 1;
        }
        assert(child_list(nv, i as int, j as int) =~= Seq::<int>::empty());
        assert(r@.map_values(|k: usize| k as int) =~= r@.map_values(|k: usize| k as int) + Seq::<int>::empty());
        r
    }

    /// The root element: the first element among the children of the root node.
    pub fn root_element(&self) -> (r: usize)
        requires
            well_parsed(nodes_view(self.nodes@)),
        ensures
            first_element(nodes_view(self.nodes@), children_of(nodes_view(self.nodes@), 0)) == Some(r as int),
            r < self.nodes@.len(),
    {
        let ghost nv = nodes_view(self.nodes@);
        let cs = self.children(0);
        proof {
            lemma_first_element(nv, children_of(nv, 0));
            lemma_child_list(nv, 0, 1);
            let j = choose|j: int| 0 < j < nv.len() && #[trigger] nv[j].kind == XmlKind::Element && nv[j].parent
                == Some(nv[0].id);
            assert(children_of(nv, 0).contains(j));
        }
        let mut w: usize = 0;
        assert(children_of(nv, 0).skip(0) =~= children_of(nv, 0));
        while w < cs.len()
            invariant
                nv == nodes_view(self.nodes@),
                cs@.map_values(|k: usize| k as int) == children_of(nv, 0),
                forall|k: int| 0 <= k < cs@.len() ==> 0 < #[trigger] cs@[k] < self.nodes@.len(),
                w <= cs@.len(),
                first_element(nv, children_of(nv, 0)) == first_element(nv, children_of(nv, 0).skip(w as int)),
                first_element(nv, children_of(nv, 0)) is Some,
            decreases cs@.len() - w,
        {
            let k = cs[w];
            assert(children_of(nv, 0).skip(w as int)[0] == k as int);
            if self.nodes[k].kind == XmlKind::Element {
                return k;
            }
            assert(children_of(nv, 0).skip(w as int).drop_first() =~= children_of(nv, 0).skip(w + 1));
            w = w + 1;
        }
        assert(children_of(nv, 0).skip(w as int).len() == 0);
        0
    }

    /// Whether node `i` has children.
    pub fn has_children(&self, i: usize) -> (r: bool)
        requires
            i < self.nodes@.len(),
        ensures
            r == (children_of(nodes_view(self.nodes@), i as int).len() > 0),
    {
        let cs = self.children(i);
        cs.len() > 0
    }

    /// The value of the first attribute of node `i` that is in no namespace and
    /// is named `name`.
    pub fn attribute(&self, i: usize, name: &str) -> (r: Option<String>)
        requires
            i < self.nodes@.len(),
        ensures
            match r {
                Some(v) => attr_lookup(plain_attributes(self.nodes@[i as int]@), name@) == Some(v@),
                None => attr_lookup(plain_attributes(self.nodes@[i as int]@), name@) is None,
            },
    {
        let ghost attrs = self.nodes@[i as int]@.attributes;
        let ghost nss = self.nodes@[i as int]@.attribute_namespaces;
        let key = String::from_str(name);
        let node = &self.nodes[i];
        let mut w: usize = 0;
        assert(attrs.skip(0) =~= attrs);
        assert(nss.skip(0) =~= nss);
        while w < node.attributes.len() && w < node.attribute_namespaces.len()
            invariant
                attrs == node@.attributes,
                nss == node@.attribute_namespaces,
                node@ == self.nodes@[i as int]@,
                key@ == name@,
                w <= node.attributes@.len(),
                w <= node.attribute_namespaces@.len(),
                attr_lookup(plain_pairs(attrs, nss), name@) == attr_lookup(
                    plain_pairs(attrs.skip(w as int), nss.skip(w as int)),
                    name@,
                ),
            decreases node.attributes@.len() - w,
        {
            let ghost a_rest = attrs.skip(w as int);
            let ghost n_rest = nss.skip(w as int);
            assert(a_rest[0] == (node.attributes@[w as int].0@, node.attributes@[w as int].1@));
            assert(a_rest.drop_first() =~= attrs.skip(w + 1));
            assert(n_rest.drop_first() =~= nss.skip(w + 1));
            let plain = match &node.attribute_namespaces[w] {
                None => true,
                Some(_) => false,
            };
            assert(plain == (n_rest[0] is None));
            if plain {
                let ghost tail = plain_pairs(attrs.skip(w + 1), nss.skip(w + 1));
                assert((seq![a_rest[0]] + tail).drop_first() =~= tail);
                if node.attributes[w].0 == key {
                    return Some(node.attributes[w].1.clone());
                }
            }
            w = w + 1;
        }
        assert(attrs.skip(w as int).len() == 0 || nss.skip(w as int).len() == 0);
        None
    }
}

} // verus!
