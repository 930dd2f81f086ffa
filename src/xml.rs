//! A plain-value picture of a parsed XML document.
//!
//! The document is held as a vector of nodes in document order; every node
//! lists its children by their position in that vector. Element nodes carry
//! their expanded name; other nodes (text, comments) have an empty name.

use crate::text::str_eq;
use vstd::prelude::*;

verus! {

/// One attribute of an element: its namespace URI, local name and value.
pub struct XmlAttribute {
    pub namespace: Option<String>,
    pub name: String,
    pub value: String,
}

/// One node of a document.
pub struct XmlNode {
    /// Namespace URI of an element's name.
    pub namespace: Option<String>,
    /// Local name of an element; empty for other nodes.
    pub name: String,
    /// The node's text: for an element, that of its first child when it is a
    /// text node.
    pub text: Option<String>,
    pub attributes: Vec<XmlAttribute>,
    /// Positions of the children in the document's node vector, in order.
    pub children: Vec<usize>,
}

/// A document: its nodes in document order, and the position of the root element.
pub struct XmlDocument {
    pub nodes: Vec<XmlNode>,
    pub root: usize,
}

pub struct XmlAttributeModel {
    pub namespace: Option<Seq<char>>,
    pub name: Seq<char>,
    pub value: Seq<char>,
}

pub struct XmlNodeModel {
    pub namespace: Option<Seq<char>>,
    pub name: Seq<char>,
    pub text: Option<Seq<char>>,
    pub attributes: Seq<XmlAttributeModel>,
    pub children: Seq<usize>,
}

pub struct XmlDocumentModel {
    pub nodes: Seq<XmlNodeModel>,
    pub root: usize,
}

/// The characters of an optional string.
pub open spec fn opt_chars(o: Option<String>) -> Option<Seq<char>> {
    match o {
        Some(s) => Some(s@),
        None => None,
    }
}

impl View for XmlAttribute {
    type V = XmlAttributeModel;

    open spec fn view(&self) -> XmlAttributeModel {
        XmlAttributeModel {
            namespace: opt_chars(self.namespace),
            name: self.name@,
            value: self.value@,
        }
    }
}

impl View for XmlNode {
    type V = XmlNodeModel;

    open spec fn view(&self) -> XmlNodeModel {
        XmlNodeModel {
            namespace: opt_chars(self.namespace),
            name: self.name@,
            text: opt_chars(self.text),
            attributes: self.attributes@.map_values(|a: XmlAttribute| a@),
            children: self.children@,
        }
    }
}

impl View for XmlDocument {
    type V = XmlDocumentModel;

    open spec fn view(&self) -> XmlDocumentModel {
        XmlDocumentModel { nodes: self.nodes@.map_values(|n: XmlNode| n@), root: self.root }
    }
}

/// The model of an optional document.
pub open spec fn opt_document(o: Option<XmlDocument>) -> Option<XmlDocumentModel> {
    match o {
        Some(d) => Some(d@),
        None => None,
    }
}

/// The document that roxmltree builds from a text, or `None` where the text is
/// not well-formed XML.
pub uninterp spec fn xml_document_of(text: Seq<char>) -> Option<XmlDocumentModel>;

/// roxmltree's parse error, carried as an opaque value.
#[verifier::external_type_specification]
#[verifier::external_body]
pub struct ExXmlError(roxmltree::Error);

/// Relies on `roxmltree::Document::parse`: it accepts or refuses a text, and
/// builds its nodes, from the text alone. The nodes are taken in document
/// order, which is the order of their ids, so that a child's id is its position.
#[verifier::external_body]
fn read_xml(text: &str) -> (r: Result<XmlDocument, roxmltree::Error>)
    ensures
        r is Ok <==> xml_document_of(text@) is Some,
        r is Ok ==> xml_document_of(text@) == Some(r->Ok_0@),
{
    let doc = roxmltree::Document::parse(text)?;
    Ok(XmlDocument {
        root: doc.root_element().id().get_usize(),
        nodes: doc.descendants().map(|n| XmlNode {
            namespace: n.tag_name().namespace().map(String::from),
            name: n.tag_name().name().into(),
            text: n.text().map(String::from),
            attributes: n.attributes().map(|a| XmlAttribute {
                namespace: a.namespace().map(String::from), name: a.name().into(), value: a.value().into(),
            }).collect(),
            children: n.children().map(|c| c.id().get_usize()).collect(),
        }).collect(),
    })
}

/// Reads a document, or `None` where the text is not well-formed XML.
pub fn parse_xml(text: &str) -> (r: Option<XmlDocument>)
    ensures
        opt_document(r) == xml_document_of(text@),
{
    match read_xml(text) {
        Ok(d) => Some(d),
        Err(_) => None,
    }
}

/// The value of the first attribute from position `i` on that has no namespace
/// and the local name `key`.
pub open spec fn attribute_from(attrs: Seq<XmlAttributeModel>, key: Seq<char>, i: int) -> Option<
    Seq<char>,
>
    decreases attrs.len() - i,
{
    if i < 0 || i >= attrs.len() {
        None
    } else if attrs[i].namespace is None && attrs[i].name == key {
        Some(attrs[i].value)
    } else {
        attribute_from(attrs, key, i + 1)
    }
}

/// The value of an element's attribute `key` that carries no namespace.
pub open spec fn attribute_of(n: XmlNodeModel, key: Seq<char>) -> Option<Seq<char>> {
    attribute_from(n.attributes, key, 0)
}

/// The `k`-th child of a node, where its position lies in the document.
pub open spec fn child_of(d: XmlDocumentModel, n: XmlNodeModel, k: int) -> Option<XmlNodeModel> {
    if 0 <= k < n.children.len() && n.children[k] < d.nodes.len() {
        Some(d.nodes[n.children[k] as int])
    } else {
        None
    }
}

/// Copies an optional string.
pub fn copy_text(o: &Option<String>) -> (r: Option<String>)
    ensures
        opt_chars(r) == opt_chars(*o),
{
    match o {
        Some(s) => Some(s.clone()),
        None => None,
    }
}

impl XmlNode {
    /// Looks up an attribute that carries no namespace.
    pub fn attribute(&self, key: &str) -> (r: Option<String>)
        ensures
            opt_chars(r) == attribute_of(self@, key@),
    {
        let n = self.attributes.len();
        let mut i: usize = 0;
        while i < n
            invariant
                n == self.attributes@.len(),
                i <= n,
                attribute_of(self@, key@) == attribute_from(self@.attributes, key@, i as int),
            decreases n - i,
        {
            let a = &self.attributes[i];
            if a.namespace.is_none() && str_eq(a.name.as_str(), key) {
                return Some(a.value.clone());
            }
            i = i + 1;
        }
        None
    }

    /// Whether the node's name lies in the namespace `uri`.
    pub fn has_namespace(&self, uri: &str) -> (r: bool)
        ensures
            r == (self@.namespace == Some(uri@)),
    {
        match &self.namespace {
            Some(ns) => str_eq(ns.as_str(), uri),
            None => false,
        }
    }

    /// Whether the node's local name is `name`.
    pub fn has_name(&self, name: &str) -> (r: bool)
        ensures
            r == (self@.name == name@),
    {
        str_eq(self.name.as_str(), name)
    }
}

impl XmlDocument {
    /// The `k`-th child of `n`, unless its position lies outside the document.
    pub fn child(&self, n: &XmlNode, k: usize) -> (r: Option<&XmlNode>)
        requires
            k < n.children@.len(),
        ensures
            match r {
                Some(c) => child_of(self@, n@, k as int) == Some(c@),
                None => child_of(self@, n@, k as int) is None,
            },
    {
        let i = n.children[k];
        if i < self.nodes.len() {
            Some(&self.nodes[i])
        } else {
            None
        }
    }
}

} // verus!
