use vstd::prelude::*;

use crate::error::SonosError;

verus! {

/// One node under an element of a parsed XML document.
#[derive(Debug)]
pub enum XmlNode {
    Element(XmlElement),
    Comment(String),
    CData(String),
    Text(String),
    ProcessingInstruction(String, Option<String>),
}

/// An element of a parsed XML document: its local name, its attributes and its children in
/// document order.
#[derive(Debug)]
pub struct XmlElement {
    pub name: String,
    pub attributes: Vec<(String, String)>,
    pub children: Vec<XmlNode>,
}

/// The mathematical model of an `XmlNode`.
pub enum XmlItem {
    Element(XmlTree),
    Comment(Seq<char>),
    CData(Seq<char>),
    Text(Seq<char>),
    ProcessingInstruction(Seq<char>, Option<Seq<char>>),
}

/// The mathematical model of an `XmlElement`. Attributes form a map: where a name repeats, the
/// first occurrence counts.
pub struct XmlTree {
    pub name: Seq<char>,
    pub attributes: Map<Seq<char>, Seq<char>>,
    pub children: Seq<XmlItem>,
}

/// The root element of the XML document held in `bytes`, or `None` where the bytes are not a
/// well-formed document.
pub uninterp spec fn parsed_xml(bytes: Seq<u8>) -> Option<XmlTree>;

pub open spec fn attribute_map(s: Seq<(String, String)>) -> Map<Seq<char>, Seq<char>>
    decreases s.len(),
{
    if s.len() == 0 {
        Map::empty()
    } else {
        attribute_map(s.drop_first()).insert(s[0].0@, s[0].1@)
    }
}

/// The view of an optional string.
pub open spec fn option_view(o: Option<String>) -> Option<Seq<char>> {
    match o {
        Some(x) => Some(x@),
        None => None,
    }
}

impl XmlElement {
    pub open spec fn tree(&self) -> XmlTree
        decreases self,
    {
        XmlTree {
            name: self.name@,
            attributes: attribute_map(self.attributes@),
            children: Seq::new(
                self.children@.len(),
                |i: int|
                    if 0 <= i < self.children@.len() {
                        match self.children@[i] {
                            XmlNode::Element(e) => XmlItem::Element(e.tree()),
                            XmlNode::Comment(s) => XmlItem::Comment(s@),
                            XmlNode::CData(s) => XmlItem::CData(s@),
                            XmlNode::Text(s) => XmlItem::Text(s@),
                            XmlNode::ProcessingInstruction(n, d) => XmlItem::ProcessingInstruction(
                                n@,
                                option_view(d),
                            ),
                        }
                    } else {
                        XmlItem::Comment(Seq::empty())
                    },
            ),
        }
    }
}

/// The first child element of `t` whose name is `name`.
pub open spec fn child_named(t: XmlTree, name: Seq<char>) -> Option<XmlTree> {
    first_named(t.children, name)
}

pub open spec fn first_named(items: Seq<XmlItem>, name: Seq<char>) -> Option<XmlTree>
    decreases items.len(),
{
    if items.len() == 0 {
        None
    } else if items[0] is Element && items[0]->Element_0.name == name {
        Some(items[0]->Element_0)
    } else {
        first_named(items.drop_first(), name)
    }
}

/// The text and CDATA children of `items`, concatenated in order; `None` where there are none.
pub open spec fn joined_text(items: Seq<XmlItem>) -> Option<Seq<char>>
    decreases items.len(),
{
    if items.len() == 0 {
        None
    } else {
        let rest = joined_text(items.drop_last());
        match items.last() {
            XmlItem::Text(s) => Some(rest.unwrap_or(Seq::empty()) + s),
            XmlItem::CData(s) => Some(rest.unwrap_or(Seq::empty()) + s),
            _ => rest,
        }
    }
}

/// The text content of an element.
pub open spec fn text_of(t: XmlTree) -> Option<Seq<char>> {
    joined_text(t.children)
}

/// The value of attribute `key` of `t`.
pub open spec fn attribute_of(t: XmlTree, key: Seq<char>) -> Option<Seq<char>> {
    if t.attributes.contains_key(key) {
        Some(t.attributes[key])
    } else {
        None
    }
}

/// The text content of the first child of `t` named `name`.
pub open spec fn child_text(t: XmlTree, name: Seq<char>) -> Option<Seq<char>> {
    match child_named(t, name) {
        Some(c) => text_of(c),
        None => None,
    }
}

proof fn lemma_attribute_map_first(s: Seq<(String, String)>, key: Seq<char>, i: int)
    requires
        0 <= i <= s.len(),
        forall|j: int| 0 <= j < i ==> s[j].0@ != key,
    ensures
        i < s.len() && s[i].0@ == key ==> attribute_map(s).contains_key(key) && attribute_map(
            s,
        )[key] == s[i].1@,
        i == s.len() ==> !attribute_map(s).contains_key(key),
    decreases s.len(),
{
    if s.len() > 0 && !(i == 0 && s[0].0@ == key) {
        let rest = s.drop_first();
        if i > 0 {
            assert forall|j: int| 0 <= j < i - 1 implies rest[j].0@ != key by {
                assert(rest[j] == s[j + 1]);
            }
            lemma_attribute_map_first(rest, key, i - 1);
        } else {
            lemma_attribute_map_first(rest, key, 0);
        }
    }
}

/// Relies on xmltree::Element::parse: it reads the root element of an XML document from bytes
/// (local names, attributes, and child nodes in document order), and fails where the bytes are
/// not well-formed XML. What it builds depends on the bytes alone; only the order in which its
/// attribute map hands out entries varies, and the model reads attributes as a map.
#[verifier::external_body]
fn parse_outside(bytes: &[u8]) -> (r: Result<XmlElement, xmltree::ParseError>)
    ensures
        match r {
            Ok(e) => parsed_xml(bytes@) == Some(e.tree()),
            Err(_) => parsed_xml(bytes@) is None,
        },
{
    xmltree::Element::parse(bytes).map(XmlElement::from_outside)
}

#[verifier::external_type_specification]
#[verifier::external_body]
pub struct ExParseError(xmltree::ParseError);

#[verifier::external_type_specification]
#[verifier::external_body]
pub struct ExElement(xmltree::Element);

impl XmlElement {
    /// Converts an element that xmltree built into this crate's type, one field and one node for
    /// another: the local name, each attribute entry, and each child node in order, descending
    /// into child elements. It is the conversion step of `parse_outside` and decides nothing.
    #[verifier::external_body]
    fn from_outside(e: xmltree::Element) -> XmlElement {
        XmlElement {
            name: e.name,
            attributes: e.attributes.into_iter().collect(),
            children: e.children.into_iter().map(|n| match n {
                xmltree::XMLNode::Element(c) => XmlNode::Element(XmlElement::from_outside(c)),
                xmltree::XMLNode::Comment(s) => XmlNode::Comment(s),
                xmltree::XMLNode::CData(s) => XmlNode::CData(s),
                xmltree::XMLNode::Text(s) => XmlNode::Text(s),
                xmltree::XMLNode::ProcessingInstruction(n, d) => XmlNode::ProcessingInstruction(n, d),
            }).collect(),
        }
    }

    /// Parses an XML document and returns its root element. Bytes that are not well-formed
    /// XML give a `ParseError`.
    pub fn parse(bytes: &[u8]) -> (r: Result<XmlElement, SonosError>)
        ensures
            match r {
                Ok(e) => parsed_xml(bytes@) == Some(e.tree()),
                Err(err) => parsed_xml(bytes@) is None && err is ParseError,
            },
    {
        match parse_outside(bytes) {
            Ok(e) => Ok(e),
            Err(_) => Err(SonosError::ParseError("malformed XML".to_owned())),
        }
    }

    /// The first child element named `name`.
    pub fn get_child(&self, name: &str) -> (r: Option<&XmlElement>)
        ensures
            match r {
                Some(c) => child_named(self.tree(), name@) == Some(c.tree()),
                None => child_named(self.tree(), name@) is None,
            },
    {
        let ghost t = self.tree();
        let key = name.to_owned();
        let n = self.children.len();
        assert(t.children.subrange(0, n as int) =~= t.children);
        let mut i: usize = 0;
        while i < n
            invariant
                n == self.children@.len(),
                i <= n,
                t == self.tree(),
                key@ == name@,
                first_named(t.children.subrange(i as int, n as int), name@) == child_named(
                    t,
                    name@,
                ),
            decreases n - i,
        {
            let ghost items = t.children.subrange(i as int, n as int);
            assert(items.drop_first() =~= t.children.subrange(i + 1, n as int));
            assert(items[0] == t.children[i as int]);
            match &self.children[i] {
                XmlNode::Element(e) => {
                    assert(t.children[i as int] == XmlItem::Element(e.tree()));
                    if e.name == key {
                        return Some(e);
                    }
                },
                _ => {},
            }
            i = i + 1;
        }
        assert(t.children.subrange(i as int, n as int).len() == 0);
        None
    }

    /// The first child element named `name`, taken out of this element.
    pub fn into_child(self, name: &str) -> (r: Option<XmlElement>)
        ensures
            match r {
                Some(c) => child_named(self.tree(), name@) == Some(c.tree()),
                None => child_named(self.tree(), name@) is None,
            },
    {
        let ghost t = self.tree();
        let key = name.to_owned();
        let n = self.children.len();
        assert(t.children.subrange(0, n as int) =~= t.children);
        let mut i: usize = 0;
        while i < n
            invariant
                n == self.children@.len(),
                i <= n,
                t == self.tree(),
                key@ == name@,
                first_named(t.children.subrange(i as int, n as int), name@) == child_named(
                    t,
                    name@,
                ),
            decreases n - i,
        {
            let ghost items = t.children.subrange(i as int, n as int);
            assert(items.drop_first() =~= t.children.subrange(i + 1, n as int));
            assert(items[0] == t.children[i as int]);
            let found = match &self.children[i] {
                XmlNode::Element(e) => {
                    assert(t.children[i as int] == XmlItem::Element(e.tree()));
                    e.name == key
                },
                _ => false,
            };
            if found {
                let mut children = self.children;
                let node = children.remove(i);
                return match node {
                    XmlNode::Element(e) => Some(e),
                    _ => None,
                };
            }
            i = i + 1;
        }
        assert(t.children.subrange(i as int, n as int).len() == 0);
        None
    }

    /// The text and CDATA children, concatenated in order; `None` where there are none.
    pub fn get_text(&self) -> (r: Option<String>)
        ensures
            option_view(r) == text_of(self.tree()),
    {
        let n = self.children.len();
        let mut acc: Option<String> = None;
        let mut i: usize = 0;
        while i < n
            invariant
                n == self.children@.len(),
                i <= n,
                option_view(acc) == joined_text(self.tree().children.subrange(0, i as int)),
            decreases n - i,
        {
            let ghost before = self.tree().children.subrange(0, i as int);
            let ghost after = self.tree().children.subrange(0, i + 1);
            assert(after.drop_last() =~= before);
            match &self.children[i] {
                XmlNode::Text(s) => {
                    acc = match acc {
                        Some(a) => Some(a.concat(s.as_str())),
                        None => Some(s.clone()),
                    };
                },
                XmlNode::CData(s) => {
                    acc = match acc {
                        Some(a) => Some(a.concat(s.as_str())),
                        None => Some(s.clone()),
                    };
                },
                _ => {},
            }
            i = i + 1;
        }
        assert(self.tree().children.subrange(0, n as int) =~= self.tree().children);
        acc
    }

    /// The value of the attribute named `key`.
    pub fn attribute(&self, key: &str) -> (r: Option<&String>)
        ensures
            match r {
                Some(v) => attribute_of(self.tree(), key@) == Some(v@),
                None => attribute_of(self.tree(), key@) is None,
            },
    {
        let wanted = key.to_owned();
        let n = self.attributes.len();
        let mut i: usize = 0;
        while i < n
            invariant
                n == self.attributes@.len(),
                i <= n,
                wanted@ == key@,
                forall|j: int| 0 <= j < i ==> self.attributes@[j].0@ != key@,
            decreases n - i,
        {
            if self.attributes[i].0 == wanted {
                proof {
                    lemma_attribute_map_first(self.attributes@, key@, i as int);
                }
                return Some(&self.attributes[i].1);
            }
            i = i + 1;
        }
        proof {
            lemma_attribute_map_first(self.attributes@, key@, i as int);
        }
        None
    }

    /// Whether the element has no child nodes at all.
    pub fn has_no_children(&self) -> (r: bool)
        ensures
            r == (self.tree().children.len() == 0),
    {
        self.children.len() == 0
    }
}

/// The first child element named `name`, or a `ParseError` where there is none.
pub fn get_child_element<'a>(el: &'a XmlElement, name: &str) -> (r: Result<&'a XmlElement, SonosError>)
    ensures
        match r {
            Ok(c) => child_named(el.tree(), name@) == Some(c.tree()),
            Err(e) => child_named(el.tree(), name@) is None && e is ParseError,
        },
{
    match el.get_child(name) {
        Some(c) => Ok(c),
        None => Err(SonosError::ParseError("missing element".to_owned())),
    }
}

/// The text of the first child element named `name`, or a `ParseError` where there is no such
/// child or it holds no text.
pub fn get_child_element_text(el: &XmlElement, name: &str) -> (r: Result<String, SonosError>)
    ensures
        match r {
            Ok(s) => child_text(el.tree(), name@) == Some(s@),
            Err(e) => child_text(el.tree(), name@) is None && e is ParseError,
        },
{
    match get_child_element(el, name)?.get_text() {
        Some(s) => Ok(s),
        None => Err(SonosError::ParseError("element holds no text".to_owned())),
    }
}

} // verus!
