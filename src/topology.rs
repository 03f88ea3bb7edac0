use vstd::prelude::*;

use crate::error::SonosError;
use crate::text::{has_char, occurs_at, starts_with_at};
use crate::xml::{
    attribute_of, child_named, option_view, parsed_xml, XmlElement, XmlItem, XmlNode, XmlTree,
};

verus! {

/// What follows the `http://` or `https://` at the start of a location URL.
pub open spec fn after_scheme(loc: Seq<char>) -> Option<Seq<char>> {
    if occurs_at(loc, "http://"@, 0) {
        Some(loc.subrange(7, loc.len() as int))
    } else if occurs_at(loc, "https://"@, 0) {
        Some(loc.subrange(8, loc.len() as int))
    } else {
        None
    }
}

/// Whether the host of `rest` ends at `k`: `:1400/xml` follows at `k` and at no earlier
/// position past the first, and the host holds no line break.
pub open spec fn host_ends_at(rest: Seq<char>, k: int) -> bool {
    &&& 1 <= k
    &&& occurs_at(rest, ":1400/xml"@, k)
    &&& forall|j: int| 1 <= j < k ==> !occurs_at(rest, ":1400/xml"@, j)
    &&& !has_char(rest.subrange(0, k), '\n')
}

/// The address in a location URL of the form `http(s)://<address>:1400/xml...`: the shortest
/// non-empty text between the scheme and `:1400/xml`, on one line.
pub open spec fn host_of_location(loc: Seq<char>) -> Option<Seq<char>> {
    match after_scheme(loc) {
        Some(rest) => if exists|k: int| #[trigger] host_ends_at(rest, k) {
            Some(rest.subrange(0, host_end(rest)))
        } else {
            None
        },
        None => None,
    }
}

/// Where the host of `rest` ends, if anywhere.
pub open spec fn host_end(rest: Seq<char>) -> int {
    choose|k: int| #[trigger] host_ends_at(rest, k)
}

proof fn lemma_host_end_unique(rest: Seq<char>, k: int)
    requires
        host_ends_at(rest, k),
    ensures
        host_end(rest) == k,
{
    let j = host_end(rest);
    assert(host_ends_at(rest, j));
    if j < k {
        assert(!occurs_at(rest, ":1400/xml"@, j));
    } else if j > k {
        assert(!occurs_at(rest, ":1400/xml"@, k));
    }
}

/// Reads the address out of a location URL of the form `http(s)://<address>:1400/xml`.
pub fn parse_location(loc: &str) -> (r: Option<String>)
    ensures
        option_view(r) == host_of_location(loc@),
{
    let n = loc.unicode_len();
    let skip: usize = if starts_with_at(loc, "http://", 0) {
        7
    } else if starts_with_at(loc, "https://", 0) {
        8
    } else {
        return None;
    };
    proof {
        reveal_strlit("http://");
        reveal_strlit("https://");
    }
    let rest = loc.substring_char(skip, n);
    assert(after_scheme(loc@) == Some(rest@));
    let m = rest.unicode_len();
    let mut k: usize = 1;
    proof {
        reveal_strlit(":1400/xml");
    }
    while k < m
        invariant
            m == rest@.len(),
            after_scheme(loc@) == Some(rest@),
            1 <= k <= m + 1,
            forall|j: int| 1 <= j < k ==> !occurs_at(rest@, ":1400/xml"@, j),
            !has_char(rest@.subrange(0, k - 1), '\n'),
        decreases m + 1 - k,
    {
        if rest.get_char(k - 1) == '\n' {
            assert forall|j: int| !host_ends_at(rest@, j) by {
                if host_ends_at(rest@, j) && j >= k {
                    assert(rest@.subrange(0, j)[k - 1] == '\n');
                }
            }
            return None;
        }
        assert(!has_char(rest@.subrange(0, k as int), '\n')) by {
            assert forall|i: int| 0 <= i < k implies rest@.subrange(0, k as int)[i] != '\n' by {
                if i < k - 1 {
                    assert(rest@.subrange(0, k as int)[i] == rest@.subrange(0, k - 1)[i]);
                }
            }
        }
        if starts_with_at(rest, ":1400/xml", k) {
            assert(host_ends_at(rest@, k as int));
            proof {
                lemma_host_end_unique(rest@, k as int);
            }
            let ghost scheme_rest = after_scheme(loc@)->Some_0;
            assert(host_ends_at(scheme_rest, k as int));
            return Some(String::from_str(rest.substring_char(0, k)));
        }
        k = k + 1;
    }
    assert forall|j: int| !host_ends_at(rest@, j) by {
        if j >= k {
            assert(!occurs_at(rest@, ":1400/xml"@, j));
        }
    }
    None
}

/// The first element among `items` that `pred` holds of.
pub open spec fn first_element(items: Seq<XmlItem>, pred: spec_fn(XmlTree) -> bool) -> Option<
    XmlTree,
>
    decreases items.len(),
{
    if items.len() == 0 {
        None
    } else if items[0] is Element && pred(items[0]->Element_0) {
        Some(items[0]->Element_0)
    } else {
        first_element(items.drop_first(), pred)
    }
}

/// Whether a zone player entry describes the device `uuid`.
pub open spec fn is_entry_of(uuid: Seq<char>) -> spec_fn(XmlTree) -> bool {
    |t: XmlTree| attribute_of(t, "uuid"@) == Some(uuid)
}

/// Whether a zone player entry is the coordinator of `group`. A missing `group` attribute
/// reads as empty.
pub open spec fn is_coordinator_of(group: Seq<char>) -> spec_fn(XmlTree) -> bool {
    |t: XmlTree|
        attribute_of(t, "coordinator"@) == Some("true"@) && attribute_of(t, "group"@).unwrap_or(
            Seq::empty(),
        ) == group
}

/// What resolving the coordinator of a device gives, in the model.
pub enum Coordinator {
    /// The address of the coordinator.
    Address(Seq<char>),
    /// No entry for the device, or no coordinator for its group.
    NotFound,
    /// The document lacks what the protocol requires.
    Malformed,
}

/// The coordinator of device `uuid` at address `own`, as the topology document rooted at
/// `root` gives it. A root without children means the device coordinates itself.
pub open spec fn coordinator_in(root: XmlTree, own: Seq<char>, uuid: Seq<char>) -> Coordinator {
    if root.children.len() == 0 {
        Coordinator::Address(own)
    } else {
        match child_named(root, "ZonePlayers"@) {
            None => Coordinator::Malformed,
            Some(players) => match first_element(players.children, is_entry_of(uuid)) {
                None => Coordinator::NotFound,
                Some(entry) => match attribute_of(entry, "group"@) {
                    None => Coordinator::Malformed,
                    Some(group) => match first_element(
                        players.children,
                        is_coordinator_of(group),
                    ) {
                        None => Coordinator::NotFound,
                        Some(coordinator) => match attribute_of(coordinator, "location"@) {
                            None => Coordinator::Malformed,
                            Some(loc) => match host_of_location(loc) {
                                Some(host) => Coordinator::Address(host),
                                None => Coordinator::Malformed,
                            },
                        },
                    },
                },
            },
        }
    }
}

/// Whether a byte is XML white space.
pub open spec fn is_blank_byte(b: u8) -> bool {
    b == 0x20 || b == 0x09 || b == 0x0a || b == 0x0d
}

/// Whether a document holds nothing but white space.
pub open spec fn is_blank(doc: Seq<u8>) -> bool {
    forall|i: int| 0 <= i < doc.len() ==> is_blank_byte(#[trigger] doc[i])
}

/// The coordinator that a topology document gives. An empty document, like a childless root,
/// means the device coordinates itself; one that is not well-formed XML is malformed.
pub open spec fn coordinator_in_document(doc: Seq<u8>, own: Seq<char>, uuid: Seq<char>) -> Coordinator {
    if is_blank(doc) {
        Coordinator::Address(own)
    } else {
        match parsed_xml(doc) {
            Some(root) => coordinator_in(root, own, uuid),
            None => Coordinator::Malformed,
        }
    }
}

/// Whether an outcome of the library is the one that the model gives; both kinds of miss
/// carry the device's uuid.
pub open spec fn coordinator_is(r: Result<String, SonosError>, c: Coordinator, uuid: Seq<char>) -> bool {
    match c {
        Coordinator::Address(a) => r matches Ok(s) && s@ == a,
        Coordinator::NotFound => r matches Err(SonosError::DeviceNotFound(id)) && id@ == uuid,
        Coordinator::Malformed => r matches Err(SonosError::ParseError(_)),
    }
}

/// The first element child of `el` that is the coordinator of group `wanted` (where
/// `group_test` holds) or the entry of device `wanted` (where it does not).
fn find_entry<'a>(el: &'a XmlElement, wanted: &str, group_test: bool) -> (r: Option<
    &'a XmlElement,
>)
    ensures
        group_test ==> match r {
            Some(c) => first_element(el.tree().children, is_coordinator_of(wanted@)) == Some(
                c.tree(),
            ),
            None => first_element(el.tree().children, is_coordinator_of(wanted@)) is None,
        },
        !group_test ==> match r {
            Some(c) => first_element(el.tree().children, is_entry_of(wanted@)) == Some(c.tree()),
            None => first_element(el.tree().children, is_entry_of(wanted@)) is None,
        },
{
    let ghost t = el.tree();
    let ghost pred = if group_test {
        is_coordinator_of(wanted@)
    } else {
        is_entry_of(wanted@)
    };
    let target = String::from_str(wanted);
    let truth = String::from_str("true");
    proof {
        reveal_strlit("true");
    }
    let n = el.children.len();
    assert(t.children.subrange(0, n as int) =~= t.children);
    let mut i: usize = 0;
    while i < n
        invariant
            n == el.children@.len(),
            i <= n,
            t == el.tree(),
            target@ == wanted@,
            truth@ == "true"@,
            pred == (if group_test {
                is_coordinator_of(wanted@)
            } else {
                is_entry_of(wanted@)
            }),
            first_element(t.children.subrange(i as int, n as int), pred) == first_element(
                t.children,
                pred,
            ),
        decreases n - i,
    {
        let ghost items = t.children.subrange(i as int, n as int);
        assert(items.drop_first() =~= t.children.subrange(i + 1, n as int));
        assert(items[0] == t.children[i as int]);
        match &el.children[i] {
            XmlNode::Element(e) => {
                assert(t.children[i as int] == XmlItem::Element(e.tree()));
                let hit = if group_test {
                    let is_coordinator = match e.attribute("coordinator") {
                        Some(v) => *v == truth,
                        None => false,
                    };
                    let same_group = match e.attribute("group") {
                        Some(g) => *g == target,
                        None => {
                            let empty = target.unicode_len() == 0;
                            assert(empty ==> target@ =~= Seq::<char>::empty());
                            empty
                        },
                    };
                    assert(is_coordinator == (attribute_of(e.tree(), "coordinator"@) == Some(
                        "true"@,
                    )));
                    assert(same_group == (attribute_of(e.tree(), "group"@).unwrap_or(
                        Seq::empty(),
                    ) == wanted@));
                    assert((is_coordinator && same_group) == is_coordinator_of(wanted@)(
                        e.tree(),
                    ));
                    is_coordinator && same_group
                } else {
                    let same = match e.attribute("uuid") {
                        Some(v) => *v == target,
                        None => false,
                    };
                    assert(same == is_entry_of(wanted@)(e.tree()));
                    same
                };
                assert(hit == pred(e.tree()));
                if hit {
                    return Some(e);
                }
            },
            _ => {},
        }
        i = i + 1;
    }
    assert(t.children.subrange(i as int, n as int).len() == 0);
    None
}

/// Resolves the coordinator of device `uuid` at address `own` from the root element of its
/// topology document.
pub fn coordinator_from_root(root: &XmlElement, own: &str, uuid: &str) -> (r: Result<
    String,
    SonosError,
>)
    ensures
        coordinator_is(r, coordinator_in(root.tree(), own@, uuid@), uuid@),
{
    if root.has_no_children() {
        return Ok(String::from_str(own));
    }
    let players = match root.get_child("ZonePlayers") {
        Some(p) => p,
        None => return Err(SonosError::ParseError("missing ZonePlayers element".to_owned())),
    };
    let entry = match find_entry(players, uuid, false) {
        Some(e) => e,
        None => return Err(SonosError::DeviceNotFound(String::from_str(uuid))),
    };
    let group = match entry.attribute("group") {
        Some(g) => g,
        None => return Err(SonosError::ParseError("missing group identifier".to_owned())),
    };
    let coordinator = match find_entry(players, group.as_str(), true) {
        Some(c) => c,
        None => return Err(SonosError::DeviceNotFound(String::from_str(uuid))),
    };
    let location = match coordinator.attribute("location") {
        Some(l) => l,
        None => return Err(SonosError::ParseError("missing coordinator location".to_owned())),
    };
    match parse_location(location.as_str()) {
        Some(host) => Ok(host),
        None => Err(SonosError::ParseError("couldn't parse coordinator url".to_owned())),
    }
}

/// Whether a document holds nothing but white space.
pub fn blank_document(doc: &[u8]) -> (r: bool)
    ensures
        r == is_blank(doc@),
{
    let mut i: usize = 0;
    while i < doc.len()
        invariant
            i <= doc@.len(),
            forall|j: int| 0 <= j < i ==> is_blank_byte(#[trigger] doc@[j]),
        decreases doc@.len() - i,
    {
        let b = doc[i];
        if !(b == 0x20 || b == 0x09 || b == 0x0a || b == 0x0d) {
            return false;
        }
        i = i + 1;
    }
    true
}

/// Resolves the coordinator of device `uuid` at address `own` from the bytes of its topology
/// document.
pub fn coordinator_from_topology(doc: &[u8], own: &str, uuid: &str) -> (r: Result<
    String,
    SonosError,
>)
    ensures
        coordinator_is(r, coordinator_in_document(doc@, own@, uuid@), uuid@),
{
    if blank_document(doc) {
        return Ok(String::from_str(own));
    }
    let root = XmlElement::parse(doc)?;
    coordinator_from_root(&root, own, uuid)
}

} // verus!
