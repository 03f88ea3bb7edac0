use vstd::prelude::*;

use crate::error::{AVTransportError, SonosError};
use crate::text::{contains_seq, has_char, occurs_at, parse_u64, u64_of};
use crate::xml::{
    child_named, child_text, get_child_element_text, parsed_xml, XmlElement, XmlTree,
};

verus! {

/// The fixed start of every envelope: the root element with the SOAP envelope and encoding
/// namespaces, and the opening of the body.
pub open spec fn envelope_head() -> Seq<char> {
    "<s:Envelope xmlns:s=\"http://schemas.xmlsoap.org/soap/envelope/\" s:encodingStyle=\"http://schemas.xmlsoap.org/soap/encoding/\"><s:Body>"@
}

/// The fixed end of every envelope.
pub open spec fn envelope_tail() -> Seq<char> {
    "</s:Body></s:Envelope>"@
}

/// The element that opens an action, namespaced to its service.
pub open spec fn opening_tag(service: Seq<char>, action: Seq<char>) -> Seq<char> {
    "<u:"@ + action + " xmlns:u=\""@ + service + "\">"@
}

/// The element that closes an action.
pub open spec fn closing_tag(action: Seq<char>) -> Seq<char> {
    "</u:"@ + action + ">"@
}

/// The SOAP 1.1 envelope that carries `action` of `service` with the argument fragment
/// `payload`.
pub open spec fn envelope_text(service: Seq<char>, action: Seq<char>, payload: Seq<char>) -> Seq<
    char,
> {
    envelope_head() + opening_tag(service, action) + payload + closing_tag(action)
        + envelope_tail()
}

/// Builds the SOAP 1.1 envelope that carries `action` of `service` with the argument fragment
/// `payload`.
pub fn soap_envelope(service: &str, action: &str, payload: &str) -> (r: String)
    ensures
        r@ == envelope_text(service@, action@, payload@),
{
    let mut r = String::from_str(
        "<s:Envelope xmlns:s=\"http://schemas.xmlsoap.org/soap/envelope/\" s:encodingStyle=\"http://schemas.xmlsoap.org/soap/encoding/\"><s:Body>",
    );
    r.append("<u:");
    r.append(action);
    r.append(" xmlns:u=\"");
    r.append(service);
    r.append("\">");
    r.append(payload);
    r.append("</u:");
    r.append(action);
    r.append(">");
    r.append("</s:Body></s:Envelope>");
    assert(r@ =~= envelope_text(service@, action@, payload@));
    r
}

/// Two envelopes built from the same endpoint, service, action and payload are the same
/// text, and so the same bytes.
pub proof fn lemma_envelope_deterministic(
    service: Seq<char>,
    action: Seq<char>,
    payload: Seq<char>,
    first: String,
    second: String,
)
    requires
        first@ == envelope_text(service, action, payload),
        second@ == envelope_text(service, action, payload),
    ensures
        first@ == second@,
{
}

proof fn lemma_opening_tag_lt(service: Seq<char>, action: Seq<char>)
    requires
        !has_char(service, '<'),
        !has_char(action, '<'),
    ensures
        opening_tag(service, action).len() >= 3,
        opening_tag(service, action)[0] == '<',
        opening_tag(service, action)[1] == 'u',
        forall|j: int|
            0 < j < opening_tag(service, action).len() ==> #[trigger] opening_tag(
                service,
                action,
            )[j] != '<',
{
    reveal_strlit("<u:");
    reveal_strlit(" xmlns:u=\"");
    reveal_strlit("\">");
    let o = opening_tag(service, action);
    let a = "<u:"@;
    let b = " xmlns:u=\""@;
    let c = "\">"@;
    assert(o == a + action + b + service + c);
    assert forall|j: int| 0 < j < o.len() implies #[trigger] o[j] != '<' by {
        let k1 = a.len() as int;
        let k2 = k1 + action.len();
        let k3 = k2 + b.len();
        let k4 = k3 + service.len();
        if j < k1 {
            assert(o[j] == a[j]);
        } else if j < k2 {
            assert(o[j] == action[j - k1]);
        } else if j < k3 {
            assert(o[j] == b[j - k2]);
        } else if j < k4 {
            assert(o[j] == service[j - k3]);
        } else {
            assert(o[j] == c[j - k4]);
        }
    }
}

/// The envelope holds the opening tag of its action exactly once, right after the fixed
/// head. This needs the action name and the service URN to hold no `<`, as no XML name and no
/// attribute value does, and the payload not to hold that same tag itself.
pub proof fn lemma_envelope_opening_tag_once(
    service: Seq<char>,
    action: Seq<char>,
    payload: Seq<char>,
)
    requires
        !has_char(service, '<'),
        !has_char(action, '<'),
        !contains_seq(payload, opening_tag(service, action)),
    ensures
        occurs_at(
            envelope_text(service, action, payload),
            opening_tag(service, action),
            envelope_head().len() as int,
        ),
        forall|i: int|
            occurs_at(envelope_text(service, action, payload), opening_tag(service, action), i)
                ==> i == envelope_head().len(),
{
    reveal_strlit(
        "<s:Envelope xmlns:s=\"http://schemas.xmlsoap.org/soap/envelope/\" s:encodingStyle=\"http://schemas.xmlsoap.org/soap/encoding/\"><s:Body>",
    );
    reveal_strlit("</s:Body></s:Envelope>");
    reveal_strlit("</u:");
    reveal_strlit(">");
    lemma_opening_tag_lt(service, action);
    let hd = envelope_head();
    let tl = envelope_tail();
    let o = opening_tag(service, action);
    let cl = closing_tag(action);
    let env = envelope_text(service, action, payload);
    let h = hd.len() as int;
    let ol = o.len() as int;
    let p = payload.len() as int;
    let c = cl.len() as int;
    assert(env == hd + o + payload + cl + tl);
    assert(env.subrange(h, h + ol) =~= o);
    assert(forall|k: int| 0 <= k < hd.len() - 1 && #[trigger] hd[k] == '<' ==> hd[k + 1] == 's');
    assert(hd[h - 1] == '>');
    assert(forall|k: int| 0 <= k < tl.len() - 1 && #[trigger] tl[k] == '<' ==> tl[k + 1] == '/');
    assert(tl[tl.len() - 1] == '>');
    assert(cl[0] == '<' && cl[1] == '/');
    assert forall|k: int| 1 <= k < cl.len() implies #[trigger] cl[k] != '<' by {
        let a = "</u:"@;
        if k < 4 {
            assert(cl[k] == a[k]);
        } else if k < 4 + action.len() {
            assert(cl[k] == action[k - 4]);
        } else {
            assert(cl[k] == ">"@[k - 4 - action.len()]);
        }
    }
    assert forall|i: int| occurs_at(env, o, i) implies i == h by {
        let w = env.subrange(i, i + ol);
        assert(w[0] == env[i] && w[1] == env[i + 1]);
        assert(env[i] == '<' && env[i + 1] == 'u');
        if i < h - 1 {
            assert(env[i] == hd[i] && env[i + 1] == hd[i + 1]);
        } else if i == h - 1 {
            assert(env[i] == hd[i]);
        } else if i == h {
        } else if h < i < h + ol {
            assert(env[i] == o[i - h]);
        } else if h + ol <= i < h + ol + p {
            if i + ol <= h + ol + p {
                let q = i - h - ol;
                assert(payload.subrange(q, q + ol) =~= w);
                assert(occurs_at(payload, o, q));
            } else {
                let m = h + ol + p - i;
                assert(env[h + ol + p] == cl[0]);
                assert(w[m] == env[i + m]);
                assert(o[m] != '<');
            }
        } else if h + ol + p <= i < h + ol + p + c {
            let k = i - h - ol - p;
            assert(env[i] == cl[k]);
            if k == 0 {
                assert(env[i + 1] == cl[1]);
            }
        } else {
            let k = i - h - ol - p - c;
            assert(env.len() == h + ol + p + c + tl.len());
            assert(0 <= k && k + 1 < tl.len());
            assert(env[i] == tl[k]);
            assert(env[i + 1] == tl[k + 1]);
        }
    }
}

/// What a SOAP response document says, in the model.
pub enum SoapReply {
    /// The `{action}Response` element under the body.
    Response(XmlTree),
    /// A fault whose error code falls in this category.
    Fault(AVTransportError),
    /// The document lacks what the protocol requires.
    Malformed,
}

/// The numeric code under `detail/UPnPError/errorCode` of a fault element.
pub open spec fn fault_code(fault: XmlTree) -> Option<u64> {
    match child_named(fault, "detail"@) {
        Some(detail) => match child_named(detail, "UPnPError"@) {
            Some(upnp) => match child_text(upnp, "errorCode"@) {
                Some(text) => u64_of(text),
                None => None,
            },
            None => None,
        },
        None => None,
    }
}

/// How the root element of a response to `action` decodes: the body must be there; a fault
/// under it decides the error; otherwise the `{action}Response` element is the result.
pub open spec fn soap_reply(root: XmlTree, action: Seq<char>) -> SoapReply {
    match child_named(root, "Body"@) {
        None => SoapReply::Malformed,
        Some(body) => match child_named(body, "Fault"@) {
            Some(fault) => match fault_code(fault) {
                Some(code) => SoapReply::Fault(AVTransportError::spec_from_code(code)),
                None => SoapReply::Malformed,
            },
            None => match child_named(body, action + "Response"@) {
                Some(response) => SoapReply::Response(response),
                None => SoapReply::Malformed,
            },
        },
    }
}

/// Whether an outcome of the library is the one that the model gives.
pub open spec fn reply_is(r: Result<XmlElement, SonosError>, m: SoapReply) -> bool {
    match m {
        SoapReply::Response(t) => r matches Ok(e) && e.tree() == t,
        SoapReply::Fault(k) => r matches Err(SonosError::AVTransportError(x)) && x == k,
        SoapReply::Malformed => r matches Err(SonosError::ParseError(_)),
    }
}

/// What the bytes of a response to `action` decode to.
pub open spec fn soap_reply_of_bytes(body: Seq<u8>, action: Seq<char>) -> SoapReply {
    match parsed_xml(body) {
        Some(root) => soap_reply(root, action),
        None => SoapReply::Malformed,
    }
}

/// Reads the error code of a fault element.
fn read_fault_code(fault: &XmlElement) -> (r: Option<u64>)
    ensures
        r == fault_code(fault.tree()),
{
    let detail = match fault.get_child("detail") {
        Some(d) => d,
        None => return None,
    };
    let upnp = match detail.get_child("UPnPError") {
        Some(u) => u,
        None => return None,
    };
    match get_child_element_text(upnp, "errorCode") {
        Ok(text) => parse_u64(text.as_str()),
        Err(_) => None,
    }
}

/// Decodes the root element of a response to `action`: a fault becomes its `AVTransportError`
/// category, and a missing body, an unreadable fault or a missing `{action}Response` element
/// a `ParseError`.
pub fn decode_soap_response(root: XmlElement, action: &str) -> (r: Result<XmlElement, SonosError>)
    ensures
        reply_is(r, soap_reply(root.tree(), action@)),
{
    let body = match root.into_child("Body") {
        Some(b) => b,
        None => return Err(SonosError::ParseError("missing Body element".to_owned())),
    };
    if let Some(fault) = body.get_child("Fault") {
        return match read_fault_code(fault) {
            Some(code) => Err(SonosError::from(AVTransportError::from(code))),
            None => Err(SonosError::ParseError("failed to parse error".to_owned())),
        };
    }
    let tag = String::from_str(action).concat("Response");
    match body.into_child(tag.as_str()) {
        Some(response) => Ok(response),
        None => Err(SonosError::ParseError("missing response element".to_owned())),
    }
}

/// Parses the bytes of a response to `action` and decodes them as `decode_soap_response`
/// does; bytes that are not well-formed XML give a `ParseError`.
pub fn parse_soap_response(body: &[u8], action: &str) -> (r: Result<XmlElement, SonosError>)
    ensures
        reply_is(r, soap_reply_of_bytes(body@, action@)),
{
    let root = XmlElement::parse(body)?;
    decode_soap_response(root, action)
}

/// One UPnP action to run on a speaker: where it goes, what it carries, and whether it goes
/// to the coordinator of the speaker's group rather than to the speaker itself.
pub struct SoapRequest {
    /// The control path, such as `MediaRenderer/AVTransport/Control`.
    pub endpoint: String,
    /// The service URN, such as `urn:schemas-upnp-org:service:AVTransport:1`.
    pub service: String,
    /// The action name, such as `Play`.
    pub action: String,
    /// The XML fragment of the action's arguments.
    pub payload: String,
    /// Whether the group coordinator is to run the action.
    pub use_coordinator: bool,
}

impl SoapRequest {
    /// Whether this request carries exactly these parts.
    pub open spec fn carries(
        &self,
        endpoint: Seq<char>,
        service: Seq<char>,
        action: Seq<char>,
        payload: Seq<char>,
        use_coordinator: bool,
    ) -> bool {
        &&& self.endpoint@ == endpoint
        &&& self.service@ == service
        &&& self.action@ == action
        &&& self.payload@ == payload
        &&& self.use_coordinator == use_coordinator
    }

    pub fn new(
        endpoint: &str,
        service: &str,
        action: &str,
        payload: &str,
        use_coordinator: bool,
    ) -> (r: SoapRequest)
        ensures
            r.carries(endpoint@, service@, action@, payload@, use_coordinator),
    {
        SoapRequest {
            endpoint: String::from_str(endpoint),
            service: String::from_str(service),
            action: String::from_str(action),
            payload: String::from_str(payload),
            use_coordinator,
        }
    }

    /// The body to send.
    pub fn envelope(&self) -> (r: String)
        ensures
            r@ == envelope_text(self.service@, self.action@, self.payload@),
    {
        soap_envelope(self.service.as_str(), self.action.as_str(), self.payload.as_str())
    }

    /// The value of the `SOAPAction` header: `"{service}#{action}"`, quotes included.
    pub fn soap_action_header(&self) -> (r: String)
        ensures
            r@ == "\""@ + self.service@ + "#"@ + self.action@ + "\""@,
    {
        let mut r = String::from_str("\"");
        r.append(self.service.as_str());
        r.append("#");
        r.append(self.action.as_str());
        r.append("\"");
        r
    }

    /// The URL to post the envelope to on the device at `address`.
    pub fn url(&self, address: &str) -> (r: String)
        ensures
            r@ == "http://"@ + address@ + ":1400/"@ + self.endpoint@,
    {
        let mut r = String::from_str("http://");
        r.append(address);
        r.append(":1400/");
        r.append(self.endpoint.as_str());
        r
    }

    /// Decodes the bytes that the device answered with.
    pub fn decode(&self, body: &[u8]) -> (r: Result<XmlElement, SonosError>)
        ensures
            reply_is(r, soap_reply_of_bytes(body@, self.action@)),
    {
        parse_soap_response(body, self.action.as_str())
    }
}

} // verus!
