//! A client library for the Sonos UPnP/SOAP control protocol: it builds SOAP envelopes,
//! decodes responses and faults, resolves group coordinators from topology documents, reads
//! device descriptions and filters discovery answers. Sending and receiving the bytes is left
//! to the caller.

pub mod actions;
pub mod device;
pub mod discovery;
pub mod error;
pub mod soap;
pub mod text;
pub mod topology;
pub mod xml;

pub use device::{QueueItem, Speaker, Track, TransportState};
pub use discovery::{accepted_addresses, search_target, SsdpResponse};
pub use error::{AVTransportError, SonosError};
pub use soap::{decode_soap_response, parse_soap_response, soap_envelope, SoapRequest};
pub use topology::{coordinator_from_topology, parse_location};
pub use xml::{XmlElement, XmlNode};
