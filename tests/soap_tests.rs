use sonos::actions;
use sonos::{
    parse_soap_response, soap_envelope, AVTransportError, SoapRequest, SonosError, XmlElement,
};

const AV_SERVICE: &str = "urn:schemas-upnp-org:service:AVTransport:1";

fn occurrences(hay: &str, needle: &str) -> usize {
    hay.match_indices(needle).count()
}

#[test]
fn envelope_is_pure_and_holds_action_tag_once() {
    let first = soap_envelope(AV_SERVICE, "Play", "<InstanceID>0</InstanceID><Speed>1</Speed>");
    let second = soap_envelope(AV_SERVICE, "Play", "<InstanceID>0</InstanceID><Speed>1</Speed>");
    assert_eq!(first.as_bytes(), second.as_bytes());
    let tag = format!("<u:Play xmlns:u=\"{}\">", AV_SERVICE);
    assert_eq!(occurrences(&first, &tag), 1);
    assert!(first.contains("<InstanceID>0</InstanceID><Speed>1</Speed></u:Play>"));
    assert!(first.starts_with(
        "<s:Envelope xmlns:s=\"http://schemas.xmlsoap.org/soap/envelope/\" s:encodingStyle=\"http://schemas.xmlsoap.org/soap/encoding/\"><s:Body>"
    ));
    assert!(first.ends_with("</s:Body></s:Envelope>"));
}

#[test]
fn envelope_exact_text() {
    let e = soap_envelope("urn:x", "A", "<p/>");
    assert_eq!(
        e,
        "<s:Envelope xmlns:s=\"http://schemas.xmlsoap.org/soap/envelope/\" s:encodingStyle=\"http://schemas.xmlsoap.org/soap/encoding/\"><s:Body><u:A xmlns:u=\"urn:x\"><p/></u:A></s:Body></s:Envelope>"
    );
}

#[test]
fn envelope_parses_back_as_xml() {
    let e = soap_envelope(AV_SERVICE, "Pause", "<InstanceID>0</InstanceID>");
    let root = XmlElement::parse(e.as_bytes()).unwrap();
    assert_eq!(root.name, "Envelope");
    let body = root.get_child("Body").unwrap();
    let action = body.get_child("Pause").unwrap();
    assert_eq!(action.get_child("InstanceID").unwrap().get_text().unwrap(), "0");
}

#[test]
fn request_header_and_url() {
    let req = actions::play();
    assert_eq!(req.soap_action_header(), format!("\"{}#Play\"", AV_SERVICE));
    assert_eq!(req.url("10.0.0.5"), "http://10.0.0.5:1400/MediaRenderer/AVTransport/Control");
    assert!(req.use_coordinator);
    let own = SoapRequest::new("a/b", "urn:s", "Act", "<x>1</x>", false);
    assert_eq!(own.url("h"), "http://h:1400/a/b");
    assert_eq!(own.soap_action_header(), "\"urn:s#Act\"");
    assert!(own.envelope().contains("<u:Act xmlns:u=\"urn:s\"><x>1</x></u:Act>"));
}

fn fault_body(code: &str) -> String {
    format!(
        "<s:Envelope xmlns:s=\"http://schemas.xmlsoap.org/soap/envelope/\"><s:Body><s:Fault>\
         <faultcode>s:Client</faultcode><faultstring>UPnPError</faultstring><detail>\
         <UPnPError xmlns=\"urn:schemas-upnp-org:control-1-0\"><errorCode>{}</errorCode>\
         </UPnPError></detail></s:Fault></s:Body></s:Envelope>",
        code
    )
}

#[test]
fn fault_711_decodes_to_illegal_seek_target() {
    let body = fault_body("711");
    match parse_soap_response(body.as_bytes(), "Seek") {
        Err(SonosError::AVTransportError(AVTransportError::IllegalSeekTarget)) => {}
        other => panic!("unexpected {:?}", other),
    }
}

#[test]
fn fault_with_unknown_code_is_unknown() {
    let body = fault_body("999");
    match parse_soap_response(body.as_bytes(), "Seek") {
        Err(SonosError::AVTransportError(AVTransportError::Unknown)) => {}
        other => panic!("unexpected {:?}", other),
    }
}

#[test]
fn fault_without_readable_code_is_parse_error() {
    let body = fault_body("seven");
    assert!(matches!(
        parse_soap_response(body.as_bytes(), "Seek"),
        Err(SonosError::ParseError(_))
    ));
    let bare = "<Envelope><Body><Fault><faultcode>x</faultcode></Fault></Body></Envelope>";
    assert!(matches!(
        parse_soap_response(bare.as_bytes(), "Seek"),
        Err(SonosError::ParseError(_))
    ));
}

#[test]
fn response_element_is_returned() {
    let body = "<s:Envelope xmlns:s=\"http://schemas.xmlsoap.org/soap/envelope/\"><s:Body>\
                <u:GetVolumeResponse xmlns:u=\"urn:schemas-upnp-org:service:RenderingControl:1\">\
                <CurrentVolume>42</CurrentVolume></u:GetVolumeResponse></s:Body></s:Envelope>";
    let res = actions::volume().decode(body.as_bytes()).unwrap();
    assert_eq!(res.name, "GetVolumeResponse");
    assert_eq!(sonos::device::volume_from_response(&res).unwrap(), 42);
}

#[test]
fn missing_body_or_response_is_parse_error() {
    let no_body = "<Envelope><Header/></Envelope>";
    assert!(matches!(
        parse_soap_response(no_body.as_bytes(), "Play"),
        Err(SonosError::ParseError(_))
    ));
    let wrong = "<Envelope><Body><PauseResponse/></Body></Envelope>";
    assert!(matches!(
        parse_soap_response(wrong.as_bytes(), "Play"),
        Err(SonosError::ParseError(_))
    ));
    let ok = "<Envelope><Body><PlayResponse/></Body></Envelope>";
    assert!(parse_soap_response(ok.as_bytes(), "Play").is_ok());
}

#[test]
fn malformed_xml_is_parse_error() {
    assert!(matches!(
        parse_soap_response(b"<Envelope><Body>", "Play"),
        Err(SonosError::ParseError(_))
    ));
    assert!(matches!(XmlElement::parse(b"not xml at all <"), Err(SonosError::ParseError(_))));
}

#[test]
fn error_codes_map_exactly() {
    let table: [(u64, AVTransportError); 24] = [
        (401, AVTransportError::InvalidAction),
        (402, AVTransportError::InvalidArgs),
        (404, AVTransportError::InvalidVar),
        (501, AVTransportError::ActionFailed),
        (701, AVTransportError::TransitionNotAvailable),
        (702, AVTransportError::NoContents),
        (703, AVTransportError::ReadError),
        (704, AVTransportError::FormatNotSupported),
        (705, AVTransportError::TransportLocked),
        (706, AVTransportError::WriteError),
        (707, AVTransportError::MediaNotWriteable),
        (708, AVTransportError::RecordingFormatNotSupported),
        (709, AVTransportError::MediaFull),
        (710, AVTransportError::SeekModeNotSupported),
        (711, AVTransportError::IllegalSeekTarget),
        (712, AVTransportError::PlayModeNotSupported),
        (713, AVTransportError::RecordQualityNotSupported),
        (714, AVTransportError::IllegalMimeType),
        (715, AVTransportError::ContentBusy),
        (717, AVTransportError::PlaySpeedNotSupported),
        (718, AVTransportError::InvalidInstanceId),
        (737, AVTransportError::NoDnsServer),
        (738, AVTransportError::BadDomainName),
        (739, AVTransportError::ServerError),
    ];
    for (code, expected) in table.iter() {
        assert_eq!(AVTransportError::from(*code), *expected);
    }
    assert_eq!(AVTransportError::from(716), AVTransportError::Unknown);
    assert_eq!(AVTransportError::from(0), AVTransportError::Unknown);
    match SonosError::from(AVTransportError::MediaFull) {
        SonosError::AVTransportError(AVTransportError::MediaFull) => {}
        other => panic!("unexpected {:?}", other),
    }
}
