use sonos::discovery::SsdpResponse;
use sonos::{accepted_addresses, coordinator_from_topology, parse_location, search_target, SonosError};

const TOPOLOGY: &str = "<?xml version=\"1.0\" ?><?xml-stylesheet type=\"text/xsl\" href=\"/xml/review.xsl\"?>\
<ZPSupportInfo><ZonePlayers>\
<ZonePlayer group=\"RINCON_1:12\" coordinator=\"false\" wirelessmode=\"0\" uuid=\"RINCON_2\" location=\"http://10.0.0.6:1400/xml/device_description.xml\">Kitchen</ZonePlayer>\
<ZonePlayer group=\"RINCON_9:3\" coordinator=\"true\" uuid=\"RINCON_9\" location=\"http://10.0.0.9:1400/xml/device_description.xml\">Office</ZonePlayer>\
<ZonePlayer group=\"RINCON_1:12\" coordinator=\"true\" uuid=\"RINCON_1\" location=\"http://10.0.0.5:1400/xml/device_description.xml\">Living Room</ZonePlayer>\
</ZonePlayers></ZPSupportInfo>";

#[test]
fn coordinator_of_group_member() {
    let doc = TOPOLOGY.replace("RINCON_1:12", "RINCON_1");
    let r = coordinator_from_topology(doc.as_bytes(), "10.0.0.6", "RINCON_2").unwrap();
    assert_eq!(r, "10.0.0.5");
    let c = coordinator_from_topology(TOPOLOGY.as_bytes(), "10.0.0.5", "RINCON_1").unwrap();
    assert_eq!(c, "10.0.0.5");
}

#[test]
fn empty_topology_means_own_address() {
    assert_eq!(coordinator_from_topology(b"", "10.0.0.6", "RINCON_2").unwrap(), "10.0.0.6");
    assert_eq!(coordinator_from_topology(b"  \n", "10.0.0.6", "RINCON_2").unwrap(), "10.0.0.6");
    assert_eq!(
        coordinator_from_topology(b"<ZPSupportInfo/>", "10.0.0.6", "RINCON_2").unwrap(),
        "10.0.0.6"
    );
}

#[test]
fn unknown_device_is_not_found() {
    match coordinator_from_topology(TOPOLOGY.as_bytes(), "10.0.0.7", "RINCON_7") {
        Err(SonosError::DeviceNotFound(id)) => assert_eq!(id, "RINCON_7"),
        other => panic!("unexpected {:?}", other),
    }
}

#[test]
fn group_without_coordinator_is_not_found() {
    let doc = TOPOLOGY.replace(
        "group=\"RINCON_1:12\" coordinator=\"true\"",
        "group=\"RINCON_1:12\" coordinator=\"false\"",
    );
    assert!(matches!(
        coordinator_from_topology(doc.as_bytes(), "10.0.0.6", "RINCON_2"),
        Err(SonosError::DeviceNotFound(_))
    ));
}

#[test]
fn unreadable_topology_is_parse_error() {
    let doc = TOPOLOGY.replace("http://10.0.0.5:1400", "ftp://10.0.0.5:1400");
    assert!(matches!(
        coordinator_from_topology(doc.as_bytes(), "10.0.0.6", "RINCON_2"),
        Err(SonosError::ParseError(_))
    ));
    assert!(matches!(
        coordinator_from_topology(b"<ZPSupportInfo><Other/></ZPSupportInfo>", "h", "RINCON_2"),
        Err(SonosError::ParseError(_))
    ));
    assert!(matches!(
        coordinator_from_topology(b"<ZPSupportInfo>", "h", "RINCON_2"),
        Err(SonosError::ParseError(_))
    ));
}

#[test]
fn location_urls() {
    assert_eq!(parse_location("http://10.0.0.5:1400/xml/device_description.xml").unwrap(), "10.0.0.5");
    assert_eq!(parse_location("https://host.local:1400/xml").unwrap(), "host.local");
    assert_eq!(parse_location("http://a:1400/xml:1400/xml").unwrap(), "a");
    assert!(parse_location("http://:1400/xml").is_none());
    assert!(parse_location("http://10.0.0.5:1401/xml").is_none());
    assert!(parse_location("ftp://10.0.0.5:1400/xml").is_none());
    assert!(parse_location("http://a\nb:1400/xml").is_none());
    assert!(parse_location("").is_none());
}

fn answer(st: &str, location: &str) -> SsdpResponse {
    SsdpResponse { search_target: st.to_string(), location: location.to_string() }
}

#[test]
fn discovery_drops_other_devices() {
    let urn = search_target();
    assert_eq!(urn, "urn:schemas-upnp-org:device:ZonePlayer:1");
    let answers = vec![
        answer(&urn, "http://10.0.0.5:1400/xml/device_description.xml"),
        answer("urn:schemas-upnp-org:device:MediaRenderer:1", "http://10.0.0.8:1400/xml/device_description.xml"),
        answer(&urn, "http://10.0.0.6:1400/xml/device_description.xml"),
        answer(&urn, "http://10.0.0.9/description.xml"),
    ];
    assert_eq!(accepted_addresses(&answers), vec!["10.0.0.5".to_string(), "10.0.0.6".to_string()]);
    assert_eq!(answers[1].address(), None);
}

#[test]
fn discovery_with_no_valid_answer_is_empty() {
    let none: Vec<SsdpResponse> = Vec::new();
    assert!(accepted_addresses(&none).is_empty());
    let others = vec![answer("upnp:rootdevice", "http://10.0.0.8:1400/xml")];
    assert!(accepted_addresses(&others).is_empty());
}

#[test]
fn two_entries_sharing_a_group() {
    let doc = "<ZPSupportInfo><ZonePlayers>\
        <ZonePlayer group=\"RINCON_1\" coordinator=\"true\" uuid=\"RINCON_A\" location=\"http://10.0.0.5:1400/xml\">A</ZonePlayer>\
        <ZonePlayer group=\"RINCON_1\" coordinator=\"false\" uuid=\"RINCON_B\" location=\"http://10.0.0.6:1400/xml\">B</ZonePlayer>\
        </ZonePlayers></ZPSupportInfo>";
    assert_eq!(coordinator_from_topology(doc.as_bytes(), "10.0.0.6", "RINCON_B").unwrap(), "10.0.0.5");
}
