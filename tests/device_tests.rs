use sonos::actions;
use sonos::device::{
    muted_from_response, parse_duration, queue_from_response, transport_state_from_response,
    uuid_from_udn, volume_from_response,
};
use sonos::text::{contains_str, decimal_string, parse_u64, two_digit_string};
use sonos::{SonosError, Speaker, Track, TransportState, XmlElement};

fn description(udn: &str) -> String {
    format!(
        "<?xml version=\"1.0\" encoding=\"utf-8\"?>\
         <root xmlns=\"urn:schemas-upnp-org:device-1-0\"><specVersion><major>1</major></specVersion>\
         <device><deviceType>urn:schemas-upnp-org:device:ZonePlayer:1</deviceType>\
         <friendlyName>10.0.0.7 - Sonos One</friendlyName><modelName>Sonos One</modelName>\
         <modelNumber>S13</modelNumber><softwareVersion>56.0-76060</softwareVersion>\
         <hardwareVersion>1.20.1.6-2</hardwareVersion><serialNum>B8-E9-37-00-00-01:A</serialNum>\
         <UDN>{}</UDN><roomName>Living Room</roomName><extra attr=\"x\">ignored</extra></device></root>",
        udn
    )
}

#[test]
fn udn_prefix_is_removed() {
    assert_eq!(uuid_from_udn("uuid:RINCON_ABC123").unwrap(), "RINCON_ABC123");
    assert_eq!(uuid_from_udn("uuid:").unwrap(), "");
}

#[test]
fn short_udn_is_parse_error() {
    assert!(matches!(uuid_from_udn("uuid"), Err(SonosError::ParseError(_))));
    assert!(matches!(uuid_from_udn(""), Err(SonosError::ParseError(_))));
}

#[test]
fn speaker_from_description() {
    let doc = description("uuid:RINCON_ABC123");
    let s = Speaker::from_description("10.0.0.7", doc.as_bytes()).unwrap();
    assert_eq!(s.ip, "10.0.0.7");
    assert_eq!(s.model, "Sonos One");
    assert_eq!(s.model_number, "S13");
    assert_eq!(s.software_version, "56.0-76060");
    assert_eq!(s.hardware_version, "1.20.1.6-2");
    assert_eq!(s.serial_number, "B8-E9-37-00-00-01:A");
    assert_eq!(s.name, "Living Room");
    assert_eq!(s.uuid, "RINCON_ABC123");
}

#[test]
fn speaker_description_with_short_udn_fails() {
    let doc = description("abc");
    assert!(matches!(
        Speaker::from_description("10.0.0.7", doc.as_bytes()),
        Err(SonosError::ParseError(_))
    ));
}

#[test]
fn speaker_description_missing_field_fails() {
    let doc = description("uuid:RINCON_1").replace("<roomName>Living Room</roomName>", "");
    assert!(matches!(
        Speaker::from_description("10.0.0.7", doc.as_bytes()),
        Err(SonosError::ParseError(_))
    ));
    assert!(matches!(
        Speaker::from_description("10.0.0.7", b"<root><nodevice/></root>"),
        Err(SonosError::ParseError(_))
    ));
}

#[test]
fn duration_parses_to_seconds() {
    assert_eq!(parse_duration("0:01:30").unwrap(), 90);
    assert_eq!(parse_duration("1:00:00").unwrap(), 3600);
    assert_eq!(parse_duration("120:00:05").unwrap(), 432005);
    assert_eq!(parse_duration("0:90:00").unwrap(), 5400);
}

#[test]
fn malformed_duration_is_parse_error() {
    for bad in ["abc", "", "1:2", "1:2:3:4", "a:01:30", "0:-1:30", "0:01:", "99999999999999999:00:00"]
    {
        assert!(
            matches!(parse_duration(bad), Err(SonosError::ParseError(_))),
            "{} should not parse",
            bad
        );
    }
}

#[test]
fn transport_states_map() {
    assert_eq!(TransportState::from_wire("PAUSED_PLAYBACK"), TransportState::PausedPlayback);
    assert_eq!(TransportState::from_wire("PLAYING"), TransportState::Playing);
    assert_eq!(TransportState::from_wire("PAUSED_RECORDING"), TransportState::PausedRecording);
    assert_eq!(TransportState::from_wire("RECORDING"), TransportState::Recording);
    assert_eq!(TransportState::from_wire("TRANSITIONING"), TransportState::Transitioning);
    assert_eq!(TransportState::from_wire("STOPPED"), TransportState::Stopped);
    assert_eq!(TransportState::from_wire("FOO"), TransportState::Stopped);
    assert_eq!(TransportState::from_wire(""), TransportState::Stopped);
}

#[test]
fn transport_state_from_response_element() {
    let res = XmlElement::parse(
        b"<GetTransportInfoResponse><CurrentTransportState>PAUSED_PLAYBACK</CurrentTransportState></GetTransportInfoResponse>",
    )
    .unwrap();
    assert_eq!(transport_state_from_response(&res).unwrap(), TransportState::PausedPlayback);
    let odd = XmlElement::parse(
        b"<GetTransportInfoResponse><CurrentTransportState>FOO</CurrentTransportState></GetTransportInfoResponse>",
    )
    .unwrap();
    assert_eq!(transport_state_from_response(&odd).unwrap(), TransportState::Stopped);
    let none = XmlElement::parse(b"<GetTransportInfoResponse/>").unwrap();
    assert!(matches!(transport_state_from_response(&none), Err(SonosError::ParseError(_))));
}

#[test]
fn volume_and_mute_decode() {
    let v = XmlElement::parse(b"<R><CurrentVolume>7</CurrentVolume></R>").unwrap();
    assert_eq!(volume_from_response(&v).unwrap(), 7);
    let big = XmlElement::parse(b"<R><CurrentVolume>300</CurrentVolume></R>").unwrap();
    assert!(matches!(volume_from_response(&big), Err(SonosError::ParseError(_))));
    let m = XmlElement::parse(b"<R><CurrentMute>1</CurrentMute></R>").unwrap();
    assert!(muted_from_response(&m).unwrap());
    let u = XmlElement::parse(b"<R><CurrentMute>0</CurrentMute></R>").unwrap();
    assert!(!muted_from_response(&u).unwrap());
}

fn position_info(metadata: &str, album: bool) -> String {
    let album = if album { "&lt;upnp:album&gt;Kind of Blue&lt;/upnp:album&gt;" } else { "" };
    let meta = metadata.replace("ALBUM", album);
    format!(
        "<u:GetPositionInfoResponse xmlns:u=\"urn:schemas-upnp-org:service:AVTransport:1\">\
         <Track>3</Track><TrackDuration>0:09:22</TrackDuration><TrackMetaData>{}</TrackMetaData>\
         <TrackURI>x-file-cifs://nas/so_what.flac</TrackURI><RelTime>0:01:30</RelTime>\
         </u:GetPositionInfoResponse>",
        meta
    )
}

const DIDL: &str = "&lt;DIDL-Lite xmlns:dc=&quot;http://purl.org/dc/elements/1.1/&quot; \
     xmlns:upnp=&quot;urn:schemas-upnp-org:metadata-1-0/upnp/&quot; \
     xmlns=&quot;urn:schemas-upnp-org:metadata-1-0/DIDL-Lite/&quot;&gt;\
     &lt;item id=&quot;-1&quot; parentID=&quot;-1&quot;&gt;&lt;dc:title&gt;So What&lt;/dc:title&gt;\
     &lt;dc:creator&gt;Miles Davis&lt;/dc:creator&gt;ALBUM&lt;/item&gt;&lt;/DIDL-Lite&gt;";

#[test]
fn track_from_position_info() {
    let doc = position_info(DIDL, true);
    let res = XmlElement::parse(doc.as_bytes()).unwrap();
    let t: Track = Track::from_position_info(&res).unwrap();
    assert_eq!(t.title, "So What");
    assert_eq!(t.artist, "Miles Davis");
    assert_eq!(t.album.as_deref(), Some("Kind of Blue"));
    assert_eq!(t.queue_position, 3);
    assert_eq!(t.uri, "x-file-cifs://nas/so_what.flac");
    assert_eq!(t.duration, 562);
    assert_eq!(t.running_time, 90);
}

#[test]
fn track_without_album() {
    let doc = position_info(DIDL, false);
    let res = XmlElement::parse(doc.as_bytes()).unwrap();
    let t = Track::from_position_info(&res).unwrap();
    assert!(t.album.is_none());
}

#[test]
fn track_not_implemented_is_parse_error() {
    let doc = position_info("NOT_IMPLEMENTED", false);
    let res = XmlElement::parse(doc.as_bytes()).unwrap();
    assert!(matches!(Track::from_position_info(&res), Err(SonosError::ParseError(_))));
    let bad = position_info(DIDL, true).replace("0:09:22", "abc");
    let res = XmlElement::parse(bad.as_bytes()).unwrap();
    assert!(matches!(Track::from_position_info(&res), Err(SonosError::ParseError(_))));
}

#[test]
fn queue_listing_decodes() {
    let didl = "&lt;DIDL-Lite xmlns:dc=&quot;http://purl.org/dc/elements/1.1/&quot; \
        xmlns:upnp=&quot;urn:schemas-upnp-org:metadata-1-0/upnp/&quot; \
        xmlns=&quot;urn:schemas-upnp-org:metadata-1-0/DIDL-Lite/&quot;&gt;\
        &lt;item id=&quot;Q:0/1&quot; parentID=&quot;Q:0&quot;&gt;\
        &lt;res duration=&quot;0:03:05&quot;&gt;x-file-cifs://a.flac&lt;/res&gt;\
        &lt;upnp:albumArtURI&gt;/art?a&lt;/upnp:albumArtURI&gt;&lt;dc:title&gt;A&lt;/dc:title&gt;\
        &lt;dc:creator&gt;Artist&lt;/dc:creator&gt;&lt;upnp:album&gt;Album&lt;/upnp:album&gt;&lt;/item&gt;\
        &lt;item id=&quot;Q:0/2&quot; parentID=&quot;Q:0&quot;&gt;\
        &lt;res duration=&quot;1:00:00&quot;&gt;x-file-cifs://b.flac&lt;/res&gt;&lt;/item&gt;\
        &lt;/DIDL-Lite&gt;";
    let doc = format!(
        "<BrowseResponse><Result>{}</Result><NumberReturned>2</NumberReturned></BrowseResponse>",
        didl
    );
    let res = XmlElement::parse(doc.as_bytes()).unwrap();
    let items = queue_from_response(&res).unwrap();
    assert_eq!(items.len(), 2);
    assert_eq!(items[0].position, 1);
    assert_eq!(items[0].uri, "x-file-cifs://a.flac");
    assert_eq!(items[0].title, "A");
    assert_eq!(items[0].artist, "Artist");
    assert_eq!(items[0].album, "Album");
    assert_eq!(items[0].album_art, "/art?a");
    assert_eq!(items[0].duration, 185);
    assert_eq!(items[1].position, 2);
    assert_eq!(items[1].title, "");
    assert_eq!(items[1].duration, 3600);
}

#[test]
fn queue_entry_without_position_is_parse_error() {
    let didl = "&lt;DIDL-Lite&gt;&lt;item id=&quot;Q:0/x&quot;&gt;\
        &lt;res duration=&quot;0:03:05&quot;&gt;u&lt;/res&gt;&lt;/item&gt;&lt;/DIDL-Lite&gt;";
    let doc = format!("<BrowseResponse><Result>{}</Result></BrowseResponse>", didl);
    let res = XmlElement::parse(doc.as_bytes()).unwrap();
    assert!(matches!(queue_from_response(&res), Err(SonosError::ParseError(_))));
    let empty = XmlElement::parse(b"<BrowseResponse><Result>&lt;DIDL-Lite/&gt;</Result></BrowseResponse>")
        .unwrap();
    assert_eq!(queue_from_response(&empty).unwrap().len(), 0);
}

#[test]
fn seek_target_is_zero_padded() {
    let req = actions::seek(3725);
    assert_eq!(
        req.payload,
        "<InstanceID>0</InstanceID><Unit>REL_TIME</Unit><Target>01:02:05</Target>"
    );
    assert_eq!(req.action, "Seek");
    let long = actions::seek(360000 + 59);
    assert!(long.payload.contains("<Target>100:00:59</Target>"));
    let zero = actions::seek(0);
    assert!(zero.payload.contains("<Target>00:00:00</Target>"));
}

#[test]
fn volume_above_hundred_is_refused() {
    assert!(matches!(actions::set_volume(101), Err(SonosError::InvalidVolume(101))));
    let ok = actions::set_volume(30).unwrap();
    assert!(ok.payload.ends_with("<DesiredVolume>30</DesiredVolume>"));
    assert!(!ok.use_coordinator);
    assert!(actions::set_volume(100).is_ok());
}

#[test]
fn queue_actions_carry_numbers_and_uris() {
    assert!(actions::seek_track(12).payload.contains("<Unit>TRACK_NR</Unit><Target>12</Target>"));
    assert!(actions::remove_track(4).payload.contains("<ObjectID>Q:0/4</ObjectID>"));
    assert!(actions::enqueue("x://a", true).payload.contains("<EnqueueAsNext>1</EnqueueAsNext>"));
    assert!(actions::enqueue("x://a", false).payload.contains("<EnqueuedURI>x://a</EnqueuedURI>"));
    assert_eq!(actions::queue_uri("RINCON_1"), "x-rincon-queue:RINCON_1#0");
    assert_eq!(actions::line_in_uri("RINCON_1"), "x-rincon-stream:RINCON_1");
    assert_eq!(actions::tv_uri("RINCON_1"), "x-sonos-htastream:RINCON_1:spdif");
    assert!(actions::play_track("x://b").payload.contains("<CurrentURI>x://b</CurrentURI>"));
    assert_eq!(actions::mute().payload, "<InstanceID>0</InstanceID><Channel>Master</Channel><DesiredMute>1</DesiredMute>");
}

#[test]
fn numbers_read_and_write() {
    assert_eq!(parse_u64("711"), Some(711));
    assert_eq!(parse_u64("+5"), Some(5));
    assert_eq!(parse_u64("18446744073709551615"), Some(u64::MAX));
    assert_eq!(parse_u64("18446744073709551616"), None);
    assert_eq!(parse_u64(""), None);
    assert_eq!(parse_u64("+"), None);
    assert_eq!(parse_u64(" 1"), None);
    assert_eq!(decimal_string(0), "0");
    assert_eq!(decimal_string(1234567890), "1234567890");
    assert_eq!(two_digit_string(7), "07");
    assert_eq!(two_digit_string(42), "42");
    assert!(contains_str("urn:schemas-upnp-org:device:ZonePlayer:1", "ZonePlayer"));
    assert!(!contains_str("abc", "abcd"));
}
