use vstd::prelude::*;
use vstd::utf8::encode_utf8;

use crate::error::SonosError;
use crate::text::{parse_u64, u64_of};
use crate::xml::{
    attribute_of, child_named, child_text, get_child_element, get_child_element_text, parsed_xml,
    XmlElement, XmlItem, XmlNode, XmlTree,
};

verus! {

/// The identity of one speaker, as its device description gives it.
#[derive(Debug)]
pub struct Speaker {
    /// The network address the description was fetched from.
    pub ip: String,
    pub model: String,
    pub model_number: String,
    pub software_version: String,
    pub hardware_version: String,
    pub serial_number: String,
    /// The room name.
    pub name: String,
    /// The UDN without its `uuid:` prefix.
    pub uuid: String,
}

/// The identity fields of a device description, in the model.
pub struct Description {
    pub model: Seq<char>,
    pub model_number: Seq<char>,
    pub software_version: Seq<char>,
    pub hardware_version: Seq<char>,
    pub serial_number: Seq<char>,
    pub name: Seq<char>,
    pub uuid: Seq<char>,
}

/// The uuid of a UDN: the text after its five-character `uuid:` prefix. A shorter UDN has none.
pub open spec fn uuid_of_udn(udn: Seq<char>) -> Option<Seq<char>> {
    if udn.len() < 5 {
        None
    } else {
        Some(udn.subrange(5, udn.len() as int))
    }
}

/// Derives a device's uuid from its UDN by removing the `uuid:` prefix; a UDN shorter than the
/// prefix is a `ParseError`.
pub fn uuid_from_udn(udn: &str) -> (r: Result<String, SonosError>)
    ensures
        match uuid_of_udn(udn@) {
            Some(u) => r matches Ok(s) && s@ == u,
            None => r matches Err(SonosError::ParseError(_)),
        },
{
    let n = udn.unicode_len();
    if n < 5 {
        return Err(SonosError::ParseError("UDN is too short".to_owned()));
    }
    Ok(String::from_str(udn.substring_char(5, n)))
}

/// What the root element of a device description gives: the required fields under `device`.
pub open spec fn description_in(root: XmlTree) -> Option<Description> {
    match child_named(root, "device"@) {
        None => None,
        Some(d) => {
            let udn = child_text(d, "UDN"@);
            if child_text(d, "modelName"@) is Some && child_text(d, "modelNumber"@) is Some
                && child_text(d, "softwareVersion"@) is Some && child_text(
                d,
                "hardwareVersion"@,
            ) is Some && child_text(d, "serialNum"@) is Some && child_text(d, "roomName"@) is Some
                && udn is Some && uuid_of_udn(udn->Some_0) is Some {
                Some(
                    Description {
                        model: child_text(d, "modelName"@)->Some_0,
                        model_number: child_text(d, "modelNumber"@)->Some_0,
                        software_version: child_text(d, "softwareVersion"@)->Some_0,
                        hardware_version: child_text(d, "hardwareVersion"@)->Some_0,
                        serial_number: child_text(d, "serialNum"@)->Some_0,
                        name: child_text(d, "roomName"@)->Some_0,
                        uuid: uuid_of_udn(udn->Some_0)->Some_0,
                    },
                )
            } else {
                None
            }
        },
    }
}

impl Speaker {
    /// Whether this speaker is the device at `ip` with the description `d`.
    pub open spec fn describes(&self, ip: Seq<char>, d: Description) -> bool {
        &&& self.ip@ == ip
        &&& self.model@ == d.model
        &&& self.model_number@ == d.model_number
        &&& self.software_version@ == d.software_version
        &&& self.hardware_version@ == d.hardware_version
        &&& self.serial_number@ == d.serial_number
        &&& self.name@ == d.name
        &&& self.uuid@ == d.uuid
    }

    /// Builds the identity of the speaker at `ip` from the root element of its device
    /// description; a missing field, or a UDN too short to hold the prefix, is a `ParseError`.
    pub fn from_description_root(ip: &str, root: &XmlElement) -> (r: Result<Speaker, SonosError>)
        ensures
            match description_in(root.tree()) {
                Some(d) => r matches Ok(s) && s.describes(ip@, d),
                None => r matches Err(SonosError::ParseError(_)),
            },
    {
        let device = get_child_element(root, "device")?;
        let model = get_child_element_text(device, "modelName")?;
        let model_number = get_child_element_text(device, "modelNumber")?;
        let software_version = get_child_element_text(device, "softwareVersion")?;
        let hardware_version = get_child_element_text(device, "hardwareVersion")?;
        let serial_number = get_child_element_text(device, "serialNum")?;
        let name = get_child_element_text(device, "roomName")?;
        let udn = get_child_element_text(device, "UDN")?;
        let uuid = uuid_from_udn(udn.as_str())?;
        Ok(
            Speaker {
                ip: String::from_str(ip),
                model,
                model_number,
                software_version,
                hardware_version,
                serial_number,
                name,
                uuid,
            },
        )
    }

    /// Builds the identity of the speaker at `ip` from the bytes of its device description.
    pub fn from_description(ip: &str, doc: &[u8]) -> (r: Result<Speaker, SonosError>)
        ensures
            match parsed_xml(doc@) {
                Some(root) => match description_in(root) {
                    Some(d) => r matches Ok(s) && s.describes(ip@, d),
                    None => r matches Err(SonosError::ParseError(_)),
                },
                None => r matches Err(SonosError::ParseError(_)),
            },
    {
        let root = XmlElement::parse(doc)?;
        Speaker::from_description_root(ip, &root)
    }
}

/// The position of the first `c` in `s`.
pub open spec fn find_char(s: Seq<char>, c: char) -> Option<int>
    decreases s.len(),
{
    if s.len() == 0 {
        None
    } else if s[0] == c {
        Some(0)
    } else {
        match find_char(s.drop_first(), c) {
            Some(i) => Some(i + 1),
            None => None,
        }
    }
}

proof fn lemma_find_char(s: Seq<char>, c: char, i: int)
    requires
        0 <= i <= s.len(),
        forall|j: int| 0 <= j < i ==> s[j] != c,
    ensures
        i < s.len() && s[i] == c ==> find_char(s, c) == Some(i),
        i == s.len() ==> find_char(s, c) is None,
    decreases i,
{
    if i > 0 {
        let t = s.drop_first();
        assert forall|j: int| 0 <= j < i - 1 implies t[j] != c by {
            assert(t[j] == s[j + 1]);
        }
        lemma_find_char(t, c, i - 1);
        if i < s.len() {
            assert(t[i - 1] == s[i]);
        }
    }
}

/// Finds the first `c` in `s`.
fn position_of(s: &str, c: char) -> (r: Option<usize>)
    ensures
        match r {
            Some(i) => find_char(s@, c) == Some(i as int),
            None => find_char(s@, c) is None,
        },
        r matches Some(i) ==> i < s@.len() && s@[i as int] == c,
{
    let n = s.unicode_len();
    let mut i: usize = 0;
    while i < n
        invariant
            n == s@.len(),
            i <= n,
            forall|j: int| 0 <= j < i ==> s@[j] != c,
        decreases n - i,
    {
        if s.get_char(i) == c {
            proof {
                lemma_find_char(s@, c, i as int);
            }
            return Some(i);
        }
        i = i + 1;
    }
    proof {
        lemma_find_char(s@, c, i as int);
    }
    None
}

/// The three fields of an `h:m:s` text: up to the first colon, up to the next, and the rest.
pub open spec fn hms_fields(s: Seq<char>) -> Option<(Seq<char>, Seq<char>, Seq<char>)> {
    match find_char(s, ':') {
        None => None,
        Some(i) => {
            let rest = s.subrange(i + 1, s.len() as int);
            match find_char(rest, ':') {
                None => None,
                Some(j) => Some(
                    (s.subrange(0, i), rest.subrange(0, j), rest.subrange(j + 1, rest.len() as int)),
                ),
            }
        },
    }
}

/// The number of seconds that an `h:m:s` text gives, where each field is an unsigned decimal
/// and the total fits in 64 bits. Hours are not bounded, nor are minutes and seconds.
pub open spec fn hms_seconds(s: Seq<char>) -> Option<u64> {
    match hms_fields(s) {
        None => None,
        Some(f) => match (u64_of(f.0), u64_of(f.1), u64_of(f.2)) {
            (Some(h), Some(m), Some(x)) => if h * 3600 + m * 60 + x <= u64::MAX {
                Some((h * 3600 + m * 60 + x) as u64)
            } else {
                None
            },
            _ => None,
        },
    }
}

/// Parses an `h:m:s` duration into seconds; malformed text is a `ParseError`.
pub fn parse_duration(s: &str) -> (r: Result<u64, SonosError>)
    ensures
        match hms_seconds(s@) {
            Some(v) => r matches Ok(x) && x == v,
            None => r matches Err(SonosError::ParseError(_)),
        },
{
    let bad = "invalid duration";
    let n = s.unicode_len();
    let i = match position_of(s, ':') {
        Some(i) => i,
        None => return Err(SonosError::ParseError(bad.to_owned())),
    };
    let rest = s.substring_char(i + 1, n);
    let m = rest.unicode_len();
    let j = match position_of(rest, ':') {
        Some(j) => j,
        None => return Err(SonosError::ParseError(bad.to_owned())),
    };
    let h = parse_u64(s.substring_char(0, i));
    let mins = parse_u64(rest.substring_char(0, j));
    let secs = parse_u64(rest.substring_char(j + 1, m));
    match (h, mins, secs) {
        (Some(h), Some(mins), Some(secs)) => {
            if h > u64::MAX / 3600 {
                return Err(SonosError::ParseError(bad.to_owned()));
            }
            let hs = h * 3600;
            if mins > (u64::MAX - hs) / 60 {
                return Err(SonosError::ParseError(bad.to_owned()));
            }
            let ms = hs + mins * 60;
            if secs > u64::MAX - ms {
                return Err(SonosError::ParseError(bad.to_owned()));
            }
            Ok(ms + secs)
        },
        _ => Err(SonosError::ParseError(bad.to_owned())),
    }
}

/// The wire values of a transport state.
#[derive(Debug, Clone, Copy, PartialEq, Eq, Structural)]
pub enum TransportState {
    Stopped,
    Playing,
    PausedPlayback,
    PausedRecording,
    Recording,
    Transitioning,
}

/// The transport state that a wire value names; a value outside the known set reads as
/// `Stopped`.
pub open spec fn transport_state_of(s: Seq<char>) -> TransportState {
    if s == "PLAYING"@ {
        TransportState::Playing
    } else if s == "PAUSED_PLAYBACK"@ {
        TransportState::PausedPlayback
    } else if s == "PAUSED_RECORDING"@ {
        TransportState::PausedRecording
    } else if s == "RECORDING"@ {
        TransportState::Recording
    } else if s == "TRANSITIONING"@ {
        TransportState::Transitioning
    } else {
        TransportState::Stopped
    }
}

impl TransportState {
    /// Maps a wire value to a transport state; an unknown value is `Stopped`, never an error.
    pub fn from_wire(s: &str) -> (r: TransportState)
        ensures
            r == transport_state_of(s@),
    {
        let w = String::from_str(s);
        if w == String::from_str("PLAYING") {
            TransportState::Playing
        } else if w == String::from_str("PAUSED_PLAYBACK") {
            TransportState::PausedPlayback
        } else if w == String::from_str("PAUSED_RECORDING") {
            TransportState::PausedRecording
        } else if w == String::from_str("RECORDING") {
            TransportState::Recording
        } else if w == String::from_str("TRANSITIONING") {
            TransportState::Transitioning
        } else {
            TransportState::Stopped
        }
    }
}

/// Reads the transport state out of a `GetTransportInfoResponse` element.
pub fn transport_state_from_response(res: &XmlElement) -> (r: Result<TransportState, SonosError>)
    ensures
        match child_text(res.tree(), "CurrentTransportState"@) {
            Some(t) => r == Ok::<TransportState, SonosError>(transport_state_of(t)),
            None => r matches Err(SonosError::ParseError(_)),
        },
{
    let text = get_child_element_text(res, "CurrentTransportState")?;
    Ok(TransportState::from_wire(text.as_str()))
}

/// What reading `s` as an unsigned 8-bit decimal gives.
pub open spec fn u8_of(s: Seq<char>) -> Option<u8> {
    match u64_of(s) {
        Some(v) => if v <= 255 {
            Some(v as u8)
        } else {
            None
        },
        None => None,
    }
}

/// Reads the volume out of a `GetVolumeResponse` element.
pub fn volume_from_response(res: &XmlElement) -> (r: Result<u8, SonosError>)
    ensures
        match child_text(res.tree(), "CurrentVolume"@) {
            Some(t) => match u8_of(t) {
                Some(v) => r matches Ok(x) && x == v,
                None => r matches Err(SonosError::ParseError(_)),
            },
            None => r matches Err(SonosError::ParseError(_)),
        },
{
    let text = get_child_element_text(res, "CurrentVolume")?;
    match parse_u64(text.as_str()) {
        Some(v) => if v <= 255 {
            Ok(v as u8)
        } else {
            Err(SonosError::ParseError("volume out of range".to_owned()))
        },
        None => Err(SonosError::ParseError("invalid volume".to_owned())),
    }
}

/// Reads the mute flag out of a `GetMuteResponse` element: `1` is muted, anything else not.
pub fn muted_from_response(res: &XmlElement) -> (r: Result<bool, SonosError>)
    ensures
        match child_text(res.tree(), "CurrentMute"@) {
            Some(t) => r matches Ok(x) && x == (t == "1"@),
            None => r matches Err(SonosError::ParseError(_)),
        },
{
    let text = get_child_element_text(res, "CurrentMute")?;
    Ok(text == String::from_str("1"))
}

/// Information about the current track.
#[derive(Debug)]
pub struct Track {
    pub title: String,
    pub artist: String,
    pub album: Option<String>,
    /// The 1-based position in the queue.
    pub queue_position: u64,
    pub uri: String,
    /// The length of the track, in seconds.
    pub duration: u64,
    /// How far into the track playback is, in seconds.
    pub running_time: u64,
}

/// The fields of a `Track`, in the model.
pub struct TrackInfo {
    pub title: Seq<char>,
    pub artist: Seq<char>,
    pub album: Option<Seq<char>>,
    pub queue_position: u64,
    pub uri: Seq<char>,
    pub duration: u64,
    pub running_time: u64,
}

/// The seconds of an optional `h:m:s` text.
pub open spec fn seconds_of(t: Option<Seq<char>>) -> Option<u64> {
    match t {
        Some(s) => hms_seconds(s),
        None => None,
    }
}

/// The `item` element of the DIDL metadata that a `TrackMetaData` text holds.
pub open spec fn metadata_item(resp: XmlTree) -> Option<XmlTree> {
    match child_text(resp, "TrackMetaData"@) {
        Some(m) => if m == "NOT_IMPLEMENTED"@ {
            None
        } else {
            match parsed_xml(encode_utf8(m)) {
                Some(root) => child_named(root, "item"@),
                None => None,
            }
        },
        None => None,
    }
}

/// What a `GetPositionInfoResponse` element gives: each required field present and readable;
/// only the album may be missing.
pub open spec fn track_in(resp: XmlTree) -> Option<TrackInfo> {
    match metadata_item(resp) {
        None => None,
        Some(item) => {
            let duration = seconds_of(child_text(resp, "TrackDuration"@));
            let running = seconds_of(child_text(resp, "RelTime"@));
            let title = child_text(item, "title"@);
            let artist = child_text(item, "creator"@);
            let position = child_text(resp, "Track"@);
            let uri = child_text(resp, "TrackURI"@);
            if duration is Some && running is Some && title is Some && artist is Some
                && position is Some && u64_of(position->Some_0) is Some && uri is Some {
                Some(
                    TrackInfo {
                        title: title->Some_0,
                        artist: artist->Some_0,
                        album: child_text(item, "album"@),
                        queue_position: u64_of(position->Some_0)->Some_0,
                        uri: uri->Some_0,
                        duration: duration->Some_0,
                        running_time: running->Some_0,
                    },
                )
            } else {
                None
            }
        },
    }
}

impl Track {
    /// Whether this track has the fields `t`.
    pub open spec fn holds(&self, t: TrackInfo) -> bool {
        &&& self.title@ == t.title
        &&& self.artist@ == t.artist
        &&& crate::xml::option_view(self.album) == t.album
        &&& self.queue_position == t.queue_position
        &&& self.uri@ == t.uri
        &&& self.duration == t.duration
        &&& self.running_time == t.running_time
    }

    /// Reads the current track out of a `GetPositionInfoResponse` element. A missing or
    /// unreadable required field, and metadata that the source does not provide, are a
    /// `ParseError`.
    pub fn from_position_info(resp: &XmlElement) -> (r: Result<Track, SonosError>)
        ensures
            match track_in(resp.tree()) {
                Some(t) => r matches Ok(x) && x.holds(t),
                None => r matches Err(SonosError::ParseError(_)),
            },
    {
        let metadata = get_child_element_text(resp, "TrackMetaData")?;
        if metadata == String::from_str("NOT_IMPLEMENTED") {
            return Err(
                SonosError::ParseError(
                    "track information is not supported from the current source".to_owned(),
                ),
            );
        }
        let root = XmlElement::parse(metadata.as_str().as_bytes())?;
        let item = get_child_element(&root, "item")?;
        let duration = parse_duration(get_child_element_text(resp, "TrackDuration")?.as_str())?;
        let running_time = parse_duration(get_child_element_text(resp, "RelTime")?.as_str())?;
        let title = get_child_element_text(item, "title")?;
        let artist = get_child_element_text(item, "creator")?;
        let album = match get_child_element_text(item, "album") {
            Ok(a) => Some(a),
            Err(_) => None,
        };
        let position = get_child_element_text(resp, "Track")?;
        let queue_position = match parse_u64(position.as_str()) {
            Some(p) => p,
            None => return Err(SonosError::ParseError("invalid Track".to_owned())),
        };
        let uri = get_child_element_text(resp, "TrackURI")?;
        Ok(Track { title, artist, album, queue_position, uri, duration, running_time })
    }
}

/// One slot of the play queue.
#[derive(Debug)]
pub struct QueueItem {
    /// The 1-based position, from the last `/`-separated part of the object id.
    pub position: u64,
    pub uri: String,
    pub title: String,
    pub artist: String,
    pub album: String,
    pub album_art: String,
    /// The length of the track, in seconds.
    pub duration: u64,
}

/// The fields of a `QueueItem`, in the model.
pub struct QueueEntry {
    pub position: u64,
    pub uri: Seq<char>,
    pub title: Seq<char>,
    pub artist: Seq<char>,
    pub album: Seq<char>,
    pub album_art: Seq<char>,
    pub duration: u64,
}

/// Where the last `/`-separated part of `s` starts.
pub open spec fn last_part_start(s: Seq<char>) -> int
    decreases s.len(),
{
    if s.len() == 0 {
        0
    } else if s.last() == '/' {
        s.len() as int
    } else {
        last_part_start(s.drop_last())
    }
}

/// The text after the last `/` of `s`, or all of `s` where it holds none.
pub open spec fn last_part(s: Seq<char>) -> Seq<char> {
    s.subrange(last_part_start(s), s.len() as int)
}

proof fn lemma_last_part_start_bounds(s: Seq<char>)
    ensures
        0 <= last_part_start(s) <= s.len(),
    decreases s.len(),
{
    if s.len() > 0 {
        lemma_last_part_start_bounds(s.drop_last());
    }
}

/// The text after the last `/` of `s`.
fn last_part_of(s: &str) -> (r: &str)
    ensures
        r@ == last_part(s@),
{
    let n = s.unicode_len();
    let mut cut: usize = 0;
    let mut i: usize = 0;
    while i < n
        invariant
            n == s@.len(),
            i <= n,
            cut <= i,
            cut == last_part_start(s@.subrange(0, i as int)),
        decreases n - i,
    {
        let ghost p = s@.subrange(0, i + 1);
        assert(p.drop_last() =~= s@.subrange(0, i as int));
        if s.get_char(i) == '/' {
            cut = i + 1;
        }
        i = i + 1;
    }
    assert(s@.subrange(0, n as int) =~= s@);
    s.substring_char(cut, n)
}

/// The text of the child named `name`, empty where there is none.
pub open spec fn text_or_empty(t: XmlTree, name: Seq<char>) -> Seq<char> {
    child_text(t, name).unwrap_or(Seq::empty())
}

/// What one entry of a queue listing gives: its position and the length of its `res` are
/// required, the other fields read as empty where missing.
pub open spec fn queue_entry(e: XmlTree) -> Option<QueueEntry> {
    let id = attribute_of(e, "id"@).unwrap_or(Seq::empty());
    match (u64_of(last_part(id)), child_named(e, "res"@)) {
        (Some(position), Some(res)) => match hms_seconds(
            attribute_of(res, "duration"@).unwrap_or(Seq::empty()),
        ) {
            Some(duration) => Some(
                QueueEntry {
                    position,
                    uri: text_or_empty(e, "res"@),
                    title: text_or_empty(e, "title"@),
                    artist: text_or_empty(e, "creator"@),
                    album: text_or_empty(e, "album"@),
                    album_art: text_or_empty(e, "albumArtURI"@),
                    duration,
                },
            ),
            None => None,
        },
        _ => None,
    }
}

/// The entries of the element children of a listing, in order; `None` where one is malformed.
pub open spec fn queue_entries(items: Seq<XmlItem>) -> Option<Seq<QueueEntry>>
    decreases items.len(),
{
    if items.len() == 0 {
        Some(Seq::empty())
    } else {
        match queue_entries(items.drop_last()) {
            None => None,
            Some(prev) => match items.last() {
                XmlItem::Element(e) => match queue_entry(e) {
                    Some(q) => Some(prev.push(q)),
                    None => None,
                },
                _ => Some(prev),
            },
        }
    }
}

/// The queue that a `BrowseResponse` element lists: its `Result` text is a DIDL document whose
/// element children are the slots.
pub open spec fn queue_in(res: XmlTree) -> Option<Seq<QueueEntry>> {
    match child_text(res, "Result"@) {
        Some(t) => match parsed_xml(encode_utf8(t)) {
            Some(root) => queue_entries(root.children),
            None => None,
        },
        None => None,
    }
}

proof fn lemma_queue_entries_prefix_fails(items: Seq<XmlItem>, k: int)
    requires
        0 <= k <= items.len(),
        queue_entries(items.subrange(0, k)) is None,
    ensures
        queue_entries(items) is None,
    decreases items.len() - k,
{
    if k < items.len() {
        assert(items.subrange(0, k + 1).drop_last() =~= items.subrange(0, k));
        lemma_queue_entries_prefix_fails(items, k + 1);
    } else {
        assert(items.subrange(0, k) =~= items);
    }
}

impl QueueItem {
    /// Whether this item has the fields `q`.
    pub open spec fn holds(&self, q: QueueEntry) -> bool {
        &&& self.position == q.position
        &&& self.uri@ == q.uri
        &&& self.title@ == q.title
        &&& self.artist@ == q.artist
        &&& self.album@ == q.album
        &&& self.album_art@ == q.album_art
        &&& self.duration == q.duration
    }

    /// Reads one entry of a queue listing.
    pub fn from_entry(e: &XmlElement) -> (r: Option<QueueItem>)
        ensures
            match queue_entry(e.tree()) {
                Some(q) => r matches Some(x) && x.holds(q),
                None => r is None,
            },
    {
        let id = match e.attribute("id") {
            Some(v) => v.as_str(),
            None => "",
        };
        proof {
            reveal_strlit("");
        }
        let position = match parse_u64(last_part_of(id)) {
            Some(p) => p,
            None => return None,
        };
        let res = match e.get_child("res") {
            Some(r) => r,
            None => return None,
        };
        let length = match res.attribute("duration") {
            Some(v) => v.as_str(),
            None => "",
        };
        let duration = match parse_duration(length) {
            Ok(d) => d,
            Err(_) => return None,
        };
        Some(
            QueueItem {
                position,
                uri: text_or_empty_of(e, "res"),
                title: text_or_empty_of(e, "title"),
                artist: text_or_empty_of(e, "creator"),
                album: text_or_empty_of(e, "album"),
                album_art: text_or_empty_of(e, "albumArtURI"),
                duration,
            },
        )
    }
}

/// The text of the child named `name`, empty where there is none.
fn text_or_empty_of(e: &XmlElement, name: &str) -> (r: String)
    ensures
        r@ == text_or_empty(e.tree(), name@),
{
    match get_child_element_text(e, name) {
        Ok(t) => t,
        Err(_) => String::new(),
    }
}

/// Reads the element children of a listing into queue items; a malformed one is a
/// `ParseError`.
pub fn queue_from_listing(root: &XmlElement) -> (r: Result<Vec<QueueItem>, SonosError>)
    ensures
        match queue_entries(root.tree().children) {
            Some(qs) => r matches Ok(v) && v@.len() == qs.len() && forall|j: int|
                0 <= j < qs.len() ==> #[trigger] v@[j].holds(qs[j]),
            None => r matches Err(SonosError::ParseError(_)),
        },
{
    let ghost t = root.tree();
    let n = root.children.len();
    let mut items: Vec<QueueItem> = Vec::new();
    let mut i: usize = 0;
    assert(t.children.subrange(0, 0) =~= Seq::<XmlItem>::empty());
    while i < n
        invariant
            n == root.children@.len(),
            i <= n,
            t == root.tree(),
            queue_entries(t.children.subrange(0, i as int)) is Some,
            ({
                let qs = queue_entries(t.children.subrange(0, i as int))->Some_0;
                items@.len() == qs.len() && forall|j: int|
                    0 <= j < qs.len() ==> #[trigger] items@[j].holds(qs[j])
            }),
        decreases n - i,
    {
        let ghost before = t.children.subrange(0, i as int);
        let ghost after = t.children.subrange(0, i + 1);
        assert(after.drop_last() =~= before);
        assert(after.last() == t.children[i as int]);
        match &root.children[i] {
            XmlNode::Element(e) => {
                assert(t.children[i as int] == XmlItem::Element(e.tree()));
                match QueueItem::from_entry(e) {
                    Some(item) => {
                        items.push(item);
                    },
                    None => {
                        proof {
                            lemma_queue_entries_prefix_fails(t.children, i + 1);
                        }
                        return Err(SonosError::ParseError("malformed queue entry".to_owned()));
                    },
                }
            },
            _ => {},
        }
        i = i + 1;
    }
    assert(t.children.subrange(0, n as int) =~= t.children);
    Ok(items)
}

/// Reads the queue out of a `BrowseResponse` element.
pub fn queue_from_response(res: &XmlElement) -> (r: Result<Vec<QueueItem>, SonosError>)
    ensures
        match queue_in(res.tree()) {
            Some(qs) => r matches Ok(v) && v@.len() == qs.len() && forall|j: int|
                0 <= j < qs.len() ==> #[trigger] v@[j].holds(qs[j]),
            None => r matches Err(SonosError::ParseError(_)),
        },
{
    let listing = get_child_element_text(res, "Result")?;
    let root = XmlElement::parse(listing.as_str().as_bytes())?;
    queue_from_listing(&root)
}

} // verus!
