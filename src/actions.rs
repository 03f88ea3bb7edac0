use vstd::prelude::*;

use crate::error::SonosError;
use crate::soap::SoapRequest;
use crate::text::{decimal_string, decimal_text, two_digit_string, two_digit_text};

verus! {

/// The control path of the AVTransport service.
pub open spec fn av_endpoint() -> Seq<char> {
    "MediaRenderer/AVTransport/Control"@
}

/// The URN of the AVTransport service.
pub open spec fn av_service() -> Seq<char> {
    "urn:schemas-upnp-org:service:AVTransport:1"@
}

/// The control path of the RenderingControl service.
pub open spec fn rc_endpoint() -> Seq<char> {
    "MediaRenderer/RenderingControl/Control"@
}

/// The URN of the RenderingControl service.
pub open spec fn rc_service() -> Seq<char> {
    "urn:schemas-upnp-org:service:RenderingControl:1"@
}

/// The control path of the ContentDirectory service.
pub open spec fn cd_endpoint() -> Seq<char> {
    "MediaServer/ContentDirectory/Control"@
}

/// The URN of the ContentDirectory service.
pub open spec fn cd_service() -> Seq<char> {
    "urn:schemas-upnp-org:service:ContentDirectory:1"@
}

/// Plays the current track.
pub fn play() -> (r: SoapRequest)
    ensures
        r.carries(av_endpoint(), av_service(), "Play"@, "<InstanceID>0</InstanceID><Speed>1</Speed>"@, true),
{
    SoapRequest::new(
        "MediaRenderer/AVTransport/Control",
        "urn:schemas-upnp-org:service:AVTransport:1",
        "Play",
        "<InstanceID>0</InstanceID><Speed>1</Speed>",
        true,
    )
}

/// Pauses the current track.
pub fn pause() -> (r: SoapRequest)
    ensures
        r.carries(av_endpoint(), av_service(), "Pause"@, "<InstanceID>0</InstanceID>"@, true),
{
    SoapRequest::new(
        "MediaRenderer/AVTransport/Control",
        "urn:schemas-upnp-org:service:AVTransport:1",
        "Pause",
        "<InstanceID>0</InstanceID>",
        true,
    )
}

/// Stops the current queue.
pub fn stop() -> (r: SoapRequest)
    ensures
        r.carries(av_endpoint(), av_service(), "Stop"@, "<InstanceID>0</InstanceID>"@, true),
{
    SoapRequest::new(
        "MediaRenderer/AVTransport/Control",
        "urn:schemas-upnp-org:service:AVTransport:1",
        "Stop",
        "<InstanceID>0</InstanceID>",
        true,
    )
}

/// Asks for the current volume.
pub fn volume() -> (r: SoapRequest)
    ensures
        r.carries(rc_endpoint(), rc_service(), "GetVolume"@, "<InstanceID>0</InstanceID><Channel>Master</Channel>"@, false),
{
    SoapRequest::new(
        "MediaRenderer/RenderingControl/Control",
        "urn:schemas-upnp-org:service:RenderingControl:1",
        "GetVolume",
        "<InstanceID>0</InstanceID><Channel>Master</Channel>",
        false,
    )
}

/// Asks whether the speaker is muted.
pub fn muted() -> (r: SoapRequest)
    ensures
        r.carries(rc_endpoint(), rc_service(), "GetMute"@, "<InstanceID>0</InstanceID><Channel>Master</Channel>"@, false),
{
    SoapRequest::new(
        "MediaRenderer/RenderingControl/Control",
        "urn:schemas-upnp-org:service:RenderingControl:1",
        "GetMute",
        "<InstanceID>0</InstanceID><Channel>Master</Channel>",
        false,
    )
}

/// Mutes the speaker.
pub fn mute() -> (r: SoapRequest)
    ensures
        r.carries(rc_endpoint(), rc_service(), "SetMute"@, "<InstanceID>0</InstanceID><Channel>Master</Channel><DesiredMute>1</DesiredMute>"@, false),
{
    SoapRequest::new(
        "MediaRenderer/RenderingControl/Control",
        "urn:schemas-upnp-org:service:RenderingControl:1",
        "SetMute",
        "<InstanceID>0</InstanceID><Channel>Master</Channel><DesiredMute>1</DesiredMute>",
        false,
    )
}

/// Unmutes the speaker.
pub fn unmute() -> (r: SoapRequest)
    ensures
        r.carries(rc_endpoint(), rc_service(), "SetMute"@, "<InstanceID>0</InstanceID><Channel>Master</Channel><DesiredMute>0</DesiredMute>"@, false),
{
    SoapRequest::new(
        "MediaRenderer/RenderingControl/Control",
        "urn:schemas-upnp-org:service:RenderingControl:1",
        "SetMute",
        "<InstanceID>0</InstanceID><Channel>Master</Channel><DesiredMute>0</DesiredMute>",
        false,
    )
}

/// Asks for the transport state.
pub fn transport_state() -> (r: SoapRequest)
    ensures
        r.carries(av_endpoint(), av_service(), "GetTransportInfo"@, "<InstanceID>0</InstanceID>"@, false),
{
    SoapRequest::new(
        "MediaRenderer/AVTransport/Control",
        "urn:schemas-upnp-org:service:AVTransport:1",
        "GetTransportInfo",
        "<InstanceID>0</InstanceID>",
        false,
    )
}

/// Asks for the current track and the position in it.
pub fn track() -> (r: SoapRequest)
    ensures
        r.carries(av_endpoint(), av_service(), "GetPositionInfo"@, "<InstanceID>0</InstanceID>"@, true),
{
    SoapRequest::new(
        "MediaRenderer/AVTransport/Control",
        "urn:schemas-upnp-org:service:AVTransport:1",
        "GetPositionInfo",
        "<InstanceID>0</InstanceID>",
        true,
    )
}

/// Lists the first thousand slots of the queue.
pub fn list_queue() -> (r: SoapRequest)
    ensures
        r.carries(cd_endpoint(), cd_service(), "Browse"@, "<ObjectID>Q:0</ObjectID><BrowseFlag>BrowseDirectChildren</BrowseFlag><Filter></Filter><StartingIndex>0</StartingIndex><RequestedCount>1000</RequestedCount><SortCriteria></SortCriteria>"@, true),
{
    SoapRequest::new(
        "MediaServer/ContentDirectory/Control",
        "urn:schemas-upnp-org:service:ContentDirectory:1",
        "Browse",
        "<ObjectID>Q:0</ObjectID><BrowseFlag>BrowseDirectChildren</BrowseFlag><Filter></Filter><StartingIndex>0</StartingIndex><RequestedCount>1000</RequestedCount><SortCriteria></SortCriteria>",
        true,
    )
}

/// Skips to the next track.
pub fn next() -> (r: SoapRequest)
    ensures
        r.carries(av_endpoint(), av_service(), "Next"@, "<InstanceID>0</InstanceID>"@, true),
{
    SoapRequest::new(
        "MediaRenderer/AVTransport/Control",
        "urn:schemas-upnp-org:service:AVTransport:1",
        "Next",
        "<InstanceID>0</InstanceID>",
        true,
    )
}

/// Goes back to the previous track.
pub fn previous() -> (r: SoapRequest)
    ensures
        r.carries(av_endpoint(), av_service(), "Previous"@, "<InstanceID>0</InstanceID>"@, true),
{
    SoapRequest::new(
        "MediaRenderer/AVTransport/Control",
        "urn:schemas-upnp-org:service:AVTransport:1",
        "Previous",
        "<InstanceID>0</InstanceID>",
        true,
    )
}

/// Removes every track from the queue.
pub fn clear_queue() -> (r: SoapRequest)
    ensures
        r.carries(av_endpoint(), av_service(), "RemoveAllTracksFromQueue"@, "<InstanceID>0</InstanceID>"@, true),
{
    SoapRequest::new(
        "MediaRenderer/AVTransport/Control",
        "urn:schemas-upnp-org:service:AVTransport:1",
        "RemoveAllTracksFromQueue",
        "<InstanceID>0</InstanceID>",
        true,
    )
}

/// The `Target` of a seek to `secs` seconds into the track: `hh:mm:ss`, each field at least
/// two digits, hours not bounded.
pub open spec fn seek_target(secs: nat) -> Seq<char> {
    two_digit_text(secs / 3600) + ":"@ + two_digit_text((secs / 60) % 60) + ":"@ + two_digit_text(
        secs % 60,
    )
}

/// Seeks to `secs` seconds into the current track.
pub fn seek(secs: u64) -> (r: SoapRequest)
    ensures
        r.carries(
            av_endpoint(),
            av_service(),
            "Seek"@,
            "<InstanceID>0</InstanceID><Unit>REL_TIME</Unit><Target>"@ + seek_target(secs as nat)
                + "</Target>"@,
            true,
        ),
{
    let mut payload = String::from_str("<InstanceID>0</InstanceID><Unit>REL_TIME</Unit><Target>");
    payload.append(two_digit_string(secs / 3600).as_str());
    payload.append(":");
    payload.append(two_digit_string((secs / 60) % 60).as_str());
    payload.append(":");
    payload.append(two_digit_string(secs % 60).as_str());
    payload.append("</Target>");
    let ghost want = "<InstanceID>0</InstanceID><Unit>REL_TIME</Unit><Target>"@ + seek_target(
        secs as nat,
    ) + "</Target>"@;
    assert(payload@ =~= want);
    SoapRequest::new(
        "MediaRenderer/AVTransport/Control",
        "urn:schemas-upnp-org:service:AVTransport:1",
        "Seek",
        payload.as_str(),
        true,
    )
}

/// Replaces the current track with the one at `uri`.
pub fn play_track(uri: &str) -> (r: SoapRequest)
    ensures
        r.carries(
            av_endpoint(),
            av_service(),
            "SetAVTransportURI"@,
            "<InstanceID>0</InstanceID><CurrentURI>"@ + uri@
                + "</CurrentURI><CurrentURIMetaData></CurrentURIMetaData>"@,
            true,
        ),
{
    let mut payload = String::from_str("<InstanceID>0</InstanceID><CurrentURI>");
    payload.append(uri);
    payload.append("</CurrentURI><CurrentURIMetaData></CurrentURIMetaData>");
    SoapRequest::new(
        "MediaRenderer/AVTransport/Control",
        "urn:schemas-upnp-org:service:AVTransport:1",
        "SetAVTransportURI",
        payload.as_str(),
        true,
    )
}

/// The stream of the line-in input of the speaker with uuid `uuid`.
pub fn line_in_uri(uuid: &str) -> (r: String)
    ensures
        r@ == "x-rincon-stream:"@ + uuid@,
{
    String::from_str("x-rincon-stream:").concat(uuid)
}

/// The stream of the optical input of the speaker with uuid `uuid`.
pub fn tv_uri(uuid: &str) -> (r: String)
    ensures
        r@ == "x-sonos-htastream:"@ + uuid@ + ":spdif"@,
{
    String::from_str("x-sonos-htastream:").concat(uuid).concat(":spdif")
}

/// The queue of the speaker with uuid `uuid`, as a transport URI.
pub fn queue_uri(uuid: &str) -> (r: String)
    ensures
        r@ == "x-rincon-queue:"@ + uuid@ + "#0"@,
{
    String::from_str("x-rincon-queue:").concat(uuid).concat("#0")
}

/// Sets the volume; a volume above 100 is refused before anything is sent.
pub fn set_volume(volume: u8) -> (r: Result<SoapRequest, SonosError>)
    ensures
        volume > 100 ==> (r matches Err(SonosError::InvalidVolume(v)) && v == volume),
        volume <= 100 ==> (r matches Ok(q) && q.carries(
            rc_endpoint(),
            rc_service(),
            "SetVolume"@,
            "<InstanceID>0</InstanceID><Channel>Master</Channel><DesiredVolume>"@ + decimal_text(
                volume as nat,
            ) + "</DesiredVolume>"@,
            false,
        )),
{
    if volume > 100 {
        return Err(SonosError::InvalidVolume(volume));
    }
    let mut payload = String::from_str(
        "<InstanceID>0</InstanceID><Channel>Master</Channel><DesiredVolume>",
    );
    payload.append(decimal_string(volume as u64).as_str());
    payload.append("</DesiredVolume>");
    Ok(
        SoapRequest::new(
            "MediaRenderer/RenderingControl/Control",
            "urn:schemas-upnp-org:service:RenderingControl:1",
            "SetVolume",
            payload.as_str(),
            false,
        ),
    )
}

/// Moves playback to the queue slot `track`, counted from 1.
pub fn seek_track(track: u64) -> (r: SoapRequest)
    ensures
        r.carries(
            av_endpoint(),
            av_service(),
            "Seek"@,
            "<InstanceID>0</InstanceID><Unit>TRACK_NR</Unit><Target>"@ + decimal_text(
                track as nat,
            ) + "</Target>"@,
            true,
        ),
{
    let mut payload = String::from_str("<InstanceID>0</InstanceID><Unit>TRACK_NR</Unit><Target>");
    payload.append(decimal_string(track).as_str());
    payload.append("</Target>");
    SoapRequest::new(
        "MediaRenderer/AVTransport/Control",
        "urn:schemas-upnp-org:service:AVTransport:1",
        "Seek",
        payload.as_str(),
        true,
    )
}

/// Removes the queue slot `track`, counted from 1.
pub fn remove_track(track: u64) -> (r: SoapRequest)
    ensures
        r.carries(
            av_endpoint(),
            av_service(),
            "RemoveTrackFromQueue"@,
            "<InstanceID>0</InstanceID><ObjectID>Q:0/"@ + decimal_text(track as nat)
                + "</ObjectID>"@,
            true,
        ),
{
    let mut payload = String::from_str("<InstanceID>0</InstanceID><ObjectID>Q:0/");
    payload.append(decimal_string(track).as_str());
    payload.append("</ObjectID>");
    SoapRequest::new(
        "MediaRenderer/AVTransport/Control",
        "urn:schemas-upnp-org:service:AVTransport:1",
        "RemoveTrackFromQueue",
        payload.as_str(),
        true,
    )
}

/// The arguments that enqueue `uri`, at the end or to play next.
pub open spec fn enqueue_payload(uri: Seq<char>, as_next: bool) -> Seq<char> {
    "<InstanceID>0</InstanceID><EnqueuedURI>"@ + uri
        + "</EnqueuedURI><EnqueuedURIMetaData></EnqueuedURIMetaData><DesiredFirstTrackNumberEnqueued>0</DesiredFirstTrackNumberEnqueued><EnqueueAsNext>"@
        + (if as_next {
        "1"@
    } else {
        "0"@
    }) + "</EnqueueAsNext>"@
}

/// Adds the track at `uri` to the queue: at its end, or to play next.
pub fn enqueue(uri: &str, as_next: bool) -> (r: SoapRequest)
    ensures
        r.carries(av_endpoint(), av_service(), "AddURIToQueue"@, enqueue_payload(uri@, as_next), true),
{
    let mut payload = String::from_str("<InstanceID>0</InstanceID><EnqueuedURI>");
    payload.append(uri);
    payload.append(
        "</EnqueuedURI><EnqueuedURIMetaData></EnqueuedURIMetaData><DesiredFirstTrackNumberEnqueued>0</DesiredFirstTrackNumberEnqueued><EnqueueAsNext>",
    );
    if as_next {
        payload.append("1");
    } else {
        payload.append("0");
    }
    payload.append("</EnqueueAsNext>");
    SoapRequest::new(
        "MediaRenderer/AVTransport/Control",
        "urn:schemas-upnp-org:service:AVTransport:1",
        "AddURIToQueue",
        payload.as_str(),
        true,
    )
}

} // verus!
