use vstd::prelude::*;

verus! {

/// A UPnP fault category, as reported by a device in the `errorCode` of a SOAP fault.
#[derive(Debug, Clone, Copy, PartialEq, Eq, Structural)]
pub enum AVTransportError {
    /// No action by that name at this service.
    InvalidAction,
    /// Not enough in args, too many in args, no in arg by that name, or an in arg of the
    /// wrong data type.
    InvalidArgs,
    /// No state variable by that name at this service.
    InvalidVar,
    /// The current state of the service prevents invoking that action.
    ActionFailed,
    /// The immediate transition from the current transport state to the desired one is not
    /// supported by this device.
    TransitionNotAvailable,
    /// The media does not contain any contents that can be played.
    NoContents,
    /// The media cannot be read.
    ReadError,
    /// The storage format of the currently loaded media is not supported.
    FormatNotSupported,
    /// The transport is "hold locked".
    TransportLocked,
    /// The media cannot be written.
    WriteError,
    /// The media is write-protected or is of a type that cannot be written.
    MediaNotWriteable,
    /// The storage format of the loaded media is not supported for recording by this device.
    RecordingFormatNotSupported,
    /// There is no free space left on the loaded media.
    MediaFull,
    /// The specified seek mode is not supported by the device.
    SeekModeNotSupported,
    /// The seek target is not given in terms of the seek mode, or is not present on the media.
    IllegalSeekTarget,
    /// The specified play mode is not supported by the device.
    PlayModeNotSupported,
    /// The specified record quality is not supported by the device.
    RecordQualityNotSupported,
    /// The resource to be played has a mime type that the service does not support.
    IllegalMimeType,
    /// The resource is already being played by other means.
    ContentBusy,
    /// The specified playback speed is not supported.
    PlaySpeedNotSupported,
    /// The specified instance id is invalid for this transport.
    InvalidInstanceId,
    /// The DNS server is not available.
    NoDnsServer,
    /// The fully qualified domain name could not be resolved.
    BadDomainName,
    /// The server that hosts the resource is unreachable or unresponsive.
    ServerError,
    /// A code outside the table above.
    Unknown,
}

impl AVTransportError {
    /// The fault category of a numeric UPnP error code; codes outside the table are `Unknown`.
    pub open spec fn spec_from_code(code: u64) -> AVTransportError {
        match code {
            401 => AVTransportError::InvalidAction,
            402 => AVTransportError::InvalidArgs,
            404 => AVTransportError::InvalidVar,
            501 => AVTransportError::ActionFailed,
            701 => AVTransportError::TransitionNotAvailable,
            702 => AVTransportError::NoContents,
            703 => AVTransportError::ReadError,
            704 => AVTransportError::FormatNotSupported,
            705 => AVTransportError::TransportLocked,
            706 => AVTransportError::WriteError,
            707 => AVTransportError::MediaNotWriteable,
            708 => AVTransportError::RecordingFormatNotSupported,
            709 => AVTransportError::MediaFull,
            710 => AVTransportError::SeekModeNotSupported,
            711 => AVTransportError::IllegalSeekTarget,
            712 => AVTransportError::PlayModeNotSupported,
            713 => AVTransportError::RecordQualityNotSupported,
            714 => AVTransportError::IllegalMimeType,
            715 => AVTransportError::ContentBusy,
            717 => AVTransportError::PlaySpeedNotSupported,
            718 => AVTransportError::InvalidInstanceId,
            737 => AVTransportError::NoDnsServer,
            738 => AVTransportError::BadDomainName,
            739 => AVTransportError::ServerError,
            _ => AVTransportError::Unknown,
        }
    }
}

impl From<u64> for AVTransportError {
    fn from(code: u64) -> AVTransportError {
        match code {
            401 => AVTransportError::InvalidAction,
            402 => AVTransportError::InvalidArgs,
            404 => AVTransportError::InvalidVar,
            501 => AVTransportError::ActionFailed,
            701 => AVTransportError::TransitionNotAvailable,
            702 => AVTransportError::NoContents,
            703 => AVTransportError::ReadError,
            704 => AVTransportError::FormatNotSupported,
            705 => AVTransportError::TransportLocked,
            706 => AVTransportError::WriteError,
            707 => AVTransportError::MediaNotWriteable,
            708 => AVTransportError::RecordingFormatNotSupported,
            709 => AVTransportError::MediaFull,
            710 => AVTransportError::SeekModeNotSupported,
            711 => AVTransportError::IllegalSeekTarget,
            712 => AVTransportError::PlayModeNotSupported,
            713 => AVTransportError::RecordQualityNotSupported,
            714 => AVTransportError::IllegalMimeType,
            715 => AVTransportError::ContentBusy,
            717 => AVTransportError::PlaySpeedNotSupported,
            718 => AVTransportError::InvalidInstanceId,
            737 => AVTransportError::NoDnsServer,
            738 => AVTransportError::BadDomainName,
            739 => AVTransportError::ServerError,
            _ => AVTransportError::Unknown,
        }
    }
}

impl vstd::std_specs::convert::FromSpecImpl<u64> for AVTransportError {
    open spec fn obeys_from_spec() -> bool {
        true
    }

    open spec fn from_spec(code: u64) -> AVTransportError {
        AVTransportError::spec_from_code(code)
    }
}

/// The ways a call into a speaker can fail.
#[derive(Debug)]
pub enum SonosError {
    /// The device answered with a UPnP fault of this category.
    AVTransportError(AVTransportError),
    /// A document was not well-formed XML, or lacked a structure that the protocol requires.
    ParseError(String),
    /// The device could not be contacted.
    DeviceUnreachable,
    /// The device answered with a non-success HTTP status.
    BadResponse(u16),
    /// No device, or no coordinator, matched the given identifier.
    DeviceNotFound(String),
    /// A volume above 100 was asked for.
    InvalidVolume(u8),
}

impl From<AVTransportError> for SonosError {
    fn from(error: AVTransportError) -> SonosError {
        SonosError::AVTransportError(error)
    }
}

impl vstd::std_specs::convert::FromSpecImpl<AVTransportError> for SonosError {
    open spec fn obeys_from_spec() -> bool {
        true
    }

    open spec fn from_spec(error: AVTransportError) -> SonosError {
        SonosError::AVTransportError(error)
    }
}

} // verus!
