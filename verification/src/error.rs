use vstd::prelude::*;

verus! {

/// Status code with which the native engine reports success.
pub const STATUS_OK: u32 = 0;

/// Largest status code in the closed recognized set; every defined error
/// code lies in `1..=LAST_ERROR_CODE`.
pub const LAST_ERROR_CODE: u32 = 81;

/// Reserved sentinel that pads the native status enumeration to a fixed
/// integer width. The native engine never reports it: receiving it is a
/// binary-compatibility violation, fatal by design rather than an error kind.
pub const RESERVED_SENTINEL: u32 = 65536;

/// The closed set of error kinds, one per non-success native status code.
#[derive(Clone, Copy, Debug, PartialEq, Eq, Structural, Hash, PartialOrd, Ord)]
pub enum FmodError {
    BadCommand,
    ChannelAlloc,
    ChannelStolen,
    Dma,
    DspConnection,
    DspDontprocess,
    DspFormat,
    DspInuse,
    DspNotFound,
    DspReserved,
    DspSilence,
    DspType,
    FileBad,
    FileCouldNotSeek,
    FileDiskEjected,
    FileEof,
    FileEndOfData,
    FileNotFound,
    Format,
    HeaderMismatch,
    Http,
    HttpAccess,
    HttpProxyAuth,
    HttpServerError,
    HttpTimeout,
    Initialization,
    Initialized,
    Internal,
    InvalidFloat,
    InvalidHandle,
    InvalidParam,
    InvalidPosition,
    InvalidSpeaker,
    InvalidSyncPoint,
    InvalidThread,
    InvalidVector,
    MaxAudible,
    Memory,
    MemoryCantPoint,
    Needs3d,
    NeedsHardware,
    NetConnect,
    NetSocketError,
    NetUrl,
    NetWouldBlock,
    NotReady,
    OutputAllocated,
    OutputCreateBuffer,
    OutputDriverCall,
    OutputFormat,
    OutputInit,
    OutputNoDrivers,
    Plugin,
    PluginMissing,
    PluginResource,
    PluginVersion,
    Record,
    ReverbChannelGroup,
    ReverbInstance,
    Subsounds,
    SubsoundAllocated,
    SubsoundCantMove,
    TagNotFound,
    TooManyChannels,
    Truncated,
    Unimplemented,
    Uninitialized,
    Unsupported,
    Version,
    EventAlreadyLoaded,
    EventLiveUpdateBusy,
    EventLiveUpdateMismatch,
    EventLiveUpdateTimeout,
    EventNotFound,
    StudioUninitialized,
    StudioNotLoaded,
    InvalidString,
    AlreadyLocked,
    NotLocked,
    RecordDisconnected,
    TooManySamples,
}

/// Holds of every status code in the closed recognized set: success plus
/// the defined error codes. Anything outside it (the reserved sentinel
/// included) is a contract violation of the native layer.
pub open spec fn is_known_code(c: u32) -> bool {
    c <= LAST_ERROR_CODE
}

/// Holds of the defined non-success status codes.
pub open spec fn is_error_code(c: u32) -> bool {
    1 <= c <= LAST_ERROR_CODE
}

/// The native status code that stands for an error kind.
pub open spec fn code_of_error(e: FmodError) -> u32 {
    match e {
        FmodError::BadCommand => 1,
        FmodError::ChannelAlloc => 2,
        FmodError::ChannelStolen => 3,
        FmodError::Dma => 4,
        FmodError::DspConnection => 5,
        FmodError::DspDontprocess => 6,
        FmodError::DspFormat => 7,
        FmodError::DspInuse => 8,
        FmodError::DspNotFound => 9,
        FmodError::DspReserved => 10,
        FmodError::DspSilence => 11,
        FmodError::DspType => 12,
        FmodError::FileBad => 13,
        FmodError::FileCouldNotSeek => 14,
        FmodError::FileDiskEjected => 15,
        FmodError::FileEof => 16,
        FmodError::FileEndOfData => 17,
        FmodError::FileNotFound => 18,
        FmodError::Format => 19,
        FmodError::HeaderMismatch => 20,
        FmodError::Http => 21,
        FmodError::HttpAccess => 22,
        FmodError::HttpProxyAuth => 23,
        FmodError::HttpServerError => 24,
        FmodError::HttpTimeout => 25,
        FmodError::Initialization => 26,
        FmodError::Initialized => 27,
        FmodError::Internal => 28,
        FmodError::InvalidFloat => 29,
        FmodError::InvalidHandle => 30,
        FmodError::InvalidParam => 31,
        FmodError::InvalidPosition => 32,
        FmodError::InvalidSpeaker => 33,
        FmodError::InvalidSyncPoint => 34,
        FmodError::InvalidThread => 35,
        FmodError::InvalidVector => 36,
        FmodError::MaxAudible => 37,
        FmodError::Memory => 38,
        FmodError::MemoryCantPoint => 39,
        FmodError::Needs3d => 40,
        FmodError::NeedsHardware => 41,
        FmodError::NetConnect => 42,
        FmodError::NetSocketError => 43,
        FmodError::NetUrl => 44,
        FmodError::NetWouldBlock => 45,
        FmodError::NotReady => 46,
        FmodError::OutputAllocated => 47,
        FmodError::OutputCreateBuffer => 48,
        FmodError::OutputDriverCall => 49,
        FmodError::OutputFormat => 50,
        FmodError::OutputInit => 51,
        FmodError::OutputNoDrivers => 52,
        FmodError::Plugin => 53,
        FmodError::PluginMissing => 54,
        FmodError::PluginResource => 55,
        FmodError::PluginVersion => 56,
        FmodError::Record => 57,
        FmodError::ReverbChannelGroup => 58,
        FmodError::ReverbInstance => 59,
        FmodError::Subsounds => 60,
        FmodError::SubsoundAllocated => 61,
        FmodError::SubsoundCantMove => 62,
        FmodError::TagNotFound => 63,
        FmodError::TooManyChannels => 64,
        FmodError::Truncated => 65,
        FmodError::Unimplemented => 66,
        FmodError::Uninitialized => 67,
        FmodError::Unsupported => 68,
        FmodError::Version => 69,
        FmodError::EventAlreadyLoaded => 70,
        FmodError::EventLiveUpdateBusy => 71,
        FmodError::EventLiveUpdateMismatch => 72,
        FmodError::EventLiveUpdateTimeout => 73,
        FmodError::EventNotFound => 74,
        FmodError::StudioUninitialized => 75,
        FmodError::StudioNotLoaded => 76,
        FmodError::InvalidString => 77,
        FmodError::AlreadyLocked => 78,
        FmodError::NotLocked => 79,
        FmodError::RecordDisconnected => 80,
        FmodError::TooManySamples => 81,
    }
}

/// The error kind that a defined non-success status code stands for.
pub open spec fn error_of_code(c: u32) -> FmodError
    recommends
        is_error_code(c),
{
    if c == 1 {
        FmodError::BadCommand
    } else if c == 2 {
        FmodError::ChannelAlloc
    } else if c == 3 {
        FmodError::ChannelStolen
    } else if c == 4 {
        FmodError::Dma
    } else if c == 5 {
        FmodError::DspConnection
    } else if c == 6 {
        FmodError::DspDontprocess
    } else if c == 7 {
        FmodError::DspFormat
    } else if c == 8 {
        FmodError::DspInuse
    } else if c == 9 {
        FmodError::DspNotFound
    } else if c == 10 {
        FmodError::DspReserved
    } else if c == 11 {
        FmodError::DspSilence
    } else if c == 12 {
        FmodError::DspType
    } else if c == 13 {
        FmodError::FileBad
    } else if c == 14 {
        FmodError::FileCouldNotSeek
    } else if c == 15 {
        FmodError::FileDiskEjected
    } else if c == 16 {
        FmodError::FileEof
    } else if c == 17 {
        FmodError::FileEndOfData
    } else if c == 18 {
        FmodError::FileNotFound
    } else if c == 19 {
        FmodError::Format
    } else if c == 20 {
        FmodError::HeaderMismatch
    } else if c == 21 {
        FmodError::Http
    } else if c == 22 {
        FmodError::HttpAccess
    } else if c == 23 {
        FmodError::HttpProxyAuth
    } else if c == 24 {
        FmodError::HttpServerError
    } else if c == 25 {
        FmodError::HttpTimeout
    } else if c == 26 {
        FmodError::Initialization
    } else if c == 27 {
        FmodError::Initialized
    } else if c == 28 {
        FmodError::Internal
    } else if c == 29 {
        FmodError::InvalidFloat
    } else if c == 30 {
        FmodError::InvalidHandle
    } else if c == 31 {
        FmodError::InvalidParam
    } else if c == 32 {
        FmodError::InvalidPosition
    } else if c == 33 {
        FmodError::InvalidSpeaker
    } else if c == 34 {
        FmodError::InvalidSyncPoint
    } else if c == 35 {
        FmodError::InvalidThread
    } else if c == 36 {
        FmodError::InvalidVector
    } else if c == 37 {
        FmodError::MaxAudible
    } else if c == 38 {
        FmodError::Memory
    } else if c == 39 {
        FmodError::MemoryCantPoint
    } else if c == 40 {
        FmodError::Needs3d
    } else if c == 41 {
        FmodError::NeedsHardware
    } else if c == 42 {
        FmodError::NetConnect
    } else if c == 43 {
        FmodError::NetSocketError
    } else if c == 44 {
        FmodError::NetUrl
    } else if c == 45 {
        FmodError::NetWouldBlock
    } else if c == 46 {
        FmodError::NotReady
    } else if c == 47 {
        FmodError::OutputAllocated
    } else if c == 48 {
        FmodError::OutputCreateBuffer
    } else if c == 49 {
        FmodError::OutputDriverCall
    } else if c == 50 {
        FmodError::OutputFormat
    } else if c == 51 {
        FmodError::OutputInit
    } else if c == 52 {
        FmodError::OutputNoDrivers
    } else if c == 53 {
        FmodError::Plugin
    } else if c == 54 {
        FmodError::PluginMissing
    } else if c == 55 {
        FmodError::PluginResource
    } else if c == 56 {
        FmodError::PluginVersion
    } else if c == 57 {
        FmodError::Record
    } else if c == 58 {
        FmodError::ReverbChannelGroup
    } else if c == 59 {
        FmodError::ReverbInstance
    } else if c == 60 {
        FmodError::Subsounds
    } else if c == 61 {
        FmodError::SubsoundAllocated
    } else if c == 62 {
        FmodError::SubsoundCantMove
    } else if c == 63 {
        FmodError::TagNotFound
    } else if c == 64 {
        FmodError::TooManyChannels
    } else if c == 65 {
        FmodError::Truncated
    } else if c == 66 {
        FmodError::Unimplemented
    } else if c == 67 {
        FmodError::Uninitialized
    } else if c == 68 {
        FmodError::Unsupported
    } else if c == 69 {
        FmodError::Version
    } else if c == 70 {
        FmodError::EventAlreadyLoaded
    } else if c == 71 {
        FmodError::EventLiveUpdateBusy
    } else if c == 72 {
        FmodError::EventLiveUpdateMismatch
    } else if c == 73 {
        FmodError::EventLiveUpdateTimeout
    } else if c == 74 {
        FmodError::EventNotFound
    } else if c == 75 {
        FmodError::StudioUninitialized
    } else if c == 76 {
        FmodError::StudioNotLoaded
    } else if c == 77 {
        FmodError::InvalidString
    } else if c == 78 {
        FmodError::AlreadyLocked
    } else if c == 79 {
        FmodError::NotLocked
    } else if c == 80 {
        FmodError::RecordDisconnected
    } else if c == 81 {
        FmodError::TooManySamples
    } else {
        FmodError::TooManySamples
    }
}

/// What translating a recognized status code yields: success for the
/// distinguished success code, the matching error kind otherwise.
pub open spec fn result_of_code(c: u32) -> Result<(), FmodError> {
    if c == STATUS_OK {
        Ok(())
    } else {
        Err(error_of_code(c))
    }
}

impl FmodError {
    /// Translates a native status code into the structured error taxonomy.
    ///
    /// The distinguished success code maps to `Ok(())`; every defined error
    /// code maps to its kind. The reserved sentinel, like any code outside
    /// the recognized set, must never be produced by the native layer;
    /// receiving one is an unrecoverable contract violation, which callers
    /// rule out by establishing `is_known_code` at the boundary.
    pub fn from_result(code: u32) -> (r: Result<(), FmodError>)
        requires
            is_known_code(code),
        ensures
            r == result_of_code(code),
    {
        match code {
            0u32 => Ok(()),
            1u32 => Err(FmodError::BadCommand),
            2u32 => Err(FmodError::ChannelAlloc),
            3u32 => Err(FmodError::ChannelStolen),
            4u32 => Err(FmodError::Dma),
            5u32 => Err(FmodError::DspConnection),
            6u32 => Err(FmodError::DspDontprocess),
            7u32 => Err(FmodError::DspFormat),
            8u32 => Err(FmodError::DspInuse),
            9u32 => Err(FmodError::DspNotFound),
            10u32 => Err(FmodError::DspReserved),
            11u32 => Err(FmodError::DspSilence),
            12u32 => Err(FmodError::DspType),
            13u32 => Err(FmodError::FileBad),
            14u32 => Err(FmodError::FileCouldNotSeek),
            15u32 => Err(FmodError::FileDiskEjected),
            16u32 => Err(FmodError::FileEof),
            17u32 => Err(FmodError::FileEndOfData),
            18u32 => Err(FmodError::FileNotFound),
            19u32 => Err(FmodError::Format),
            20u32 => Err(FmodError::HeaderMismatch),
            21u32 => Err(FmodError::Http),
            22u32 => Err(FmodError::HttpAccess),
            23u32 => Err(FmodError::HttpProxyAuth),
            24u32 => Err(FmodError::HttpServerError),
            25u32 => Err(FmodError::HttpTimeout),
            26u32 => Err(FmodError::Initialization),
            27u32 => Err(FmodError::Initialized),
            28u32 => Err(FmodError::Internal),
            29u32 => Err(FmodError::InvalidFloat),
            30u32 => Err(FmodError::InvalidHandle),
            31u32 => Err(FmodError::InvalidParam),
            32u32 => Err(FmodError::InvalidPosition),
            33u32 => Err(FmodError::InvalidSpeaker),
            34u32 => Err(FmodError::InvalidSyncPoint),
            35u32 => Err(FmodError::InvalidThread),
            36u32 => Err(FmodError::InvalidVector),
            37u32 => Err(FmodError::MaxAudible),
            38u32 => Err(FmodError::Memory),
            39u32 => Err(FmodError::MemoryCantPoint),
            40u32 => Err(FmodError::Needs3d),
            41u32 => Err(FmodError::NeedsHardware),
            42u32 => Err(FmodError::NetConnect),
            43u32 => Err(FmodError::NetSocketError),
            44u32 => Err(FmodError::NetUrl),
            45u32 => Err(FmodError::NetWouldBlock),
            46u32 => Err(FmodError::NotReady),
            47u32 => Err(FmodError::OutputAllocated),
            48u32 => Err(FmodError::OutputCreateBuffer),
            49u32 => Err(FmodError::OutputDriverCall),
            50u32 => Err(FmodError::OutputFormat),
            51u32 => Err(FmodError::OutputInit),
            52u32 => Err(FmodError::OutputNoDrivers),
            53u32 => Err(FmodError::Plugin),
            54u32 => Err(FmodError::PluginMissing),
            55u32 => Err(FmodError::PluginResource),
            56u32 => Err(FmodError::PluginVersion),
            57u32 => Err(FmodError::Record),
            58u32 => Err(FmodError::ReverbChannelGroup),
            59u32 => Err(FmodError::ReverbInstance),
            60u32 => Err(FmodError::Subsounds),
            61u32 => Err(FmodError::SubsoundAllocated),
            62u32 => Err(FmodError::SubsoundCantMove),
            63u32 => Err(FmodError::TagNotFound),
            64u32 => Err(FmodError::TooManyChannels),
            65u32 => Err(FmodError::Truncated),
            66u32 => Err(FmodError::Unimplemented),
            67u32 => Err(FmodError::Uninitialized),
            68u32 => Err(FmodError::Unsupported),
            69u32 => Err(FmodError::Version),
            70u32 => Err(FmodError::EventAlreadyLoaded),
            71u32 => Err(FmodError::EventLiveUpdateBusy),
            72u32 => Err(FmodError::EventLiveUpdateMismatch),
            73u32 => Err(FmodError::EventLiveUpdateTimeout),
            74u32 => Err(FmodError::EventNotFound),
            75u32 => Err(FmodError::StudioUninitialized),
            76u32 => Err(FmodError::StudioNotLoaded),
            77u32 => Err(FmodError::InvalidString),
            78u32 => Err(FmodError::AlreadyLocked),
            79u32 => Err(FmodError::NotLocked),
            80u32 => Err(FmodError::RecordDisconnected),
            81u32 => Err(FmodError::TooManySamples),
            _ => vstd::pervasive::unreached(),
        }
    }

    /// The native status code for this error kind: the exact inverse of the
    /// failure branch of `from_result`, used when an error must be handed
    /// back across the native boundary.
    pub fn to_fmod_result(self) -> (code: u32)
        ensures
            code == code_of_error(self),
    {
        match self {
            FmodError::BadCommand => 1,
            FmodError::ChannelAlloc => 2,
            FmodError::ChannelStolen => 3,
            FmodError::Dma => 4,
            FmodError::DspConnection => 5,
            FmodError::DspDontprocess => 6,
            FmodError::DspFormat => 7,
            FmodError::DspInuse => 8,
            FmodError::DspNotFound => 9,
            FmodError::DspReserved => 10,
            FmodError::DspSilence => 11,
            FmodError::DspType => 12,
            FmodError::FileBad => 13,
            FmodError::FileCouldNotSeek => 14,
            FmodError::FileDiskEjected => 15,
            FmodError::FileEof => 16,
            FmodError::FileEndOfData => 17,
            FmodError::FileNotFound => 18,
            FmodError::Format => 19,
            FmodError::HeaderMismatch => 20,
            FmodError::Http => 21,
            FmodError::HttpAccess => 22,
            FmodError::HttpProxyAuth => 23,
            FmodError::HttpServerError => 24,
            FmodError::HttpTimeout => 25,
            FmodError::Initialization => 26,
            FmodError::Initialized => 27,
            FmodError::Internal => 28,
            FmodError::InvalidFloat => 29,
            FmodError::InvalidHandle => 30,
            FmodError::InvalidParam => 31,
            FmodError::InvalidPosition => 32,
            FmodError::InvalidSpeaker => 33,
            FmodError::InvalidSyncPoint => 34,
            FmodError::InvalidThread => 35,
            FmodError::InvalidVector => 36,
            FmodError::MaxAudible => 37,
            FmodError::Memory => 38,
            FmodError::MemoryCantPoint => 39,
            FmodError::Needs3d => 40,
            FmodError::NeedsHardware => 41,
            FmodError::NetConnect => 42,
            FmodError::NetSocketError => 43,
            FmodError::NetUrl => 44,
            FmodError::NetWouldBlock => 45,
            FmodError::NotReady => 46,
            FmodError::OutputAllocated => 47,
            FmodError::OutputCreateBuffer => 48,
            FmodError::OutputDriverCall => 49,
            FmodError::OutputFormat => 50,
            FmodError::OutputInit => 51,
            FmodError::OutputNoDrivers => 52,
            FmodError::Plugin => 53,
            FmodError::PluginMissing => 54,
            FmodError::PluginResource => 55,
            FmodError::PluginVersion => 56,
            FmodError::Record => 57,
            FmodError::ReverbChannelGroup => 58,
            FmodError::ReverbInstance => 59,
            FmodError::Subsounds => 60,
            FmodError::SubsoundAllocated => 61,
            FmodError::SubsoundCantMove => 62,
            FmodError::TagNotFound => 63,
            FmodError::TooManyChannels => 64,
            FmodError::Truncated => 65,
            FmodError::Unimplemented => 66,
            FmodError::Uninitialized => 67,
            FmodError::Unsupported => 68,
            FmodError::Version => 69,
            FmodError::EventAlreadyLoaded => 70,
            FmodError::EventLiveUpdateBusy => 71,
            FmodError::EventLiveUpdateMismatch => 72,
            FmodError::EventLiveUpdateTimeout => 73,
            FmodError::EventNotFound => 74,
            FmodError::StudioUninitialized => 75,
            FmodError::StudioNotLoaded => 76,
            FmodError::InvalidString => 77,
            FmodError::AlreadyLocked => 78,
            FmodError::NotLocked => 79,
            FmodError::RecordDisconnected => 80,
            FmodError::TooManySamples => 81,
        }
    }
}

/// The fixed diagnostic text of an error kind, as `description` returns it.
pub open spec fn spec_description(e: FmodError) -> Seq<char> {
    match e {
        FmodError::BadCommand => "Tried to call a function on a data type that does not allow this type of functionality (ie calling Sound::lock on a streaming sound)."@,
        FmodError::ChannelAlloc => "Error trying to allocate a channel."@,
        FmodError::ChannelStolen => "The specified channel has been reused to play another sound."@,
        FmodError::Dma => "DMA Failure.  See debug output for more information."@,
        FmodError::DspConnection => "DSP connection error.  Connection possibly caused a cyclic dependency or connected dsps with incompatible buffer counts."@,
        FmodError::DspDontprocess => "DSP return code from a DSP process query callback.  Tells mixer not to call the process callback and therefore not consume CPU.  Use this to optimize the DSP graph."@,
        FmodError::DspFormat => "DSP Format error.  A DSP unit may have attempted to connect to this network with the wrong format, or a matrix may have been set with the wrong size if the target unit has a specified channel map."@,
        FmodError::DspInuse => "DSP is already in the mixer's DSP network. It must be removed before being reinserted or released."@,
        FmodError::DspNotFound => "DSP connection error.  Couldn't find the DSP unit specified."@,
        FmodError::DspReserved => "DSP operation error.  Cannot perform operation on this DSP as it is reserved by the system."@,
        FmodError::DspSilence => "DSP return code from a DSP process query callback.  Tells mixer silence would be produced from read, so go idle and not consume CPU.  Use this to optimize the DSP graph."@,
        FmodError::DspType => "DSP operation cannot be performed on a DSP of this type."@,
        FmodError::FileBad => "Error loading file."@,
        FmodError::FileCouldNotSeek => "Couldn't perform seek operation.  This is a limitation of the medium (ie netstreams) or the file format."@,
        FmodError::FileDiskEjected => "Media was ejected while reading."@,
        FmodError::FileEof => "End of file unexpectedly reached while trying to read essential data (truncated?)."@,
        FmodError::FileEndOfData => "End of current chunk reached while trying to read data."@,
        FmodError::FileNotFound => "File not found."@,
        FmodError::Format => "Unsupported file or audio format."@,
        FmodError::HeaderMismatch => "There is a version mismatch between the FMOD header and either the FMOD Studio library or the FMOD Low Level library."@,
        FmodError::Http => "A HTTP error occurred. This is a catch-all for HTTP errors not listed elsewhere."@,
        FmodError::HttpAccess => "The specified resource requires authentication or is forbidden."@,
        FmodError::HttpProxyAuth => "Proxy authentication is required to access the specified resource."@,
        FmodError::HttpServerError => "A HTTP server error occurred."@,
        FmodError::HttpTimeout => "The HTTP request timed out."@,
        FmodError::Initialization => "FMOD was not initialized correctly to support this function."@,
        FmodError::Initialized => "Cannot call this command after System::init."@,
        FmodError::Internal => "An error occurred that wasn't supposed to.  Contact support."@,
        FmodError::InvalidFloat => "Value passed in was a NaN, Inf or denormalized float."@,
        FmodError::InvalidHandle => "An invalid object handle was used."@,
        FmodError::InvalidParam => "An invalid parameter was passed to this function."@,
        FmodError::InvalidPosition => "An invalid seek position was passed to this function."@,
        FmodError::InvalidSpeaker => "An invalid speaker was passed to this function based on the current speaker mode."@,
        FmodError::InvalidSyncPoint => "The syncpoint did not come from this sound handle."@,
        FmodError::InvalidThread => "Tried to call a function on a thread that is not supported."@,
        FmodError::InvalidVector => "The vectors passed in are not unit length, or perpendicular."@,
        FmodError::MaxAudible => "Reached maximum audible playback count for this sound's soundgroup."@,
        FmodError::Memory => "Not enough memory or resources."@,
        FmodError::MemoryCantPoint => "Can't use FMOD_OPENMEMORY_POINT on non PCM source data, or non mp3/xma/adpcm data if FMOD_CREATECOMPRESSEDSAMPLE was used."@,
        FmodError::Needs3d => "Tried to call a command on a 2d sound when the command was meant for 3d sound."@,
        FmodError::NeedsHardware => "Tried to use a feature that requires hardware support."@,
        FmodError::NetConnect => "Couldn't connect to the specified host."@,
        FmodError::NetSocketError => "A socket error occurred.  This is a catch-all for socket-related errors not listed elsewhere."@,
        FmodError::NetUrl => "The specified URL couldn't be resolved."@,
        FmodError::NetWouldBlock => "Operation on a non-blocking socket could not complete immediately."@,
        FmodError::NotReady => "Operation could not be performed because specified sound/DSP connection is not ready."@,
        FmodError::OutputAllocated => "Error initializing output device, but more specifically, the output device is already in use and cannot be reused."@,
        FmodError::OutputCreateBuffer => "Error creating hardware sound buffer."@,
        FmodError::OutputDriverCall => "A call to a standard soundcard driver failed, which could possibly mean a bug in the driver or resources were missing or exhausted."@,
        FmodError::OutputFormat => "Soundcard does not support the specified format."@,
        FmodError::OutputInit => "Error initializing output device."@,
        FmodError::OutputNoDrivers => "The output device has no drivers installed.  If pre-init, FMOD_OUTPUT_NOSOUND is selected as the output mode.  If post-init, the function just fails."@,
        FmodError::Plugin => "An unspecified error has been returned from a plugin."@,
        FmodError::PluginMissing => "A requested output, dsp unit type or codec was not available."@,
        FmodError::PluginResource => "A resource that the plugin requires cannot be found. (ie the DLS file for MIDI playback)"@,
        FmodError::PluginVersion => "A plugin was built with an unsupported SDK version."@,
        FmodError::Record => "An error occurred trying to initialize the recording device."@,
        FmodError::ReverbChannelGroup => "Reverb properties cannot be set on this channel because a parent channelgroup owns the reverb connection."@,
        FmodError::ReverbInstance => "Specified instance in FMOD_REVERB_PROPERTIES couldn't be set. Most likely because it is an invalid instance number or the reverb doesn't exist."@,
        FmodError::Subsounds => "The error occurred because the sound referenced contains subsounds when it shouldn't have, or it doesn't contain subsounds when it should have.  The operation may also not be able to be performed on a parent sound."@,
        FmodError::SubsoundAllocated => "This subsound is already being used by another sound, you cannot have more than one parent to a sound.  Null out the other parent's entry first."@,
        FmodError::SubsoundCantMove => "Shared subsounds cannot be replaced or moved from their parent stream, such as when the parent stream is an FSB file."@,
        FmodError::TagNotFound => "The specified tag could not be found or there are no tags."@,
        FmodError::TooManyChannels => "The sound created exceeds the allowable input channel count.  This can be increased using the 'maxinputchannels' parameter in System::setSoftwareFormat."@,
        FmodError::Truncated => "The retrieved string is too long to fit in the supplied buffer and has been truncated."@,
        FmodError::Unimplemented => "Something in FMOD hasn't been implemented when it should be! contact support!"@,
        FmodError::Uninitialized => "This command failed because System::init or System::setDriver was not called."@,
        FmodError::Unsupported => "A command issued was not supported by this object.  Possibly a plugin without certain callbacks specified."@,
        FmodError::Version => "The version number of this file format is not supported."@,
        FmodError::EventAlreadyLoaded => "The specified bank has already been loaded."@,
        FmodError::EventLiveUpdateBusy => "The live update connection failed due to the game already being connected."@,
        FmodError::EventLiveUpdateMismatch => "The live update connection failed due to the game data being out of sync with the tool."@,
        FmodError::EventLiveUpdateTimeout => "The live update connection timed out."@,
        FmodError::EventNotFound => "The requested event, bus or vca could not be found."@,
        FmodError::StudioUninitialized => "The Studio::System object is not yet initialized."@,
        FmodError::StudioNotLoaded => "The specified resource is not loaded, so it can't be unloaded."@,
        FmodError::InvalidString => "An invalid string was passed to this function."@,
        FmodError::AlreadyLocked => "The specified resource is already locked."@,
        FmodError::NotLocked => "The specified resource is not locked, so it can't be unlocked."@,
        FmodError::RecordDisconnected => "The specified recording driver has been disconnected."@,
        FmodError::TooManySamples => "The length provided exceeds the allowable limit."@,
    }
}

impl FmodError {
    /// The stable human-readable description of this error kind, for
    /// diagnostics only; callers never branch on its content.
    pub fn description(self) -> (r: &'static str)
        ensures
            r@ == spec_description(self),
    {
        match self {
            FmodError::BadCommand => "Tried to call a function on a data type that does not allow this type of functionality (ie calling Sound::lock on a streaming sound).",
            FmodError::ChannelAlloc => "Error trying to allocate a channel.",
            FmodError::ChannelStolen => "The specified channel has been reused to play another sound.",
            FmodError::Dma => "DMA Failure.  See debug output for more information.",
            FmodError::DspConnection => "DSP connection error.  Connection possibly caused a cyclic dependency or connected dsps with incompatible buffer counts.",
            FmodError::DspDontprocess => "DSP return code from a DSP process query callback.  Tells mixer not to call the process callback and therefore not consume CPU.  Use this to optimize the DSP graph.",
            FmodError::DspFormat => "DSP Format error.  A DSP unit may have attempted to connect to this network with the wrong format, or a matrix may have been set with the wrong size if the target unit has a specified channel map.",
            FmodError::DspInuse => "DSP is already in the mixer's DSP network. It must be removed before being reinserted or released.",
            FmodError::DspNotFound => "DSP connection error.  Couldn't find the DSP unit specified.",
            FmodError::DspReserved => "DSP operation error.  Cannot perform operation on this DSP as it is reserved by the system.",
            FmodError::DspSilence => "DSP return code from a DSP process query callback.  Tells mixer silence would be produced from read, so go idle and not consume CPU.  Use this to optimize the DSP graph.",
            FmodError::DspType => "DSP operation cannot be performed on a DSP of this type.",
            FmodError::FileBad => "Error loading file.",
            FmodError::FileCouldNotSeek => "Couldn't perform seek operation.  This is a limitation of the medium (ie netstreams) or the file format.",
            FmodError::FileDiskEjected => "Media was ejected while reading.",
            FmodError::FileEof => "End of file unexpectedly reached while trying to read essential data (truncated?).",
            FmodError::FileEndOfData => "End of current chunk reached while trying to read data.",
            FmodError::FileNotFound => "File not found.",
            FmodError::Format => "Unsupported file or audio format.",
            FmodError::HeaderMismatch => "There is a version mismatch between the FMOD header and either the FMOD Studio library or the FMOD Low Level library.",
            FmodError::Http => "A HTTP error occurred. This is a catch-all for HTTP errors not listed elsewhere.",
            FmodError::HttpAccess => "The specified resource requires authentication or is forbidden.",
            FmodError::HttpProxyAuth => "Proxy authentication is required to access the specified resource.",
            FmodError::HttpServerError => "A HTTP server error occurred.",
            FmodError::HttpTimeout => "The HTTP request timed out.",
            FmodError::Initialization => "FMOD was not initialized correctly to support this function.",
            FmodError::Initialized => "Cannot call this command after System::init.",
            FmodError::Internal => "An error occurred that wasn't supposed to.  Contact support.",
            FmodError::InvalidFloat => "Value passed in was a NaN, Inf or denormalized float.",
            FmodError::InvalidHandle => "An invalid object handle was used.",
            FmodError::InvalidParam => "An invalid parameter was passed to this function.",
            FmodError::InvalidPosition => "An invalid seek position was passed to this function.",
            FmodError::InvalidSpeaker => "An invalid speaker was passed to this function based on the current speaker mode.",
            FmodError::InvalidSyncPoint => "The syncpoint did not come from this sound handle.",
            FmodError::InvalidThread => "Tried to call a function on a thread that is not supported.",
            FmodError::InvalidVector => "The vectors passed in are not unit length, or perpendicular.",
            FmodError::MaxAudible => "Reached maximum audible playback count for this sound's soundgroup.",
            FmodError::Memory => "Not enough memory or resources.",
            FmodError::MemoryCantPoint => "Can't use FMOD_OPENMEMORY_POINT on non PCM source data, or non mp3/xma/adpcm data if FMOD_CREATECOMPRESSEDSAMPLE was used.",
            FmodError::Needs3d => "Tried to call a command on a 2d sound when the command was meant for 3d sound.",
            FmodError::NeedsHardware => "Tried to use a feature that requires hardware support.",
            FmodError::NetConnect => "Couldn't connect to the specified host.",
            FmodError::NetSocketError => "A socket error occurred.  This is a catch-all for socket-related errors not listed elsewhere.",
            FmodError::NetUrl => "The specified URL couldn't be resolved.",
            FmodError::NetWouldBlock => "Operation on a non-blocking socket could not complete immediately.",
            FmodError::NotReady => "Operation could not be performed because specified sound/DSP connection is not ready.",
            FmodError::OutputAllocated => "Error initializing output device, but more specifically, the output device is already in use and cannot be reused.",
            FmodError::OutputCreateBuffer => "Error creating hardware sound buffer.",
            FmodError::OutputDriverCall => "A call to a standard soundcard driver failed, which could possibly mean a bug in the driver or resources were missing or exhausted.",
            FmodError::OutputFormat => "Soundcard does not support the specified format.",
            FmodError::OutputInit => "Error initializing output device.",
            FmodError::OutputNoDrivers => "The output device has no drivers installed.  If pre-init, FMOD_OUTPUT_NOSOUND is selected as the output mode.  If post-init, the function just fails.",
            FmodError::Plugin => "An unspecified error has been returned from a plugin.",
            FmodError::PluginMissing => "A requested output, dsp unit type or codec was not available.",
            FmodError::PluginResource => "A resource that the plugin requires cannot be found. (ie the DLS file for MIDI playback)",
            FmodError::PluginVersion => "A plugin was built with an unsupported SDK version.",
            FmodError::Record => "An error occurred trying to initialize the recording device.",
            FmodError::ReverbChannelGroup => "Reverb properties cannot be set on this channel because a parent channelgroup owns the reverb connection.",
            FmodError::ReverbInstance => "Specified instance in FMOD_REVERB_PROPERTIES couldn't be set. Most likely because it is an invalid instance number or the reverb doesn't exist.",
            FmodError::Subsounds => "The error occurred because the sound referenced contains subsounds when it shouldn't have, or it doesn't contain subsounds when it should have.  The operation may also not be able to be performed on a parent sound.",
            FmodError::SubsoundAllocated => "This subsound is already being used by another sound, you cannot have more than one parent to a sound.  Null out the other parent's entry first.",
            FmodError::SubsoundCantMove => "Shared subsounds cannot be replaced or moved from their parent stream, such as when the parent stream is an FSB file.",
            FmodError::TagNotFound => "The specified tag could not be found or there are no tags.",
            FmodError::TooManyChannels => "The sound created exceeds the allowable input channel count.  This can be increased using the 'maxinputchannels' parameter in System::setSoftwareFormat.",
            FmodError::Truncated => "The retrieved string is too long to fit in the supplied buffer and has been truncated.",
            FmodError::Unimplemented => "Something in FMOD hasn't been implemented when it should be! contact support!",
            FmodError::Uninitialized => "This command failed because System::init or System::setDriver was not called.",
            FmodError::Unsupported => "A command issued was not supported by this object.  Possibly a plugin without certain callbacks specified.",
            FmodError::Version => "The version number of this file format is not supported.",
            FmodError::EventAlreadyLoaded => "The specified bank has already been loaded.",
            FmodError::EventLiveUpdateBusy => "The live update connection failed due to the game already being connected.",
            FmodError::EventLiveUpdateMismatch => "The live update connection failed due to the game data being out of sync with the tool.",
            FmodError::EventLiveUpdateTimeout => "The live update connection timed out.",
            FmodError::EventNotFound => "The requested event, bus or vca could not be found.",
            FmodError::StudioUninitialized => "The Studio::System object is not yet initialized.",
            FmodError::StudioNotLoaded => "The specified resource is not loaded, so it can't be unloaded.",
            FmodError::InvalidString => "An invalid string was passed to this function.",
            FmodError::AlreadyLocked => "The specified resource is already locked.",
            FmodError::NotLocked => "The specified resource is not locked, so it can't be unlocked.",
            FmodError::RecordDisconnected => "The specified recording driver has been disconnected.",
            FmodError::TooManySamples => "The length provided exceeds the allowable limit.",
        }
    }
}

/// Law: translating any defined non-success status code yields a failure,
/// and handing the resulting kind back across the boundary yields the code
/// it came from.
pub proof fn lemma_code_round_trip(c: u32)
    requires
        is_error_code(c),
    ensures
        result_of_code(c) is Err,
        code_of_error(result_of_code(c)->Err_0) == c,
{
}

/// Law: each error kind stands for a defined non-success status code, and
/// translating that code yields the kind back: the two code maps are exact
/// inverses.
pub proof fn lemma_error_of_own_code(e: FmodError)
    ensures
        is_error_code(code_of_error(e)),
        error_of_code(code_of_error(e)) == e,
{
}

/// Anything that carries a native status code and can be translated into the
/// error taxonomy. The native layer hands codes over as plain integers, and
/// `u32` implements this directly.
pub trait ToError: Sized {
    /// The native status code this value carries.
    spec fn carried_code(self) -> u32;

    /// Translates the carried status code, exactly as `FmodError::from_result`
    /// does.
    fn to_err(self) -> (r: Result<(), FmodError>)
        requires
            is_known_code(self.carried_code()),
        ensures
            r == result_of_code(self.carried_code()),
    ;
}

impl ToError for u32 {
    open spec fn carried_code(self) -> u32 {
        self
    }

    fn to_err(self) -> (r: Result<(), FmodError>) {
        FmodError::from_result(self)
    }
}

} // verus!
