use vstd::prelude::*;

verus! {

/// The opaque client context of libmpv; only ever seen behind a pointer,
/// never built or read in Rust.
pub struct MpvHandleOpaque {
    _opaque: (),
}

/// The data formats of the libmpv client API (`mpv_format`).
#[derive(Debug, Copy, Clone, PartialEq, Eq, Structural)]
pub enum MpvFormat {
    /// No data (`MPV_FORMAT_NONE`).
    NoData,
    String,
    OsdString,
    Flag,
    Int64,
    Double,
    Node,
    NodeArray,
    NodeMap,
    ByteArray,
}

impl MpvFormat {
    /// The C value of this format in the libmpv client API.
    pub open spec fn abi_code(self) -> i32 {
        match self {
            MpvFormat::NoData => 0,
            MpvFormat::String => 1,
            MpvFormat::OsdString => 2,
            MpvFormat::Flag => 3,
            MpvFormat::Int64 => 4,
            MpvFormat::Double => 5,
            MpvFormat::Node => 6,
            MpvFormat::NodeArray => 7,
            MpvFormat::NodeMap => 8,
            MpvFormat::ByteArray => 9,
        }
    }

    /// The format whose C value is `code`, if there is one.
    pub open spec fn with_abi_code(code: i32) -> Option<MpvFormat> {
        if code == 0 { Some(MpvFormat::NoData) }
        else if code == 1 { Some(MpvFormat::String) }
        else if code == 2 { Some(MpvFormat::OsdString) }
        else if code == 3 { Some(MpvFormat::Flag) }
        else if code == 4 { Some(MpvFormat::Int64) }
        else if code == 5 { Some(MpvFormat::Double) }
        else if code == 6 { Some(MpvFormat::Node) }
        else if code == 7 { Some(MpvFormat::NodeArray) }
        else if code == 8 { Some(MpvFormat::NodeMap) }
        else if code == 9 { Some(MpvFormat::ByteArray) }
        else { None }
    }

    /// Returns the C value of this format.
    pub fn code(&self) -> (c: i32)
        ensures
            c == self.abi_code(),
    {
        match self {
            MpvFormat::NoData => 0,
            MpvFormat::String => 1,
            MpvFormat::OsdString => 2,
            MpvFormat::Flag => 3,
            MpvFormat::Int64 => 4,
            MpvFormat::Double => 5,
            MpvFormat::Node => 6,
            MpvFormat::NodeArray => 7,
            MpvFormat::NodeMap => 8,
            MpvFormat::ByteArray => 9,
        }
    }

    /// Returns the format whose C value is `code`, or `None` for a value that
    /// names no format.
    pub fn from_code(code: i32) -> (f: Option<MpvFormat>)
        ensures
            f == MpvFormat::with_abi_code(code),
    {
        match code {
            0 => Some(MpvFormat::NoData),
            1 => Some(MpvFormat::String),
            2 => Some(MpvFormat::OsdString),
            3 => Some(MpvFormat::Flag),
            4 => Some(MpvFormat::Int64),
            5 => Some(MpvFormat::Double),
            6 => Some(MpvFormat::Node),
            7 => Some(MpvFormat::NodeArray),
            8 => Some(MpvFormat::NodeMap),
            9 => Some(MpvFormat::ByteArray),
            _ => None,
        }
    }
}

/// Every format is recovered from its C value, and a C value that is read
/// back into a format is that format's value: the two conversions are
/// inverse to each other.
pub proof fn lemma_format_code_roundtrip(f: MpvFormat, code: i32)
    ensures
        MpvFormat::with_abi_code(f.abi_code()) == Some(f),
        MpvFormat::with_abi_code(code) matches Some(g) ==> g.abi_code() == code,
{
}

/// The event kinds of the libmpv client API (`mpv_event_id`).
#[derive(Debug, Copy, Clone, PartialEq, Eq, Structural)]
pub enum MpvEventId {
    /// No event was pending (`MPV_EVENT_NONE`).
    NoEvent,
    Shutdown,
    LogMessage,
    GetPropertyReply,
    SetPropertyReply,
    CommandReply,
    StartFile,
    EndFile,
    FileLoaded,
    ClientMessage,
    VideoReconfig,
    AudioReconfig,
    Seek,
    PlaybackRestart,
    PropertyChange,
    QueueOverflow,
    Hook,
}

impl MpvEventId {
    /// The C value of this event kind in the libmpv client API.
    pub open spec fn abi_code(self) -> i32 {
        match self {
            MpvEventId::NoEvent => 0,
            MpvEventId::Shutdown => 1,
            MpvEventId::LogMessage => 2,
            MpvEventId::GetPropertyReply => 3,
            MpvEventId::SetPropertyReply => 4,
            MpvEventId::CommandReply => 5,
            MpvEventId::StartFile => 6,
            MpvEventId::EndFile => 7,
            MpvEventId::FileLoaded => 8,
            MpvEventId::ClientMessage => 16,
            MpvEventId::VideoReconfig => 17,
            MpvEventId::AudioReconfig => 18,
            MpvEventId::Seek => 20,
            MpvEventId::PlaybackRestart => 21,
            MpvEventId::PropertyChange => 22,
            MpvEventId::QueueOverflow => 24,
            MpvEventId::Hook => 25,
        }
    }

    /// The event kind whose C value is `code`, if there is one.
    pub open spec fn with_abi_code(code: i32) -> Option<MpvEventId> {
        if code == 0 { Some(MpvEventId::NoEvent) }
        else if code == 1 { Some(MpvEventId::Shutdown) }
        else if code == 2 { Some(MpvEventId::LogMessage) }
        else if code == 3 { Some(MpvEventId::GetPropertyReply) }
        else if code == 4 { Some(MpvEventId::SetPropertyReply) }
        else if code == 5 { Some(MpvEventId::CommandReply) }
        else if code == 6 { Some(MpvEventId::StartFile) }
        else if code == 7 { Some(MpvEventId::EndFile) }
        else if code == 8 { Some(MpvEventId::FileLoaded) }
        else if code == 16 { Some(MpvEventId::ClientMessage) }
        else if code == 17 { Some(MpvEventId::VideoReconfig) }
        else if code == 18 { Some(MpvEventId::AudioReconfig) }
        else if code == 20 { Some(MpvEventId::Seek) }
        else if code == 21 { Some(MpvEventId::PlaybackRestart) }
        else if code == 22 { Some(MpvEventId::PropertyChange) }
        else if code == 24 { Some(MpvEventId::QueueOverflow) }
        else if code == 25 { Some(MpvEventId::Hook) }
        else { None }
    }

    /// Returns the C value of this event kind.
    pub fn code(&self) -> (c: i32)
        ensures
            c == self.abi_code(),
    {
        match self {
            MpvEventId::NoEvent => 0,
            MpvEventId::Shutdown => 1,
            MpvEventId::LogMessage => 2,
            MpvEventId::GetPropertyReply => 3,
            MpvEventId::SetPropertyReply => 4,
            MpvEventId::CommandReply => 5,
            MpvEventId::StartFile => 6,
            MpvEventId::EndFile => 7,
            MpvEventId::FileLoaded => 8,
            MpvEventId::ClientMessage => 16,
            MpvEventId::VideoReconfig => 17,
            MpvEventId::AudioReconfig => 18,
            MpvEventId::Seek => 20,
            MpvEventId::PlaybackRestart => 21,
            MpvEventId::PropertyChange => 22,
            MpvEventId::QueueOverflow => 24,
            MpvEventId::Hook => 25,
        }
    }

    /// Returns the event kind whose C value is `code`, or `None` for a value
    /// that names no event kind.
    pub fn from_code(code: i32) -> (e: Option<MpvEventId>)
        ensures
            e == MpvEventId::with_abi_code(code),
    {
        match code {
            0 => Some(MpvEventId::NoEvent),
            1 => Some(MpvEventId::Shutdown),
            2 => Some(MpvEventId::LogMessage),
            3 => Some(MpvEventId::GetPropertyReply),
            4 => Some(MpvEventId::SetPropertyReply),
            5 => Some(MpvEventId::CommandReply),
            6 => Some(MpvEventId::StartFile),
            7 => Some(MpvEventId::EndFile),
            8 => Some(MpvEventId::FileLoaded),
            16 => Some(MpvEventId::ClientMessage),
            17 => Some(MpvEventId::VideoReconfig),
            18 => Some(MpvEventId::AudioReconfig),
            20 => Some(MpvEventId::Seek),
            21 => Some(MpvEventId::PlaybackRestart),
            22 => Some(MpvEventId::PropertyChange),
            24 => Some(MpvEventId::QueueOverflow),
            25 => Some(MpvEventId::Hook),
            _ => None,
        }
    }
}

/// Every event kind is recovered from its C value, and a C value that is read
/// back into an event kind is that kind's value.
pub proof fn lemma_event_id_code_roundtrip(e: MpvEventId, code: i32)
    ensures
        MpvEventId::with_abi_code(e.abi_code()) == Some(e),
        MpvEventId::with_abi_code(code) matches Some(g) ==> g.abi_code() == code,
{
}

} // verus!
