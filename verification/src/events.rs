use vstd::prelude::*;

use crate::ffi::{MpvEventId, MpvFormat};

verus! {

/// The value carried by a property-change event.
#[derive(Debug, Clone, PartialEq)]
pub enum PropertyValue {
    String(String),
    Flag(bool),
    Int64(i64),
    /// A double, carried as its IEEE-754 bit pattern (`f64::to_bits`).
    Double(u64),
    /// No value: the property had no data, or data in a format not decoded here.
    NoValue,
}

/// An event delivered by mpv.
#[derive(Debug, Clone, PartialEq)]
pub enum Event {
    Shutdown,
    StartFile,
    FileLoaded,
    EndFile { reason: i32, error: i32 },
    Seek,
    PlaybackRestart,
    PropertyChange { id: u64, name: String, value: PropertyValue },
    QueueOverflow,
    /// Any other event kind, by its C value.
    Other(i32),
}

/// What the data pointer of a raw event points at, decided by the event kind.
#[derive(Debug, Copy, Clone, PartialEq, Eq, Structural)]
pub enum EventData {
    /// An `mpv_event_end_file` record.
    EndFile,
    /// An `mpv_event_property` record.
    Property,
    /// Nothing that is read.
    Ignored,
}

/// How the data of a property change is read, decided by its format.
#[derive(Debug, Copy, Clone, PartialEq, Eq, Structural)]
pub enum ValueLayout {
    /// A pointer to a NUL-terminated string (which may itself be null).
    Text,
    /// A C `int` flag.
    Flag,
    /// A 64-bit signed integer.
    Int64,
    /// A double.
    Double,
    /// A format that is not decoded.
    Unsupported,
}

/// The end-file record of a raw event, read from its data pointer.
pub struct RawEndFile {
    pub reason: i32,
    pub error: i32,
}

/// The data of a raw property change, read as its format's layout says.
pub enum RawValue {
    /// The string, or `None` where the string pointer was null.
    Text(Option<String>),
    Flag(i32),
    Int64(i64),
    /// The bit pattern of the double.
    Double(u64),
    Unsupported,
}

/// The property record of a raw event.
pub struct RawProperty {
    /// The property's name, or `None` where the name pointer was null.
    pub name: Option<String>,
    /// The property's data, or `None` where the data pointer was null.
    pub value: Option<RawValue>,
}

/// A raw `mpv_event` as plain values: its kind, error and user data, and the
/// record its data pointer points at where `EventData` says one is read
/// (`None` where the pointer was null).
pub struct RawEvent {
    pub event_id: i32,
    pub error: i32,
    pub reply_userdata: u64,
    pub end_file: Option<RawEndFile>,
    pub property: Option<RawProperty>,
}

/// Which record the data pointer of an event of kind `event_id` points at.
pub open spec fn data_of(event_id: i32) -> EventData {
    match MpvEventId::with_abi_code(event_id) {
        Some(MpvEventId::EndFile) => EventData::EndFile,
        Some(MpvEventId::PropertyChange) => EventData::Property,
        _ => EventData::Ignored,
    }
}

/// How the data of a property in format `format` is read.
pub open spec fn layout_of(format: i32) -> ValueLayout {
    match MpvFormat::with_abi_code(format) {
        Some(MpvFormat::String) => ValueLayout::Text,
        Some(MpvFormat::OsdString) => ValueLayout::Text,
        Some(MpvFormat::Flag) => ValueLayout::Flag,
        Some(MpvFormat::Int64) => ValueLayout::Int64,
        Some(MpvFormat::Double) => ValueLayout::Double,
        _ => ValueLayout::Unsupported,
    }
}

/// The property value that raw property data stands for.
pub open spec fn value_of(raw: Option<RawValue>) -> PropertyValue {
    match raw {
        Some(RawValue::Text(Some(s))) => PropertyValue::String(s),
        Some(RawValue::Flag(f)) => PropertyValue::Flag(f != 0),
        Some(RawValue::Int64(i)) => PropertyValue::Int64(i),
        Some(RawValue::Double(bits)) => PropertyValue::Double(bits),
        _ => PropertyValue::NoValue,
    }
}

/// The text of an optional name: the name itself, or empty where there was none.
pub open spec fn name_text(name: Option<String>) -> Seq<char> {
    match name {
        Some(n) => n@,
        None => Seq::empty(),
    }
}

/// `decoded` is the event that the raw event `raw` stands for: none for an
/// empty event or a property change without data, the kind itself for the
/// kinds the engine names, `Other` with the C value for every other kind.
pub open spec fn decodes_to(raw: RawEvent, decoded: Option<Event>) -> bool {
    match MpvEventId::with_abi_code(raw.event_id) {
        Some(MpvEventId::NoEvent) => decoded is None,
        Some(MpvEventId::Shutdown) => decoded == Some(Event::Shutdown),
        Some(MpvEventId::StartFile) => decoded == Some(Event::StartFile),
        Some(MpvEventId::FileLoaded) => decoded == Some(Event::FileLoaded),
        Some(MpvEventId::EndFile) => decoded == Some(
            match raw.end_file {
                Some(d) => Event::EndFile { reason: d.reason, error: d.error },
                None => Event::EndFile { reason: 0, error: raw.error },
            },
        ),
        Some(MpvEventId::Seek) => decoded == Some(Event::Seek),
        Some(MpvEventId::PlaybackRestart) => decoded == Some(Event::PlaybackRestart),
        Some(MpvEventId::PropertyChange) => match raw.property {
            None => decoded is None,
            Some(p) => decoded matches Some(Event::PropertyChange { id, name, value }) && id
                == raw.reply_userdata && name@ == name_text(p.name) && value == value_of(p.value),
        },
        Some(MpvEventId::QueueOverflow) => decoded == Some(Event::QueueOverflow),
        _ => decoded == Some(Event::Other(raw.event_id)),
    }
}

impl Event {
    /// Which record the data pointer of a raw event of kind `event_id` points at.
    pub fn data_of(event_id: i32) -> (data: EventData)
        ensures
            data == data_of(event_id),
    {
        match MpvEventId::from_code(event_id) {
            Some(MpvEventId::EndFile) => EventData::EndFile,
            Some(MpvEventId::PropertyChange) => EventData::Property,
            _ => EventData::Ignored,
        }
    }

    /// Decodes a raw event; `None` stands for a null event pointer.
    pub fn from_raw(raw: Option<RawEvent>) -> (decoded: Option<Event>)
        ensures
            raw is None ==> decoded is None,
            raw matches Some(r) ==> decodes_to(r, decoded),
    {
        let raw = match raw {
            None => return None,
            Some(r) => r,
        };
        match MpvEventId::from_code(raw.event_id) {
            Some(MpvEventId::NoEvent) => None,
            Some(MpvEventId::Shutdown) => Some(Event::Shutdown),
            Some(MpvEventId::StartFile) => Some(Event::StartFile),
            Some(MpvEventId::FileLoaded) => Some(Event::FileLoaded),
            Some(MpvEventId::EndFile) => match raw.end_file {
                Some(d) => Some(Event::EndFile { reason: d.reason, error: d.error }),
                None => Some(Event::EndFile { reason: 0, error: raw.error }),
            },
            Some(MpvEventId::Seek) => Some(Event::Seek),
            Some(MpvEventId::PlaybackRestart) => Some(Event::PlaybackRestart),
            Some(MpvEventId::PropertyChange) => match raw.property {
                None => None,
                Some(p) => {
                    let name = match p.name {
                        Some(n) => n,
                        None => String::new(),
                    };
                    let value = PropertyValue::from_raw(p.value);
                    Some(Event::PropertyChange { id: raw.reply_userdata, name, value })
                },
            },
            Some(MpvEventId::QueueOverflow) => Some(Event::QueueOverflow),
            _ => Some(Event::Other(raw.event_id)),
        }
    }
}

impl PropertyValue {
    /// How the data of a property in format `format` is read.
    pub fn layout_of(format: i32) -> (layout: ValueLayout)
        ensures
            layout == layout_of(format),
    {
        match MpvFormat::from_code(format) {
            Some(MpvFormat::String) => ValueLayout::Text,
            Some(MpvFormat::OsdString) => ValueLayout::Text,
            Some(MpvFormat::Flag) => ValueLayout::Flag,
            Some(MpvFormat::Int64) => ValueLayout::Int64,
            Some(MpvFormat::Double) => ValueLayout::Double,
            _ => ValueLayout::Unsupported,
        }
    }

    /// The property value that raw property data stands for; `None` stands
    /// for a null data pointer.
    pub fn from_raw(raw: Option<RawValue>) -> (value: PropertyValue)
        ensures
            value == value_of(raw),
    {
        match raw {
            Some(RawValue::Text(Some(s))) => PropertyValue::String(s),
            Some(RawValue::Flag(f)) => PropertyValue::Flag(f != 0),
            Some(RawValue::Int64(i)) => PropertyValue::Int64(i),
            Some(RawValue::Double(bits)) => PropertyValue::Double(bits),
            _ => PropertyValue::NoValue,
        }
    }
}

/// Each kind of property data is carried as it was read: an integer or a
/// double's bits unchanged, a flag as whether it is non-zero, a string as
/// itself; only missing or undecoded data has no value.
pub proof fn lemma_values_pass_through(raw: Option<RawValue>)
    ensures
        raw matches Some(RawValue::Int64(i)) ==> value_of(raw) == PropertyValue::Int64(i),
        raw matches Some(RawValue::Double(b)) ==> value_of(raw) == PropertyValue::Double(b),
        raw matches Some(RawValue::Flag(f)) ==> value_of(raw) == PropertyValue::Flag(f != 0),
        raw matches Some(RawValue::Text(Some(t))) ==> value_of(raw) == PropertyValue::String(t),
        (raw is None || raw == Some(RawValue::Text(None)) || raw == Some(RawValue::Unsupported))
            ==> value_of(raw) == PropertyValue::NoValue,
{
}

/// Decoding keeps every event mpv delivers. An event disappears only when
/// none was pending (C value 0) or a property change (22) came without its
/// record. Shutdown (1), start-file (6), end-file (7), file-loaded (8),
/// seek (20), playback-restart (21), property-change (22) and
/// queue-overflow (24) become their own events, carrying the end-file record
/// (or the event's error when there is none) and the property's user data,
/// name and value; every other kind becomes `Other` with its C value.
pub proof fn lemma_decoding_keeps_events(raw: RawEvent, decoded: Option<Event>)
    requires
        decodes_to(raw, decoded),
    ensures
        decoded is None <==> (raw.event_id == 0 || (raw.event_id == 22 && raw.property is None)),
        raw.event_id == 1 ==> decoded == Some(Event::Shutdown),
        raw.event_id == 6 ==> decoded == Some(Event::StartFile),
        raw.event_id == 8 ==> decoded == Some(Event::FileLoaded),
        raw.event_id == 20 ==> decoded == Some(Event::Seek),
        raw.event_id == 21 ==> decoded == Some(Event::PlaybackRestart),
        raw.event_id == 24 ==> decoded == Some(Event::QueueOverflow),
        raw.event_id == 7 ==> (decoded matches Some(Event::EndFile { reason, error }) && (
        raw.end_file matches Some(d) ==> reason == d.reason && error == d.error) && (
        raw.end_file is None ==> reason == 0 && error == raw.error)),
        raw.event_id == 22 && raw.property is Some ==> (decoded matches Some(
            Event::PropertyChange { id, name, value },
        ) && id == raw.reply_userdata && (raw.property->0.name matches Some(n) ==> name@ == n@) && (
        raw.property->0.name is None ==> name@.len() == 0) && (raw.property->0.value matches Some(
            RawValue::Int64(i),
        ) ==> value == PropertyValue::Int64(i)) && (raw.property->0.value matches Some(
            RawValue::Double(b),
        ) ==> value == PropertyValue::Double(b)) && (raw.property->0.value matches Some(
            RawValue::Flag(f),
        ) ==> value == PropertyValue::Flag(f != 0)) && (raw.property->0.value matches Some(
            RawValue::Text(Some(t)),
        ) ==> value == PropertyValue::String(t))),
        !(raw.event_id == 0 || raw.event_id == 1 || raw.event_id == 6 || raw.event_id == 7
            || raw.event_id == 8 || raw.event_id == 20 || raw.event_id == 21 || raw.event_id == 22
            || raw.event_id == 24) ==> decoded == Some(Event::Other(raw.event_id)),
{
    if raw.property is Some {
        lemma_values_pass_through(raw.property->0.value);
    }
}

/// The data of an event is read as its kind dictates: an end-file record for
/// end-file events (C value 7), a property record for property changes (22),
/// nothing otherwise. Property data is read as its format dictates: text for
/// strings and on-screen strings (1, 2), a flag (3), a 64-bit integer (4), a
/// double (5); every other format is not decoded.
pub proof fn lemma_layouts_follow_the_abi(event_id: i32, format: i32)
    ensures
        data_of(event_id) == (if event_id == 7 {
            EventData::EndFile
        } else if event_id == 22 {
            EventData::Property
        } else {
            EventData::Ignored
        }),
        layout_of(format) == (if format == 1 || format == 2 {
            ValueLayout::Text
        } else if format == 3 {
            ValueLayout::Flag
        } else if format == 4 {
            ValueLayout::Int64
        } else if format == 5 {
            ValueLayout::Double
        } else {
            ValueLayout::Unsupported
        }),
{
}

} // verus!
