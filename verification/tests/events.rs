use ttmpv_engine::events::{EventData, RawEndFile, RawEvent, RawProperty, RawValue, ValueLayout};
use ttmpv_engine::{Event, MpvEventId, MpvFormat, PropertyValue};

fn raw(event_id: i32) -> RawEvent {
    RawEvent { event_id, error: 0, reply_userdata: 0, end_file: None, property: None }
}

fn property(name: Option<&str>, value: Option<RawValue>) -> RawEvent {
    RawEvent {
        event_id: MpvEventId::PropertyChange.code(),
        error: 0,
        reply_userdata: 77,
        end_file: None,
        property: Some(RawProperty { name: name.map(|n| n.to_string()), value }),
    }
}

#[test]
fn null_event_decodes_to_nothing() {
    assert_eq!(Event::from_raw(None), None);
    assert_eq!(Event::from_raw(Some(raw(0))), None);
}

#[test]
fn simple_kinds_decode() {
    assert_eq!(Event::from_raw(Some(raw(1))), Some(Event::Shutdown));
    assert_eq!(Event::from_raw(Some(raw(6))), Some(Event::StartFile));
    assert_eq!(Event::from_raw(Some(raw(8))), Some(Event::FileLoaded));
    assert_eq!(Event::from_raw(Some(raw(20))), Some(Event::Seek));
    assert_eq!(Event::from_raw(Some(raw(21))), Some(Event::PlaybackRestart));
    assert_eq!(Event::from_raw(Some(raw(24))), Some(Event::QueueOverflow));
}

#[test]
fn other_kinds_keep_their_code() {
    assert_eq!(Event::from_raw(Some(raw(2))), Some(Event::Other(2)));
    assert_eq!(Event::from_raw(Some(raw(25))), Some(Event::Other(25)));
    assert_eq!(Event::from_raw(Some(raw(99))), Some(Event::Other(99)));
}

#[test]
fn end_file_reads_its_record() {
    let mut ev = raw(7);
    ev.error = -4;
    ev.end_file = Some(RawEndFile { reason: 2, error: -13 });
    assert_eq!(Event::from_raw(Some(ev)), Some(Event::EndFile { reason: 2, error: -13 }));
}

#[test]
fn end_file_without_record_uses_event_error() {
    let mut ev = raw(7);
    ev.error = -4;
    assert_eq!(Event::from_raw(Some(ev)), Some(Event::EndFile { reason: 0, error: -4 }));
}

#[test]
fn property_change_without_data_is_dropped() {
    assert_eq!(Event::from_raw(Some(raw(22))), None);
}

#[test]
fn property_values_decode() {
    let cases = vec![
        (Some(RawValue::Text(Some("yes".to_string()))), PropertyValue::String("yes".to_string())),
        (Some(RawValue::Text(None)), PropertyValue::NoValue),
        (Some(RawValue::Flag(0)), PropertyValue::Flag(false)),
        (Some(RawValue::Flag(3)), PropertyValue::Flag(true)),
        (Some(RawValue::Int64(-9)), PropertyValue::Int64(-9)),
        (Some(RawValue::Double(2.5f64.to_bits())), PropertyValue::Double(2.5f64.to_bits())),
        (Some(RawValue::Unsupported), PropertyValue::NoValue),
        (None, PropertyValue::NoValue),
    ];
    for (value, expected) in cases {
        assert_eq!(
            Event::from_raw(Some(property(Some("pause"), value))),
            Some(Event::PropertyChange { id: 77, name: "pause".to_string(), value: expected })
        );
    }
}

#[test]
fn nameless_property_has_empty_name() {
    assert_eq!(
        Event::from_raw(Some(property(None, Some(RawValue::Int64(1))))),
        Some(Event::PropertyChange { id: 77, name: String::new(), value: PropertyValue::Int64(1) })
    );
}

#[test]
fn data_layout_follows_the_kind() {
    assert_eq!(Event::data_of(7), EventData::EndFile);
    assert_eq!(Event::data_of(22), EventData::Property);
    assert_eq!(Event::data_of(1), EventData::Ignored);
    assert_eq!(Event::data_of(-1), EventData::Ignored);
}

#[test]
fn value_layout_follows_the_format() {
    assert_eq!(PropertyValue::layout_of(MpvFormat::String.code()), ValueLayout::Text);
    assert_eq!(PropertyValue::layout_of(MpvFormat::OsdString.code()), ValueLayout::Text);
    assert_eq!(PropertyValue::layout_of(3), ValueLayout::Flag);
    assert_eq!(PropertyValue::layout_of(4), ValueLayout::Int64);
    assert_eq!(PropertyValue::layout_of(5), ValueLayout::Double);
    assert_eq!(PropertyValue::layout_of(6), ValueLayout::Unsupported);
    assert_eq!(PropertyValue::layout_of(0), ValueLayout::Unsupported);
    assert_eq!(PropertyValue::layout_of(42), ValueLayout::Unsupported);
}
