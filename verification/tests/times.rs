use folwup_core::feed::times::{convert_datetime, Timestamp};

#[test]
fn rfc3339_parses() {
    let r = convert_datetime("1970-01-01T00:00:01Z");
    assert_eq!(r, Some(Timestamp { secs: 1, nanos: 0 }));
}

#[test]
fn rfc3339_with_offset_resolves_to_utc() {
    let r = convert_datetime("1970-01-01T01:00:00+01:00");
    assert_eq!(r, Some(Timestamp { secs: 0, nanos: 0 }));
}

#[test]
fn rfc2822_fallback_parses() {
    let r = convert_datetime("Wed, 01 Jan 2020 00:00:00 GMT");
    assert_eq!(r, Some(Timestamp { secs: 1577836800, nanos: 0 }));
}

#[test]
fn rfc2822_with_offset_resolves_to_utc() {
    let r = convert_datetime("Wed, 01 Jan 2020 01:00:00 +0100");
    assert_eq!(r, Some(Timestamp { secs: 1577836800, nanos: 0 }));
}

#[test]
fn unparseable_text_yields_nothing() {
    assert_eq!(convert_datetime("not a date"), None);
    assert_eq!(convert_datetime(""), None);
    assert_eq!(convert_datetime("2020-13-45T99:99:99Z"), None);
}

#[test]
fn subsecond_precision_is_kept() {
    let r = convert_datetime("1970-01-01T00:00:00.500000000Z");
    assert_eq!(r, Some(Timestamp { secs: 0, nanos: 500000000 }));
}
