use cloudillo::calendar::caldav::{
    decode_sync_token, delete_outcome, depth, encode_sync_token, home_responses, last_segment,
    multiget_responses, multiget_uids, propfind_collection, put_resource, query_range,
    report_collection, resource_route, resource_uid, sync_limit, sync_responses, sync_since, sync_state,
    AskedHref, CollectionReport, MultiResponse, Namespace, Piece, PropName, Propfind, StoredObject, SyncEntry, Task,
};
use cloudillo::calendar::handler::{
    apply_event_patch, apply_todo_patch, create_calendar, create_object, list_objects,
    list_options, object_to_output, occurrence_at, patch_calendar, patch_exception, patch_object,
    put_exception, put_object, render_object, split_series, validate_cal_name, write_object,
};
use cloudillo::calendar::ical::{parse, parse_all_to_inputs, parse_to_input, ContentLine, OutLine, RawLine};
use cloudillo::calendar::ical_writer::{generate, generate_at};
use cloudillo::calendar::time::{
    choose_iso, date_to_unix, emit_dt, or_epoch, parse_caldav_dt, parse_dt, parse_iso,
    parse_iso_ts, ts_to_iso,
};
use cloudillo::calendar::types::{
    Alarm, Attendee, Calendar, CalendarCreate, CalendarObject, CalendarObjectExtracted,
    CalendarObjectInput, CalendarObjectPatch, CalendarPatch, EventInput, EventPatch,
    ListObjectsQuery, SplitSeriesRequest, TodoInput, TodoPatch,
};
use cloudillo::types::{Error, Patch, Timestamp};

/// A content line without escapes, from `NAME;PARAM=VALUE:value`.
fn line(s: &str) -> ContentLine {
    let (head, value) = match s.split_once(':') {
        Some(x) => x,
        None => return ContentLine { line: s.to_string(), parts: None },
    };
    let mut pieces = head.split(';');
    let name = pieces.next().unwrap_or("").to_string();
    let params = pieces
        .map(|p| match p.split_once('=') {
            Some((k, v)) => (k.to_string(), v.to_string()),
            None => (p.to_string(), String::new()),
        })
        .collect();
    ContentLine {
        line: s.to_string(),
        parts: Some(RawLine { name, params, value: value.to_string(), text: value.to_string() }),
    }
}

fn lines(text: &[&str]) -> Vec<ContentLine> {
    text.iter().map(|s| line(s)).collect()
}

/// The lines that are read where these were written.
fn carried(out: &[OutLine]) -> Vec<ContentLine> {
    out.iter()
        .map(|w| ContentLine {
            line: format!("{}:{}", w.name, w.value),
            parts: Some(RawLine {
                name: w.name.clone(),
                params: w.params.clone(),
                value: w.value.clone(),
                text: w.value.clone(),
            }),
        })
        .collect()
}

fn holds(out: &[OutLine], name: &str, value: &str) -> bool {
    out.iter().any(|l| l.name == name && l.value == value)
}

#[test]
fn parse_simple_vevent() {
    let ical = lines(&[
        "BEGIN:VCALENDAR",
        "VERSION:2.0",
        "PRODID:-//Test//EN",
        "BEGIN:VEVENT",
        "UID:test-123",
        "SUMMARY:Lunch",
        "LOCATION:Cafe",
        "DTSTART:20260419T120000Z",
        "DTEND:20260419T130000Z",
        "SEQUENCE:1",
        "END:VEVENT",
        "END:VCALENDAR",
    ]);
    let (extracted, uid, _) = parse(&ical).unwrap();
    assert_eq!(uid.as_deref(), Some("test-123"));
    assert_eq!(extracted.component, "VEVENT");
    assert_eq!(extracted.summary.as_deref(), Some("Lunch"));
    assert_eq!(extracted.location.as_deref(), Some("Cafe"));
    assert!(!extracted.all_day);
    assert!(extracted.dtstart.is_some());
    assert!(extracted.dtend.is_some());
    assert!(extracted.dtend.unwrap().0 > extracted.dtstart.unwrap().0);
    assert_eq!(extracted.sequence, 1);
}

#[test]
fn parse_all_day_event() {
    let ical = lines(&[
        "BEGIN:VCALENDAR",
        "VERSION:2.0",
        "BEGIN:VEVENT",
        "UID:x",
        "SUMMARY:Holiday",
        "DTSTART;VALUE=DATE:20260419",
        "DTEND;VALUE=DATE:20260420",
        "END:VEVENT",
        "END:VCALENDAR",
    ]);
    let (extracted, _, _) = parse(&ical).unwrap();
    assert!(extracted.all_day);
    assert!(extracted.dtstart.is_some());
}

#[test]
fn parse_vtodo() {
    let ical = lines(&[
        "BEGIN:VCALENDAR",
        "VERSION:2.0",
        "BEGIN:VTODO",
        "UID:task-1",
        "SUMMARY:Buy milk",
        "DUE;VALUE=DATE:20260420",
        "PRIORITY:3",
        "STATUS:NEEDS-ACTION",
        "END:VTODO",
        "END:VCALENDAR",
    ]);
    let (extracted, uid, _) = parse(&ical).unwrap();
    assert_eq!(uid.as_deref(), Some("task-1"));
    assert_eq!(extracted.component, "VTODO");
    assert_eq!(extracted.priority, Some(3));
    assert_eq!(extracted.status.as_deref(), Some("NEEDS-ACTION"));
    assert!(extracted.dtend.is_some()); // DUE maps to dtend
}

fn series() -> Vec<ContentLine> {
    lines(&[
        "BEGIN:VCALENDAR",
        "VERSION:2.0",
        "BEGIN:VEVENT",
        "UID:r1",
        "SUMMARY:Daily",
        "DTSTART:20260101T090000Z",
        "RRULE:FREQ=DAILY;COUNT=5",
        "END:VEVENT",
        "BEGIN:VEVENT",
        "UID:r1",
        "SUMMARY:Daily (override)",
        "DTSTART:20260103T100000Z",
        "RECURRENCE-ID:20260103T090000Z",
        "END:VEVENT",
        "END:VCALENDAR",
    ])
}

#[test]
fn parse_recurring_event_with_override() {
    let (extracted, _, _) = parse(&series()).unwrap();
    // The series wins over the changed occurrence.
    assert_eq!(extracted.summary.as_deref(), Some("Daily"));
    assert!(extracted.rrule.is_some());
    assert!(extracted.recurrence_id.is_none());
}

#[test]
fn roundtrip_event() {
    let input = CalendarObjectInput {
        uid: Some("gen-1".into()),
        recurrence_id: None,
        event: Some(EventInput {
            summary: Some("Gen Test".into()),
            dtstart: Some("2026-05-01T09:00:00Z".into()),
            dtend: Some("2026-05-01T10:00:00Z".into()),
            ..EventInput::default()
        }),
        todo: None,
    };
    let generated = generate(&input);
    assert!(holds(&generated, "BEGIN", "VCALENDAR"));
    assert!(holds(&generated, "BEGIN", "VEVENT"));
    assert!(holds(&generated, "UID", "gen-1"));
    assert!(holds(&generated, "SUMMARY", "Gen Test"));
    let (extracted, uid, _) = parse(&carried(&generated)).unwrap();
    assert_eq!(uid.as_deref(), Some("gen-1"));
    assert_eq!(extracted.summary.as_deref(), Some("Gen Test"));
}

#[test]
fn date_to_unix_matches_epoch() {
    assert_eq!(date_to_unix(1970, 1, 1), Some(0));
    // 2026-04-19 is 56*365 + 14 (leap days) + 31+28+31+18 = 20562 days.
    assert_eq!(date_to_unix(2026, 4, 19), Some(20_562 * 86400));
}

#[test]
fn iso_parse_tz_offset() {
    assert_eq!(
        parse_iso("2026-05-01T09:00:00Z"),
        Some((date_to_unix(2026, 5, 1).unwrap() + 9 * 3600, false))
    );
    assert_eq!(
        parse_iso("2026-05-01T09:00:00+02:00"),
        Some((date_to_unix(2026, 5, 1).unwrap() + 7 * 3600, false))
    );
    // An offset without a colon.
    assert_eq!(
        parse_iso("2026-05-01T09:00:00+0200"),
        Some((date_to_unix(2026, 5, 1).unwrap() + 7 * 3600, false))
    );
    // Fractional seconds must not cost the offset.
    assert_eq!(
        parse_iso("2026-05-01T09:00:00.123+0200"),
        Some((date_to_unix(2026, 5, 1).unwrap() + 7 * 3600, false))
    );
    assert_eq!(
        parse_iso("2026-05-01T09:00:00.123+02:00"),
        Some((date_to_unix(2026, 5, 1).unwrap() + 7 * 3600, false))
    );
}

#[test]
fn iso_multibyte_boundary_does_not_panic() {
    // 20 bytes; byte 19 falls inside a two-byte character.
    assert_eq!(parse_iso("aaaaaaaaaaaaaaaaaa\u{e9}"), None);
}

#[test]
fn parse_dt_keeps_leap_second() {
    assert!(parse_dt("20260630T235960Z", false).is_some());
}

#[test]
fn emit_dt_uses_z() {
    let s = emit_dt(Timestamp(date_to_unix(2026, 4, 19).unwrap() + 12 * 3600), false);
    assert_eq!(s, "20260419T120000Z");
}

#[test]
fn date_to_unix_rejects_invalid_days() {
    assert_eq!(date_to_unix(2026, 2, 30), None);
    assert_eq!(date_to_unix(2026, 4, 31), None);
    assert_eq!(date_to_unix(2026, 6, 31), None);
    assert_eq!(date_to_unix(2026, 9, 31), None);
    assert_eq!(date_to_unix(2026, 11, 31), None);
    // Non-leap year: Feb 29 is invalid
    assert_eq!(date_to_unix(2025, 2, 29), None);
    // Leap year (div by 4): Feb 29 is valid
    assert!(date_to_unix(2024, 2, 29).is_some());
    // Century non-leap year: Feb 29 invalid
    assert_eq!(date_to_unix(2100, 2, 29), None);
    // 400-year leap: Feb 29 valid
    assert!(date_to_unix(2000, 2, 29).is_some());
}

#[test]
fn parse_dt_rejects_invalid_days() {
    assert_eq!(parse_dt("20260230", true), None);
    assert_eq!(parse_dt("20260431", true), None);
    assert_eq!(parse_dt("20250229", true), None);
    assert!(parse_dt("20240229", true).is_some());
}

#[test]
fn sync_token_roundtrip() {
    let t = encode_sync_token(1_700_000_000);
    assert_eq!(decode_sync_token(&t), Some(1_700_000_000));
    assert_eq!(decode_sync_token("urn:cloudillo:sync:abc"), None);
}

#[test]
fn parse_caldav_dt_handles_basic_and_date() {
    assert!(parse_caldav_dt("20260401T000000Z").is_some());
    assert!(parse_caldav_dt("20260401").is_some());
    assert!(parse_caldav_dt("garbage").is_none());
}

#[test]
fn parse_to_input_preserves_full_event() {
    let original = CalendarObjectInput {
        uid: Some("full-1".into()),
        recurrence_id: None,
        event: Some(EventInput {
            summary: Some("Team sync".into()),
            description: Some("Quarterly planning. Bring notes.".into()),
            location: Some("Room A".into()),
            dtstart: Some("2026-05-10T09:00:00Z".into()),
            dtend: Some("2026-05-10T10:00:00Z".into()),
            all_day: false,
            rrule: None,
            exdate: vec![],
            status: Some("CONFIRMED".into()),
            organizer: Some("mailto:alice@example.org".into()),
            attendees: vec![
                Attendee {
                    address: "mailto:bob@example.org".into(),
                    cn: Some("Bob".into()),
                    partstat: Some("ACCEPTED".into()),
                    role: Some("REQ-PARTICIPANT".into()),
                    rsvp: Some(true),
                },
                Attendee {
                    address: "mailto:carol@example.org".into(),
                    cn: Some("Carol".into()),
                    partstat: Some("NEEDS-ACTION".into()),
                    role: None,
                    rsvp: None,
                },
            ],
            categories: vec!["work".into(), "planning".into()],
            alarms: vec![Alarm {
                action: Some("DISPLAY".into()),
                trigger: Some("-PT15M".into()),
                description: Some("Reminder".into()),
            }],
        }),
        todo: None,
    };

    let written = carried(&generate(&original));
    let (parsed, _warnings) = parse_to_input(&written).expect("parse_to_input failed");
    let ev = parsed.event.expect("missing event");
    assert_eq!(parsed.uid.as_deref(), Some("full-1"));
    assert_eq!(ev.summary.as_deref(), Some("Team sync"));
    assert_eq!(ev.description.as_deref(), Some("Quarterly planning. Bring notes."));
    assert_eq!(ev.location.as_deref(), Some("Room A"));
    assert_eq!(ev.dtstart.as_deref(), Some("2026-05-10T09:00:00Z"));
    assert_eq!(ev.dtend.as_deref(), Some("2026-05-10T10:00:00Z"));
    assert_eq!(ev.status.as_deref(), Some("CONFIRMED"));
    assert_eq!(ev.attendees.len(), 2);
    assert_eq!(ev.attendees[0].address, "mailto:bob@example.org");
    assert_eq!(ev.attendees[0].cn.as_deref(), Some("Bob"));
    assert_eq!(ev.attendees[0].partstat.as_deref(), Some("ACCEPTED"));
    assert_eq!(ev.attendees[0].rsvp, Some(true));
    assert_eq!(ev.categories, vec!["work".to_string(), "planning".into()]);
    assert_eq!(ev.alarms.len(), 1);
    assert_eq!(ev.alarms[0].action.as_deref(), Some("DISPLAY"));
    assert_eq!(ev.alarms[0].trigger.as_deref(), Some("-PT15M"));
    assert_eq!(ev.alarms[0].description.as_deref(), Some("Reminder"));
}

fn review() -> CalendarObjectInput {
    CalendarObjectInput {
        uid: Some("resize-me".into()),
        recurrence_id: None,
        event: Some(EventInput {
            summary: Some("Design review".into()),
            description: Some("Review the new onboarding flow.".into()),
            location: Some("Zoom".into()),
            dtstart: Some("2026-04-23T20:00:00Z".into()),
            dtend: Some("2026-04-23T22:00:00Z".into()),
            all_day: false,
            rrule: None,
            exdate: vec![],
            status: Some("CONFIRMED".into()),
            organizer: Some("mailto:dana@example.org".into()),
            attendees: vec![Attendee {
                address: "mailto:eve@example.org".into(),
                cn: Some("Eve".into()),
                partstat: Some("ACCEPTED".into()),
                role: Some("REQ-PARTICIPANT".into()),
                rsvp: Some(true),
            }],
            categories: vec!["work".into()],
            alarms: vec![Alarm {
                action: Some("DISPLAY".into()),
                trigger: Some("-PT10M".into()),
                description: Some("Heads up".into()),
            }],
        }),
        todo: None,
    }
}

#[test]
fn patch_event_dtstart_dtend_preserves_other_fields() {
    let stored = carried(&generate(&review()));
    let (mut merged, _) = parse_to_input(&stored).unwrap();

    let patch = EventPatch { dtend: Some("2026-04-23T08:24:00Z".into()), ..EventPatch::default() };
    apply_event_patch(merged.event.as_mut().unwrap(), patch);

    let ev = merged.event.as_ref().unwrap();
    assert_eq!(ev.dtstart.as_deref(), Some("2026-04-23T20:00:00Z"));
    assert_eq!(ev.dtend.as_deref(), Some("2026-04-23T08:24:00Z"));
    assert_eq!(ev.description.as_deref(), Some("Review the new onboarding flow."));
    assert_eq!(ev.location.as_deref(), Some("Zoom"));
    assert_eq!(ev.summary.as_deref(), Some("Design review"));
    assert_eq!(ev.attendees.len(), 1);
    assert_eq!(ev.attendees[0].address, "mailto:eve@example.org");
    assert_eq!(ev.alarms.len(), 1);
    assert_eq!(ev.alarms[0].trigger.as_deref(), Some("-PT10M"));
    assert_eq!(ev.categories, vec!["work".to_string()]);

    let (reparsed, _) = parse_to_input(&carried(&generate(&merged))).unwrap();
    let ev2 = reparsed.event.unwrap();
    assert_eq!(ev2.dtend.as_deref(), Some("2026-04-23T08:24:00Z"));
    assert_eq!(ev2.description.as_deref(), Some("Review the new onboarding flow."));
    assert_eq!(ev2.attendees.len(), 1);
    assert_eq!(ev2.alarms.len(), 1);
}

#[test]
fn patch_event_empty_vec_clears_list() {
    let mut target = EventInput {
        attendees: vec![Attendee { address: "mailto:x@y".into(), ..Attendee::default() }],
        categories: vec!["a".into()],
        alarms: vec![Alarm { action: Some("DISPLAY".into()), ..Alarm::default() }],
        ..EventInput::default()
    };
    let patch = EventPatch {
        attendees: Some(Vec::new()),
        categories: Some(Vec::new()),
        alarms: Some(Vec::new()),
        ..EventPatch::default()
    };
    apply_event_patch(&mut target, patch);
    assert!(target.attendees.is_empty());
    assert!(target.categories.is_empty());
    assert!(target.alarms.is_empty());
}

fn milk() -> CalendarObjectInput {
    CalendarObjectInput {
        uid: Some("todo-1".into()),
        recurrence_id: None,
        event: None,
        todo: Some(TodoInput {
            summary: Some("Buy milk".into()),
            description: Some("2% fat, 2L.".into()),
            dtstart: None,
            due: Some("2026-04-25T00:00:00Z".into()),
            completed: None,
            priority: Some(5),
            status: Some("NEEDS-ACTION".into()),
            rrule: None,
            categories: vec!["errands".into()],
            alarms: vec![],
        }),
    }
}

#[test]
fn patch_todo_priority_only_preserves_description() {
    let stored = carried(&generate(&milk()));
    let (mut merged, _) = parse_to_input(&stored).unwrap();
    apply_todo_patch(
        merged.todo.as_mut().unwrap(),
        TodoPatch { priority: Some(1), ..TodoPatch::default() },
    );
    let td = merged.todo.as_ref().unwrap();
    assert_eq!(td.priority, Some(1));
    assert_eq!(td.summary.as_deref(), Some("Buy milk"));
    assert_eq!(td.description.as_deref(), Some("2% fat, 2L."));
    assert_eq!(td.due.as_deref(), Some("2026-04-25T00:00:00Z"));
    assert_eq!(td.categories, vec!["errands".to_string()]);
}

// Dates and times

#[test]
fn dates_and_times_read_exactly() {
    let day = date_to_unix(2026, 4, 19).unwrap();
    assert_eq!(parse_dt("20260419", false), Some((day, true)));
    assert_eq!(parse_dt(" 20260419T010203 ", false), Some((day + 3723, false)));
    assert_eq!(parse_dt("20260419T010203Z", true), Some((day, true)));
    assert_eq!(parse_dt("20260419T240000Z", false), None);
    assert_eq!(parse_dt("20260419T0102", false), None);
    assert_eq!(parse_dt("2026041", false), None);
    // A leap second counts as the second before it, but bounds no search.
    assert_eq!(parse_dt("20260419T235960Z", false), Some((day + 86399, false)));
    assert_eq!(parse_caldav_dt("20260419T235960Z"), None);
    // A character of two bytes behind the date.
    assert_eq!(parse_dt("20260419\u{e9}010203", false), None);
    // A sign is read where a number is read.
    assert_eq!(parse_dt("+0260101", true), date_to_unix(26, 1, 1).map(|t| (t, true)));
}

#[test]
fn times_survive_being_written() {
    for ts in [0, 951_782_400, 1_776_600_000, -62_167_219_200, 253_402_300_799] {
        let t = Timestamp(ts);
        assert_eq!(parse_dt(&emit_dt(t, false), false), Some((ts, false)));
        assert_eq!(parse_iso(&ts_to_iso(t, false)), Some((ts, false)));
        let day = ts - ts.rem_euclid(86_400);
        assert_eq!(parse_dt(&emit_dt(t, true), true), Some((day, true)));
        assert_eq!(parse_iso(&ts_to_iso(t, true)), Some((day, true)));
    }
    assert_eq!(ts_to_iso(Timestamp(0), false), "1970-01-01T00:00:00Z");
    assert_eq!(ts_to_iso(Timestamp(86_400), true), "1970-01-02");
    // Out of range, the epoch stands in.
    assert_eq!(emit_dt(Timestamp(i64::MAX), false), "19700101T000000Z");
    assert_eq!(ts_to_iso(Timestamp(i64::MIN), true), "1970-01-01");
    assert_eq!(or_epoch(None, Some("e".to_string())), "e");
    assert_eq!(or_epoch(Some("t".to_string()), Some("e".to_string())), "t");
}

#[test]
fn iso_texts_are_weighed_in_order() {
    let t = "2026-05-01T09:00:00Z";
    assert_eq!(choose_iso(t, None, Some(1), Some(2), Some(3)), Some((1, false)));
    assert_eq!(choose_iso(t, None, None, Some(2), Some(3)), Some((2, false)));
    assert_eq!(choose_iso(t, Some(9), None, None, Some(3)), Some((3, false)));
    assert_eq!(choose_iso(t, Some(9), None, None, None), None);
    assert_eq!(choose_iso("2026-05-01", Some(9), Some(1), None, None), Some((9, true)));
    assert_eq!(choose_iso("2026-05-01", None, Some(1), None, None), None);
    assert_eq!(choose_iso("2026-05-01T09", Some(9), Some(1), None, None), None);
    // A time without an offset is UTC; what stands behind its 19 bytes is passed over.
    let at = date_to_unix(2026, 5, 1).unwrap() + 9 * 3600;
    assert_eq!(parse_iso("2026-05-01T09:00:00"), Some((at, false)));
    assert_eq!(parse_iso("2026-05-01T09:00:00 local"), Some((at, false)));
    assert_eq!(parse_iso_ts("2026-05-01"), Some(Timestamp(at - 9 * 3600)));
    assert_eq!(parse_iso_ts("2026-05-01T09:00:00Z"), Some(Timestamp(at)));
    assert_eq!(parse_iso_ts("2026-05-01T09:00:00"), None);
}

// Reading

#[test]
fn trouble_is_told() {
    let ical = lines(&["BEGIN:VEVENT", "no content line", "   ", "END:VTODO", "END:VEVENT"]);
    let (_, uid, warnings) = parse(&ical).unwrap();
    assert_eq!(uid, None);
    assert_eq!(
        warnings,
        vec!["malformed line: no content line".to_string(), "unbalanced END:VTODO".to_string()]
    );
    let long = "x".repeat(100);
    let (_, w) = parse_all_to_inputs(&lines(&[&long]));
    assert_eq!(w, vec![format!("malformed line: {}", "x".repeat(80))]);
    assert!(parse(&lines(&["BEGIN:VCALENDAR", "END:VCALENDAR"])).is_none());
    assert!(parse_to_input(&lines(&[])).is_none());
}

#[test]
fn series_come_before_their_occurrences() {
    let mut all = series();
    // The changed occurrence first.
    let tail: Vec<ContentLine> = all.drain(8..14).collect();
    for (i, l) in tail.into_iter().enumerate() {
        all.insert(2 + i, l);
    }
    let (inputs, warnings) = parse_all_to_inputs(&all);
    assert!(warnings.is_empty());
    assert_eq!(inputs.len(), 2);
    assert_eq!(inputs[0].recurrence_id, None);
    assert_eq!(inputs[1].recurrence_id.as_deref(), Some("2026-01-03T09:00:00Z"));
    let (x, _, _) = parse(&all).unwrap();
    assert_eq!(x.summary.as_deref(), Some("Daily"));
}

#[test]
fn lists_and_keywords_are_cleaned() {
    let ical = lines(&[
        "BEGIN:vevent",
        "STATUS: confirmed ",
        "CATEGORIES: a ,, b",
        "EXDATE;VALUE=date:20260101,bad,20260102",
        "PRIORITY:999",
        "SEQUENCE:x",
        "ATTENDEE;CN=Bob;RSVP=true:mailto:bob",
        "BEGIN:VALARM",
        "ACTION: display",
        "DESCRIPTION:ring",
        "END:VALARM",
        "END:VEVENT",
    ]);
    let (input, _) = parse_to_input(&ical).unwrap();
    let ev = input.event.unwrap();
    assert_eq!(ev.status.as_deref(), Some("CONFIRMED"));
    assert_eq!(ev.categories, vec!["a".to_string(), "b".to_string()]);
    assert_eq!(ev.exdate, vec!["2026-01-01".to_string(), "2026-01-02".to_string()]);
    assert_eq!(ev.attendees[0].rsvp, Some(true));
    assert_eq!(ev.alarms[0].action.as_deref(), Some("DISPLAY"));
    assert_eq!(ev.description, None);
    let (x, _, _) = parse(&ical).unwrap();
    assert_eq!(x.priority, None);
    assert_eq!(x.sequence, 0);
    // The properties of a reminder are none of the event's.
    assert_eq!(x.description, None);
}

#[test]
fn reminders_leave_their_event_alone() {
    let ical = lines(&[
        "BEGIN:VCALENDAR",
        "BEGIN:VEVENT",
        "UID:u1",
        "DESCRIPTION:Agenda",
        "BEGIN:VALARM",
        "ACTION:DISPLAY",
        "DESCRIPTION:Reminder",
        "END:VALARM",
        "BEGIN:PARTICIPANT",
        "SUMMARY:Somebody",
        "END:PARTICIPANT",
        "LOCATION:Here",
        "END:VEVENT",
        "END:VCALENDAR",
    ]);
    let (x, uid, warnings) = parse(&ical).unwrap();
    assert_eq!(uid.as_deref(), Some("u1"));
    assert_eq!(x.component, "VEVENT");
    assert_eq!(x.description.as_deref(), Some("Agenda"));
    assert_eq!(x.summary, None);
    assert_eq!(x.location.as_deref(), Some("Here"));
    assert!(warnings.is_empty());
    let (input, _) = parse_to_input(&ical).unwrap();
    let ev = input.event.unwrap();
    assert_eq!(ev.description.as_deref(), Some("Agenda"));
    assert_eq!(ev.alarms[0].description.as_deref(), Some("Reminder"));
}

#[test]
fn escaped_commas_belong_to_a_category() {
    let categories = |value: &str, text: &str| {
        let mut ical = lines(&["BEGIN:VEVENT"]);
        ical.push(ContentLine {
            line: format!("CATEGORIES:{value}"),
            parts: Some(RawLine {
                name: "CATEGORIES".into(),
                params: vec![],
                value: value.into(),
                text: text.into(),
            }),
        });
        ical.push(line("END:VEVENT"));
        parse_to_input(&ical).unwrap().0.event.unwrap().categories
    };
    assert_eq!(categories("a\\,b,c", "a,b,c"), vec!["a,b".to_string(), "c".into()]);
    assert_eq!(categories("a\\\\,b", "a\\,b"), vec!["a\\".to_string(), "b".into()]);
    assert_eq!(categories("x\\;y\\nz, ,", "x;y\nz, ,"), vec!["x;y\nz".to_string()]);
    assert_eq!(categories("end\\", "end\\"), vec!["end\\".to_string()]);
}

#[test]
fn written_objects_come_back() {
    let input = CalendarObjectInput {
        uid: Some("u".into()),
        recurrence_id: Some("2026-05-10".into()),
        event: Some(EventInput {
            dtstart: Some("2026-05-10".into()),
            dtend: Some("2026-05-12".into()),
            all_day: true,
            rrule: Some("FREQ=DAILY".into()),
            exdate: vec!["2026-05-11".into(), "2024-02-29".into()],
            categories: vec!["a".into(), "b, c".into(), "d\\;e\nf".into()],
            ..EventInput::default()
        }),
        todo: None,
    };
    let (back, warnings) = parse_to_input(&carried(&generate(&input))).unwrap();
    assert_eq!(back.recurrence_id.as_deref(), Some("2026-05-10"));
    let (was, is) = (input.event.unwrap(), back.event.unwrap());
    assert_eq!(is.dtstart, was.dtstart);
    assert_eq!(is.dtend, was.dtend);
    assert!(is.all_day);
    assert_eq!(is.exdate, was.exdate);
    assert_eq!(is.rrule, was.rrule);
    assert_eq!(is.categories, was.categories);
    assert!(warnings.is_empty());
    let todo = CalendarObjectInput {
        uid: Some("t".into()),
        recurrence_id: None,
        event: None,
        todo: Some(TodoInput {
            dtstart: Some("0000-01-01".into()),
            due: Some("9999-12-31T23:59:59Z".into()),
            ..TodoInput::default()
        }),
    };
    let (back, _) = parse_to_input(&carried(&generate(&todo))).unwrap();
    let is = back.todo.unwrap();
    assert_eq!(is.dtstart.as_deref(), Some("0000-01-01"));
    assert_eq!(is.due.as_deref(), Some("9999-12-31T23:59:59Z"));
}

#[test]
fn days_are_numbered() {
    assert_eq!(date_to_unix(2000, 2, 29), Some(951_782_400));
    assert_eq!(date_to_unix(1900, 2, 29), None);
    assert_eq!(date_to_unix(1969, 12, 31), Some(-86_400));
    assert_eq!(date_to_unix(0, 1, 1), Some(-62_167_219_200));
    assert_eq!(date_to_unix(-4, 2, 29), Some(-62_288_352_000));
    assert_eq!(date_to_unix(262_142, 12, 31), Some(8_210_266_790_400));
    assert_eq!(date_to_unix(-262_143, 1, 1), Some(-8_334_601_228_800));
    assert_eq!(date_to_unix(262_143, 1, 1), None);
    assert_eq!(date_to_unix(-262_144, 12, 31), None);
    assert_eq!(date_to_unix(2026, 0, 1), None);
    assert_eq!(date_to_unix(2026, 4, 31), None);
}

#[test]
fn a_written_task_is_exact() {
    let out = generate_at(&milk(), Timestamp(0));
    let text: Vec<String> = out
        .iter()
        .map(|l| {
            let params: Vec<String> = l.params.iter().map(|(k, v)| format!(";{k}={v}")).collect();
            format!("{}{}:{}", l.name, params.join(""), l.value)
        })
        .collect();
    assert_eq!(
        text,
        vec![
            "BEGIN:VCALENDAR",
            "VERSION:2.0",
            "PRODID:-//Cloudillo//Calendar//EN",
            "CALSCALE:GREGORIAN",
            "BEGIN:VTODO",
            "UID:todo-1",
            "DTSTAMP:19700101T000000Z",
            "SUMMARY:Buy milk",
            "DESCRIPTION:2% fat, 2L.",
            "DUE:20260425T000000Z",
            "PRIORITY:5",
            "STATUS:NEEDS-ACTION",
            "CATEGORIES:errands",
            "END:VTODO",
            "END:VCALENDAR",
        ]
    );
    assert!(!out.iter().any(|l| l.name == "SUMMARY" && l.verbatim));
    assert!(out.iter().any(|l| l.name == "STATUS" && l.verbatim));
}

#[test]
fn whole_days_and_unreadable_times_are_written() {
    let input = CalendarObjectInput {
        event: Some(EventInput {
            dtstart: Some("2026-05-01".into()),
            dtend: Some("soon".into()),
            exdate: vec!["2026-05-08T09:00:00Z".into()],
            ..EventInput::default()
        }),
        ..CalendarObjectInput::default()
    };
    let out = generate_at(&input, Timestamp(0));
    let start = out.iter().find(|l| l.name == "DTSTART").unwrap();
    assert_eq!(start.value, "20260501");
    assert_eq!(start.params, vec![("VALUE".to_string(), "DATE".to_string())]);
    assert!(holds(&out, "DTEND", "soon"));
    assert!(holds(&out, "EXDATE", "20260508T090000Z"));
}

// The structured interface

fn invalid(m: &str) -> Option<String> {
    Some(m.to_string())
}

fn validation<T>(r: Result<T, Error>) -> Option<String> {
    match r {
        Err(Error::ValidationError(m)) => Some(m),
        _ => None,
    }
}

fn row(co_id: u64) -> CalendarObject {
    CalendarObject {
        co_id,
        cal_id: 7,
        uid: format!("u{co_id}"),
        etag: "e".into(),
        extracted: CalendarObjectExtracted {
            component: "VEVENT".into(),
            summary: Some("S".into()),
            location: None,
            description: None,
            dtstart: Some(Timestamp(0)),
            dtend: None,
            all_day: true,
            status: None,
            priority: None,
            organizer: None,
            rrule: Some("FREQ=DAILY".into()),
            exdate: vec![Timestamp(86_400)],
            recurrence_id: None,
            sequence: 0,
        },
        created_at: Timestamp(1),
        updated_at: Timestamp(2),
    }
}

#[test]
fn objects_are_shown() {
    let out = object_to_output(&row(1), &series());
    assert_eq!(out.dtstart.as_deref(), Some("1970-01-01"));
    assert_eq!(out.exdate, Some(vec!["1970-01-02".to_string()]));
    assert_eq!(out.parse_error, None);
    let out = object_to_output(&row(1), &lines(&[]));
    assert_eq!(out.parse_error.as_deref(), Some("unparseable stored iCalendar"));
    let out = object_to_output(&row(1), &lines(&["END:A", "BEGIN:VEVENT", "END:B", "END:VEVENT"]));
    assert_eq!(out.parse_error.as_deref(), Some("unbalanced END:A; unbalanced END:B"));
}

#[test]
fn calendar_names_are_checked() {
    assert!(validate_cal_name("Work").is_ok());
    assert_eq!(validation(validate_cal_name("")), invalid("name required"));
    assert_eq!(validation(validate_cal_name(&"\u{e9}".repeat(65))), invalid("name too long"));
    assert!(validate_cal_name(&"\u{e9}".repeat(64)).is_ok());
    for bad in ["a/b", "a\\b", "a\nb", "a\u{85}b"] {
        assert_eq!(
            validation(validate_cal_name(bad)),
            invalid("name contains invalid character")
        );
    }
    let made = create_calendar(CalendarCreate {
        name: " Home ".into(),
        components: Some(vec!["VEVENT".into(), "VTODO".into()]),
        ..CalendarCreate::default()
    })
    .unwrap();
    assert_eq!(made.name, "Home");
    assert_eq!(made.components.as_deref(), Some("VEVENT,VTODO"));
    let change = patch_calendar(CalendarPatch {
        name: Patch::Value(" New ".into()),
        description: Patch::Null,
        color: Patch::Undefined,
        timezone: Patch::Undefined,
        components: Patch::Value(vec!["VTODO".into()]),
    })
    .unwrap();
    assert_eq!(change.name, Patch::Value("New".to_string()));
    assert_eq!(change.description, Patch::Null);
    assert_eq!(change.components, Patch::Value("VTODO".to_string()));
    let empty = patch_calendar(CalendarPatch {
        name: Patch::Value("  ".into()),
        description: Patch::Undefined,
        color: Patch::Undefined,
        timezone: Patch::Undefined,
        components: Patch::Undefined,
    });
    assert_eq!(validation(empty), invalid("name required"));
}

#[test]
fn listings_are_paged() {
    let rows: Vec<CalendarObject> = (1..=3).map(row).collect();
    let page = list_objects(&rows, Some(2));
    assert!(page.has_more);
    assert_eq!(page.items.len(), 2);
    assert_eq!(page.next_cursor.as_deref(), Some("2"));
    let page = list_objects(&rows, Some(3));
    assert!(!page.has_more);
    assert_eq!(page.next_cursor, None);
    assert_eq!(list_objects(&rows, None).items.len(), 3);
    assert_eq!(list_objects(&rows, Some(0)).items.len(), 0);
    let o = list_options(ListObjectsQuery {
        start: Some("1970-01-02".into()),
        end: Some("soon".into()),
        ..ListObjectsQuery::default()
    });
    assert_eq!(o.start, Some(Timestamp(86_400)));
    assert_eq!(o.end, None);
}

#[test]
fn objects_get_identifiers() {
    let empty = CalendarObjectInput::default();
    assert_eq!(validation(write_object(empty, "m".into())), invalid("event or todo required"));
    let w = write_object(milk(), "minted".into()).unwrap();
    assert_eq!(w.uid, "todo-1");
    let mut nameless = milk();
    nameless.uid = Some(String::new());
    let w = create_object(true, nameless, "minted".into()).unwrap();
    assert_eq!(w.uid, "minted");
    assert_eq!(w.input.uid.as_deref(), Some("minted"));
    assert!(matches!(create_object(false, milk(), "m".into()), Err(Error::NotFound)));
    let w = put_object(true, "other".into(), milk(), "m".into()).unwrap();
    assert_eq!(w.uid, "other");
    assert!(matches!(put_object(false, "o".into(), milk(), "m".into()), Err(Error::NotFound)));
    let x = render_object(&carried(&generate(&milk()))).unwrap();
    assert_eq!(x.component, "VTODO");
    assert!(matches!(render_object(&lines(&[])), Err(Error::Internal(_))));
}

#[test]
fn patches_go_to_their_component() {
    let stored = carried(&generate(&review()));
    let event = CalendarObjectPatch {
        event: Some(EventPatch { summary: Some("New".into()), ..EventPatch::default() }),
        todo: None,
    };
    let todo = CalendarObjectPatch { event: None, todo: Some(TodoPatch::default()) };
    let merged = patch_object(true, Some(&stored), "u", event.clone()).unwrap();
    assert_eq!(merged.uid.as_deref(), Some("u"));
    assert_eq!(merged.event.unwrap().summary.as_deref(), Some("New"));
    assert_eq!(
        validation(patch_object(true, Some(&stored), "u", todo.clone())),
        invalid("patch component does not match stored object")
    );
    let nothing = CalendarObjectPatch::default();
    let same = patch_object(true, Some(&stored), "u", nothing.clone()).unwrap();
    assert_eq!(same.event.unwrap().summary.as_deref(), Some("Design review"));
    assert!(matches!(patch_object(true, None, "u", nothing.clone()), Err(Error::NotFound)));
    assert!(matches!(
        patch_object(false, Some(&stored), "u", nothing.clone()),
        Err(Error::NotFound)
    ));
    let unreadable = lines(&[]);
    assert!(matches!(
        patch_object(true, Some(&unreadable), "u", nothing),
        Err(Error::Internal(_))
    ));
    // One changed occurrence.
    let rid = "2026-04-23T20:00:00Z";
    let o = patch_exception(true, Some(&stored), "u", rid, event.clone()).unwrap();
    assert_eq!(o.recurrence_id.as_deref(), Some(rid));
    assert_eq!(
        validation(patch_exception(true, Some(&stored), "u", "x", event)),
        invalid("invalid recurrence_id")
    );
    assert!(matches!(patch_exception(true, None, "u", rid, todo), Err(Error::NotFound)));
}

#[test]
fn occurrences_are_named_by_their_address() {
    assert_eq!(occurrence_at("1970-01-02").unwrap(), Timestamp(86_400));
    assert_eq!(validation(occurrence_at("x")), invalid("invalid recurrence_id"));
    let w = put_exception(true, "u", "1970-01-02", review(), "m".into()).unwrap();
    assert_eq!(w.uid, "u");
    assert_eq!(w.input.recurrence_id.as_deref(), Some("1970-01-02"));
    assert!(matches!(
        put_exception(false, "u", "1970-01-02", review(), "m".into()),
        Err(Error::NotFound)
    ));
    assert_eq!(
        validation(put_exception(true, "u", "x", review(), "m".into())),
        invalid("invalid recurrence_id")
    );
}

#[test]
fn series_are_split() {
    let stored = series();
    let x = row(1).extracted;
    let ask = |tail: CalendarObjectInput, at: &str| SplitSeriesRequest {
        split_at: at.to_string(),
        master_patch: CalendarObjectPatch {
            event: Some(EventPatch {
                rrule: Some("FREQ=DAILY;UNTIL=20260102".into()),
                ..EventPatch::default()
            }),
            todo: None,
        },
        tail,
    };
    let at = "2026-01-03T09:00:00Z";
    let plan = split_series(true, Some((&x, &stored)), "r1", ask(review(), at), "tail".into())
        .unwrap();
    assert_eq!(plan.master.uid.as_deref(), Some("r1"));
    assert_eq!(
        plan.master.event.unwrap().rrule.as_deref(),
        Some("FREQ=DAILY;UNTIL=20260102")
    );
    assert_eq!(plan.tail.uid.as_deref(), Some("tail"));
    assert_eq!(plan.tail_uid, "tail");
    assert_eq!(Some(plan.split_at), parse_iso_ts(at));

    let m = || "tail".to_string();
    assert!(matches!(
        split_series(false, Some((&x, &stored)), "r1", ask(review(), at), m()),
        Err(Error::NotFound)
    ));
    assert_eq!(
        validation(split_series(true, None, "r1", ask(review(), "x"), m())),
        invalid("invalid splitAt")
    );
    assert!(matches!(
        split_series(true, None, "r1", ask(review(), at), m()),
        Err(Error::NotFound)
    ));
    let mut single = row(1).extracted;
    single.rrule = None;
    assert_eq!(
        validation(split_series(true, Some((&single, &stored)), "r1", ask(review(), at), m())),
        invalid("object is not a recurring series")
    );
    let empty = CalendarObjectInput::default();
    assert_eq!(
        validation(split_series(true, Some((&x, &stored)), "r1", ask(empty, at), m())),
        invalid("tail event or todo required")
    );
    let mut wrong = ask(review(), at);
    wrong.master_patch = CalendarObjectPatch { event: None, todo: Some(TodoPatch::default()) };
    assert_eq!(
        validation(split_series(true, Some((&x, &stored)), "r1", wrong, m())),
        invalid("master patch component does not match stored object")
    );
}

// CalDAV

fn markup(pieces: &[Piece]) -> String {
    pieces
        .iter()
        .map(|p| match p {
            Piece::Markup(s) => s.clone(),
            Piece::Xml(s) => format!("[{s}]"),
            Piece::Path(s) => format!("{{{s}}}"),
            Piece::Etag(s) => format!("\"{s}\""),
        })
        .collect()
}

fn home() -> Calendar {
    Calendar {
        cal_id: 1,
        name: "Home".into(),
        description: None,
        color: Some("red".into()),
        timezone: None,
        components: "VEVENT, ,VTODO".into(),
        ctag: "c1".into(),
        created_at: Timestamp(0),
        updated_at: Timestamp(50),
    }
}

fn ask(ns: Namespace, local: &str) -> Propfind {
    Propfind::Prop(vec![PropName { ns, local: local.to_string() }])
}

fn props(r: &MultiResponse) -> String {
    markup(&r.props)
}

#[test]
fn calendars_tell_their_properties() {
    let r = home_responses(&ask(Namespace::Dav, "displayname"), 1, &vec![home()]);
    assert_eq!(r.len(), 2);
    assert_eq!(markup(&r[0].href), "/dav/calendars/");
    assert_eq!(props(&r[0]), "<d:displayname>Calendars</d:displayname>");
    assert_eq!(markup(&r[1].href), "/dav/calendars/{Home}/");
    assert_eq!(props(&r[1]), "<d:displayname>[Home]</d:displayname>");
    let one = |ns, local: &str| props(&home_responses(&ask(ns, local), 1, &vec![home()])[1]);
    assert_eq!(
        one(Namespace::CalDav, "supported-calendar-component-set"),
        "<cal:supported-calendar-component-set><cal:comp name=\"[VEVENT]\"/>\
         <cal:comp name=\"[VTODO]\"/></cal:supported-calendar-component-set>"
    );
    assert_eq!(one(Namespace::CalDav, "calendar-description"), "");
    assert_eq!(
        one(Namespace::CalendarServer, "calendar-color"),
        "<cs:calendar-color>[red]</cs:calendar-color>"
    );
    assert_eq!(
        one(Namespace::Dav, "sync-token"),
        "<d:sync-token>[urn:cloudillo:sync:50]</d:sync-token>"
    );
    assert_eq!(one(Namespace::Other, "displayname"), "");
    assert!(props(&home_responses(&Propfind::AllProp, 1, &vec![home()])[1])
        .contains("<cal:max-resource-size>1048576</cal:max-resource-size>"));
    assert_eq!(home_responses(&Propfind::PropName, 0, &vec![home()]).len(), 1);
}

fn stored(uid: &str, etag: &str) -> StoredObject {
    StoredObject { uid: uid.into(), etag: etag.into(), ical: format!("text of {uid}") }
}

#[test]
fn objects_tell_their_properties() {
    let rows = vec![stored("a", "1"), stored("b", "2")];
    let r = propfind_collection(&ask(Namespace::Dav, "getetag"), 1, &home(), &rows);
    assert_eq!(r.len(), 3);
    assert_eq!(markup(&r[1].href), "/dav/calendars/{Home}/{a.ics}");
    assert_eq!(props(&r[2]), "<d:getetag>\"2\"</d:getetag>");
    assert_eq!(propfind_collection(&Propfind::AllProp, 0, &home(), &rows).len(), 1);

    let asked = vec![
        AskedHref { href: "/x/b.ics".into(), file: Some("b.ics".into()) },
        AskedHref { href: "/x/z.ics".into(), file: Some("z.ics".into()) },
        AskedHref { href: "/x/a".into(), file: Some("a".into()) },
        AskedHref { href: "/x/%".into(), file: None },
    ];
    assert_eq!(multiget_uids(&asked), vec!["b".to_string(), "z".to_string()]);
    let r = multiget_responses(&ask(Namespace::CalDav, "calendar-data"), &asked, &rows);
    assert_eq!(props(&r[0]), "<cal:calendar-data>[text of b]</cal:calendar-data>");
    assert_eq!(r[0].status, None);
    assert_eq!(r[1].status, Some(404));
    assert_eq!(r[2].status, Some(404));
    assert_eq!(r[3].status, Some(404));
    assert_eq!(markup(&r[3].href), "/x/%");
    assert_eq!(last_segment("/x/b.ics"), "b.ics");
    assert_eq!(last_segment("/x/"), "");
    assert_eq!(resource_uid(Some("a.ics")).as_deref(), Some("a"));
    assert_eq!(resource_uid(Some("ics")), None);
}

#[test]
fn synchronisation_goes_on_from_its_mark() {
    let entry = |uid: &str, deleted: bool, at: i64| SyncEntry {
        uid: uid.into(),
        etag: "e".into(),
        deleted,
        updated_at: Timestamp(at),
    };
    let entries = vec![entry("a", false, 10), entry("b", true, 20)];
    assert_eq!(sync_state(&entries, 2, Timestamp(50)), 20);
    assert_eq!(sync_state(&entries, 3, Timestamp(50)), 50);
    assert_eq!(sync_state(&entries, 3, Timestamp(15)), 20);
    assert_eq!(sync_state(&Vec::new(), 3, Timestamp(15)), 15);
    let r = sync_responses(&Propfind::AllProp, "Home", &entries);
    assert_eq!(r[0].status, None);
    assert_eq!(r[1].status, Some(404));
    assert_eq!(sync_limit(None), 1000);
    assert_eq!(sync_limit(Some(5)), 5);
    assert_eq!(sync_limit(Some(5000)), 1000);
    assert_eq!(sync_since(Some("urn:cloudillo:sync:-5")), Some(Timestamp(-5)));
    assert_eq!(sync_since(Some("x")), None);
    let range = query_range(Some((Some("19700102".into()), Some("bad".into()))));
    assert_eq!(range, (Some(Timestamp(86_400)), None));
}

#[test]
fn reports_are_answered() {
    let row = || StoredObject { uid: "a".into(), etag: "e".into(), ical: "text".into() };
    let pf = ask(Namespace::CalDav, "calendar-data");
    let multiget = CollectionReport::Multiget {
        hrefs: vec![AskedHref { href: "/x/b.ics".into(), file: Some("b.ics".into()) }],
        rows: vec![row()],
    };
    let r = report_collection(&pf, &home(), &multiget).unwrap();
    assert_eq!(r.responses[0].status, Some(404));
    assert_eq!(r.sync_token, None);
    let r = report_collection(&pf, &home(), &CollectionReport::Query { rows: vec![row()] }).unwrap();
    assert_eq!(props(&r.responses[0]), "<cal:calendar-data>[text]</cal:calendar-data>");
    let gone = SyncEntry {
        uid: "a".into(),
        etag: "e".into(),
        deleted: true,
        updated_at: Timestamp(7),
    };
    let sync = CollectionReport::Sync { entries: vec![gone], limit: 1 };
    let r = report_collection(&pf, &home(), &sync).unwrap();
    assert_eq!(r.responses[0].status, Some(404));
    assert_eq!(r.sync_token.as_deref(), Some("urn:cloudillo:sync:7"));
    let r = report_collection(&pf, &home(), &CollectionReport::Unsupported);
    assert!(matches!(r, Err(e) if e.status == 400 && e.message == "unsupported report"));
}

#[test]
fn requests_are_routed() {
    assert_eq!(depth(Some("1")), 1);
    assert_eq!(depth(Some("infinity")), 255);
    assert_eq!(depth(Some("2")), 0);
    assert_eq!(depth(None), 0);
    let status = |r: Result<Task, cloudillo::calendar::caldav::Refusal>| match r {
        Ok(_) => 0,
        Err(e) => e.status,
    };
    assert_eq!(
        resource_route(Some("c"), Some("a.ics"), "PUT", true).unwrap(),
        Task::Put
    );
    assert_eq!(status(resource_route(None, Some("a.ics"), "PUT", true)), 400);
    assert_eq!(status(resource_route(Some("c"), Some("a.txt"), "PUT", true)), 404);
    assert_eq!(status(resource_route(Some("c"), Some("a.ics"), "PUT", false)), 404);
    assert_eq!(status(resource_route(Some("c"), Some("a.ics"), "POST", true)), 405);
    assert!(matches!(delete_outcome(Ok(())), Ok(204)));
    assert_eq!(delete_outcome(Err(Error::NotFound)).unwrap_err().status, 404);
    assert_eq!(delete_outcome(Err(Error::DbError)).unwrap_err().status, 500);
}

#[test]
fn stores_are_checked() {
    let s = series();
    let plan = put_resource(None, None, None, &s, "r1").unwrap();
    assert_eq!(plan.status, 201);
    assert_eq!(plan.extracted.summary.as_deref(), Some("Daily"));
    assert_eq!(plan.overrides.len(), 1);
    assert_eq!(plan.overrides[0].uid.as_deref(), Some("r1"));
    assert_eq!(put_resource(None, Some("e"), Some("e"), &s, "r1").unwrap().status, 204);
    let refused = |r: Result<cloudillo::calendar::caldav::PutPlan, _>| match r {
        Ok(_) => 0,
        Err(cloudillo::calendar::caldav::Refusal { status, .. }) => status,
    };
    assert_eq!(refused(put_resource(Some(" * "), None, Some("e"), &s, "r1")), 412);
    assert_eq!(refused(put_resource(Some("*"), None, None, &s, "r1")), 0);
    assert_eq!(refused(put_resource(None, Some("f"), Some("e"), &s, "r1")), 412);
    assert_eq!(refused(put_resource(None, None, None, &lines(&[]), "r1")), 400);
    let conflict = put_resource(None, None, None, &s, "r2").unwrap_err();
    assert_eq!(conflict.status, 409);
    assert_eq!(
        conflict.message,
        "UID in iCalendar (r1) does not match URL UID (r2)"
    );
}
