//! What reading, writing, showing and changing calendar objects is for: relations between what
//! goes in and what comes out.
use crate::calendar::handler::{
    cal_to_output, create_calendar, create_object, list_calendars, list_objects, list_options, listed, object_to_output,
    occurrence_at, parse_trouble, patch_calendar, patch_exception, patch_object, patched,
    patched_event, patched_todo, put_exception, put_object, render_object, shown, split_series,
    validate_cal_name, view_to_list_item, write_object, ObjectPage, ObjectWrite, SplitPlan,
};
use crate::calendar::ical::{
    self, dates_in, extracted, input_of, marked_date, parse, parse_to_input, primary,
    reading, took, ComponentView, ContentLine, RawView,
};
use crate::calendar::ical_writer::{dt_line, generated};
use crate::calendar::round_trip::{
    as_raw, carried_all, law_event_comes_back, stored,
    stored_event, stored_list, stored_todo,
};
use crate::calendar::searchable::law_written_is_parseable;
use crate::calendar::time::{
    date_to_unix, dt_reading, emit_dt, iso_reading, iso_text, law_instants_have_texts,
    parse_dt, parse_iso, ts_to_iso,
};
use crate::calendar::types::{
    Calendar, CalendarCreate, CalendarObject, CalendarObjectExtracted, CalendarObjectInput,
    CalendarObjectListItem, CalendarObjectOutput, CalendarObjectPatch, CalendarOutput, CalendarPatch,
    CreateCalendarData, EventInput, EventPatch, EventPatchView, EventView, ListCalendarObjectOptions, ListObjectsQuery,
    ObjectPatchView, ObjectView, SplitSeriesRequest, TodoPatchView, TodoView, UpdateCalendarData,
};
use crate::decimal;
use crate::text::{self, split_on, trimmed};
use crate::types::{Error, Patch, Timestamp};
use vstd::prelude::*;

verus! {

// ---------------------------------------------------------------------------------------------
// Written and found again
// ---------------------------------------------------------------------------------------------

/// Whether a text names an instant of the years 0 to 9999.
pub open spec fn names_time(iso: Seq<char>) -> bool {
    iso_reading(iso) matches Some((ts, _)) && -62_167_219_200 <= ts <= 253_402_300_799
}

/// The instant that a text names; for a whole day, the start of the day.
pub open spec fn named_instant(iso: Seq<char>, all_day: bool) -> i64 {
    let (ts, date) = iso_reading(iso)->Some_0;
    if all_day || date {
        (ts - ts as int % 86400) as i64
    } else {
        ts
    }
}

/// Whether a searchable time is the one that an optional text names.
pub open spec fn finds(t: Option<Timestamp>, iso: Option<Seq<char>>, all_day: bool) -> bool {
    match iso {
        Some(s) => names_time(s) ==> t == Some(Timestamp(named_instant(s, all_day))),
        None => t is None,
    }
}

proof fn lemma_stored_instant(iso: Seq<char>, all_day: bool)
    requires
        names_time(iso),
    ensures
        stored(iso, all_day) matches Some((t, d)) && t == named_instant(iso, all_day) && d == (
        all_day || iso_reading(iso)->Some_0.1),
        dates_in(
            split_on(dt_line("EXDATE"@, iso, all_day).value, ','),
            marked_date(as_raw(dt_line("EXDATE"@, iso, all_day))),
        ) == seq![stored(iso, all_day)->Some_0],
{
    let (ts, date) = iso_reading(iso)->Some_0;
    let b = all_day || date;
    law_instants_have_texts(ts, b);
    let w = dt_line("EXDATE"@, iso, all_day);
    let v = w.value;
    if b {
        assert(w.params[0] == ("VALUE"@, "DATE"@));
        assert(ical::param_of(w.params, "VALUE"@) == Some("DATE"@));
    } else {
        assert(ical::param_of(w.params, "VALUE"@) is None);
    }
    assert forall|k: int| 0 <= k < v.len() implies v[k] != ',' by {
        assert(v.contains(v[k]));
    }
    text::lemma_before_char(v, ',', v.len() as int);
    let pieces = split_on(v, ',');
    assert(pieces == seq![v]);
    reveal_with_fuel(dates_in, 2);
    assert(pieces.drop_last() =~= Seq::empty());
    assert(pieces.last() == v);
}

proof fn lemma_stored_exdates(isos: Seq<Seq<char>>, all_day: bool)
    requires
        forall|i: int| 0 <= i < isos.len() ==> names_time(#[trigger] isos[i]),
    ensures
        stored_list(isos, all_day).len() == isos.len(),
        forall|i: int|
            0 <= i < isos.len() ==> (#[trigger] stored_list(isos, all_day)[i]).0 == named_instant(
                isos[i],
                all_day,
            ),
    decreases isos.len(),
{
    if isos.len() > 0 {
        let rest = isos.drop_last();
        let n = rest.len() as int;
        assert forall|i: int| 0 <= i < n implies names_time(#[trigger] rest[i]) by {
            assert(rest[i] == isos[i]);
        }
        lemma_stored_exdates(rest, all_day);
        assert(names_time(isos[n]));
        lemma_stored_instant(isos[n], all_day);
        let before = stored_list(rest, all_day);
        let last = stored(isos[n], all_day)->Some_0;
        let all = stored_list(isos, all_day);
        assert(all == before + seq![last]);
        assert forall|i: int| 0 <= i < isos.len() implies (#[trigger] all[i]).0 == named_instant(
            isos[i],
            all_day,
        ) by {
            if i < n {
                assert(all[i] == before[i]);
                assert(rest[i] == isos[i]);
            }
        }
    }
}

/// An event that was written is found by what it says: its texts and organizer as they were
/// given, its start, end and occurrence at the instants that their texts name, its excluded
/// occurrences at theirs, one for one and in order, and its rule and status in normal form.
pub proof fn law_searchable_event(
    input: ObjectView,
    now: i64,
    lines: &Vec<ContentLine>,
    r: Option<(CalendarObjectExtracted, Option<String>, Vec<String>)>,
)
    requires
        input.event is Some,
        carried_all(generated(input, now), lines.deep_view()),
        call_ensures(parse, (lines,), r),
    ensures
        r matches Some((x, uid, warnings)) && {
            let ev = input.event->Some_0;
            &&& warnings@.len() == 0
            &&& uid.deep_view() == input.uid
            &&& x.component@ == "VEVENT"@
            &&& x.summary.deep_view() == ev.summary
            &&& x.description.deep_view() == ev.description
            &&& x.location.deep_view() == ev.location
            &&& x.organizer.deep_view() == ev.organizer
            &&& finds(x.dtstart, ev.dtstart, ev.all_day)
            &&& finds(x.dtend, ev.dtend, ev.all_day)
            &&& finds(x.recurrence_id, input.recurrence_id, ev.all_day)
            &&& (ev.dtstart matches Some(s) && names_time(s)) ==> x.all_day == (ev.all_day
                || iso_reading(ev.dtstart->Some_0)->Some_0.1)
            &&& (forall|i: int| 0 <= i < ev.exdate.len() ==> names_time(#[trigger] ev.exdate[i]))
                ==> x.exdate@.len() == ev.exdate.len() && forall|i: int|
                0 <= i < ev.exdate.len() ==> (#[trigger] x.exdate@[i]).0 == named_instant(
                    ev.exdate[i],
                    ev.all_day,
                )
            &&& ev.rrule is None ==> x.rrule is None
            &&& ev.rrule matches Some(s) ==> x.rrule.deep_view() == Some(trimmed(s))
            &&& ev.status is None ==> x.status is None
            &&& ev.status matches Some(s) ==> x.status.deep_view() == Some(
                text::ascii_upper_all(trimmed(s)),
            )
            &&& x.priority is None
            &&& x.sequence == 0
        },
{
    let ev = input.event->Some_0;
    law_written_is_parseable(input, now, lines.deep_view());
    let c = stored_event(input.uid, input.recurrence_id, ev);
    let (x, uid, w) = r->Some_0;
    assert(x.deep_view() == extracted(c));
    assert(w.deep_view().len() == w@.len());
    if let Some(s) = ev.dtstart {
        if names_time(s) {
            lemma_stored_instant(s, ev.all_day);
        }
    }
    if let Some(s) = ev.dtend {
        if names_time(s) {
            lemma_stored_instant(s, ev.all_day);
        }
    }
    if let Some(s) = input.recurrence_id {
        if names_time(s) {
            lemma_stored_instant(s, ev.all_day);
        }
    }
    assert(x.exdate.deep_view() == extracted(c).exdate);
    assert(x.exdate.deep_view().len() == x.exdate@.len());
    if forall|i: int| 0 <= i < ev.exdate.len() ==> names_time(#[trigger] ev.exdate[i]) {
        lemma_stored_exdates(ev.exdate, ev.all_day);
        assert forall|i: int| 0 <= i < ev.exdate.len() implies (#[trigger] x.exdate@[i]).0
            == named_instant(ev.exdate[i], ev.all_day) by {
            assert(x.exdate.deep_view()[i] == x.exdate@[i]);
            assert(c.exdate[i].0 == named_instant(ev.exdate[i], ev.all_day));
        }
    }
}

/// A task that was written is found by what it says: its texts and priority as they were given,
/// its start, due time and occurrence at the instants that their texts name.
pub proof fn law_searchable_task(
    input: ObjectView,
    now: i64,
    lines: &Vec<ContentLine>,
    r: Option<(CalendarObjectExtracted, Option<String>, Vec<String>)>,
)
    requires
        input.event is None,
        input.todo is Some,
        carried_all(generated(input, now), lines.deep_view()),
        call_ensures(parse, (lines,), r),
    ensures
        r matches Some((x, uid, warnings)) && {
            let td = input.todo->Some_0;
            &&& warnings@.len() == 0
            &&& uid.deep_view() == input.uid
            &&& x.component@ == "VTODO"@
            &&& x.summary.deep_view() == td.summary
            &&& x.description.deep_view() == td.description
            &&& x.location is None && x.organizer is None
            &&& finds(x.dtstart, td.dtstart, false)
            &&& finds(x.dtend, td.due, false)
            &&& finds(x.recurrence_id, input.recurrence_id, false)
            &&& x.priority == td.priority
            &&& x.exdate@.len() == 0
            &&& td.rrule matches Some(s) ==> x.rrule.deep_view() == Some(trimmed(s))
            &&& td.rrule is None ==> x.rrule is None
            &&& td.status matches Some(s) ==> x.status.deep_view() == Some(
                text::ascii_upper_all(trimmed(s)),
            )
            &&& td.status is None ==> x.status is None
            &&& x.sequence == 0
        },
{
    let td = input.todo->Some_0;
    law_written_is_parseable(input, now, lines.deep_view());
    let c = stored_todo(input.uid, input.recurrence_id, td);
    let (x, uid, w) = r->Some_0;
    assert(x.deep_view() == extracted(c));
    assert(w.deep_view().len() == w@.len());
    if let Some(s) = td.dtstart {
        if names_time(s) {
            lemma_stored_instant(s, false);
        }
    }
    if let Some(s) = td.due {
        if names_time(s) {
            lemma_stored_instant(s, false);
        }
    }
    if let Some(s) = input.recurrence_id {
        if names_time(s) {
            lemma_stored_instant(s, false);
        }
    }
    assert(x.exdate.deep_view() == extracted(c).exdate);
    assert(x.exdate.deep_view().len() == x.exdate@.len());
}

// ---------------------------------------------------------------------------------------------
// Reading properties
// ---------------------------------------------------------------------------------------------

/// Each property of an event or a task that is read has its own place and changes nothing else:
/// texts count without their escapes, numbers and times where they can be read, and lists grow by
/// what is added.
pub proof fn law_properties_have_their_places(c: ComponentView, l: RawView)
    ensures
        l.name == "UID"@ ==> took(c, l) == (ComponentView { uid: Some(l.text), ..c }),
        l.name == "SUMMARY"@ ==> took(c, l) == (ComponentView { summary: Some(l.text), ..c }),
        l.name == "LOCATION"@ ==> took(c, l) == (ComponentView { location: Some(l.text), ..c }),
        l.name == "DESCRIPTION"@ ==> took(c, l) == (ComponentView {
            description: Some(l.text),
            ..c
        }),
        l.name == "ORGANIZER"@ ==> took(c, l) == (ComponentView { organizer: Some(l.text), ..c }),
        l.name == "RRULE"@ ==> took(c, l) == (ComponentView { rrule: Some(trimmed(l.value)), ..c }),
        l.name == "STATUS"@ ==> took(c, l) == (ComponentView {
            status: Some(text::ascii_upper_all(trimmed(l.value))),
            ..c
        }),
        l.name == "DTSTART"@ ==> took(c, l) == (ComponentView {
            dtstart: dt_reading(l.value, marked_date(l)),
            ..c
        }),
        l.name == "DTEND"@ || l.name == "DUE"@ ==> took(c, l) == (ComponentView {
            dtend: dt_reading(l.value, marked_date(l)),
            ..c
        }),
        l.name == "COMPLETED"@ ==> took(c, l) == (ComponentView {
            completed: dt_reading(l.value, marked_date(l)),
            ..c
        }),
        forall|n: i64|
            l.name == "SEQUENCE"@ && l.value == #[trigger] decimal::integer_text(n as int) && trimmed(
                l.value,
            ) == l.value ==> took(c, l) == (ComponentView { sequence: n, ..c }),
        forall|n: u8|
            l.name == "PRIORITY"@ && l.value == #[trigger] decimal::decimal_text(n as nat)
                && trimmed(l.value) == l.value ==> took(c, l) == (ComponentView {
                priority: Some(n),
                ..c
            }),
        l.name == "ATTENDEE"@ ==> took(c, l) == (ComponentView {
            attendees: took(c, l).attendees,
            ..c
        }) && took(c, l).attendees.len() == c.attendees.len() + 1 && took(
            c,
            l,
        ).attendees.last().address == l.text && (forall|i: int|
            0 <= i < c.attendees.len() ==> #[trigger] took(c, l).attendees[i] == c.attendees[i]),
        l.name == "EXDATE"@ && !l.value.contains(',') ==> took(c, l) == (ComponentView {
            exdate: took(c, l).exdate,
            ..c
        }) && (match dt_reading(l.value, marked_date(l)) {
            Some(t) => took(c, l).exdate == c.exdate.push(t),
            None => took(c, l).exdate == c.exdate,
        }),
        l.name == "RECURRENCE-ID"@ ==> took(c, l) == (ComponentView {
            recurrence_id: took(c, l).recurrence_id,
            ..c
        }) && (match dt_reading(l.value, marked_date(l)) {
            Some(t) => took(c, l).recurrence_id == Some(t.0),
            None => took(c, l).recurrence_id is None,
        }),
{
    crate::calendar::round_trip::lemma_names_differ();
    assert forall|n: i64|
        l.name == "SEQUENCE"@ && l.value == #[trigger] decimal::integer_text(n as int) && trimmed(
            l.value,
        ) == l.value implies took(c, l) == (ComponentView { sequence: n, ..c }) by {
        decimal::law_integer_text_reads_back(n);
    }
    assert forall|n: u8|
        l.name == "PRIORITY"@ && l.value == #[trigger] decimal::decimal_text(n as nat) && trimmed(
            l.value,
        ) == l.value implies took(c, l) == (ComponentView { priority: Some(n), ..c }) by {
        decimal::law_decimal_reads_back(n as nat, 255);
    }
    if l.name == "EXDATE"@ && !l.value.contains(',') {
        let v = l.value;
        assert forall|k: int| 0 <= k < v.len() implies v[k] != ',' by {
            assert(v.contains(v[k]));
        }
        text::lemma_before_char(v, ',', v.len() as int);
        let pieces = split_on(v, ',');
        assert(pieces == seq![v]);
        reveal_with_fuel(dates_in, 2);
        assert(pieces.drop_last() =~= Seq::empty());
        assert(pieces.last() == v);
        match dt_reading(v, marked_date(l)) {
            Some(t) => {
                assert(dates_in(pieces, marked_date(l)) =~= seq![t]);
                assert(took(c, l).exdate =~= c.exdate.push(t));
            },
            None => {
                assert(took(c, l).exdate =~= c.exdate);
            },
        }
    }
}

// ---------------------------------------------------------------------------------------------
// Changing
// ---------------------------------------------------------------------------------------------

/// A change to an event gives every field that it names the value that it names.
pub proof fn law_patch_gives_what_it_names(t: EventView, p: EventPatchView)
    ensures
        p.summary matches Some(v) ==> patched_event(t, p).summary == Some(v),
        p.description matches Some(v) ==> patched_event(t, p).description == Some(v),
        p.location matches Some(v) ==> patched_event(t, p).location == Some(v),
        p.dtstart matches Some(v) ==> patched_event(t, p).dtstart == Some(v),
        p.dtend matches Some(v) ==> patched_event(t, p).dtend == Some(v),
        p.all_day matches Some(v) ==> patched_event(t, p).all_day == v,
        p.rrule matches Some(v) ==> patched_event(t, p).rrule == Some(v),
        p.exdate matches Some(v) ==> patched_event(t, p).exdate == v,
        p.status matches Some(v) ==> patched_event(t, p).status == Some(v),
        p.organizer matches Some(v) ==> patched_event(t, p).organizer == Some(v),
        p.attendees matches Some(v) ==> patched_event(t, p).attendees == v,
        p.categories matches Some(v) ==> patched_event(t, p).categories == v,
        p.alarms matches Some(v) ==> patched_event(t, p).alarms == v,
{
}

/// A change to a task gives every field that it names the value that it names, and leaves every
/// other one as it was.
pub proof fn law_task_patch_gives_what_it_names(t: TodoView, p: TodoPatchView)
    ensures
        p.summary matches Some(v) ==> patched_todo(t, p).summary == Some(v),
        p.summary is None ==> patched_todo(t, p).summary == t.summary,
        p.description matches Some(v) ==> patched_todo(t, p).description == Some(v),
        p.description is None ==> patched_todo(t, p).description == t.description,
        p.dtstart matches Some(v) ==> patched_todo(t, p).dtstart == Some(v),
        p.dtstart is None ==> patched_todo(t, p).dtstart == t.dtstart,
        p.due matches Some(v) ==> patched_todo(t, p).due == Some(v),
        p.due is None ==> patched_todo(t, p).due == t.due,
        p.completed matches Some(v) ==> patched_todo(t, p).completed == Some(v),
        p.completed is None ==> patched_todo(t, p).completed == t.completed,
        p.priority matches Some(v) ==> patched_todo(t, p).priority == Some(v),
        p.priority is None ==> patched_todo(t, p).priority == t.priority,
        p.status matches Some(v) ==> patched_todo(t, p).status == Some(v),
        p.status is None ==> patched_todo(t, p).status == t.status,
        p.rrule matches Some(v) ==> patched_todo(t, p).rrule == Some(v),
        p.rrule is None ==> patched_todo(t, p).rrule == t.rrule,
        p.categories matches Some(v) ==> patched_todo(t, p).categories == v,
        p.categories is None ==> patched_todo(t, p).categories == t.categories,
        p.alarms matches Some(v) ==> patched_todo(t, p).alarms == v,
        p.alarms is None ==> patched_todo(t, p).alarms == t.alarms,
{
}

/// Whether an event after a change has what the change names, and else what it had before.
pub open spec fn event_changed(before: EventView, p: EventPatchView, after: EventView) -> bool {
    &&& after.summary == (if p.summary is Some { p.summary } else { before.summary })
    &&& after.description == (if p.description is Some { p.description } else { before.description })
    &&& after.location == (if p.location is Some { p.location } else { before.location })
    &&& after.dtstart == (if p.dtstart is Some { p.dtstart } else { before.dtstart })
    &&& after.dtend == (if p.dtend is Some { p.dtend } else { before.dtend })
    &&& after.all_day == (if p.all_day is Some { p.all_day->0 } else { before.all_day })
    &&& after.rrule == (if p.rrule is Some { p.rrule } else { before.rrule })
    &&& after.exdate == (if p.exdate is Some { p.exdate->0 } else { before.exdate })
    &&& after.status == (if p.status is Some { p.status } else { before.status })
    &&& after.organizer == (if p.organizer is Some { p.organizer } else { before.organizer })
    &&& after.attendees == (if p.attendees is Some { p.attendees->0 } else { before.attendees })
    &&& after.categories == (if p.categories is Some { p.categories->0 } else { before.categories })
    &&& after.alarms == (if p.alarms is Some { p.alarms->0 } else { before.alarms })
}

/// A change to an object on record succeeds where the change is for its sort, whatever else it
/// holds; it is refused where it is for both sorts or for the other one; and a change of nothing
/// changes nothing.
pub proof fn law_changes_go_to_their_sort(o: ObjectView, p: ObjectPatchView)
    ensures
        p.event is None && p.todo is None ==> patched(o, p) == Some(o),
        p.event is Some && p.todo is Some ==> patched(o, p) is None,
        p.event is Some && p.todo is None && o.event is None ==> patched(o, p) is None,
        p.todo is Some && p.event is None && o.todo is None ==> patched(o, p) is None,
        p.event is Some && p.todo is None && o.event is Some ==> patched(o, p) is Some
            && event_changed(o.event->0, p.event->0, patched(o, p)->0.event->0) && patched(
            o,
            p,
        )->0.todo == o.todo && patched(o, p)->0.event is Some,
        p.todo is Some && p.event is None && o.todo is Some ==> patched(o, p) is Some && patched(
            o,
            p,
        )->0.todo is Some && patched(o, p)->0.event == o.event && (p.todo->0.due is Some ==> patched(
            o,
            p,
        )->0.todo->0.due == p.todo->0.due) && (p.todo->0.due is None ==> patched(
            o,
            p,
        )->0.todo->0.due == o.todo->0.due),
{
}

/// A change to a written event, made over the structured interface, is made to the event as it
/// was written: what it names is as it says, the rest as it was, and the identifier is that of
/// the address.
pub proof fn law_patch_object_of_a_written_event(
    input: ObjectView,
    now: i64,
    lines: &Vec<ContentLine>,
    uid: &str,
    patch: CalendarObjectPatch,
    r: Result<CalendarObjectInput, Error>,
)
    requires
        crate::calendar::round_trip::faithful_event(input),
        carried_all(generated(input, now), lines.deep_view()),
        patch.deep_view().event is Some,
        patch.deep_view().todo is None,
        call_ensures(patch_object, (true, Some(lines), uid, patch), r),
    ensures
        r matches Ok(n) && n.deep_view().uid == Some(uid@) && n.deep_view().todo is None
            && n.deep_view().recurrence_id == input.recurrence_id && n.deep_view().event is Some
            && event_changed(
            input.event->0,
            patch.deep_view().event->0,
            n.deep_view().event->0,
        ),
{
    law_event_comes_back(input, now, lines.deep_view());
    let c = primary(reading(lines.deep_view(), true).done)->0;
    assert(input_of(c) == input);
}

/// An object or a calendar that is not known cannot be changed.
pub proof fn law_unknown_objects_are_not_changed(
    known: bool,
    stored: Option<&Vec<ContentLine>>,
    uid: &str,
    patch: CalendarObjectPatch,
    r: Result<CalendarObjectInput, Error>,
)
    requires
        !known || stored is None,
        call_ensures(patch_object, (known, stored, uid, patch), r),
    ensures
        r == Err::<CalendarObjectInput, Error>(Error::NotFound),
{
}

/// A changed occurrence is kept under the identifier of its series and for the occurrence of its
/// address, and only where the series is known and the address names an instant.
pub proof fn law_occurrences_belong_to_their_series(
    known: bool,
    uid: &str,
    rid: &str,
    body: CalendarObjectInput,
    minted: String,
    r: Result<ObjectWrite, Error>,
)
    requires
        call_ensures(put_exception, (known, uid, rid, body, minted), r),
    ensures
        !known ==> r == Err::<ObjectWrite, Error>(Error::NotFound),
        r matches Ok(w) ==> known && w.input.deep_view().recurrence_id == Some(rid@)
            && w.input.deep_view().event == body.deep_view().event && w.input.deep_view().todo
            == body.deep_view().todo && (uid@.len() > 0 ==> w.uid@ == uid@
            && w.input.deep_view().uid == Some(uid@)),
        known && iso_named(rid@) && (body.event is Some || body.todo is Some) ==> r is Ok,
        known && body.event is None && body.todo is None ==> r is Err,
{
}

/// Whether a text names a time or a day.
pub open spec fn iso_named(s: Seq<char>) -> bool {
    crate::calendar::time::rfc_reading(s) is Some || crate::calendar::time::day_reading(s) is Some
}

/// What is stored under an identifier is stored with that identifier in it: the one of the
/// address, the one that was given, or else the one that was made for it. The rest is stored as
/// it was sent, and there has to be an event or a task.
pub proof fn law_objects_are_stored_as_sent(
    input: CalendarObjectInput,
    uid: String,
    minted: String,
    written: Result<ObjectWrite, Error>,
    created: Result<ObjectWrite, Error>,
    put: Result<ObjectWrite, Error>,
)
    requires
        call_ensures(write_object, (input, minted), written),
        call_ensures(create_object, (true, input, minted), created),
        call_ensures(put_object, (true, uid, input, minted), put),
    ensures
        input.event is None && input.todo is None ==> written is Err && created is Err && put is Err,
        input.event is Some || input.todo is Some ==> {
            &&& written matches Ok(w) && w.input.deep_view().uid == Some(w.uid@)
                && w.input.deep_view().event == input.deep_view().event
                && w.input.deep_view().todo == input.deep_view().todo
                && w.input.deep_view().recurrence_id == input.deep_view().recurrence_id && w.uid@
                == (if input.uid is Some && input.uid->0@.len() > 0 {
                input.uid->0@
            } else {
                minted@
            })
            &&& created matches Ok(c) && c.uid@ == written->Ok_0.uid@ && c.input.deep_view()
                == written->Ok_0.input.deep_view()
            &&& put matches Ok(p) && p.input.deep_view().uid == Some(p.uid@)
                && p.input.deep_view().event == input.deep_view().event
                && p.input.deep_view().todo == input.deep_view().todo && (uid@.len() > 0 ==> p.uid@
                == uid@)
        },
{
}

/// Nothing is created in, or put into, a calendar that is not known.
pub proof fn law_unknown_calendars_take_nothing(
    input: CalendarObjectInput,
    uid: String,
    minted: String,
    created: Result<ObjectWrite, Error>,
    put: Result<ObjectWrite, Error>,
)
    requires
        call_ensures(create_object, (false, input, minted), created),
        call_ensures(put_object, (false, uid, input, minted), put),
    ensures
        created == Err::<ObjectWrite, Error>(Error::NotFound),
        put == Err::<ObjectWrite, Error>(Error::NotFound),
{
}

/// A series that was written as recurring can be forked: the series so far keeps its identifier
/// and takes the change that was asked for, the rest goes on as it was sent under a new
/// identifier, and changed occurrences are dropped from the instant of the fork on.
pub proof fn law_forks_of_a_written_series(
    input: ObjectView,
    now: i64,
    x: &CalendarObjectExtracted,
    lines: &Vec<ContentLine>,
    uid: &str,
    body: SplitSeriesRequest,
    minted: String,
    r: Result<SplitPlan, Error>,
)
    requires
        crate::calendar::round_trip::faithful_event(input),
        carried_all(generated(input, now), lines.deep_view()),
        x.rrule is Some,
        crate::calendar::time::iso_ts_reading(body.split_at@) is Some,
        body.tail.event is Some || body.tail.todo is Some,
        body.master_patch.deep_view().event is Some,
        body.master_patch.deep_view().todo is None,
        call_ensures(split_series, (true, Some((x, lines)), uid, body, minted), r),
    ensures
        r matches Ok(s) && {
            let m = s.master.deep_view();
            let t = s.tail.deep_view();
            &&& m.uid == Some(uid@) && m.recurrence_id == input.recurrence_id && m.event is Some
            &&& event_changed(input.event->0, body.master_patch.deep_view().event->0, m.event->0)
            &&& t.uid == Some(minted@) && s.tail_uid@ == minted@ && t.recurrence_id is None
            &&& t.event == body.tail.deep_view().event && t.todo == body.tail.deep_view().todo
            &&& Some(s.split_at.0) == crate::calendar::time::iso_ts_reading(body.split_at@)
        },
{
    law_event_comes_back(input, now, lines.deep_view());
    let c = primary(reading(lines.deep_view(), true).done)->0;
    assert(input_of(c) == input);
}

// ---------------------------------------------------------------------------------------------
// Showing
// ---------------------------------------------------------------------------------------------

/// Whether a text shows an optional instant of the years 0 to 9999: it names the instant, or the
/// start of its day.
pub open spec fn tells(t: Option<Timestamp>, all_day: bool, shown: Option<Seq<char>>) -> bool {
    match t {
        None => shown is None,
        Some(ts) => -62_167_219_200 <= ts.0 <= 253_402_300_799 ==> shown is Some && iso_reading(
            shown->0,
        ) == Some(
            (
                if all_day {
                    (ts.0 - ts.0 as int % 86400) as i64
                } else {
                    ts.0
                },
                all_day,
            ),
        ),
    }
}

proof fn lemma_tells(t: Option<Timestamp>, all_day: bool)
    ensures
        tells(t, all_day, crate::calendar::handler::iso_at(t, all_day)),
{
    if let Some(ts) = t {
        if -62_167_219_200 <= ts.0 <= 253_402_300_799 {
            law_instants_have_texts(ts.0, all_day);
        }
    }
}

/// An object is shown with what is on record of it: its numbers, identifier and entity tag, its
/// texts, and its times as texts that name them, each excluded occurrence too. What was wrong with
/// its stored text is told exactly where something was.
pub proof fn law_objects_are_shown(
    row: &CalendarObject,
    lines: &Vec<ContentLine>,
    r: CalendarObjectOutput,
)
    requires
        call_ensures(object_to_output, (row, lines), r),
    ensures
        r.co_id == row.co_id && r.cal_id == row.cal_id,
        r.uid@ == row.uid@ && r.etag@ == row.etag@,
        r.component@ == row.extracted.component@,
        r.summary.deep_view() == row.extracted.summary.deep_view(),
        r.description.deep_view() == row.extracted.description.deep_view(),
        r.location.deep_view() == row.extracted.location.deep_view(),
        r.status.deep_view() == row.extracted.status.deep_view(),
        r.priority == row.extracted.priority,
        r.organizer.deep_view() == row.extracted.organizer.deep_view(),
        r.rrule.deep_view() == row.extracted.rrule.deep_view(),
        r.all_day == row.extracted.all_day,
        r.created_at == row.created_at && r.updated_at == row.updated_at,
        tells(row.extracted.dtstart, row.extracted.all_day, r.dtstart.deep_view()),
        tells(row.extracted.dtend, row.extracted.all_day, r.dtend.deep_view()),
        tells(row.extracted.recurrence_id, row.extracted.all_day, r.recurrence_id.deep_view()),
        row.extracted.exdate@.len() == 0 ==> r.exdate is None,
        row.extracted.exdate@.len() > 0 ==> r.exdate is Some && r.exdate->0@.len()
            == row.extracted.exdate@.len() && forall|i: int|
            0 <= i < row.extracted.exdate@.len() ==> tells(
                Some(#[trigger] row.extracted.exdate@[i]),
                row.extracted.all_day,
                Some(r.exdate->0@[i]@),
            ),
        r.parse_error is None <==> reading(lines.deep_view(), false).done.len() > 0 && reading(
            lines.deep_view(),
            false,
        ).warnings.len() == 0,
{
    let x = row.extracted;
    assert(r.deep_view() == shown(*row, parse_trouble(lines.deep_view())));
    lemma_tells(x.dtstart, x.all_day);
    lemma_tells(x.dtend, x.all_day);
    lemma_tells(x.recurrence_id, x.all_day);
    assert(x.deep_view().exdate.len() == x.exdate@.len());
    ical::law_series_before_its_occurrences(reading(lines.deep_view(), false).done);
    if x.exdate@.len() > 0 {
        let list = r.exdate->0;
        assert(list.deep_view().len() == list@.len());
        assert forall|i: int| 0 <= i < x.exdate@.len() implies tells(
            Some(#[trigger] x.exdate@[i]),
            x.all_day,
            Some(list@[i]@),
        ) by {
            lemma_tells(Some(x.exdate@[i]), x.all_day);
            assert(list.deep_view()[i] == list@[i]@);
            assert(x.deep_view().exdate[i] == x.exdate@[i]);
        }
    }
}

/// A listing tells of an object what showing it tells.
pub proof fn law_listing_agrees_with_showing(
    row: &CalendarObject,
    lines: &Vec<ContentLine>,
    o: CalendarObjectOutput,
    i: CalendarObjectListItem,
)
    requires
        call_ensures(object_to_output, (row, lines), o),
        call_ensures(view_to_list_item, (row,), i),
    ensures
        i.co_id == o.co_id && i.cal_id == o.cal_id,
        i.uid@ == o.uid@ && i.etag@ == o.etag@ && i.component@ == o.component@,
        i.summary.deep_view() == o.summary.deep_view(),
        i.location.deep_view() == o.location.deep_view(),
        i.dtstart.deep_view() == o.dtstart.deep_view(),
        i.dtend.deep_view() == o.dtend.deep_view(),
        i.all_day == o.all_day,
        i.status.deep_view() == o.status.deep_view(),
        i.rrule.deep_view() == o.rrule.deep_view(),
        i.recurrence_id.deep_view() == o.recurrence_id.deep_view(),
        i.exdate.deep_view() == o.exdate.deep_view(),
        i.updated_at == o.updated_at,
{
    assert(i.deep_view() == listed(*row));
    assert(o.deep_view() == shown(*row, parse_trouble(lines.deep_view())));
}

/// A page holds the first rows, at most as many as were asked for and never more than a thousand,
/// two hundred where nothing was asked; it says that there is more exactly where rows are left;
/// and its cursor is the number of the last row on it, as text.
pub proof fn law_pages_of_objects(
    rows: &Vec<CalendarObject>,
    limit: Option<u32>,
    r: ObjectPage,
)
    requires
        call_ensures(list_objects, (rows, limit), r),
    ensures
        r.items@.len() <= rows@.len() && r.items@.len() <= 1000,
        limit matches Some(n) ==> r.items@.len() <= n,
        limit is None ==> r.items@.len() <= 200,
        r.has_more <==> r.items@.len() < rows@.len(),
        r.has_more && limit is None ==> r.items@.len() == 200,
        (r.has_more && limit is Some) ==> r.items@.len() == (if limit->0 < 1000 {
            limit->0
        } else {
            1000
        }),
        forall|k: int|
            0 <= k < r.items@.len() ==> (#[trigger] r.items@[k]).uid@ == rows@[k].uid@ && r.items@[k].co_id
                == rows@[k].co_id && r.items@[k].etag@ == rows@[k].etag@,
        !r.has_more ==> r.next_cursor is None,
        r.has_more && r.items@.len() > 0 ==> r.next_cursor is Some && decimal::unsigned_of(
            r.next_cursor->0@,
            u64::MAX as int,
        ) == Some(r.items@.last().co_id as int),
{
    let items = r.items.deep_view();
    assert(items.len() == r.items@.len());
    assert forall|k: int| 0 <= k < r.items@.len() implies (#[trigger] r.items@[k]).uid@
        == rows@[k].uid@ && r.items@[k].co_id == rows@[k].co_id && r.items@[k].etag@
        == rows@[k].etag@ by {
        assert(items[k] == r.items@[k].deep_view());
        assert(items[k] == listed(rows@[k]));
    }
    if r.has_more && r.items@.len() > 0 {
        let n = r.items@.len() - 1;
        assert(r.items@[n].co_id == rows@[n].co_id);
        decimal::law_decimal_reads_back(rows@[n].co_id as nat, u64::MAX as int);
    }
}

/// A calendar's name is admitted exactly where it is not empty, has at most 128 bytes, and holds
/// no slash, no backslash and no control character.
pub proof fn law_names_of_calendars(name: &str, r: Result<(), Error>)
    requires
        call_ensures(validate_cal_name, (name,), r),
    ensures
        r is Ok <==> name@.len() > 0 && text::byte_length(name@) <= 128 && !name@.contains('/')
            && !name@.contains('\\') && forall|i: int|
            0 <= i < name@.len() ==> 0x20 <= (#[trigger] name@[i]) as u32 && !(0x7f <= name@[i] as u32
                <= 0x9f),
        r matches Err(e) ==> e is ValidationError,
{
    if r is Ok {
        assert forall|i: int| 0 <= i < name@.len() implies !crate::calendar::handler::bad_name_char(
            #[trigger] name@[i],
        ) by {}
        assert(!name@.contains('/'));
    } else if name@.len() > 0 && text::byte_length(name@) <= 128 {
        let i = choose|i: int|
            0 <= i < name@.len() && crate::calendar::handler::bad_name_char(#[trigger] name@[i]);
        assert(name@.contains(name@[i]));
    }
}

/// A new calendar, and one that is renamed, gets the name that was asked for without the white
/// space around it, where it is one that a calendar can have; everything else is taken as it was
/// sent.
pub proof fn law_calendars_are_made_as_asked(
    body: CalendarCreate,
    created: Result<CreateCalendarData, Error>,
    patch: CalendarPatch,
    changed: Result<UpdateCalendarData, Error>,
    checked: Result<(), Error>,
    name: &str,
)
    requires
        call_ensures(create_calendar, (body,), created),
        call_ensures(patch_calendar, (patch,), changed),
        call_ensures(validate_cal_name, (name,), checked),
        name@ == trimmed(body.name@),
        patch.name matches Patch::Value(v) && v@ == body.name@,
    ensures
        created is Ok <==> checked is Ok,
        changed is Ok <==> checked is Ok,
        created matches Ok(d) ==> d.name@ == trimmed(body.name@) && d.description == body.description
            && d.color == body.color && d.timezone == body.timezone,
        changed matches Ok(d) ==> d.name.deep_view() == Patch::Value(trimmed(body.name@))
            && d.description == patch.description && d.color == patch.color && d.timezone
            == patch.timezone,
{
}

/// What a listing is asked for is what is looked up, from the instant that is written as its
/// start to the one that is written as its end.
pub proof fn law_listings_look_up_what_is_asked(
    q: ListObjectsQuery,
    r: ListCalendarObjectOptions,
    ts: i64,
)
    requires
        call_ensures(list_options, (q,), r),
    ensures
        r.component == q.component && r.q == q.q && r.cursor == q.cursor && r.limit == q.limit,
        r.include_exceptions == q.include_exceptions,
        q.start is None ==> r.start is None,
        q.end is None ==> r.end is None,
        (q.start is Some && q.end is Some && q.start->0@ == q.end->0@) ==> r.start == r.end,
        (q.start is Some && q.start->0@ == iso_text(ts, false) && -62_167_219_200 <= ts
            <= 253_402_300_799) ==> r.start == Some(Timestamp(ts)),
        (q.end is Some && q.end->0@ == iso_text(ts, false) && -62_167_219_200 <= ts
            <= 253_402_300_799) ==> r.end == Some(Timestamp(ts)),
{
    if -62_167_219_200 <= ts <= 253_402_300_799 {
        law_instants_have_texts(ts, false);
    }
}

/// A change to a changed occurrence of a written event is made to it as it was written, for the occurrence
/// and under the identifier of the address.
pub proof fn law_patch_of_an_occurrence(
    input: ObjectView,
    now: i64,
    lines: &Vec<ContentLine>,
    uid: &str,
    rid: &str,
    patch: CalendarObjectPatch,
    r: Result<CalendarObjectInput, Error>,
)
    requires
        crate::calendar::round_trip::faithful_event(input),
        carried_all(generated(input, now), lines.deep_view()),
        patch.deep_view().event is Some,
        patch.deep_view().todo is None,
        crate::calendar::time::iso_ts_reading(rid@) is Some,
        call_ensures(patch_exception, (true, Some(lines), uid, rid, patch), r),
    ensures
        r matches Ok(n) && n.deep_view().uid == Some(uid@) && n.deep_view().recurrence_id == Some(
            rid@,
        ) && n.deep_view().todo is None && n.deep_view().event is Some && event_changed(
            input.event->0,
            patch.deep_view().event->0,
            n.deep_view().event->0,
        ),
{
    law_event_comes_back(input, now, lines.deep_view());
    let c = primary(reading(lines.deep_view(), true).done)->0;
    assert(input_of(c) == input);
}

/// An address of an occurrence names the instant that it writes.
pub proof fn law_addresses_of_occurrences(ts: i64, rid: &str, r: Result<Timestamp, Error>)
    requires
        call_ensures(occurrence_at, (rid,), r),
        -62_167_219_200 <= ts <= 253_402_300_799,
    ensures
        rid@ == iso_text(ts, false) ==> r == Ok::<Timestamp, Error>(Timestamp(ts)),
{
    law_instants_have_texts(ts, false);
}

/// What was written is found by what reading it finds.
pub proof fn law_written_objects_are_found(
    lines: &Vec<ContentLine>,
    r: Result<CalendarObjectExtracted, Error>,
    p: Option<(CalendarObjectExtracted, Option<String>, Vec<String>)>,
)
    requires
        call_ensures(render_object, (lines,), r),
        call_ensures(parse, (lines,), p),
    ensures
        r is Ok <==> p is Some,
        r is Ok ==> r->Ok_0.deep_view() == (p->0).0.deep_view(),
        r is Err ==> r->Err_0 is Internal,
{
}

/// A calendar is shown with everything on record of it, and calendars in their order.
pub proof fn law_calendars_are_shown(
    cal: &Calendar,
    r: CalendarOutput,
    cals: &Vec<Calendar>,
    all: Vec<CalendarOutput>,
    i: int,
)
    requires
        call_ensures(cal_to_output, (cal,), r),
        call_ensures(list_calendars, (cals,), all),
    ensures
        r.cal_id == cal.cal_id && r.name@ == cal.name@,
        r.description.deep_view() == cal.description.deep_view(),
        r.color.deep_view() == cal.color.deep_view(),
        r.timezone.deep_view() == cal.timezone.deep_view(),
        r.components@ == cal.components@ && r.ctag@ == cal.ctag@,
        r.created_at == cal.created_at && r.updated_at == cal.updated_at,
        all@.len() == cals@.len(),
        0 <= i < cals@.len() ==> all@[i].cal_id == cals@[i].cal_id && all@[i].name@ == cals@[i].name@,
{
    let a = r.deep_view();
    let b = cal.deep_view();
    assert(a == b);
    assert(a.cal_id == b.cal_id && a.name == b.name && a.description == b.description);
    assert(a.color == b.color && a.timezone == b.timezone && a.components == b.components);
    assert(a.ctag == b.ctag && a.created_at == b.created_at && a.updated_at == b.updated_at);
    assert(all.deep_view().len() == all@.len() && cals.deep_view().len() == cals@.len());
    if 0 <= i < cals@.len() {
        assert(all.deep_view()[i] == all@[i].deep_view());
        assert(cals.deep_view()[i] == cals@[i].deep_view());
        assert(all@[i].deep_view().cal_id == cals@[i].deep_view().cal_id);
        assert(all@[i].deep_view().name == cals@[i].deep_view().name);
    }
}

/// A change to an event, field by field as a request holds it: each field that it names is the one
/// that the event has afterwards.
pub proof fn law_fields_of_a_change(t: EventInput, p: EventPatch, r: EventInput)
    requires
        r.deep_view() == patched_event(t.deep_view(), p.deep_view()),
    ensures
        p.summary is Some ==> r.summary is Some && r.summary->0@ == p.summary->0@,
        p.description is Some ==> r.description is Some && r.description->0@ == p.description->0@,
        p.location is Some ==> r.location is Some && r.location->0@ == p.location->0@,
        p.dtstart is Some ==> r.dtstart is Some && r.dtstart->0@ == p.dtstart->0@,
        p.dtend is Some ==> r.dtend is Some && r.dtend->0@ == p.dtend->0@,
        p.all_day is Some ==> r.all_day == p.all_day->0,
        p.rrule is Some ==> r.rrule is Some && r.rrule->0@ == p.rrule->0@,
        p.exdate is Some ==> r.exdate.deep_view() == p.exdate->0.deep_view(),
        p.status is Some ==> r.status is Some && r.status->0@ == p.status->0@,
        p.organizer is Some ==> r.organizer is Some && r.organizer->0@ == p.organizer->0@,
        p.attendees is Some ==> r.attendees.deep_view() == p.attendees->0.deep_view(),
        p.categories is Some ==> r.categories.deep_view() == p.categories->0.deep_view(),
        p.alarms is Some ==> r.alarms.deep_view() == p.alarms->0.deep_view(),
        p.dtstart is None ==> (r.dtstart is Some <==> t.dtstart is Some),
        p.summary is None ==> (r.summary is Some <==> t.summary is Some),
{
    let v = r.deep_view();
    assert(v.summary == r.summary.deep_view() && v.description == r.description.deep_view());
    assert(v.location == r.location.deep_view() && v.dtstart == r.dtstart.deep_view());
    assert(v.dtend == r.dtend.deep_view() && v.rrule == r.rrule.deep_view());
    assert(v.status == r.status.deep_view() && v.organizer == r.organizer.deep_view());
}

/// Times are written and read as the same instant, in the form of a calendar and in that of the structured
/// interface; a whole day as its start.
pub proof fn law_times_are_read_as_written(
    ts: i64,
    all_day: bool,
    basic: String,
    iso: String,
    basic_ref: &str,
    iso_ref: &str,
    read: Option<(i64, bool)>,
    shown_read: Option<(i64, bool)>,
)
    requires
        -62_167_219_200 <= ts <= 253_402_300_799,
        call_ensures(emit_dt, (Timestamp(ts), all_day), basic),
        call_ensures(ts_to_iso, (Timestamp(ts), all_day), iso),
        basic_ref@ == basic@,
        iso_ref@ == iso@,
        call_ensures(parse_dt, (basic_ref, all_day), read),
        call_ensures(parse_iso, (iso_ref,), shown_read),
    ensures
        read == Some(
            (
                if all_day {
                    (ts - ts as int % 86400) as i64
                } else {
                    ts
                },
                all_day,
            ),
        ),
        shown_read == read,
{
    law_instants_have_texts(ts, all_day);
}

/// A day starts as many days after the epoch as come between; there is no day outside the months, and the last
/// one of February is there in leap years only.
pub proof fn law_days_of_the_calendar(y: i32, m: u32, d: u32, day: Option<i64>)
    requires
        call_ensures(date_to_unix, (y, m, d), day),
    ensures
        y == 1970 && m == 1 && 1 <= d <= 31 ==> day == Some(((d - 1) * 86400) as i64),
        m == 0 || m > 12 || d == 0 || d > 31 ==> day is None,
        m == 2 && d == 29 ==> (day is Some ==> y as int % 4 == 0 && (y as int % 100 != 0 || y as int % 400
            == 0)),
{
    if y == 1970 && m == 1 && 1 <= d <= 31 {
        reveal_with_fuel(crate::calendar::time::days_before_month, 2);
    }
}

/// A written event that is read for the structured interface is the event that was written, without a
/// warning.
pub proof fn law_written_events_are_read(
    input: ObjectView,
    now: i64,
    lines: &Vec<ContentLine>,
    r: Option<(CalendarObjectInput, Vec<String>)>,
)
    requires
        crate::calendar::round_trip::faithful_event(input),
        carried_all(generated(input, now), lines.deep_view()),
        call_ensures(parse_to_input, (lines,), r),
    ensures
        r is Some && (r->0).0.deep_view() == input && (r->0).1@.len() == 0,
{
    law_event_comes_back(input, now, lines.deep_view());
    assert((r->0).1.deep_view().len() == (r->0).1@.len());
}

/// A series is forked only where it is known, recurs, and the fork names an instant and something that goes on.
pub proof fn law_forks_that_are_refused(
    known: bool,
    stored: Option<(&CalendarObjectExtracted, &Vec<ContentLine>)>,
    uid: &str,
    body: SplitSeriesRequest,
    minted: String,
    r: Result<SplitPlan, Error>,
)
    requires
        call_ensures(split_series, (known, stored, uid, body, minted), r),
    ensures
        !known ==> r is Err && r->Err_0 is NotFound,
        known && crate::calendar::time::iso_ts_reading(body.split_at@) is None ==> r is Err
            && r->Err_0 is ValidationError,
        stored is None ==> r is Err,
        stored is Some && (stored->0).0.rrule is None ==> r is Err,
        body.tail.event is None && body.tail.todo is None ==> r is Err,
{
    if stored is Some {
        assert((stored->0).0.deep_view().rrule is None <==> (stored->0).0.rrule is None);
    }
}

} // verus!
