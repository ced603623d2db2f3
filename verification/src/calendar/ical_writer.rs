//! Events and tasks as iCalendar content lines.
use crate::calendar::ical::{escape, escaped, OutLine, OutView};
use crate::calendar::time::{self, basic_text, iso_reading};
use crate::calendar::types::{
    Alarm, AlarmView, Attendee, AttendeeView, CalendarObjectInput, EventInput, EventView,
    ObjectView, TodoInput, TodoView,
};
use crate::decimal::{self, decimal_text};
use crate::text::{self, joined};
use crate::types::Timestamp;
use vstd::prelude::*;

verus! {

/// A line without parameters.
pub open spec fn plain_line(name: Seq<char>, value: Seq<char>, verbatim: bool) -> OutView {
    OutView { name, params: Seq::empty(), value, verbatim }
}

/// A line for a value that is there.
pub open spec fn opt_line(name: Seq<char>, value: Option<Seq<char>>, verbatim: bool) -> Seq<OutView> {
    match value {
        Some(v) => seq![plain_line(name, v, verbatim)],
        None => Seq::empty(),
    }
}

/// The line for a date or time. One that cannot be read goes out as it came.
pub open spec fn dt_line(name: Seq<char>, iso: Seq<char>, all_day: bool) -> OutView {
    match iso_reading(iso) {
        None => plain_line(name, iso, true),
        Some((ts, is_date)) => OutView {
            name,
            params: if all_day || is_date {
                seq![("VALUE"@, "DATE"@)]
            } else {
                Seq::empty()
            },
            value: basic_text(ts, all_day || is_date),
            verbatim: true,
        },
    }
}

/// The line for a date or time that is there.
pub open spec fn opt_dt_line(
    name: Seq<char>,
    iso: Option<Seq<char>>,
    all_day: bool,
) -> Seq<OutView> {
    match iso {
        Some(v) => seq![dt_line(name, v, all_day)],
        None => Seq::empty(),
    }
}

/// A line for each date or time of a list.
pub open spec fn dt_lines(name: Seq<char>, isos: Seq<Seq<char>>, all_day: bool) -> Seq<OutView> {
    isos.map_values(|iso: Seq<char>| dt_line(name, iso, all_day))
}

/// A parameter for a value that is there.
pub open spec fn opt_param(name: Seq<char>, value: Option<Seq<char>>) -> Seq<
    (Seq<char>, Seq<char>),
> {
    match value {
        Some(v) => seq![(name, v)],
        None => Seq::empty(),
    }
}

/// The line for a participant.
pub open spec fn attendee_line(a: AttendeeView) -> OutView {
    OutView {
        name: "ATTENDEE"@,
        params: opt_param("CN"@, a.cn) + opt_param("PARTSTAT"@, a.partstat) + opt_param(
            "ROLE"@,
            a.role,
        ) + opt_param(
            "RSVP"@,
            match a.rsvp {
                Some(true) => Some("TRUE"@),
                Some(false) => Some("FALSE"@),
                None => None,
            },
        ),
        value: a.address,
        verbatim: true,
    }
}

/// Categories in one text.
pub open spec fn category_list(categories: Seq<Seq<char>>) -> Seq<char> {
    joined(categories.map_values(|c: Seq<char>| escaped(c)), ","@)
}

/// The line for the categories, if there are any: each with escapes where it needs them, and
/// commas between them.
pub open spec fn category_lines(categories: Seq<Seq<char>>) -> Seq<OutView> {
    if categories.len() == 0 {
        Seq::empty()
    } else {
        seq![plain_line("CATEGORIES"@, category_list(categories), true)]
    }
}

/// The lines of a reminder.
pub open spec fn alarm_lines(a: AlarmView) -> Seq<OutView> {
    seq![plain_line("BEGIN"@, "VALARM"@, true)] + opt_line("ACTION"@, a.action, true) + opt_line(
        "TRIGGER"@,
        a.trigger,
        true,
    ) + opt_line("DESCRIPTION"@, a.description, false) + seq![
        plain_line("END"@, "VALARM"@, true),
    ]
}

/// The lines of all reminders.
pub open spec fn all_alarm_lines(alarms: Seq<AlarmView>) -> Seq<OutView>
    decreases alarms.len(),
{
    if alarms.len() == 0 {
        Seq::empty()
    } else {
        all_alarm_lines(alarms.drop_last()) + alarm_lines(alarms.last())
    }
}

/// The lines of an event that is written at `now`.
pub open spec fn event_lines(
    uid: Option<Seq<char>>,
    rid: Option<Seq<char>>,
    ev: EventView,
    now: i64,
) -> Seq<OutView> {
    seq![plain_line("BEGIN"@, "VEVENT"@, true)] + opt_line("UID"@, uid, false) + seq![
        plain_line("DTSTAMP"@, basic_text(now, false), true),
    ] + opt_dt_line("RECURRENCE-ID"@, rid, ev.all_day) + opt_line("SUMMARY"@, ev.summary, false)
        + opt_line("LOCATION"@, ev.location, false) + opt_line(
        "DESCRIPTION"@,
        ev.description,
        false,
    ) + opt_dt_line("DTSTART"@, ev.dtstart, ev.all_day) + opt_dt_line(
        "DTEND"@,
        ev.dtend,
        ev.all_day,
    ) + opt_line("RRULE"@, ev.rrule, true) + dt_lines("EXDATE"@, ev.exdate, ev.all_day) + opt_line(
        "STATUS"@,
        ev.status,
        true,
    ) + opt_line("ORGANIZER"@, ev.organizer, true) + ev.attendees.map_values(
        |a: AttendeeView| attendee_line(a),
    ) + category_lines(ev.categories) + all_alarm_lines(ev.alarms) + seq![
        plain_line("END"@, "VEVENT"@, true),
    ]
}

/// The text of a priority.
pub open spec fn priority_text(p: Option<u8>) -> Option<Seq<char>> {
    match p {
        Some(n) => Some(decimal_text(n as nat)),
        None => None,
    }
}

/// The lines of a task that is written at `now`.
pub open spec fn todo_lines(
    uid: Option<Seq<char>>,
    rid: Option<Seq<char>>,
    td: TodoView,
    now: i64,
) -> Seq<OutView> {
    seq![plain_line("BEGIN"@, "VTODO"@, true)] + opt_line("UID"@, uid, false) + seq![
        plain_line("DTSTAMP"@, basic_text(now, false), true),
    ] + opt_dt_line("RECURRENCE-ID"@, rid, false) + opt_line("SUMMARY"@, td.summary, false)
        + opt_line("DESCRIPTION"@, td.description, false) + opt_dt_line(
        "DTSTART"@,
        td.dtstart,
        false,
    ) + opt_dt_line("DUE"@, td.due, false) + opt_dt_line("COMPLETED"@, td.completed, false)
        + opt_line("PRIORITY"@, priority_text(td.priority), true) + opt_line(
        "STATUS"@,
        td.status,
        true,
    ) + opt_line("RRULE"@, td.rrule, true) + category_lines(td.categories) + all_alarm_lines(
        td.alarms,
    ) + seq![plain_line("END"@, "VTODO"@, true)]
}

/// The lines that open every calendar.
pub open spec fn calendar_head() -> Seq<OutView> {
    seq![
        plain_line("BEGIN"@, "VCALENDAR"@, true),
        plain_line("VERSION"@, "2.0"@, true),
        plain_line("PRODID"@, "-//Cloudillo//Calendar//EN"@, true),
        plain_line("CALSCALE"@, "GREGORIAN"@, true),
    ]
}

/// The lines of the event or task; of the event where there are both.
pub open spec fn component_lines(input: ObjectView, now: i64) -> Seq<OutView> {
    match (input.event, input.todo) {
        (Some(ev), _) => event_lines(input.uid, input.recurrence_id, ev, now),
        (None, Some(td)) => todo_lines(input.uid, input.recurrence_id, td, now),
        (None, None) => Seq::empty(),
    }
}

/// The lines of a calendar with one event or task, written at `now`.
pub open spec fn generated(input: ObjectView, now: i64) -> Seq<OutView> {
    calendar_head() + component_lines(input, now) + seq![plain_line("END"@, "VCALENDAR"@, true)]
}

/// Whether lines are those of a calendar with one event or task, written at some time.
pub open spec fn generated_once(lines: Seq<OutView>, input: ObjectView) -> bool {
    exists|now: i64| lines == #[trigger] generated(input, now)
}

fn write_line(
    out: &mut Vec<OutLine>,
    name: &str,
    params: Vec<(String, String)>,
    value: &str,
    verbatim: bool,
)
    ensures
        final(out).deep_view() == old(out).deep_view() + seq![
            (OutView { name: name@, params: params.deep_view(), value: value@, verbatim }),
        ],
{
    let ghost before = out.deep_view();
    let l = OutLine { name: text::owned(name), params, value: text::owned(value), verbatim };
    out.push(l);
    assert(l.deep_view() =~= (OutView {
        name: name@,
        params: params.deep_view(),
        value: value@,
        verbatim,
    }));
    assert(out.deep_view() =~= before + seq![l.deep_view()]);
}

fn write_plain(out: &mut Vec<OutLine>, name: &str, value: &str, verbatim: bool)
    ensures
        final(out).deep_view() == old(out).deep_view() + seq![plain_line(name@, value@, verbatim)],
{
    let params: Vec<(String, String)> = Vec::new();
    assert(params.deep_view() =~= Seq::empty());
    write_line(out, name, params, value, verbatim);
}

fn write_opt(out: &mut Vec<OutLine>, name: &str, value: &Option<String>, verbatim: bool)
    ensures
        final(out).deep_view() == old(out).deep_view() + opt_line(
            name@,
            value.deep_view(),
            verbatim,
        ),
{
    match value {
        Some(v) => write_plain(out, name, v.as_str(), verbatim),
        None => {
            assert(out.deep_view() =~= out.deep_view() + Seq::<OutView>::empty());
        },
    }
}

fn write_dt(out: &mut Vec<OutLine>, name: &str, iso: &str, all_day: bool)
    ensures
        final(out).deep_view() == old(out).deep_view() + seq![dt_line(name@, iso@, all_day)],
{
    match time::parse_iso(iso) {
        None => write_plain(out, name, iso, true),
        Some((ts, is_date)) => {
            let whole = all_day || is_date;
            let mut params: Vec<(String, String)> = Vec::new();
            if whole {
                params.push((text::owned("VALUE"), text::owned("DATE")));
            }
            proof {
                let expected = dt_line(name@, iso@, all_day).params;
                assert(params.deep_view() =~= expected);
            }
            let value = time::emit_dt(Timestamp(ts), whole);
            write_line(out, name, params, value.as_str(), true);
        },
    }
}

fn write_opt_dt(out: &mut Vec<OutLine>, name: &str, iso: &Option<String>, all_day: bool)
    ensures
        final(out).deep_view() == old(out).deep_view() + opt_dt_line(
            name@,
            iso.deep_view(),
            all_day,
        ),
{
    match iso {
        Some(v) => write_dt(out, name, v.as_str(), all_day),
        None => {
            assert(out.deep_view() =~= out.deep_view() + Seq::<OutView>::empty());
        },
    }
}

fn write_dts(out: &mut Vec<OutLine>, name: &str, isos: &Vec<String>, all_day: bool)
    ensures
        final(out).deep_view() == old(out).deep_view() + dt_lines(
            name@,
            isos.deep_view(),
            all_day,
        ),
{
    let ghost before = out.deep_view();
    let ghost all = dt_lines(name@, isos.deep_view(), all_day);
    let mut i: usize = 0;
    assert(before + all.take(0) =~= before);
    while i < isos.len()
        invariant
            all == dt_lines(name@, isos.deep_view(), all_day),
            i <= isos@.len(),
            out.deep_view() == before + all.take(i as int),
        decreases isos@.len() - i,
    {
        let ghost mid = out.deep_view();
        write_dt(out, name, isos[i].as_str(), all_day);
        proof {
            let l = dt_line(name@, isos@[i as int]@, all_day);
            assert(all[i as int] == l);
            assert(mid + seq![l] =~= before + all.take(i + 1));
        }
        i = i + 1;
    }
    assert(all.take(i as int) =~= all);
}

fn push_param(params: &mut Vec<(String, String)>, name: &str, value: Option<&str>)
    ensures
        final(params).deep_view() == old(params).deep_view() + opt_param(name@, value.deep_view()),
{
    let ghost before = params.deep_view();
    if let Some(v) = value {
        let p = (text::owned(name), text::owned(v));
        params.push(p);
        assert(p.deep_view() == (name@, v@));
        assert(params.deep_view() =~= before + seq![(name@, v@)]);
    } else {
        assert(params.deep_view() =~= before + Seq::<(Seq<char>, Seq<char>)>::empty());
    }
}

fn write_attendee(out: &mut Vec<OutLine>, a: &Attendee)
    ensures
        final(out).deep_view() == old(out).deep_view() + seq![attendee_line(a.deep_view())],
{
    let mut params: Vec<(String, String)> = Vec::new();
    push_param(&mut params, "CN", text::as_opt(&a.cn));
    push_param(&mut params, "PARTSTAT", text::as_opt(&a.partstat));
    push_param(&mut params, "ROLE", text::as_opt(&a.role));
    let rsvp = match a.rsvp {
        Some(true) => Some("TRUE"),
        Some(false) => Some("FALSE"),
        None => None,
    };
    push_param(&mut params, "RSVP", rsvp);
    assert(params.deep_view() =~= attendee_line(a.deep_view()).params);
    write_line(out, "ATTENDEE", params, a.address.as_str(), true);
}

fn write_attendees(out: &mut Vec<OutLine>, attendees: &Vec<Attendee>)
    ensures
        final(out).deep_view() == old(out).deep_view() + attendees.deep_view().map_values(
            |a: AttendeeView| attendee_line(a),
        ),
{
    let ghost before = out.deep_view();
    let ghost all = attendees.deep_view().map_values(|a: AttendeeView| attendee_line(a));
    let mut i: usize = 0;
    assert(before + all.take(0) =~= before);
    while i < attendees.len()
        invariant
            all == attendees.deep_view().map_values(|a: AttendeeView| attendee_line(a)),
            i <= attendees@.len(),
            out.deep_view() == before + all.take(i as int),
        decreases attendees@.len() - i,
    {
        let ghost mid = out.deep_view();
        write_attendee(out, &attendees[i]);
        proof {
            let l = attendee_line(attendees@[i as int].deep_view());
            assert(all[i as int] == l);
            assert(mid + seq![l] =~= before + all.take(i + 1));
        }
        i = i + 1;
    }
    assert(all.take(i as int) =~= all);
}

fn write_categories(out: &mut Vec<OutLine>, categories: &Vec<String>)
    ensures
        final(out).deep_view() == old(out).deep_view() + category_lines(categories.deep_view()),
{
    if categories.len() > 0 {
        let mut parts: Vec<String> = Vec::new();
        let mut i: usize = 0;
        while i < categories.len()
            invariant
                i <= categories@.len(),
                parts@.len() == i,
                forall|k: int| 0 <= k < i ==> (#[trigger] parts@[k])@ == escaped(categories@[k]@),
            decreases categories@.len() - i,
        {
            parts.push(escape(categories[i].as_str()));
            i = i + 1;
        }
        assert(parts.deep_view() =~= categories.deep_view().map_values(
            |c: Seq<char>| escaped(c),
        ));
        let value = text::join(&parts, ",");
        write_plain(out, "CATEGORIES", value.as_str(), true);
    } else {
        assert(out.deep_view() =~= out.deep_view() + Seq::<OutView>::empty());
    }
}

fn write_alarm(out: &mut Vec<OutLine>, alarm: &Alarm)
    ensures
        final(out).deep_view() == old(out).deep_view() + alarm_lines(alarm.deep_view()),
{
    let ghost before = out.deep_view();
    write_plain(out, "BEGIN", "VALARM", true);
    write_opt(out, "ACTION", &alarm.action, true);
    write_opt(out, "TRIGGER", &alarm.trigger, true);
    write_opt(out, "DESCRIPTION", &alarm.description, false);
    write_plain(out, "END", "VALARM", true);
    assert(out.deep_view() =~= before + alarm_lines(alarm.deep_view()));
}

fn write_alarms(out: &mut Vec<OutLine>, alarms: &Vec<Alarm>)
    ensures
        final(out).deep_view() == old(out).deep_view() + all_alarm_lines(alarms.deep_view()),
{
    let ghost before = out.deep_view();
    let ghost all = alarms.deep_view();
    let mut i: usize = 0;
    assert(before + all_alarm_lines(all.take(0)) =~= before);
    while i < alarms.len()
        invariant
            all == alarms.deep_view(),
            i <= alarms@.len(),
            out.deep_view() == before + all_alarm_lines(all.take(i as int)),
        decreases alarms@.len() - i,
    {
        let ghost mid = out.deep_view();
        write_alarm(out, &alarms[i]);
        proof {
            assert(all.take(i + 1).drop_last() =~= all.take(i as int));
            assert(all.take(i + 1).last() == alarms@[i as int].deep_view());
            assert(mid + alarm_lines(all[i as int]) =~= before + all_alarm_lines(all.take(i + 1)));
        }
        i = i + 1;
    }
    assert(all.take(i as int) =~= all);
}

fn write_event(uid: &Option<String>, rid: &Option<String>, ev: &EventInput, now: Timestamp) -> (out:
    Vec<OutLine>)
    ensures
        out.deep_view() == event_lines(uid.deep_view(), rid.deep_view(), ev.deep_view(), now.0),
{
    let mut out: Vec<OutLine> = Vec::new();
    write_plain(&mut out, "BEGIN", "VEVENT", true);
    assert(out.deep_view() =~= seq![plain_line("BEGIN"@, "VEVENT"@, true)]);
    write_opt(&mut out, "UID", uid, false);
    let stamp = time::emit_dt(now, false);
    write_plain(&mut out, "DTSTAMP", stamp.as_str(), true);
    write_opt_dt(&mut out, "RECURRENCE-ID", rid, ev.all_day);
    write_opt(&mut out, "SUMMARY", &ev.summary, false);
    write_opt(&mut out, "LOCATION", &ev.location, false);
    write_opt(&mut out, "DESCRIPTION", &ev.description, false);
    write_opt_dt(&mut out, "DTSTART", &ev.dtstart, ev.all_day);
    write_opt_dt(&mut out, "DTEND", &ev.dtend, ev.all_day);
    write_opt(&mut out, "RRULE", &ev.rrule, true);
    write_dts(&mut out, "EXDATE", &ev.exdate, ev.all_day);
    write_opt(&mut out, "STATUS", &ev.status, true);
    write_opt(&mut out, "ORGANIZER", &ev.organizer, true);
    write_attendees(&mut out, &ev.attendees);
    write_categories(&mut out, &ev.categories);
    write_alarms(&mut out, &ev.alarms);
    write_plain(&mut out, "END", "VEVENT", true);
    out
}

fn write_todo(uid: &Option<String>, rid: &Option<String>, td: &TodoInput, now: Timestamp) -> (out:
    Vec<OutLine>)
    ensures
        out.deep_view() == todo_lines(uid.deep_view(), rid.deep_view(), td.deep_view(), now.0),
{
    let mut out: Vec<OutLine> = Vec::new();
    write_plain(&mut out, "BEGIN", "VTODO", true);
    assert(out.deep_view() =~= seq![plain_line("BEGIN"@, "VTODO"@, true)]);
    write_opt(&mut out, "UID", uid, false);
    let stamp = time::emit_dt(now, false);
    write_plain(&mut out, "DTSTAMP", stamp.as_str(), true);
    write_opt_dt(&mut out, "RECURRENCE-ID", rid, false);
    write_opt(&mut out, "SUMMARY", &td.summary, false);
    write_opt(&mut out, "DESCRIPTION", &td.description, false);
    write_opt_dt(&mut out, "DTSTART", &td.dtstart, false);
    write_opt_dt(&mut out, "DUE", &td.due, false);
    write_opt_dt(&mut out, "COMPLETED", &td.completed, false);
    let priority = match td.priority {
        Some(p) => Some(decimal::unsigned_to_text(p as u64)),
        None => None,
    };
    write_opt(&mut out, "PRIORITY", &priority, true);
    write_opt(&mut out, "STATUS", &td.status, true);
    write_opt(&mut out, "RRULE", &td.rrule, true);
    write_categories(&mut out, &td.categories);
    write_alarms(&mut out, &td.alarms);
    write_plain(&mut out, "END", "VTODO", true);
    out
}

/// The content lines of a calendar with one event or task, written at `now`. The identifier is
/// the one of the input.
pub fn generate_at(input: &CalendarObjectInput, now: Timestamp) -> (out: Vec<OutLine>)
    ensures
        out.deep_view() == generated(input.deep_view(), now.0),
{
    let mut out: Vec<OutLine> = Vec::new();
    write_plain(&mut out, "BEGIN", "VCALENDAR", true);
    write_plain(&mut out, "VERSION", "2.0", true);
    write_plain(&mut out, "PRODID", "-//Cloudillo//Calendar//EN", true);
    write_plain(&mut out, "CALSCALE", "GREGORIAN", true);
    assert(out.deep_view() =~= calendar_head());
    let mut body = match (&input.event, &input.todo) {
        (Some(ev), _) => write_event(&input.uid, &input.recurrence_id, ev, now),
        (None, Some(td)) => write_todo(&input.uid, &input.recurrence_id, td, now),
        (None, None) => Vec::new(),
    };
    assert(body.deep_view() =~= component_lines(input.deep_view(), now.0));
    let ghost mid = body.deep_view();
    out.append(&mut body);
    assert(out.deep_view() =~= calendar_head() + mid);
    write_plain(&mut out, "END", "VCALENDAR", true);
    out
}

/// The content lines of a calendar with one event or task, written now.
pub fn generate(input: &CalendarObjectInput) -> (out: Vec<OutLine>)
    ensures
        generated_once(out.deep_view(), input.deep_view()),
{
    generate_at(input, Timestamp::now())
}

} // verus!
