//! What comes back of an event or a task that was written as iCalendar.
use crate::calendar::ical::{
    alarm_took, attendee_of, categories_in, closed, dates_in, entries_in, escape_of, escaped, fresh,
    input_of, keyword, last_master, marked_date, no_alarm, opened, param_of, plain_comma,
    plain_pieces, primary, read_lines, reading, stepped, took, unescaped, unread, ComponentView,
    LineView, OutView, RawView, ReaderView,
};
use crate::calendar::ical_writer::{
    alarm_lines, all_alarm_lines, attendee_line, calendar_head, category_lines, category_list,
    dt_line, dt_lines, event_lines, generated, opt_dt_line, opt_line, opt_param, plain_line,
    priority_text, todo_lines,
};
use crate::calendar::time::{
    basic_text, dt_reading, is_iso, iso_reading, iso_text, law_time_text_comes_back,
};
use crate::calendar::types::{AlarmView, AttendeeView, EventView, ObjectView, TodoView};
use crate::decimal;
use crate::text::{ascii_upper_all, joined, lemma_before_char, split_on, trimmed};
use vstd::prelude::*;

verus! {

/// Whether a line is what a written line is read as: the same name, parameters and text, and
/// where it was written verbatim, the same value. The categories, whose escapes are part of what
/// is written, may have another text.
pub open spec fn carried(w: OutView, l: LineView) -> bool {
    &&& trimmed(l.line).len() > 0
    &&& l.parts matches Some(raw) && raw.name == w.name && raw.params == w.params && (w.name
        != "CATEGORIES"@ ==> raw.text == w.value) && (w.verbatim ==> raw.value == w.value)
}

/// Whether lines are what written lines are read as.
pub open spec fn carried_all(ws: Seq<OutView>, ls: Seq<LineView>) -> bool {
    ws.len() == ls.len() && forall|i: int|
        0 <= i < ws.len() ==> carried(#[trigger] ws[i], ls[i])
}

/// The instant that comes back of a date or time.
pub open spec fn stored(iso: Seq<char>, all_day: bool) -> Option<(i64, bool)> {
    match iso_reading(iso) {
        Some((ts, is_date)) => dt_reading(basic_text(ts, all_day || is_date), all_day || is_date),
        None => dt_reading(iso, false),
    }
}

/// The instant that comes back of a date or time that is there.
pub open spec fn stored_opt(iso: Option<Seq<char>>, all_day: bool) -> Option<(i64, bool)> {
    match iso {
        Some(v) => stored(v, all_day),
        None => None,
    }
}

/// An instant without its mark for a whole day.
pub open spec fn instant(t: Option<(i64, bool)>) -> Option<i64> {
    match t {
        Some((ts, _)) => Some(ts),
        None => None,
    }
}

/// The instants that come back of a list of excluded occurrences.
pub open spec fn stored_list(isos: Seq<Seq<char>>, all_day: bool) -> Seq<(i64, bool)>
    decreases isos.len(),
{
    if isos.len() == 0 {
        Seq::empty()
    } else {
        let l = dt_line("EXDATE"@, isos.last(), all_day);
        stored_list(isos.drop_last(), all_day) + dates_in(
            split_on(l.value, ','),
            marked_date(as_raw(l)),
        )
    }
}

/// The categories that come back.
pub open spec fn stored_categories(categories: Seq<Seq<char>>) -> Seq<Seq<char>> {
    if categories.len() == 0 {
        Seq::empty()
    } else {
        categories_in(category_list(categories))
    }
}

pub open spec fn map_opt(v: Option<Seq<char>>, f: spec_fn(Seq<char>) -> Seq<char>) -> Option<
    Seq<char>,
> {
    match v {
        Some(x) => Some(f(x)),
        None => None,
    }
}

/// The reminder that comes back.
pub open spec fn stored_alarm(a: AlarmView) -> AlarmView {
    AlarmView {
        action: map_opt(a.action, |v: Seq<char>| keyword(v)),
        trigger: map_opt(a.trigger, |v: Seq<char>| trimmed(v)),
        description: a.description,
    }
}

/// The event that comes back.
pub open spec fn stored_event(
    uid: Option<Seq<char>>,
    rid: Option<Seq<char>>,
    ev: EventView,
) -> ComponentView {
    ComponentView {
        uid,
        summary: ev.summary,
        description: ev.description,
        location: ev.location,
        dtstart: stored_opt(ev.dtstart, ev.all_day),
        dtend: stored_opt(ev.dtend, ev.all_day),
        rrule: map_opt(ev.rrule, |v: Seq<char>| trimmed(v)),
        exdate: stored_list(ev.exdate, ev.all_day),
        status: map_opt(ev.status, |v: Seq<char>| keyword(v)),
        organizer: ev.organizer,
        attendees: ev.attendees,
        categories: stored_categories(ev.categories),
        alarms: ev.alarms.map_values(|a: AlarmView| stored_alarm(a)),
        recurrence_id: instant(stored_opt(rid, ev.all_day)),
        ..fresh("VEVENT"@)
    }
}

/// The task that comes back.
pub open spec fn stored_todo(
    uid: Option<Seq<char>>,
    rid: Option<Seq<char>>,
    td: TodoView,
) -> ComponentView {
    ComponentView {
        uid,
        summary: td.summary,
        description: td.description,
        dtstart: stored_opt(td.dtstart, false),
        dtend: stored_opt(td.due, false),
        completed: stored_opt(td.completed, false),
        priority: td.priority,
        rrule: map_opt(td.rrule, |v: Seq<char>| trimmed(v)),
        status: map_opt(td.status, |v: Seq<char>| keyword(v)),
        categories: stored_categories(td.categories),
        alarms: td.alarms.map_values(|a: AlarmView| stored_alarm(a)),
        recurrence_id: instant(stored_opt(rid, false)),
        ..fresh("VTODO"@)
    }
}

/// A written line taken apart as if its value needed no escapes.
pub open spec fn as_raw(w: OutView) -> RawView {
    RawView { name: w.name, params: w.params, value: w.value, text: w.value }
}

spec fn out_stepped(s: ReaderView, w: OutView) -> ReaderView {
    let raw = as_raw(w);
    if raw.name == "BEGIN"@ {
        opened(s, ascii_upper_all(raw.value), true)
    } else if raw.name == "END"@ {
        closed(s, ascii_upper_all(raw.value), true)
    } else if s.alarm is Some {
        ReaderView { alarm: Some(alarm_took(s.alarm->Some_0, raw)), ..s }
    } else if s.current is Some {
        ReaderView { current: Some(took(s.current->Some_0, raw)), ..s }
    } else {
        s
    }
}

spec fn read_out(s: ReaderView, ws: Seq<OutView>) -> ReaderView
    decreases ws.len(),
{
    if ws.len() == 0 {
        s
    } else {
        out_stepped(read_out(s, ws.drop_last()), ws.last())
    }
}

/// The properties whose escaped value is read through its text only.
spec fn text_name(name: Seq<char>) -> bool {
    name == "UID"@ || name == "SUMMARY"@ || name == "LOCATION"@ || name == "DESCRIPTION"@
}

spec fn readable(ws: Seq<OutView>) -> bool {
    forall|i: int| 0 <= i < ws.len() ==> (#[trigger] ws[i]).verbatim || text_name(ws[i].name)
}

/// A mark by which the property names in use are told apart.
#[verifier::opaque]
pub(crate) open spec fn mark(s: Seq<char>) -> (nat, char, char) {
    (s.len(), s[0], s.last())
}

pub(crate) proof fn lemma_names_differ()
    ensures
        mark("UID"@) == (3nat, 'U', 'D'),
        mark("SUMMARY"@) == (7nat, 'S', 'Y'),
        mark("LOCATION"@) == (8nat, 'L', 'N'),
        mark("DESCRIPTION"@) == (11nat, 'D', 'N'),
        mark("STATUS"@) == (6nat, 'S', 'S'),
        mark("PRIORITY"@) == (8nat, 'P', 'Y'),
        mark("ORGANIZER"@) == (9nat, 'O', 'R'),
        mark("RRULE"@) == (5nat, 'R', 'E'),
        mark("SEQUENCE"@) == (8nat, 'S', 'E'),
        mark("DTSTART"@) == (7nat, 'D', 'T'),
        mark("DTEND"@) == (5nat, 'D', 'D'),
        mark("DUE"@) == (3nat, 'D', 'E'),
        mark("COMPLETED"@) == (9nat, 'C', 'D'),
        mark("EXDATE"@) == (6nat, 'E', 'E'),
        mark("RECURRENCE-ID"@) == (13nat, 'R', 'D'),
        mark("ATTENDEE"@) == (8nat, 'A', 'E'),
        mark("CATEGORIES"@) == (10nat, 'C', 'S'),
        mark("DTSTAMP"@) == (7nat, 'D', 'P'),
        mark("BEGIN"@) == (5nat, 'B', 'N'),
        mark("END"@) == (3nat, 'E', 'D'),
        mark("ACTION"@) == (6nat, 'A', 'N'),
        mark("TRIGGER"@) == (7nat, 'T', 'R'),
        mark("VERSION"@) == (7nat, 'V', 'N'),
        mark("PRODID"@) == (6nat, 'P', 'D'),
        mark("CALSCALE"@) == (8nat, 'C', 'E'),
{
    reveal(mark);
    reveal_strlit("UID");
    reveal_strlit("SUMMARY");
    reveal_strlit("LOCATION");
    reveal_strlit("DESCRIPTION");
    reveal_strlit("STATUS");
    reveal_strlit("PRIORITY");
    reveal_strlit("ORGANIZER");
    reveal_strlit("RRULE");
    reveal_strlit("SEQUENCE");
    reveal_strlit("DTSTART");
    reveal_strlit("DTEND");
    reveal_strlit("DUE");
    reveal_strlit("COMPLETED");
    reveal_strlit("EXDATE");
    reveal_strlit("RECURRENCE-ID");
    reveal_strlit("ATTENDEE");
    reveal_strlit("CATEGORIES");
    reveal_strlit("DTSTAMP");
    reveal_strlit("BEGIN");
    reveal_strlit("END");
    reveal_strlit("ACTION");
    reveal_strlit("TRIGGER");
    reveal_strlit("VERSION");
    reveal_strlit("PRODID");
    reveal_strlit("CALSCALE");
}

proof fn lemma_carried_reads_alike(s: ReaderView, ws: Seq<OutView>, ls: Seq<LineView>)
    requires
        carried_all(ws, ls),
        readable(ws),
    ensures
        read_lines(s, ls, true) == read_out(s, ws),
    decreases ws.len(),
{
    if ws.len() > 0 {
        lemma_carried_reads_alike(s, ws.drop_last(), ls.drop_last());
        assert(carried(ws[ws.len() - 1], ls[ls.len() - 1]));
        assert(ws[ws.len() - 1].verbatim || text_name(ws[ws.len() - 1].name));
        lemma_steps_alike(read_out(s, ws.drop_last()), ws.last(), ls.last());
    }
}

proof fn lemma_steps_alike(s: ReaderView, w: OutView, l: LineView)
    requires
        carried(w, l),
        w.verbatim || text_name(w.name),
    ensures
        stepped(s, l, true) == out_stepped(s, w),
{
    let raw = l.parts->Some_0;
    if w.verbatim && w.name != "CATEGORIES"@ {
        assert(raw =~= as_raw(w));
    } else {
        lemma_names_differ();
        if s.alarm is Some {
            assert(alarm_took(s.alarm->Some_0, raw) == alarm_took(s.alarm->Some_0, as_raw(w)));
        } else if s.current is Some {
            assert(took(s.current->Some_0, raw) == took(s.current->Some_0, as_raw(w)));
        }
    }
}

proof fn lemma_read_out_append(s: ReaderView, a: Seq<OutView>, b: Seq<OutView>)
    ensures
        read_out(s, a + b) == read_out(read_out(s, a), b),
    decreases b.len(),
{
    if b.len() == 0 {
        assert(a + b =~= a);
    } else {
        assert((a + b).drop_last() =~= a + b.drop_last());
        lemma_read_out_append(s, a, b.drop_last());
    }
}

proof fn lemma_read_one(s: ReaderView, w: OutView)
    ensures
        read_out(s, seq![w]) == out_stepped(s, w),
{
    assert(seq![w].drop_last() =~= Seq::empty());
    assert(read_out(s, seq![w].drop_last()) == s);
}

/// A reader inside an event or a task of a calendar.
spec fn at(kind: Seq<char>, c: ComponentView) -> ReaderView {
    ReaderView {
        stack: seq!["VCALENDAR"@, kind],
        done: Seq::empty(),
        current: Some(c),
        alarm: None,
        warnings: Seq::empty(),
    }
}

/// Whether a line is a property, and neither opens nor closes a component.
pub(crate) open spec fn property_name(name: Seq<char>) -> bool {
    name != "BEGIN"@ && name != "END"@
}

proof fn lemma_one(kind: Seq<char>, c: ComponentView, w: OutView)
    requires
        property_name(w.name),
    ensures
        read_out(at(kind, c), seq![w]) == at(kind, took(c, as_raw(w))),
{
    lemma_read_one(at(kind, c), w);
    assert(out_stepped(at(kind, c), w) =~= at(kind, took(c, as_raw(w))));
}

proof fn lemma_opt(
    kind: Seq<char>,
    c: ComponentView,
    name: Seq<char>,
    v: Option<Seq<char>>,
    verbatim: bool,
)
    requires
        property_name(name),
    ensures
        read_out(at(kind, c), opt_line(name, v, verbatim)) == at(
            kind,
            match v {
                Some(x) => took(c, as_raw(plain_line(name, x, verbatim))),
                None => c,
            },
        ),
{
    if let Some(x) = v {
        lemma_one(kind, c, plain_line(name, x, verbatim));
    }
}

proof fn lemma_dt_stored(name: Seq<char>, iso: Seq<char>, all_day: bool)
    ensures
        dt_reading(
            dt_line(name, iso, all_day).value,
            marked_date(as_raw(dt_line(name, iso, all_day))),
        ) == stored(iso, all_day),
        dt_line(name, iso, all_day).name == name,
        dt_line(name, iso, all_day).verbatim,
{
    let w = dt_line(name, iso, all_day);
    if w.params.len() > 0 {
        assert(w.params[0] == ("VALUE"@, "DATE"@));
        assert(param_of(w.params, "VALUE"@) == Some("DATE"@));
    } else {
        assert(param_of(w.params, "VALUE"@) is None);
    }
}

proof fn lemma_opt_dt(
    kind: Seq<char>,
    c: ComponentView,
    name: Seq<char>,
    v: Option<Seq<char>>,
    all_day: bool,
)
    requires
        property_name(name),
    ensures
        read_out(at(kind, c), opt_dt_line(name, v, all_day)) == at(
            kind,
            match v {
                Some(x) => took(c, as_raw(dt_line(name, x, all_day))),
                None => c,
            },
        ),
        v matches Some(x) ==> dt_reading(
            dt_line(name, x, all_day).value,
            marked_date(as_raw(dt_line(name, x, all_day))),
        ) == stored(x, all_day),
        v matches Some(x) ==> dt_line(name, x, all_day).name == name,
{
    if let Some(x) = v {
        lemma_dt_stored(name, x, all_day);
        lemma_one(kind, c, dt_line(name, x, all_day));
    }
}

proof fn lemma_exdates(kind: Seq<char>, c: ComponentView, isos: Seq<Seq<char>>, all_day: bool)
    ensures
        read_out(at(kind, c), dt_lines("EXDATE"@, isos, all_day)) == at(
            kind,
            ComponentView { exdate: c.exdate + stored_list(isos, all_day), ..c },
        ),
    decreases isos.len(),
{
    let ws = dt_lines("EXDATE"@, isos, all_day);
    if isos.len() == 0 {
        assert(c.exdate + stored_list(isos, all_day) =~= c.exdate);
    } else {
        let d = ComponentView { exdate: c.exdate + stored_list(isos.drop_last(), all_day), ..c };
        let w = dt_line("EXDATE"@, isos.last(), all_day);
        lemma_exdates(kind, c, isos.drop_last(), all_day);
        assert(ws.drop_last() =~= dt_lines("EXDATE"@, isos.drop_last(), all_day));
        assert(ws.last() == w);
        lemma_dt_stored("EXDATE"@, isos.last(), all_day);
        lemma_names_differ();
        lemma_one(kind, d, w);
        lemma_read_one(at(kind, d), w);
        let after = took(d, as_raw(w));
        assert(after.exdate =~= c.exdate + stored_list(isos, all_day));
        assert(after =~= (ComponentView { exdate: c.exdate + stored_list(isos, all_day), ..c }));
    }
}

proof fn lemma_attendee(a: AttendeeView)
    ensures
        attendee_of(as_raw(attendee_line(a))) == a,
{
    reveal_strlit("CN");
    reveal_strlit("PARTSTAT");
    reveal_strlit("ROLE");
    reveal_strlit("RSVP");
    reveal_strlit("TRUE");
    reveal_strlit("FALSE");
    assert("CN"@.len() == 2 && "PARTSTAT"@.len() == 8 && "ROLE"@.len() == 4 && "RSVP"@.len() == 4);
    assert("ROLE"@[1] != "RSVP"@[1]);
    let p1 = opt_param("CN"@, a.cn);
    let p2 = opt_param("PARTSTAT"@, a.partstat);
    let p3 = opt_param("ROLE"@, a.role);
    let rsvp = match a.rsvp {
        Some(true) => Some("TRUE"@),
        Some(false) => Some("FALSE"@),
        None => None,
    };
    let p4 = opt_param("RSVP"@, rsvp);
    let p = attendee_line(a).params;
    assert(p == p1 + p2 + p3 + p4);
    assert forall|name: Seq<char>| #[trigger]
        param_of(p, name) == (if name == "CN"@ && a.cn is Some {
        a.cn
    } else if name == "PARTSTAT"@ && a.partstat is Some {
        a.partstat
    } else if name == "ROLE"@ && a.role is Some {
        a.role
    } else if name == "RSVP"@ && rsvp is Some {
        rsvp
    } else {
        None
    }) by {
        lemma_param_skips(p1, p2 + p3 + p4, name);
        lemma_param_skips(p2, p3 + p4, name);
        lemma_param_skips(p3, p4, name);
        lemma_param_skips(p4, Seq::empty(), name);
        assert(p4 + Seq::<(Seq<char>, Seq<char>)>::empty() =~= p4);
        assert(p1 + (p2 + p3 + p4) =~= p);
        assert(p2 + (p3 + p4) =~= p2 + p3 + p4);
    }
    assert(ascii_upper_all("TRUE"@).len() != ascii_upper_all("FALSE"@).len());
    assert("CN"@ != "PARTSTAT"@ && "CN"@ != "ROLE"@ && "CN"@ != "RSVP"@);
    assert("PARTSTAT"@ != "ROLE"@ && "PARTSTAT"@ != "RSVP"@ && "ROLE"@ != "RSVP"@);
    assert(param_of(p, "CN"@) == a.cn);
    assert(param_of(p, "PARTSTAT"@) == a.partstat);
    assert(param_of(p, "ROLE"@) == a.role);
    assert(param_of(p, "RSVP"@) == rsvp);
    assert(attendee_of(as_raw(attendee_line(a))).rsvp == a.rsvp);
    assert(attendee_of(as_raw(attendee_line(a))) =~= a);
}

/// A list of at most one parameter is either the answer or of no account.
proof fn lemma_param_skips(
    a: Seq<(Seq<char>, Seq<char>)>,
    b: Seq<(Seq<char>, Seq<char>)>,
    name: Seq<char>,
)
    requires
        a.len() <= 1,
    ensures
        param_of(a + b, name) == if a.len() == 1 && a[0].0 == name {
            Some(a[0].1)
        } else {
            param_of(b, name)
        },
{
    if a.len() == 0 {
        assert(a + b =~= b);
    } else {
        assert((a + b)[0] == a[0]);
        assert((a + b).drop_first() =~= b);
    }
}

proof fn lemma_attendees(kind: Seq<char>, c: ComponentView, list: Seq<AttendeeView>)
    ensures
        read_out(at(kind, c), list.map_values(|a: AttendeeView| attendee_line(a))) == at(
            kind,
            ComponentView { attendees: c.attendees + list, ..c },
        ),
    decreases list.len(),
{
    let ws = list.map_values(|a: AttendeeView| attendee_line(a));
    if list.len() == 0 {
        assert(c.attendees + list =~= c.attendees);
    } else {
        let d = ComponentView { attendees: c.attendees + list.drop_last(), ..c };
        let w = attendee_line(list.last());
        lemma_attendees(kind, c, list.drop_last());
        assert(ws.drop_last() =~= list.drop_last().map_values(|a: AttendeeView| attendee_line(a)));
        assert(ws.last() == w);
        lemma_attendee(list.last());
        lemma_names_differ();
        lemma_one(kind, d, w);
        lemma_read_one(at(kind, d), w);
        let after = took(d, as_raw(w));
        assert(after.attendees =~= c.attendees + list);
        assert(after =~= (ComponentView { attendees: c.attendees + list, ..c }));
    }
}

pub(crate) proof fn lemma_components_upper()
    ensures
        ascii_upper_all("VCALENDAR"@) == "VCALENDAR"@,
        ascii_upper_all("VEVENT"@) == "VEVENT"@,
        ascii_upper_all("VTODO"@) == "VTODO"@,
        ascii_upper_all("VALARM"@) == "VALARM"@,
        "VCALENDAR"@.len() == 9,
        "VEVENT"@.len() == 6,
        "VTODO"@.len() == 5,
        "VALARM"@.len() == 6,
        "VEVENT"@ != "VALARM"@,
{
    reveal_strlit("VCALENDAR");
    reveal_strlit("VEVENT");
    reveal_strlit("VTODO");
    reveal_strlit("VALARM");
    assert(ascii_upper_all("VCALENDAR"@) =~= "VCALENDAR"@);
    assert(ascii_upper_all("VEVENT"@) =~= "VEVENT"@);
    assert(ascii_upper_all("VTODO"@) =~= "VTODO"@);
    assert(ascii_upper_all("VALARM"@) =~= "VALARM"@);
    assert("VEVENT"@[1] != "VALARM"@[1]);
}

/// A reader inside a reminder.
spec fn at_alarm(kind: Seq<char>, c: ComponentView, a: AlarmView) -> ReaderView {
    ReaderView {
        stack: seq!["VCALENDAR"@, kind, "VALARM"@],
        done: Seq::empty(),
        current: Some(c),
        alarm: Some(a),
        warnings: Seq::empty(),
    }
}

proof fn lemma_alarm_opt(
    kind: Seq<char>,
    c: ComponentView,
    a: AlarmView,
    name: Seq<char>,
    v: Option<Seq<char>>,
    verbatim: bool,
)
    requires
        property_name(name),
    ensures
        read_out(at_alarm(kind, c, a), opt_line(name, v, verbatim)) == at_alarm(
            kind,
            c,
            match v {
                Some(x) => alarm_took(a, as_raw(plain_line(name, x, verbatim))),
                None => a,
            },
        ),
{
    if let Some(x) = v {
        let w = plain_line(name, x, verbatim);
        lemma_read_one(at_alarm(kind, c, a), w);
        assert(out_stepped(at_alarm(kind, c, a), w) =~= at_alarm(
            kind,
            c,
            alarm_took(a, as_raw(w)),
        ));
    }
}

proof fn lemma_alarm(kind: Seq<char>, c: ComponentView, a: AlarmView)
    requires
        c.kind == kind,
        kind == "VEVENT"@ || kind == "VTODO"@,
    ensures
        read_out(at(kind, c), alarm_lines(a)) == at(
            kind,
            ComponentView { alarms: c.alarms.push(stored_alarm(a)), ..c },
        ),
{
    lemma_names_differ();
    lemma_components_upper();
    let start = at(kind, c);
    let b = plain_line("BEGIN"@, "VALARM"@, true);
    let e = plain_line("END"@, "VALARM"@, true);
    let w1 = seq![b];
    lemma_read_one(start, b);
    assert(read_out(start, w1) =~= at_alarm(kind, c, no_alarm()));
    let o1 = opt_line("ACTION"@, a.action, true);
    lemma_read_out_append(start, w1, o1);
    lemma_alarm_opt(kind, c, no_alarm(), "ACTION"@, a.action, true);
    let a1 = AlarmView { action: stored_alarm(a).action, ..no_alarm() };
    assert(read_out(start, w1 + o1) == at_alarm(kind, c, a1));
    let o2 = opt_line("TRIGGER"@, a.trigger, true);
    lemma_read_out_append(start, w1 + o1, o2);
    lemma_alarm_opt(kind, c, a1, "TRIGGER"@, a.trigger, true);
    let a2 = AlarmView { trigger: stored_alarm(a).trigger, ..a1 };
    assert(read_out(start, w1 + o1 + o2) == at_alarm(kind, c, a2));
    let o3 = opt_line("DESCRIPTION"@, a.description, false);
    lemma_read_out_append(start, w1 + o1 + o2, o3);
    lemma_alarm_opt(kind, c, a2, "DESCRIPTION"@, a.description, false);
    assert(read_out(start, w1 + o1 + o2 + o3) == at_alarm(kind, c, stored_alarm(a)));
    lemma_read_out_append(start, w1 + o1 + o2 + o3, seq![e]);
    let s = at_alarm(kind, c, stored_alarm(a));
    lemma_read_one(s, e);
    assert(s.stack.drop_last() =~= seq!["VCALENDAR"@, kind]);
    assert(closed(s, "VALARM"@, true) =~= at(
        kind,
        ComponentView { alarms: c.alarms.push(stored_alarm(a)), ..c },
    ));
}

proof fn lemma_alarms(kind: Seq<char>, c: ComponentView, list: Seq<AlarmView>)
    requires
        c.kind == kind,
        kind == "VEVENT"@ || kind == "VTODO"@,
    ensures
        read_out(at(kind, c), all_alarm_lines(list)) == at(
            kind,
            ComponentView {
                alarms: c.alarms + list.map_values(|a: AlarmView| stored_alarm(a)),
                ..c
            },
        ),
    decreases list.len(),
{
    let back = list.map_values(|a: AlarmView| stored_alarm(a));
    if list.len() == 0 {
        assert(c.alarms + back =~= c.alarms);
    } else {
        let rest = list.drop_last().map_values(|a: AlarmView| stored_alarm(a));
        let d = ComponentView { alarms: c.alarms + rest, ..c };
        lemma_alarms(kind, c, list.drop_last());
        lemma_read_out_append(
            at(kind, c),
            all_alarm_lines(list.drop_last()),
            alarm_lines(list.last()),
        );
        lemma_alarm(kind, d, list.last());
        assert((c.alarms + rest).push(stored_alarm(list.last())) =~= c.alarms + back);
    }
}

proof fn lemma_categories(kind: Seq<char>, c: ComponentView, categories: Seq<Seq<char>>)
    requires
        c.categories == Seq::<Seq<char>>::empty(),
    ensures
        read_out(at(kind, c), category_lines(categories)) == at(
            kind,
            ComponentView { categories: stored_categories(categories), ..c },
        ),
{
    lemma_names_differ();
    if categories.len() > 0 {
        let w = plain_line("CATEGORIES"@, category_list(categories), true);
        lemma_one(kind, c, w);
        assert(took(c, as_raw(w)).categories =~= stored_categories(categories));
        assert(took(c, as_raw(w)) =~= (ComponentView {
            categories: stored_categories(categories),
            ..c
        }));
    } else {
        assert((ComponentView { categories: stored_categories(categories), ..c }) =~= c);
    }
}

/// Reading the opening lines of a calendar and the `BEGIN` of its event or task.
proof fn lemma_head(kind: Seq<char>)
    requires
        kind == "VEVENT"@ || kind == "VTODO"@,
    ensures
        read_out(unread(), calendar_head() + seq![plain_line("BEGIN"@, kind, true)]) == at(
            kind,
            fresh(kind),
        ),
        read_out(unread(), calendar_head()).stack == seq!["VCALENDAR"@],
{
    lemma_names_differ();
    lemma_components_upper();
    let h = calendar_head();
    let l0 = plain_line("BEGIN"@, "VCALENDAR"@, true);
    let s1 = ReaderView { stack: seq!["VCALENDAR"@], ..unread() };
    assert(h.drop_last().drop_last().drop_last() =~= seq![l0]);
    lemma_read_one(unread(), l0);
    assert(read_out(unread(), seq![l0]) =~= s1);
    assert(read_out(unread(), h.drop_last().drop_last()) == s1);
    assert(read_out(unread(), h.drop_last()) == s1);
    assert(read_out(unread(), h) == s1);
    let b = plain_line("BEGIN"@, kind, true);
    lemma_read_out_append(unread(), h, seq![b]);
    lemma_read_one(s1, b);
    assert(read_out(unread(), h + seq![b]) =~= at(kind, fresh(kind)));
}

/// Reading the `END` of an event or a task and that of its calendar.
proof fn lemma_tail(kind: Seq<char>, c: ComponentView)
    requires
        c.kind == kind,
        kind == "VEVENT"@ || kind == "VTODO"@,
    ensures
        read_out(
            at(kind, c),
            seq![plain_line("END"@, kind, true)] + seq![plain_line("END"@, "VCALENDAR"@, true)],
        ) == (ReaderView { done: seq![c], ..unread() }),
{
    lemma_names_differ();
    lemma_components_upper();
    let e1 = plain_line("END"@, kind, true);
    let e2 = plain_line("END"@, "VCALENDAR"@, true);
    lemma_read_out_append(at(kind, c), seq![e1], seq![e2]);
    lemma_read_one(at(kind, c), e1);
    let s = ReaderView { stack: seq!["VCALENDAR"@], done: seq![c], ..unread() };
    assert(at(kind, c).stack.drop_last() =~= seq!["VCALENDAR"@]);
    assert(read_out(at(kind, c), seq![e1]) =~= s);
    lemma_read_one(s, e2);
    assert(s.stack.drop_last() =~= Seq::empty());
    assert(out_stepped(s, e2) =~= (ReaderView { done: seq![c], ..unread() }));
}

proof fn lemma_readable(a: Seq<OutView>, b: Seq<OutView>)
    requires
        readable(a),
        readable(b),
    ensures
        readable(a + b),
{
}

proof fn lemma_alarms_readable(list: Seq<AlarmView>)
    ensures
        readable(all_alarm_lines(list)),
    decreases list.len(),
{
    if list.len() > 0 {
        lemma_alarms_readable(list.drop_last());
        assert(readable(alarm_lines(list.last())));
    }
}

/// A priority reads back.
proof fn lemma_priority(p: Option<u8>)
    ensures
        p matches Some(n) ==> decimal::unsigned_of(trimmed(priority_text(p)->Some_0), 255) == Some(
            n as int,
        ),
{
    if let Some(n) = p {
        let t = decimal::decimal_text(n as nat);
        decimal::law_decimal_reads_back(n as nat, 255);
        decimal::law_decimal_round_trip(n as nat);
        assert(decimal::is_digit(t[0]) && decimal::is_digit(t.last()));
        assert(trimmed(t) == t);
    }
}

proof fn lemma_uid(
    s: ReaderView,
    w: Seq<OutView>,
    k: Seq<char>,
    c: ComponentView,
    v: Option<Seq<char>>,
)
    requires
        read_out(s, w) == at(k, c),
        readable(w),
        c.uid is None,
    ensures
        read_out(s, w + opt_line("UID"@, v, false)) == at(
            k,
            (ComponentView { uid: v, ..c }),
        ),
        readable(w + opt_line("UID"@, v, false)),
{
    lemma_names_differ();
    let g = opt_line("UID"@, v, false);
    lemma_read_out_append(s, w, g);
    lemma_opt(k, c, "UID"@, v, false);
    let next = ComponentView { uid: v, ..c };
    if let Some(x) = v {
        assert(took(c, as_raw(plain_line("UID"@, x, false))) =~= next);
    } else {
        assert(c =~= next);
    }
    assert(readable(g));
    lemma_readable(w, g);
}

proof fn lemma_summary(
    s: ReaderView,
    w: Seq<OutView>,
    k: Seq<char>,
    c: ComponentView,
    v: Option<Seq<char>>,
)
    requires
        read_out(s, w) == at(k, c),
        readable(w),
        c.summary is None,
    ensures
        read_out(s, w + opt_line("SUMMARY"@, v, false)) == at(
            k,
            (ComponentView { summary: v, ..c }),
        ),
        readable(w + opt_line("SUMMARY"@, v, false)),
{
    lemma_names_differ();
    let g = opt_line("SUMMARY"@, v, false);
    lemma_read_out_append(s, w, g);
    lemma_opt(k, c, "SUMMARY"@, v, false);
    let next = ComponentView { summary: v, ..c };
    if let Some(x) = v {
        assert(took(c, as_raw(plain_line("SUMMARY"@, x, false))) =~= next);
    } else {
        assert(c =~= next);
    }
    assert(readable(g));
    lemma_readable(w, g);
}

proof fn lemma_location(
    s: ReaderView,
    w: Seq<OutView>,
    k: Seq<char>,
    c: ComponentView,
    v: Option<Seq<char>>,
)
    requires
        read_out(s, w) == at(k, c),
        readable(w),
        c.location is None,
    ensures
        read_out(s, w + opt_line("LOCATION"@, v, false)) == at(
            k,
            (ComponentView { location: v, ..c }),
        ),
        readable(w + opt_line("LOCATION"@, v, false)),
{
    lemma_names_differ();
    let g = opt_line("LOCATION"@, v, false);
    lemma_read_out_append(s, w, g);
    lemma_opt(k, c, "LOCATION"@, v, false);
    let next = ComponentView { location: v, ..c };
    if let Some(x) = v {
        assert(took(c, as_raw(plain_line("LOCATION"@, x, false))) =~= next);
    } else {
        assert(c =~= next);
    }
    assert(readable(g));
    lemma_readable(w, g);
}

proof fn lemma_description(
    s: ReaderView,
    w: Seq<OutView>,
    k: Seq<char>,
    c: ComponentView,
    v: Option<Seq<char>>,
)
    requires
        read_out(s, w) == at(k, c),
        readable(w),
        c.description is None,
    ensures
        read_out(s, w + opt_line("DESCRIPTION"@, v, false)) == at(
            k,
            (ComponentView { description: v, ..c }),
        ),
        readable(w + opt_line("DESCRIPTION"@, v, false)),
{
    lemma_names_differ();
    let g = opt_line("DESCRIPTION"@, v, false);
    lemma_read_out_append(s, w, g);
    lemma_opt(k, c, "DESCRIPTION"@, v, false);
    let next = ComponentView { description: v, ..c };
    if let Some(x) = v {
        assert(took(c, as_raw(plain_line("DESCRIPTION"@, x, false))) =~= next);
    } else {
        assert(c =~= next);
    }
    assert(readable(g));
    lemma_readable(w, g);
}

proof fn lemma_rrule(
    s: ReaderView,
    w: Seq<OutView>,
    k: Seq<char>,
    c: ComponentView,
    v: Option<Seq<char>>,
)
    requires
        read_out(s, w) == at(k, c),
        readable(w),
        c.rrule is None,
    ensures
        read_out(s, w + opt_line("RRULE"@, v, true)) == at(
            k,
            (ComponentView { rrule: map_opt(v, |x: Seq<char>| trimmed(x)), ..c }),
        ),
        readable(w + opt_line("RRULE"@, v, true)),
{
    lemma_names_differ();
    let g = opt_line("RRULE"@, v, true);
    lemma_read_out_append(s, w, g);
    lemma_opt(k, c, "RRULE"@, v, true);
    let next = ComponentView { rrule: map_opt(v, |x: Seq<char>| trimmed(x)), ..c };
    if let Some(x) = v {
        assert(took(c, as_raw(plain_line("RRULE"@, x, true))) =~= next);
    } else {
        assert(c =~= next);
    }
    assert(readable(g));
    lemma_readable(w, g);
}

proof fn lemma_status(
    s: ReaderView,
    w: Seq<OutView>,
    k: Seq<char>,
    c: ComponentView,
    v: Option<Seq<char>>,
)
    requires
        read_out(s, w) == at(k, c),
        readable(w),
        c.status is None,
    ensures
        read_out(s, w + opt_line("STATUS"@, v, true)) == at(
            k,
            (ComponentView { status: map_opt(v, |x: Seq<char>| keyword(x)), ..c }),
        ),
        readable(w + opt_line("STATUS"@, v, true)),
{
    lemma_names_differ();
    let g = opt_line("STATUS"@, v, true);
    lemma_read_out_append(s, w, g);
    lemma_opt(k, c, "STATUS"@, v, true);
    let next = ComponentView { status: map_opt(v, |x: Seq<char>| keyword(x)), ..c };
    if let Some(x) = v {
        assert(took(c, as_raw(plain_line("STATUS"@, x, true))) =~= next);
    } else {
        assert(c =~= next);
    }
    assert(readable(g));
    lemma_readable(w, g);
}

proof fn lemma_organizer(
    s: ReaderView,
    w: Seq<OutView>,
    k: Seq<char>,
    c: ComponentView,
    v: Option<Seq<char>>,
)
    requires
        read_out(s, w) == at(k, c),
        readable(w),
        c.organizer is None,
    ensures
        read_out(s, w + opt_line("ORGANIZER"@, v, true)) == at(
            k,
            (ComponentView { organizer: v, ..c }),
        ),
        readable(w + opt_line("ORGANIZER"@, v, true)),
{
    lemma_names_differ();
    let g = opt_line("ORGANIZER"@, v, true);
    lemma_read_out_append(s, w, g);
    lemma_opt(k, c, "ORGANIZER"@, v, true);
    let next = ComponentView { organizer: v, ..c };
    if let Some(x) = v {
        assert(took(c, as_raw(plain_line("ORGANIZER"@, x, true))) =~= next);
    } else {
        assert(c =~= next);
    }
    assert(readable(g));
    lemma_readable(w, g);
}

proof fn lemma_recurrence_id(
    s: ReaderView,
    w: Seq<OutView>,
    k: Seq<char>,
    c: ComponentView,
    v: Option<Seq<char>>,
    all_day: bool,
)
    requires
        read_out(s, w) == at(k, c),
        readable(w),
        c.recurrence_id is None,
    ensures
        read_out(s, w + opt_dt_line("RECURRENCE-ID"@, v, all_day)) == at(
            k,
            (ComponentView { recurrence_id: instant(stored_opt(v, all_day)), ..c }),
        ),
        readable(w + opt_dt_line("RECURRENCE-ID"@, v, all_day)),
{
    lemma_names_differ();
    let g = opt_dt_line("RECURRENCE-ID"@, v, all_day);
    lemma_read_out_append(s, w, g);
    lemma_opt_dt(k, c, "RECURRENCE-ID"@, v, all_day);
    if let Some(x) = v {
        lemma_dt_stored("RECURRENCE-ID"@, x, all_day);
    }
    let next = ComponentView { recurrence_id: instant(stored_opt(v, all_day)), ..c };
    if let Some(x) = v {
        assert(took(c, as_raw(dt_line("RECURRENCE-ID"@, x, all_day))) =~= next);
    } else {
        assert(c =~= next);
    }
    assert(readable(g));
    lemma_readable(w, g);
}

proof fn lemma_dtstart(
    s: ReaderView,
    w: Seq<OutView>,
    k: Seq<char>,
    c: ComponentView,
    v: Option<Seq<char>>,
    all_day: bool,
)
    requires
        read_out(s, w) == at(k, c),
        readable(w),
        c.dtstart is None,
    ensures
        read_out(s, w + opt_dt_line("DTSTART"@, v, all_day)) == at(
            k,
            (ComponentView { dtstart: stored_opt(v, all_day), ..c }),
        ),
        readable(w + opt_dt_line("DTSTART"@, v, all_day)),
{
    lemma_names_differ();
    let g = opt_dt_line("DTSTART"@, v, all_day);
    lemma_read_out_append(s, w, g);
    lemma_opt_dt(k, c, "DTSTART"@, v, all_day);
    if let Some(x) = v {
        lemma_dt_stored("DTSTART"@, x, all_day);
    }
    let next = ComponentView { dtstart: stored_opt(v, all_day), ..c };
    if let Some(x) = v {
        assert(took(c, as_raw(dt_line("DTSTART"@, x, all_day))) =~= next);
    } else {
        assert(c =~= next);
    }
    assert(readable(g));
    lemma_readable(w, g);
}

proof fn lemma_dtend(
    s: ReaderView,
    w: Seq<OutView>,
    k: Seq<char>,
    c: ComponentView,
    v: Option<Seq<char>>,
    all_day: bool,
)
    requires
        read_out(s, w) == at(k, c),
        readable(w),
        c.dtend is None,
    ensures
        read_out(s, w + opt_dt_line("DTEND"@, v, all_day)) == at(
            k,
            (ComponentView { dtend: stored_opt(v, all_day), ..c }),
        ),
        readable(w + opt_dt_line("DTEND"@, v, all_day)),
{
    lemma_names_differ();
    let g = opt_dt_line("DTEND"@, v, all_day);
    lemma_read_out_append(s, w, g);
    lemma_opt_dt(k, c, "DTEND"@, v, all_day);
    if let Some(x) = v {
        lemma_dt_stored("DTEND"@, x, all_day);
    }
    let next = ComponentView { dtend: stored_opt(v, all_day), ..c };
    if let Some(x) = v {
        assert(took(c, as_raw(dt_line("DTEND"@, x, all_day))) =~= next);
    } else {
        assert(c =~= next);
    }
    assert(readable(g));
    lemma_readable(w, g);
}

proof fn lemma_due(
    s: ReaderView,
    w: Seq<OutView>,
    k: Seq<char>,
    c: ComponentView,
    v: Option<Seq<char>>,
    all_day: bool,
)
    requires
        read_out(s, w) == at(k, c),
        readable(w),
        c.dtend is None,
    ensures
        read_out(s, w + opt_dt_line("DUE"@, v, all_day)) == at(
            k,
            (ComponentView { dtend: stored_opt(v, all_day), ..c }),
        ),
        readable(w + opt_dt_line("DUE"@, v, all_day)),
{
    lemma_names_differ();
    let g = opt_dt_line("DUE"@, v, all_day);
    lemma_read_out_append(s, w, g);
    lemma_opt_dt(k, c, "DUE"@, v, all_day);
    if let Some(x) = v {
        lemma_dt_stored("DUE"@, x, all_day);
    }
    let next = ComponentView { dtend: stored_opt(v, all_day), ..c };
    if let Some(x) = v {
        assert(took(c, as_raw(dt_line("DUE"@, x, all_day))) =~= next);
    } else {
        assert(c =~= next);
    }
    assert(readable(g));
    lemma_readable(w, g);
}

proof fn lemma_completed(
    s: ReaderView,
    w: Seq<OutView>,
    k: Seq<char>,
    c: ComponentView,
    v: Option<Seq<char>>,
    all_day: bool,
)
    requires
        read_out(s, w) == at(k, c),
        readable(w),
        c.completed is None,
    ensures
        read_out(s, w + opt_dt_line("COMPLETED"@, v, all_day)) == at(
            k,
            (ComponentView { completed: stored_opt(v, all_day), ..c }),
        ),
        readable(w + opt_dt_line("COMPLETED"@, v, all_day)),
{
    lemma_names_differ();
    let g = opt_dt_line("COMPLETED"@, v, all_day);
    lemma_read_out_append(s, w, g);
    lemma_opt_dt(k, c, "COMPLETED"@, v, all_day);
    if let Some(x) = v {
        lemma_dt_stored("COMPLETED"@, x, all_day);
    }
    let next = ComponentView { completed: stored_opt(v, all_day), ..c };
    if let Some(x) = v {
        assert(took(c, as_raw(dt_line("COMPLETED"@, x, all_day))) =~= next);
    } else {
        assert(c =~= next);
    }
    assert(readable(g));
    lemma_readable(w, g);
}

proof fn lemma_stamp(
    s: ReaderView,
    w: Seq<OutView>,
    k: Seq<char>,
    c: ComponentView,
    v: Seq<char>,
)
    requires
        read_out(s, w) == at(k, c),
        readable(w),
    ensures
        read_out(s, w + seq![plain_line("DTSTAMP"@, v, true)]) == at(
            k,
            c,
        ),
        readable(w + seq![plain_line("DTSTAMP"@, v, true)]),
{
    lemma_names_differ();
    let g = seq![plain_line("DTSTAMP"@, v, true)];
    lemma_read_out_append(s, w, g);
    lemma_one(k, c, plain_line("DTSTAMP"@, v, true));
    assert(readable(g));
    lemma_readable(w, g);
}

proof fn lemma_priority_line(
    s: ReaderView,
    w: Seq<OutView>,
    k: Seq<char>,
    c: ComponentView,
    p: Option<u8>,
)
    requires
        read_out(s, w) == at(k, c),
        readable(w),
        c.priority is None,
    ensures
        read_out(s, w + opt_line("PRIORITY"@, priority_text(p), true)) == at(
            k,
            (ComponentView { priority: p, ..c }),
        ),
        readable(w + opt_line("PRIORITY"@, priority_text(p), true)),
{
    lemma_names_differ();
    let g = opt_line("PRIORITY"@, priority_text(p), true);
    lemma_read_out_append(s, w, g);
    lemma_priority(p);
    lemma_opt(k, c, "PRIORITY"@, priority_text(p), true);
    assert(readable(g));
    lemma_readable(w, g);
}

proof fn lemma_exdate_lines(
    s: ReaderView,
    w: Seq<OutView>,
    k: Seq<char>,
    c: ComponentView,
    v: Seq<Seq<char>>,
    all_day: bool,
)
    requires
        read_out(s, w) == at(k, c),
        readable(w),
        c.exdate == Seq::<(i64, bool)>::empty(),
    ensures
        read_out(s, w + dt_lines("EXDATE"@, v, all_day)) == at(
            k,
            (ComponentView { exdate: stored_list(v, all_day), ..c }),
        ),
        readable(w + dt_lines("EXDATE"@, v, all_day)),
{
    lemma_names_differ();
    let g = dt_lines("EXDATE"@, v, all_day);
    lemma_read_out_append(s, w, g);
    lemma_exdates(k, c, v, all_day);
    assert(c.exdate + stored_list(v, all_day) =~= stored_list(v, all_day));
    assert forall|i: int| 0 <= i < g.len() implies (#[trigger] g[i]).verbatim by {
        lemma_dt_stored("EXDATE"@, v[i], all_day);
    }
    assert(readable(g));
    lemma_readable(w, g);
}

proof fn lemma_attendee_lines(
    s: ReaderView,
    w: Seq<OutView>,
    k: Seq<char>,
    c: ComponentView,
    v: Seq<AttendeeView>,
)
    requires
        read_out(s, w) == at(k, c),
        readable(w),
        c.attendees == Seq::<AttendeeView>::empty(),
    ensures
        read_out(s, w + v.map_values(|a: AttendeeView| attendee_line(a))) == at(
            k,
            (ComponentView { attendees: v, ..c }),
        ),
        readable(w + v.map_values(|a: AttendeeView| attendee_line(a))),
{
    lemma_names_differ();
    let g = v.map_values(|a: AttendeeView| attendee_line(a));
    lemma_read_out_append(s, w, g);
    lemma_attendees(k, c, v);
    assert(c.attendees + v =~= v);
    assert(readable(g));
    lemma_readable(w, g);
}

proof fn lemma_category_line(
    s: ReaderView,
    w: Seq<OutView>,
    k: Seq<char>,
    c: ComponentView,
    v: Seq<Seq<char>>,
)
    requires
        read_out(s, w) == at(k, c),
        readable(w),
        c.categories == Seq::<Seq<char>>::empty(),
    ensures
        read_out(s, w + category_lines(v)) == at(
            k,
            (ComponentView { categories: stored_categories(v), ..c }),
        ),
        readable(w + category_lines(v)),
{
    lemma_names_differ();
    let g = category_lines(v);
    lemma_read_out_append(s, w, g);
    lemma_categories(k, c, v);
    assert(readable(g));
    lemma_readable(w, g);
}

proof fn lemma_alarm_blocks(
    s: ReaderView,
    w: Seq<OutView>,
    k: Seq<char>,
    c: ComponentView,
    v: Seq<AlarmView>,
)
    requires
        read_out(s, w) == at(k, c),
        readable(w),
        c.alarms == Seq::<AlarmView>::empty(),
        c.kind == k,
        k == "VEVENT"@ || k == "VTODO"@,
    ensures
        read_out(s, w + all_alarm_lines(v)) == at(
            k,
            (ComponentView { alarms: v.map_values(|a: AlarmView| stored_alarm(a)), ..c }),
        ),
        readable(w + all_alarm_lines(v)),
{
    lemma_names_differ();
    let g = all_alarm_lines(v);
    lemma_read_out_append(s, w, g);
    lemma_alarms(k, c, v);
    lemma_alarms_readable(v);
    let back = v.map_values(|a: AlarmView| stored_alarm(a));
    assert(c.alarms + back =~= back);
    assert(readable(g));
    lemma_readable(w, g);
}

proof fn lemma_event_reads_back(
    uid: Option<Seq<char>>,
    rid: Option<Seq<char>>,
    ev: EventView,
    now: i64,
)
    ensures
        read_out(unread(), calendar_head() + event_lines(uid, rid, ev, now) + seq![
            plain_line("END"@, "VCALENDAR"@, true),
        ]) == (ReaderView { done: seq![stored_event(uid, rid, ev)], ..unread() }),
        readable(event_lines(uid, rid, ev, now)),
{
    let k = "VEVENT"@;
    let done = stored_event(uid, rid, ev);
    let s = read_out(unread(), calendar_head());
    let b = seq![plain_line("BEGIN"@, k, true)];
    lemma_head(k);
    lemma_read_out_append(unread(), calendar_head(), b);
    let c0 = fresh(k);
    let w0 = b;
    assert(readable(w0));
    lemma_uid(s, w0, k, c0, uid);
    let w1 = w0 + opt_line("UID"@, uid, false);
    let c1 = ComponentView { uid: done.uid, ..c0 };
    lemma_stamp(s, w1, k, c1, basic_text(now, false));
    let w2 = w1 + seq![plain_line("DTSTAMP"@, basic_text(now, false), true)];
    let c2 = c1;
    lemma_recurrence_id(s, w2, k, c2, rid, ev.all_day);
    let w3 = w2 + opt_dt_line("RECURRENCE-ID"@, rid, ev.all_day);
    let c3 = ComponentView { recurrence_id: done.recurrence_id, ..c2 };
    lemma_summary(s, w3, k, c3, ev.summary);
    let w4 = w3 + opt_line("SUMMARY"@, ev.summary, false);
    let c4 = ComponentView { summary: done.summary, ..c3 };
    lemma_location(s, w4, k, c4, ev.location);
    let w5 = w4 + opt_line("LOCATION"@, ev.location, false);
    let c5 = ComponentView { location: done.location, ..c4 };
    lemma_description(s, w5, k, c5, ev.description);
    let w6 = w5 + opt_line("DESCRIPTION"@, ev.description, false);
    let c6 = ComponentView { description: done.description, ..c5 };
    lemma_dtstart(s, w6, k, c6, ev.dtstart, ev.all_day);
    let w7 = w6 + opt_dt_line("DTSTART"@, ev.dtstart, ev.all_day);
    let c7 = ComponentView { dtstart: done.dtstart, ..c6 };
    lemma_dtend(s, w7, k, c7, ev.dtend, ev.all_day);
    let w8 = w7 + opt_dt_line("DTEND"@, ev.dtend, ev.all_day);
    let c8 = ComponentView { dtend: done.dtend, ..c7 };
    lemma_rrule(s, w8, k, c8, ev.rrule);
    let w9 = w8 + opt_line("RRULE"@, ev.rrule, true);
    let c9 = ComponentView { rrule: done.rrule, ..c8 };
    lemma_exdate_lines(s, w9, k, c9, ev.exdate, ev.all_day);
    let w10 = w9 + dt_lines("EXDATE"@, ev.exdate, ev.all_day);
    let c10 = ComponentView { exdate: done.exdate, ..c9 };
    lemma_status(s, w10, k, c10, ev.status);
    let w11 = w10 + opt_line("STATUS"@, ev.status, true);
    let c11 = ComponentView { status: done.status, ..c10 };
    lemma_organizer(s, w11, k, c11, ev.organizer);
    let w12 = w11 + opt_line("ORGANIZER"@, ev.organizer, true);
    let c12 = ComponentView { organizer: done.organizer, ..c11 };
    lemma_attendee_lines(s, w12, k, c12, ev.attendees);
    let w13 = w12 + ev.attendees.map_values(|a: AttendeeView| attendee_line(a));
    let c13 = ComponentView { attendees: done.attendees, ..c12 };
    lemma_category_line(s, w13, k, c13, ev.categories);
    let w14 = w13 + category_lines(ev.categories);
    let c14 = ComponentView { categories: done.categories, ..c13 };
    lemma_alarm_blocks(s, w14, k, c14, ev.alarms);
    let w15 = w14 + all_alarm_lines(ev.alarms);
    let c15 = ComponentView { alarms: done.alarms, ..c14 };
    assert(read_out(s, w15) == at(k, c15));
    assert(c15 =~= done);
    let e1 = seq![plain_line("END"@, k, true)];
    let e2 = seq![plain_line("END"@, "VCALENDAR"@, true)];
    assert(readable(e1));
    lemma_readable(w15, e1);
    lemma_read_out_append(s, w15, e1);
    lemma_read_out_append(at(k, done), e1, e2);
    lemma_tail(k, done);
    assert(event_lines(uid, rid, ev, now) == w15 + e1);
    lemma_read_out_append(unread(), calendar_head(), w15 + e1);
    lemma_read_out_append(unread(), calendar_head() + (w15 + e1), e2);
}

proof fn lemma_todo_reads_back(
    uid: Option<Seq<char>>,
    rid: Option<Seq<char>>,
    td: TodoView,
    now: i64,
)
    ensures
        read_out(unread(), calendar_head() + todo_lines(uid, rid, td, now) + seq![
            plain_line("END"@, "VCALENDAR"@, true),
        ]) == (ReaderView { done: seq![stored_todo(uid, rid, td)], ..unread() }),
        readable(todo_lines(uid, rid, td, now)),
{
    let k = "VTODO"@;
    let done = stored_todo(uid, rid, td);
    let s = read_out(unread(), calendar_head());
    let b = seq![plain_line("BEGIN"@, k, true)];
    lemma_head(k);
    lemma_read_out_append(unread(), calendar_head(), b);
    let c0 = fresh(k);
    let w0 = b;
    assert(readable(w0));
    lemma_uid(s, w0, k, c0, uid);
    let w1 = w0 + opt_line("UID"@, uid, false);
    let c1 = ComponentView { uid: done.uid, ..c0 };
    lemma_stamp(s, w1, k, c1, basic_text(now, false));
    let w2 = w1 + seq![plain_line("DTSTAMP"@, basic_text(now, false), true)];
    let c2 = c1;
    lemma_recurrence_id(s, w2, k, c2, rid, false);
    let w3 = w2 + opt_dt_line("RECURRENCE-ID"@, rid, false);
    let c3 = ComponentView { recurrence_id: done.recurrence_id, ..c2 };
    lemma_summary(s, w3, k, c3, td.summary);
    let w4 = w3 + opt_line("SUMMARY"@, td.summary, false);
    let c4 = ComponentView { summary: done.summary, ..c3 };
    lemma_description(s, w4, k, c4, td.description);
    let w5 = w4 + opt_line("DESCRIPTION"@, td.description, false);
    let c5 = ComponentView { description: done.description, ..c4 };
    lemma_dtstart(s, w5, k, c5, td.dtstart, false);
    let w6 = w5 + opt_dt_line("DTSTART"@, td.dtstart, false);
    let c6 = ComponentView { dtstart: done.dtstart, ..c5 };
    lemma_due(s, w6, k, c6, td.due, false);
    let w7 = w6 + opt_dt_line("DUE"@, td.due, false);
    let c7 = ComponentView { dtend: done.dtend, ..c6 };
    lemma_completed(s, w7, k, c7, td.completed, false);
    let w8 = w7 + opt_dt_line("COMPLETED"@, td.completed, false);
    let c8 = ComponentView { completed: done.completed, ..c7 };
    lemma_priority_line(s, w8, k, c8, td.priority);
    let w9 = w8 + opt_line("PRIORITY"@, priority_text(td.priority), true);
    let c9 = ComponentView { priority: done.priority, ..c8 };
    lemma_status(s, w9, k, c9, td.status);
    let w10 = w9 + opt_line("STATUS"@, td.status, true);
    let c10 = ComponentView { status: done.status, ..c9 };
    lemma_rrule(s, w10, k, c10, td.rrule);
    let w11 = w10 + opt_line("RRULE"@, td.rrule, true);
    let c11 = ComponentView { rrule: done.rrule, ..c10 };
    lemma_category_line(s, w11, k, c11, td.categories);
    let w12 = w11 + category_lines(td.categories);
    let c12 = ComponentView { categories: done.categories, ..c11 };
    lemma_alarm_blocks(s, w12, k, c12, td.alarms);
    let w13 = w12 + all_alarm_lines(td.alarms);
    let c13 = ComponentView { alarms: done.alarms, ..c12 };
    assert(read_out(s, w13) == at(k, c13));
    assert(c13 =~= done);
    let e1 = seq![plain_line("END"@, k, true)];
    let e2 = seq![plain_line("END"@, "VCALENDAR"@, true)];
    assert(readable(e1));
    lemma_readable(w13, e1);
    lemma_read_out_append(s, w13, e1);
    lemma_read_out_append(at(k, done), e1, e2);
    lemma_tail(k, done);
    assert(todo_lines(uid, rid, td, now) == w13 + e1);
    lemma_read_out_append(unread(), calendar_head(), w13 + e1);
    lemma_read_out_append(unread(), calendar_head() + (w13 + e1), e2);
}

/// Joining puts the first text in front of the others.
proof fn lemma_joined_first(parts: Seq<Seq<char>>, sep: Seq<char>)
    requires
        parts.len() > 1,
    ensures
        joined(parts, sep) == parts[0] + sep + joined(parts.drop_first(), sep),
    decreases parts.len(),
{
    let tail = parts.drop_first();
    if parts.len() == 2 {
        assert(parts.drop_last().len() == 1);
        assert(joined(parts.drop_last(), sep) == parts[0]);
        assert(joined(tail, sep) == parts[1]);
    } else {
        lemma_joined_first(parts.drop_last(), sep);
        assert(parts.drop_last().drop_first() =~= tail.drop_last());
        assert(parts.last() == tail.last());
        assert(joined(parts, sep) =~= parts[0] + sep + joined(tail, sep));
    }
}

/// No comma in a written text ends an entry of a list.
proof fn lemma_escaped_scan(s: Seq<char>, from: int, p: Seq<char>)
    requires
        0 <= from,
        from + escaped(p).len() <= s.len(),
        s.subrange(from, from + escaped(p).len()) == escaped(p),
    ensures
        plain_comma(s, from) == plain_comma(s, from + escaped(p).len()),
    decreases p.len(),
{
    if p.len() > 0 {
        let q = escaped(p.drop_last());
        let e = escape_of(p.last());
        let t = s.subrange(from, from + escaped(p).len());
        assert(s.subrange(from, from + q.len()) =~= t.take(q.len() as int));
        assert(t.take(q.len() as int) =~= q);
        lemma_escaped_scan(s, from, p.drop_last());
        let at = from + q.len();
        assert(s[at] == t[q.len() as int] && t[q.len() as int] == e[0]);
        if e.len() == 1 {
            assert(plain_comma(s, at) == plain_comma(s, at + 1));
        } else {
            assert(plain_comma(s, at) == plain_comma(s, at + 2));
        }
    }
}

proof fn lemma_unescaped_append(s: Seq<char>, c: char)
    ensures
        unescaped(escape_of(c) + s) == seq![c] + unescaped(s),
{
    let e = escape_of(c) + s;
    if escape_of(c).len() == 2 {
        assert(e.skip(2) =~= s);
    } else {
        assert(e.skip(1) =~= s);
    }
}

/// What is written of a text in front of other text reads back as the text.
proof fn lemma_escaped_reads_back(p: Seq<char>, s: Seq<char>)
    ensures
        unescaped(escaped(p) + s) == p + unescaped(s),
    decreases p.len(),
{
    if p.len() > 0 {
        let q = escaped(p.drop_last());
        let e = escape_of(p.last());
        assert(escaped(p) + s =~= q + (e + s));
        lemma_escaped_reads_back(p.drop_last(), e + s);
        lemma_unescaped_append(s, p.last());
        assert(p.drop_last() + (seq![p.last()] + unescaped(s)) =~= p + unescaped(s));
    } else {
        assert(escaped(p) + s =~= s);
        assert(p + unescaped(s) =~= unescaped(s));
    }
}

/// Escaped texts come apart as they were joined.
proof fn lemma_pieces_joined(parts: Seq<Seq<char>>)
    requires
        parts.len() > 0,
    ensures
        plain_pieces(category_list(parts)) == parts.map_values(|p: Seq<char>| escaped(p)),
    decreases parts.len(),
{
    reveal_strlit(",");
    assert(","@ =~= seq![',']);
    let written = parts.map_values(|p: Seq<char>| escaped(p));
    let s = category_list(parts);
    let p = escaped(parts[0]);
    let n = p.len() as int;
    if parts.len() == 1 {
        assert(s == p);
        assert(s.subrange(0, n) =~= p);
        lemma_escaped_scan(s, 0, parts[0]);
        assert(seq![s] =~= written);
    } else {
        let tail = parts.drop_first();
        let rest = tail.map_values(|p: Seq<char>| escaped(p));
        lemma_joined_first(written, ","@);
        assert(written.drop_first() =~= rest);
        assert(s.subrange(0, n) =~= p);
        lemma_escaped_scan(s, 0, parts[0]);
        assert(s[n] == ',');
        assert(plain_comma(s, 0) == n);
        assert(s.take(n) =~= p);
        assert(s.skip(n + 1) =~= category_list(tail));
        lemma_pieces_joined(tail);
        assert(seq![p] + rest =~= written);
    }
}

proof fn lemma_entries(pieces: Seq<Seq<char>>)
    requires
        forall|i: int|
            0 <= i < pieces.len() ==> trimmed(#[trigger] pieces[i]) == pieces[i]
                && pieces[i].len() > 0,
    ensures
        entries_in(pieces) == pieces,
    decreases pieces.len(),
{
    if pieces.len() > 0 {
        let rest = pieces.drop_last();
        assert forall|i: int| 0 <= i < rest.len() implies trimmed(#[trigger] rest[i]) == rest[i]
            && rest[i].len() > 0 by {
            assert(rest[i] == pieces[i]);
        }
        lemma_entries(rest);
        assert(trimmed(pieces[pieces.len() - 1]) == pieces[pieces.len() - 1]);
        assert(rest.push(pieces.last()) =~= pieces);
    }
}

/// Whether a category comes back as it was written: it is not empty and has no white space around
/// it.
pub open spec fn plain_category(s: Seq<char>) -> bool {
    s.len() > 0 && trimmed(s) == s
}

/// Categories come back as they were written, whatever they hold, unless one is empty or has white
/// space around it.
pub proof fn law_categories_round_trip(categories: Seq<Seq<char>>)
    requires
        forall|i: int| 0 <= i < categories.len() ==> plain_category(#[trigger] categories[i]),
    ensures
        stored_categories(categories) == categories,
{
    if categories.len() > 0 {
        lemma_pieces_joined(categories);
        let written = categories.map_values(|p: Seq<char>| escaped(p));
        let pieces = written.map_values(|p: Seq<char>| unescaped(p));
        let e = Seq::<char>::empty();
        assert forall|i: int| 0 <= i < categories.len() implies pieces[i] == categories[i] by {
            let c = categories[i];
            lemma_escaped_reads_back(c, e);
            assert(escaped(c) + e =~= escaped(c));
            assert(c + unescaped(e) =~= c);
        }
        assert(pieces =~= categories);
        assert forall|i: int| 0 <= i < categories.len() implies trimmed(#[trigger] categories[i])
            == categories[i] && categories[i].len() > 0 by {
            assert(plain_category(categories[i]));
        }
        lemma_entries(categories);
    } else {
        assert(categories =~= Seq::empty());
    }
}

/// An event that is written, and read back line by line, is one event with the same identifier,
/// texts, participants and organizer, the instants that its times name, its keywords in upper
/// case, and its recurrence rule and triggers without surrounding white space. No warning comes
/// up.
pub proof fn law_event_round_trip(input: ObjectView, now: i64, lines: Seq<LineView>)
    requires
        input.event is Some,
        carried_all(generated(input, now), lines),
    ensures
        reading(lines, true) == (ReaderView {
            done: seq![stored_event(input.uid, input.recurrence_id, input.event->Some_0)],
            ..unread()
        }),
{
    let ev = input.event->Some_0;
    lemma_event_reads_back(input.uid, input.recurrence_id, ev, now);
    assert(readable(generated(input, now)));
    lemma_carried_reads_alike(unread(), generated(input, now), lines);
}

/// A task that is written, and read back line by line, is one task with the same identifier,
/// texts and priority, the instants that its times name, its keywords in upper case, and its
/// recurrence rule and triggers without surrounding white space. No warning comes up.
pub proof fn law_todo_round_trip(input: ObjectView, now: i64, lines: Seq<LineView>)
    requires
        input.event is None,
        input.todo is Some,
        carried_all(generated(input, now), lines),
    ensures
        reading(lines, true) == (ReaderView {
            done: seq![stored_todo(input.uid, input.recurrence_id, input.todo->Some_0)],
            ..unread()
        }),
{
    let td = input.todo->Some_0;
    lemma_todo_reads_back(input.uid, input.recurrence_id, td, now);
    assert(readable(generated(input, now)));
    lemma_carried_reads_alike(unread(), generated(input, now), lines);
}

proof fn lemma_time_comes_back(iso: Seq<char>, all_day: bool, date: bool)
    requires
        is_iso(iso, date),
        all_day ==> date,
    ensures
        stored(iso, all_day) matches Some((ts, d)) && d == date && iso_text(ts, date) == iso,
        dates_in(
            split_on(dt_line("EXDATE"@, iso, all_day).value, ','),
            marked_date(as_raw(dt_line("EXDATE"@, iso, all_day))),
        ) == seq![stored(iso, all_day)->Some_0],
{
    law_time_text_comes_back(iso, date);
    lemma_dt_stored("EXDATE"@, iso, all_day);
    let v = dt_line("EXDATE"@, iso, all_day).value;
    assert forall|k: int| 0 <= k < v.len() implies v[k] != ',' by {
        assert(v.contains(v[k]));
    }
    lemma_before_char(v, ',', v.len() as int);
    let pieces = split_on(v, ',');
    assert(pieces == seq![v]);
    reveal_with_fuel(dates_in, 2);
    assert(pieces.drop_last() =~= Seq::empty());
    assert(pieces.last() == v);
}

proof fn lemma_exdates_come_back(isos: Seq<Seq<char>>, all_day: bool)
    requires
        forall|i: int| 0 <= i < isos.len() ==> is_iso(#[trigger] isos[i], all_day),
    ensures
        stored_list(isos, all_day).len() == isos.len(),
        forall|i: int|
            0 <= i < isos.len() ==> iso_text(
                (#[trigger] stored_list(isos, all_day)[i]).0,
                stored_list(isos, all_day)[i].1,
            ) == isos[i],
    decreases isos.len(),
{
    if isos.len() > 0 {
        let rest = isos.drop_last();
        let n = rest.len() as int;
        assert forall|i: int| 0 <= i < n implies is_iso(#[trigger] rest[i], all_day) by {
            assert(rest[i] == isos[i]);
        }
        lemma_exdates_come_back(rest, all_day);
        assert(is_iso(isos[n], all_day));
        lemma_time_comes_back(isos[n], all_day, all_day);
        let before = stored_list(rest, all_day);
        let last = stored(isos[n], all_day)->Some_0;
        let all = stored_list(isos, all_day);
        assert(all == before + seq![last]);
        assert forall|i: int| 0 <= i < isos.len() implies iso_text((#[trigger] all[i]).0, all[i].1)
            == isos[i] by {
            if i < n {
                assert(all[i] == before[i]);
                assert(rest[i] == isos[i]);
            }
        }
    }
}

/// Whether a keyword is in upper case without white space around it.
pub open spec fn plain_keyword(v: Option<Seq<char>>) -> bool {
    v matches Some(s) ==> keyword(s) == s
}

/// Whether a value has no white space around it.
pub open spec fn plain_value(v: Option<Seq<char>>) -> bool {
    v matches Some(s) ==> trimmed(s) == s
}

/// Whether a value that is there is a date, or a UTC time, of the structured interface.
pub open spec fn plain_time(v: Option<Seq<char>>, date: bool) -> bool {
    v matches Some(s) ==> is_iso(s, date)
}

/// Whether reminders are written as they are read.
pub open spec fn plain_alarms(alarms: Seq<AlarmView>) -> bool {
    forall|i: int|
        0 <= i < alarms.len() ==> plain_keyword((#[trigger] alarms[i]).action) && plain_value(
            alarms[i].trigger,
        )
}

/// Whether categories are written as they are read.
pub open spec fn plain_categories(categories: Seq<Seq<char>>) -> bool {
    forall|i: int| 0 <= i < categories.len() ==> plain_category(#[trigger] categories[i])
}

proof fn lemma_alarms_come_back(alarms: Seq<AlarmView>)
    requires
        plain_alarms(alarms),
    ensures
        alarms.map_values(|a: AlarmView| stored_alarm(a)) == alarms,
{
    let back = alarms.map_values(|a: AlarmView| stored_alarm(a));
    assert forall|i: int| 0 <= i < alarms.len() implies back[i] == alarms[i] by {
        assert(plain_keyword(alarms[i].action) && plain_value(alarms[i].trigger));
        assert(stored_alarm(alarms[i]) =~= alarms[i]);
    }
    assert(back =~= alarms);
}

/// Whether an event is written as it is read: its times are whole days, or UTC times to the
/// second, in the form of the structured interface, its keywords are in upper case, no value or
/// category has white space around it, and no category is empty.
pub open spec fn faithful_event(input: ObjectView) -> bool {
    &&& input.todo is None
    &&& input.event matches Some(ev) && (ev.all_day ==> ev.dtstart is Some) && plain_time(
        input.recurrence_id,
        ev.all_day,
    ) && plain_time(ev.dtstart, ev.all_day) && plain_time(ev.dtend, ev.all_day) && (forall|i: int|
        0 <= i < ev.exdate.len() ==> is_iso(#[trigger] ev.exdate[i], ev.all_day)) && plain_value(
        ev.rrule,
    ) && plain_keyword(ev.status) && plain_categories(ev.categories) && plain_alarms(ev.alarms)
}

/// An event that is written and read back is the same event in every field, with the text of each
/// of its times, where its times are whole days, or UTC times to the second, in the form of the
/// structured interface, its keywords are in upper case, no value or category has white space
/// around it, and no category is empty.
pub proof fn law_event_comes_back(input: ObjectView, now: i64, lines: Seq<LineView>)
    requires
        carried_all(generated(input, now), lines),
        faithful_event(input),
    ensures
        primary(reading(lines, true).done) matches Some(c) && input_of(c) == input,
        reading(lines, true).warnings.len() == 0,
{
    let ev = input.event->Some_0;
    let c = stored_event(input.uid, input.recurrence_id, ev);
    law_event_round_trip(input, now, lines);
    let cs = reading(lines, true).done;
    assert(cs == seq![c]);
    reveal_with_fuel(last_master, 2);
    assert(primary(cs) == Some(c));
    if let Some(s) = ev.dtstart {
        lemma_time_comes_back(s, ev.all_day, ev.all_day);
    }
    if let Some(s) = ev.dtend {
        lemma_time_comes_back(s, ev.all_day, ev.all_day);
    }
    if let Some(s) = input.recurrence_id {
        lemma_time_comes_back(s, ev.all_day, ev.all_day);
    }
    lemma_exdates_come_back(ev.exdate, ev.all_day);
    assert(c.exdate.map_values(|e: (i64, bool)| iso_text(e.0, e.1)) =~= ev.exdate);
    law_categories_round_trip(ev.categories);
    lemma_alarms_come_back(ev.alarms);
    assert(input_of(c).event->Some_0 =~= ev);
    assert(input_of(c) =~= input);
}

/// A task that is written and read back is the same task in every field, with the text of each of
/// its times, under the same conditions as an event. Each of its times may be a date or a UTC
/// time; the occurrence that it changes is named in the form of its start.
pub proof fn law_todo_comes_back(input: ObjectView, now: i64, lines: Seq<LineView>)
    requires
        carried_all(generated(input, now), lines),
        input.event is None,
        input.todo matches Some(td) && plain_time(
            input.recurrence_id,
            td.dtstart matches Some(s) && is_iso(s, true),
        ) && (plain_time(td.dtstart, true) || plain_time(td.dtstart, false)) && (plain_time(
            td.due,
            true,
        ) || plain_time(td.due, false)) && (plain_time(td.completed, true) || plain_time(
            td.completed,
            false,
        )) && plain_value(td.rrule) && plain_keyword(td.status) && plain_categories(td.categories)
            && plain_alarms(td.alarms),
    ensures
        primary(reading(lines, true).done) matches Some(c) && input_of(c) == input,
        reading(lines, true).warnings.len() == 0,
{
    let td = input.todo->Some_0;
    let c = stored_todo(input.uid, input.recurrence_id, td);
    law_todo_round_trip(input, now, lines);
    let cs = reading(lines, true).done;
    assert(cs == seq![c]);
    reveal_with_fuel(last_master, 2);
    assert(primary(cs) == Some(c));
    if let Some(s) = td.dtstart {
        lemma_time_comes_back(s, false, is_iso(s, true));
    }
    if let Some(s) = td.due {
        lemma_time_comes_back(s, false, is_iso(s, true));
    }
    if let Some(s) = td.completed {
        lemma_time_comes_back(s, false, is_iso(s, true));
    }
    if let Some(s) = input.recurrence_id {
        lemma_time_comes_back(s, false, td.dtstart matches Some(t) && is_iso(t, true));
    }
    law_categories_round_trip(td.categories);
    lemma_alarms_come_back(td.alarms);
    lemma_components_upper();
    assert(input_of(c).todo->Some_0 =~= td);
    assert(input_of(c) =~= input);
}

} // verus!
