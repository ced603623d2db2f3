//! What is read from, and written to, the lines of a calendar.
use crate::calendar::ical::{
    alarm_took, attendee_of, closed, escaped, extracted, get_param, input_of, masters_first,
    no_alarm, opened, parse_all_to_inputs, reading, stepped, unread, ComponentView, ContentLine,
    LineView, OutLine, OutView, RawView, ReaderView,
};
use crate::calendar::ical_writer::{
    alarm_lines, all_alarm_lines, attendee_line, category_lines, dt_line, dt_lines, event_lines,
    generate_at, opt_dt_line, opt_line, plain_line, priority_text, todo_lines,
};
use crate::calendar::time::iso_text;
use crate::calendar::types::{
    AlarmView, AttendeeView, CalendarObjectInput, EventView, TodoView,
};
use crate::decimal;
use crate::text;
use crate::types::Timestamp;
use vstd::prelude::*;

verus! {

// ---------------------------------------------------------------------------------------------
// Components
// ---------------------------------------------------------------------------------------------

/// Whether a searchable time is the instant that was read.
pub open spec fn same_instant(t: Option<Timestamp>, read: Option<(i64, bool)>) -> bool {
    &&& t is Some <==> read is Some
    &&& t is Some ==> (t->0).0 == (read->0).0
}

/// The searchable part of a component holds every property that was read of it: the same texts and numbers,
/// and the instants of its times, each excluded occurrence in its order.
pub proof fn law_searchable_parts(c: ComponentView)
    ensures
        ({
            let x = extracted(c);
            &&& x.component == c.kind
            &&& x.summary == c.summary && x.location == c.location && x.description == c.description
            &&& same_instant(x.dtstart, c.dtstart) && same_instant(x.dtend, c.dtend)
            &&& x.all_day <==> c.dtstart is Some && (c.dtstart->0).1
            &&& x.status == c.status && x.priority == c.priority && x.organizer == c.organizer
            &&& x.rrule == c.rrule && x.sequence == c.sequence
            &&& x.exdate.len() == c.exdate.len()
            &&& forall|i: int|
                0 <= i < c.exdate.len() ==> (#[trigger] x.exdate[i]).0 == c.exdate[i].0
            &&& x.recurrence_id is Some <==> c.recurrence_id is Some
            &&& x.recurrence_id is Some ==> (x.recurrence_id->0).0 == c.recurrence_id->0
        }),
{
}

/// The text of a time that was read.
pub open spec fn shows_time(t: Option<Seq<char>>, read: Option<(i64, bool)>) -> bool {
    &&& t is Some <==> read is Some
    &&& t is Some ==> t->0 == iso_text((read->0).0, (read->0).1)
}

/// The structured form of a component holds every property that was read of it: an event as an event, a task
/// as a task.
pub proof fn law_structured_forms(c: ComponentView)
    ensures
        ({
            let o = input_of(c);
            &&& o.uid == c.uid
            &&& c.kind == "VEVENT"@ <==> o.event is Some
            &&& c.kind == "VTODO"@ <==> o.todo is Some
            &&& o.event is Some || o.todo is Some ==> (o.recurrence_id is Some <==> c.recurrence_id
                is Some)
            &&& o.event matches Some(e) ==> e.summary == c.summary && e.description == c.description
                && e.location == c.location && shows_time(e.dtstart, c.dtstart) && shows_time(
                e.dtend,
                c.dtend,
            ) && e.rrule == c.rrule && e.status == c.status && e.organizer == c.organizer
                && e.attendees == c.attendees && e.categories == c.categories && e.alarms == c.alarms
                && (e.all_day <==> c.dtstart is Some && (c.dtstart->0).1) && e.exdate.len()
                == c.exdate.len() && forall|i: int|
                0 <= i < c.exdate.len() ==> #[trigger] e.exdate[i] == iso_text(
                    c.exdate[i].0,
                    c.exdate[i].1,
                )
            &&& o.todo matches Some(t) ==> t.summary == c.summary && t.description == c.description
                && shows_time(t.dtstart, c.dtstart) && shows_time(t.due, c.dtend) && shows_time(
                t.completed,
                c.completed,
            ) && t.priority == c.priority && t.status == c.status && t.rrule == c.rrule
                && t.categories == c.categories && t.alarms == c.alarms
        }),
{
    reveal_strlit("VEVENT");
    reveal_strlit("VTODO");
    assert("VEVENT"@.len() == 6 && "VTODO"@.len() == 5);
}

/// A line begins an event or a task outside any other, adds a property to the innermost one, and ends it,
/// which makes it complete; a blank line changes nothing, and a line that cannot be read only warns.
pub proof fn law_reading_goes_on(s: ReaderView, l: LineView, raw: RawView, alarms: bool)
    requires
        l.parts is Some ==> l.parts->0 == raw,
    ensures
        text::trimmed(l.line).len() == 0 ==> stepped(s, l, alarms) == s,
        text::trimmed(l.line).len() > 0 && l.parts is None ==> {
            let n = stepped(s, l, alarms);
            n.warnings.len() == s.warnings.len() + 1 && n.done == s.done && n.current == s.current
                && n.stack == s.stack && n.alarm == s.alarm
        },
        (text::trimmed(l.line).len() > 0 && l.parts is Some && raw.name == "BEGIN"@
            && text::ascii_upper_all(raw.value) == "VEVENT"@ && s.current is None) ==> {
            let n = stepped(s, l, alarms);
            n.current is Some && n.current->0.kind == "VEVENT"@ && n.current->0.uid is None
                && n.current->0.summary is None && n.current->0.dtstart is None
                && n.current->0.exdate.len() == 0 && n.current->0.sequence == 0 && n.done == s.done
                && n.warnings == s.warnings && n.stack == s.stack.push("VEVENT"@)
        },
        (text::trimmed(l.line).len() > 0 && l.parts is Some && raw.name == "BEGIN"@
            && text::ascii_upper_all(raw.value) == "VTODO"@ && s.current is None) ==> stepped(
            s,
            l,
            alarms,
        ).current is Some && stepped(s, l, alarms).current->0.kind == "VTODO"@,
        (text::trimmed(l.line).len() > 0 && l.parts is Some && raw.name == "END"@ && s.current is Some
            && s.stack.len() > 0 && s.stack.last() == s.current->0.kind && text::ascii_upper_all(
            raw.value,
        ) == s.current->0.kind && s.current->0.kind != "VALARM"@) ==> {
            let n = stepped(s, l, alarms);
            n.done == s.done.push(s.current->0) && n.current is None && n.warnings == s.warnings
                && n.stack == s.stack.drop_last()
        },
        (text::trimmed(l.line).len() > 0 && l.parts is Some && raw.name != "BEGIN"@ && raw.name
            != "END"@ && s.current is None && s.alarm is None) ==> stepped(s, l, alarms) == s,
        reading(Seq::empty(), alarms) == unread(),
        unread().done.len() == 0 && unread().current is None && unread().warnings.len() == 0,
{
    crate::calendar::round_trip::lemma_names_differ();
    reveal_strlit("VEVENT");
    reveal_strlit("VTODO");
    reveal_strlit("VALARM");
    assert("VEVENT"@[1] == 'E' && "VTODO"@.len() == 5 && "VALARM"@[1] == 'A');
}

/// A reminder is read inside an event or a task: its action as a keyword, its trigger and its text; at its end it
/// is added to those of the event or task.
pub proof fn law_reminders_are_read(a: AlarmView, l: RawView, s: ReaderView)
    ensures
        l.name == "ACTION"@ ==> alarm_took(a, l) == (AlarmView {
            action: Some(text::ascii_upper_all(text::trimmed(l.value))),
            ..a
        }),
        l.name == "TRIGGER"@ ==> alarm_took(a, l) == (AlarmView {
            trigger: Some(text::trimmed(l.value)),
            ..a
        }),
        l.name == "DESCRIPTION"@ ==> alarm_took(a, l) == (AlarmView {
            description: Some(l.text),
            ..a
        }),
        l.name == "SUMMARY"@ ==> alarm_took(a, l) == a,
        no_alarm().action is None && no_alarm().trigger is None && no_alarm().description is None,
        s.current is Some && s.alarm is None ==> opened(s, "VALARM"@, true).alarm is Some,
        (s.current is Some && s.current->0.kind != "VALARM"@ && s.alarm is Some && s.stack.len() > 0
            && s.stack.last() == "VALARM"@) ==> {
            let n = closed(s, "VALARM"@, true);
            n.alarm is None && n.current is Some && n.current->0.alarms
                == s.current->0.alarms.push(s.alarm->0) && n.done == s.done && n.current->0.summary
                == s.current->0.summary
        },
{
    crate::calendar::round_trip::lemma_names_differ();
    reveal_strlit("VEVENT");
    reveal_strlit("VTODO");
    reveal_strlit("VALARM");
    assert("VEVENT"@[1] == 'E' && "VTODO"@.len() == 5 && "VALARM"@[1] == 'A');
}

/// A participant is read with the parameters of their line: a name, a status, a role, and whether an answer is
/// wanted.
pub proof fn law_participants_are_read(
    l: RawView,
    cn: Seq<char>,
    partstat: Seq<char>,
    role: Seq<char>,
)
    requires
        l.params == seq![
            ("CN"@, cn),
            ("PARTSTAT"@, partstat),
            ("ROLE"@, role),
            ("RSVP"@, "TRUE"@),
        ],
    ensures
        attendee_of(l).address == l.text,
        attendee_of(l).cn == Some(cn),
        attendee_of(l).partstat == Some(partstat),
        attendee_of(l).role == Some(role),
        attendee_of(l).rsvp == Some(true),
{
    reveal_strlit("CN");
    reveal_strlit("PARTSTAT");
    reveal_strlit("ROLE");
    reveal_strlit("RSVP");
    assert("CN"@.len() == 2 && "PARTSTAT"@.len() == 8 && "ROLE"@[1] == 'O' && "RSVP"@[1] == 'S');
    assert("ROLE"@.len() == 4 && "RSVP"@.len() == 4);
    let p = l.params;
    reveal_with_fuel(crate::calendar::ical::param_of, 5);
    assert(p.drop_first()[0] == p[1]);
    assert(p.drop_first().drop_first()[0] == p[2]);
    assert(p.drop_first().drop_first().drop_first()[0] == p[3]);
}

/// The first parameter of a name is found.
pub proof fn law_parameters(params: &Vec<(String, String)>, name: &str, r: Option<&str>)
    requires
        call_ensures(get_param, (params, name), r),
    ensures
        params@.len() == 0 ==> r is None,
        params@.len() > 0 && params@[0].0@ == name@ ==> r is Some && r->0@ == params@[0].1@,
        (params@.len() == 1 && params@[0].0@ != name@) ==> r is None,
{
    let v = params.deep_view();
    assert(v.len() == params@.len());
    assert(r.deep_view() is Some <==> r is Some);
    if params@.len() > 0 {
        assert(v[0] == (params@[0].0@, params@[0].1@));
        reveal_with_fuel(crate::calendar::ical::param_of, 2);
        assert(v.drop_first().len() == v.len() - 1);
    }
}

/// Of everything in a calendar the series come first, in their order, then the changed occurrences; nothing is
/// lost.
pub proof fn law_everything_is_read(
    lines: &Vec<ContentLine>,
    r: (Vec<CalendarObjectInput>, Vec<String>),
    i: int,
)
    requires
        call_ensures(parse_all_to_inputs, (lines,), r),
    ensures
        ({
            let all = reading(lines.deep_view(), true).done;
            &&& r.0@.len() == all.len()
            &&& 0 <= i < all.len() ==> r.0.deep_view().contains(input_of(all[i]))
            &&& r.1.deep_view() == reading(lines.deep_view(), true).warnings
        }),
{
    let all = reading(lines.deep_view(), true).done;
    let to = |c: ComponentView| input_of(c);
    let m = masters_first(all);
    lemma_masters_first(all, i);
    assert(r.0.deep_view() == m.map_values(to));
    assert(r.0.deep_view().len() == r.0@.len());
    if 0 <= i < all.len() {
        let k = choose|k: int| 0 <= k < m.len() && m[k] == all[i];
        assert(m.map_values(to)[k] == input_of(all[i]));
    }
}

proof fn lemma_masters_first(cs: Seq<ComponentView>, i: int)
    ensures
        masters_first(cs).len() == cs.len(),
        0 <= i < cs.len() ==> masters_first(cs).contains(cs[i]),
    decreases cs.len(),
{
    let f = |c: ComponentView| c.recurrence_id is None;
    let g = |c: ComponentView| c.recurrence_id is Some;
    reveal_with_fuel(Seq::filter, 2);
    if cs.len() > 0 {
        let rest = cs.drop_last();
        let x = cs.last();
        lemma_masters_first(rest, i);
        let a = rest.filter(f);
        let b = rest.filter(g);
        let before = a + b;
        assert(masters_first(rest) == before);
        let now = masters_first(cs);
        if f(x) {
            assert(now == a.push(x) + b);
            assert(now[a.len() as int] == x);
        } else {
            assert(now == a + b.push(x));
            assert(now[(a.len() + b.len()) as int] == x);
        }
        if 0 <= i < rest.len() {
            let k = choose|k: int| 0 <= k < before.len() && before[k] == rest[i];
            if f(x) && k >= a.len() {
                assert(now[k + 1] == rest[i]);
            } else {
                assert(now[k] == rest[i]);
            }
        }
    }
}

// ---------------------------------------------------------------------------------------------
// Written lines
// ---------------------------------------------------------------------------------------------

/// Escapes stand in front of backslashes, commas and semicolons, a line break is written as a letter behind one,
/// and anything else as it is; a text is written piece by piece.
pub proof fn law_escapes(a: Seq<char>, b: Seq<char>, c: char)
    ensures
        escaped(a + b) == escaped(a) + escaped(b),
        escaped(Seq::empty()) == Seq::<char>::empty(),
        c == ',' || c == ';' || c == '\\' ==> escaped(seq![c]) == seq!['\\', c],
        escaped(seq!['\n']) == seq!['\\', 'n'],
        c != ',' && c != ';' && c != '\\' && c != '\n' ==> escaped(seq![c]) == seq![c],
    decreases b.len(),
{
    reveal_with_fuel(escaped, 2);
    assert(seq![c].drop_last() =~= Seq::<char>::empty());
    assert(seq!['\n'].drop_last() =~= Seq::<char>::empty());
    assert(escaped(seq![c]) =~= crate::calendar::ical::escape_of(c));
    assert(escaped(seq!['\n']) =~= seq!['\\', 'n']);
    if b.len() == 0 {
        assert(a + b =~= a);
        assert(escaped(a) + escaped(b) =~= escaped(a));
    } else {
        assert((a + b).drop_last() =~= a + b.drop_last());
        law_escapes(a, b.drop_last(), c);
        let e = crate::calendar::ical::escape_of(b.last());
        assert(escaped(a) + escaped(b.drop_last()) + e =~= escaped(a) + (escaped(b.drop_last()) + e));
    }
}

/// Whether lines hold a line.
#[verifier::opaque]
pub open spec fn holds_line(lines: Seq<OutView>, l: OutView) -> bool {
    lines.contains(l)
}

proof fn lemma_line_kept(a: Seq<OutView>, b: Seq<OutView>)
    ensures
        forall|l: OutView| #[trigger] holds_line(a, l) ==> holds_line(a + b, l),
        forall|l: OutView| #[trigger] holds_line(b, l) ==> holds_line(a + b, l),
{
    reveal(holds_line);
    assert forall|l: OutView| #[trigger] holds_line(a, l) implies holds_line(a + b, l) by {
        let k = choose|k: int| 0 <= k < a.len() && a[k] == l;
        assert((a + b)[k] == l);
    }
    assert forall|l: OutView| #[trigger] holds_line(b, l) implies holds_line(a + b, l) by {
        let k = choose|k: int| 0 <= k < b.len() && b[k] == l;
        assert((a + b)[k + a.len()] == l);
    }
}

proof fn lemma_line_at(lines: Seq<OutView>, k: int)
    requires
        0 <= k < lines.len(),
    ensures
        holds_line(lines, lines[k]),
{
    reveal(holds_line);
}

/// Whether lines hold the line of a value that is there, without parameters.
pub open spec fn writes(
    lines: Seq<OutView>,
    name: Seq<char>,
    value: Option<Seq<char>>,
    verbatim: bool,
) -> bool {
    value is Some ==> holds_line(
        lines,
        OutView { name, params: Seq::empty(), value: value->0, verbatim },
    )
}

/// Whether lines hold the line of a time that is there.
pub open spec fn writes_time(
    lines: Seq<OutView>,
    name: Seq<char>,
    iso: Option<Seq<char>>,
    all_day: bool,
) -> bool {
    iso is Some ==> holds_line(lines, dt_line(name, iso->0, all_day))
}

proof fn lemma_opt_line(name: Seq<char>, value: Option<Seq<char>>, verbatim: bool)
    ensures
        writes(opt_line(name, value, verbatim), name, value, verbatim),
{
    if value is Some {
        lemma_line_at(opt_line(name, value, verbatim), 0);
    }
}

proof fn lemma_opt_dt_line(name: Seq<char>, iso: Option<Seq<char>>, all_day: bool)
    ensures
        writes_time(opt_dt_line(name, iso, all_day), name, iso, all_day),
{
    if iso is Some {
        lemma_line_at(opt_dt_line(name, iso, all_day), 0);
    }
}

/// The first lines of an event: its identifier, its texts and its occurrence.
#[verifier::opaque]
spec fn event_head(
    uid: Option<Seq<char>>,
    rid: Option<Seq<char>>,
    ev: EventView,
    now: i64,
) -> Seq<OutView> {
    seq![plain_line("BEGIN"@, "VEVENT"@, true)] + opt_line("UID"@, uid, false) + seq![
        plain_line("DTSTAMP"@, crate::calendar::time::basic_text(now, false), true),
    ] + opt_dt_line("RECURRENCE-ID"@, rid, ev.all_day) + opt_line("SUMMARY"@, ev.summary, false)
        + opt_line("LOCATION"@, ev.location, false) + opt_line(
        "DESCRIPTION"@,
        ev.description,
        false,
    )
}

proof fn lemma_event_head(
    uid: Option<Seq<char>>,
    rid: Option<Seq<char>>,
    ev: EventView,
    now: i64,
)
    ensures
        ({
            let h = event_head(uid, rid, ev, now);
            &&& writes(h, "UID"@, uid, false)
            &&& writes_time(h, "RECURRENCE-ID"@, rid, ev.all_day)
            &&& writes(h, "SUMMARY"@, ev.summary, false)
            &&& writes(h, "LOCATION"@, ev.location, false)
            &&& writes(h, "DESCRIPTION"@, ev.description, false)
        }),
{
    reveal(event_head);
    let a = seq![plain_line("BEGIN"@, "VEVENT"@, true)];
    let b = opt_line("UID"@, uid, false);
    let c = seq![plain_line("DTSTAMP"@, crate::calendar::time::basic_text(now, false), true)];
    let d = opt_dt_line("RECURRENCE-ID"@, rid, ev.all_day);
    let e = opt_line("SUMMARY"@, ev.summary, false);
    let f = opt_line("LOCATION"@, ev.location, false);
    let g = opt_line("DESCRIPTION"@, ev.description, false);
    lemma_opt_line("UID"@, uid, false);
    lemma_opt_dt_line("RECURRENCE-ID"@, rid, ev.all_day);
    lemma_opt_line("SUMMARY"@, ev.summary, false);
    lemma_opt_line("LOCATION"@, ev.location, false);
    lemma_opt_line("DESCRIPTION"@, ev.description, false);
    lemma_line_kept(a, b);
    lemma_line_kept(a + b, c);
    lemma_line_kept(a + b + c, d);
    lemma_line_kept(a + b + c + d, e);
    lemma_line_kept(a + b + c + d + e, f);
    lemma_line_kept(a + b + c + d + e + f, g);
}

/// The lines of an event that tell when it is.
#[verifier::opaque]
spec fn event_times(head: Seq<OutView>, ev: EventView) -> Seq<OutView> {
    head + opt_dt_line("DTSTART"@, ev.dtstart, ev.all_day) + opt_dt_line(
        "DTEND"@,
        ev.dtend,
        ev.all_day,
    ) + opt_line("RRULE"@, ev.rrule, true) + dt_lines("EXDATE"@, ev.exdate, ev.all_day)
}

proof fn lemma_event_times(head: Seq<OutView>, ev: EventView)
    ensures
        ({
            let t = event_times(head, ev);
            &&& forall|l: OutView| #[trigger] holds_line(head, l) ==> holds_line(t, l)
            &&& writes_time(t, "DTSTART"@, ev.dtstart, ev.all_day)
            &&& writes_time(t, "DTEND"@, ev.dtend, ev.all_day)
            &&& writes(t, "RRULE"@, ev.rrule, true)
            &&& forall|i: int|
                0 <= i < ev.exdate.len() ==> holds_line(
                    t,
                    dt_line("EXDATE"@, #[trigger] ev.exdate[i], ev.all_day),
                )
        }),
{
    reveal(event_times);
    let a = opt_dt_line("DTSTART"@, ev.dtstart, ev.all_day);
    let b = opt_dt_line("DTEND"@, ev.dtend, ev.all_day);
    let c = opt_line("RRULE"@, ev.rrule, true);
    let d = dt_lines("EXDATE"@, ev.exdate, ev.all_day);
    lemma_opt_dt_line("DTSTART"@, ev.dtstart, ev.all_day);
    lemma_opt_dt_line("DTEND"@, ev.dtend, ev.all_day);
    lemma_opt_line("RRULE"@, ev.rrule, true);
    lemma_line_kept(head, a);
    lemma_line_kept(head + a, b);
    lemma_line_kept(head + a + b, c);
    lemma_line_kept(head + a + b + c, d);
    assert forall|i: int| 0 <= i < ev.exdate.len() implies holds_line(
        event_times(head, ev),
        dt_line("EXDATE"@, #[trigger] ev.exdate[i], ev.all_day),
    ) by {
        lemma_line_at(d, i);
        assert(d[i] == dt_line("EXDATE"@, ev.exdate[i], ev.all_day));
    }
}

/// An event is written with a line for each thing that it says: texts with escapes where they need them, rules
/// and keywords as they are, times in the form of a calendar, a line for each excluded occurrence and for each
/// participant, and the lines of each reminder.
pub proof fn law_written_events(
    uid: Option<Seq<char>>,
    rid: Option<Seq<char>>,
    ev: EventView,
    now: i64,
)
    ensures
        ({
            let t = event_lines(uid, rid, ev, now);
            &&& writes(t, "UID"@, uid, false)
            &&& writes_time(t, "RECURRENCE-ID"@, rid, ev.all_day)
            &&& writes(t, "SUMMARY"@, ev.summary, false)
            &&& writes(t, "LOCATION"@, ev.location, false)
            &&& writes(t, "DESCRIPTION"@, ev.description, false)
            &&& writes_time(t, "DTSTART"@, ev.dtstart, ev.all_day)
            &&& writes_time(t, "DTEND"@, ev.dtend, ev.all_day)
            &&& writes(t, "RRULE"@, ev.rrule, true)
            &&& writes(t, "STATUS"@, ev.status, true)
            &&& writes(t, "ORGANIZER"@, ev.organizer, true)
            &&& forall|i: int|
                0 <= i < ev.exdate.len() ==> holds_line(
                    t,
                    dt_line("EXDATE"@, #[trigger] ev.exdate[i], ev.all_day),
                )
            &&& forall|i: int|
                0 <= i < ev.attendees.len() ==> holds_line(
                    t,
                    attendee_line(#[trigger] ev.attendees[i]),
                )
            &&& forall|i: int|
                0 <= i < ev.alarms.len() ==> writes(
                    t,
                    "TRIGGER"@,
                    (#[trigger] ev.alarms[i]).trigger,
                    true,
                ) && writes(t, "ACTION"@, ev.alarms[i].action, true)
            &&& t.len() >= 2 && t[0] == plain_line("BEGIN"@, "VEVENT"@, true) && t.last()
                == plain_line("END"@, "VEVENT"@, true)
        }),
{
    let head = event_head(uid, rid, ev, now);
    lemma_event_head(uid, rid, ev, now);
    let times = event_times(head, ev);
    lemma_event_times(head, ev);
    let a = opt_line("STATUS"@, ev.status, true);
    let b = opt_line("ORGANIZER"@, ev.organizer, true);
    let c = ev.attendees.map_values(|a: AttendeeView| attendee_line(a));
    let d = category_lines(ev.categories);
    let e = all_alarm_lines(ev.alarms);
    let f = seq![plain_line("END"@, "VEVENT"@, true)];
    let t = event_lines(uid, rid, ev, now);
    assert(t == times + a + b + c + d + e + f) by {
        reveal(event_head);
        reveal(event_times);
    }
    lemma_opt_line("STATUS"@, ev.status, true);
    lemma_opt_line("ORGANIZER"@, ev.organizer, true);
    lemma_line_kept(times, a);
    lemma_line_kept(times + a, b);
    lemma_line_kept(times + a + b, c);
    lemma_line_kept(times + a + b + c, d);
    lemma_line_kept(times + a + b + c + d, e);
    lemma_line_kept(times + a + b + c + d + e, f);
    assert forall|i: int| 0 <= i < ev.attendees.len() implies holds_line(
        t,
        attendee_line(#[trigger] ev.attendees[i]),
    ) by {
        lemma_line_at(c, i);
        assert(c[i] == attendee_line(ev.attendees[i]));
    }
    assert forall|i: int| 0 <= i < ev.alarms.len() implies writes(
        t,
        "TRIGGER"@,
        (#[trigger] ev.alarms[i]).trigger,
        true,
    ) && writes(t, "ACTION"@, ev.alarms[i].action, true) by {
        lemma_alarm_lines(ev.alarms, i);
    }
    lemma_event_ends(uid, rid, ev, now);
}

proof fn lemma_event_ends(
    uid: Option<Seq<char>>,
    rid: Option<Seq<char>>,
    ev: EventView,
    now: i64,
)
    ensures
        ({
            let t = event_lines(uid, rid, ev, now);
            t.len() >= 2 && t[0] == plain_line("BEGIN"@, "VEVENT"@, true) && t.last() == plain_line(
                "END"@,
                "VEVENT"@,
                true,
            )
        }),
{
}

proof fn lemma_alarm_lines(alarms: Seq<AlarmView>, i: int)
    requires
        0 <= i < alarms.len(),
    ensures
        writes(all_alarm_lines(alarms), "TRIGGER"@, alarms[i].trigger, true),
        writes(all_alarm_lines(alarms), "ACTION"@, alarms[i].action, true),
        writes(all_alarm_lines(alarms), "DESCRIPTION"@, alarms[i].description, false),
    decreases alarms.len(),
{
    let rest = alarms.drop_last();
    let x = alarms.last();
    lemma_line_kept(all_alarm_lines(rest), alarm_lines(x));
    if i < rest.len() {
        lemma_alarm_lines(rest, i);
    } else {
        let a = seq![plain_line("BEGIN"@, "VALARM"@, true)];
        let b = opt_line("ACTION"@, x.action, true);
        let c = opt_line("TRIGGER"@, x.trigger, true);
        let d = opt_line("DESCRIPTION"@, x.description, false);
        let e = seq![plain_line("END"@, "VALARM"@, true)];
        lemma_opt_line("ACTION"@, x.action, true);
        lemma_opt_line("TRIGGER"@, x.trigger, true);
        lemma_opt_line("DESCRIPTION"@, x.description, false);
        lemma_line_kept(a, b);
        lemma_line_kept(a + b, c);
        lemma_line_kept(a + b + c, d);
        lemma_line_kept(a + b + c + d, e);
    }
}

/// A task is written with a line for each thing that it says.
pub proof fn law_written_tasks(
    uid: Option<Seq<char>>,
    rid: Option<Seq<char>>,
    td: TodoView,
    now: i64,
)
    ensures
        ({
            let t = todo_lines(uid, rid, td, now);
            &&& writes(t, "UID"@, uid, false)
            &&& writes_time(t, "RECURRENCE-ID"@, rid, false)
            &&& writes(t, "SUMMARY"@, td.summary, false)
            &&& writes(t, "DESCRIPTION"@, td.description, false)
            &&& writes_time(t, "DTSTART"@, td.dtstart, false)
            &&& writes_time(t, "DUE"@, td.due, false)
            &&& writes_time(t, "COMPLETED"@, td.completed, false)
            &&& writes(t, "STATUS"@, td.status, true)
            &&& writes(t, "RRULE"@, td.rrule, true)
            &&& td.priority is Some ==> writes(
                t,
                "PRIORITY"@,
                Some(decimal::decimal_text(td.priority->0 as nat)),
                true,
            )
        }),
{
    let head = todo_head(uid, rid, td, now);
    lemma_todo_head(uid, rid, td, now);
    let a = opt_dt_line("DUE"@, td.due, false);
    let b = opt_dt_line("COMPLETED"@, td.completed, false);
    let c = opt_line("PRIORITY"@, priority_text(td.priority), true);
    let d = opt_line("STATUS"@, td.status, true);
    let e = opt_line("RRULE"@, td.rrule, true);
    let f = category_lines(td.categories);
    let g = all_alarm_lines(td.alarms);
    let h = seq![plain_line("END"@, "VTODO"@, true)];
    let t = todo_lines(uid, rid, td, now);
    assert(t == head + a + b + c + d + e + f + g + h) by {
        reveal(todo_head);
    }
    lemma_opt_dt_line("DUE"@, td.due, false);
    lemma_opt_dt_line("COMPLETED"@, td.completed, false);
    lemma_opt_line("PRIORITY"@, priority_text(td.priority), true);
    lemma_opt_line("STATUS"@, td.status, true);
    lemma_opt_line("RRULE"@, td.rrule, true);
    lemma_line_kept(head, a);
    lemma_line_kept(head + a, b);
    lemma_line_kept(head + a + b, c);
    lemma_line_kept(head + a + b + c, d);
    lemma_line_kept(head + a + b + c + d, e);
    lemma_line_kept(head + a + b + c + d + e, f);
    lemma_line_kept(head + a + b + c + d + e + f, g);
    lemma_line_kept(head + a + b + c + d + e + f + g, h);
}

/// The first lines of a task.
#[verifier::opaque]
spec fn todo_head(
    uid: Option<Seq<char>>,
    rid: Option<Seq<char>>,
    td: TodoView,
    now: i64,
) -> Seq<OutView> {
    seq![plain_line("BEGIN"@, "VTODO"@, true)] + opt_line("UID"@, uid, false) + seq![
        plain_line("DTSTAMP"@, crate::calendar::time::basic_text(now, false), true),
    ] + opt_dt_line("RECURRENCE-ID"@, rid, false) + opt_line("SUMMARY"@, td.summary, false)
        + opt_line("DESCRIPTION"@, td.description, false) + opt_dt_line(
        "DTSTART"@,
        td.dtstart,
        false,
    )
}

proof fn lemma_todo_head(
    uid: Option<Seq<char>>,
    rid: Option<Seq<char>>,
    td: TodoView,
    now: i64,
)
    ensures
        ({
            let h = todo_head(uid, rid, td, now);
            &&& writes(h, "UID"@, uid, false)
            &&& writes_time(h, "RECURRENCE-ID"@, rid, false)
            &&& writes(h, "SUMMARY"@, td.summary, false)
            &&& writes(h, "DESCRIPTION"@, td.description, false)
            &&& writes_time(h, "DTSTART"@, td.dtstart, false)
        }),
{
    reveal(todo_head);
    let a = seq![plain_line("BEGIN"@, "VTODO"@, true)];
    let b = opt_line("UID"@, uid, false);
    let c = seq![plain_line("DTSTAMP"@, crate::calendar::time::basic_text(now, false), true)];
    let d = opt_dt_line("RECURRENCE-ID"@, rid, false);
    let e = opt_line("SUMMARY"@, td.summary, false);
    let f = opt_line("DESCRIPTION"@, td.description, false);
    let g = opt_dt_line("DTSTART"@, td.dtstart, false);
    lemma_opt_line("UID"@, uid, false);
    lemma_opt_dt_line("RECURRENCE-ID"@, rid, false);
    lemma_opt_line("SUMMARY"@, td.summary, false);
    lemma_opt_line("DESCRIPTION"@, td.description, false);
    lemma_opt_dt_line("DTSTART"@, td.dtstart, false);
    lemma_line_kept(a, b);
    lemma_line_kept(a + b, c);
    lemma_line_kept(a + b + c, d);
    lemma_line_kept(a + b + c + d, e);
    lemma_line_kept(a + b + c + d + e, f);
    lemma_line_kept(a + b + c + d + e + f, g);
}

/// The line of a participant holds their address and every parameter that is there.
pub proof fn law_written_participants(a: AttendeeView)
    ensures
        attendee_line(a).name == "ATTENDEE"@ && attendee_line(a).value == a.address,
        a.cn is Some ==> attendee_line(a).params.contains(("CN"@, a.cn->0)),
        a.partstat is Some ==> attendee_line(a).params.contains(("PARTSTAT"@, a.partstat->0)),
        a.role is Some ==> attendee_line(a).params.contains(("ROLE"@, a.role->0)),
        a.rsvp == Some(true) ==> attendee_line(a).params.contains(("RSVP"@, "TRUE"@)),
        a.rsvp == Some(false) ==> attendee_line(a).params.contains(("RSVP"@, "FALSE"@)),
{
    let p = attendee_line(a).params;
    let n: int = if a.cn is Some {
        1
    } else {
        0
    };
    let m: int = if a.partstat is Some {
        n + 1
    } else {
        n
    };
    let k: int = if a.role is Some {
        m + 1
    } else {
        m
    };
    if a.cn is Some {
        assert(p[0] == ("CN"@, a.cn->0));
    }
    if a.partstat is Some {
        assert(p[n] == ("PARTSTAT"@, a.partstat->0));
    }
    if a.role is Some {
        assert(p[m] == ("ROLE"@, a.role->0));
    }
    if a.rsvp == Some(true) {
        assert(p[k] == ("RSVP"@, "TRUE"@));
    }
    if a.rsvp == Some(false) {
        assert(p[k] == ("RSVP"@, "FALSE"@));
    }
}

/// A calendar that is written opens and closes as one, and holds the lines of its event, or of its task where
/// there is no event.
pub proof fn law_written_calendars(input: &CalendarObjectInput, now: Timestamp, r: Vec<OutLine>)
    requires
        call_ensures(generate_at, (input, now), r),
    ensures
        ({
            let o = input.deep_view();
            let v = r.deep_view();
            &&& v.len() >= 5 && v[0] == plain_line("BEGIN"@, "VCALENDAR"@, true) && v.last()
                == plain_line("END"@, "VCALENDAR"@, true)
            &&& o.event is Some ==> v.subrange(4, v.len() - 1) == event_lines(
                o.uid,
                o.recurrence_id,
                o.event->0,
                now.0,
            )
            &&& o.event is None && o.todo is Some ==> v.subrange(4, v.len() - 1) == todo_lines(
                o.uid,
                o.recurrence_id,
                o.todo->0,
                now.0,
            )
            &&& o.event is None && o.todo is None ==> v.len() == 5
        }),
{
    let o = input.deep_view();
    let v = r.deep_view();
    let body = crate::calendar::ical_writer::component_lines(o, now.0);
    assert(v.subrange(4, v.len() - 1) =~= body);
}

} // verus!
