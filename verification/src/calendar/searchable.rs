//! What is found of an event or a task that was written as iCalendar, where only its searchable
//! part is read.
use crate::calendar::ical::{
    closed, extracted, fresh, last_master, opened, primary, read_lines, reading, stepped, took,
    unread, ComponentView, LineView, OutView, ReaderView,
};
use crate::calendar::ical_writer::{
    alarm_lines, all_alarm_lines, attendee_line, calendar_head, category_lines, dt_lines,
    event_lines, generated, opt_dt_line, opt_line, plain_line, priority_text, todo_lines,
};
use crate::calendar::round_trip::{
    carried, carried_all, law_event_round_trip, law_todo_round_trip, lemma_components_upper,
    lemma_names_differ, property_name, stored_event, stored_todo,
};
use crate::calendar::time::basic_text;
use crate::calendar::types::{AlarmView, AttendeeView, EventView, ObjectView, TodoView};
use crate::text::ascii_upper_all;
use vstd::prelude::*;

verus! {

/// A component without its reminders.
pub open spec fn without_alarms(c: ComponentView) -> ComponentView {
    ComponentView { alarms: Seq::empty(), ..c }
}

/// Whether two readings agree on everything but reminders, which the second does not read.
spec fn twin(t: ReaderView, s: ReaderView) -> bool {
    &&& s.stack == t.stack
    &&& s.warnings == t.warnings
    &&& s.alarm is None
    &&& s.current == (match t.current {
        Some(c) => Some(without_alarms(c)),
        None => None,
    })
    &&& s.done == t.done.map_values(|c: ComponentView| without_alarms(c))
}

/// A reader outside any event or task.
spec fn outside(t: ReaderView) -> bool {
    t.current is None && t.alarm is None
}

/// A reader directly inside an event or a task.
spec fn inside(t: ReaderView) -> bool {
    &&& t.current matches Some(c) && (c.kind == "VEVENT"@ || c.kind == "VTODO"@)
        && t.stack.len() > 0 && t.stack.last() == c.kind
    &&& t.alarm is None
}

/// A reader inside a reminder of an event or a task.
spec fn in_alarm(t: ReaderView) -> bool {
    &&& t.current matches Some(c) && (c.kind == "VEVENT"@ || c.kind == "VTODO"@)
        && t.stack.len() > 1 && t.stack[t.stack.len() - 2] == c.kind
    &&& t.stack.last() == "VALARM"@
    &&& t.alarm is Some
}

proof fn lemma_kinds_differ()
    ensures
        "VEVENT"@ != "VALARM"@,
        "VTODO"@ != "VALARM"@,
        "VCALENDAR"@ != "VEVENT"@,
        "VCALENDAR"@ != "VTODO"@,
        "BEGIN"@ != "END"@,
{
    lemma_components_upper();
    lemma_names_differ();
    reveal_strlit("BEGIN");
    reveal_strlit("END");
    assert("BEGIN"@.len() == 5 && "END"@.len() == 3);
}

proof fn lemma_twin_property(t: ReaderView, s: ReaderView, w: OutView, l: LineView)
    requires
        carried(w, l),
        property_name(w.name),
        twin(t, s),
        outside(t) || inside(t) || in_alarm(t),
    ensures
        twin(stepped(t, l, true), stepped(s, l, false)),
        outside(t) ==> outside(stepped(t, l, true)),
        inside(t) ==> inside(stepped(t, l, true)),
        in_alarm(t) ==> in_alarm(stepped(t, l, true)),
{
    lemma_kinds_differ();
    if inside(t) {
        let raw = l.parts->Some_0;
        let c = t.current->Some_0;
        assert(took(without_alarms(c), raw) =~= without_alarms(took(c, raw)));
        assert(took(c, raw).kind == c.kind);
    }
}

proof fn lemma_twin_properties(t: ReaderView, s: ReaderView, ws: Seq<OutView>, ls: Seq<LineView>)
    requires
        carried_all(ws, ls),
        forall|i: int| 0 <= i < ws.len() ==> property_name((#[trigger] ws[i]).name),
        twin(t, s),
        outside(t) || inside(t) || in_alarm(t),
    ensures
        twin(read_lines(t, ls, true), read_lines(s, ls, false)),
        outside(t) ==> outside(read_lines(t, ls, true)),
        inside(t) ==> inside(read_lines(t, ls, true)),
        in_alarm(t) ==> in_alarm(read_lines(t, ls, true)),
    decreases ws.len(),
{
    if ws.len() > 0 {
        let n = ws.len() - 1;
        lemma_twin_properties(t, s, ws.drop_last(), ls.drop_last());
        assert(carried(ws[n], ls[n]));
        assert(property_name(ws[n].name));
        lemma_twin_property(
            read_lines(t, ls.drop_last(), true),
            read_lines(s, ls.drop_last(), false),
            ws[n],
            ls[n],
        );
    }
}

/// Cuts lines where the written lines were joined.
proof fn lemma_cut(s: ReaderView, a: Seq<OutView>, b: Seq<OutView>, ls: Seq<LineView>, alarms: bool)
    requires
        carried_all(a + b, ls),
    ensures
        carried_all(a, ls.take(a.len() as int)),
        carried_all(b, ls.skip(a.len() as int)),
        read_lines(s, ls, alarms) == read_lines(
            read_lines(s, ls.take(a.len() as int), alarms),
            ls.skip(a.len() as int),
            alarms,
        ),
    decreases b.len(),
{
    let n = a.len() as int;
    assert forall|i: int| 0 <= i < a.len() implies carried(#[trigger] a[i], ls.take(n)[i]) by {
        assert(carried((a + b)[i], ls[i]));
    }
    assert forall|i: int| 0 <= i < b.len() implies carried(#[trigger] b[i], ls.skip(n)[i]) by {
        assert(carried((a + b)[n + i], ls[n + i]));
    }
    if b.len() == 0 {
        assert(ls.take(n) =~= ls);
        assert(ls.skip(n) =~= Seq::empty());
    } else {
        let c = b.drop_last();
        let ks = ls.drop_last();
        assert forall|i: int| 0 <= i < (a + c).len() implies carried(#[trigger] (a + c)[i], ks[i]) by {
            assert(carried((a + b)[i], ls[i]));
            assert((a + c)[i] == (a + b)[i]);
        }
        lemma_cut(s, a, c, ks, alarms);
        assert(ks.take(n) =~= ls.take(n));
        assert(ks.skip(n) =~= ls.skip(n).drop_last());
        assert(ls.skip(n).last() == ls.last());
    }
}

/// Reading the line that opens a component.
proof fn lemma_twin_begin(t: ReaderView, s: ReaderView, comp: Seq<char>, ls: Seq<LineView>)
    requires
        carried_all(seq![plain_line("BEGIN"@, comp, true)], ls),
        ascii_upper_all(comp) == comp,
        twin(t, s),
        outside(t) || (inside(t) && comp == "VALARM"@),
    ensures
        twin(read_lines(t, ls, true), read_lines(s, ls, false)),
        outside(t) && (comp == "VEVENT"@ || comp == "VTODO"@) ==> inside(read_lines(t, ls, true))
            && read_lines(t, ls, true).current->Some_0.kind == comp,
        outside(t) && comp != "VEVENT"@ && comp != "VTODO"@ ==> outside(read_lines(t, ls, true)),
        inside(t) ==> in_alarm(read_lines(t, ls, true)) && read_lines(
            t,
            ls,
            true,
        ).current->Some_0.kind == t.current->Some_0.kind,
{
    lemma_kinds_differ();
    let w = plain_line("BEGIN"@, comp, true);
    let l = ls[0];
    assert(carried(seq![w][0], ls[0]));
    lemma_line(t, l, ls, true);
    lemma_line(s, l, ls, false);
    assert(stepped(t, l, true) == opened(t, comp, true));
    assert(stepped(s, l, false) == opened(s, comp, false));
    assert(without_alarms(fresh(comp)) =~= fresh(comp));
}

proof fn lemma_line(s: ReaderView, l: LineView, ls: Seq<LineView>, alarms: bool)
    requires
        ls.len() == 1,
        ls[0] == l,
    ensures
        read_lines(s, ls, alarms) == stepped(s, l, alarms),
{
    assert(ls.drop_last() =~= Seq::empty());
    assert(read_lines(s, ls.drop_last(), alarms) == s);
}

/// Reading the line that closes a component.
proof fn lemma_twin_end(t: ReaderView, s: ReaderView, comp: Seq<char>, ls: Seq<LineView>)
    requires
        carried_all(seq![plain_line("END"@, comp, true)], ls),
        ascii_upper_all(comp) == comp,
        twin(t, s),
        outside(t) || (in_alarm(t) && comp == "VALARM"@) || (inside(t) && comp
            == t.current->Some_0.kind),
    ensures
        twin(read_lines(t, ls, true), read_lines(s, ls, false)),
        in_alarm(t) ==> inside(read_lines(t, ls, true)) && read_lines(
            t,
            ls,
            true,
        ).current->Some_0.kind == t.current->Some_0.kind,
        !in_alarm(t) ==> outside(read_lines(t, ls, true)),
{
    lemma_kinds_differ();
    let w = plain_line("END"@, comp, true);
    let l = ls[0];
    assert(carried(seq![w][0], ls[0]));
    lemma_line(t, l, ls, true);
    lemma_line(s, l, ls, false);
    let (t2, s2) = (closed(t, comp, true), closed(s, comp, false));
    assert(stepped(t, l, true) == t2);
    assert(stepped(s, l, false) == s2);
    if in_alarm(t) {
        let c = t.current->Some_0;
        let d = t2.current->Some_0;
        assert(without_alarms(d) =~= without_alarms(c));
        assert(t.stack.drop_last().last() == c.kind);
    } else if inside(t) {
        assert(s2.done =~= t2.done.map_values(|c: ComponentView| without_alarms(c)));
    }
}

proof fn lemma_twin_alarms(t: ReaderView, s: ReaderView, list: Seq<AlarmView>, ls: Seq<LineView>)
    requires
        carried_all(all_alarm_lines(list), ls),
        twin(t, s),
        inside(t),
    ensures
        twin(read_lines(t, ls, true), read_lines(s, ls, false)),
        inside(read_lines(t, ls, true)),
        read_lines(t, ls, true).current->Some_0.kind == t.current->Some_0.kind,
    decreases list.len(),
{
    if list.len() > 0 {
        let before = all_alarm_lines(list.drop_last());
        let a = list.last();
        let n = before.len() as int;
        lemma_cut(t, before, alarm_lines(a), ls, true);
        lemma_cut(s, before, alarm_lines(a), ls, false);
        lemma_twin_alarms(t, s, list.drop_last(), ls.take(n));
        lemma_twin_alarm(
            read_lines(t, ls.take(n), true),
            read_lines(s, ls.take(n), false),
            a,
            ls.skip(n),
        );
    }
}

proof fn lemma_twin_alarm(t: ReaderView, s: ReaderView, a: AlarmView, ls: Seq<LineView>)
    requires
        carried_all(alarm_lines(a), ls),
        twin(t, s),
        inside(t),
    ensures
        twin(read_lines(t, ls, true), read_lines(s, ls, false)),
        inside(read_lines(t, ls, true)),
        read_lines(t, ls, true).current->Some_0.kind == t.current->Some_0.kind,
{
    lemma_names_differ();
    lemma_components_upper();
    let b = seq![plain_line("BEGIN"@, "VALARM"@, true)];
    let e = seq![plain_line("END"@, "VALARM"@, true)];
    let mid = opt_line("ACTION"@, a.action, true) + opt_line("TRIGGER"@, a.trigger, true)
        + opt_line("DESCRIPTION"@, a.description, false);
    assert(alarm_lines(a) =~= b + mid + e);
    let n = (b + mid).len() as int;
    lemma_cut(t, b + mid, e, ls, true);
    lemma_cut(s, b + mid, e, ls, false);
    let head = ls.take(n);
    lemma_cut(t, b, mid, head, true);
    lemma_cut(s, b, mid, head, false);
    lemma_twin_begin(t, s, "VALARM"@, head.take(1));
    let (t1, s1) = (read_lines(t, head.take(1), true), read_lines(s, head.take(1), false));
    lemma_twin_properties(t1, s1, mid, head.skip(1));
    let (t2, s2) = (read_lines(t, head, true), read_lines(s, head, false));
    lemma_kind_stays(t1, mid, head.skip(1));
    lemma_twin_end(t2, s2, "VALARM"@, ls.skip(n));
}

/// Properties never change of what sort the component is that they belong to.
proof fn lemma_kind_stays(t: ReaderView, ws: Seq<OutView>, ls: Seq<LineView>)
    requires
        carried_all(ws, ls),
        forall|i: int| 0 <= i < ws.len() ==> property_name((#[trigger] ws[i]).name),
        t.current is Some,
    ensures
        read_lines(t, ls, true).current matches Some(c) && c.kind == t.current->Some_0.kind,
    decreases ws.len(),
{
    if ws.len() > 0 {
        let n = ws.len() - 1;
        lemma_kind_stays(t, ws.drop_last(), ls.drop_last());
        assert(carried(ws[n], ls[n]));
        assert(property_name(ws[n].name));
    }
}

/// Whether lines open a component and then hold properties only.
spec fn opens(ws: Seq<OutView>, kind: Seq<char>) -> bool {
    &&& ws.len() > 0
    &&& ws[0] == plain_line("BEGIN"@, kind, true)
    &&& forall|i: int| 1 <= i < ws.len() ==> property_name((#[trigger] ws[i]).name)
}

proof fn lemma_opens(ws: Seq<OutView>, more: Seq<OutView>, kind: Seq<char>)
    requires
        opens(ws, kind),
        forall|i: int| 0 <= i < more.len() ==> property_name((#[trigger] more[i]).name),
    ensures
        opens(ws + more, kind),
{
    assert forall|i: int| 1 <= i < (ws + more).len() implies property_name(
        (#[trigger] (ws + more)[i]).name,
    ) by {
        if i >= ws.len() {
            assert((ws + more)[i] == more[i - ws.len()]);
        }
    }
}

/// Reading a whole calendar that holds one component.
proof fn lemma_twin_calendar(
    body: Seq<OutView>,
    list: Seq<AlarmView>,
    kind: Seq<char>,
    ls: Seq<LineView>,
)
    requires
        kind == "VEVENT"@ || kind == "VTODO"@,
        opens(body, kind),
        carried_all(
            calendar_head() + (body + all_alarm_lines(list) + seq![plain_line("END"@, kind, true)])
                + seq![plain_line("END"@, "VCALENDAR"@, true)],
            ls,
        ),
    ensures
        twin(reading(ls, true), reading(ls, false)),
{
    lemma_names_differ();
    lemma_components_upper();
    lemma_kinds_differ();
    let h = calendar_head();
    let e1 = seq![plain_line("END"@, kind, true)];
    let e2 = seq![plain_line("END"@, "VCALENDAR"@, true)];
    let al = all_alarm_lines(list);
    let whole = body + al + e1;
    let u = unread();
    assert(u.done.map_values(|c: ComponentView| without_alarms(c)) =~= u.done);
    // The closing line of the calendar.
    let n5 = (h + whole).len() as int;
    lemma_cut(u, h + whole, e2, ls, true);
    lemma_cut(u, h + whole, e2, ls, false);
    let k5 = ls.take(n5);
    // The opening lines of the calendar.
    lemma_cut(u, h, whole, k5, true);
    lemma_cut(u, h, whole, k5, false);
    let kh = k5.take(4);
    let kb = k5.skip(4);
    let h0 = seq![h[0]];
    let h1 = seq![h[1], h[2], h[3]];
    assert(h =~= h0 + h1);
    lemma_cut(u, h0, h1, kh, true);
    lemma_cut(u, h0, h1, kh, false);
    lemma_twin_begin(u, u, "VCALENDAR"@, kh.take(1));
    let (t0, s0) = (read_lines(u, kh.take(1), true), read_lines(u, kh.take(1), false));
    lemma_twin_properties(t0, s0, h1, kh.skip(1));
    let (t1, s1) = (read_lines(u, kh, true), read_lines(u, kh, false));
    // The component without its closing line.
    lemma_cut(t1, body + al, e1, kb, true);
    lemma_cut(s1, body + al, e1, kb, false);
    let nc = (body + al).len() as int;
    let kc = kb.take(nc);
    lemma_cut(t1, body, al, kc, true);
    lemma_cut(s1, body, al, kc, false);
    let np = body.len() as int;
    let kp = kc.take(np);
    let b = seq![body[0]];
    let ps = body.skip(1);
    assert(body =~= b + ps);
    lemma_cut(t1, b, ps, kp, true);
    lemma_cut(s1, b, ps, kp, false);
    lemma_twin_begin(t1, s1, kind, kp.take(1));
    let (t2, s2) = (read_lines(t1, kp.take(1), true), read_lines(s1, kp.take(1), false));
    lemma_twin_properties(t2, s2, ps, kp.skip(1));
    lemma_kind_stays(t2, ps, kp.skip(1));
    let (t3, s3) = (read_lines(t1, kp, true), read_lines(s1, kp, false));
    lemma_twin_alarms(t3, s3, list, kc.skip(np));
    let (t4, s4) = (read_lines(t1, kc, true), read_lines(s1, kc, false));
    lemma_twin_end(t4, s4, kind, kb.skip(nc));
    let (t5, s5) = (read_lines(u, k5, true), read_lines(u, k5, false));
    lemma_twin_end(t5, s5, "VCALENDAR"@, ls.skip(n5));
}

proof fn lemma_event_opens(
    uid: Option<Seq<char>>,
    rid: Option<Seq<char>>,
    ev: EventView,
    now: i64,
) -> (body: Seq<OutView>)
    ensures
        opens(body, "VEVENT"@),
        event_lines(uid, rid, ev, now) == body + all_alarm_lines(ev.alarms) + seq![
            plain_line("END"@, "VEVENT"@, true),
        ],
{
    lemma_names_differ();
    let k = "VEVENT"@;
    let w0 = seq![plain_line("BEGIN"@, k, true)];
    let w1 = w0 + opt_line("UID"@, uid, false);
    lemma_opens(w0, opt_line("UID"@, uid, false), k);
    let stamp = seq![plain_line("DTSTAMP"@, basic_text(now, false), true)];
    let w2 = w1 + stamp;
    lemma_opens(w1, stamp, k);
    let w3 = w2 + opt_dt_line("RECURRENCE-ID"@, rid, ev.all_day);
    lemma_opens(w2, opt_dt_line("RECURRENCE-ID"@, rid, ev.all_day), k);
    let w4 = w3 + opt_line("SUMMARY"@, ev.summary, false);
    lemma_opens(w3, opt_line("SUMMARY"@, ev.summary, false), k);
    let w5 = w4 + opt_line("LOCATION"@, ev.location, false);
    lemma_opens(w4, opt_line("LOCATION"@, ev.location, false), k);
    let w6 = w5 + opt_line("DESCRIPTION"@, ev.description, false);
    lemma_opens(w5, opt_line("DESCRIPTION"@, ev.description, false), k);
    let w7 = w6 + opt_dt_line("DTSTART"@, ev.dtstart, ev.all_day);
    lemma_opens(w6, opt_dt_line("DTSTART"@, ev.dtstart, ev.all_day), k);
    let w8 = w7 + opt_dt_line("DTEND"@, ev.dtend, ev.all_day);
    lemma_opens(w7, opt_dt_line("DTEND"@, ev.dtend, ev.all_day), k);
    let w9 = w8 + opt_line("RRULE"@, ev.rrule, true);
    lemma_opens(w8, opt_line("RRULE"@, ev.rrule, true), k);
    let w10 = w9 + dt_lines("EXDATE"@, ev.exdate, ev.all_day);
    lemma_opens(w9, dt_lines("EXDATE"@, ev.exdate, ev.all_day), k);
    let w11 = w10 + opt_line("STATUS"@, ev.status, true);
    lemma_opens(w10, opt_line("STATUS"@, ev.status, true), k);
    let w12 = w11 + opt_line("ORGANIZER"@, ev.organizer, true);
    lemma_opens(w11, opt_line("ORGANIZER"@, ev.organizer, true), k);
    let people = ev.attendees.map_values(|a: AttendeeView| attendee_line(a));
    let w13 = w12 + people;
    lemma_opens(w12, people, k);
    let w14 = w13 + category_lines(ev.categories);
    lemma_opens(w13, category_lines(ev.categories), k);
    w14
}

proof fn lemma_todo_opens(
    uid: Option<Seq<char>>,
    rid: Option<Seq<char>>,
    td: TodoView,
    now: i64,
) -> (body: Seq<OutView>)
    ensures
        opens(body, "VTODO"@),
        todo_lines(uid, rid, td, now) == body + all_alarm_lines(td.alarms) + seq![
            plain_line("END"@, "VTODO"@, true),
        ],
{
    lemma_names_differ();
    let k = "VTODO"@;
    let w0 = seq![plain_line("BEGIN"@, k, true)];
    let w1 = w0 + opt_line("UID"@, uid, false);
    lemma_opens(w0, opt_line("UID"@, uid, false), k);
    let stamp = seq![plain_line("DTSTAMP"@, basic_text(now, false), true)];
    let w2 = w1 + stamp;
    lemma_opens(w1, stamp, k);
    let w3 = w2 + opt_dt_line("RECURRENCE-ID"@, rid, false);
    lemma_opens(w2, opt_dt_line("RECURRENCE-ID"@, rid, false), k);
    let w4 = w3 + opt_line("SUMMARY"@, td.summary, false);
    lemma_opens(w3, opt_line("SUMMARY"@, td.summary, false), k);
    let w5 = w4 + opt_line("DESCRIPTION"@, td.description, false);
    lemma_opens(w4, opt_line("DESCRIPTION"@, td.description, false), k);
    let w6 = w5 + opt_dt_line("DTSTART"@, td.dtstart, false);
    lemma_opens(w5, opt_dt_line("DTSTART"@, td.dtstart, false), k);
    let w7 = w6 + opt_dt_line("DUE"@, td.due, false);
    lemma_opens(w6, opt_dt_line("DUE"@, td.due, false), k);
    let w8 = w7 + opt_dt_line("COMPLETED"@, td.completed, false);
    lemma_opens(w7, opt_dt_line("COMPLETED"@, td.completed, false), k);
    let w9 = w8 + opt_line("PRIORITY"@, priority_text(td.priority), true);
    lemma_opens(w8, opt_line("PRIORITY"@, priority_text(td.priority), true), k);
    let w10 = w9 + opt_line("STATUS"@, td.status, true);
    lemma_opens(w9, opt_line("STATUS"@, td.status, true), k);
    let w11 = w10 + opt_line("RRULE"@, td.rrule, true);
    lemma_opens(w10, opt_line("RRULE"@, td.rrule, true), k);
    let w12 = w11 + category_lines(td.categories);
    lemma_opens(w11, category_lines(td.categories), k);
    w12
}

/// What comes back of an event, or else of a task, that is written.
pub open spec fn stored_component(input: ObjectView) -> ComponentView {
    match (input.event, input.todo) {
        (Some(ev), _) => stored_event(input.uid, input.recurrence_id, ev),
        (None, Some(td)) => stored_todo(input.uid, input.recurrence_id, td),
        (None, None) => fresh(Seq::empty()),
    }
}

/// Of an event or a task that is written, the searchable part alone is read as it is read of the
/// whole, with the same identifier, whatever its reminders say. No warning comes up.
pub proof fn law_written_is_parseable(input: ObjectView, now: i64, lines: Seq<LineView>)
    requires
        input.event is Some || input.todo is Some,
        carried_all(generated(input, now), lines),
    ensures
        primary(reading(lines, false).done) matches Some(c) && extracted(c) == extracted(
            stored_component(input),
        ) && c.uid == input.uid && c.kind == (if input.event is Some {
            "VEVENT"@
        } else {
            "VTODO"@
        }),
        reading(lines, false).warnings.len() == 0,
{
    let c = stored_component(input);
    if let Some(ev) = input.event {
        law_event_round_trip(input, now, lines);
        let body = lemma_event_opens(input.uid, input.recurrence_id, ev, now);
        lemma_twin_calendar(body, ev.alarms, "VEVENT"@, lines);
    } else {
        let td = input.todo->Some_0;
        law_todo_round_trip(input, now, lines);
        let body = lemma_todo_opens(input.uid, input.recurrence_id, td, now);
        lemma_twin_calendar(body, td.alarms, "VTODO"@, lines);
    }
    let cs = reading(lines, false).done;
    assert(reading(lines, true).done == seq![c]);
    assert(cs.len() == 1 && cs[0] == without_alarms(c));
    reveal_with_fuel(last_master, 2);
    assert(cs.drop_last() =~= Seq::empty());
    assert(primary(cs) == Some(cs[0]));
    assert(extracted(cs[0]) == extracted(c));
}

} // verus!
