//! Calendars and their objects through the structured interface.
use crate::calendar::ical::{self, reading, primary, input_of, ContentLine, LineView};
use crate::calendar::ical_writer::generated;
use crate::calendar::round_trip::{
    carried_all, law_event_round_trip, law_todo_round_trip, stored_event, stored_todo,
};
use crate::calendar::time::{self, iso_text, iso_ts_reading};
use crate::calendar::types::{
    Calendar, CalendarCreate, CalendarObject, CalendarObjectExtracted, CalendarObjectInput,
    CalendarObjectListItem, CalendarObjectOutput, CalendarObjectPatch, CalendarOutput,
    CalendarPatch, CreateCalendarData, EventInput, EventPatch, EventPatchView, EventView,
    ExtractedView, ListCalendarObjectOptions, ListItemView, ListObjectsQuery, ObjectPatchView,
    ObjectView, OutputView, SplitSeriesRequest, TodoInput, TodoPatch, TodoPatchView, TodoView,
    UpdateCalendarData,
};
use crate::decimal;
use crate::text::{self, joined, trimmed};
use crate::types::{is_result, Error, ErrorView, Patch, Timestamp};
use vstd::prelude::*;

verus! {

/// Shows a calendar.
pub fn cal_to_output(cal: &Calendar) -> (r: CalendarOutput)
    ensures
        r.deep_view() == cal.deep_view(),
{
    CalendarOutput {
        cal_id: cal.cal_id,
        name: text::owned(cal.name.as_str()),
        description: text::owned_opt(text::as_opt(&cal.description)),
        color: text::owned_opt(text::as_opt(&cal.color)),
        timezone: text::owned_opt(text::as_opt(&cal.timezone)),
        components: text::owned(cal.components.as_str()),
        ctag: text::owned(cal.ctag.as_str()),
        created_at: cal.created_at,
        updated_at: cal.updated_at,
    }
}

/// Shows calendars, in their order.
pub fn list_calendars(cals: &Vec<Calendar>) -> (r: Vec<CalendarOutput>)
    ensures
        r.deep_view() == cals.deep_view(),
{
    let mut out: Vec<CalendarOutput> = Vec::new();
    let mut i: usize = 0;
    while i < cals.len()
        invariant
            i <= cals@.len(),
            out@.len() == i,
            forall|k: int| 0 <= k < i ==> (#[trigger] out@[k]).deep_view() == cals@[k].deep_view(),
        decreases cals@.len() - i,
    {
        out.push(cal_to_output(&cals[i]));
        i = i + 1;
    }
    assert(out.deep_view() =~= cals.deep_view());
    out
}

/// The text of an instant that is there.
pub open spec fn iso_at(t: Option<Timestamp>, all_day: bool) -> Option<Seq<char>> {
    match t {
        Some(ts) => Some(iso_text(ts.0, all_day)),
        None => None,
    }
}

fn write_iso_at(t: Option<Timestamp>, all_day: bool) -> (r: Option<String>)
    ensures
        r.deep_view() == iso_at(t, all_day),
{
    match t {
        Some(ts) => Some(time::ts_to_iso(ts, all_day)),
        None => None,
    }
}

/// The texts of the excluded occurrences, if there are any.
pub open spec fn iso_list(ts: Seq<Timestamp>, all_day: bool) -> Option<Seq<Seq<char>>> {
    if ts.len() == 0 {
        None
    } else {
        Some(ts.map_values(|t: Timestamp| iso_text(t.0, all_day)))
    }
}

fn write_iso_list(ts: &Vec<Timestamp>, all_day: bool) -> (r: Option<Vec<String>>)
    ensures
        r.deep_view() == iso_list(ts.deep_view(), all_day),
{
    let ghost all = ts.deep_view();
    if ts.len() == 0 {
        return None;
    }
    let mut out: Vec<String> = Vec::new();
    let mut i: usize = 0;
    while i < ts.len()
        invariant
            i <= ts@.len(),
            out@.len() == i,
            forall|k: int|
                0 <= k < i ==> (#[trigger] out@[k])@ == iso_text(ts@[k].0, all_day),
        decreases ts@.len() - i,
    {
        out.push(time::ts_to_iso(ts[i], all_day));
        i = i + 1;
    }
    assert(out.deep_view() =~= all.map_values(|t: Timestamp| iso_text(t.0, all_day)));
    Some(out)
}

/// What was wrong with a stored calendar, given what reading it found.
pub open spec fn parse_trouble(lines: Seq<LineView>) -> Option<Seq<char>> {
    let read = reading(lines, false);
    if primary(read.done) is None {
        Some("unparseable stored iCalendar"@)
    } else if read.warnings.len() > 0 {
        Some(joined(read.warnings, "; "@))
    } else {
        None
    }
}

/// An object as it is shown.
pub open spec fn shown(row: CalendarObject, trouble: Option<Seq<char>>) -> OutputView {
    let x = row.extracted.deep_view();
    OutputView {
        co_id: row.co_id,
        cal_id: row.cal_id,
        uid: row.uid@,
        etag: row.etag@,
        component: x.component,
        summary: x.summary,
        description: x.description,
        location: x.location,
        dtstart: iso_at(x.dtstart, x.all_day),
        dtend: iso_at(x.dtend, x.all_day),
        all_day: x.all_day,
        status: x.status,
        priority: x.priority,
        organizer: x.organizer,
        rrule: x.rrule,
        recurrence_id: iso_at(x.recurrence_id, x.all_day),
        exdate: iso_list(x.exdate, x.all_day),
        parse_error: trouble,
        created_at: row.created_at,
        updated_at: row.updated_at,
    }
}

/// Shows a stored object. `lines` are the content lines of its stored calendar; what was wrong
/// with them is shown too.
pub fn object_to_output(row: &CalendarObject, lines: &Vec<ContentLine>) -> (r: CalendarObjectOutput)
    ensures
        r.deep_view() == shown(*row, parse_trouble(lines.deep_view())),
{
    let parse_error = match ical::parse(lines) {
        Some((_, _, warnings)) => {
            if warnings.len() > 0 {
                Some(text::join(&warnings, "; "))
            } else {
                None
            }
        },
        None => Some(text::owned("unparseable stored iCalendar")),
    };
    let x = &row.extracted;
    let r = CalendarObjectOutput {
        co_id: row.co_id,
        cal_id: row.cal_id,
        uid: text::owned(row.uid.as_str()),
        etag: text::owned(row.etag.as_str()),
        component: text::owned(x.component.as_str()),
        summary: text::owned_opt(text::as_opt(&x.summary)),
        description: text::owned_opt(text::as_opt(&x.description)),
        location: text::owned_opt(text::as_opt(&x.location)),
        dtstart: write_iso_at(x.dtstart, x.all_day),
        dtend: write_iso_at(x.dtend, x.all_day),
        all_day: x.all_day,
        status: text::owned_opt(text::as_opt(&x.status)),
        priority: x.priority,
        organizer: text::owned_opt(text::as_opt(&x.organizer)),
        rrule: text::owned_opt(text::as_opt(&x.rrule)),
        recurrence_id: write_iso_at(x.recurrence_id, x.all_day),
        exdate: write_iso_list(&x.exdate, x.all_day),
        parse_error,
        created_at: row.created_at,
        updated_at: row.updated_at,
    };
    assert(r.deep_view() =~= shown(*row, parse_trouble(lines.deep_view())));
    r
}

/// An object as it is listed.
pub open spec fn listed(row: CalendarObject) -> ListItemView {
    let x = row.extracted.deep_view();
    ListItemView {
        co_id: row.co_id,
        cal_id: row.cal_id,
        uid: row.uid@,
        etag: row.etag@,
        component: x.component,
        summary: x.summary,
        location: x.location,
        dtstart: iso_at(x.dtstart, x.all_day),
        dtend: iso_at(x.dtend, x.all_day),
        all_day: x.all_day,
        status: x.status,
        rrule: x.rrule,
        recurrence_id: iso_at(x.recurrence_id, x.all_day),
        exdate: iso_list(x.exdate, x.all_day),
        updated_at: row.updated_at,
    }
}

/// Lists a stored object.
pub fn view_to_list_item(row: &CalendarObject) -> (r: CalendarObjectListItem)
    ensures
        r.deep_view() == listed(*row),
{
    let x = &row.extracted;
    let r = CalendarObjectListItem {
        co_id: row.co_id,
        cal_id: row.cal_id,
        uid: text::owned(row.uid.as_str()),
        etag: text::owned(row.etag.as_str()),
        component: text::owned(x.component.as_str()),
        summary: text::owned_opt(text::as_opt(&x.summary)),
        location: text::owned_opt(text::as_opt(&x.location)),
        dtstart: write_iso_at(x.dtstart, x.all_day),
        dtend: write_iso_at(x.dtend, x.all_day),
        all_day: x.all_day,
        status: text::owned_opt(text::as_opt(&x.status)),
        rrule: text::owned_opt(text::as_opt(&x.rrule)),
        recurrence_id: write_iso_at(x.recurrence_id, x.all_day),
        exdate: write_iso_list(&x.exdate, x.all_day),
        updated_at: row.updated_at,
    };
    assert(r.deep_view() =~= listed(*row));
    r
}

/// Whether a character is a control character in the sense of Unicode.
pub open spec fn is_control(c: char) -> bool {
    (c as u32) < 0x20 || 0x7f <= c as u32 <= 0x9f
}

/// A character that has no place in a calendar's name, which is part of its address.
pub open spec fn bad_name_char(c: char) -> bool {
    is_control(c) || c == '/' || c == '\\'
}

/// What is wrong with a calendar's name.
pub open spec fn name_trouble(name: Seq<char>) -> Option<Seq<char>> {
    if name.len() == 0 {
        Some("name required"@)
    } else if text::byte_length(name) > 128 {
        Some("name too long"@)
    } else if exists|i: int| 0 <= i < name.len() && bad_name_char(#[trigger] name[i]) {
        Some("name contains invalid character"@)
    } else {
        None
    }
}

/// Refuses a calendar's name that is empty, longer than 128 bytes, or holds a control
/// character, a slash or a backslash.
pub fn validate_cal_name(name: &str) -> (r: Result<(), Error>)
    ensures
        match r {
            Ok(()) => name_trouble(name@) is None,
            Err(e) => name_trouble(name@) matches Some(m) && e.deep_view()
                == ErrorView::ValidationError(m),
        },
{
    let v = text::to_chars(name);
    if v.len() == 0 {
        return Err(Error::validation("name required"));
    }
    if text::byte_len(name) > 128 {
        return Err(Error::validation("name too long"));
    }
    let mut i: usize = 0;
    while i < v.len()
        invariant
            v@ == name@,
            name@.len() > 0,
            text::byte_length(name@) <= 128,
            i <= v@.len(),
            forall|k: int| 0 <= k < i ==> !bad_name_char(#[trigger] name@[k]),
        decreases v@.len() - i,
    {
        let c: char = v[i];
        let n: u32 = c as u32;
        if n < 0x20 || (0x7f <= n && n <= 0x9f) || c == '/' || c == '\\' {
            assert(bad_name_char(name@[i as int]));
            return Err(Error::validation("name contains invalid character"));
        }
        i = i + 1;
    }
    Ok(())
}

/// What a listing looks up: times that cannot be read count as no bound.
pub fn list_options(query: ListObjectsQuery) -> (r: ListCalendarObjectOptions)
    ensures
        r.component == query.component,
        r.q == query.q,
        r.start == opt_instant(query.start),
        r.end == opt_instant(query.end),
        r.cursor == query.cursor,
        r.limit == query.limit,
        r.include_exceptions == query.include_exceptions,
{
    ListCalendarObjectOptions {
        start: read_opt_instant(&query.start),
        end: read_opt_instant(&query.end),
        component: query.component,
        q: query.q,
        cursor: query.cursor,
        limit: query.limit,
        include_exceptions: query.include_exceptions,
    }
}

/// The instant that an optional text names.
pub open spec fn opt_instant(v: Option<String>) -> Option<Timestamp> {
    match v {
        Some(s) => match iso_ts_reading(s@) {
            Some(t) => Some(Timestamp(t)),
            None => None,
        },
        None => None,
    }
}

fn read_opt_instant(v: &Option<String>) -> (r: Option<Timestamp>)
    ensures
        r == opt_instant(*v),
{
    match v {
        Some(s) => time::parse_iso_ts(s.as_str()),
        None => None,
    }
}

/// A page of a listing.
#[derive(Debug)]
pub struct ObjectPage {
    pub items: Vec<CalendarObjectListItem>,
    /// Where the next page starts.
    pub next_cursor: Option<String>,
    pub has_more: bool,
}

/// The most objects of a page: 200 unless asked otherwise, never more than 1000.
pub open spec fn page_limit(limit: Option<u32>) -> int {
    match limit {
        Some(n) => if n > 1000 {
            1000
        } else {
            n as int
        },
        None => 200,
    }
}

/// Makes a page of the rows that were found. One row more than a page holds is looked up, so
/// that a full page is told from one with more behind it. The next page starts behind the last
/// object shown.
pub fn list_objects(rows: &Vec<CalendarObject>, limit: Option<u32>) -> (r: ObjectPage)
    ensures
        r.has_more == (rows@.len() > page_limit(limit)),
        r.items.deep_view() == (if r.has_more {
            rows@.take(page_limit(limit))
        } else {
            rows@
        }).map_values(|o: CalendarObject| listed(o)),
        r.next_cursor.deep_view() == (if r.has_more && page_limit(limit) > 0 {
            Some(decimal::decimal_text(rows@[page_limit(limit) - 1].co_id as nat))
        } else {
            None
        }),
{
    let requested: usize = match limit {
        Some(n) => {
            if n > 1000 {
                1000
            } else {
                n as usize
            }
        },
        None => 200,
    };
    let has_more = rows.len() > requested;
    let n: usize = if has_more { requested } else { rows.len() };
    let mut items: Vec<CalendarObjectListItem> = Vec::new();
    let mut i: usize = 0;
    while i < n
        invariant
            i <= n <= rows@.len(),
            items@.len() == i,
            forall|k: int| 0 <= k < i ==> (#[trigger] items@[k]).deep_view() == listed(rows@[k]),
        decreases n - i,
    {
        items.push(view_to_list_item(&rows[i]));
        i = i + 1;
    }
    let next_cursor = if has_more && n > 0 {
        Some(decimal::unsigned_to_text(rows[n - 1].co_id))
    } else {
        None
    };
    proof {
        let kept = if has_more {
            rows@.take(page_limit(limit))
        } else {
            rows@
        };
        assert(items.deep_view() =~= kept.map_values(|o: CalendarObject| listed(o)));
    }
    ObjectPage { items, next_cursor, has_more }
}

/// Checks a request for a calendar: the name without surrounding white space must be one that a
/// calendar can have; the components are joined by commas.
pub fn create_calendar(body: CalendarCreate) -> (r: Result<CreateCalendarData, Error>)
    ensures
        match name_trouble(trimmed(body.name@)) {
            Some(m) => r matches Err(e) && e.deep_view() == ErrorView::ValidationError(m),
            None => r matches Ok(d) && d.name@ == trimmed(body.name@) && d.description
                == body.description && d.color == body.color && d.timezone == body.timezone
                && d.components.deep_view() == (match body.components.deep_view() {
                Some(list) => Some(joined(list, ","@)),
                None => None,
            }),
        },
{
    let name = text::trim(body.name.as_str());
    validate_cal_name(name.as_str())?;
    let components = match &body.components {
        Some(list) => Some(text::join(list, ",")),
        None => None,
    };
    Ok(
        CreateCalendarData {
            name,
            description: body.description,
            color: body.color,
            timezone: body.timezone,
            components,
        },
    )
}

/// Checks a change to a calendar: a new name is trimmed and must be one that a calendar can
/// have; new components are joined by commas.
pub fn patch_calendar(patch: CalendarPatch) -> (r: Result<UpdateCalendarData, Error>)
    ensures
        match r {
            Err(e) => patch.name matches Patch::Value(v) && name_trouble(trimmed(v@)) matches Some(
                m,
            ) && e.deep_view() == ErrorView::ValidationError(m),
            Ok(d) => {
                &&& patch.name matches Patch::Value(v) ==> name_trouble(trimmed(v@)) is None
                &&& d.name.deep_view() == (match patch.name {
                    Patch::Value(v) => Patch::Value(trimmed(v@)),
                    Patch::Null => Patch::Null,
                    Patch::Undefined => Patch::Undefined,
                })
                &&& d.description == patch.description
                &&& d.color == patch.color
                &&& d.timezone == patch.timezone
                &&& d.components.deep_view() == (match patch.components.deep_view() {
                    Patch::Value(list) => Patch::Value(joined(list, ","@)),
                    Patch::Null => Patch::Null,
                    Patch::Undefined => Patch::Undefined,
                })
            },
        },
{
    let name = match &patch.name {
        Patch::Value(v) => {
            let t = text::trim(v.as_str());
            validate_cal_name(t.as_str())?;
            Patch::Value(t)
        },
        Patch::Null => Patch::Null,
        Patch::Undefined => Patch::Undefined,
    };
    let components = match &patch.components {
        Patch::Value(list) => Patch::Value(text::join(list, ",")),
        Patch::Null => Patch::Null,
        Patch::Undefined => Patch::Undefined,
    };
    Ok(
        UpdateCalendarData {
            name,
            description: patch.description,
            color: patch.color,
            timezone: patch.timezone,
            components,
        },
    )
}

/// An object that is ready to be written, under its identifier.
#[derive(Debug)]
pub struct ObjectWrite {
    pub uid: String,
    pub input: CalendarObjectInput,
}

/// What is written of an object. An identifier that is given stays; a missing or empty one is
/// replaced by the minted one.
pub open spec fn writable(input: ObjectView, minted: Seq<char>) -> Result<ObjectView, ErrorView> {
    if input.event is None && input.todo is None {
        Err(ErrorView::ValidationError("event or todo required"@))
    } else {
        Ok(
            ObjectView {
                uid: Some(
                    match input.uid {
                        Some(u) if u.len() > 0 => u,
                        _ => minted,
                    },
                ),
                ..input
            },
        )
    }
}

/// Prepares an object for writing: there must be an event or a task, and it gets an identifier
/// where it has none.
pub fn write_object(input: CalendarObjectInput, minted: String) -> (r: Result<ObjectWrite, Error>)
    ensures
        match writable(input.deep_view(), minted@) {
            Ok(w) => r matches Ok(o) && o.input.deep_view() == w && Some(o.uid@) == w.uid,
            Err(m) => r matches Err(e) && e.deep_view() == m,
        },
{
    let ghost before = input.deep_view();
    if input.event.is_none() && input.todo.is_none() {
        return Err(Error::validation("event or todo required"));
    }
    let mut input = input;
    let given = match &input.uid {
        Some(u) => {
            let v = text::to_chars(u.as_str());
            if v.len() > 0 {
                Some(text::owned(u.as_str()))
            } else {
                None
            }
        },
        None => None,
    };
    let uid = match given {
        Some(u) => u,
        None => {
            input.uid = Some(text::owned(minted.as_str()));
            minted
        },
    };
    assert(input.deep_view() =~= writable(before, minted@)->Ok_0);
    Ok(ObjectWrite { uid, input })
}

/// Prepares a new object of a calendar for writing.
pub fn create_object(calendar_known: bool, body: CalendarObjectInput, minted: String) -> (r: Result<
    ObjectWrite,
    Error,
>)
    ensures
        match (if calendar_known {
            writable(body.deep_view(), minted@)
        } else {
            Err(ErrorView::NotFound)
        }) {
            Ok(w) => r matches Ok(o) && o.input.deep_view() == w && Some(o.uid@) == w.uid,
            Err(m) => r matches Err(e) && e.deep_view() == m,
        },
{
    if !calendar_known {
        return Err(Error::NotFound);
    }
    write_object(body, minted)
}

/// Prepares an object for writing under the identifier of its address, whatever the body says.
pub fn put_object(
    calendar_known: bool,
    uid: String,
    body: CalendarObjectInput,
    minted: String,
) -> (r: Result<ObjectWrite, Error>)
    ensures
        match (if calendar_known {
            writable(ObjectView { uid: Some(uid@), ..body.deep_view() }, minted@)
        } else {
            Err(ErrorView::NotFound)
        }) {
            Ok(w) => r matches Ok(o) && o.input.deep_view() == w && Some(o.uid@) == w.uid,
            Err(m) => r matches Err(e) && e.deep_view() == m,
        },
{
    if !calendar_known {
        return Err(Error::NotFound);
    }
    let ghost before = body.deep_view();
    let mut body = body;
    body.uid = Some(uid);
    assert(body.deep_view() =~= (ObjectView { uid: Some(uid@), ..before }));
    write_object(body, minted)
}

/// Reads back what was written, for its searchable part. `lines` are the content lines of the
/// calendar that was generated.
pub fn render_object(lines: &Vec<ContentLine>) -> (r: Result<CalendarObjectExtracted, Error>)
    ensures
        is_result(
            r,
            match primary(reading(lines.deep_view(), false).done) {
                Some(c) => Ok(ical::extracted(c)),
                None => Err(
                    ErrorView::Internal("iCalendar generation produced unparseable output"@),
                ),
            },
        ),
{
    match ical::parse(lines) {
        Some((x, _, _)) => Ok(x),
        None => Err(Error::internal("iCalendar generation produced unparseable output")),
    }
}

/// A field after a change: the new value where there is one.
pub open spec fn replaced<T>(new: Option<T>, kept: T) -> T {
    match new {
        Some(v) => v,
        None => kept,
    }
}

/// An optional field after a change.
pub open spec fn replaced_opt<T>(new: Option<T>, kept: Option<T>) -> Option<T> {
    match new {
        Some(v) => Some(v),
        None => kept,
    }
}

/// An event after a change: what the change holds replaces what was there, lists too; the rest
/// stays.
pub open spec fn patched_event(t: EventView, p: EventPatchView) -> EventView {
    EventView {
        summary: replaced_opt(p.summary, t.summary),
        description: replaced_opt(p.description, t.description),
        location: replaced_opt(p.location, t.location),
        dtstart: replaced_opt(p.dtstart, t.dtstart),
        dtend: replaced_opt(p.dtend, t.dtend),
        all_day: replaced(p.all_day, t.all_day),
        rrule: replaced_opt(p.rrule, t.rrule),
        exdate: replaced(p.exdate, t.exdate),
        status: replaced_opt(p.status, t.status),
        organizer: replaced_opt(p.organizer, t.organizer),
        attendees: replaced(p.attendees, t.attendees),
        categories: replaced(p.categories, t.categories),
        alarms: replaced(p.alarms, t.alarms),
    }
}

fn set<T>(slot: &mut T, new: Option<T>)
    ensures
        *final(slot) == replaced(new, *old(slot)),
{
    if let Some(v) = new {
        *slot = v;
    }
}

fn set_opt<T>(slot: &mut Option<T>, new: Option<T>)
    ensures
        *final(slot) == replaced_opt(new, *old(slot)),
{
    if let Some(v) = new {
        *slot = Some(v);
    }
}

/// Changes an event.
pub fn apply_event_patch(target: &mut EventInput, patch: EventPatch)
    ensures
        final(target).deep_view() == patched_event(old(target).deep_view(), patch.deep_view()),
{
    let ghost before = target.deep_view();
    set_opt(&mut target.summary, patch.summary);
    set_opt(&mut target.description, patch.description);
    set_opt(&mut target.location, patch.location);
    set_opt(&mut target.dtstart, patch.dtstart);
    set_opt(&mut target.dtend, patch.dtend);
    set(&mut target.all_day, patch.all_day);
    set_opt(&mut target.rrule, patch.rrule);
    set(&mut target.exdate, patch.exdate);
    set_opt(&mut target.status, patch.status);
    set_opt(&mut target.organizer, patch.organizer);
    set(&mut target.attendees, patch.attendees);
    set(&mut target.categories, patch.categories);
    set(&mut target.alarms, patch.alarms);
    assert(target.deep_view() =~= patched_event(before, patch.deep_view()));
}

/// A task after a change.
pub open spec fn patched_todo(t: TodoView, p: TodoPatchView) -> TodoView {
    TodoView {
        summary: replaced_opt(p.summary, t.summary),
        description: replaced_opt(p.description, t.description),
        dtstart: replaced_opt(p.dtstart, t.dtstart),
        due: replaced_opt(p.due, t.due),
        completed: replaced_opt(p.completed, t.completed),
        priority: replaced_opt(p.priority, t.priority),
        status: replaced_opt(p.status, t.status),
        rrule: replaced_opt(p.rrule, t.rrule),
        categories: replaced(p.categories, t.categories),
        alarms: replaced(p.alarms, t.alarms),
    }
}

/// Changes a task.
pub fn apply_todo_patch(target: &mut TodoInput, patch: TodoPatch)
    ensures
        final(target).deep_view() == patched_todo(old(target).deep_view(), patch.deep_view()),
{
    let ghost before = target.deep_view();
    set_opt(&mut target.summary, patch.summary);
    set_opt(&mut target.description, patch.description);
    set_opt(&mut target.dtstart, patch.dtstart);
    set_opt(&mut target.due, patch.due);
    set_opt(&mut target.completed, patch.completed);
    set_opt(&mut target.priority, patch.priority);
    set_opt(&mut target.status, patch.status);
    set_opt(&mut target.rrule, patch.rrule);
    set(&mut target.categories, patch.categories);
    set(&mut target.alarms, patch.alarms);
    assert(target.deep_view() =~= patched_todo(before, patch.deep_view()));
}

/// An object after a change, nothing where the change is for the other sort of object. An empty
/// change leaves the object as it is.
pub open spec fn patched(o: ObjectView, p: ObjectPatchView) -> Option<ObjectView> {
    match (o.event, o.todo, p.event, p.todo) {
        (Some(ev), _, Some(ep), None) => Some(
            ObjectView { event: Some(patched_event(ev, ep)), ..o },
        ),
        (_, Some(td), None, Some(tp)) => Some(
            ObjectView { todo: Some(patched_todo(td, tp)), ..o },
        ),
        (_, _, None, None) => Some(o),
        _ => None,
    }
}

fn apply_patch(merged: CalendarObjectInput, patch: CalendarObjectPatch) -> (r: Option<
    CalendarObjectInput,
>)
    ensures
        r.deep_view() == patched(merged.deep_view(), patch.deep_view()),
{
    let ghost o = merged.deep_view();
    let ghost p = patch.deep_view();
    let mut merged = merged;
    match (patch.event, patch.todo) {
        (None, None) => Some(merged),
        (Some(ep), None) => match merged.event.take() {
            Some(ev) => {
                let mut ev = ev;
                apply_event_patch(&mut ev, ep);
                merged.event = Some(ev);
                assert(merged.deep_view() =~= patched(o, p)->Some_0);
                Some(merged)
            },
            None => None,
        },
        (None, Some(tp)) => match merged.todo.take() {
            Some(td) => {
                let mut td = td;
                apply_todo_patch(&mut td, tp);
                merged.todo = Some(td);
                assert(merged.deep_view() =~= patched(o, p)->Some_0);
                Some(merged)
            },
            None => None,
        },
        (Some(_), Some(_)) => None,
    }
}

/// A stored object with a change, under its identifier. `recurrence_id` replaces the stored one
/// where it is given. The error for a change of the other sort is the caller's.
pub open spec fn merged(
    lines: Seq<LineView>,
    uid: Seq<char>,
    recurrence_id: Option<Seq<char>>,
    patch: ObjectPatchView,
    mismatch: Seq<char>,
) -> Result<ObjectView, ErrorView> {
    match primary(reading(lines, true).done) {
        None => Err(ErrorView::Internal("stored iCalendar not parseable"@)),
        Some(c) => {
            let o = input_of(c);
            match patched(
                ObjectView {
                    uid: Some(uid),
                    recurrence_id: match recurrence_id {
                        Some(rid) => Some(rid),
                        None => o.recurrence_id,
                    },
                    ..o
                },
                patch,
            ) {
                Some(m) => Ok(m),
                None => Err(ErrorView::ValidationError(mismatch)),
            }
        },
    }
}

fn merge(
    lines: &Vec<ContentLine>,
    uid: &str,
    recurrence_id: Option<&str>,
    patch: CalendarObjectPatch,
    mismatch: &str,
) -> (r: Result<CalendarObjectInput, Error>)
    ensures
        is_result(
            r,
            merged(
                lines.deep_view(),
                uid@,
                recurrence_id.deep_view(),
                patch.deep_view(),
                mismatch@,
            ),
        ),
{
    match ical::parse_to_input(lines) {
        None => Err(Error::internal("stored iCalendar not parseable")),
        Some((o, _)) => {
            let ghost ov = o.deep_view();
            let mut o = o;
            o.uid = Some(text::owned(uid));
            if let Some(rid) = recurrence_id {
                o.recurrence_id = Some(text::owned(rid));
            }
            proof {
                assert(o.deep_view() =~= (ObjectView {
                    uid: Some(uid@),
                    recurrence_id: match recurrence_id.deep_view() {
                        Some(rid) => Some(rid),
                        None => ov.recurrence_id,
                    },
                    ..ov
                }));
            }
            match apply_patch(o, patch) {
                Some(m) => Ok(m),
                None => Err(Error::validation(mismatch)),
            }
        },
    }
}

/// Changes a stored object, given its calendar's content lines, or nothing where it is not
/// stored.
pub fn patch_object(
    calendar_known: bool,
    stored: Option<&Vec<ContentLine>>,
    uid: &str,
    patch: CalendarObjectPatch,
) -> (r: Result<CalendarObjectInput, Error>)
    ensures
        is_result(
            r,
            match stored {
                Some(lines) if calendar_known => merged(
                    lines.deep_view(),
                    uid@,
                    None,
                    patch.deep_view(),
                    "patch component does not match stored object"@,
                ),
                _ => Err(ErrorView::NotFound),
            },
        ),
{
    if !calendar_known {
        return Err(Error::NotFound);
    }
    match stored {
        Some(lines) => merge(
            lines,
            uid,
            None,
            patch,
            "patch component does not match stored object",
        ),
        None => Err(Error::NotFound),
    }
}

/// The instant of an occurrence, by the text in its address.
pub open spec fn occurrence(rid: Seq<char>) -> Result<Timestamp, ErrorView> {
    match iso_ts_reading(rid) {
        Some(t) => Ok(Timestamp(t)),
        None => Err(ErrorView::ValidationError("invalid recurrence_id"@)),
    }
}

/// Reads the instant of an occurrence from its address.
pub fn occurrence_at(rid: &str) -> (r: Result<Timestamp, Error>)
    ensures
        is_result(r, occurrence(rid@)),
{
    match time::parse_iso_ts(rid) {
        Some(t) => Ok(t),
        None => Err(Error::validation("invalid recurrence_id")),
    }
}

/// Prepares a changed occurrence for writing: its series must be there, and the identifier and
/// the occurrence are those of the address, whatever the body says.
pub fn put_exception(
    series_known: bool,
    uid: &str,
    rid: &str,
    body: CalendarObjectInput,
    minted: String,
) -> (r: Result<ObjectWrite, Error>)
    ensures
        match (if !series_known {
            Err(ErrorView::NotFound)
        } else if occurrence(rid@) is Err {
            Err(occurrence(rid@)->Err_0)
        } else {
            writable(
                ObjectView { uid: Some(uid@), recurrence_id: Some(rid@), ..body.deep_view() },
                minted@,
            )
        }) {
            Ok(w) => r matches Ok(o) && o.input.deep_view() == w && Some(o.uid@) == w.uid,
            Err(m) => r matches Err(e) && e.deep_view() == m,
        },
{
    if !series_known {
        return Err(Error::NotFound);
    }
    match occurrence_at(rid) {
        Ok(_) => {},
        Err(e) => {
            return Err(e);
        },
    }
    let ghost before = body.deep_view();
    let mut body = body;
    body.uid = Some(text::owned(uid));
    body.recurrence_id = Some(text::owned(rid));
    assert(body.deep_view() =~= (ObjectView {
        uid: Some(uid@),
        recurrence_id: Some(rid@),
        ..before
    }));
    write_object(body, minted)
}

/// Changes a changed occurrence, given the content lines that are stored for it.
pub fn patch_exception(
    calendar_known: bool,
    stored: Option<&Vec<ContentLine>>,
    uid: &str,
    rid: &str,
    patch: CalendarObjectPatch,
) -> (r: Result<CalendarObjectInput, Error>)
    ensures
        is_result(
            r,
            if occurrence(rid@) is Err {
                Err(occurrence(rid@)->Err_0)
            } else {
                match stored {
                    Some(lines) if calendar_known => merged(
                        lines.deep_view(),
                        uid@,
                        Some(rid@),
                        patch.deep_view(),
                        "patch component does not match stored object"@,
                    ),
                    _ => Err(ErrorView::NotFound),
                }
            },
        ),
{
    match occurrence_at(rid) {
        Ok(_) => {},
        Err(e) => {
            return Err(e);
        },
    }
    if !calendar_known {
        return Err(Error::NotFound);
    }
    match stored {
        Some(lines) => merge(
            lines,
            uid,
            Some(rid),
            patch,
            "patch component does not match stored object",
        ),
        None => Err(Error::NotFound),
    }
}

/// What a fork of a series writes: the series so far, the series that goes on, and the instant
/// from which changed occurrences of the old series are dropped.
#[derive(Debug)]
pub struct SplitPlan {
    pub master: CalendarObjectInput,
    pub tail: CalendarObjectInput,
    pub tail_uid: String,
    pub split_at: Timestamp,
}

#[verifier::ext_equal]
pub ghost struct SplitView {
    pub master: ObjectView,
    pub tail: ObjectView,
    pub tail_uid: Seq<char>,
    pub split_at: Timestamp,
}

impl DeepView for SplitPlan {
    type V = SplitView;

    open spec fn deep_view(&self) -> SplitView {
        SplitView {
            master: self.master.deep_view(),
            tail: self.tail.deep_view(),
            tail_uid: self.tail_uid@,
            split_at: self.split_at,
        }
    }
}

/// The fork of a series. The stored object must be a recurring series; the change must fit it;
/// the tail must be an event or a task, and always gets the minted identifier.
pub open spec fn split_of(
    calendar_known: bool,
    stored: Option<(ExtractedView, Seq<LineView>)>,
    uid: Seq<char>,
    split_at: Seq<char>,
    patch: ObjectPatchView,
    tail: ObjectView,
    minted: Seq<char>,
) -> Result<SplitView, ErrorView> {
    if !calendar_known {
        Err(ErrorView::NotFound)
    } else {
        match (iso_ts_reading(split_at), stored) {
            (None, _) => Err(ErrorView::ValidationError("invalid splitAt"@)),
            (Some(_), None) => Err(ErrorView::NotFound),
            (Some(t), Some((x, lines))) => if x.rrule is None {
                Err(ErrorView::ValidationError("object is not a recurring series"@))
            } else {
                match merged(
                    lines,
                    uid,
                    None,
                    patch,
                    "master patch component does not match stored object"@,
                ) {
                    Err(e) => Err(e),
                    Ok(master) => if tail.event is None && tail.todo is None {
                        Err(ErrorView::ValidationError("tail event or todo required"@))
                    } else {
                        Ok(
                            SplitView {
                                master,
                                tail: ObjectView {
                                    uid: Some(minted),
                                    recurrence_id: None,
                                    ..tail
                                },
                                tail_uid: minted,
                                split_at: Timestamp(t),
                            },
                        )
                    },
                }
            },
        }
    }
}

/// Forks a recurring series.
pub fn split_series(
    calendar_known: bool,
    stored: Option<(&CalendarObjectExtracted, &Vec<ContentLine>)>,
    uid: &str,
    body: SplitSeriesRequest,
    minted: String,
) -> (r: Result<SplitPlan, Error>)
    ensures
        is_result(
            r,
            split_of(
                calendar_known,
                match stored {
                    Some((x, lines)) => Some((x.deep_view(), lines.deep_view())),
                    None => None,
                },
                uid@,
                body.split_at@,
                body.master_patch.deep_view(),
                body.tail.deep_view(),
                minted@,
            ),
        ),
{
    if !calendar_known {
        return Err(Error::NotFound);
    }
    let split_at = match time::parse_iso_ts(body.split_at.as_str()) {
        Some(t) => t,
        None => {
            return Err(Error::validation("invalid splitAt"));
        },
    };
    let (x, lines) = match stored {
        Some(s) => s,
        None => {
            return Err(Error::NotFound);
        },
    };
    if x.rrule.is_none() {
        return Err(Error::validation("object is not a recurring series"));
    }
    let master = match merge(
        lines,
        uid,
        None,
        body.master_patch,
        "master patch component does not match stored object",
    ) {
        Ok(m) => m,
        Err(e) => {
            return Err(e);
        },
    };
    let mut tail = body.tail;
    let ghost before = tail.deep_view();
    if tail.event.is_none() && tail.todo.is_none() {
        return Err(Error::validation("tail event or todo required"));
    }
    tail.uid = Some(text::owned(minted.as_str()));
    tail.recurrence_id = None;
    assert(tail.deep_view() =~= (ObjectView {
        uid: Some(minted@),
        recurrence_id: None,
        ..before
    }));
    Ok(SplitPlan { master, tail, tail_uid: minted, split_at })
}

/// A change leaves every field that it does not name as it was, and an empty list in it clears
/// the list.
pub proof fn law_patch_keeps_the_rest(t: EventView, p: EventPatchView)
    ensures
        p.summary is None ==> patched_event(t, p).summary == t.summary,
        p.description is None ==> patched_event(t, p).description == t.description,
        p.location is None ==> patched_event(t, p).location == t.location,
        p.dtstart is None ==> patched_event(t, p).dtstart == t.dtstart,
        p.dtend is None ==> patched_event(t, p).dtend == t.dtend,
        p.all_day is None ==> patched_event(t, p).all_day == t.all_day,
        p.rrule is None ==> patched_event(t, p).rrule == t.rrule,
        p.exdate is None ==> patched_event(t, p).exdate == t.exdate,
        p.status is None ==> patched_event(t, p).status == t.status,
        p.organizer is None ==> patched_event(t, p).organizer == t.organizer,
        p.attendees is None ==> patched_event(t, p).attendees == t.attendees,
        p.categories is None ==> patched_event(t, p).categories == t.categories,
        p.alarms is None ==> patched_event(t, p).alarms == t.alarms,
        p.attendees matches Some(l) && l.len() == 0 ==> patched_event(t, p).attendees.len() == 0,
        p.categories matches Some(l) && l.len() == 0 ==> patched_event(t, p).categories.len() == 0,
        p.alarms matches Some(l) && l.len() == 0 ==> patched_event(t, p).alarms.len() == 0,
{
}

/// A change that is made twice is made once.
pub proof fn law_patch_is_idempotent(o: ObjectView, p: ObjectPatchView)
    ensures
        patched(o, p) matches Some(once) ==> patched(once, p) == Some(once),
{
    if let Some(once) = patched(o, p) {
        if p.event is Some {
            assert(patched(once, p)->Some_0 =~= once);
        } else if p.todo is Some {
            assert(patched(once, p)->Some_0 =~= once);
        }
    }
}

/// A change never turns an event into a task or a task into an event, and leaves the identifier
/// and the occurrence alone.
pub proof fn law_patch_keeps_the_sort(o: ObjectView, p: ObjectPatchView)
    ensures
        patched(o, p) matches Some(n) ==> (n.event is Some) == (o.event is Some) && (n.todo is Some)
            == (o.todo is Some) && n.uid == o.uid && n.recurrence_id == o.recurrence_id,
{
}

/// A change to an event that was written keeps what it does not name: it is made to what was
/// stored of the event.
pub proof fn law_patch_of_a_written_event(
    input: ObjectView,
    now: i64,
    lines: Seq<LineView>,
    uid: Seq<char>,
    patch: ObjectPatchView,
    mismatch: Seq<char>,
)
    requires
        input.event is Some,
        carried_all(generated(input, now), lines),
        patch.event is Some,
        patch.todo is None,
    ensures
        merged(lines, uid, None, patch, mismatch) matches Ok(o) && o.uid == Some(uid)
            && o.event == Some(
            patched_event(
                input_of(
                    stored_event(input.uid, input.recurrence_id, input.event->Some_0),
                ).event->Some_0,
                patch.event->Some_0,
            ),
        ),
{
    law_event_round_trip(input, now, lines);
    let c = stored_event(input.uid, input.recurrence_id, input.event->Some_0);
    let cs = reading(lines, true).done;
    assert(cs == seq![c]);
    reveal_with_fuel(ical::last_master, 2);
    assert(primary(cs) == Some(c));
    assert(input_of(c).event is Some);
}

/// A change to a task that was written keeps what it does not name: it is made to what was
/// stored of the task.
pub proof fn law_patch_of_a_written_todo(
    input: ObjectView,
    now: i64,
    lines: Seq<LineView>,
    uid: Seq<char>,
    patch: ObjectPatchView,
    mismatch: Seq<char>,
)
    requires
        input.event is None,
        input.todo is Some,
        carried_all(generated(input, now), lines),
        patch.event is None,
        patch.todo is Some,
    ensures
        merged(lines, uid, None, patch, mismatch) matches Ok(o) && o.uid == Some(uid)
            && o.todo == Some(
            patched_todo(
                input_of(
                    stored_todo(input.uid, input.recurrence_id, input.todo->Some_0),
                ).todo->Some_0,
                patch.todo->Some_0,
            ),
        ),
{
    law_todo_round_trip(input, now, lines);
    let c = stored_todo(input.uid, input.recurrence_id, input.todo->Some_0);
    let cs = reading(lines, true).done;
    assert(cs == seq![c]);
    reveal_with_fuel(ical::last_master, 2);
    assert(primary(cs) == Some(c));
    reveal_strlit("VEVENT");
    reveal_strlit("VTODO");
    assert("VEVENT"@.len() == 6 && "VTODO"@.len() == 5);
    assert(input_of(c).todo is Some);
}

/// A fork gives the series that goes on an identifier of its own and makes it a series proper;
/// the series so far keeps its identifier.
pub proof fn law_split_parts(
    calendar_known: bool,
    stored: Option<(ExtractedView, Seq<LineView>)>,
    uid: Seq<char>,
    split_at: Seq<char>,
    patch: ObjectPatchView,
    tail: ObjectView,
    minted: Seq<char>,
)
    ensures
        split_of(calendar_known, stored, uid, split_at, patch, tail, minted) matches Ok(s)
            ==> s.master.uid == Some(uid) && s.tail.uid == Some(minted) && s.tail.recurrence_id is None
            && s.tail.event == tail.event && s.tail.todo == tail.todo && stored is Some
            && stored->Some_0.0.rrule is Some,
{
    if let Some((x, lines)) = stored {
        if let Some(c) = primary(reading(lines, true).done) {
            let o = input_of(c);
            law_patch_keeps_the_sort(
                ObjectView { uid: Some(uid), recurrence_id: o.recurrence_id, ..o },
                patch,
            );
        }
    }
}

} // verus!
