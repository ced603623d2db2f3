//! What calendars and their objects hold, as stored, as requested and as shown.
use crate::types::{Patch, Timestamp};
use vstd::prelude::*;

verus! {

impl DeepView for Timestamp {
    type V = Timestamp;

    open spec fn deep_view(&self) -> Timestamp {
        *self
    }
}

/// A participant, named by a calendar address.
#[derive(Debug, Clone, Default)]
pub struct Attendee {
    pub address: String,
    /// The name to show.
    pub cn: Option<String>,
    /// What the participant answered.
    pub partstat: Option<String>,
    /// The part that the participant takes.
    pub role: Option<String>,
    /// Whether an answer is asked for.
    pub rsvp: Option<bool>,
}

#[verifier::ext_equal]
pub ghost struct AttendeeView {
    pub address: Seq<char>,
    pub cn: Option<Seq<char>>,
    pub partstat: Option<Seq<char>>,
    pub role: Option<Seq<char>>,
    pub rsvp: Option<bool>,
}

impl DeepView for Attendee {
    type V = AttendeeView;

    open spec fn deep_view(&self) -> AttendeeView {
        AttendeeView {
            address: self.address.deep_view(),
            cn: self.cn.deep_view(),
            partstat: self.partstat.deep_view(),
            role: self.role.deep_view(),
            rsvp: self.rsvp.deep_view(),
        }
    }
}

/// A reminder. The trigger is kept as it was written.
#[derive(Debug, Clone, Default)]
pub struct Alarm {
    pub action: Option<String>,
    pub trigger: Option<String>,
    pub description: Option<String>,
}

#[verifier::ext_equal]
pub ghost struct AlarmView {
    pub action: Option<Seq<char>>,
    pub trigger: Option<Seq<char>>,
    pub description: Option<Seq<char>>,
}

impl DeepView for Alarm {
    type V = AlarmView;

    open spec fn deep_view(&self) -> AlarmView {
        AlarmView {
            action: self.action.deep_view(),
            trigger: self.trigger.deep_view(),
            description: self.description.deep_view(),
        }
    }
}

/// A calendar, as stored.
#[derive(Debug, Clone)]
pub struct Calendar {
    pub cal_id: u64,
    pub name: String,
    pub description: Option<String>,
    pub color: Option<String>,
    pub timezone: Option<String>,
    /// The supported components, separated by commas.
    pub components: String,
    pub ctag: String,
    pub created_at: Timestamp,
    pub updated_at: Timestamp,
}

#[verifier::ext_equal]
pub ghost struct CalendarView {
    pub cal_id: u64,
    pub name: Seq<char>,
    pub description: Option<Seq<char>>,
    pub color: Option<Seq<char>>,
    pub timezone: Option<Seq<char>>,
    pub components: Seq<char>,
    pub ctag: Seq<char>,
    pub created_at: Timestamp,
    pub updated_at: Timestamp,
}

impl DeepView for Calendar {
    type V = CalendarView;

    open spec fn deep_view(&self) -> CalendarView {
        CalendarView {
            cal_id: self.cal_id.deep_view(),
            name: self.name.deep_view(),
            description: self.description.deep_view(),
            color: self.color.deep_view(),
            timezone: self.timezone.deep_view(),
            components: self.components.deep_view(),
            ctag: self.ctag.deep_view(),
            created_at: self.created_at.deep_view(),
            updated_at: self.updated_at.deep_view(),
        }
    }
}

/// A calendar, as shown.
#[derive(Debug, Clone)]
pub struct CalendarOutput {
    pub cal_id: u64,
    pub name: String,
    pub description: Option<String>,
    pub color: Option<String>,
    pub timezone: Option<String>,
    /// The supported components, separated by commas.
    pub components: String,
    pub ctag: String,
    pub created_at: Timestamp,
    pub updated_at: Timestamp,
}

impl DeepView for CalendarOutput {
    type V = CalendarView;

    open spec fn deep_view(&self) -> CalendarView {
        CalendarView {
            cal_id: self.cal_id.deep_view(),
            name: self.name.deep_view(),
            description: self.description.deep_view(),
            color: self.color.deep_view(),
            timezone: self.timezone.deep_view(),
            components: self.components.deep_view(),
            ctag: self.ctag.deep_view(),
            created_at: self.created_at.deep_view(),
            updated_at: self.updated_at.deep_view(),
        }
    }
}

/// A request for a new calendar.
#[derive(Debug, Default)]
pub struct CalendarCreate {
    pub name: String,
    pub description: Option<String>,
    pub color: Option<String>,
    pub timezone: Option<String>,
    pub components: Option<Vec<String>>,
}

/// A change to a calendar.
#[derive(Debug)]
pub struct CalendarPatch {
    pub name: Patch<String>,
    pub description: Patch<String>,
    pub color: Patch<String>,
    pub timezone: Patch<String>,
    pub components: Patch<Vec<String>>,
}

/// What is stored of a new calendar.
#[derive(Debug)]
pub struct CreateCalendarData {
    pub name: String,
    pub description: Option<String>,
    pub color: Option<String>,
    pub timezone: Option<String>,
    pub components: Option<String>,
}

/// What is stored of a change to a calendar.
#[derive(Debug)]
pub struct UpdateCalendarData {
    pub name: Patch<String>,
    pub description: Patch<String>,
    pub color: Patch<String>,
    pub timezone: Patch<String>,
    pub components: Patch<String>,
}

/// An event. Times are ISO 8601 texts; `all_day` tells a date from a time.
#[derive(Debug, Clone, Default)]
pub struct EventInput {
    pub summary: Option<String>,
    pub description: Option<String>,
    pub location: Option<String>,
    pub dtstart: Option<String>,
    pub dtend: Option<String>,
    pub all_day: bool,
    pub rrule: Option<String>,
    /// The occurrences that are left out.
    pub exdate: Vec<String>,
    pub status: Option<String>,
    pub organizer: Option<String>,
    pub attendees: Vec<Attendee>,
    pub categories: Vec<String>,
    pub alarms: Vec<Alarm>,
}

#[verifier::ext_equal]
pub ghost struct EventView {
    pub summary: Option<Seq<char>>,
    pub description: Option<Seq<char>>,
    pub location: Option<Seq<char>>,
    pub dtstart: Option<Seq<char>>,
    pub dtend: Option<Seq<char>>,
    pub all_day: bool,
    pub rrule: Option<Seq<char>>,
    pub exdate: Seq<Seq<char>>,
    pub status: Option<Seq<char>>,
    pub organizer: Option<Seq<char>>,
    pub attendees: Seq<AttendeeView>,
    pub categories: Seq<Seq<char>>,
    pub alarms: Seq<AlarmView>,
}

impl DeepView for EventInput {
    type V = EventView;

    open spec fn deep_view(&self) -> EventView {
        EventView {
            summary: self.summary.deep_view(),
            description: self.description.deep_view(),
            location: self.location.deep_view(),
            dtstart: self.dtstart.deep_view(),
            dtend: self.dtend.deep_view(),
            all_day: self.all_day.deep_view(),
            rrule: self.rrule.deep_view(),
            exdate: self.exdate.deep_view(),
            status: self.status.deep_view(),
            organizer: self.organizer.deep_view(),
            attendees: self.attendees.deep_view(),
            categories: self.categories.deep_view(),
            alarms: self.alarms.deep_view(),
        }
    }
}

/// A task. Times are ISO 8601 texts.
#[derive(Debug, Clone, Default)]
pub struct TodoInput {
    pub summary: Option<String>,
    pub description: Option<String>,
    pub dtstart: Option<String>,
    pub due: Option<String>,
    pub completed: Option<String>,
    pub priority: Option<u8>,
    pub status: Option<String>,
    pub rrule: Option<String>,
    pub categories: Vec<String>,
    pub alarms: Vec<Alarm>,
}

#[verifier::ext_equal]
pub ghost struct TodoView {
    pub summary: Option<Seq<char>>,
    pub description: Option<Seq<char>>,
    pub dtstart: Option<Seq<char>>,
    pub due: Option<Seq<char>>,
    pub completed: Option<Seq<char>>,
    pub priority: Option<u8>,
    pub status: Option<Seq<char>>,
    pub rrule: Option<Seq<char>>,
    pub categories: Seq<Seq<char>>,
    pub alarms: Seq<AlarmView>,
}

impl DeepView for TodoInput {
    type V = TodoView;

    open spec fn deep_view(&self) -> TodoView {
        TodoView {
            summary: self.summary.deep_view(),
            description: self.description.deep_view(),
            dtstart: self.dtstart.deep_view(),
            due: self.due.deep_view(),
            completed: self.completed.deep_view(),
            priority: self.priority.deep_view(),
            status: self.status.deep_view(),
            rrule: self.rrule.deep_view(),
            categories: self.categories.deep_view(),
            alarms: self.alarms.deep_view(),
        }
    }
}

/// An event or a task to store, with its identifier and, for one changed occurrence of a series,
/// the time of that occurrence.
#[derive(Debug, Clone, Default)]
pub struct CalendarObjectInput {
    pub uid: Option<String>,
    pub recurrence_id: Option<String>,
    pub event: Option<EventInput>,
    pub todo: Option<TodoInput>,
}

#[verifier::ext_equal]
pub ghost struct ObjectView {
    pub uid: Option<Seq<char>>,
    pub recurrence_id: Option<Seq<char>>,
    pub event: Option<EventView>,
    pub todo: Option<TodoView>,
}

impl DeepView for CalendarObjectInput {
    type V = ObjectView;

    open spec fn deep_view(&self) -> ObjectView {
        ObjectView {
            uid: self.uid.deep_view(),
            recurrence_id: self.recurrence_id.deep_view(),
            event: self.event.deep_view(),
            todo: self.todo.deep_view(),
        }
    }
}

/// A change to an event: what is absent stays.
#[derive(Debug, Clone, Default)]
pub struct EventPatch {
    pub summary: Option<String>,
    pub description: Option<String>,
    pub location: Option<String>,
    pub dtstart: Option<String>,
    pub dtend: Option<String>,
    pub all_day: Option<bool>,
    pub rrule: Option<String>,
    pub exdate: Option<Vec<String>>,
    pub status: Option<String>,
    pub organizer: Option<String>,
    pub attendees: Option<Vec<Attendee>>,
    pub categories: Option<Vec<String>>,
    pub alarms: Option<Vec<Alarm>>,
}

#[verifier::ext_equal]
pub ghost struct EventPatchView {
    pub summary: Option<Seq<char>>,
    pub description: Option<Seq<char>>,
    pub location: Option<Seq<char>>,
    pub dtstart: Option<Seq<char>>,
    pub dtend: Option<Seq<char>>,
    pub all_day: Option<bool>,
    pub rrule: Option<Seq<char>>,
    pub exdate: Option<Seq<Seq<char>>>,
    pub status: Option<Seq<char>>,
    pub organizer: Option<Seq<char>>,
    pub attendees: Option<Seq<AttendeeView>>,
    pub categories: Option<Seq<Seq<char>>>,
    pub alarms: Option<Seq<AlarmView>>,
}

impl DeepView for EventPatch {
    type V = EventPatchView;

    open spec fn deep_view(&self) -> EventPatchView {
        EventPatchView {
            summary: self.summary.deep_view(),
            description: self.description.deep_view(),
            location: self.location.deep_view(),
            dtstart: self.dtstart.deep_view(),
            dtend: self.dtend.deep_view(),
            all_day: self.all_day.deep_view(),
            rrule: self.rrule.deep_view(),
            exdate: self.exdate.deep_view(),
            status: self.status.deep_view(),
            organizer: self.organizer.deep_view(),
            attendees: self.attendees.deep_view(),
            categories: self.categories.deep_view(),
            alarms: self.alarms.deep_view(),
        }
    }
}

/// A change to a task: what is absent stays.
#[derive(Debug, Clone, Default)]
pub struct TodoPatch {
    pub summary: Option<String>,
    pub description: Option<String>,
    pub dtstart: Option<String>,
    pub due: Option<String>,
    pub completed: Option<String>,
    pub priority: Option<u8>,
    pub status: Option<String>,
    pub rrule: Option<String>,
    pub categories: Option<Vec<String>>,
    pub alarms: Option<Vec<Alarm>>,
}

#[verifier::ext_equal]
pub ghost struct TodoPatchView {
    pub summary: Option<Seq<char>>,
    pub description: Option<Seq<char>>,
    pub dtstart: Option<Seq<char>>,
    pub due: Option<Seq<char>>,
    pub completed: Option<Seq<char>>,
    pub priority: Option<u8>,
    pub status: Option<Seq<char>>,
    pub rrule: Option<Seq<char>>,
    pub categories: Option<Seq<Seq<char>>>,
    pub alarms: Option<Seq<AlarmView>>,
}

impl DeepView for TodoPatch {
    type V = TodoPatchView;

    open spec fn deep_view(&self) -> TodoPatchView {
        TodoPatchView {
            summary: self.summary.deep_view(),
            description: self.description.deep_view(),
            dtstart: self.dtstart.deep_view(),
            due: self.due.deep_view(),
            completed: self.completed.deep_view(),
            priority: self.priority.deep_view(),
            status: self.status.deep_view(),
            rrule: self.rrule.deep_view(),
            categories: self.categories.deep_view(),
            alarms: self.alarms.deep_view(),
        }
    }
}

/// A change to an event or a task.
#[derive(Debug, Clone, Default)]
pub struct CalendarObjectPatch {
    pub event: Option<EventPatch>,
    pub todo: Option<TodoPatch>,
}

#[verifier::ext_equal]
pub ghost struct ObjectPatchView {
    pub event: Option<EventPatchView>,
    pub todo: Option<TodoPatchView>,
}

impl DeepView for CalendarObjectPatch {
    type V = ObjectPatchView;

    open spec fn deep_view(&self) -> ObjectPatchView {
        ObjectPatchView {
            event: self.event.deep_view(),
            todo: self.todo.deep_view(),
        }
    }
}

/// The searchable part of an event or a task.
#[derive(Debug, Clone)]
pub struct CalendarObjectExtracted {
    /// `VEVENT` or `VTODO`.
    pub component: String,
    pub summary: Option<String>,
    pub location: Option<String>,
    pub description: Option<String>,
    pub dtstart: Option<Timestamp>,
    pub dtend: Option<Timestamp>,
    pub all_day: bool,
    pub status: Option<String>,
    pub priority: Option<u8>,
    pub organizer: Option<String>,
    pub rrule: Option<String>,
    pub exdate: Vec<Timestamp>,
    pub recurrence_id: Option<Timestamp>,
    pub sequence: i64,
}

#[verifier::ext_equal]
pub ghost struct ExtractedView {
    pub component: Seq<char>,
    pub summary: Option<Seq<char>>,
    pub location: Option<Seq<char>>,
    pub description: Option<Seq<char>>,
    pub dtstart: Option<Timestamp>,
    pub dtend: Option<Timestamp>,
    pub all_day: bool,
    pub status: Option<Seq<char>>,
    pub priority: Option<u8>,
    pub organizer: Option<Seq<char>>,
    pub rrule: Option<Seq<char>>,
    pub exdate: Seq<Timestamp>,
    pub recurrence_id: Option<Timestamp>,
    pub sequence: i64,
}

impl DeepView for CalendarObjectExtracted {
    type V = ExtractedView;

    open spec fn deep_view(&self) -> ExtractedView {
        ExtractedView {
            component: self.component.deep_view(),
            summary: self.summary.deep_view(),
            location: self.location.deep_view(),
            description: self.description.deep_view(),
            dtstart: self.dtstart.deep_view(),
            dtend: self.dtend.deep_view(),
            all_day: self.all_day.deep_view(),
            status: self.status.deep_view(),
            priority: self.priority.deep_view(),
            organizer: self.organizer.deep_view(),
            rrule: self.rrule.deep_view(),
            exdate: self.exdate.deep_view(),
            recurrence_id: self.recurrence_id.deep_view(),
            sequence: self.sequence.deep_view(),
        }
    }
}

/// A stored event or task, without its iCalendar text.
#[derive(Debug, Clone)]
pub struct CalendarObject {
    pub co_id: u64,
    pub cal_id: u64,
    pub uid: String,
    pub etag: String,
    pub extracted: CalendarObjectExtracted,
    pub created_at: Timestamp,
    pub updated_at: Timestamp,
}

/// An event or a task, as shown.
#[derive(Debug, Clone)]
pub struct CalendarObjectOutput {
    pub co_id: u64,
    pub cal_id: u64,
    pub uid: String,
    pub etag: String,
    /// `VEVENT` or `VTODO`.
    pub component: String,
    pub summary: Option<String>,
    pub description: Option<String>,
    pub location: Option<String>,
    pub dtstart: Option<String>,
    pub dtend: Option<String>,
    pub all_day: bool,
    pub status: Option<String>,
    pub priority: Option<u8>,
    pub organizer: Option<String>,
    pub rrule: Option<String>,
    pub recurrence_id: Option<String>,
    pub exdate: Option<Vec<String>>,
    /// What was wrong with the stored iCalendar text.
    pub parse_error: Option<String>,
    pub created_at: Timestamp,
    pub updated_at: Timestamp,
}

#[verifier::ext_equal]
pub ghost struct OutputView {
    pub co_id: u64,
    pub cal_id: u64,
    pub uid: Seq<char>,
    pub etag: Seq<char>,
    pub component: Seq<char>,
    pub summary: Option<Seq<char>>,
    pub description: Option<Seq<char>>,
    pub location: Option<Seq<char>>,
    pub dtstart: Option<Seq<char>>,
    pub dtend: Option<Seq<char>>,
    pub all_day: bool,
    pub status: Option<Seq<char>>,
    pub priority: Option<u8>,
    pub organizer: Option<Seq<char>>,
    pub rrule: Option<Seq<char>>,
    pub recurrence_id: Option<Seq<char>>,
    pub exdate: Option<Seq<Seq<char>>>,
    pub parse_error: Option<Seq<char>>,
    pub created_at: Timestamp,
    pub updated_at: Timestamp,
}

impl DeepView for CalendarObjectOutput {
    type V = OutputView;

    open spec fn deep_view(&self) -> OutputView {
        OutputView {
            co_id: self.co_id.deep_view(),
            cal_id: self.cal_id.deep_view(),
            uid: self.uid.deep_view(),
            etag: self.etag.deep_view(),
            component: self.component.deep_view(),
            summary: self.summary.deep_view(),
            description: self.description.deep_view(),
            location: self.location.deep_view(),
            dtstart: self.dtstart.deep_view(),
            dtend: self.dtend.deep_view(),
            all_day: self.all_day.deep_view(),
            status: self.status.deep_view(),
            priority: self.priority.deep_view(),
            organizer: self.organizer.deep_view(),
            rrule: self.rrule.deep_view(),
            recurrence_id: self.recurrence_id.deep_view(),
            exdate: self.exdate.deep_view(),
            parse_error: self.parse_error.deep_view(),
            created_at: self.created_at.deep_view(),
            updated_at: self.updated_at.deep_view(),
        }
    }
}

/// An event or a task in a list.
#[derive(Debug, Clone)]
pub struct CalendarObjectListItem {
    pub co_id: u64,
    pub cal_id: u64,
    pub uid: String,
    pub etag: String,
    /// `VEVENT` or `VTODO`.
    pub component: String,
    pub summary: Option<String>,
    pub location: Option<String>,
    pub dtstart: Option<String>,
    pub dtend: Option<String>,
    pub all_day: bool,
    pub status: Option<String>,
    pub rrule: Option<String>,
    pub recurrence_id: Option<String>,
    pub exdate: Option<Vec<String>>,
    pub updated_at: Timestamp,
}

#[verifier::ext_equal]
pub ghost struct ListItemView {
    pub co_id: u64,
    pub cal_id: u64,
    pub uid: Seq<char>,
    pub etag: Seq<char>,
    pub component: Seq<char>,
    pub summary: Option<Seq<char>>,
    pub location: Option<Seq<char>>,
    pub dtstart: Option<Seq<char>>,
    pub dtend: Option<Seq<char>>,
    pub all_day: bool,
    pub status: Option<Seq<char>>,
    pub rrule: Option<Seq<char>>,
    pub recurrence_id: Option<Seq<char>>,
    pub exdate: Option<Seq<Seq<char>>>,
    pub updated_at: Timestamp,
}

impl DeepView for CalendarObjectListItem {
    type V = ListItemView;

    open spec fn deep_view(&self) -> ListItemView {
        ListItemView {
            co_id: self.co_id.deep_view(),
            cal_id: self.cal_id.deep_view(),
            uid: self.uid.deep_view(),
            etag: self.etag.deep_view(),
            component: self.component.deep_view(),
            summary: self.summary.deep_view(),
            location: self.location.deep_view(),
            dtstart: self.dtstart.deep_view(),
            dtend: self.dtend.deep_view(),
            all_day: self.all_day.deep_view(),
            status: self.status.deep_view(),
            rrule: self.rrule.deep_view(),
            recurrence_id: self.recurrence_id.deep_view(),
            exdate: self.exdate.deep_view(),
            updated_at: self.updated_at.deep_view(),
        }
    }
}

/// A request to fork a recurring series: the change to the series so far, and the series that goes
/// on from `split_at`.
#[derive(Debug, Clone, Default)]
pub struct SplitSeriesRequest {
    pub split_at: String,
    pub master_patch: CalendarObjectPatch,
    /// Its identifier is not used.
    pub tail: CalendarObjectInput,
}

/// The two series after a fork.
#[derive(Debug, Clone)]
pub struct SplitSeriesResponse {
    pub master: CalendarObjectOutput,
    pub tail: CalendarObjectOutput,
}

/// What a listing asks for.
#[derive(Debug, Default)]
pub struct ListObjectsQuery {
    pub component: Option<String>,
    pub q: Option<String>,
    pub start: Option<String>,
    pub end: Option<String>,
    pub cursor: Option<String>,
    pub limit: Option<u32>,
    /// Whether changed occurrences are listed beside their series.
    pub include_exceptions: bool,
}

/// What is looked up for a listing.
#[derive(Debug, Default)]
pub struct ListCalendarObjectOptions {
    pub component: Option<String>,
    pub q: Option<String>,
    pub start: Option<Timestamp>,
    pub end: Option<Timestamp>,
    pub cursor: Option<String>,
    pub limit: Option<u32>,
    pub include_exceptions: bool,
}

} // verus!
