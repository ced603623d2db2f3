//! Calendars and their objects: dates, iCalendar components, the structured interface and
//! synchronisation.
pub mod time;
pub mod types;
pub mod ical;
pub mod ical_writer;
pub mod reading_laws;
pub mod round_trip;
pub mod searchable;
pub mod handler;
pub mod caldav;
pub mod dav_laws;
pub mod laws;
