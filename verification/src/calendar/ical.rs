//! Events and tasks in iCalendar: content lines to components, and structured input to content
//! lines.
//!
//! Content lines come unfolded and taken apart, and leave in the same form: folding, parameter
//! quoting and text escapes belong to the wire. Only what the platform needs is read. Other
//! components and properties are passed over; times with a zone count as UTC.
use crate::calendar::time::{self, dt_reading, iso_text};
use crate::calendar::types::{
    Alarm, AlarmView, Attendee, AttendeeView, CalendarObjectExtracted, CalendarObjectInput,
    EventInput, EventView, ExtractedView, ObjectView, TodoInput, TodoView,
};
use crate::decimal::{self, signed_of, unsigned_of};
use crate::text::{self, ascii_upper_all, split_on, trimmed};
use crate::types::Timestamp;
use vstd::prelude::*;

verus! {

/// The parts of a content line.
#[derive(Debug, Clone)]
pub struct RawLine {
    /// The property's name, in upper case.
    pub name: String,
    /// The parameters, with upper-case names.
    pub params: Vec<(String, String)>,
    /// The value as it stands on the line.
    pub value: String,
    /// The value with its text escapes resolved.
    pub text: String,
}

#[verifier::ext_equal]
pub ghost struct RawView {
    pub name: Seq<char>,
    pub params: Seq<(Seq<char>, Seq<char>)>,
    pub value: Seq<char>,
    pub text: Seq<char>,
}

impl DeepView for RawLine {
    type V = RawView;

    open spec fn deep_view(&self) -> RawView {
        RawView {
            name: self.name.deep_view(),
            params: self.params.deep_view(),
            value: self.value.deep_view(),
            text: self.text.deep_view(),
        }
    }
}

/// An unfolded line, with its parts where it has the form of a content line.
#[derive(Debug, Clone)]
pub struct ContentLine {
    pub line: String,
    pub parts: Option<RawLine>,
}

#[verifier::ext_equal]
pub ghost struct LineView {
    pub line: Seq<char>,
    pub parts: Option<RawView>,
}

impl DeepView for ContentLine {
    type V = LineView;

    open spec fn deep_view(&self) -> LineView {
        LineView { line: self.line.deep_view(), parts: self.parts.deep_view() }
    }
}

/// A content line to write. A verbatim value goes out as it is; any other is a text whose
/// special characters are to be escaped.
#[derive(Debug)]
pub struct OutLine {
    pub name: String,
    pub params: Vec<(String, String)>,
    pub value: String,
    pub verbatim: bool,
}

#[verifier::ext_equal]
pub ghost struct OutView {
    pub name: Seq<char>,
    pub params: Seq<(Seq<char>, Seq<char>)>,
    pub value: Seq<char>,
    pub verbatim: bool,
}

impl DeepView for OutLine {
    type V = OutView;

    open spec fn deep_view(&self) -> OutView {
        OutView {
            name: self.name.deep_view(),
            params: self.params.deep_view(),
            value: self.value.deep_view(),
            verbatim: self.verbatim,
        }
    }
}

/// The value of the first parameter of a name.
pub open spec fn param_of(params: Seq<(Seq<char>, Seq<char>)>, name: Seq<char>) -> Option<Seq<char>>
    decreases params.len(),
{
    if params.len() == 0 {
        None
    } else if params[0].0 == name {
        Some(params[0].1)
    } else {
        param_of(params.drop_first(), name)
    }
}

/// Finds the first parameter of a name.
pub fn get_param<'a>(params: &'a Vec<(String, String)>, name: &str) -> (r: Option<&'a str>)
    ensures
        r.deep_view() == param_of(params.deep_view(), name@),
{
    let ghost all = params.deep_view();
    assert(all.skip(0) =~= all);
    let mut i: usize = 0;
    while i < params.len()
        invariant
            all == params.deep_view(),
            i <= params@.len(),
            param_of(all, name@) == param_of(all.skip(i as int), name@),
        decreases params@.len() - i,
    {
        assert(all[i as int] == params@[i as int].deep_view());
        assert(all.skip(i as int)[0] == all[i as int]);
        if text::same(params[i].0.as_str(), name) {
            return Some(params[i].1.as_str());
        }
        assert(all.skip(i as int).drop_first() =~= all.skip(i + 1));
        i = i + 1;
    }
    None
}

/// Whether a line's parameters mark its value as a date.
pub open spec fn marked_date(l: RawView) -> bool {
    param_of(l.params, "VALUE"@) matches Some(v) && ascii_upper_all(v) == ascii_upper_all("DATE"@)
}

fn is_marked_date(l: &RawLine) -> (r: bool)
    ensures
        r == marked_date(l.deep_view()),
{
    match get_param(&l.params, "VALUE") {
        Some(v) => text::same_ignoring_case(v, "DATE"),
        None => false,
    }
}

/// An event or a task as far as it has been read.
#[derive(Debug)]
pub struct Component {
    /// `VEVENT` or `VTODO`.
    pub kind: String,
    pub uid: Option<String>,
    pub summary: Option<String>,
    pub description: Option<String>,
    pub location: Option<String>,
    pub dtstart: Option<(i64, bool)>,
    pub dtend: Option<(i64, bool)>,
    pub completed: Option<(i64, bool)>,
    pub rrule: Option<String>,
    pub exdate: Vec<(i64, bool)>,
    pub status: Option<String>,
    pub organizer: Option<String>,
    pub priority: Option<u8>,
    pub attendees: Vec<Attendee>,
    pub categories: Vec<String>,
    pub alarms: Vec<Alarm>,
    pub recurrence_id: Option<i64>,
    pub sequence: i64,
}

#[verifier::ext_equal]
pub ghost struct ComponentView {
    pub kind: Seq<char>,
    pub uid: Option<Seq<char>>,
    pub summary: Option<Seq<char>>,
    pub description: Option<Seq<char>>,
    pub location: Option<Seq<char>>,
    pub dtstart: Option<(i64, bool)>,
    pub dtend: Option<(i64, bool)>,
    pub completed: Option<(i64, bool)>,
    pub rrule: Option<Seq<char>>,
    pub exdate: Seq<(i64, bool)>,
    pub status: Option<Seq<char>>,
    pub organizer: Option<Seq<char>>,
    pub priority: Option<u8>,
    pub attendees: Seq<AttendeeView>,
    pub categories: Seq<Seq<char>>,
    pub alarms: Seq<AlarmView>,
    pub recurrence_id: Option<i64>,
    pub sequence: i64,
}

impl DeepView for Component {
    type V = ComponentView;

    open spec fn deep_view(&self) -> ComponentView {
        ComponentView {
            kind: self.kind.deep_view(),
            uid: self.uid.deep_view(),
            summary: self.summary.deep_view(),
            description: self.description.deep_view(),
            location: self.location.deep_view(),
            dtstart: self.dtstart,
            dtend: self.dtend,
            completed: self.completed,
            rrule: self.rrule.deep_view(),
            exdate: self.exdate@,
            status: self.status.deep_view(),
            organizer: self.organizer.deep_view(),
            priority: self.priority,
            attendees: self.attendees.deep_view(),
            categories: self.categories.deep_view(),
            alarms: self.alarms.deep_view(),
            recurrence_id: self.recurrence_id,
            sequence: self.sequence,
        }
    }
}

/// A component of which nothing has been read.
pub open spec fn fresh(kind: Seq<char>) -> ComponentView {
    ComponentView {
        kind,
        uid: None,
        summary: None,
        description: None,
        location: None,
        dtstart: None,
        dtend: None,
        completed: None,
        rrule: None,
        exdate: Seq::empty(),
        status: None,
        organizer: None,
        priority: None,
        attendees: Seq::empty(),
        categories: Seq::empty(),
        alarms: Seq::empty(),
        recurrence_id: None,
        sequence: 0,
    }
}

/// The dates in a list; what is no date is left out.
pub open spec fn dates_in(pieces: Seq<Seq<char>>, is_date: bool) -> Seq<(i64, bool)>
    decreases pieces.len(),
{
    if pieces.len() == 0 {
        Seq::empty()
    } else {
        let before = dates_in(pieces.drop_last(), is_date);
        match dt_reading(pieces.last(), is_date) {
            Some(t) => before.push(t),
            None => before,
        }
    }
}

/// The entries of a list without the white space around them and without empty ones.
pub open spec fn entries_in(pieces: Seq<Seq<char>>) -> Seq<Seq<char>>
    decreases pieces.len(),
{
    if pieces.len() == 0 {
        Seq::empty()
    } else {
        let before = entries_in(pieces.drop_last());
        let entry = trimmed(pieces.last());
        if entry.len() > 0 {
            before.push(entry)
        } else {
            before
        }
    }
}

/// The place of the first comma from `from` on that no backslash escapes; the length of the text
/// where there is none.
pub open spec fn plain_comma(s: Seq<char>, from: int) -> int
    decreases s.len() + 1 - from,
{
    if from < 0 || from >= s.len() {
        s.len() as int
    } else if s[from] == ',' {
        from
    } else if s[from] == '\\' {
        plain_comma(s, from + 2)
    } else {
        plain_comma(s, from + 1)
    }
}

/// The pieces of a list between commas that no backslash escapes.
pub open spec fn plain_pieces(s: Seq<char>) -> Seq<Seq<char>>
    decreases s.len(),
{
    let n = plain_comma(s, 0);
    if 0 <= n < s.len() {
        seq![s.take(n)] + plain_pieces(s.skip(n + 1))
    } else {
        seq![s]
    }
}

/// The character that an escape stands for: a line break for `n`, else the character itself.
pub open spec fn escaped_char(c: char) -> char {
    if c == 'n' || c == 'N' {
        '\n'
    } else {
        c
    }
}

/// A text with its escapes resolved; a backslash at its end stays.
pub open spec fn unescaped(s: Seq<char>) -> Seq<char>
    decreases s.len(),
{
    if s.len() == 0 {
        Seq::empty()
    } else if s[0] == '\\' && s.len() > 1 {
        seq![escaped_char(s[1])] + unescaped(s.skip(2))
    } else {
        seq![s[0]] + unescaped(s.skip(1))
    }
}

/// A character as it is written in a text: a backslash, a comma and a semicolon behind a
/// backslash, and a line break as `\n`.
pub open spec fn escape_of(c: char) -> Seq<char> {
    if c == '\\' || c == ',' || c == ';' {
        seq!['\\', c]
    } else if c == '\n' {
        seq!['\\', 'n']
    } else {
        seq![c]
    }
}

/// A text with escapes where it needs them.
pub open spec fn escaped(s: Seq<char>) -> Seq<char>
    decreases s.len(),
{
    if s.len() == 0 {
        Seq::empty()
    } else {
        escaped(s.drop_last()) + escape_of(s.last())
    }
}

/// Writes a text with escapes where it needs them.
pub fn escape(s: &str) -> (r: String)
    ensures
        r@ == escaped(s@),
{
    let v = text::to_chars(s);
    let mut out = String::new();
    let mut i: usize = 0;
    while i < v.len()
        invariant
            v@ == s@,
            i <= v@.len(),
            out@ == escaped(s@.take(i as int)),
        decreases v@.len() - i,
    {
        let ghost before = out@;
        let c = v[i];
        if c == '\\' || c == ',' || c == ';' {
            out.push('\\');
            out.push(c);
        } else if c == '\n' {
            out.push('\\');
            out.push('n');
        } else {
            out.push(c);
        }
        proof {
            assert(s@.take(i + 1).drop_last() =~= s@.take(i as int));
            assert(s@.take(i + 1).last() == c);
            assert(out@ =~= before + escape_of(c));
        }
        i = i + 1;
    }
    assert(s@.take(i as int) =~= s@);
    out
}

/// The categories that a list names: it is taken apart at the commas that are not escaped, and
/// then the escapes in each entry are resolved.
pub open spec fn categories_in(value: Seq<char>) -> Seq<Seq<char>> {
    entries_in(plain_pieces(value).map_values(|p: Seq<char>| unescaped(p)))
}

/// The participant that a line names.
pub open spec fn attendee_of(l: RawView) -> AttendeeView {
    AttendeeView {
        address: l.text,
        cn: param_of(l.params, "CN"@),
        partstat: param_of(l.params, "PARTSTAT"@),
        role: param_of(l.params, "ROLE"@),
        rsvp: match param_of(l.params, "RSVP"@) {
            Some(v) => Some(ascii_upper_all(v) == ascii_upper_all("TRUE"@)),
            None => None,
        },
    }
}

/// A keyword: without white space around it, in upper case.
pub open spec fn keyword(v: Seq<char>) -> Seq<char> {
    ascii_upper_all(trimmed(v))
}

/// A component after one more property. What is written twice counts as written last; lists
/// grow.
pub open spec fn took(c: ComponentView, l: RawView) -> ComponentView {
    if l.name == "UID"@ {
        ComponentView { uid: Some(l.text), ..c }
    } else if l.name == "SUMMARY"@ {
        ComponentView { summary: Some(l.text), ..c }
    } else if l.name == "LOCATION"@ {
        ComponentView { location: Some(l.text), ..c }
    } else if l.name == "DESCRIPTION"@ {
        ComponentView { description: Some(l.text), ..c }
    } else if l.name == "STATUS"@ {
        ComponentView { status: Some(keyword(l.value)), ..c }
    } else if l.name == "PRIORITY"@ {
        ComponentView {
            priority: match unsigned_of(trimmed(l.value), 255) {
                Some(n) => Some(n as u8),
                None => None,
            },
            ..c
        }
    } else if l.name == "ORGANIZER"@ {
        ComponentView { organizer: Some(l.text), ..c }
    } else if l.name == "RRULE"@ {
        ComponentView { rrule: Some(trimmed(l.value)), ..c }
    } else if l.name == "SEQUENCE"@ {
        match signed_of(trimmed(l.value)) {
            Some(n) => ComponentView { sequence: n as i64, ..c },
            None => c,
        }
    } else if l.name == "DTSTART"@ {
        ComponentView { dtstart: dt_reading(l.value, marked_date(l)), ..c }
    } else if l.name == "DTEND"@ || l.name == "DUE"@ {
        ComponentView { dtend: dt_reading(l.value, marked_date(l)), ..c }
    } else if l.name == "COMPLETED"@ {
        ComponentView { completed: dt_reading(l.value, marked_date(l)), ..c }
    } else if l.name == "EXDATE"@ {
        ComponentView {
            exdate: c.exdate + dates_in(split_on(l.value, ','), marked_date(l)),
            ..c
        }
    } else if l.name == "RECURRENCE-ID"@ {
        ComponentView {
            recurrence_id: match dt_reading(l.value, marked_date(l)) {
                Some((t, _)) => Some(t),
                None => None,
            },
            ..c
        }
    } else if l.name == "ATTENDEE"@ {
        ComponentView { attendees: c.attendees.push(attendee_of(l)), ..c }
    } else if l.name == "CATEGORIES"@ {
        ComponentView { categories: c.categories + categories_in(l.value), ..c }
    } else {
        c
    }
}

fn read_dates(value: &str, is_date: bool) -> (r: Vec<(i64, bool)>)
    ensures
        r@ == dates_in(split_on(value@, ','), is_date),
{
    let pieces = text::split_char(value, ',');
    let ghost all = pieces.deep_view();
    let mut out: Vec<(i64, bool)> = Vec::new();
    let mut i: usize = 0;
    while i < pieces.len()
        invariant
            all == pieces.deep_view(),
            i <= pieces@.len(),
            out@ == dates_in(all.take(i as int), is_date),
        decreases pieces@.len() - i,
    {
        proof {
            assert(all.take(i + 1).drop_last() =~= all.take(i as int));
            assert(all.take(i + 1).last() == pieces@[i as int]@);
        }
        if let Some(t) = time::parse_dt(pieces[i].as_str(), is_date) {
            out.push(t);
        }
        i = i + 1;
    }
    assert(all.take(i as int) =~= all);
    out
}

fn unescape(s: &str) -> (r: String)
    ensures
        r@ == unescaped(s@),
{
    let v = text::to_chars(s);
    let mut out = String::new();
    let mut i: usize = 0;
    assert(s@.skip(0) =~= s@);
    assert(out@ + unescaped(s@) =~= unescaped(s@));
    while i < v.len()
        invariant
            v@ == s@,
            i <= v@.len(),
            out@ + unescaped(s@.skip(i as int)) == unescaped(s@),
        decreases v@.len() - i,
    {
        let ghost rest = s@.skip(i as int);
        let ghost before = out@;
        if v[i] == '\\' && i + 1 < v.len() {
            let c = v[i + 1];
            let meant = if c == 'n' || c == 'N' { '\n' } else { c };
            out.push(meant);
            proof {
                assert(rest.skip(2) =~= s@.skip(i + 2));
                assert(out@ + unescaped(rest.skip(2)) =~= before + unescaped(rest));
            }
            i = i + 2;
        } else {
            out.push(v[i]);
            proof {
                assert(rest.skip(1) =~= s@.skip(i + 1));
                assert(out@ + unescaped(rest.skip(1)) =~= before + unescaped(rest));
            }
            i = i + 1;
        }
    }
    assert(s@.skip(i as int) =~= Seq::<char>::empty());
    assert(out@ =~= unescaped(s@));
    out
}

/// Moving the start of a text moves the place of its first plain comma.
proof fn lemma_plain_comma_skip(s: Seq<char>, at: int, from: int)
    requires
        0 <= at <= s.len(),
        0 <= from,
    ensures
        plain_comma(s.skip(at), from) + at == plain_comma(s, at + from),
        from <= s.len() - at ==> at + from <= plain_comma(s, at + from) <= s.len(),
    decreases s.len() + 1 - at - from,
{
    let t = s.skip(at);
    if from < t.len() {
        if t[from] == '\\' {
            lemma_plain_comma_skip(s, at, from + 2);
        } else if t[from] != ',' {
            lemma_plain_comma_skip(s, at, from + 1);
        }
    }
}

fn find_plain_comma(v: &Vec<char>, from: usize) -> (r: usize)
    requires
        from <= v@.len(),
    ensures
        r == plain_comma(v@, from as int),
        from <= r <= v@.len(),
{
    let n: usize = v.len();
    let mut i: usize = from;
    while i < n
        invariant
            n == v@.len(),
            from <= i <= n,
            plain_comma(v@, i as int) == plain_comma(v@, from as int),
        decreases n - i,
    {
        if v[i] == ',' {
            return i;
        }
        if v[i] == '\\' {
            if n - i < 2 {
                assert(plain_comma(v@, i + 2) == n);
                return n;
            }
            i = i + 2;
        } else {
            i = i + 1;
        }
    }
    n
}

fn read_categories(value: &str) -> (r: Vec<String>)
    ensures
        r.deep_view() == categories_in(value@),
{
    let v = text::to_chars(value);
    let ghost all = plain_pieces(value@).map_values(|p: Seq<char>| unescaped(p));
    let mut out: Vec<String> = Vec::new();
    let mut from: usize = 0;
    let mut more = true;
    let ghost mut k: int = 0;
    proof {
        assert(value@.skip(0) =~= value@);
        assert(all.take(0) =~= Seq::empty());
        assert(out.deep_view() =~= entries_in(all.take(0)));
        assert(plain_pieces(value@).skip(0) =~= plain_pieces(value@));
    }
    while more
        invariant
            v@ == value@,
            from <= v@.len(),
            all == plain_pieces(value@).map_values(|p: Seq<char>| unescaped(p)),
            0 <= k <= all.len(),
            out.deep_view() == entries_in(all.take(k)),
            more ==> plain_pieces(value@).skip(k) == plain_pieces(value@.skip(from as int)),
            !more ==> k == all.len(),
        decreases v@.len() - from + (if more { 1int } else { 0 }),
    {
        let ghost tail = value@.skip(from as int);
        let at = find_plain_comma(&v, from);
        let piece = text::from_chars(&v, from, at);
        let plain = unescape(piece.as_str());
        let entry = text::trim(plain.as_str());
        let ghost before = out.deep_view();
        proof {
            lemma_plain_comma_skip(value@, from as int, 0);
            let pieces = plain_pieces(value@);
            let n = plain_comma(tail, 0);
            assert(n == at - from);
            assert(piece@ =~= tail.take(n));
            if n == tail.len() {
                assert(tail.take(n) =~= tail);
            }
            assert(plain_pieces(tail)[0] == piece@);
            assert(plain_pieces(tail).len() > 0);
            assert(pieces.skip(k).len() == pieces.len() - k);
            assert(pieces.skip(k)[0] == pieces[k]);
            assert(all[k] == plain@);
            assert(all.take(k + 1).drop_last() =~= all.take(k));
            assert(all.take(k + 1).last() == plain@);
            if n < tail.len() {
                assert(tail.skip(n + 1) =~= value@.skip(at + 1));
                assert(pieces.skip(k + 1) =~= pieces.skip(k).skip(1));
                assert((seq![piece@] + plain_pieces(tail.skip(n + 1))).skip(1) =~= plain_pieces(
                    tail.skip(n + 1),
                ));
            } else {
                assert(pieces.skip(k).len() == 1);
            }
        }
        if entry.as_str().unicode_len() > 0 {
            out.push(entry);
            assert(out.deep_view() =~= before.push(entry@));
        }
        proof {
            k = k + 1;
        }
        if at < v.len() {
            from = at + 1;
        } else {
            more = false;
        }
    }
    assert(all.take(k) =~= all);
    out
}

pub(crate) fn read_entries(value: &str) -> (r: Vec<String>)
    ensures
        r.deep_view() == entries_in(split_on(value@, ',')),
{
    let pieces = text::split_char(value, ',');
    let ghost all = pieces.deep_view();
    let mut out: Vec<String> = Vec::new();
    let mut i: usize = 0;
    assert(out.deep_view() =~= entries_in(all.take(0)));
    while i < pieces.len()
        invariant
            all == pieces.deep_view(),
            i <= pieces@.len(),
            out.deep_view() == entries_in(all.take(i as int)),
        decreases pieces@.len() - i,
    {
        proof {
            assert(all.take(i + 1).drop_last() =~= all.take(i as int));
            assert(all.take(i + 1).last() == pieces@[i as int]@);
        }
        let entry = text::trim(pieces[i].as_str());
        let ghost before = out.deep_view();
        if !text::same(entry.as_str(), "") {
            proof {
                reveal_strlit("");
                if entry@.len() == 0 {
                    assert(entry@ =~= ""@);
                }
            }
            out.push(entry);
            assert(out.deep_view() =~= before.push(entry@));
        } else {
            proof {
                reveal_strlit("");
            }
        }
        i = i + 1;
    }
    assert(all.take(i as int) =~= all);
    out
}

impl Component {
    /// A component of which nothing has been read.
    pub fn new(kind: String) -> (c: Component)
        ensures
            c.deep_view() == fresh(kind@),
    {
        let c = Component {
            kind,
            uid: None,
            summary: None,
            description: None,
            location: None,
            dtstart: None,
            dtend: None,
            completed: None,
            rrule: None,
            exdate: Vec::new(),
            status: None,
            organizer: None,
            priority: None,
            attendees: Vec::new(),
            categories: Vec::new(),
            alarms: Vec::new(),
            recurrence_id: None,
            sequence: 0,
        };
        assert(c.deep_view() =~= fresh(kind@));
        c
    }

    /// Takes one more property in.
    pub fn ingest(&mut self, raw: &RawLine)
        ensures
            final(self).deep_view() == took(old(self).deep_view(), raw.deep_view()),
    {
        let name = raw.name.as_str();
        let ghost before = self.deep_view();
        let ghost l = raw.deep_view();
        if text::same(name, "UID") {
            self.uid = Some(text::owned(raw.text.as_str()));
        } else if text::same(name, "SUMMARY") {
            self.summary = Some(text::owned(raw.text.as_str()));
        } else if text::same(name, "LOCATION") {
            self.location = Some(text::owned(raw.text.as_str()));
        } else if text::same(name, "DESCRIPTION") {
            self.description = Some(text::owned(raw.text.as_str()));
        } else if text::same(name, "STATUS") {
            let v = text::trim(raw.value.as_str());
            self.status = Some(text::to_ascii_uppercase(v.as_str()));
        } else if text::same(name, "PRIORITY") {
            let v = text::trim(raw.value.as_str());
            self.priority = match decimal::parse_unsigned(v.as_str(), 255) {
                Some(n) => Some(n as u8),
                None => None,
            };
        } else if text::same(name, "ORGANIZER") {
            self.organizer = Some(text::owned(raw.text.as_str()));
        } else if text::same(name, "RRULE") {
            self.rrule = Some(text::trim(raw.value.as_str()));
        } else if text::same(name, "SEQUENCE") {
            let v = text::trim(raw.value.as_str());
            if let Some(n) = decimal::parse_signed(v.as_str()) {
                self.sequence = n;
            }
        } else if text::same(name, "DTSTART") {
            self.dtstart = time::parse_dt(raw.value.as_str(), is_marked_date(raw));
        } else if text::same(name, "DTEND") || text::same(name, "DUE") {
            self.dtend = time::parse_dt(raw.value.as_str(), is_marked_date(raw));
        } else if text::same(name, "COMPLETED") {
            self.completed = time::parse_dt(raw.value.as_str(), is_marked_date(raw));
        } else if text::same(name, "EXDATE") {
            let mut more = read_dates(raw.value.as_str(), is_marked_date(raw));
            self.exdate.append(&mut more);
        } else if text::same(name, "RECURRENCE-ID") {
            self.recurrence_id = match time::parse_dt(raw.value.as_str(), is_marked_date(raw)) {
                Some((t, _)) => Some(t),
                None => None,
            };
        } else if text::same(name, "ATTENDEE") {
            let attendee = Attendee {
                address: text::owned(raw.text.as_str()),
                cn: text::owned_opt(get_param(&raw.params, "CN")),
                partstat: text::owned_opt(get_param(&raw.params, "PARTSTAT")),
                role: text::owned_opt(get_param(&raw.params, "ROLE")),
                rsvp: match get_param(&raw.params, "RSVP") {
                    Some(v) => Some(text::same_ignoring_case(v, "TRUE")),
                    None => None,
                },
            };
            assert(attendee.deep_view() =~= attendee_of(l));
            self.attendees.push(attendee);
            assert(self.attendees.deep_view() =~= before.attendees.push(attendee.deep_view()));
        } else if text::same(name, "CATEGORIES") {
            let mut more = read_categories(raw.value.as_str());
            let ghost added = more.deep_view();
            self.categories.append(&mut more);
            assert(self.categories.deep_view() =~= before.categories + added);
        }
        assert(self.deep_view() =~= took(before, l));
    }
}

/// A reminder of which nothing has been read.
pub open spec fn no_alarm() -> AlarmView {
    AlarmView { action: None, trigger: None, description: None }
}

/// A reminder after one more property.
pub open spec fn alarm_took(a: AlarmView, l: RawView) -> AlarmView {
    if l.name == "ACTION"@ {
        AlarmView { action: Some(keyword(l.value)), ..a }
    } else if l.name == "TRIGGER"@ {
        AlarmView { trigger: Some(trimmed(l.value)), ..a }
    } else if l.name == "DESCRIPTION"@ {
        AlarmView { description: Some(l.text), ..a }
    } else {
        a
    }
}

impl Alarm {
    /// Takes one more property in.
    pub fn ingest(&mut self, raw: &RawLine)
        ensures
            final(self).deep_view() == alarm_took(old(self).deep_view(), raw.deep_view()),
    {
        let name = raw.name.as_str();
        let ghost before = self.deep_view();
        if text::same(name, "ACTION") {
            let v = text::trim(raw.value.as_str());
            self.action = Some(text::to_ascii_uppercase(v.as_str()));
        } else if text::same(name, "TRIGGER") {
            self.trigger = Some(text::trim(raw.value.as_str()));
        } else if text::same(name, "DESCRIPTION") {
            self.description = Some(text::owned(raw.text.as_str()));
        }
        assert(self.deep_view() =~= alarm_took(before, raw.deep_view()));
    }
}

/// How far the content lines of a calendar have been read.
#[derive(Debug)]
pub struct Reader {
    /// The components that are open, the innermost last.
    pub stack: Vec<String>,
    /// The events and tasks that are complete.
    pub done: Vec<Component>,
    /// The event or task that is open.
    pub current: Option<Component>,
    /// The reminder that is open.
    pub alarm: Option<Alarm>,
    pub warnings: Vec<String>,
}

#[verifier::ext_equal]
pub ghost struct ReaderView {
    pub stack: Seq<Seq<char>>,
    pub done: Seq<ComponentView>,
    pub current: Option<ComponentView>,
    pub alarm: Option<AlarmView>,
    pub warnings: Seq<Seq<char>>,
}

impl DeepView for Reader {
    type V = ReaderView;

    open spec fn deep_view(&self) -> ReaderView {
        ReaderView {
            stack: self.stack.deep_view(),
            done: self.done.deep_view(),
            current: self.current.deep_view(),
            alarm: self.alarm.deep_view(),
            warnings: self.warnings.deep_view(),
        }
    }
}

/// The start of a reading.
pub open spec fn unread() -> ReaderView {
    ReaderView {
        stack: Seq::empty(),
        done: Seq::empty(),
        current: None,
        alarm: None,
        warnings: Seq::empty(),
    }
}

/// The warning for a line that is no content line: it shows the first 80 characters.
pub open spec fn malformed(line: Seq<char>) -> Seq<char> {
    let t = trimmed(line);
    "malformed line: "@ + if t.len() > 80 {
        t.take(80)
    } else {
        t
    }
}

/// After `BEGIN` of a component. Only an event or a task outside any other is read; inside it,
/// where reminders are read at all, one reminder at a time.
pub open spec fn opened(s: ReaderView, comp: Seq<char>, alarms: bool) -> ReaderView {
    let stack = s.stack.push(comp);
    if s.current is None && (comp == "VEVENT"@ || comp == "VTODO"@) {
        ReaderView { stack, current: Some(fresh(comp)), ..s }
    } else if alarms && s.current is Some && comp == "VALARM"@ && s.alarm is None {
        ReaderView { stack, alarm: Some(no_alarm()), ..s }
    } else {
        ReaderView { stack, ..s }
    }
}

/// After the `END` of a component as far as nesting goes.
pub open spec fn balanced(s: ReaderView, comp: Seq<char>) -> ReaderView {
    if s.stack.len() > 0 && s.stack.last() == comp {
        ReaderView { stack: s.stack.drop_last(), ..s }
    } else {
        ReaderView { warnings: s.warnings.push("unbalanced END:"@ + comp), ..s }
    }
}

/// After the `END` of a reminder.
pub open spec fn alarm_closed(s: ReaderView, comp: Seq<char>, alarms: bool) -> ReaderView {
    if alarms && comp == "VALARM"@ && s.alarm is Some {
        ReaderView {
            alarm: None,
            current: match s.current {
                Some(c) => Some(ComponentView { alarms: c.alarms.push(s.alarm->Some_0), ..c }),
                None => None,
            },
            ..s
        }
    } else {
        s
    }
}

/// After the `END` of an event or a task.
pub open spec fn component_closed(s: ReaderView, comp: Seq<char>) -> ReaderView {
    match s.current {
        Some(c) if c.kind == comp => ReaderView { current: None, done: s.done.push(c), ..s },
        _ => s,
    }
}

/// After `END` of a component.
pub open spec fn closed(s: ReaderView, comp: Seq<char>, alarms: bool) -> ReaderView {
    component_closed(alarm_closed(balanced(s, comp), comp, alarms), comp)
}

/// Whether the event or task that is read is the innermost component that is open.
pub open spec fn innermost(s: ReaderView) -> bool {
    s.current matches Some(c) && s.stack.len() > 0 && s.stack.last() == c.kind
}

/// After one more line. With `alarms`, the reminders of an event or a task are read as well;
/// without, what stands in a component inside it is passed over.
pub open spec fn stepped(s: ReaderView, l: LineView, alarms: bool) -> ReaderView {
    if trimmed(l.line).len() == 0 {
        s
    } else {
        match l.parts {
            None => ReaderView { warnings: s.warnings.push(malformed(l.line)), ..s },
            Some(raw) => if raw.name == "BEGIN"@ {
                opened(s, ascii_upper_all(raw.value), alarms)
            } else if raw.name == "END"@ {
                closed(s, ascii_upper_all(raw.value), alarms)
            } else if alarms && s.alarm is Some {
                ReaderView { alarm: Some(alarm_took(s.alarm->Some_0, raw)), ..s }
            } else if s.current is Some && (alarms || innermost(s)) {
                ReaderView { current: Some(took(s.current->Some_0, raw)), ..s }
            } else {
                s
            },
        }
    }
}

/// After a row of lines.
pub open spec fn read_lines(s: ReaderView, lines: Seq<LineView>, alarms: bool) -> ReaderView
    decreases lines.len(),
{
    if lines.len() == 0 {
        s
    } else {
        stepped(read_lines(s, lines.drop_last(), alarms), lines.last(), alarms)
    }
}

/// What a reading of all lines leaves.
pub open spec fn reading(lines: Seq<LineView>, alarms: bool) -> ReaderView {
    read_lines(unread(), lines, alarms)
}

fn pushed(v: &mut Vec<String>, s: String)
    ensures
        final(v).deep_view() == old(v).deep_view().push(s@),
{
    let ghost before = v.deep_view();
    v.push(s);
    assert(v.deep_view() =~= before.push(s@));
}

impl Reader {
    /// The start of a reading.
    pub fn new() -> (r: Reader)
        ensures
            r.deep_view() == unread(),
    {
        let r = Reader {
            stack: Vec::new(),
            done: Vec::new(),
            current: None,
            alarm: None,
            warnings: Vec::new(),
        };
        assert(r.deep_view() =~= unread());
        r
    }

    fn is_innermost(&self) -> (r: bool)
        ensures
            r == innermost(self.deep_view()),
    {
        let n: usize = self.stack.len();
        match &self.current {
            Some(c) => n > 0 && text::same(self.stack[n - 1].as_str(), c.kind.as_str()),
            None => false,
        }
    }

    fn open(&mut self, comp: String, alarms: bool)
        ensures
            final(self).deep_view() == opened(old(self).deep_view(), comp@, alarms),
    {
        let ghost before = self.deep_view();
        pushed(&mut self.stack, text::owned(comp.as_str()));
        let readable = text::same(comp.as_str(), "VEVENT") || text::same(comp.as_str(), "VTODO");
        if self.current.is_none() && readable {
            self.current = Some(Component::new(comp));
        } else if alarms && self.current.is_some() && text::same(comp.as_str(), "VALARM")
            && self.alarm.is_none() {
            self.alarm = Some(Alarm { action: None, trigger: None, description: None });
            assert(self.alarm.deep_view() == Some(no_alarm()));
        }
        assert(self.deep_view() =~= opened(before, comp@, alarms));
    }

    fn balance(&mut self, comp: &str)
        ensures
            final(self).deep_view() == balanced(old(self).deep_view(), comp@),
    {
        let ghost before = self.deep_view();
        let n: usize = self.stack.len();
        if n > 0 && text::same(self.stack[n - 1].as_str(), comp) {
            let _top = self.stack.pop();
            assert(self.stack.deep_view() =~= before.stack.drop_last());
        } else {
            let mut w = text::owned("unbalanced END:");
            w.append(comp);
            pushed(&mut self.warnings, w);
        }
        assert(self.deep_view() =~= balanced(before, comp@));
    }

    fn close(&mut self, comp: &str, alarms: bool)
        ensures
            final(self).deep_view() == closed(old(self).deep_view(), comp@, alarms),
    {
        self.balance(comp);
        let ghost mid = self.deep_view();
        if alarms && text::same(comp, "VALARM") {
            match self.alarm.take() {
                Some(alarm) => {
                    let ghost a = alarm.deep_view();
                    match self.current.take() {
                        Some(c) => {
                            let mut c = c;
                            let ghost cv = c.deep_view();
                            c.alarms.push(alarm);
                            assert(c.alarms.deep_view() =~= cv.alarms.push(a));
                            assert(c.deep_view() =~= (ComponentView {
                                alarms: cv.alarms.push(a),
                                ..cv
                            }));
                            self.current = Some(c);
                        },
                        None => {},
                    }
                },
                None => {},
            }
        }
        let ghost after = self.deep_view();
        assert(after =~= alarm_closed(mid, comp@, alarms));
        match self.current.take() {
            Some(c) => {
                let ghost cv = c.deep_view();
                if text::same(c.kind.as_str(), comp) {
                    self.done.push(c);
                    assert(self.done.deep_view() =~= after.done.push(cv));
                } else {
                    self.current = Some(c);
                }
            },
            None => {},
        }
        assert(self.deep_view() =~= component_closed(after, comp@));
    }

    /// Reads one more line.
    pub fn step(&mut self, l: &ContentLine, alarms: bool)
        ensures
            final(self).deep_view() == stepped(old(self).deep_view(), l.deep_view(), alarms),
    {
        let ghost before = self.deep_view();
        let t = text::trim(l.line.as_str());
        let v = text::to_chars(t.as_str());
        if v.len() == 0 {
            return;
        }
        let raw = match &l.parts {
            Some(raw) => raw,
            None => {
                let n: usize = if v.len() > 80 { 80 } else { v.len() };
                let shown = text::from_chars(&v, 0, n);
                assert(shown@ =~= if v@.len() > 80 { v@.take(80) } else { v@ });
                let mut w = text::owned("malformed line: ");
                w.append(shown.as_str());
                pushed(&mut self.warnings, w);
                assert(self.deep_view() =~= stepped(before, l.deep_view(), alarms));
                return;
            },
        };
        let name = raw.name.as_str();
        if text::same(name, "BEGIN") {
            self.open(text::to_ascii_uppercase(raw.value.as_str()), alarms);
        } else if text::same(name, "END") {
            let comp = text::to_ascii_uppercase(raw.value.as_str());
            self.close(comp.as_str(), alarms);
        } else if alarms && self.alarm.is_some() {
            if let Some(a) = self.alarm.take() {
                let mut a = a;
                a.ingest(raw);
                self.alarm = Some(a);
            }
            assert(self.deep_view() =~= stepped(before, l.deep_view(), alarms));
        } else if self.current.is_some() && (alarms || self.is_innermost()) {
            if let Some(c) = self.current.take() {
                let mut c = c;
                c.ingest(raw);
                self.current = Some(c);
            }
            assert(self.deep_view() =~= stepped(before, l.deep_view(), alarms));
        }
    }
}

/// Where only the searchable part is read, no property of a reminder, or of any other component
/// inside an event or a task, changes what was read of it.
pub proof fn law_inner_components_are_passed_over(s: ReaderView, l: LineView)
    requires
        s.current matches Some(c) && s.stack.len() > 0 && s.stack.last() != c.kind,
        l.parts matches Some(raw) && raw.name != "BEGIN"@ && raw.name != "END"@,
    ensures
        stepped(s, l, false) == s,
{
}

fn read_all(lines: &Vec<ContentLine>, alarms: bool) -> (r: Reader)
    ensures
        r.deep_view() == reading(lines.deep_view(), alarms),
{
    let ghost all = lines.deep_view();
    let mut r = Reader::new();
    let mut i: usize = 0;
    while i < lines.len()
        invariant
            all == lines.deep_view(),
            i <= lines@.len(),
            r.deep_view() == read_lines(unread(), all.take(i as int), alarms),
        decreases lines@.len() - i,
    {
        proof {
            assert(all.take(i + 1).drop_last() =~= all.take(i as int));
            assert(all.take(i + 1).last() == lines@[i as int].deep_view());
        }
        r.step(&lines[i], alarms);
        i = i + 1;
    }
    assert(all.take(i as int) =~= all);
    r
}

/// The place of the last series proper among components, that is of one that is no changed
/// occurrence.
pub open spec fn last_master(cs: Seq<ComponentView>) -> Option<int>
    decreases cs.len(),
{
    if cs.len() == 0 {
        None
    } else if cs.last().recurrence_id is None {
        Some(cs.len() - 1)
    } else {
        last_master(cs.drop_last())
    }
}

/// The place of the component that stands for all: the last series proper, or where there is
/// none, the last component.
pub open spec fn primary_place(cs: Seq<ComponentView>) -> Option<int> {
    match last_master(cs) {
        Some(i) => Some(i),
        None => if cs.len() > 0 {
            Some(cs.len() - 1)
        } else {
            None
        },
    }
}

/// The component that stands for all.
pub open spec fn primary(cs: Seq<ComponentView>) -> Option<ComponentView> {
    match primary_place(cs) {
        Some(i) => Some(cs[i]),
        None => None,
    }
}

/// The last series proper lies among the components and is followed by changed occurrences only.
proof fn lemma_last_master(cs: Seq<ComponentView>)
    ensures
        match last_master(cs) {
            Some(i) => 0 <= i < cs.len() && cs[i].recurrence_id is None && forall|j: int|
                i < j < cs.len() ==> cs[j].recurrence_id is Some,
            None => forall|j: int| 0 <= j < cs.len() ==> cs[j].recurrence_id is Some,
        },
    decreases cs.len(),
{
    if cs.len() > 0 && cs.last().recurrence_id is Some {
        lemma_last_master(cs.drop_last());
        assert forall|j: int| 0 <= j < cs.len() - 1 implies cs[j] == cs.drop_last()[j] by {}
    }
}

/// A series proper stands for its calendar whenever there is one, wherever the changed
/// occurrences stand.
pub proof fn law_series_before_its_occurrences(cs: Seq<ComponentView>)
    ensures
        (exists|i: int| 0 <= i < cs.len() && (#[trigger] cs[i]).recurrence_id is None) ==> (primary(
            cs,
        ) matches Some(c) && c.recurrence_id is None && cs.contains(c)),
        primary(cs) is None <==> cs.len() == 0,
{
    lemma_last_master(cs);
    if let Some(i) = last_master(cs) {
        assert(cs.contains(cs[i]));
    }
}

fn take_primary(done: Vec<Component>) -> (r: Option<Component>)
    ensures
        r.deep_view() == primary(done.deep_view()),
{
    let ghost all = done.deep_view();
    let mut left = done;
    let n: usize = left.len();
    let mut i: usize = n;
    assert(all.take(n as int) =~= all);
    while i > 0
        invariant
            all == done.deep_view(),
            left == done,
            n == left@.len(),
            i <= n,
            last_master(all) == last_master(all.take(i as int)),
        decreases i,
    {
        i = i - 1;
        assert(all.take(i + 1).drop_last() =~= all.take(i as int));
        assert(all.take(i + 1).last() == left@[i as int].deep_view());
        if left[i].recurrence_id.is_none() {
            return Some(left.remove(i));
        }
    }
    assert(all.take(0) =~= Seq::empty());
    if n > 0 {
        assert(all.last() == left@[n - 1].deep_view());
        Some(left.remove(n - 1))
    } else {
        None
    }
}

/// The searchable part of a component.
pub open spec fn extracted(c: ComponentView) -> ExtractedView {
    ExtractedView {
        component: c.kind,
        summary: c.summary,
        location: c.location,
        description: c.description,
        dtstart: match c.dtstart {
            Some((t, _)) => Some(Timestamp(t)),
            None => None,
        },
        dtend: match c.dtend {
            Some((t, _)) => Some(Timestamp(t)),
            None => None,
        },
        all_day: c.dtstart matches Some((_, d)) && d,
        status: c.status,
        priority: c.priority,
        organizer: c.organizer,
        rrule: c.rrule,
        exdate: c.exdate.map_values(|e: (i64, bool)| Timestamp(e.0)),
        recurrence_id: match c.recurrence_id {
            Some(t) => Some(Timestamp(t)),
            None => None,
        },
        sequence: c.sequence,
    }
}

/// An instant for the structured interface, where there is one.
pub open spec fn iso_opt(t: Option<(i64, bool)>) -> Option<Seq<char>> {
    match t {
        Some((ts, d)) => Some(iso_text(ts, d)),
        None => None,
    }
}

/// The structured form of a component.
pub open spec fn input_of(c: ComponentView) -> ObjectView {
    let all_day = c.dtstart matches Some((_, d)) && d;
    let recurrence_id = match c.recurrence_id {
        Some(t) => Some(iso_text(t, all_day)),
        None => None,
    };
    if c.kind == "VEVENT"@ {
        ObjectView {
            uid: c.uid,
            recurrence_id,
            event: Some(
                EventView {
                    summary: c.summary,
                    description: c.description,
                    location: c.location,
                    dtstart: iso_opt(c.dtstart),
                    dtend: iso_opt(c.dtend),
                    all_day,
                    rrule: c.rrule,
                    exdate: c.exdate.map_values(|e: (i64, bool)| iso_text(e.0, e.1)),
                    status: c.status,
                    organizer: c.organizer,
                    attendees: c.attendees,
                    categories: c.categories,
                    alarms: c.alarms,
                },
            ),
            todo: None,
        }
    } else if c.kind == "VTODO"@ {
        ObjectView {
            uid: c.uid,
            recurrence_id,
            event: None,
            todo: Some(
                TodoView {
                    summary: c.summary,
                    description: c.description,
                    dtstart: iso_opt(c.dtstart),
                    due: iso_opt(c.dtend),
                    completed: iso_opt(c.completed),
                    priority: c.priority,
                    status: c.status,
                    rrule: c.rrule,
                    categories: c.categories,
                    alarms: c.alarms,
                },
            ),
        }
    } else {
        ObjectView { uid: c.uid, recurrence_id: None, event: None, todo: None }
    }
}

fn write_iso_opt(t: Option<(i64, bool)>) -> (r: Option<String>)
    ensures
        r.deep_view() == iso_opt(t),
{
    match t {
        Some((ts, d)) => Some(time::ts_to_iso(Timestamp(ts), d)),
        None => None,
    }
}

fn starts_whole_day(t: Option<(i64, bool)>) -> (r: bool)
    ensures
        r == (t matches Some((_, d)) && d),
{
    match t {
        Some((_, d)) => d,
        None => false,
    }
}

fn instant_of(t: Option<(i64, bool)>) -> (r: Option<Timestamp>)
    ensures
        r == (match t {
            Some((ts, _)) => Some(Timestamp(ts)),
            None => None,
        }),
{
    match t {
        Some((ts, _)) => Some(Timestamp(ts)),
        None => None,
    }
}

impl Component {
    /// The searchable part.
    pub fn into_extracted(self) -> (r: CalendarObjectExtracted)
        ensures
            r.deep_view() == extracted(self.deep_view()),
    {
        let mut exdate: Vec<Timestamp> = Vec::new();
        let mut i: usize = 0;
        while i < self.exdate.len()
            invariant
                i <= self.exdate@.len(),
                exdate@.len() == i,
                forall|j: int| 0 <= j < i ==> #[trigger] exdate@[j] == Timestamp(self.exdate@[j].0),
            decreases self.exdate@.len() - i,
        {
            exdate.push(Timestamp(self.exdate[i].0));
            i = i + 1;
        }
        let r = CalendarObjectExtracted {
            component: self.kind,
            summary: self.summary,
            location: self.location,
            description: self.description,
            dtstart: instant_of(self.dtstart),
            dtend: instant_of(self.dtend),
            all_day: starts_whole_day(self.dtstart),
            status: self.status,
            priority: self.priority,
            organizer: self.organizer,
            rrule: self.rrule,
            exdate,
            recurrence_id: match self.recurrence_id {
                Some(t) => Some(Timestamp(t)),
                None => None,
            },
            sequence: self.sequence,
        };
        proof {
            let x = extracted(self.deep_view());
            assert(r.exdate.deep_view() =~= x.exdate);
            assert(r.deep_view() =~= x);
        }
        r
    }

    /// The structured form.
    pub fn into_input(self) -> (r: CalendarObjectInput)
        ensures
            r.deep_view() == input_of(self.deep_view()),
    {
        let ghost c = self.deep_view();
        let all_day = starts_whole_day(self.dtstart);
        let mut exdate: Vec<String> = Vec::new();
        let mut i: usize = 0;
        while i < self.exdate.len()
            invariant
                i <= self.exdate@.len(),
                exdate@.len() == i,
                forall|j: int|
                    0 <= j < i ==> (#[trigger] exdate@[j])@ == iso_text(
                        self.exdate@[j].0,
                        self.exdate@[j].1,
                    ),
            decreases self.exdate@.len() - i,
        {
            exdate.push(time::ts_to_iso(Timestamp(self.exdate[i].0), self.exdate[i].1));
            i = i + 1;
        }
        assert(exdate.deep_view() =~= c.exdate.map_values(|e: (i64, bool)| iso_text(e.0, e.1)));
        let recurrence_id = match self.recurrence_id {
            Some(t) => Some(time::ts_to_iso(Timestamp(t), all_day)),
            None => None,
        };
        let event_kind = text::same(self.kind.as_str(), "VEVENT");
        let todo_kind = text::same(self.kind.as_str(), "VTODO");
        if event_kind {
            let event = EventInput {
                summary: self.summary,
                description: self.description,
                location: self.location,
                dtstart: write_iso_opt(self.dtstart),
                dtend: write_iso_opt(self.dtend),
                all_day,
                rrule: self.rrule,
                exdate,
                status: self.status,
                organizer: self.organizer,
                attendees: self.attendees,
                categories: self.categories,
                alarms: self.alarms,
            };
            let r = CalendarObjectInput {
                uid: self.uid,
                recurrence_id,
                event: Some(event),
                todo: None,
            };
            assert(event.deep_view() =~= input_of(c).event->Some_0);
            assert(r.deep_view() =~= input_of(c));
            r
        } else if todo_kind {
            let todo = TodoInput {
                summary: self.summary,
                description: self.description,
                dtstart: write_iso_opt(self.dtstart),
                due: write_iso_opt(self.dtend),
                completed: write_iso_opt(self.completed),
                priority: self.priority,
                status: self.status,
                rrule: self.rrule,
                categories: self.categories,
                alarms: self.alarms,
            };
            let r = CalendarObjectInput {
                uid: self.uid,
                recurrence_id,
                event: None,
                todo: Some(todo),
            };
            assert(todo.deep_view() =~= input_of(c).todo->Some_0);
            assert(r.deep_view() =~= input_of(c));
            r
        } else {
            let r = CalendarObjectInput {
                uid: self.uid,
                recurrence_id: None,
                event: None,
                todo: None,
            };
            assert(r.deep_view() =~= input_of(c));
            r
        }
    }
}

/// Reads the searchable part of a calendar's event or task, with its identifier and warnings:
/// nothing where the calendar has neither. Reminders, and any other component inside the event or
/// task, are passed over.
pub fn parse(lines: &Vec<ContentLine>) -> (r: Option<
    (CalendarObjectExtracted, Option<String>, Vec<String>),
>)
    ensures
        match primary(reading(lines.deep_view(), false).done) {
            Some(c) => r matches Some((x, uid, w)) && x.deep_view() == extracted(c)
                && uid.deep_view() == c.uid && w.deep_view() == reading(
                lines.deep_view(),
                false,
            ).warnings,
            None => r is None,
        },
{
    let reader = read_all(lines, false);
    match take_primary(reader.done) {
        Some(c) => {
            let uid = text::owned_opt(text::as_opt(&c.uid));
            Some((c.into_extracted(), uid, reader.warnings))
        },
        None => None,
    }
}

/// Reads the whole of a calendar's event or task, with warnings: nothing where the calendar has
/// neither.
pub fn parse_to_input(lines: &Vec<ContentLine>) -> (r: Option<(CalendarObjectInput, Vec<String>)>)
    ensures
        match primary(reading(lines.deep_view(), true).done) {
            Some(c) => r matches Some((x, w)) && x.deep_view() == input_of(c) && w.deep_view()
                == reading(lines.deep_view(), true).warnings,
            None => r is None,
        },
{
    let reader = read_all(lines, true);
    match take_primary(reader.done) {
        Some(c) => Some((c.into_input(), reader.warnings)),
        None => None,
    }
}

/// Components with the series proper first, each group in the order of the calendar.
pub open spec fn masters_first(cs: Seq<ComponentView>) -> Seq<ComponentView> {
    cs.filter(|c: ComponentView| c.recurrence_id is None) + cs.filter(
        |c: ComponentView| c.recurrence_id is Some,
    )
}

/// Reads every event and task of a calendar, with warnings: the series proper first, then the
/// changed occurrences in the order of the calendar.
pub fn parse_all_to_inputs(lines: &Vec<ContentLine>) -> (r: (
    Vec<CalendarObjectInput>,
    Vec<String>,
))
    ensures
        r.0.deep_view() == masters_first(reading(lines.deep_view(), true).done).map_values(
            |c: ComponentView| input_of(c),
        ),
        r.1.deep_view() == reading(lines.deep_view(), true).warnings,
{
    let reader = read_all(lines, true);
    let ghost all = reader.done.deep_view();
    let ghost is_master = |c: ComponentView| c.recurrence_id is None;
    let ghost is_override = |c: ComponentView| c.recurrence_id is Some;
    let ghost to_input = |c: ComponentView| input_of(c);
    let mut masters: Vec<CalendarObjectInput> = Vec::new();
    let mut overrides: Vec<CalendarObjectInput> = Vec::new();
    proof {
        assert(all.take(0) =~= Seq::<ComponentView>::empty());
        reveal_with_fuel(Seq::filter, 1);
        assert(masters.deep_view() =~= all.take(0).filter(is_master).map_values(to_input));
        assert(overrides.deep_view() =~= all.take(0).filter(is_override).map_values(to_input));
    }
    let done = reader.done;
    for c in it: done
        invariant
            it.seq() == done@,
            all == done.deep_view(),
            is_master == |c: ComponentView| c.recurrence_id is None,
            is_override == |c: ComponentView| c.recurrence_id is Some,
            to_input == |c: ComponentView| input_of(c),
            masters.deep_view() == all.take(it.index() as int).filter(is_master).map_values(
                to_input,
            ),
            overrides.deep_view() == all.take(it.index() as int).filter(is_override).map_values(
                to_input,
            ),
    {
        let ghost n = it.index() as int;
        let ghost cv = c.deep_view();
        let ghost m = all.take(n).filter(is_master);
        let ghost o = all.take(n).filter(is_override);
        proof {
            assert(cv == all[n]);
            assert(all.take(n + 1) =~= all.take(n).push(cv));
            assert(all.take(n + 1).drop_last() =~= all.take(n));
            reveal_with_fuel(Seq::filter, 2);
            assert(m.push(cv).map_values(to_input) =~= m.map_values(to_input).push(input_of(cv)));
            assert(o.push(cv).map_values(to_input) =~= o.map_values(to_input).push(input_of(cv)));
        }
        let ghost mb = masters.deep_view();
        let ghost ob = overrides.deep_view();
        if c.recurrence_id.is_none() {
            let input = c.into_input();
            masters.push(input);
            assert(masters.deep_view() =~= mb.push(input.deep_view()));
        } else {
            let input = c.into_input();
            overrides.push(input);
            assert(overrides.deep_view() =~= ob.push(input.deep_view()));
        }
    }
    assert(all.take(all.len() as int) =~= all);
    let ghost mb = masters.deep_view();
    let ghost ob = overrides.deep_view();
    masters.append(&mut overrides);
    proof {
        assert(masters.deep_view() =~= mb + ob);
        assert(masters_first(all).map_values(to_input) =~= mb + ob);
    }
    (masters, reader.warnings)
}

} // verus!
