//! Calendars over CalDAV: what is answered to property searches and reports, what a client may
//! store, and where synchronisation goes on.
use crate::calendar::ical::{
    self, entries_in, extracted, input_of, masters_first, primary, reading, ComponentView,
    ContentLine, LineView,
};
use crate::calendar::time;
use crate::calendar::types::{
    Calendar, CalendarObjectExtracted, CalendarObjectInput, CalendarView, ExtractedView, ObjectView,
};
use crate::decimal::{self, integer_text, signed_of};
use crate::text::{self, split_on, trimmed};
use crate::types::{Error, Timestamp};
use vstd::prelude::*;

verus! {

/// The most objects of one answer to a synchronisation request.
pub const MAX_SYNC_PAGE: u32 = 1_000;

/// The mark of a state of a calendar.
pub open spec fn sync_token(ts: i64) -> Seq<char> {
    "urn:cloudillo:sync:"@ + integer_text(ts as int)
}

/// Writes the mark of a state of a calendar.
pub fn encode_sync_token(ts: i64) -> (r: String)
    ensures
        r@ == sync_token(ts),
{
    let mut r = text::owned("urn:cloudillo:sync:");
    let n = decimal::signed_to_text(ts);
    r.append(n.as_str());
    r
}

/// The state that a mark stands for.
pub open spec fn token_time(token: Seq<char>) -> Option<i64> {
    match text::after_prefix(token, "urn:cloudillo:sync:"@) {
        Some(rest) => match signed_of(rest) {
            Some(n) => Some(n as i64),
            None => None,
        },
        None => None,
    }
}

/// Reads the mark of a state of a calendar.
pub fn decode_sync_token(token: &str) -> (r: Option<i64>)
    ensures
        r == token_time(token@),
{
    match text::strip_prefix(token, "urn:cloudillo:sync:") {
        Some(rest) => decimal::parse_signed(rest),
        None => None,
    }
}

/// The mark of a state reads back as that state.
pub proof fn law_sync_token_round_trip(ts: i64)
    ensures
        token_time(sync_token(ts)) == Some(ts),
{
    let p = "urn:cloudillo:sync:"@;
    let t = sync_token(ts);
    assert(t.take(p.len() as int) =~= p);
    assert(t.skip(p.len() as int) =~= integer_text(ts as int));
    decimal::law_integer_text_reads_back(ts);
}

/// The vocabulary that a property belongs to.
#[derive(Debug, Clone, Copy, PartialEq, Eq, Structural)]
pub enum Namespace {
    Dav,
    CalDav,
    CalendarServer,
    Other,
}

/// The name of a property.
#[derive(Debug)]
pub struct PropName {
    pub ns: Namespace,
    pub local: String,
}

/// What a property search asks for.
#[derive(Debug)]
pub enum Propfind {
    AllProp,
    PropName,
    Prop(Vec<PropName>),
}

/// Whether a property is in a list.
pub open spec fn lists_prop(props: Seq<PropName>, ns: Namespace, local: Seq<char>) -> bool {
    exists|i: int| 0 <= i < props.len() && (#[trigger] props[i]).ns == ns && props[i].local@ == local
}

pub fn has_prop(props: &Vec<PropName>, ns: Namespace, local: &str) -> (r: bool)
    ensures
        r == lists_prop(props@, ns, local@),
{
    let mut i: usize = 0;
    while i < props.len()
        invariant
            i <= props@.len(),
            forall|k: int|
                0 <= k < i ==> !((#[trigger] props@[k]).ns == ns && props@[k].local@ == local@),
        decreases props@.len() - i,
    {
        if props[i].ns == ns && text::same(props[i].local.as_str(), local) {
            assert(props@[i as int].ns == ns);
            return true;
        }
        i = i + 1;
    }
    false
}

/// Whether a search asks for a property.
pub open spec fn wants(pf: Propfind, ns: Namespace, local: Seq<char>) -> bool {
    match pf {
        Propfind::AllProp => true,
        Propfind::PropName => true,
        Propfind::Prop(list) => lists_prop(list@, ns, local),
    }
}

pub fn matches_prop(pf: &Propfind, ns: Namespace, local: &str) -> (r: bool)
    ensures
        r == wants(*pf, ns, local@),
{
    match pf {
        Propfind::AllProp => true,
        Propfind::PropName => true,
        Propfind::Prop(list) => has_prop(list, ns, local),
    }
}

/// How deep a search goes, by its `Depth` header.
pub fn depth(header: Option<&str>) -> (r: u8)
    ensures
        r == if header.deep_view() == Some("1"@) {
            1u8
        } else if header.deep_view() == Some("infinity"@) {
            255u8
        } else {
            0u8
        },
{
    proof {
        reveal_strlit("1");
        reveal_strlit("infinity");
        assert("1"@.len() == 1 && "infinity"@.len() == 8);
    }
    if text::is_text(header, "1") {
        1
    } else if text::is_text(header, "infinity") {
        255
    } else {
        0
    }
}

/// A piece of an answer: markup as it is, or a value that is to be escaped for XML, encoded for
/// a path, or put in the form of an entity tag and then escaped for XML.
#[derive(Debug)]
pub enum Piece {
    Markup(String),
    Xml(String),
    Path(String),
    Etag(String),
}

pub ghost enum PieceView {
    Markup(Seq<char>),
    Xml(Seq<char>),
    Path(Seq<char>),
    Etag(Seq<char>),
}

impl DeepView for Piece {
    type V = PieceView;

    open spec fn deep_view(&self) -> PieceView {
        match *self {
            Piece::Markup(s) => PieceView::Markup(s@),
            Piece::Xml(s) => PieceView::Xml(s@),
            Piece::Path(s) => PieceView::Path(s@),
            Piece::Etag(s) => PieceView::Etag(s@),
        }
    }
}

/// What is said of one resource: its properties, or a status in their place.
#[derive(Debug)]
pub struct MultiResponse {
    pub href: Vec<Piece>,
    pub status: Option<u16>,
    pub props: Vec<Piece>,
}

#[verifier::ext_equal]
pub ghost struct ResponseView {
    pub href: Seq<PieceView>,
    pub status: Option<u16>,
    pub props: Seq<PieceView>,
}

impl DeepView for MultiResponse {
    type V = ResponseView;

    open spec fn deep_view(&self) -> ResponseView {
        ResponseView {
            href: self.href.deep_view(),
            status: self.status,
            props: self.props.deep_view(),
        }
    }
}

/// Pieces that stand there under a condition.
pub open spec fn when(b: bool, pieces: Seq<PieceView>) -> Seq<PieceView> {
    if b {
        pieces
    } else {
        Seq::empty()
    }
}

/// Fixed markup.
pub open spec fn markup(s: Seq<char>) -> Seq<PieceView> {
    seq![PieceView::Markup(s)]
}

/// An element with a text.
pub open spec fn element(open: Seq<char>, value: Seq<char>, close: Seq<char>) -> Seq<PieceView> {
    seq![PieceView::Markup(open), PieceView::Xml(value), PieceView::Markup(close)]
}

/// An element with a text that is there.
pub open spec fn opt_element(
    open: Seq<char>,
    value: Option<Seq<char>>,
    close: Seq<char>,
) -> Seq<PieceView> {
    match value {
        Some(v) => element(open, v, close),
        None => Seq::empty(),
    }
}

fn put(out: &mut Vec<Piece>, p: Piece)
    ensures
        final(out).deep_view() == old(out).deep_view() + seq![p.deep_view()],
{
    let ghost before = out.deep_view();
    out.push(p);
    assert(out.deep_view() =~= before + seq![p.deep_view()]);
}

fn put_markup(out: &mut Vec<Piece>, b: bool, s: &str)
    ensures
        final(out).deep_view() == old(out).deep_view() + when(b, markup(s@)),
{
    if b {
        put(out, Piece::Markup(text::owned(s)));
    } else {
        assert(out.deep_view() + Seq::<PieceView>::empty() =~= out.deep_view());
    }
}

fn put_element(out: &mut Vec<Piece>, b: bool, open: &str, value: Option<&str>, close: &str)
    ensures
        final(out).deep_view() == old(out).deep_view() + when(
            b,
            opt_element(open@, value.deep_view(), close@),
        ),
{
    let ghost before = out.deep_view();
    if b {
        if let Some(v) = value {
            put(out, Piece::Markup(text::owned(open)));
            put(out, Piece::Xml(text::owned(v)));
            put(out, Piece::Markup(text::owned(close)));
            assert(out.deep_view() =~= before + element(open@, v@, close@));
            return;
        }
    }
    assert(before + Seq::<PieceView>::empty() =~= before);
}

/// The answer on the place where the calendars stand.
pub open spec fn home_view(pf: Propfind) -> ResponseView {
    ResponseView {
        href: markup("/dav/calendars/"@),
        status: None,
        props: when(
            wants(pf, Namespace::Dav, "resourcetype"@),
            markup("<d:resourcetype><d:collection/></d:resourcetype>"@),
        ) + when(
            wants(pf, Namespace::Dav, "displayname"@),
            markup("<d:displayname>Calendars</d:displayname>"@),
        ),
    }
}

pub fn home_self_response(pf: &Propfind) -> (r: MultiResponse)
    ensures
        r.deep_view() == home_view(*pf),
{
    let mut href: Vec<Piece> = Vec::new();
    put_markup(&mut href, true, "/dav/calendars/");
    let mut props: Vec<Piece> = Vec::new();
    put_markup(
        &mut props,
        matches_prop(pf, Namespace::Dav, "resourcetype"),
        "<d:resourcetype><d:collection/></d:resourcetype>",
    );
    put_markup(
        &mut props,
        matches_prop(pf, Namespace::Dav, "displayname"),
        "<d:displayname>Calendars</d:displayname>",
    );
    let r = MultiResponse { href, status: None, props };
    assert(r.deep_view() =~= home_view(*pf));
    r
}

/// The address of a calendar.
pub open spec fn collection_path(name: Seq<char>) -> Seq<PieceView> {
    seq![
        PieceView::Markup("/dav/calendars/"@),
        PieceView::Path(name),
        PieceView::Markup("/"@),
    ]
}

pub fn collection_href(name: &str) -> (r: Vec<Piece>)
    ensures
        r.deep_view() == collection_path(name@),
{
    let mut r: Vec<Piece> = Vec::new();
    put(&mut r, Piece::Markup(text::owned("/dav/calendars/")));
    put(&mut r, Piece::Path(text::owned(name)));
    put(&mut r, Piece::Markup(text::owned("/")));
    assert(r.deep_view() =~= collection_path(name@));
    r
}

/// The address of an object of a calendar.
pub open spec fn object_path(name: Seq<char>, uid: Seq<char>) -> Seq<PieceView> {
    collection_path(name) + seq![PieceView::Path(uid + ".ics"@)]
}

pub fn object_href(name: &str, uid: &str) -> (r: Vec<Piece>)
    ensures
        r.deep_view() == object_path(name@, uid@),
{
    let mut r = collection_href(name);
    let mut file = text::owned(uid);
    file.append(".ics");
    put(&mut r, Piece::Path(file));
    r
}

/// The elements for the supported components.
pub open spec fn comp_elements(comps: Seq<Seq<char>>) -> Seq<PieceView>
    decreases comps.len(),
{
    if comps.len() == 0 {
        Seq::empty()
    } else {
        comp_elements(comps.drop_last()) + element(
            "<cal:comp name=\""@,
            comps.last(),
            "\"/>"@,
        )
    }
}

/// The element that lists the supported components of a calendar.
pub open spec fn component_set(components: Seq<char>) -> Seq<PieceView> {
    markup("<cal:supported-calendar-component-set>"@) + comp_elements(
        entries_in(split_on(components, ',')),
    ) + markup("</cal:supported-calendar-component-set>"@)
}

fn put_component_set(out: &mut Vec<Piece>, b: bool, components: &str)
    ensures
        final(out).deep_view() == old(out).deep_view() + when(b, component_set(components@)),
{
    let ghost before = out.deep_view();
    if !b {
        assert(before + Seq::<PieceView>::empty() =~= before);
        return;
    }
    put_markup(out, true, "<cal:supported-calendar-component-set>");
    let comps = ical::read_entries(components);
    let ghost all = comps.deep_view();
    let ghost head = out.deep_view();
    let mut i: usize = 0;
    assert(head + comp_elements(all.take(0)) =~= head);
    while i < comps.len()
        invariant
            all == comps.deep_view(),
            i <= comps@.len(),
            out.deep_view() == head + comp_elements(all.take(i as int)),
        decreases comps@.len() - i,
    {
        let ghost mid = out.deep_view();
        put_element(out, true, "<cal:comp name=\"", Some(comps[i].as_str()), "\"/>");
        proof {
            let e = element("<cal:comp name=\""@, comps@[i as int]@, "\"/>"@);
            assert(all.take(i + 1).drop_last() =~= all.take(i as int));
            assert(all.take(i + 1).last() == comps@[i as int]@);
            assert(mid + e =~= head + comp_elements(all.take(i + 1)));
        }
        i = i + 1;
    }
    assert(all.take(i as int) =~= all);
    put_markup(out, true, "</cal:supported-calendar-component-set>");
    assert(out.deep_view() =~= before + component_set(components@));
}

/// The properties of a calendar that a search asks for.
pub open spec fn collection_props(pf: Propfind, cal: CalendarView) -> Seq<PieceView> {
    when(
        wants(pf, Namespace::Dav, "resourcetype"@),
        markup("<d:resourcetype><d:collection/><cal:calendar/></d:resourcetype>"@),
    ) + when(
        wants(pf, Namespace::Dav, "displayname"@),
        opt_element("<d:displayname>"@, Some(cal.name), "</d:displayname>"@),
    ) + when(
        wants(pf, Namespace::CalDav, "calendar-description"@),
        opt_element(
            "<cal:calendar-description>"@,
            cal.description,
            "</cal:calendar-description>"@,
        ),
    ) + when(
        wants(pf, Namespace::CalendarServer, "calendar-color"@),
        opt_element("<cs:calendar-color>"@, cal.color, "</cs:calendar-color>"@),
    ) + when(
        wants(pf, Namespace::CalDav, "calendar-timezone"@),
        opt_element("<cal:calendar-timezone>"@, cal.timezone, "</cal:calendar-timezone>"@),
    ) + when(
        wants(pf, Namespace::CalDav, "supported-calendar-component-set"@),
        component_set(cal.components),
    ) + when(
        wants(pf, Namespace::CalDav, "supported-calendar-data"@),
        markup(
            "<cal:supported-calendar-data><cal:calendar-data content-type=\"text/calendar\" version=\"2.0\"/></cal:supported-calendar-data>"@,
        ),
    ) + when(
        wants(pf, Namespace::CalDav, "max-resource-size"@),
        markup("<cal:max-resource-size>1048576</cal:max-resource-size>"@),
    ) + when(
        wants(pf, Namespace::Dav, "supported-report-set"@),
        markup(
            "<d:supported-report-set><d:supported-report><d:report><cal:calendar-multiget/></d:report></d:supported-report><d:supported-report><d:report><cal:calendar-query/></d:report></d:supported-report><d:supported-report><d:report><d:sync-collection/></d:report></d:supported-report></d:supported-report-set>"@,
        ),
    ) + when(
        wants(pf, Namespace::CalendarServer, "getctag"@),
        opt_element("<cs:getctag>"@, Some(cal.ctag), "</cs:getctag>"@),
    ) + when(
        wants(pf, Namespace::Dav, "sync-token"@),
        opt_element("<d:sync-token>"@, Some(sync_token(cal.updated_at.0)), "</d:sync-token>"@),
    )
}

/// The answer on a calendar.
pub open spec fn collection_view(pf: Propfind, cal: CalendarView) -> ResponseView {
    ResponseView {
        href: collection_path(cal.name),
        status: None,
        props: collection_props(pf, cal),
    }
}

pub fn collection_response(pf: &Propfind, cal: &Calendar) -> (r: MultiResponse)
    ensures
        r.deep_view() == collection_view(*pf, cal.deep_view()),
{
    let mut props: Vec<Piece> = Vec::new();
    put_markup(
        &mut props,
        matches_prop(pf, Namespace::Dav, "resourcetype"),
        "<d:resourcetype><d:collection/><cal:calendar/></d:resourcetype>",
    );
    assert(props.deep_view() =~= when(
        wants(*pf, Namespace::Dav, "resourcetype"@),
        markup("<d:resourcetype><d:collection/><cal:calendar/></d:resourcetype>"@),
    ));
    put_element(
        &mut props,
        matches_prop(pf, Namespace::Dav, "displayname"),
        "<d:displayname>",
        Some(cal.name.as_str()),
        "</d:displayname>",
    );
    put_element(
        &mut props,
        matches_prop(pf, Namespace::CalDav, "calendar-description"),
        "<cal:calendar-description>",
        text::as_opt(&cal.description),
        "</cal:calendar-description>",
    );
    put_element(
        &mut props,
        matches_prop(pf, Namespace::CalendarServer, "calendar-color"),
        "<cs:calendar-color>",
        text::as_opt(&cal.color),
        "</cs:calendar-color>",
    );
    put_element(
        &mut props,
        matches_prop(pf, Namespace::CalDav, "calendar-timezone"),
        "<cal:calendar-timezone>",
        text::as_opt(&cal.timezone),
        "</cal:calendar-timezone>",
    );
    put_component_set(
        &mut props,
        matches_prop(pf, Namespace::CalDav, "supported-calendar-component-set"),
        cal.components.as_str(),
    );
    put_markup(
        &mut props,
        matches_prop(pf, Namespace::CalDav, "supported-calendar-data"),
        "<cal:supported-calendar-data><cal:calendar-data content-type=\"text/calendar\" version=\"2.0\"/></cal:supported-calendar-data>",
    );
    put_markup(
        &mut props,
        matches_prop(pf, Namespace::CalDav, "max-resource-size"),
        "<cal:max-resource-size>1048576</cal:max-resource-size>",
    );
    put_markup(
        &mut props,
        matches_prop(pf, Namespace::Dav, "supported-report-set"),
        "<d:supported-report-set><d:supported-report><d:report><cal:calendar-multiget/></d:report></d:supported-report><d:supported-report><d:report><cal:calendar-query/></d:report></d:supported-report><d:supported-report><d:report><d:sync-collection/></d:report></d:supported-report></d:supported-report-set>",
    );
    put_element(
        &mut props,
        matches_prop(pf, Namespace::CalendarServer, "getctag"),
        "<cs:getctag>",
        Some(cal.ctag.as_str()),
        "</cs:getctag>",
    );
    let token = encode_sync_token(cal.updated_at.0);
    put_element(
        &mut props,
        matches_prop(pf, Namespace::Dav, "sync-token"),
        "<d:sync-token>",
        Some(token.as_str()),
        "</d:sync-token>",
    );
    let href = collection_href(cal.name.as_str());
    MultiResponse { href, status: None, props }
}

/// The answer on an object: its type, its entity tag, and where it is given, its calendar text.
pub open spec fn resource_view(
    pf: Propfind,
    href: Seq<PieceView>,
    etag: Seq<char>,
    body: Option<Seq<char>>,
) -> ResponseView {
    ResponseView {
        href,
        status: None,
        props: when(wants(pf, Namespace::Dav, "resourcetype"@), markup("<d:resourcetype/>"@))
            + when(
            wants(pf, Namespace::Dav, "getetag"@),
            seq![
                PieceView::Markup("<d:getetag>"@),
                PieceView::Etag(etag),
                PieceView::Markup("</d:getetag>"@),
            ],
        ) + when(
            wants(pf, Namespace::Dav, "getcontenttype"@),
            markup(
                "<d:getcontenttype>text/calendar; charset=utf-8; component=vevent</d:getcontenttype>"@,
            ),
        ) + when(
            wants(pf, Namespace::CalDav, "calendar-data"@),
            opt_element("<cal:calendar-data>"@, body, "</cal:calendar-data>"@),
        ),
    }
}

pub fn resource_response(pf: &Propfind, href: Vec<Piece>, etag: &str, body: Option<&str>) -> (r:
    MultiResponse)
    ensures
        r.deep_view() == resource_view(*pf, href.deep_view(), etag@, body.deep_view()),
{
    let mut props: Vec<Piece> = Vec::new();
    put_markup(
        &mut props,
        matches_prop(pf, Namespace::Dav, "resourcetype"),
        "<d:resourcetype/>",
    );
    assert(props.deep_view() =~= when(
        wants(*pf, Namespace::Dav, "resourcetype"@),
        markup("<d:resourcetype/>"@),
    ));
    let ghost before = props.deep_view();
    let tagged = matches_prop(pf, Namespace::Dav, "getetag");
    if tagged {
        put(&mut props, Piece::Markup(text::owned("<d:getetag>")));
        put(&mut props, Piece::Etag(text::owned(etag)));
        put(&mut props, Piece::Markup(text::owned("</d:getetag>")));
    }
    assert(props.deep_view() =~= before + when(
        tagged,
        seq![
            PieceView::Markup("<d:getetag>"@),
            PieceView::Etag(etag@),
            PieceView::Markup("</d:getetag>"@),
        ],
    ));
    put_markup(
        &mut props,
        matches_prop(pf, Namespace::Dav, "getcontenttype"),
        "<d:getcontenttype>text/calendar; charset=utf-8; component=vevent</d:getcontenttype>",
    );
    put_element(
        &mut props,
        matches_prop(pf, Namespace::CalDav, "calendar-data"),
        "<cal:calendar-data>",
        body,
        "</cal:calendar-data>",
    );
    MultiResponse { href, status: None, props }
}

/// The answer on an object that is not there.
pub open spec fn missing_view(href: Seq<PieceView>) -> ResponseView {
    ResponseView { href, status: Some(404), props: Seq::empty() }
}

fn missing_response(href: Vec<Piece>) -> (r: MultiResponse)
    ensures
        r.deep_view() == missing_view(href.deep_view()),
{
    let props: Vec<Piece> = Vec::new();
    assert(props.deep_view() =~= Seq::empty());
    MultiResponse { href, status: Some(404), props }
}

/// A stored object with its calendar text.
#[derive(Debug)]
pub struct StoredObject {
    pub uid: String,
    pub etag: String,
    pub ical: String,
}

/// An object that changed, or was removed.
#[derive(Debug)]
pub struct SyncEntry {
    pub uid: String,
    pub etag: String,
    pub deleted: bool,
    pub updated_at: Timestamp,
}

fn add_response(out: &mut Vec<MultiResponse>, r: MultiResponse)
    ensures
        final(out).deep_view() == old(out).deep_view().push(r.deep_view()),
{
    let ghost before = out.deep_view();
    out.push(r);
    assert(out.deep_view() =~= before.push(r.deep_view()));
}

/// The answers on the place where the calendars stand, and on each of them unless the search
/// stays at the surface.
pub fn home_responses(pf: &Propfind, depth: u8, cals: &Vec<Calendar>) -> (r: Vec<MultiResponse>)
    ensures
        r.deep_view() == seq![home_view(*pf)] + if depth >= 1 {
            cals.deep_view().map_values(|c: CalendarView| collection_view(*pf, c))
        } else {
            Seq::empty()
        },
{
    let mut out: Vec<MultiResponse> = Vec::new();
    let ghost head = seq![home_view(*pf)];
    let ghost all = cals.deep_view().map_values(|c: CalendarView| collection_view(*pf, c));
    add_response(&mut out, home_self_response(pf));
    assert(out.deep_view() =~= head + all.take(0));
    if depth >= 1 {
        let mut i: usize = 0;
        while i < cals.len()
            invariant
                all == cals.deep_view().map_values(|c: CalendarView| collection_view(*pf, c)),
                i <= cals@.len(),
                out.deep_view() == head + all.take(i as int),
            decreases cals@.len() - i,
        {
            let ghost mid = out.deep_view();
            add_response(&mut out, collection_response(pf, &cals[i]));
            proof {
                assert(all[i as int] == collection_view(*pf, cals@[i as int].deep_view()));
                assert(mid.push(all[i as int]) =~= head + all.take(i + 1));
            }
            i = i + 1;
        }
        assert(all.take(i as int) =~= all);
    }
    out
}

/// The answers on the objects of a calendar. The calendar text is among their properties where
/// `with_text` says so.
pub open spec fn object_views(
    pf: Propfind,
    name: Seq<char>,
    rows: Seq<StoredObject>,
    with_text: bool,
) -> Seq<ResponseView> {
    rows.map_values(
        |o: StoredObject|
            resource_view(
                pf,
                object_path(name, o.uid@),
                o.etag@,
                if with_text {
                    Some(o.ical@)
                } else {
                    None
                },
            ),
    )
}

fn object_responses(
    out: &mut Vec<MultiResponse>,
    pf: &Propfind,
    name: &str,
    rows: &Vec<StoredObject>,
    with_text: bool,
)
    ensures
        final(out).deep_view() == old(out).deep_view() + object_views(
            *pf,
            name@,
            rows@,
            with_text,
        ),
{
    let ghost head = out.deep_view();
    let ghost all = object_views(*pf, name@, rows@, with_text);
    assert(head + all.take(0) =~= head);
    let mut i: usize = 0;
    while i < rows.len()
        invariant
            all == object_views(*pf, name@, rows@, with_text),
            i <= rows@.len(),
            out.deep_view() == head + all.take(i as int),
        decreases rows@.len() - i,
    {
        let ghost mid = out.deep_view();
        let href = object_href(name, rows[i].uid.as_str());
        let body = if with_text {
            Some(rows[i].ical.as_str())
        } else {
            None
        };
        add_response(out, resource_response(pf, href, rows[i].etag.as_str(), body));
        proof {
            assert(all[i as int] == out.deep_view().last());
            assert(mid.push(all[i as int]) =~= head + all.take(i + 1));
        }
        i = i + 1;
    }
    assert(all.take(i as int) =~= all);
}

/// The answers on a calendar, and on each of its objects unless the search stays at the surface.
pub fn propfind_collection(pf: &Propfind, depth: u8, cal: &Calendar, rows: &Vec<StoredObject>) -> (r:
    Vec<MultiResponse>)
    ensures
        r.deep_view() == seq![collection_view(*pf, cal.deep_view())] + if depth >= 1 {
            object_views(*pf, cal.name@, rows@, false)
        } else {
            Seq::empty()
        },
{
    let mut out: Vec<MultiResponse> = Vec::new();
    add_response(&mut out, collection_response(pf, cal));
    assert(out.deep_view() =~= seq![collection_view(*pf, cal.deep_view())]);
    if depth >= 1 {
        object_responses(&mut out, pf, cal.name.as_str(), rows, false);
    } else {
        assert(out.deep_view() + Seq::<ResponseView>::empty() =~= out.deep_view());
    }
    out
}

/// The last segment of an address.
pub fn last_segment(href: &str) -> (r: String)
    ensures
        r@ == split_on(href@, '/').last(),
{
    let mut parts = text::split_char(href, '/');
    let ghost all = parts.deep_view();
    assert(all.last() == parts@[parts@.len() - 1]@);
    match parts.pop() {
        Some(p) => p,
        None => String::new(),
    }
}

/// The identifier of the object that a file name stands for: nothing unless the name could be
/// decoded and ends in `.ics`.
pub open spec fn uid_of(file: Option<Seq<char>>) -> Option<Seq<char>> {
    match file {
        Some(f) => text::before_suffix(f, ".ics"@),
        None => None,
    }
}

pub fn resource_uid(file: Option<&str>) -> (r: Option<String>)
    ensures
        r.deep_view() == uid_of(file.deep_view()),
{
    match file {
        Some(f) => text::strip_suffix(f, ".ics"),
        None => None,
    }
}

/// An address that a client asks for, with its last segment decoded where that worked.
#[derive(Debug)]
pub struct AskedHref {
    pub href: String,
    pub file: Option<String>,
}

/// The place of an identifier among rows; the last one, should there be several.
pub open spec fn row_place(rows: Seq<StoredObject>, uid: Seq<char>) -> Option<int>
    decreases rows.len(),
{
    if rows.len() == 0 {
        None
    } else if rows.last().uid@ == uid {
        Some(rows.len() - 1)
    } else {
        row_place(rows.drop_last(), uid)
    }
}

fn find_row(rows: &Vec<StoredObject>, uid: &str) -> (r: Option<usize>)
    ensures
        match r {
            Some(i) => row_place(rows@, uid@) == Some(i as int) && i < rows@.len(),
            None => row_place(rows@, uid@) is None,
        },
{
    let mut i: usize = rows.len();
    assert(rows@.take(i as int) =~= rows@);
    while i > 0
        invariant
            i <= rows@.len(),
            row_place(rows@, uid@) == row_place(rows@.take(i as int), uid@),
        decreases i,
    {
        i = i - 1;
        assert(rows@.take(i + 1).drop_last() =~= rows@.take(i as int));
        if text::same(rows[i].uid.as_str(), uid) {
            return Some(i);
        }
    }
    None
}

/// The answer on one address that a client asks for.
pub open spec fn asked_view(pf: Propfind, rows: Seq<StoredObject>, a: AskedHref) -> ResponseView {
    match uid_of(a.file.deep_view()) {
        Some(uid) => match row_place(rows, uid) {
            Some(i) => resource_view(pf, markup(a.href@), rows[i].etag@, Some(rows[i].ical@)),
            None => missing_view(markup(a.href@)),
        },
        None => missing_view(markup(a.href@)),
    }
}

/// The identifiers of the objects that a client asks for; addresses that stand for none are
/// passed over.
pub open spec fn asked_uids(hrefs: Seq<AskedHref>) -> Seq<Seq<char>>
    decreases hrefs.len(),
{
    if hrefs.len() == 0 {
        Seq::empty()
    } else {
        let before = asked_uids(hrefs.drop_last());
        match uid_of(hrefs.last().file.deep_view()) {
            Some(uid) => before.push(uid),
            None => before,
        }
    }
}

pub fn multiget_uids(hrefs: &Vec<AskedHref>) -> (r: Vec<String>)
    ensures
        r.deep_view() == asked_uids(hrefs@),
{
    let mut out: Vec<String> = Vec::new();
    let mut i: usize = 0;
    assert(out.deep_view() =~= asked_uids(hrefs@.take(0)));
    while i < hrefs.len()
        invariant
            i <= hrefs@.len(),
            out.deep_view() == asked_uids(hrefs@.take(i as int)),
        decreases hrefs@.len() - i,
    {
        assert(hrefs@.take(i + 1).drop_last() =~= hrefs@.take(i as int));
        let ghost before = out.deep_view();
        if let Some(uid) = resource_uid(text::as_opt(&hrefs[i].file)) {
            out.push(uid);
            assert(out.deep_view() =~= before.push(uid@));
        }
        i = i + 1;
    }
    assert(hrefs@.take(i as int) =~= hrefs@);
    out
}

/// The answers to a request for given objects, one for each address and in their order: an
/// address without an object is answered with 404.
pub fn multiget_responses(pf: &Propfind, hrefs: &Vec<AskedHref>, rows: &Vec<StoredObject>) -> (r:
    Vec<MultiResponse>)
    ensures
        r.deep_view() == hrefs@.map_values(|a: AskedHref| asked_view(*pf, rows@, a)),
{
    let ghost all = hrefs@.map_values(|a: AskedHref| asked_view(*pf, rows@, a));
    let mut out: Vec<MultiResponse> = Vec::new();
    assert(out.deep_view() =~= all.take(0));
    let mut i: usize = 0;
    while i < hrefs.len()
        invariant
            all == hrefs@.map_values(|a: AskedHref| asked_view(*pf, rows@, a)),
            i <= hrefs@.len(),
            out.deep_view() == all.take(i as int),
        decreases hrefs@.len() - i,
    {
        let ghost mid = out.deep_view();
        let mut href: Vec<Piece> = Vec::new();
        put_markup(&mut href, true, hrefs[i].href.as_str());
        assert(href.deep_view() =~= markup(hrefs@[i as int].href@));
        let place = match resource_uid(text::as_opt(&hrefs[i].file)) {
            Some(uid) => find_row(rows, uid.as_str()),
            None => None,
        };
        let answer = match place {
            Some(k) => resource_response(
                pf,
                href,
                rows[k].etag.as_str(),
                Some(rows[k].ical.as_str()),
            ),
            None => missing_response(href),
        };
        add_response(&mut out, answer);
        proof {
            assert(all[i as int] == out.deep_view().last());
            assert(mid.push(all[i as int]) =~= all.take(i + 1));
        }
        i = i + 1;
    }
    assert(all.take(i as int) =~= all);
    out
}

/// The bounds of a search by time.
pub fn query_range(range: Option<(Option<String>, Option<String>)>) -> (r: (
    Option<Timestamp>,
    Option<Timestamp>,
))
    ensures
        r.0 == (match range {
            Some((Some(s), _)) => bound(s@),
            _ => None,
        }),
        r.1 == (match range {
            Some((_, Some(e))) => bound(e@),
            _ => None,
        }),
{
    match range {
        Some((s, e)) => (
            match s {
                Some(s) => time::parse_caldav_dt(s.as_str()),
                None => None,
            },
            match e {
                Some(e) => time::parse_caldav_dt(e.as_str()),
                None => None,
            },
        ),
        None => (None, None),
    }
}

/// The instant of a bound.
pub open spec fn bound(s: Seq<char>) -> Option<Timestamp> {
    match time::range_reading(s) {
        Some(t) => Some(Timestamp(t)),
        None => None,
    }
}

/// The answers to a search by time: every object that was found, with its text. Recurrence is
/// not expanded; clients filter.
pub fn query_responses(pf: &Propfind, name: &str, rows: &Vec<StoredObject>) -> (r: Vec<
    MultiResponse,
>)
    ensures
        r.deep_view() == object_views(*pf, name@, rows@, true),
{
    let mut out: Vec<MultiResponse> = Vec::new();
    let ghost before = out.deep_view();
    object_responses(&mut out, pf, name, rows, true);
    proof {
        let all = object_views(*pf, name@, rows@, true);
        assert(before + all =~= all);
    }
    out
}

/// From where changes are looked up: a mark that cannot be read counts as none.
pub fn sync_since(token: Option<&str>) -> (r: Option<Timestamp>)
    ensures
        r == (match token.deep_view() {
            Some(t) => match token_time(t) {
                Some(n) => Some(Timestamp(n)),
                None => None,
            },
            None => None,
        }),
{
    match token {
        Some(t) => match decode_sync_token(t) {
            Some(n) => Some(Timestamp(n)),
            None => None,
        },
        None => None,
    }
}

/// How many changes are looked up.
pub open spec fn sync_page(limit: Option<u32>) -> u32 {
    match limit {
        Some(n) if n < MAX_SYNC_PAGE => n,
        _ => MAX_SYNC_PAGE,
    }
}

pub fn sync_limit(limit: Option<u32>) -> (r: u32)
    ensures
        r == sync_page(limit),
{
    match limit {
        Some(n) => if n < MAX_SYNC_PAGE {
            n
        } else {
            MAX_SYNC_PAGE
        },
        None => MAX_SYNC_PAGE,
    }
}

/// The latest of the changes; 0 where there is none.
pub open spec fn latest(entries: Seq<SyncEntry>) -> i64
    decreases entries.len(),
{
    if entries.len() == 0 {
        0
    } else if entries.len() == 1 {
        entries[0].updated_at.0
    } else {
        let before = latest(entries.drop_last());
        let t = entries.last().updated_at.0;
        if t > before {
            t
        } else {
            before
        }
    }
}

/// Where the next synchronisation goes on. A page that is cut off goes on behind its last
/// change; else everything up to the calendar's own change is known.
pub open spec fn next_state(entries: Seq<SyncEntry>, limit: u32, calendar: Timestamp) -> i64 {
    let last = latest(entries);
    if entries.len() >= limit || last > calendar.0 {
        last
    } else {
        calendar.0
    }
}

pub fn sync_state(entries: &Vec<SyncEntry>, limit: u32, calendar: Timestamp) -> (r: i64)
    ensures
        r == next_state(entries@, limit, calendar),
{
    let mut last: i64 = 0;
    let mut i: usize = 0;
    while i < entries.len()
        invariant
            i <= entries@.len(),
            last == latest(entries@.take(i as int)),
        decreases entries@.len() - i,
    {
        assert(entries@.take(i + 1).drop_last() =~= entries@.take(i as int));
        let t: i64 = entries[i].updated_at.0;
        if i == 0 || t > last {
            last = t;
        }
        i = i + 1;
    }
    assert(entries@.take(i as int) =~= entries@);
    if entries.len() >= limit as usize || last > calendar.0 {
        last
    } else {
        calendar.0
    }
}

/// The next synchronisation never goes back behind a change that was handed out, and starts
/// from one of the changes where the page was cut off, so that nothing is passed over.
pub proof fn law_sync_goes_forward(entries: Seq<SyncEntry>, limit: u32, calendar: Timestamp)
    ensures
        forall|i: int|
            0 <= i < entries.len() ==> (#[trigger] entries[i]).updated_at.0 <= next_state(
                entries,
                limit,
                calendar,
            ),
        0 < entries.len() && entries.len() >= limit ==> exists|i: int|
            0 <= i < entries.len() && (#[trigger] entries[i]).updated_at.0 == next_state(
                entries,
                limit,
                calendar,
            ),
        entries.len() < limit ==> next_state(entries, limit, calendar) >= calendar.0,
{
    lemma_latest(entries);
}

proof fn lemma_latest(entries: Seq<SyncEntry>)
    ensures
        forall|i: int|
            0 <= i < entries.len() ==> (#[trigger] entries[i]).updated_at.0 <= latest(entries),
        entries.len() > 0 ==> exists|i: int|
            0 <= i < entries.len() && (#[trigger] entries[i]).updated_at.0 == latest(entries),
    decreases entries.len(),
{
    if entries.len() == 1 {
        assert(entries[0].updated_at.0 == latest(entries));
    } else if entries.len() > 1 {
        let rest = entries.drop_last();
        lemma_latest(rest);
        assert forall|i: int| 0 <= i < entries.len() implies (#[trigger] entries[i]).updated_at.0
            <= latest(entries) by {
            if i < entries.len() - 1 {
                assert(rest[i].updated_at.0 <= latest(rest));
            }
        }
        let k = choose|i: int|
            0 <= i < rest.len() && (#[trigger] rest[i]).updated_at.0 == latest(rest);
        assert(entries[k] == rest[k]);
        assert(entries[entries.len() - 1] == entries.last());
    }
}

/// The answer on one change: an object that was removed is answered with 404.
pub open spec fn change_view(pf: Propfind, name: Seq<char>, e: SyncEntry) -> ResponseView {
    if e.deleted {
        missing_view(object_path(name, e.uid@))
    } else {
        resource_view(pf, object_path(name, e.uid@), e.etag@, None)
    }
}

/// The answers on the changes, in their order.
pub fn sync_responses(pf: &Propfind, name: &str, entries: &Vec<SyncEntry>) -> (r: Vec<
    MultiResponse,
>)
    ensures
        r.deep_view() == entries@.map_values(|e: SyncEntry| change_view(*pf, name@, e)),
{
    let ghost all = entries@.map_values(|e: SyncEntry| change_view(*pf, name@, e));
    let mut out: Vec<MultiResponse> = Vec::new();
    assert(out.deep_view() =~= all.take(0));
    let mut i: usize = 0;
    while i < entries.len()
        invariant
            all == entries@.map_values(|e: SyncEntry| change_view(*pf, name@, e)),
            i <= entries@.len(),
            out.deep_view() == all.take(i as int),
        decreases entries@.len() - i,
    {
        let ghost mid = out.deep_view();
        let href = object_href(name, entries[i].uid.as_str());
        let answer = if entries[i].deleted {
            missing_response(href)
        } else {
            resource_response(pf, href, entries[i].etag.as_str(), None)
        };
        add_response(&mut out, answer);
        proof {
            assert(all[i as int] == out.deep_view().last());
            assert(mid.push(all[i as int]) =~= all.take(i + 1));
        }
        i = i + 1;
    }
    assert(all.take(i as int) =~= all);
    out
}

/// An answer that refuses a request.
#[derive(Debug)]
pub struct Refusal {
    pub status: u16,
    pub message: String,
}

#[verifier::ext_equal]
pub ghost struct RefusalView {
    pub status: u16,
    pub message: Seq<char>,
}

impl DeepView for Refusal {
    type V = RefusalView;

    open spec fn deep_view(&self) -> RefusalView {
        RefusalView { status: self.status, message: self.message@ }
    }
}

fn refusal(status: u16, message: &str) -> (r: Refusal)
    ensures
        r.deep_view() == (RefusalView { status, message: message@ }),
{
    Refusal { status, message: text::owned(message) }
}

/// A report that a client asks for, with what was found for it.
#[derive(Debug)]
pub enum CollectionReport {
    /// Given objects.
    Multiget { hrefs: Vec<AskedHref>, rows: Vec<StoredObject> },
    /// Objects in a range of time.
    Query { rows: Vec<StoredObject> },
    /// The changes since an earlier state, at most `limit` of them.
    Sync { entries: Vec<SyncEntry>, limit: u32 },
    /// A report of another sort.
    Unsupported,
}

/// The answer to a report.
#[derive(Debug)]
pub struct ReportAnswer {
    pub responses: Vec<MultiResponse>,
    /// The mark from which the next synchronisation goes on.
    pub sync_token: Option<String>,
}

/// What a report says: the responses, and the mark of a synchronisation.
pub open spec fn report_of(pf: Propfind, cal: Calendar, report: CollectionReport) -> Result<
    (Seq<ResponseView>, Option<Seq<char>>),
    RefusalView,
> {
    match report {
        CollectionReport::Multiget { hrefs, rows } => Ok(
            (hrefs@.map_values(|a: AskedHref| asked_view(pf, rows@, a)), None),
        ),
        CollectionReport::Query { rows } => Ok((object_views(pf, cal.name@, rows@, true), None)),
        CollectionReport::Sync { entries, limit } => Ok(
            (
                entries@.map_values(|e: SyncEntry| change_view(pf, cal.name@, e)),
                Some(sync_token(next_state(entries@, limit, cal.updated_at))),
            ),
        ),
        CollectionReport::Unsupported => Err(
            RefusalView { status: 400, message: "unsupported report"@ },
        ),
    }
}

/// Answers a report on a calendar.
pub fn report_collection(pf: &Propfind, cal: &Calendar, report: &CollectionReport) -> (r: Result<
    ReportAnswer,
    Refusal,
>)
    ensures
        match report_of(*pf, *cal, *report) {
            Ok(v) => r matches Ok(a) && a.responses.deep_view() == v.0 && a.sync_token.deep_view()
                == v.1,
            Err(v) => r matches Err(e) && e.deep_view() == v,
        },
{
    match report {
        CollectionReport::Multiget { hrefs, rows } => {
            let responses = multiget_responses(pf, hrefs, rows);
            Ok(ReportAnswer { responses, sync_token: None })
        },
        CollectionReport::Query { rows } => {
            let responses = query_responses(pf, cal.name.as_str(), rows);
            Ok(ReportAnswer { responses, sync_token: None })
        },
        CollectionReport::Sync { entries, limit } => {
            let token = encode_sync_token(sync_state(entries, *limit, cal.updated_at));
            let responses = sync_responses(pf, cal.name.as_str(), entries);
            Ok(ReportAnswer { responses, sync_token: Some(token) })
        },
        CollectionReport::Unsupported => Err(refusal(400, "unsupported report")),
    }
}

/// What a request is about, by its method.
#[derive(Debug, Clone, Copy, PartialEq, Eq, Structural)]
pub enum Task {
    Options,
    Propfind,
    Report,
    Get,
    Head,
    Put,
    Delete,
}

/// Whether a route is a given task or refusal.
pub open spec fn is_route(r: Result<Task, Refusal>, expected: Result<Task, RefusalView>) -> bool {
    match r {
        Ok(t) => expected == Ok::<Task, RefusalView>(t),
        Err(e) => expected == Err::<Task, RefusalView>(e.deep_view()),
    }
}

/// What is done at the place where the calendars stand.
pub fn home_route(method: &str) -> (r: Result<Task, Refusal>)
    ensures
        is_route(
            r,
            if method@ == "OPTIONS"@ {
                Ok(Task::Options)
            } else if method@ == "PROPFIND"@ {
                Ok(Task::Propfind)
            } else {
                Err(RefusalView { status: 405, message: "method not allowed"@ })
            },
        ),
{
    if text::same(method, "OPTIONS") {
        Ok(Task::Options)
    } else if text::same(method, "PROPFIND") {
        Ok(Task::Propfind)
    } else {
        Err(refusal(405, "method not allowed"))
    }
}

/// What is done at a calendar. `name` is its decoded name; nothing where that failed.
pub fn collection_route(name: Option<&str>, method: &str, known: bool) -> (r: Result<
    Task,
    Refusal,
>)
    ensures
        is_route(
            r,
            if name is None {
                Err(RefusalView { status: 400, message: "invalid URL encoding"@ })
            } else if method@ == "OPTIONS"@ {
                Ok(Task::Options)
            } else if !known {
                Err(RefusalView { status: 404, message: "no such calendar"@ })
            } else if method@ == "PROPFIND"@ {
                Ok(Task::Propfind)
            } else if method@ == "REPORT"@ {
                Ok(Task::Report)
            } else if method@ == "MKCOL"@ || method@ == "MKCALENDAR"@ {
                Err(RefusalView { status: 405, message: "already exists"@ })
            } else {
                Err(RefusalView { status: 405, message: "method not allowed"@ })
            },
        ),
{
    if name.is_none() {
        Err(refusal(400, "invalid URL encoding"))
    } else if text::same(method, "OPTIONS") {
        Ok(Task::Options)
    } else if !known {
        Err(refusal(404, "no such calendar"))
    } else if text::same(method, "PROPFIND") {
        Ok(Task::Propfind)
    } else if text::same(method, "REPORT") {
        Ok(Task::Report)
    } else if text::same(method, "MKCOL") || text::same(method, "MKCALENDAR") {
        Err(refusal(405, "already exists"))
    } else {
        Err(refusal(405, "method not allowed"))
    }
}

/// What is done at an object. `name` and `file` are the decoded names of the calendar and the
/// object; nothing where that failed.
pub fn resource_route(name: Option<&str>, file: Option<&str>, method: &str, known: bool) -> (r:
    Result<Task, Refusal>)
    ensures
        is_route(
            r,
            if name is None || file is None {
                Err(RefusalView { status: 400, message: "invalid URL encoding"@ })
            } else if method@ == "OPTIONS"@ {
                Ok(Task::Options)
            } else if uid_of(file.deep_view()) is None {
                Err(RefusalView { status: 404, message: "only .ics resources are supported"@ })
            } else if !known {
                Err(RefusalView { status: 404, message: "no such calendar"@ })
            } else if method@ == "GET"@ {
                Ok(Task::Get)
            } else if method@ == "HEAD"@ {
                Ok(Task::Head)
            } else if method@ == "PUT"@ {
                Ok(Task::Put)
            } else if method@ == "DELETE"@ {
                Ok(Task::Delete)
            } else {
                Err(RefusalView { status: 405, message: "method not allowed"@ })
            },
        ),
{
    if name.is_none() || file.is_none() {
        return Err(refusal(400, "invalid URL encoding"));
    }
    if text::same(method, "OPTIONS") {
        return Ok(Task::Options);
    }
    if resource_uid(file).is_none() {
        return Err(refusal(404, "only .ics resources are supported"));
    }
    if !known {
        return Err(refusal(404, "no such calendar"));
    }
    if text::same(method, "GET") {
        Ok(Task::Get)
    } else if text::same(method, "HEAD") {
        Ok(Task::Head)
    } else if text::same(method, "PUT") {
        Ok(Task::Put)
    } else if text::same(method, "DELETE") {
        Ok(Task::Delete)
    } else {
        Err(refusal(405, "method not allowed"))
    }
}

/// What a client's store of an object comes to: the searchable part of the object, the changed
/// occurrences that get rows of their own, and the status of the answer.
#[derive(Debug)]
pub struct PutPlan {
    pub extracted: CalendarObjectExtracted,
    pub overrides: Vec<CalendarObjectInput>,
    pub status: u16,
}

#[verifier::ext_equal]
pub ghost struct PutView {
    pub extracted: ExtractedView,
    pub overrides: Seq<ObjectView>,
    pub status: u16,
}

impl DeepView for PutPlan {
    type V = PutView;

    open spec fn deep_view(&self) -> PutView {
        PutView {
            extracted: self.extracted.deep_view(),
            overrides: self.overrides.deep_view(),
            status: self.status,
        }
    }
}

/// Whether a component is a changed occurrence of an object: it has the object's identifier or
/// none.
pub open spec fn is_override(o: ObjectView, uid: Seq<char>) -> bool {
    o.recurrence_id is Some && (o.uid is None || o.uid == Some(uid))
}

/// The changed occurrences of an object, under its identifier and in their order.
pub open spec fn overrides_of(all: Seq<ObjectView>, uid: Seq<char>) -> Seq<ObjectView>
    decreases all.len(),
{
    if all.len() == 0 {
        Seq::empty()
    } else {
        let before = overrides_of(all.drop_last(), uid);
        if is_override(all.last(), uid) {
            before.push(ObjectView { uid: Some(uid), ..all.last() })
        } else {
            before
        }
    }
}

fn pick_overrides(all: Vec<CalendarObjectInput>, uid: &str) -> (r: Vec<CalendarObjectInput>)
    ensures
        r.deep_view() == overrides_of(all.deep_view(), uid@),
{
    let ghost views = all.deep_view();
    let mut out: Vec<CalendarObjectInput> = Vec::new();
    assert(out.deep_view() =~= overrides_of(views.take(0), uid@));
    for o in it: all
        invariant
            it.seq() == all@,
            views == all.deep_view(),
            out.deep_view() == overrides_of(views.take(it.index() as int), uid@),
    {
        let ghost n = it.index() as int;
        let ghost ov = o.deep_view();
        let ghost before = out.deep_view();
        proof {
            assert(ov == views[n]);
            assert(views.take(n + 1).drop_last() =~= views.take(n));
            assert(views.take(n + 1).last() == ov);
        }
        let own = match &o.uid {
            Some(u) => text::same(u.as_str(), uid),
            None => true,
        };
        if o.recurrence_id.is_some() && own {
            let mut o = o;
            o.uid = Some(text::owned(uid));
            assert(o.deep_view() =~= (ObjectView { uid: Some(uid@), ..ov }));
            out.push(o);
            assert(out.deep_view() =~= before.push(o.deep_view()));
        }
    }
    assert(views.take(views.len() as int) =~= views);
    out
}

/// The message for an object whose identifier is not that of its address.
pub open spec fn uid_conflict(found: Seq<char>, uid: Seq<char>) -> Seq<char> {
    "UID in iCalendar ("@ + found + ") does not match URL UID ("@ + uid + ")"@
}

/// What a client's store of an object comes to. `current` is the entity tag of the object that
/// is there; it and `if_match` come without their quotes. A client that wants to create only is
/// refused where the object exists, one that wants to replace a given state where it has
/// another. The calendar must hold an event or a task whose identifier is that of the address.
pub open spec fn put_outcome(
    if_none_match: Option<Seq<char>>,
    if_match: Option<Seq<char>>,
    current: Option<Seq<char>>,
    lines: Seq<LineView>,
    uid: Seq<char>,
) -> Result<PutView, RefusalView> {
    if current is Some && if_none_match is Some && trimmed(if_none_match->Some_0) == "*"@ {
        Err(RefusalView { status: 412, message: "resource already exists"@ })
    } else if current is Some && if_match is Some && if_match != current {
        Err(RefusalView { status: 412, message: "etag mismatch"@ })
    } else {
        match primary(reading(lines, false).done) {
            None => Err(RefusalView { status: 400, message: "malformed iCalendar"@ }),
            Some(c) => if c.uid is Some && c.uid != Some(uid) {
                Err(RefusalView { status: 409, message: uid_conflict(c.uid->Some_0, uid) })
            } else {
                Ok(
                    PutView {
                        extracted: extracted(c),
                        overrides: overrides_of(
                            masters_first(reading(lines, true).done).map_values(
                                |c: ComponentView| input_of(c),
                            ),
                            uid,
                        ),
                        status: if current is Some {
                            204
                        } else {
                            201
                        },
                    },
                )
            },
        }
    }
}

/// Decides on a client's store of an object.
pub fn put_resource(
    if_none_match: Option<&str>,
    if_match: Option<&str>,
    current: Option<&str>,
    lines: &Vec<ContentLine>,
    uid: &str,
) -> (r: Result<PutPlan, Refusal>)
    ensures
        match put_outcome(
            if_none_match.deep_view(),
            if_match.deep_view(),
            current.deep_view(),
            lines.deep_view(),
            uid@,
        ) {
            Ok(p) => r matches Ok(plan) && plan.deep_view() == p,
            Err(v) => r matches Err(e) && e.deep_view() == v,
        },
{
    if let Some(cur) = current {
        if let Some(inm) = if_none_match {
            let t = text::trim(inm);
            if text::same(t.as_str(), "*") {
                return Err(refusal(412, "resource already exists"));
            }
        }
        if let Some(im) = if_match {
            if !text::same(im, cur) {
                return Err(refusal(412, "etag mismatch"));
            }
        }
    }
    let (x, found) = match ical::parse(lines) {
        Some((x, found, _)) => (x, found),
        None => {
            return Err(refusal(400, "malformed iCalendar"));
        },
    };
    if let Some(f) = found {
        if !text::same(f.as_str(), uid) {
            let mut m = text::owned("UID in iCalendar (");
            m.append(f.as_str());
            m.append(") does not match URL UID (");
            m.append(uid);
            m.append(")");
            return Err(Refusal { status: 409, message: m });
        }
    }
    let (all, _) = ical::parse_all_to_inputs(lines);
    let overrides = pick_overrides(all, uid);
    let status: u16 = if current.is_some() { 204 } else { 201 };
    Ok(PutPlan { extracted: x, overrides, status })
}

/// A client that wants to create an object never replaces one, and one that wants to replace a
/// given state never replaces another.
pub proof fn law_preconditions_hold(
    if_none_match: Option<Seq<char>>,
    if_match: Option<Seq<char>>,
    current: Option<Seq<char>>,
    lines: Seq<LineView>,
    uid: Seq<char>,
)
    requires
        put_outcome(if_none_match, if_match, current, lines, uid) is Ok,
    ensures
        if_none_match == Some("*"@) ==> current is None,
        if_match is Some && current is Some ==> if_match == current,
{
    if if_none_match == Some("*"@) {
        reveal_strlit("*");
        assert("*"@.len() == 1 && "*"@[0] == '*');
        assert(trimmed("*"@) == "*"@);
    }
}

/// What comes of removing an object, by the status of the answer.
pub fn delete_outcome(outcome: Result<(), Error>) -> (r: Result<u16, Refusal>)
    ensures
        match outcome {
            Ok(()) => r == Ok::<u16, Refusal>(204),
            Err(Error::NotFound) => r matches Err(e) && e.deep_view() == (RefusalView {
                status: 404,
                message: "not found"@,
            }),
            Err(_) => r matches Err(e) && e.deep_view() == (RefusalView {
                status: 500,
                message: "db error"@,
            }),
        },
{
    match outcome {
        Ok(()) => Ok(204),
        Err(Error::NotFound) => Err(refusal(404, "not found")),
        Err(_) => Err(refusal(500, "db error")),
    }
}

/// The place to which a client that looks for calendars is sent.
pub fn well_known_location(id_tag: &str) -> (r: String)
    ensures
        r@ == "https://cl-o."@ + id_tag@ + "/dav/principal/"@,
{
    let mut r = text::owned("https://cl-o.");
    r.append(id_tag);
    r.append("/dav/principal/");
    r
}

} // verus!
