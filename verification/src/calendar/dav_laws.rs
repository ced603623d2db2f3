//! What the answers over CalDAV tell of the calendars and objects on record, and what becomes of
//! what a client stores.
use crate::calendar::caldav::{
    asked_uids, collection_href, collection_response, collection_route, delete_outcome, depth,
    encode_sync_token, home_responses, last_segment, home_route, matches_prop, multiget_responses, multiget_uids,
    object_href, propfind_collection, put_resource, query_range, query_responses,
    report_collection, resource_response, resource_route, resource_uid, sync_limit, sync_responses,
    sync_since, sync_state, uid_of, well_known_location, AskedHref, CollectionReport, MultiResponse, Namespace, Piece,
    PieceView, PropName, Propfind, PutPlan, Refusal, ReportAnswer, ResponseView, StoredObject,
    SyncEntry, Task,
};
use crate::calendar::caldav;
use crate::calendar::ical::{entries_in, input_of, masters_first, parse, reading, ComponentView, ContentLine};
use crate::calendar::time::parse_caldav_dt;
use crate::calendar::types::{Calendar, CalendarObjectExtracted, CalendarView};
use crate::text::{split_on, trimmed};
use crate::types::{Error, Timestamp};
use vstd::prelude::*;

verus! {

/// Whether a search asks for a property: for all of them, or by its name.
pub open spec fn asks(pf: Propfind, ns: Namespace, local: Seq<char>) -> bool {
    pf is AllProp || pf is PropName || (pf matches Propfind::Prop(list) && exists|i: int|
        0 <= i < list@.len() && (#[trigger] list@[i]).ns == ns && list@[i].local@ == local)
}

/// Whether an answer holds a value in an element.
#[verifier::opaque]
pub open spec fn holds(
    props: Seq<PieceView>,
    open: Seq<char>,
    value: PieceView,
    close: Seq<char>,
) -> bool {
    exists|k: int|
        0 < k < props.len() - 1 && #[trigger] props[k] == value && props[k - 1]
            == PieceView::Markup(open) && props[k + 1] == PieceView::Markup(close)
}

/// Whether an answer tells of an object with this entity tag and, where it is handed out, this
/// text. What is told is what was asked for: the entity tag, the text, the type of the resource and
/// the type of the content.
pub open spec fn tells_of(
    pf: Propfind,
    r: ResponseView,
    etag: Seq<char>,
    text: Option<Seq<char>>,
) -> bool {
    &&& r.status is None
    &&& forall|k: int|
        0 <= k < r.props.len() && (#[trigger] r.props[k]) is Etag ==> r.props[k]
            == PieceView::Etag(etag)
    &&& forall|k: int|
        0 <= k < r.props.len() && (#[trigger] r.props[k]) is Xml ==> text is Some && r.props[k]
            == PieceView::Xml(text->0)
    &&& asks(pf, Namespace::Dav, "getetag"@) ==> holds(
        r.props,
        "<d:getetag>"@,
        PieceView::Etag(etag),
        "</d:getetag>"@,
    )
    &&& !asks(pf, Namespace::Dav, "getetag"@) ==> !r.props.contains(PieceView::Etag(etag))
    &&& asks(pf, Namespace::CalDav, "calendar-data"@) && text is Some ==> holds(
        r.props,
        "<cal:calendar-data>"@,
        PieceView::Xml(text->0),
        "</cal:calendar-data>"@,
    )
    &&& !asks(pf, Namespace::CalDav, "calendar-data"@) ==> forall|k: int|
        0 <= k < r.props.len() ==> !((#[trigger] r.props[k]) is Xml)
    &&& asks(pf, Namespace::Dav, "resourcetype"@) ==> r.props.contains(
        PieceView::Markup("<d:resourcetype/>"@),
    )
    &&& asks(pf, Namespace::Dav, "getcontenttype"@) ==> r.props.contains(
        PieceView::Markup(
            "<d:getcontenttype>text/calendar; charset=utf-8; component=vevent</d:getcontenttype>"@,
        ),
    )
}

/// Whether an answer says that there is no such object: with 404 and nothing else.
pub open spec fn tells_of_none(r: ResponseView) -> bool {
    r.status == Some(404u16) && r.props.len() == 0
}

/// Whether an address is that of an object: its calendar's, and its identifier with `.ics` after
/// it.
pub open spec fn leads_to(href: Seq<PieceView>, name: Seq<char>, uid: Seq<char>) -> bool {
    &&& href.len() == 4
    &&& href[0] == PieceView::Markup("/dav/calendars/"@)
    &&& href[1] == PieceView::Path(name)
    &&& href[2] == PieceView::Markup("/"@)
    &&& href[3] == PieceView::Path(uid + ".ics"@)
}

/// A search asks for a property where it asks for all of them or names it.
pub proof fn law_searches_ask_for_what_they_name(
    pf: &Propfind,
    ns: Namespace,
    local: &str,
    r: bool,
)
    requires
        call_ensures(matches_prop, (pf, ns, local), r),
    ensures
        r <==> asks(*pf, ns, local@),
{
}

proof fn lemma_tells_of(pf: Propfind, href: Seq<PieceView>, etag: Seq<char>, text: Option<Seq<char>>)
    ensures
        tells_of(pf, caldav::resource_view(pf, href, etag, text), etag, text),
{
    reveal(holds);
    let r = caldav::resource_view(pf, href, etag, text);
    let a = caldav::when(
        caldav::wants(pf, Namespace::Dav, "resourcetype"@),
        caldav::markup("<d:resourcetype/>"@),
    );
    let b = caldav::when(
        caldav::wants(pf, Namespace::Dav, "getetag"@),
        seq![
            PieceView::Markup("<d:getetag>"@),
            PieceView::Etag(etag),
            PieceView::Markup("</d:getetag>"@),
        ],
    );
    let content =
        "<d:getcontenttype>text/calendar; charset=utf-8; component=vevent</d:getcontenttype>"@;
    let c = caldav::when(
        caldav::wants(pf, Namespace::Dav, "getcontenttype"@),
        caldav::markup(content),
    );
    let d = caldav::when(
        caldav::wants(pf, Namespace::CalDav, "calendar-data"@),
        caldav::opt_element("<cal:calendar-data>"@, text, "</cal:calendar-data>"@),
    );
    assert(r.props == a + b + c + d);
    if asks(pf, Namespace::Dav, "getetag"@) {
        assert(r.props[a.len() as int + 1] == PieceView::Etag(etag));
    }
    if asks(pf, Namespace::CalDav, "calendar-data"@) && text is Some {
        assert(r.props[(a.len() + b.len() + c.len()) as int + 1] == PieceView::Xml(text->0));
    }
    if asks(pf, Namespace::Dav, "resourcetype"@) {
        assert(r.props[0] == PieceView::Markup("<d:resourcetype/>"@));
    }
    if asks(pf, Namespace::Dav, "getcontenttype"@) {
        assert(r.props[(a.len() + b.len()) as int] == PieceView::Markup(content));
    }
}

/// The answer on an object tells of the object: its entity tag, and its text where it is handed
/// out, as far as they were asked for.
pub proof fn law_answers_tell_of_their_object(
    pf: &Propfind,
    href: Vec<Piece>,
    etag: &str,
    body: Option<&str>,
    r: MultiResponse,
)
    requires
        call_ensures(resource_response, (pf, href, etag, body), r),
    ensures
        r.deep_view().href == href.deep_view(),
        tells_of(*pf, r.deep_view(), etag@, body.deep_view()),
{
    lemma_tells_of(*pf, href.deep_view(), etag@, body.deep_view());
}

/// The answer to a synchronisation tells, for each change and in their order, the address of the
/// object, and of an object that was not removed the entity tag on record for it; an object that was
/// removed is answered with 404.
pub proof fn law_sync_tells_the_tag_on_record(
    pf: &Propfind,
    name: &str,
    entries: &Vec<SyncEntry>,
    r: Vec<MultiResponse>,
)
    requires
        call_ensures(sync_responses, (pf, name, entries), r),
    ensures
        r@.len() == entries@.len(),
        forall|i: int|
            0 <= i < entries@.len() ==> {
                let a = (#[trigger] r@[i]).deep_view();
                &&& leads_to(a.href, name@, entries@[i].uid@)
                &&& entries@[i].deleted ==> tells_of_none(a)
                &&& !entries@[i].deleted ==> tells_of(*pf, a, entries@[i].etag@, None)
            },
{
    assert(r.deep_view().len() == r@.len());
    assert forall|i: int| 0 <= i < entries@.len() implies {
        let a = (#[trigger] r@[i]).deep_view();
        &&& leads_to(a.href, name@, entries@[i].uid@)
        &&& entries@[i].deleted ==> tells_of_none(a)
        &&& !entries@[i].deleted ==> tells_of(*pf, a, entries@[i].etag@, None)
    } by {
        let a = r@[i].deep_view();
        assert(r.deep_view()[i] == a);
        assert(a == caldav::change_view(*pf, name@, entries@[i]));
        lemma_tells_of(*pf, caldav::object_path(name@, entries@[i].uid@), entries@[i].etag@, None);
    }
}

/// A property search at a calendar answers first on the calendar and then, unless it stays at the
/// surface, on each object on record and in their order: with its address and its entity tag.
pub proof fn law_search_tells_the_tag_on_record(
    pf: &Propfind,
    depth: u8,
    cal: &Calendar,
    rows: &Vec<StoredObject>,
    r: Vec<MultiResponse>,
    c: MultiResponse,
)
    requires
        call_ensures(propfind_collection, (pf, depth, cal, rows), r),
        call_ensures(collection_response, (pf, cal), c),
    ensures
        r@.len() == if depth == 0 {
            1
        } else {
            1 + rows@.len()
        },
        r@[0].deep_view() == c.deep_view(),
        forall|i: int|
            depth > 0 && 0 <= i < rows@.len() ==> leads_to(
                (#[trigger] r@[i + 1]).deep_view().href,
                cal.name@,
                rows@[i].uid@,
            ) && tells_of(*pf, r@[i + 1].deep_view(), rows@[i].etag@, None),
{
    assert(r.deep_view().len() == r@.len());
    assert(r.deep_view()[0] == r@[0].deep_view());
    assert forall|i: int| depth > 0 && 0 <= i < rows@.len() implies leads_to(
        (#[trigger] r@[i + 1]).deep_view().href,
        cal.name@,
        rows@[i].uid@,
    ) && tells_of(*pf, r@[i + 1].deep_view(), rows@[i].etag@, None) by {
        assert(r.deep_view()[i + 1] == r@[i + 1].deep_view());
        assert(r.deep_view()[i + 1] == caldav::object_views(*pf, cal.name@, rows@, false)[i]);
        lemma_tells_of(*pf, caldav::object_path(cal.name@, rows@[i].uid@), rows@[i].etag@, None);
    }
}

/// A search by time answers on each object that was found, in their order, with its address, its
/// entity tag and its text.
pub proof fn law_query_tells_the_tag_on_record(
    pf: &Propfind,
    name: &str,
    rows: &Vec<StoredObject>,
    r: Vec<MultiResponse>,
)
    requires
        call_ensures(query_responses, (pf, name, rows), r),
    ensures
        r@.len() == rows@.len(),
        forall|i: int|
            0 <= i < rows@.len() ==> leads_to(
                (#[trigger] r@[i]).deep_view().href,
                name@,
                rows@[i].uid@,
            ) && tells_of(*pf, r@[i].deep_view(), rows@[i].etag@, Some(rows@[i].ical@)),
{
    assert(r.deep_view().len() == r@.len());
    assert forall|i: int| 0 <= i < rows@.len() implies leads_to(
        (#[trigger] r@[i]).deep_view().href,
        name@,
        rows@[i].uid@,
    ) && tells_of(*pf, r@[i].deep_view(), rows@[i].etag@, Some(rows@[i].ical@)) by {
        assert(r.deep_view()[i] == r@[i].deep_view());
        assert(r.deep_view()[i] == caldav::object_views(*pf, name@, rows@, true)[i]);
        lemma_tells_of(
            *pf,
            caldav::object_path(name@, rows@[i].uid@),
            rows@[i].etag@,
            Some(rows@[i].ical@),
        );
    }
}

proof fn lemma_row_place(rows: Seq<StoredObject>, uid: Seq<char>)
    ensures
        match caldav::row_place(rows, uid) {
            Some(i) => 0 <= i < rows.len() && rows[i].uid@ == uid,
            None => forall|i: int| 0 <= i < rows.len() ==> (#[trigger] rows[i]).uid@ != uid,
        },
    decreases rows.len(),
{
    if rows.len() > 0 && rows.last().uid@ != uid {
        let rest = rows.drop_last();
        lemma_row_place(rest, uid);
        if caldav::row_place(rows, uid) is None {
            assert forall|i: int| 0 <= i < rows.len() implies (#[trigger] rows[i]).uid@ != uid by {
                if i < rows.len() - 1 {
                    assert(rest[i].uid@ != uid);
                }
            }
        }
    }
}

proof fn lemma_file(uid: Seq<char>)
    ensures
        uid_of(Some(uid + ".ics"@)) == Some(uid),
{
    reveal_strlit(".ics");
    let f = uid + ".ics"@;
    assert(f.skip(f.len() - ".ics"@.len()) =~= ".ics"@);
    assert(f.take(f.len() - ".ics"@.len()) =~= uid);
}

/// The file name of an object stands for the object, and a name without `.ics` at its end for
/// none.
pub proof fn law_file_names_lead_back(uid: Seq<char>, file: &str, r: Option<String>)
    requires
        call_ensures(resource_uid, (Some(file),), r),
    ensures
        file@ == uid + ".ics"@ ==> (r matches Some(u) && u@ == uid),
        r matches Some(u) ==> file@ == u@ + ".ics"@,
{
    lemma_file(uid);
    assert(Some(file).deep_view() == Some(file@));
    if let Some(u) = r {
        reveal_strlit(".ics");
        assert(file@ =~= u@ + ".ics"@);
    }
}

/// A request for given objects is answered for each address and in their order, under the
/// address as it was asked. An address that ends in the file name of an object on record is
/// answered with the entity tag and the text of an object of that identifier; one of an object
/// that is not on record, or of no object at all, with 404.
pub proof fn law_multiget_tells_the_tag_on_record(
    pf: &Propfind,
    hrefs: &Vec<AskedHref>,
    rows: &Vec<StoredObject>,
    r: Vec<MultiResponse>,
    i: int,
    uid: Seq<char>,
)
    requires
        call_ensures(multiget_responses, (pf, hrefs, rows), r),
        0 <= i < hrefs@.len(),
    ensures
        r@.len() == hrefs@.len(),
        r@[i].deep_view().href == seq![PieceView::Markup(hrefs@[i].href@)],
        hrefs@[i].file is None ==> tells_of_none(r@[i].deep_view()),
        (hrefs@[i].file matches Some(f) && f@ == uid + ".ics"@) ==> if exists|j: int|
            0 <= j < rows@.len() && (#[trigger] rows@[j]).uid@ == uid {
            exists|j: int|
                0 <= j < rows@.len() && (#[trigger] rows@[j]).uid@ == uid && tells_of(
                    *pf,
                    r@[i].deep_view(),
                    rows@[j].etag@,
                    Some(rows@[j].ical@),
                )
        } else {
            tells_of_none(r@[i].deep_view())
        },
{
    assert(r.deep_view().len() == r@.len());
    assert(r.deep_view()[i] == r@[i].deep_view());
    let a = hrefs@[i];
    assert(r@[i].deep_view() == caldav::asked_view(*pf, rows@, a));
    lemma_file(uid);
    lemma_row_place(rows@, uid);
    if a.file is Some && a.file->0@ == uid + ".ics"@ {
        assert(a.file.deep_view() == Some(a.file->0@));
        if let Some(j) = caldav::row_place(rows@, uid) {
            assert(rows@[j].uid@ == uid);
            lemma_tells_of(
                *pf,
                caldav::markup(a.href@),
                rows@[j].etag@,
                Some(rows@[j].ical@),
            );
        }
    }
}

/// The entity tag that a synchronisation tells for an object that was not removed is the one that a
/// property search, a search by time and a request for the object tell for it, where they find the
/// object as it was at the synchronisation.
pub proof fn law_entity_tags_agree(
    pf: &Propfind,
    cal: &Calendar,
    entries: &Vec<SyncEntry>,
    rows: &Vec<StoredObject>,
    hrefs: &Vec<AskedHref>,
    synced: Vec<MultiResponse>,
    searched: Vec<MultiResponse>,
    got: Vec<MultiResponse>,
    i: int,
    j: int,
    h: int,
    tag: Seq<char>,
)
    requires
        call_ensures(propfind_collection, (pf, 1u8, cal, rows), searched),
        call_ensures(multiget_responses, (pf, hrefs, rows), got),
        exists|name: &str|
            name@ == cal.name@ && #[trigger] call_ensures(sync_responses, (pf, name, entries), synced),
        0 <= i < entries@.len(),
        !entries@[i].deleted,
        0 <= j < rows@.len(),
        rows@[j].uid@ == entries@[i].uid@,
        rows@[j].etag@ == entries@[i].etag@,
        forall|k: int|
            0 <= k < rows@.len() && (#[trigger] rows@[k]).uid@ == rows@[j].uid@ ==> k == j,
        0 <= h < hrefs@.len(),
        hrefs@[h].file matches Some(f) && f@ == rows@[j].uid@ + ".ics"@,
    ensures
        synced@[i].deep_view().href == searched@[j + 1].deep_view().href,
        synced@[i].deep_view().props.contains(PieceView::Etag(tag)) <==> searched@[j
            + 1].deep_view().props.contains(PieceView::Etag(tag)),
        synced@[i].deep_view().props.contains(PieceView::Etag(tag)) <==> got@[h].deep_view().props.contains(
            PieceView::Etag(tag)),
        synced@[i].deep_view().props.contains(PieceView::Etag(tag)) ==> tag == rows@[j].etag@,
        asks(*pf, Namespace::Dav, "getetag"@) ==> synced@[i].deep_view().props.contains(
            PieceView::Etag(rows@[j].etag@),
        ),
{
    reveal(holds);
    let name = choose|name: &str|
        name@ == cal.name@ && #[trigger] call_ensures(sync_responses, (pf, name, entries), synced);
    law_sync_tells_the_tag_on_record(pf, name, entries, synced);
    assert(searched.deep_view().len() == searched@.len());
    assert(searched.deep_view()[j + 1] == searched@[j + 1].deep_view());
    assert(searched.deep_view()[j + 1] == caldav::object_views(*pf, cal.name@, rows@, false)[j]);
    lemma_tells_of(*pf, caldav::object_path(cal.name@, rows@[j].uid@), rows@[j].etag@, None);
    law_multiget_tells_the_tag_on_record(pf, hrefs, rows, got, h, rows@[j].uid@);
    let a = synced@[i].deep_view();
    let b = searched@[j + 1].deep_view();
    let d = got@[h].deep_view();
    assert(leads_to(a.href, cal.name@, rows@[j].uid@));
    assert(leads_to(b.href, cal.name@, rows@[j].uid@));
    assert(a.href =~= b.href);
    assert(tells_of(*pf, a, rows@[j].etag@, None));
    assert(tells_of(*pf, b, rows@[j].etag@, None));
    assert(tells_of(*pf, d, rows@[j].etag@, Some(rows@[j].ical@)));
}

/// The answer on a calendar tells what is on record of it, as far as it was asked for: its name, its
/// description, its colour, its time zone, the mark of its contents, and a mark of its state from
/// which a synchronisation goes on at its last change.
pub proof fn law_calendars_are_told_as_on_record(
    pf: &Propfind,
    cal: &Calendar,
    r: MultiResponse,
    token: &str,
    since: Option<Timestamp>,
)
    requires
        call_ensures(collection_response, (pf, cal), r),
        call_ensures(sync_since, (Some(token),), since),
    ensures
        r.status is None,
        r.deep_view().href == seq![
            PieceView::Markup("/dav/calendars/"@),
            PieceView::Path(cal.name@),
            PieceView::Markup("/"@),
        ],
        asks(*pf, Namespace::Dav, "resourcetype"@) ==> r.deep_view().props.contains(
            PieceView::Markup("<d:resourcetype><d:collection/><cal:calendar/></d:resourcetype>"@),
        ),
        asks(*pf, Namespace::Dav, "displayname"@) ==> holds(
            r.deep_view().props,
            "<d:displayname>"@,
            PieceView::Xml(cal.name@),
            "</d:displayname>"@,
        ),
        asks(*pf, Namespace::CalDav, "calendar-description"@) && cal.description is Some ==> holds(
            r.deep_view().props,
            "<cal:calendar-description>"@,
            PieceView::Xml(cal.description->0@),
            "</cal:calendar-description>"@,
        ),
        asks(*pf, Namespace::CalendarServer, "calendar-color"@) && cal.color is Some ==> holds(
            r.deep_view().props,
            "<cs:calendar-color>"@,
            PieceView::Xml(cal.color->0@),
            "</cs:calendar-color>"@,
        ),
        asks(*pf, Namespace::CalDav, "calendar-timezone"@) && cal.timezone is Some ==> holds(
            r.deep_view().props,
            "<cal:calendar-timezone>"@,
            PieceView::Xml(cal.timezone->0@),
            "</cal:calendar-timezone>"@,
        ),
        asks(*pf, Namespace::CalendarServer, "getctag"@) ==> holds(
            r.deep_view().props,
            "<cs:getctag>"@,
            PieceView::Xml(cal.ctag@),
            "</cs:getctag>"@,
        ),
        asks(*pf, Namespace::Dav, "sync-token"@) ==> exists|t: Seq<char>|
            #[trigger] holds(
                r.deep_view().props,
                "<d:sync-token>"@,
                PieceView::Xml(t),
                "</d:sync-token>"@,
            ) && (token@ == t ==> since == Some(cal.updated_at)),
{
    let p = *pf;
    let c = cal.deep_view();
    let v = r.deep_view().props;
    assert(r.deep_view() == caldav::collection_view(p, c));
    lemma_first_props(p, c);
    lemma_next_props(p, c);
    lemma_fixed_props(p, c);
    lemma_marks(p, c);
    assert forall|ns: Namespace, local: Seq<char>| asks(p, ns, local) == #[trigger] caldav::wants(
        p,
        ns,
        local,
    ) by {}
    assert(v == caldav::collection_props(p, c));
    if asks(p, Namespace::Dav, "resourcetype"@) {
        assert(v[0] == PieceView::Markup(
            "<d:resourcetype><d:collection/><cal:calendar/></d:resourcetype>"@,
        ));
    }
    if asks(p, Namespace::Dav, "sync-token"@) {
        let t = caldav::sync_token(c.updated_at.0);
        assert(holds(v, "<d:sync-token>"@, PieceView::Xml(t), "</d:sync-token>"@));
        caldav::law_sync_token_round_trip(c.updated_at.0);
        assert(Some(token).deep_view() == Some(token@));
    }
}

proof fn lemma_kept(props: Seq<PieceView>, more: Seq<PieceView>)
    ensures
        forall|open: Seq<char>, x: PieceView, close: Seq<char>|
            #[trigger] holds(props, open, x, close) ==> holds(props + more, open, x, close),
        props.len() > 0 ==> (props + more).len() > 0 && (props + more)[0] == props[0],
{
    reveal(holds);
    let all = props + more;
    assert forall|open: Seq<char>, x: PieceView, close: Seq<char>| #[trigger]
        holds(props, open, x, close) implies holds(all, open, x, close) by {
        let k = choose|k: int|
            0 < k < props.len() - 1 && #[trigger] props[k] == x && props[k - 1]
                == PieceView::Markup(open) && props[k + 1] == PieceView::Markup(close);
        assert(all[k] == x);
    }
}

proof fn lemma_element(props: Seq<PieceView>, open: Seq<char>, x: Seq<char>, close: Seq<char>)
    ensures
        holds(props + caldav::element(open, x, close), open, PieceView::Xml(x), close),
{
    reveal(holds);
    let all = props + caldav::element(open, x, close);
    assert(all[props.len() as int + 1] == PieceView::Xml(x));
}

/// The first properties of a calendar.
#[verifier::opaque]
spec fn first_props(p: Propfind, c: CalendarView) -> Seq<PieceView> {
    caldav::when(
        caldav::wants(p, Namespace::Dav, "resourcetype"@),
        caldav::markup("<d:resourcetype><d:collection/><cal:calendar/></d:resourcetype>"@),
    ) + caldav::when(
        caldav::wants(p, Namespace::Dav, "displayname"@),
        caldav::opt_element("<d:displayname>"@, Some(c.name), "</d:displayname>"@),
    ) + caldav::when(
        caldav::wants(p, Namespace::CalDav, "calendar-description"@),
        caldav::opt_element(
            "<cal:calendar-description>"@,
            c.description,
            "</cal:calendar-description>"@,
        ),
    )
}

proof fn lemma_first_props(p: Propfind, c: CalendarView)
    ensures
        caldav::wants(p, Namespace::Dav, "resourcetype"@) ==> first_props(p, c).len() > 0
            && first_props(p, c)[0] == PieceView::Markup(
            "<d:resourcetype><d:collection/><cal:calendar/></d:resourcetype>"@,
        ),
        caldav::wants(p, Namespace::Dav, "displayname"@) ==> holds(
            first_props(p, c),
            "<d:displayname>"@,
            PieceView::Xml(c.name),
            "</d:displayname>"@,
        ),
        caldav::wants(p, Namespace::CalDav, "calendar-description"@) && c.description is Some ==> holds(
            first_props(p, c),
            "<cal:calendar-description>"@,
            PieceView::Xml(c.description->0),
            "</cal:calendar-description>"@,
        ),
{
    reveal(first_props);
    let p1 = caldav::when(
        caldav::wants(p, Namespace::Dav, "resourcetype"@),
        caldav::markup("<d:resourcetype><d:collection/><cal:calendar/></d:resourcetype>"@),
    );
    let e2 = caldav::when(
        caldav::wants(p, Namespace::Dav, "displayname"@),
        caldav::opt_element("<d:displayname>"@, Some(c.name), "</d:displayname>"@),
    );
    let e3 = caldav::when(
        caldav::wants(p, Namespace::CalDav, "calendar-description"@),
        caldav::opt_element(
            "<cal:calendar-description>"@,
            c.description,
            "</cal:calendar-description>"@,
        ),
    );
    lemma_kept(p1, e2);
    lemma_kept(p1 + e2, e3);
    lemma_element(p1, "<d:displayname>"@, c.name, "</d:displayname>"@);
    lemma_element(
        p1 + e2,
        "<cal:calendar-description>"@,
        c.description->0,
        "</cal:calendar-description>"@,
    );
}

/// The properties of a calendar behind the first.
#[verifier::opaque]
spec fn next_props(p: Propfind, c: CalendarView) -> Seq<PieceView> {
    first_props(p, c) + caldav::when(
        caldav::wants(p, Namespace::CalendarServer, "calendar-color"@),
        caldav::opt_element("<cs:calendar-color>"@, c.color, "</cs:calendar-color>"@),
    ) + caldav::when(
        caldav::wants(p, Namespace::CalDav, "calendar-timezone"@),
        caldav::opt_element("<cal:calendar-timezone>"@, c.timezone, "</cal:calendar-timezone>"@),
    )
}

proof fn lemma_next_props(p: Propfind, c: CalendarView)
    ensures
        goes_on(first_props(p, c), next_props(p, c)),
        caldav::wants(p, Namespace::CalendarServer, "calendar-color"@) && c.color is Some ==> holds(
            next_props(p, c),
            "<cs:calendar-color>"@,
            PieceView::Xml(c.color->0),
            "</cs:calendar-color>"@,
        ),
        caldav::wants(p, Namespace::CalDav, "calendar-timezone"@) && c.timezone is Some ==> holds(
            next_props(p, c),
            "<cal:calendar-timezone>"@,
            PieceView::Xml(c.timezone->0),
            "</cal:calendar-timezone>"@,
        ),
{
    reveal(next_props);
    let p3 = first_props(p, c);
    let e4 = caldav::when(
        caldav::wants(p, Namespace::CalendarServer, "calendar-color"@),
        caldav::opt_element("<cs:calendar-color>"@, c.color, "</cs:calendar-color>"@),
    );
    let e5 = caldav::when(
        caldav::wants(p, Namespace::CalDav, "calendar-timezone"@),
        caldav::opt_element("<cal:calendar-timezone>"@, c.timezone, "</cal:calendar-timezone>"@),
    );
    lemma_kept(p3, e4);
    lemma_kept(p3 + e4, e5);
    lemma_element(p3, "<cs:calendar-color>"@, c.color->0, "</cs:calendar-color>"@);
    lemma_element(p3 + e4, "<cal:calendar-timezone>"@, c.timezone->0, "</cal:calendar-timezone>"@);
}

/// Whether a chain of pieces holds what its beginning holds.
spec fn goes_on(props: Seq<PieceView>, all: Seq<PieceView>) -> bool {
    &&& forall|open: Seq<char>, x: PieceView, close: Seq<char>|
        #[trigger] holds(props, open, x, close) ==> holds(all, open, x, close)
    &&& props.len() > 0 ==> all.len() > 0 && all[0] == props[0]
}

/// The properties of a calendar but for the marks.
#[verifier::opaque]
spec fn fixed_props(p: Propfind, c: CalendarView) -> Seq<PieceView> {
    next_props(p, c) + caldav::when(
        caldav::wants(p, Namespace::CalDav, "supported-calendar-component-set"@),
        caldav::component_set(c.components),
    ) + caldav::when(
        caldav::wants(p, Namespace::CalDav, "supported-calendar-data"@),
        caldav::markup(
            "<cal:supported-calendar-data><cal:calendar-data content-type=\"text/calendar\" version=\"2.0\"/></cal:supported-calendar-data>"@,
        ),
    ) + caldav::when(
        caldav::wants(p, Namespace::CalDav, "max-resource-size"@),
        caldav::markup("<cal:max-resource-size>1048576</cal:max-resource-size>"@),
    ) + caldav::when(
        caldav::wants(p, Namespace::Dav, "supported-report-set"@),
        caldav::markup(
            "<d:supported-report-set><d:supported-report><d:report><cal:calendar-multiget/></d:report></d:supported-report><d:supported-report><d:report><cal:calendar-query/></d:report></d:supported-report><d:supported-report><d:report><d:sync-collection/></d:report></d:supported-report></d:supported-report-set>"@,
        ),
    )
}

proof fn lemma_four_more(
    props: Seq<PieceView>,
    a: Seq<PieceView>,
    b: Seq<PieceView>,
    c: Seq<PieceView>,
    d: Seq<PieceView>,
)
    ensures
        goes_on(props, props + a + b + c + d),
{
    lemma_kept(props, a);
    lemma_kept(props + a, b);
    lemma_kept(props + a + b, c);
    lemma_kept(props + a + b + c, d);
}

proof fn lemma_fixed_props(p: Propfind, c: CalendarView)
    ensures
        goes_on(next_props(p, c), fixed_props(p, c)),
{
    reveal(fixed_props);
    lemma_four_more(
        next_props(p, c),
        caldav::when(
            caldav::wants(p, Namespace::CalDav, "supported-calendar-component-set"@),
            caldav::component_set(c.components),
        ),
        caldav::when(
            caldav::wants(p, Namespace::CalDav, "supported-calendar-data"@),
            caldav::markup(
                "<cal:supported-calendar-data><cal:calendar-data content-type=\"text/calendar\" version=\"2.0\"/></cal:supported-calendar-data>"@,
            ),
        ),
        caldav::when(
            caldav::wants(p, Namespace::CalDav, "max-resource-size"@),
            caldav::markup("<cal:max-resource-size>1048576</cal:max-resource-size>"@),
        ),
        caldav::when(
            caldav::wants(p, Namespace::Dav, "supported-report-set"@),
            caldav::markup(
                "<d:supported-report-set><d:supported-report><d:report><cal:calendar-multiget/></d:report></d:supported-report><d:supported-report><d:report><cal:calendar-query/></d:report></d:supported-report><d:supported-report><d:report><d:sync-collection/></d:report></d:supported-report></d:supported-report-set>"@,
            ),
        ),
    );
}

proof fn lemma_marks(p: Propfind, c: CalendarView)
    ensures
        goes_on(fixed_props(p, c), caldav::collection_props(p, c)),
        caldav::wants(p, Namespace::CalendarServer, "getctag"@) ==> holds(
            caldav::collection_props(p, c),
            "<cs:getctag>"@,
            PieceView::Xml(c.ctag),
            "</cs:getctag>"@,
        ),
        caldav::wants(p, Namespace::Dav, "sync-token"@) ==> holds(
            caldav::collection_props(p, c),
            "<d:sync-token>"@,
            PieceView::Xml(caldav::sync_token(c.updated_at.0)),
            "</d:sync-token>"@,
        ),
{
    let p9 = fixed_props(p, c);
    let e10 = caldav::when(
        caldav::wants(p, Namespace::CalendarServer, "getctag"@),
        caldav::opt_element("<cs:getctag>"@, Some(c.ctag), "</cs:getctag>"@),
    );
    let token = caldav::sync_token(c.updated_at.0);
    let e11 = caldav::when(
        caldav::wants(p, Namespace::Dav, "sync-token"@),
        caldav::opt_element("<d:sync-token>"@, Some(token), "</d:sync-token>"@),
    );
    assert(caldav::collection_props(p, c) == p9 + e10 + e11) by {
        reveal(first_props);
        reveal(next_props);
        reveal(fixed_props);
    }
    lemma_kept(p9, e10);
    lemma_kept(p9 + e10, e11);
    lemma_element(p9, "<cs:getctag>"@, c.ctag, "</cs:getctag>"@);
    lemma_element(p9 + e10, "<d:sync-token>"@, token, "</d:sync-token>"@);
}

/// Every calendar is told of at the place where the calendars stand, in their order, unless the
/// search stays at the surface.
pub proof fn law_every_calendar_is_told_of(
    pf: &Propfind,
    depth: u8,
    cals: &Vec<Calendar>,
    r: Vec<MultiResponse>,
    i: int,
    c: MultiResponse,
)
    requires
        call_ensures(home_responses, (pf, depth, cals), r),
    ensures
        r@.len() == if depth == 0 {
            1
        } else {
            1 + cals@.len()
        },
        r@[0].status is None,
        r@[0].deep_view().href == seq![PieceView::Markup("/dav/calendars/"@)],
        asks(*pf, Namespace::Dav, "resourcetype"@) ==> r@[0].deep_view().props.contains(
            PieceView::Markup("<d:resourcetype><d:collection/></d:resourcetype>"@),
        ),
        (depth > 0 && 0 <= i < cals@.len() && call_ensures(
            collection_response,
            (pf, &cals@[i]),
            c,
        )) ==> r@[i + 1].deep_view() == c.deep_view(),
{
    assert(r.deep_view().len() == r@.len());
    assert(r.deep_view()[0] == r@[0].deep_view());
    if asks(*pf, Namespace::Dav, "resourcetype"@) {
        assert(r@[0].deep_view().props[0] == PieceView::Markup(
            "<d:resourcetype><d:collection/></d:resourcetype>"@,
        ));
    }
    if depth > 0 && 0 <= i < cals@.len() {
        assert(r.deep_view()[i + 1] == r@[i + 1].deep_view());
        assert(cals.deep_view()[i] == cals@[i].deep_view());
    }
}

/// Only a depth of one, or of infinity, goes below the surface.
pub proof fn law_depths(header: Option<&str>, r: u8)
    requires
        call_ensures(depth, (header,), r),
    ensures
        r >= 1 <==> (header matches Some(h) && (h@ == "1"@ || h@ == "infinity"@)),
        (header matches Some(h) && h@ == "1"@) ==> r == 1,
{
    reveal_strlit("1");
    reveal_strlit("infinity");
    assert("1"@.len() != "infinity"@.len());
}

/// A synchronisation goes on from the state whose mark it is given, and from the beginning with no
/// mark.
pub proof fn law_sync_goes_on_from_its_mark(
    ts: i64,
    mark: String,
    token: &str,
    since: Option<Timestamp>,
    from_start: Option<Timestamp>,
)
    requires
        call_ensures(encode_sync_token, (ts,), mark),
        token@ == mark@,
        call_ensures(sync_since, (Some(token),), since),
        call_ensures(sync_since, (None,), from_start),
    ensures
        since == Some(Timestamp(ts)),
        from_start is None,
{
    caldav::law_sync_token_round_trip(ts);
    assert(Some(token).deep_view() == Some(token@));
}

/// A page of changes holds what was asked for, and never more than a thousand.
pub proof fn law_pages_of_changes(limit: Option<u32>, r: u32)
    requires
        call_ensures(sync_limit, (limit,), r),
    ensures
        r <= 1000,
        limit matches Some(n) ==> r <= n && (n <= 1000 ==> r == n),
        limit is None ==> r == 1000,
{
}

/// The mark that a synchronisation hands out leads on from where it stopped: from the last change
/// of a page that is full, and else from the calendar's own last change or a later one of the
/// page; never from before a change that was handed out.
pub proof fn law_reports_hand_out_the_next_mark(
    pf: &Propfind,
    cal: &Calendar,
    entries: Vec<SyncEntry>,
    limit: u32,
    r: Result<ReportAnswer, Refusal>,
    token: &str,
    since: Option<Timestamp>,
)
    requires
        call_ensures(
            report_collection,
            (pf, cal, &CollectionReport::Sync { entries, limit }),
            r,
        ),
        call_ensures(sync_since, (Some(token),), since),
        r matches Ok(a) && a.sync_token matches Some(t) && t@ == token@,
    ensures
        since is Some,
        forall|i: int| 0 <= i < entries@.len() ==> (#[trigger] entries@[i]).updated_at.0 <= (since->0).0,
        entries@.len() < limit ==> (since->0).0 >= cal.updated_at.0,
        entries@.len() < limit && (forall|i: int|
            0 <= i < entries@.len() ==> (#[trigger] entries@[i]).updated_at.0 <= cal.updated_at.0)
            && cal.updated_at.0 >= 0 ==> since == Some(cal.updated_at),
        0 < entries@.len() && entries@.len() >= limit ==> exists|i: int|
            0 <= i < entries@.len() && (#[trigger] entries@[i]).updated_at.0 == (since->0).0,
{
    caldav::law_sync_goes_forward(entries@, limit, cal.updated_at);
    let n = caldav::next_state(entries@, limit, cal.updated_at);
    caldav::law_sync_token_round_trip(n);
    assert(Some(token).deep_view() == Some(token@));
    let a = r->Ok_0;
    assert(a.sync_token.deep_view() == Some(token@));
    assert(since == Some(Timestamp(n)));
    if entries@.len() < limit && cal.updated_at.0 >= 0 && forall|i: int|
        0 <= i < entries@.len() ==> (#[trigger] entries@[i]).updated_at.0 <= cal.updated_at.0 {
        if entries@.len() > 0 {
            caldav::law_sync_goes_forward(entries@, 0, cal.updated_at);
        }
    }
}

/// A report answers as the request of its sort does: on given objects, on those in a range of
/// time, or on changes; only a synchronisation hands out a mark, and a report of another sort is
/// refused.
pub proof fn law_reports_answer_their_requests(
    pf: &Propfind,
    cal: &Calendar,
    report: CollectionReport,
    r: Result<ReportAnswer, Refusal>,
    name: &str,
    found: Vec<MultiResponse>,
)
    requires
        name@ == cal.name@,
        call_ensures(report_collection, (pf, cal, &report), r),
        report matches CollectionReport::Multiget { hrefs, rows } ==> call_ensures(
            multiget_responses,
            (pf, &hrefs, &rows),
            found,
        ),
        report matches CollectionReport::Query { rows } ==> call_ensures(
            query_responses,
            (pf, name, &rows),
            found,
        ),
        report matches CollectionReport::Sync { entries, limit } ==> call_ensures(
            sync_responses,
            (pf, name, &entries),
            found,
        ),
    ensures
        r is Err <==> report is Unsupported,
        r matches Err(e) ==> e.status == 400,
        r matches Ok(a) ==> a.responses.deep_view() == found.deep_view() && (a.sync_token is Some
            <==> report is Sync),
{
    if let Ok(a) = r {
        assert(a.sync_token.deep_view() is Some <==> a.sync_token is Some);
    }
}

/// What is looked up for a request for given objects is what its addresses stand for: each
/// identifier comes from an address, and each address that ends in a file name of an object
/// gives its identifier.
pub proof fn law_multiget_looks_up_what_is_asked(hrefs: &Vec<AskedHref>, r: Vec<String>)
    requires
        call_ensures(multiget_uids, (hrefs,), r),
    ensures
        r@.len() <= hrefs@.len(),
        forall|k: int|
            0 <= k < r@.len() ==> exists|i: int|
                0 <= i < hrefs@.len() && (#[trigger] hrefs@[i]).file.deep_view() == Some(
                    (#[trigger] r@[k])@ + ".ics"@,
                ),
        forall|i: int, uid: Seq<char>|
            #![trigger hrefs@[i], uid + ".ics"@]
            0 <= i < hrefs@.len() && hrefs@[i].file.deep_view() == Some(uid + ".ics"@)
                ==> r.deep_view().contains(uid),
{
    lemma_asked_uids(hrefs@);
    assert forall|k: int| 0 <= k < r@.len() implies exists|i: int|
        0 <= i < hrefs@.len() && (#[trigger] hrefs@[i]).file.deep_view() == Some(
            (#[trigger] r@[k])@ + ".ics"@,
        ) by {
        assert(r.deep_view()[k] == r@[k]@);
        assert(asked_uids(hrefs@).contains(r@[k]@));
    }
    assert(r.deep_view().len() == r@.len());
}

proof fn lemma_asked_uids(hrefs: Seq<AskedHref>)
    ensures
        asked_uids(hrefs).len() <= hrefs.len(),
        forall|uid: Seq<char>|
            #[trigger] asked_uids(hrefs).contains(uid) ==> exists|i: int|
                0 <= i < hrefs.len() && (#[trigger] hrefs[i]).file.deep_view() == Some(
                    uid + ".ics"@,
                ),
        forall|i: int, uid: Seq<char>|
            #![trigger hrefs[i], uid + ".ics"@]
            0 <= i < hrefs.len() && hrefs[i].file.deep_view() == Some(uid + ".ics"@)
                ==> asked_uids(hrefs).contains(uid),
    decreases hrefs.len(),
{
    if hrefs.len() > 0 {
        let rest = hrefs.drop_last();
        lemma_asked_uids(rest);
        let file = hrefs.last().file.deep_view();
        let found = uid_of(file);
        let before = asked_uids(rest);
        let all = asked_uids(hrefs);
        assert forall|uid: Seq<char>| #[trigger] all.contains(uid) implies exists|i: int|
            0 <= i < hrefs.len() && (#[trigger] hrefs[i]).file.deep_view() == Some(
                uid + ".ics"@,
            ) by {
            if before.contains(uid) {
                let i = choose|i: int|
                    0 <= i < rest.len() && (#[trigger] rest[i]).file.deep_view() == Some(
                        uid + ".ics"@,
                    );
                assert(hrefs[i].file.deep_view() == Some(uid + ".ics"@));
            } else {
                let k = choose|k: int| 0 <= k < all.len() && all[k] == uid;
                if k < before.len() {
                    assert(before[k] == uid);
                }
                assert(found == Some(uid));
                assert(file->0 =~= uid + ".ics"@);
                assert(hrefs[hrefs.len() - 1].file.deep_view() == Some(uid + ".ics"@));
            }
        }
        assert forall|i: int, uid: Seq<char>|
            #![trigger hrefs[i], uid + ".ics"@]
            0 <= i < hrefs.len() && hrefs[i].file.deep_view() == Some(
                uid + ".ics"@,
            ) implies all.contains(uid) by {
            if i < rest.len() {
                assert(rest[i] == hrefs[i]);
                assert(before.contains(uid));
                let k = choose|k: int| 0 <= k < before.len() && before[k] == uid;
                assert(all[k] == uid);
            } else {
                lemma_file(uid);
                assert(all[all.len() - 1] == uid);
            }
        }
    }
}

/// A client that stores an object is answered 201 where it is new and 204 where it replaced one.
/// What is stored is findable by what the text holds, and nothing is stored under an identifier
/// that is not in the text.
pub proof fn law_puts_store_what_was_sent(
    if_none_match: Option<&str>,
    if_match: Option<&str>,
    current: Option<&str>,
    lines: &Vec<ContentLine>,
    uid: &str,
    r: Result<PutPlan, Refusal>,
    p: Option<(CalendarObjectExtracted, Option<String>, Vec<String>)>,
)
    requires
        call_ensures(put_resource, (if_none_match, if_match, current, lines, uid), r),
        call_ensures(parse, (lines,), p),
    ensures
        r matches Ok(plan) ==> plan.status == (if current is Some {
            204u16
        } else {
            201u16
        }),
        r matches Ok(plan) ==> p matches Some((x, found, _)) && plan.extracted.deep_view()
            == x.deep_view() && (found is Some ==> found->0@ == uid@),
        r matches Ok(plan) ==> forall|k: int|
            0 <= k < plan.overrides@.len() ==> (#[trigger] plan.overrides@[k]).deep_view().uid == Some(
                uid@,
            ) && plan.overrides@[k].recurrence_id is Some,
        current is None && p is None ==> r is Err && r->Err_0.status == 400,
        current is None && (p matches Some((_, Some(found), _)) && found@ != uid@) ==> r is Err
            && r->Err_0.status == 409,
        current is None && (p matches Some((_, found, _)) && (found is None || found->0@ == uid@))
            ==> r is Ok,
        (current is Some && if_match is Some && if_match->0@ != current->0@) ==> r is Err
            && r->Err_0.status == 412,
        (current is Some && if_none_match is Some && if_none_match->0@ == "*"@) ==> r is Err
            && r->Err_0.status == 412,
        (if_none_match is None && (if_match is None || (current is Some && if_match->0@
            == current->0@)) && (p matches Some((_, found, _)) && (found is None || found->0@
            == uid@))) ==> r is Ok,
{
    if if_none_match is Some && if_none_match->0@ == "*"@ {
        reveal_strlit("*");
        assert("*"@.len() == 1 && "*"@[0] == '*');
        assert(crate::text::trimmed("*"@) == "*"@);
    }
    assert(if_none_match is Some ==> if_none_match.deep_view() == Some(if_none_match->0@));
    assert(if_match is Some ==> if_match.deep_view() == Some(if_match->0@));
    assert(current is Some ==> current.deep_view() == Some(current->0@));
    if let Some((x, found, w)) = p {
        assert(found is Some ==> found.deep_view() == Some(found->0@));
    }
    if let Ok(plan) = r {
        let all = masters_first(reading(lines.deep_view(), true).done).map_values(
            |c: ComponentView| input_of(c),
        );
        lemma_overrides(all, uid@);
        assert(plan.overrides.deep_view() == caldav::overrides_of(all, uid@));
        assert forall|k: int| 0 <= k < plan.overrides@.len() implies (
        #[trigger] plan.overrides@[k]).deep_view().uid == Some(uid@)
            && plan.overrides@[k].recurrence_id is Some by {
            assert(plan.overrides.deep_view()[k] == plan.overrides@[k].deep_view());
        }
    }
}

proof fn lemma_overrides(all: Seq<crate::calendar::types::ObjectView>, uid: Seq<char>)
    ensures
        forall|k: int|
            0 <= k < caldav::overrides_of(all, uid).len() ==> (#[trigger] caldav::overrides_of(
                all,
                uid,
            )[k]).uid == Some(uid) && caldav::overrides_of(all, uid)[k].recurrence_id is Some,
    decreases all.len(),
{
    if all.len() > 0 {
        lemma_overrides(all.drop_last(), uid);
    }
}

/// Each changed occurrence of an object that was read, with the object's identifier or none, is
/// stored for its occurrence and as it was read.
pub proof fn law_no_changed_occurrence_is_dropped(
    all: Seq<crate::calendar::types::ObjectView>,
    uid: Seq<char>,
    i: int,
)
    requires
        0 <= i < all.len(),
        all[i].recurrence_id is Some,
        all[i].uid is None || all[i].uid == Some(uid),
    ensures
        exists|k: int|
            0 <= k < caldav::overrides_of(all, uid).len() && {
                let o = #[trigger] caldav::overrides_of(all, uid)[k];
                o.recurrence_id == all[i].recurrence_id && o.event == all[i].event && o.todo
                    == all[i].todo && o.uid == Some(uid)
            },
    decreases all.len(),
{
    let rest = all.drop_last();
    let before = caldav::overrides_of(rest, uid);
    let now = caldav::overrides_of(all, uid);
    if i < all.len() - 1 {
        assert(rest[i] == all[i]);
        law_no_changed_occurrence_is_dropped(rest, uid, i);
        let k = choose|k: int|
            0 <= k < before.len() && {
                let o = #[trigger] before[k];
                o.recurrence_id == all[i].recurrence_id && o.event == all[i].event && o.todo
                    == all[i].todo && o.uid == Some(uid)
            };
        assert(now[k] == before[k]);
    } else {
        assert(now[now.len() - 1].recurrence_id == all[i].recurrence_id);
    }
}

/// What removing an object comes to.
pub proof fn law_removals_are_answered(outcome: Result<(), Error>, r: Result<u16, Refusal>)
    requires
        call_ensures(delete_outcome, (outcome,), r),
    ensures
        outcome is Ok <==> r is Ok,
        r matches Ok(s) ==> s == 204,
        r matches Err(e) ==> e.status == (if outcome->Err_0 is NotFound {
            404u16
        } else {
            500u16
        }),
{
}

/// What is done, by method. Everything may be asked about; calendars are searched and reported on,
/// objects are read, stored and removed, where the calendar is known and the address could be
/// read.
pub proof fn law_methods_lead_to_their_tasks(
    method: &str,
    name: Option<&str>,
    file: Option<&str>,
    known: bool,
    home: Result<Task, Refusal>,
    collection: Result<Task, Refusal>,
    resource: Result<Task, Refusal>,
    uid: Seq<char>,
)
    requires
        call_ensures(home_route, (method,), home),
        call_ensures(collection_route, (name, method, known), collection),
        call_ensures(resource_route, (name, file, method, known), resource),
    ensures
        home matches Ok(t) ==> t == Task::Options || t == Task::Propfind,
        home is Ok <==> method@ == "OPTIONS"@ || method@ == "PROPFIND"@,
        home matches Err(e) ==> e.status == 405,
        collection matches Ok(t) ==> name is Some && (t == Task::Options || (known && (t
            == Task::Propfind || t == Task::Report))),
        collection == Ok::<Task, Refusal>(Task::Report) <==> name is Some && known && method@
            == "REPORT"@,
        collection == Ok::<Task, Refusal>(Task::Propfind) <==> name is Some && known && method@
            == "PROPFIND"@,
        collection == Ok::<Task, Refusal>(Task::Options) <==> name is Some && method@ == "OPTIONS"@,
        name is None ==> collection is Err && collection->Err_0.status == 400 && resource is Err
            && resource->Err_0.status == 400,
        name is Some && !known && method@ != "OPTIONS"@ ==> collection is Err
            && collection->Err_0.status == 404 && !(resource is Ok),
        resource matches Ok(t) ==> name is Some && file is Some && (t == Task::Options || known),
        (known && name is Some && (file matches Some(f) && f@ == uid + ".ics"@)) ==> {
            &&& resource == Ok::<Task, Refusal>(Task::Get) <==> method@ == "GET"@
            &&& resource == Ok::<Task, Refusal>(Task::Head) <==> method@ == "HEAD"@
            &&& resource == Ok::<Task, Refusal>(Task::Put) <==> method@ == "PUT"@
            &&& resource == Ok::<Task, Refusal>(Task::Delete) <==> method@ == "DELETE"@
            &&& resource == Ok::<Task, Refusal>(Task::Options) <==> method@ == "OPTIONS"@
            &&& resource is Err ==> resource->Err_0.status == 405
        },
{
    reveal_strlit("OPTIONS");
    reveal_strlit("PROPFIND");
    reveal_strlit("REPORT");
    reveal_strlit("GET");
    reveal_strlit("HEAD");
    reveal_strlit("PUT");
    reveal_strlit("DELETE");
    assert("OPTIONS"@.len() == 7 && "PROPFIND"@.len() == 8 && "REPORT"@.len() == 6);
    assert("GET"@[0] == 'G' && "PUT"@[0] == 'P' && "HEAD"@.len() == 4);
    assert("DELETE"@[0] == 'D' && "REPORT"@[0] == 'R' && "GET"@.len() == 3 && "PUT"@.len() == 3);
    assert("DELETE"@.len() == 6);
    lemma_file(uid);
    assert(file is Some ==> file.deep_view() == Some(file->0@));
}

/// A search by time goes from the instant that its start names to the one that its end names; a bound that
/// is not there, or cannot be read, is none.
pub proof fn law_ranges(
    start: Option<String>,
    end: Option<String>,
    r: (Option<Timestamp>, Option<Timestamp>),
    none: (Option<Timestamp>, Option<Timestamp>),
    bound: &str,
    at: Option<Timestamp>,
)
    requires
        call_ensures(query_range, (Some((start, end)),), r),
        call_ensures(query_range, (None,), none),
        call_ensures(parse_caldav_dt, (bound,), at),
    ensures
        none.0 is None && none.1 is None,
        start is None ==> r.0 is None,
        end is None ==> r.1 is None,
        start is Some && start->0@ == bound@ ==> r.0 == at,
        end is Some && end->0@ == bound@ ==> r.1 == at,
{
}

/// A client that looks for calendars is sent to the place of its identity.
pub proof fn law_well_known_place(id_tag: &str, r: String)
    requires
        call_ensures(well_known_location, (id_tag,), r),
    ensures
        r@ == "https://cl-o."@ + id_tag@ + "/dav/principal/"@,
{
}

/// Addresses are those of their calendar and object.
pub proof fn law_addresses(name: &str, uid: &str, c: Vec<Piece>, o: Vec<Piece>)
    requires
        call_ensures(collection_href, (name,), c),
        call_ensures(object_href, (name, uid), o),
    ensures
        leads_to(o.deep_view(), name@, uid@),
        o.deep_view().take(3) == c.deep_view(),
        c@.len() == 3,
{
    assert(o.deep_view().take(3) =~= c.deep_view());
    assert(c.deep_view().len() == c@.len());
}

/// The state from which a synchronisation goes on is that of one of the changes where the page is full, and
/// never before one of them.
pub proof fn law_next_states(entries: &Vec<SyncEntry>, limit: u32, cal: Timestamp, r: i64, i: int)
    requires
        call_ensures(sync_state, (entries, limit, cal), r),
    ensures
        0 <= i < entries@.len() ==> entries@[i].updated_at.0 <= r,
        entries@.len() < limit ==> cal.0 <= r,
        entries@.len() == 0 && limit > 0 && cal.0 >= 0 ==> r == cal.0,
        0 < entries@.len() && entries@.len() >= limit ==> exists|k: int|
            0 <= k < entries@.len() && (#[trigger] entries@[k]).updated_at.0 == r,
{
    caldav::law_sync_goes_forward(entries@, limit, cal);
}

/// The last segment of an address is what follows its last slash.
pub proof fn law_last_segments(dir: Seq<char>, file: Seq<char>, href: &str, r: String)
    requires
        call_ensures(last_segment, (href,), r),
        !file.contains('/'),
    ensures
        href@ == dir + seq!['/'] + file ==> r@ == file,
        href@ == file ==> r@ == file,
{
    lemma_last_piece(dir, file);
    lemma_one_piece(file);
}

proof fn lemma_one_piece(file: Seq<char>)
    requires
        !file.contains('/'),
    ensures
        split_on(file, '/') == seq![file],
{
    assert forall|k: int| 0 <= k < file.len() implies file[k] != '/' by {
        assert(file.contains(file[k]));
    }
    crate::text::lemma_before_char(file, '/', file.len() as int);
}

proof fn lemma_last_piece(dir: Seq<char>, file: Seq<char>)
    requires
        !file.contains('/'),
    ensures
        split_on(dir + seq!['/'] + file, '/').last() == file,
        split_on(dir + seq!['/'] + file, '/').len() >= 1,
    decreases dir.len(),
{
    let s = dir + seq!['/'] + file;
    let n = crate::text::before_char(s, '/');
    crate::text::lemma_before_char_bounds(s, '/');
    assert(s[dir.len() as int] == '/');
    if n < dir.len() {
        let rest = dir.skip(n + 1);
        assert(s.skip(n + 1) =~= rest + seq!['/'] + file);
        lemma_last_piece(rest, file);
        let tail = split_on(s.skip(n + 1), '/');
        let all = split_on(s, '/');
        assert(all == seq![s.take(n)] + tail);
        assert(all.last() == tail.last());
    } else {
        assert(n == dir.len());
        assert(s.skip(n + 1) =~= file);
        lemma_one_piece(file);
        let all = split_on(s, '/');
        assert(all == seq![s.take(n)] + seq![file]);
        assert(all.last() == file);
    }
}

/// The element that lists the components of a calendar holds each of them that is not empty, without the white
/// space around it.
pub proof fn law_supported_components(components: Seq<char>, i: int)
    requires
        0 <= i < split_on(components, ',').len(),
        trimmed(split_on(components, ',')[i]).len() > 0,
    ensures
        holds(
            caldav::component_set(components),
            "<cal:comp name=\""@,
            PieceView::Xml(trimmed(split_on(components, ',')[i])),
            "\"/>"@,
        ),
{
    let parts = split_on(components, ',');
    let all = entries_in(parts);
    lemma_entries(parts, i);
    let k = choose|k: int| 0 <= k < all.len() && all[k] == trimmed(parts[i]);
    lemma_comp_elements(all, k);
    let head = caldav::markup("<cal:supported-calendar-component-set>"@);
    let tail = caldav::markup("</cal:supported-calendar-component-set>"@);
    lemma_kept_behind(head, caldav::comp_elements(all));
    lemma_kept(head + caldav::comp_elements(all), tail);
}

proof fn lemma_entries(parts: Seq<Seq<char>>, i: int)
    requires
        0 <= i < parts.len(),
        trimmed(parts[i]).len() > 0,
    ensures
        entries_in(parts).contains(trimmed(parts[i])),
    decreases parts.len(),
{
    let rest = parts.drop_last();
    let before = entries_in(rest);
    let now = entries_in(parts);
    if i < rest.len() {
        lemma_entries(rest, i);
        let k = choose|k: int| 0 <= k < before.len() && before[k] == trimmed(rest[i]);
        assert(now[k] == trimmed(parts[i]));
    } else {
        assert(now[now.len() - 1] == trimmed(parts[i]));
    }
}

proof fn lemma_comp_elements(comps: Seq<Seq<char>>, k: int)
    requires
        0 <= k < comps.len(),
    ensures
        holds(
            caldav::comp_elements(comps),
            "<cal:comp name=\""@,
            PieceView::Xml(comps[k]),
            "\"/>"@,
        ),
    decreases comps.len(),
{
    let rest = comps.drop_last();
    let before = caldav::comp_elements(rest);
    let e = caldav::element("<cal:comp name=\""@, comps.last(), "\"/>"@);
    if k < rest.len() {
        lemma_comp_elements(rest, k);
        lemma_kept(before, e);
    } else {
        lemma_element(before, "<cal:comp name=\""@, comps.last(), "\"/>"@);
    }
}

proof fn lemma_kept_behind(head: Seq<PieceView>, props: Seq<PieceView>)
    ensures
        forall|open: Seq<char>, x: PieceView, close: Seq<char>|
            #[trigger] holds(props, open, x, close) ==> holds(head + props, open, x, close),
{
    reveal(holds);
    let all = head + props;
    assert forall|open: Seq<char>, x: PieceView, close: Seq<char>| #[trigger]
        holds(props, open, x, close) implies holds(all, open, x, close) by {
        let k = choose|k: int|
            0 < k < props.len() - 1 && #[trigger] props[k] == x && props[k - 1]
                == PieceView::Markup(open) && props[k + 1] == PieceView::Markup(close);
        assert(all[k + head.len()] == x);
        assert(all[k + head.len() - 1] == props[k - 1]);
        assert(all[k + head.len() + 1] == props[k + 1]);
    }
}

} // verus!
