//! Inviting somebody to set up a profile on the node.
use crate::action::forward::text_or_null;
use crate::action::task::CreateAction;
use crate::json::{self, Json, JsonView};
use crate::mail::{NewRef, NewRefView};
use crate::text;
use crate::types::{self, Timestamp};
use vstd::prelude::*;

verus! {

/// How many days an invitation lasts where the request does not say.
pub const DEFAULT_EXPIRY_DAYS: u32 = 30;

#[derive(Debug)]
pub struct InviteCommunityRequest {
    pub target_id_tag: String,
    pub expires_in_days: Option<u32>,
    pub message: Option<String>,
}

#[derive(Debug)]
pub struct InviteCommunityResponse {
    pub ref_id: String,
    pub invite_url: String,
    pub target_id_tag: String,
    pub expires_at: Option<i64>,
}

/// When an invitation ends that is made at a given time.
pub open spec fn invitation_end(now: int, days: Option<u32>) -> int {
    let d = match days {
        Some(x) => x,
        None => DEFAULT_EXPIRY_DAYS,
    };
    types::saturating_sum(now, d * 86400)
}

pub fn invitation_expiry(now: Timestamp, days: Option<u32>) -> (r: Timestamp)
    ensures
        r.0 == invitation_end(now.0 as int, days),
{
    let d: u32 = match days {
        Some(x) => x,
        None => DEFAULT_EXPIRY_DAYS,
    };
    now.add_seconds((d as i64) * 86400)
}

/// What the invited person is told.
pub open spec fn invitation_json(
    ref_id: Seq<char>,
    node_name: Seq<char>,
    message: Option<Seq<char>>,
) -> JsonView {
    JsonView::Object(
        seq![
            ("refId"@, JsonView::Text(ref_id)),
            ("nodeName"@, JsonView::Text(node_name)),
            ("message"@, text_or_null(message)),
        ],
    )
}

pub fn invitation_content(ref_id: &str, node_name: &str, message: Option<&str>) -> (r: Json)
    ensures
        r@ == invitation_json(ref_id@, node_name@, message.deep_view()),
{
    let mut o: Vec<(String, Json)> = Vec::new();
    o.push((text::owned("refId"), Json::Text(text::owned(ref_id))));
    o.push((text::owned("nodeName"), Json::Text(text::owned(node_name))));
    let m = match message {
        Some(x) => Json::Text(text::owned(x)),
        None => Json::Null,
    };
    o.push((text::owned("message"), m));
    let j = Json::Object(o);
    proof {
        reveal_with_fuel(json::says, 2);
        assert(j@->Object_0 =~= invitation_json(
            ref_id@,
            node_name@,
            message.deep_view(),
        )->Object_0);
    }
    j
}

/// The reference for an invitation by the tenant of a host.
pub open spec fn invitation_ref_of(node: Seq<char>, now: int, days: Option<u32>) -> NewRefView {
    NewRefView {
        id_tag: node,
        typ: "profile.invite"@,
        description: "Community profile invite"@,
        expires_at: Timestamp(invitation_end(now, days) as i64),
        path_prefix: "/profile/new?invite="@,
    }
}

pub fn invitation_ref(node: &str, now: Timestamp, days: Option<u32>) -> (r: NewRef)
    ensures
        r.deep_view() == invitation_ref_of(node@, now.0 as int, days),
{
    NewRef {
        id_tag: text::owned(node),
        typ: text::owned("profile.invite"),
        description: text::owned("Community profile invite"),
        expires_at: invitation_expiry(now, days),
        path_prefix: text::owned("/profile/new?invite="),
    }
}

/// The action that brings an invitation to whom it is for; that it cannot be created does not
/// matter. `node_name` is the name of the tenant that invites.
pub fn invitation_action(
    req: &InviteCommunityRequest,
    ref_id: &str,
    node_name: &str,
    now: Timestamp,
) -> (r: CreateAction)
    ensures
        r.typ@ == "PRINVT"@,
        r.audience_tag.deep_view() == Some(req.target_id_tag@),
        json::held(r.content) == Some(invitation_json(ref_id@, node_name@, req.message.deep_view())),
        r.expires_at == Some(Timestamp(invitation_end(now.0 as int, req.expires_in_days) as i64)),
        r.sub_typ is None && r.parent_id is None && r.attachments is None && r.subject is None,
        r.visibility is None && r.flags is None && r.x is None,
{
    CreateAction {
        typ: text::owned("PRINVT"),
        audience_tag: Some(req.target_id_tag.clone()),
        content: Some(invitation_content(ref_id, node_name, text::as_opt(&req.message))),
        expires_at: Some(invitation_expiry(now, req.expires_in_days)),
        ..CreateAction::default()
    }
}

/// The answer to a request for an invitation, given the reference that was made for it.
pub fn post_invite_community(
    req: InviteCommunityRequest,
    ref_id: String,
    invite_url: String,
    now: Timestamp,
) -> (r: InviteCommunityResponse)
    ensures
        r.ref_id == ref_id,
        r.invite_url == invite_url,
        r.target_id_tag == req.target_id_tag,
        r.expires_at is Some && r.expires_at->0 == invitation_end(
            now.0 as int,
            req.expires_in_days,
        ),
{
    let end = invitation_expiry(now, req.expires_in_days);
    InviteCommunityResponse {
        ref_id,
        invite_url,
        target_id_tag: req.target_id_tag,
        expires_at: Some(end.0),
    }
}

} // verus!
