//! Telling connected clients about actions, and which actions notify a user who is away.
use crate::json::{self, Json, JsonView};
use crate::text;
use vstd::prelude::*;

verus! {

/// What became of an action that was forwarded.
#[derive(Debug, Clone, Copy, PartialEq, Eq)]
pub struct ForwardResult {
    /// Whether at least one connection received the action.
    pub delivered: bool,
    /// How many connections received it.
    pub connection_count: usize,
    /// Whether nobody it was for is connected.
    pub user_offline: bool,
}

/// What became of a message to a user.
#[derive(Debug, Clone, Copy, PartialEq, Eq)]
pub enum DeliveryResult {
    /// So many connections received it.
    Delivered(usize),
    UserOffline,
}

/// What became of an action that was forwarded to its audience, given what became of the message
/// to them. Without an audience nothing is sent.
pub open spec fn forwarded(audience_tag: Option<&str>, delivery: DeliveryResult) -> ForwardResult {
    match (audience_tag, delivery) {
        (Some(_), DeliveryResult::Delivered(n)) => ForwardResult {
            delivered: true,
            connection_count: n,
            user_offline: false,
        },
        (Some(_), DeliveryResult::UserOffline) => ForwardResult {
            delivered: false,
            connection_count: 0,
            user_offline: true,
        },
        (None, _) => ForwardResult { delivered: false, connection_count: 0, user_offline: false },
    }
}

/// The result of forwarding an action to its audience.
pub fn forward_action(audience_tag: Option<&str>, delivery: DeliveryResult) -> (r: ForwardResult)
    ensures
        r == forwarded(audience_tag, delivery),
{
    match audience_tag {
        Some(_) => match delivery {
            DeliveryResult::Delivered(count) => ForwardResult {
                delivered: true,
                connection_count: count,
                user_offline: false,
            },
            DeliveryResult::UserOffline => ForwardResult {
                delivered: false,
                connection_count: 0,
                user_offline: true,
            },
        },
        None => ForwardResult { delivered: false, connection_count: 0, user_offline: false },
    }
}

/// The result of forwarding an action that was created here.
pub fn forward_outbound_action(audience_tag: Option<&str>, delivery: DeliveryResult) -> (r:
    ForwardResult)
    ensures
        r == forwarded(audience_tag, delivery),
{
    forward_action(audience_tag, delivery)
}

/// The result of forwarding an action to all clients of a tenant, given how many received it.
pub fn forward_inbound_action(delivered: usize) -> (r: ForwardResult)
    ensures
        r == (ForwardResult {
            delivered: delivered > 0,
            connection_count: delivered,
            user_offline: delivered == 0,
        }),
{
    ForwardResult {
        delivered: delivered > 0,
        connection_count: delivered,
        user_offline: delivered == 0,
    }
}

/// What is told of an action.
pub struct ForwardActionParams<'a> {
    pub action_id: &'a str,
    pub temp_id: Option<&'a str>,
    pub issuer_tag: &'a str,
    pub audience_tag: Option<&'a str>,
    pub action_type: &'a str,
    pub sub_type: Option<&'a str>,
    pub parent_id: Option<&'a str>,
    pub content: Option<&'a Json>,
    pub attachments: Option<&'a Json>,
    pub subject: Option<&'a str>,
    /// The time of creation in ISO notation.
    pub created_at: &'a str,
    pub status: Option<&'a str>,
    pub visibility: Option<char>,
    pub flags: Option<&'a str>,
    pub x: Option<&'a Json>,
}

pub open spec fn text_or_null(s: Option<Seq<char>>) -> JsonView {
    match s {
        Some(x) => JsonView::Text(x),
        None => JsonView::Null,
    }
}

pub open spec fn value_or_null(v: Option<JsonView>) -> JsonView {
    match v {
        Some(x) => x,
        None => JsonView::Null,
    }
}

/// An identity as a message shows it.
pub open spec fn identity_json(id_tag: Seq<char>) -> JsonView {
    JsonView::Object(seq![("idTag"@, JsonView::Text(id_tag))])
}

/// The message that tells of an action.
pub open spec fn action_json(p: ForwardActionParams) -> JsonView {
    JsonView::Object(
        seq![
            ("actionId"@, JsonView::Text(p.action_id@)),
            ("tempId"@, text_or_null(p.temp_id.deep_view())),
            ("type"@, JsonView::Text(p.action_type@)),
            ("subType"@, text_or_null(p.sub_type.deep_view())),
            ("parentId"@, text_or_null(p.parent_id.deep_view())),
            ("issuer"@, identity_json(p.issuer_tag@)),
            (
                "audience"@,
                match p.audience_tag {
                    Some(a) => identity_json(a@),
                    None => JsonView::Null,
                },
            ),
            ("content"@, value_or_null(json::opt_json(p.content))),
            ("attachments"@, value_or_null(json::opt_json(p.attachments))),
            ("subject"@, text_or_null(p.subject.deep_view())),
            ("createdAt"@, JsonView::Text(p.created_at@)),
            ("status"@, text_or_null(p.status.deep_view())),
            (
                "visibility"@,
                match p.visibility {
                    Some(c) => JsonView::Text(seq![c]),
                    None => JsonView::Null,
                },
            ),
            ("flags"@, text_or_null(p.flags.deep_view())),
            ("x"@, value_or_null(json::opt_json(p.x))),
        ],
    )
}

fn text_value(s: Option<&str>) -> (r: Json)
    ensures
        r@ == text_or_null(s.deep_view()),
{
    match s {
        Some(x) => Json::Text(text::owned(x)),
        None => Json::Null,
    }
}

fn copied(v: Option<&Json>) -> (r: Json)
    ensures
        r@ == value_or_null(json::opt_json(v)),
{
    match v {
        Some(x) => x.duplicate(),
        None => Json::Null,
    }
}

fn identity_value(id_tag: &str) -> (r: Json)
    ensures
        r@ == identity_json(id_tag@),
{
    let mut o: Vec<(String, Json)> = Vec::new();
    o.push((text::owned("idTag"), Json::Text(text::owned(id_tag))));
    let j = Json::Object(o);
    proof {
        reveal_with_fuel(json::says, 2);
        assert(j@->Object_0 =~= identity_json(id_tag@)->Object_0);
    }
    j
}

fn identity_or_null(id_tag: Option<&str>) -> (r: Json)
    ensures
        r@ == (match id_tag {
            Some(a) => identity_json(a@),
            None => JsonView::Null,
        }),
{
    match id_tag {
        Some(a) => identity_value(a),
        None => Json::Null,
    }
}

fn letter_value(c: Option<char>) -> (r: Json)
    ensures
        r@ == (match c {
            Some(x) => JsonView::Text(seq![x]),
            None => JsonView::Null,
        }),
{
    match c {
        Some(x) => {
            let mut s = String::new();
            s.push(x);
            assert(s@ =~= seq![x]);
            Json::Text(s)
        },
        None => Json::Null,
    }
}

fn text_of(s: &str) -> (r: Json)
    ensures
        r@ == JsonView::Text(s@),
{
    Json::Text(text::owned(s))
}

/// Builds the message that tells of an action.
pub fn build_action_message(p: &ForwardActionParams) -> (r: Json)
    ensures
        r@ == action_json(*p),
{
    let mut o: Vec<(String, Json)> = Vec::new();
    o.push((text::owned("actionId"), text_of(p.action_id)));
    o.push((text::owned("tempId"), text_value(p.temp_id)));
    o.push((text::owned("type"), text_of(p.action_type)));
    o.push((text::owned("subType"), text_value(p.sub_type)));
    o.push((text::owned("parentId"), text_value(p.parent_id)));
    o.push((text::owned("issuer"), identity_value(p.issuer_tag)));
    o.push((text::owned("audience"), identity_or_null(p.audience_tag)));
    o.push((text::owned("content"), copied(p.content)));
    o.push((text::owned("attachments"), copied(p.attachments)));
    o.push((text::owned("subject"), text_value(p.subject)));
    o.push((text::owned("createdAt"), text_of(p.created_at)));
    o.push((text::owned("status"), text_value(p.status)));
    o.push((text::owned("visibility"), letter_value(p.visibility)));
    o.push((text::owned("flags"), text_value(p.flags)));
    o.push((text::owned("x"), copied(p.x)));
    let j = Json::Object(o);
    assert(j@->Object_0 =~= action_json(*p)->Object_0);
    j
}

// ---------------------------------------------------------------------------------------------
// Notifications
// ---------------------------------------------------------------------------------------------

/// Whether an action of a type notifies a user who is away by push: messages, connection
/// requests, file shares and comments do, unless they are deletions.
pub open spec fn pushes(action_type: Seq<char>, sub_type: Option<Seq<char>>) -> bool {
    sub_type != Some("DEL"@) && (action_type == "MSG"@ || action_type == "CONN"@ || action_type
        == "FSHR"@ || action_type == "CMNT"@)
}

pub fn should_push_notify(action_type: &str, sub_type: Option<&str>) -> (r: bool)
    ensures
        r == pushes(action_type@, sub_type.deep_view()),
{
    if text::is_text(sub_type, "DEL") {
        return false;
    }
    text::same(action_type, "MSG") || text::same(action_type, "CONN") || text::same(
        action_type,
        "FSHR",
    ) || text::same(action_type, "CMNT")
}

/// How actions of a type notify.
pub struct NotifyType {
    pub push_key: &'static str,
    pub email_key: &'static str,
    pub label: &'static str,
    /// The group in which mails are throttled together.
    pub throttle_group: Option<&'static str>,
}

pub struct NotifyView {
    pub push_key: Seq<char>,
    pub email_key: Seq<char>,
    pub label: Seq<char>,
    pub throttle_group: Option<Seq<char>>,
}

impl View for NotifyType {
    type V = NotifyView;

    open spec fn view(&self) -> NotifyView {
        NotifyView {
            push_key: self.push_key@,
            email_key: self.email_key@,
            label: self.label@,
            throttle_group: self.throttle_group.deep_view(),
        }
    }
}

/// How actions of a type notify; nothing for a type that has no settings of its own.
pub open spec fn notifies(action_type: Seq<char>) -> Option<NotifyView> {
    if action_type == "MSG"@ {
        Some(
            NotifyView {
                push_key: "notify.push.message"@,
                email_key: "notify.email.message"@,
                label: "message"@,
                throttle_group: Some("direct"@),
            },
        )
    } else if action_type == "CONN"@ {
        Some(
            NotifyView {
                push_key: "notify.push.connection"@,
                email_key: "notify.email.connection"@,
                label: "connection request"@,
                throttle_group: Some("direct"@),
            },
        )
    } else if action_type == "FSHR"@ {
        Some(
            NotifyView {
                push_key: "notify.push.file_share"@,
                email_key: "notify.email.file_share"@,
                label: "shared file"@,
                throttle_group: Some("direct"@),
            },
        )
    } else if action_type == "FLLW"@ {
        Some(
            NotifyView {
                push_key: "notify.push.follow"@,
                email_key: "notify.email.follow"@,
                label: "follower"@,
                throttle_group: Some("social"@),
            },
        )
    } else if action_type == "CMNT"@ {
        Some(
            NotifyView {
                push_key: "notify.push.comment"@,
                email_key: "notify.email.comment"@,
                label: "comment"@,
                throttle_group: Some("engagement"@),
            },
        )
    } else if action_type == "REACT"@ {
        Some(
            NotifyView {
                push_key: "notify.push.reaction"@,
                email_key: "notify.email.reaction"@,
                label: "reaction"@,
                throttle_group: Some("engagement"@),
            },
        )
    } else if action_type == "POST"@ {
        Some(
            NotifyView {
                push_key: "notify.push.post"@,
                email_key: "notify.email.post"@,
                label: "post"@,
                throttle_group: Some("social"@),
            },
        )
    } else {
        None
    }
}

pub fn notify_type(action_type: &str) -> (r: Option<NotifyType>)
    ensures
        match r {
            Some(n) => notifies(action_type@) == Some(n@),
            None => notifies(action_type@) is None,
        },
{
    if text::same(action_type, "MSG") {
        Some(
            NotifyType {
                push_key: "notify.push.message",
                email_key: "notify.email.message",
                label: "message",
                throttle_group: Some("direct"),
            },
        )
    } else if text::same(action_type, "CONN") {
        Some(
            NotifyType {
                push_key: "notify.push.connection",
                email_key: "notify.email.connection",
                label: "connection request",
                throttle_group: Some("direct"),
            },
        )
    } else if text::same(action_type, "FSHR") {
        Some(
            NotifyType {
                push_key: "notify.push.file_share",
                email_key: "notify.email.file_share",
                label: "shared file",
                throttle_group: Some("direct"),
            },
        )
    } else if text::same(action_type, "FLLW") {
        Some(
            NotifyType {
                push_key: "notify.push.follow",
                email_key: "notify.email.follow",
                label: "follower",
                throttle_group: Some("social"),
            },
        )
    } else if text::same(action_type, "CMNT") {
        Some(
            NotifyType {
                push_key: "notify.push.comment",
                email_key: "notify.email.comment",
                label: "comment",
                throttle_group: Some("engagement"),
            },
        )
    } else if text::same(action_type, "REACT") {
        Some(
            NotifyType {
                push_key: "notify.push.reaction",
                email_key: "notify.email.reaction",
                label: "reaction",
                throttle_group: Some("engagement"),
            },
        )
    } else if text::same(action_type, "POST") {
        Some(
            NotifyType {
                push_key: "notify.push.post",
                email_key: "notify.email.post",
                label: "post",
                throttle_group: Some("social"),
            },
        )
    } else {
        None
    }
}

pub open spec fn push_key_of(action_type: Seq<char>) -> Seq<char> {
    match notifies(action_type) {
        Some(n) => n.push_key,
        None => "notify.push"@,
    }
}

pub open spec fn email_key_of(action_type: Seq<char>) -> Seq<char> {
    match notifies(action_type) {
        Some(n) => n.email_key,
        None => "notify.email"@,
    }
}

/// What an action of a type is called in a notification.
pub fn notify_action_label(action_type: &str) -> (r: &'static str)
    ensures
        r@ == (match notifies(action_type@) {
            Some(n) => n.label,
            None => "notification"@,
        }),
{
    match notify_type(action_type) {
        Some(n) => n.label,
        None => "notification",
    }
}

/// The setting that turns push notifications of a type on.
pub fn get_push_setting_key(action_type: &str) -> (r: &'static str)
    ensures
        r@ == push_key_of(action_type@),
{
    match notify_type(action_type) {
        Some(n) => n.push_key,
        None => "notify.push",
    }
}

/// The setting that turns mail notifications of a type on.
pub fn get_email_setting_key(action_type: &str) -> (r: &'static str)
    ensures
        r@ == email_key_of(action_type@),
{
    match notify_type(action_type) {
        Some(n) => n.email_key,
        None => "notify.email",
    }
}

/// Whether an action of a type notifies by mail: every type with a setting of its own does,
/// unless the action is a deletion.
pub fn is_email_notifiable(action_type: &str, sub_type: Option<&str>) -> (r: bool)
    ensures
        r == (sub_type.deep_view() != Some("DEL"@) && notifies(action_type@) is Some),
{
    if text::is_text(sub_type, "DEL") {
        return false;
    }
    proof {
        law_settings_agree(action_type@);
    }
    !text::same(get_email_setting_key(action_type), "notify.email")
}

/// The group in which mails for a type are throttled together.
pub fn email_throttle_group(action_type: &str) -> (r: Option<&'static str>)
    ensures
        r.deep_view() == (match notifies(action_type@) {
            Some(n) => n.throttle_group,
            None => None,
        }),
{
    match notify_type(action_type) {
        Some(n) => n.throttle_group,
        None => None,
    }
}

/// Push and mail agree on which types have a setting of their own.
pub proof fn law_settings_agree(action_type: Seq<char>)
    ensures
        push_key_of(action_type) != "notify.push"@ <==> notifies(action_type) is Some,
        email_key_of(action_type) != "notify.email"@ <==> notifies(action_type) is Some,
{
    reveal_strlit("notify.push");
    reveal_strlit("notify.email");
    reveal_strlit("notify.push.message");
    reveal_strlit("notify.email.message");
    reveal_strlit("notify.push.connection");
    reveal_strlit("notify.email.connection");
    reveal_strlit("notify.push.file_share");
    reveal_strlit("notify.email.file_share");
    reveal_strlit("notify.push.follow");
    reveal_strlit("notify.email.follow");
    reveal_strlit("notify.push.comment");
    reveal_strlit("notify.email.comment");
    reveal_strlit("notify.push.reaction");
    reveal_strlit("notify.email.reaction");
    reveal_strlit("notify.push.post");
    reveal_strlit("notify.email.post");
    assert(notifies(action_type) is Some ==> push_key_of(action_type).len() > "notify.push"@.len());
    assert(notifies(action_type) is Some ==> email_key_of(action_type).len()
        > "notify.email"@.len());
}

} // verus!
