//! Mails that the platform sends, and the references behind the links in them.
use crate::decimal;
use crate::json::{self, Json, JsonView};
use crate::text;
use crate::types::{Timestamp, TnId};
use vstd::prelude::*;

verus! {

/// A reference to make: whoever has its link may do one thing.
#[derive(Debug)]
pub struct NewRef {
    /// Whose host the link leads to.
    pub id_tag: String,
    /// What the reference is good for.
    pub typ: String,
    pub description: String,
    pub expires_at: Timestamp,
    /// What stands in front of the reference in the link.
    pub path_prefix: String,
}

#[verifier::ext_equal]
pub ghost struct NewRefView {
    pub id_tag: Seq<char>,
    pub typ: Seq<char>,
    pub description: Seq<char>,
    pub expires_at: Timestamp,
    pub path_prefix: Seq<char>,
}

impl DeepView for NewRef {
    type V = NewRefView;

    open spec fn deep_view(&self) -> NewRefView {
        NewRefView {
            id_tag: self.id_tag@,
            typ: self.typ@,
            description: self.description@,
            expires_at: self.expires_at,
            path_prefix: self.path_prefix@,
        }
    }
}

/// A mail to send, once under its key.
#[derive(Debug)]
pub struct Mail {
    pub to: String,
    pub template: String,
    /// What is filled into the template.
    pub vars: Json,
    pub key: String,
    pub sender_name: String,
}

#[verifier::ext_equal]
pub ghost struct MailView {
    pub to: Seq<char>,
    pub template: Seq<char>,
    pub vars: JsonView,
    pub key: Seq<char>,
    pub sender_name: Seq<char>,
}

impl DeepView for Mail {
    type V = MailView;

    open spec fn deep_view(&self) -> MailView {
        MailView {
            to: self.to@,
            template: self.template@,
            vars: self.vars@,
            key: self.key@,
            sender_name: self.sender_name@,
        }
    }
}

/// The reference for a reset of a tenant's password, good for a day.
pub open spec fn reset_ref(id_tag: Seq<char>, description: Seq<char>, now: i64) -> NewRefView {
    NewRefView {
        id_tag,
        typ: "password"@,
        description,
        expires_at: Timestamp((now + 86400) as i64),
        path_prefix: "/reset-password"@,
    }
}

pub fn new_reset_ref(id_tag: &str, description: &str, now: i64) -> (r: NewRef)
    requires
        now <= i64::MAX - 86400,
    ensures
        r.deep_view() == reset_ref(id_tag@, description@, now),
{
    NewRef {
        id_tag: text::owned(id_tag),
        typ: text::owned("password"),
        description: text::owned(description),
        expires_at: Timestamp(now + 86400),
        path_prefix: text::owned("/reset-password"),
    }
}

/// The key of the mail for a reset.
pub open spec fn reset_key(tn_id: TnId, now: i64) -> Seq<char> {
    "pw-reset:"@ + decimal::decimal_text(tn_id.0 as nat) + ":"@ + decimal::integer_text(now as int)
}

pub fn write_reset_key(tn_id: TnId, now: i64) -> (r: String)
    ensures
        r@ == reset_key(tn_id, now),
{
    let mut key = text::owned("pw-reset:");
    key.append(decimal::unsigned_to_text(tn_id.0 as u64).as_str());
    key.append(":");
    key.append(decimal::signed_to_text(now).as_str());
    key
}

/// The name of the sender of a mail that goes out in the name of an identity.
pub open spec fn sender_of(id_tag: Seq<char>) -> Seq<char> {
    "Cloudillo | "@ + text::uppercase_of(id_tag)
}

pub fn write_sender(id_tag: &str) -> (r: String)
    ensures
        r@ == sender_of(id_tag@),
{
    let mut name = text::owned("Cloudillo | ");
    name.append(text::to_uppercase(id_tag).as_str());
    name
}

/// What the mail for a reset says: how the user is addressed, one more identity under a name of
/// its own, the link, and for how many hours it is good.
pub open spec fn reset_vars(
    user_name: Seq<char>,
    tag_name: Seq<char>,
    tag: Seq<char>,
    link: Seq<char>,
) -> JsonView {
    JsonView::Object(
        seq![
            ("identity_tag"@, JsonView::Text(user_name)),
            (tag_name, JsonView::Text(tag)),
            ("instance_name"@, JsonView::Text("Cloudillo"@)),
            ("reset_link"@, JsonView::Text(link)),
            ("expire_hours"@, JsonView::Unsigned(24)),
        ],
    )
}

pub fn new_reset_vars(user_name: &str, tag_name: &str, tag: &str, link: &str) -> (r: Json)
    ensures
        r@ == reset_vars(user_name@, tag_name@, tag@, link@),
{
    let mut o: Vec<(String, Json)> = Vec::new();
    o.push((text::owned("identity_tag"), Json::Text(text::owned(user_name))));
    o.push((text::owned(tag_name), Json::Text(text::owned(tag))));
    o.push((text::owned("instance_name"), Json::Text(text::owned("Cloudillo"))));
    o.push((text::owned("reset_link"), Json::Text(text::owned(link))));
    o.push((text::owned("expire_hours"), Json::Unsigned(24)));
    let j = Json::Object(o);
    proof {
        reveal_with_fuel(json::says, 2);
        assert(j@->Object_0 =~= reset_vars(user_name@, tag_name@, tag@, link@)->Object_0);
    }
    j
}

} // verus!
