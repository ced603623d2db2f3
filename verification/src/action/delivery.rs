//! Delivering an action to another instance.
use crate::json::{self, Json, JsonView};
use crate::text;
use crate::types::{Error, TnId};
use vstd::prelude::*;

verus! {

/// The task of delivering an action to a recipient. A related action, such as the one that an
/// approval approves, travels with it.
#[derive(Debug)]
pub struct ActionDeliveryTask {
    pub tn_id: TnId,
    pub action_id: String,
    pub target_instance: String,
    pub target_id_tag: String,
    pub related_action_id: Option<String>,
}

/// What a delivery holds.
#[verifier::ext_equal]
pub ghost struct DeliveryView {
    pub tn_id: u32,
    pub action_id: Seq<char>,
    pub target_instance: Seq<char>,
    pub target_id_tag: Seq<char>,
    pub related_action_id: Option<Seq<char>>,
}

impl View for ActionDeliveryTask {
    type V = DeliveryView;

    open spec fn view(&self) -> DeliveryView {
        DeliveryView {
            tn_id: self.tn_id.0,
            action_id: self.action_id@,
            target_instance: self.target_instance@,
            target_id_tag: self.target_id_tag@,
            related_action_id: self.related_action_id.deep_view(),
        }
    }
}

/// The stored form of a delivery.
pub open spec fn delivery_json(d: DeliveryView) -> JsonView {
    let common = seq![
        ("tn_id"@, JsonView::Unsigned(d.tn_id as u64)),
        ("action_id"@, JsonView::Text(d.action_id)),
        ("target_instance"@, JsonView::Text(d.target_instance)),
        ("target_id_tag"@, JsonView::Text(d.target_id_tag)),
    ];
    match d.related_action_id {
        Some(r) => JsonView::Object(common.push(("related_action_id"@, JsonView::Text(r)))),
        None => JsonView::Object(common),
    }
}

/// The delivery that a stored form describes.
pub open spec fn delivery_in(v: JsonView) -> Option<DeliveryView> {
    match (
        v.member("tn_id"@),
        v.text_member("action_id"@),
        v.text_member("target_instance"@),
        v.text_member("target_id_tag"@),
    ) {
        (
            Some(JsonView::Unsigned(n)),
            Some(action_id),
            Some(target_instance),
            Some(target_id_tag),
        ) if n <= u32::MAX => match v.member("related_action_id"@) {
            None | Some(JsonView::Null) => Some(
                DeliveryView {
                    tn_id: n as u32,
                    action_id,
                    target_instance,
                    target_id_tag,
                    related_action_id: None,
                },
            ),
            Some(JsonView::Text(r)) => Some(
                DeliveryView {
                    tn_id: n as u32,
                    action_id,
                    target_instance,
                    target_id_tag,
                    related_action_id: Some(r),
                },
            ),
            _ => None,
        },
        _ => None,
    }
}

/// The fields of a stored delivery.
pub open spec fn delivery_fields() -> Seq<Seq<char>> {
    seq![
        "tn_id"@,
        "action_id"@,
        "target_instance"@,
        "target_id_tag"@,
        "related_action_id"@,
    ]
}

/// The delivery that a stored text describes.
pub open spec fn delivery_stored(ctx: Seq<char>) -> Option<DeliveryView> {
    match json::record_of(ctx, delivery_fields()) {
        Some(v) => delivery_in(v),
        None => None,
    }
}

proof fn lemma_delivery_json(d: DeliveryView)
    ensures
        json::flat(delivery_json(d)),
        delivery_json(d).member("tn_id"@) == Some(JsonView::Unsigned(d.tn_id as u64)),
        delivery_json(d).member("action_id"@) == Some(JsonView::Text(d.action_id)),
        delivery_json(d).member("target_instance"@) == Some(JsonView::Text(d.target_instance)),
        delivery_json(d).member("target_id_tag"@) == Some(JsonView::Text(d.target_id_tag)),
        delivery_json(d).member("related_action_id"@) == (match d.related_action_id {
            Some(r) => Some(JsonView::Text(r)),
            None => None,
        }),
{
    reveal_strlit("tn_id");
    reveal_strlit("action_id");
    reveal_strlit("target_instance");
    reveal_strlit("target_id_tag");
    reveal_strlit("related_action_id");
    assert("tn_id"@.len() == 5 && "action_id"@.len() == 9 && "target_instance"@.len() == 15);
    assert("target_id_tag"@.len() == 13 && "related_action_id"@.len() == 17);
    let o = delivery_json(d)->Object_0;
    reveal_with_fuel(json::last_named, 6);
    if d.related_action_id is Some {
        let p = o.drop_last();
        assert(o.last() == o[4]);
        assert(p.last() == o[3]);
        assert(p.drop_last().last() == o[2]);
        assert(p.drop_last().drop_last().last() == o[1]);
        assert(p.drop_last().drop_last().drop_last().last() == o[0]);
    } else {
        assert(o.last() == o[3]);
        assert(o.drop_last().last() == o[2]);
        assert(o.drop_last().drop_last().last() == o[1]);
        assert(o.drop_last().drop_last().drop_last().last() == o[0]);
    }
}

/// A delivery that is read from an object with the members that were written is the delivery
/// that was written.
pub proof fn law_delivery_round_trip(d: DeliveryView, v: JsonView)
    requires
        json::same_members(v, delivery_json(d)),
    ensures
        delivery_in(v) == Some(d),
{
    lemma_delivery_json(d);
}

/// The payload for a recipient's inbox.
pub open spec fn inbox_json(token: Seq<char>, related: Option<Seq<char>>) -> JsonView {
    match related {
        Some(r) => JsonView::Object(
            seq![
                ("token"@, JsonView::Text(token)),
                ("related"@, JsonView::Array(seq![JsonView::Text(r)])),
            ],
        ),
        None => JsonView::Object(seq![("token"@, JsonView::Text(token))]),
    }
}

impl ActionDeliveryTask {
    pub fn new(tn_id: TnId, action_id: String, target_instance: String, target_id_tag: String) -> (r:
        ActionDeliveryTask)
        ensures
            r == (ActionDeliveryTask {
                tn_id,
                action_id,
                target_instance,
                target_id_tag,
                related_action_id: None,
            }),
    {
        ActionDeliveryTask {
            tn_id,
            action_id,
            target_instance,
            target_id_tag,
            related_action_id: None,
        }
    }

    pub fn new_with_related(
        tn_id: TnId,
        action_id: String,
        target_instance: String,
        target_id_tag: String,
        related_action_id: Option<String>,
    ) -> (r: ActionDeliveryTask)
        ensures
            r == (ActionDeliveryTask {
                tn_id,
                action_id,
                target_instance,
                target_id_tag,
                related_action_id,
            }),
    {
        ActionDeliveryTask { tn_id, action_id, target_instance, target_id_tag, related_action_id }
    }

    pub fn kind() -> (r: &'static str)
        ensures
            r@ == "action.delivery"@,
    {
        "action.delivery"
    }

    pub fn kind_of(&self) -> (r: &'static str)
        ensures
            r@ == "action.delivery"@,
    {
        ActionDeliveryTask::kind()
    }

    /// A copy of the task.
    pub fn duplicate(&self) -> (r: ActionDeliveryTask)
        ensures
            r.tn_id == self.tn_id,
            r.action_id@ == self.action_id@,
            r.target_instance@ == self.target_instance@,
            r.target_id_tag@ == self.target_id_tag@,
            r.related_action_id.deep_view() == self.related_action_id.deep_view(),
    {
        ActionDeliveryTask {
            tn_id: self.tn_id,
            action_id: self.action_id.clone(),
            target_instance: self.target_instance.clone(),
            target_id_tag: self.target_id_tag.clone(),
            related_action_id: text::owned_opt(text::as_opt(&self.related_action_id)),
        }
    }

    /// The stored form of the task.
    pub fn serialize(&self) -> (r: String)
        ensures
            r@ == json::compact_notation(delivery_json(self@)),
    {
        let mut o: Vec<(String, Json)> = Vec::new();
        o.push((text::owned("tn_id"), Json::Unsigned(self.tn_id.0 as u64)));
        o.push((text::owned("action_id"), Json::Text(self.action_id.clone())));
        o.push((text::owned("target_instance"), Json::Text(self.target_instance.clone())));
        o.push((text::owned("target_id_tag"), Json::Text(self.target_id_tag.clone())));
        if let Some(r) = &self.related_action_id {
            o.push((text::owned("related_action_id"), Json::Text(r.clone())));
        }
        let j = Json::Object(o);
        proof {
            reveal_with_fuel(json::says, 2);
            assert(j@->Object_0 =~= delivery_json(self@)->Object_0);
        }
        json::write_compact(&j)
    }

    /// The task that a JSON value describes.
    pub fn from_json(v: &Json) -> (r: Result<ActionDeliveryTask, Error>)
        ensures
            match r {
                Ok(t) => delivery_in(v@) == Some(t@),
                Err(e) => delivery_in(v@) is None && e is Parse,
            },
    {
        let tn_id: Option<u64> = match v.get("tn_id") {
            Some(x) => x.as_u64(),
            None => None,
        };
        let related: Option<String> = match v.get("related_action_id") {
            None => None,
            Some(Json::Null) => None,
            Some(Json::Text(r)) => Some(text::owned(r.as_str())),
            Some(_) => {
                return Err(Error::Parse);
            },
        };
        match (
            tn_id,
            v.get_text("action_id"),
            v.get_text("target_instance"),
            v.get_text("target_id_tag"),
        ) {
            (Some(n), Some(action_id), Some(target_instance), Some(target_id_tag)) => {
                if n > 4294967295 {
                    return Err(Error::Parse);
                }
                Ok(
                    ActionDeliveryTask {
                        tn_id: TnId(n as u32),
                        action_id: text::owned(action_id),
                        target_instance: text::owned(target_instance),
                        target_id_tag: text::owned(target_id_tag),
                        related_action_id: related,
                    },
                )
            },
            _ => Err(Error::Parse),
        }
    }

    /// Reads a task from its stored form. A task that was written is read back as it was.
    pub fn build(ctx: &str) -> (r: Result<ActionDeliveryTask, Error>)
        ensures
            match r {
                Ok(t) => delivery_stored(ctx@) == Some(t@),
                Err(e) => delivery_stored(ctx@) is None && e is Parse,
            },
            forall|d: DeliveryView|
                #![trigger delivery_json(d)]
                ctx@ == json::compact_notation(delivery_json(d)) ==> (r matches Ok(x)
                    && x@ == d),
    {
        let fields = vec![
            "tn_id",
            "action_id",
            "target_instance",
            "target_id_tag",
            "related_action_id",
        ];
        assert(fields.deep_view() =~= delivery_fields());
        match json::read_record(ctx, &fields) {
            Some(v) => {
                proof {
                    assert forall|d: DeliveryView|
                        ctx@ == json::compact_notation(
                            #[trigger] delivery_json(d),
                        ) implies delivery_in(v@) == Some(d) by {
                        lemma_delivery_json(d);
                        law_delivery_round_trip(d, v@);
                    }
                }
                ActionDeliveryTask::from_json(&v)
            },
            None => {
                proof {
                    assert forall|d: DeliveryView|
                        ctx@ == json::compact_notation(#[trigger] delivery_json(d)) implies false by {
                        lemma_delivery_json(d);
                    }
                }
                Err(Error::Parse)
            },
        }
    }

    /// What to send: nothing where the action is gone, and the payload where it is on record
    /// with its token. A related action whose token is missing is left out.
    pub fn prepare(&self, action_found: bool, token: Option<&str>, related_token: Option<&str>) -> (r:
        Result<Option<Json>, Error>)
        ensures
            r is Err <==> action_found && token is None,
            r matches Err(e) ==> (e matches Error::Internal(m) && m@
                == "action token not found for action "@ + self.action_id@),
            r matches Ok(p) ==> {
                &&& p is Some <==> action_found
                &&& p is Some ==> p->0@ == inbox_json(
                    token->0@,
                    if self.related_action_id is Some {
                        related_token.deep_view()
                    } else {
                        None
                    },
                )
            },
    {
        if !action_found {
            return Ok(None);
        }
        match token {
            None => {
                let mut m = text::owned("action token not found for action ");
                m.append(self.action_id.as_str());
                Err(Error::Internal(m))
            },
            Some(t) => {
                let related: Option<&str> = if self.related_action_id.is_some() {
                    related_token
                } else {
                    None
                };
                Ok(Some(inbox_payload(t, related)))
            },
        }
    }
}

/// Builds the payload for a recipient's inbox.
pub fn inbox_payload(token: &str, related: Option<&str>) -> (r: Json)
    ensures
        r@ == inbox_json(token@, related.deep_view()),
{
    let mut o: Vec<(String, Json)> = Vec::new();
    o.push((text::owned("token"), Json::Text(text::owned(token))));
    if let Some(t) = related {
        let mut a: Vec<Json> = Vec::new();
        a.push(Json::Text(text::owned(t)));
        let array = Json::Array(a);
        proof {
            reveal_with_fuel(json::says, 2);
            assert(array@->Array_0 =~= seq![JsonView::Text(t@)]);
        }
        o.push((text::owned("related"), array));
    }
    let j = Json::Object(o);
    proof {
        reveal_with_fuel(json::says, 2);
        assert(j@->Object_0 =~= inbox_json(token@, related.deep_view())->Object_0);
    }
    j
}

/// How long to wait before a delivery that failed is tried again, and how often.
#[derive(Debug, Clone, Copy, PartialEq, Eq, Structural)]
pub struct RetryPolicy {
    pub shortest_wait_secs: u64,
    pub longest_wait_secs: u64,
    pub attempts: u32,
}

/// How a delivery that failed is tried again.
pub fn delivery_retry() -> (r: RetryPolicy)
    ensures
        r == (RetryPolicy { shortest_wait_secs: 10, longest_wait_secs: 43200, attempts: 50 }),
{
    RetryPolicy { shortest_wait_secs: 10, longest_wait_secs: 43200, attempts: 50 }
}

/// A delivery, and the key under which it is scheduled.
#[derive(Debug)]
pub struct ScheduledDelivery {
    pub key: String,
    pub task: ActionDeliveryTask,
}

#[verifier::ext_equal]
pub ghost struct ScheduledView {
    pub key: Seq<char>,
    pub task: DeliveryView,
}

impl DeepView for ScheduledDelivery {
    type V = ScheduledView;

    open spec fn deep_view(&self) -> ScheduledView {
        ScheduledView { key: self.key@, task: self.task@ }
    }
}

/// The delivery of an action to somebody at their own instance.
pub open spec fn delivery_to(
    tn_id: TnId,
    action_id: Seq<char>,
    recipient: Seq<char>,
    related: Option<Seq<char>>,
) -> DeliveryView {
    DeliveryView {
        tn_id: tn_id.0,
        action_id,
        target_instance: recipient,
        target_id_tag: recipient,
        related_action_id: related,
    }
}

/// A key made of two texts with a colon between them.
pub open spec fn paired_key(prefix: Seq<char>, a: Seq<char>, b: Seq<char>) -> Seq<char> {
    prefix + a + ":"@ + b
}

/// The deliveries of an action, one to each recipient, in order.
pub open spec fn deliveries_to(
    prefix: Seq<char>,
    tn_id: TnId,
    action_id: Seq<char>,
    recipients: Seq<Seq<char>>,
    related: Option<Seq<char>>,
) -> Seq<ScheduledView> {
    Seq::new(
        recipients.len(),
        |i: int|
            ScheduledView {
                key: paired_key(prefix, action_id, recipients[i]),
                task: delivery_to(tn_id, action_id, recipients[i], related),
            },
    )
}

pub fn pair_key(prefix: &str, a: &str, b: &str) -> (r: String)
    ensures
        r@ == paired_key(prefix@, a@, b@),
{
    let mut k = text::owned(prefix);
    k.append(a);
    k.append(":");
    k.append(b);
    k
}

/// Schedules the deliveries of an action, one to each recipient.
pub fn schedule_deliveries(
    prefix: &str,
    tn_id: TnId,
    action_id: &str,
    recipients: &Vec<String>,
    related: Option<&str>,
) -> (r: Vec<ScheduledDelivery>)
    ensures
        r.deep_view() == deliveries_to(
            prefix@,
            tn_id,
            action_id@,
            recipients.deep_view(),
            related.deep_view(),
        ),
{
    let ghost all = deliveries_to(
        prefix@,
        tn_id,
        action_id@,
        recipients.deep_view(),
        related.deep_view(),
    );
    let mut out: Vec<ScheduledDelivery> = Vec::new();
    let mut i: usize = 0;
    while i < recipients.len()
        invariant
            all == deliveries_to(
                prefix@,
                tn_id,
                action_id@,
                recipients.deep_view(),
                related.deep_view(),
            ),
            i <= recipients@.len(),
            out@.len() == i,
            forall|k: int| 0 <= k < i ==> (#[trigger] out@[k]).deep_view() == all[k],
        decreases recipients@.len() - i,
    {
        let to = recipients[i].as_str();
        let task = ActionDeliveryTask::new_with_related(
            tn_id,
            text::owned(action_id),
            text::owned(to),
            text::owned(to),
            text::owned_opt(related),
        );
        out.push(ScheduledDelivery { key: pair_key(prefix, action_id, to), task });
        i = i + 1;
    }
    assert(out.deep_view() =~= all);
    out
}

} // verus!
