//! Which of a list of actions a reader sees.
use crate::action::dsl::engine::DslEngine;
use crate::action::dsl::types::ActionDefinition;
use crate::action::helpers;
use crate::str_map::StrMap;
use crate::text;
use crate::types::ActionView;
use vstd::prelude::*;

verus! {

/// The container whose subscribers may read an action: the root of its thread, else its subject,
/// else the action itself.
pub open spec fn container_of(a: ActionView) -> Seq<char> {
    match a.root_id {
        Some(root) => root@,
        None => match a.subject {
            Some(s) => s@,
            None => a.action_id@,
        },
    }
}

pub fn subscribed_container_id<'a>(action: &'a ActionView) -> (r: &'a str)
    ensures
        r@ == container_of(*action),
{
    match &action.root_id {
        Some(root) => root.as_str(),
        None => match &action.subject {
            Some(s) => s.as_str(),
            None => action.action_id.as_str(),
        },
    }
}

/// Whether actions of a type can be subscribed to.
pub open spec fn subscribable(
    m: Map<Seq<char>, ActionDefinition>,
    action_type: Seq<char>,
) -> bool {
    m.dom().contains(action_type) && m[action_type].behavior.subscribable == Some(true)
}

pub fn is_subscribable(engine: &DslEngine, action_type: &str) -> (r: bool)
    ensures
        r == subscribable(engine@, action_type@),
{
    match engine.get_behavior(action_type) {
        Some(b) => match b.subscribable {
            Some(x) => x,
            None => false,
        },
        None => false,
    }
}

/// The container whose subscribers matter to the visibility of an action: that of an action for
/// subscribers only, and a subscribable action without a visibility of its own.
pub open spec fn gating_container(
    m: Map<Seq<char>, ActionDefinition>,
    a: ActionView,
) -> Option<Seq<char>> {
    if a.visibility == Some('S') {
        Some(container_of(a))
    } else if a.visibility is None && subscribable(m, a.typ@) {
        Some(a.action_id@)
    } else {
        None
    }
}

/// Whether a container gates one of the actions.
pub open spec fn gates_one_of(
    m: Map<Seq<char>, ActionDefinition>,
    actions: Seq<ActionView>,
    id: Seq<char>,
) -> bool {
    exists|i: int| 0 <= i < actions.len() && gating_container(m, #[trigger] actions[i]) == Some(id)
}

/// The containers whose subscribers have to be known to filter a list of actions, each once.
pub fn container_ids(engine: &DslEngine, actions: &Vec<ActionView>) -> (r: Vec<String>)
    ensures
        r.deep_view().no_duplicates(),
        forall|id: Seq<char>| #[trigger]
            r.deep_view().contains(id) <==> gates_one_of(engine@, actions@, id),
{
    let mut ids: Vec<String> = Vec::new();
    let mut i: usize = 0;
    while i < actions.len()
        invariant
            i <= actions@.len(),
            ids.deep_view().no_duplicates(),
            forall|id: Seq<char>| #[trigger]
                ids.deep_view().contains(id) <==> gates_one_of(
                    engine@,
                    actions@.take(i as int),
                    id,
                ),
        decreases actions@.len() - i,
    {
        let a = &actions[i];
        let ghost before = ids.deep_view();
        let subscribed = match a.visibility {
            Some(c) => c == 'S',
            None => false,
        };
        let id: Option<&str> = if subscribed {
            Some(subscribed_container_id(a))
        } else if a.visibility.is_none() && is_subscribable(engine, a.typ.as_str()) {
            Some(a.action_id.as_str())
        } else {
            None
        };
        if let Some(x) = id {
            if !helpers::contains_tag(&ids, x) {
                ids.push(text::owned(x));
                assert(ids.deep_view() =~= before.push(x@));
            }
        }
        proof {
            let prev = actions@.take(i as int);
            let next = actions@.take(i + 1);
            assert(next =~= prev.push(*a));
            assert forall|x: Seq<char>|
                #[trigger] ids.deep_view().contains(x) <==> gates_one_of(engine@, next, x) by {
                assert(before.contains(x) <==> gates_one_of(engine@, prev, x));
                if id is Some {
                    helpers::lemma_push_contains(before, id->0@, x);
                }
                if gates_one_of(engine@, prev, x) {
                    let k = choose|k: int|
                        0 <= k < prev.len() && gating_container(engine@, #[trigger] prev[k])
                            == Some(x);
                    assert(gating_container(engine@, next[k]) == Some(x));
                }
                if gates_one_of(engine@, next, x) {
                    let k = choose|k: int|
                        0 <= k < next.len() && gating_container(engine@, #[trigger] next[k])
                            == Some(x);
                    if k < i {
                        assert(gating_container(engine@, prev[k]) == Some(x));
                    } else {
                        assert(next[k] == *a);
                    }
                }
                if id is Some && id->0@ == x {
                    assert(gating_container(engine@, next[i as int]) == Some(x));
                }
            }
        }
        i = i + 1;
    }
    assert(actions@.take(i as int) =~= actions@);
    ids
}

/// Whether a reader is among the subscribers of a container.
pub open spec fn subscribes(
    subscribers: Map<Seq<char>, Vec<String>>,
    container: Seq<char>,
    reader: Seq<char>,
) -> bool {
    subscribers.dom().contains(container) && subscribers[container].deep_view().contains(reader)
}

/// Those whom an action is for, as far as a reader is concerned: its audience, and the reader
/// where they subscribe to the container that gates the action.
pub open spec fn audience_of(
    a: ActionView,
    subscribers: Map<Seq<char>, Vec<String>>,
    reader: Seq<char>,
) -> Seq<Seq<char>> {
    let named = match a.audience {
        Some(p) => seq![p.id_tag@],
        None => Seq::empty(),
    };
    let container = if a.visibility is None {
        Some(a.action_id@)
    } else if a.visibility == Some('S') {
        Some(container_of(a))
    } else {
        None
    };
    if container is Some && subscribes(subscribers, container->0, reader) {
        named.push(reader)
    } else {
        named
    }
}

/// Those whom an action is for. `subscribers` holds the subscribers of the gating containers.
pub fn view_audience(action: &ActionView, subscribers: &StrMap<Vec<String>>, reader: &str) -> (r:
    Vec<String>)
    ensures
        r.deep_view() == audience_of(*action, subscribers@, reader@),
{
    let mut out: Vec<String> = Vec::new();
    if let Some(p) = &action.audience {
        out.push(p.id_tag.clone());
    }
    let ghost named = out.deep_view();
    proof {
        if action.audience is Some {
            assert(named =~= seq![action.audience->0.id_tag@]);
        } else {
            assert(named =~= Seq::<Seq<char>>::empty());
        }
    }
    let container: Option<&str> = match action.visibility {
        None => Some(action.action_id.as_str()),
        Some(c) => {
            if c == 'S' {
                Some(subscribed_container_id(action))
            } else {
                None
            }
        },
    };
    if let Some(id) = container {
        if let Some(tags) = subscribers.get(id) {
            if helpers::contains_tag(tags, reader) {
                out.push(text::owned(reader));
                assert(out.deep_view() =~= named.push(reader@));
            }
        }
    }
    out
}

/// How a profile stands to a tenant.
#[derive(Debug, Clone, Copy, PartialEq, Eq, Structural)]
pub struct ProfileRelation {
    /// The tenant follows the profile.
    pub following: bool,
    /// The profile follows the tenant.
    pub follower: bool,
    pub connected: bool,
}

/// What the rules of visibility are asked: whether a reader may see an item.
#[derive(Debug)]
pub struct ViewCheckContext {
    pub subject_id_tag: String,
    pub is_authenticated: bool,
    pub item_owner_id_tag: String,
    pub tenant_id_tag: String,
    pub visibility: Option<char>,
    pub subject_is_follower: bool,
    pub subject_connected_to_owner: bool,
    pub audience_tags: Option<Vec<String>>,
}

#[verifier::ext_equal]
pub ghost struct ViewCheckView {
    pub subject_id_tag: Seq<char>,
    pub is_authenticated: bool,
    pub item_owner_id_tag: Seq<char>,
    pub tenant_id_tag: Seq<char>,
    pub visibility: Option<char>,
    pub subject_is_follower: bool,
    pub subject_connected_to_owner: bool,
    pub audience_tags: Option<Seq<Seq<char>>>,
}

impl DeepView for ViewCheckContext {
    type V = ViewCheckView;

    open spec fn deep_view(&self) -> ViewCheckView {
        ViewCheckView {
            subject_id_tag: self.subject_id_tag@,
            is_authenticated: self.is_authenticated,
            item_owner_id_tag: self.item_owner_id_tag@,
            tenant_id_tag: self.tenant_id_tag@,
            visibility: self.visibility,
            subject_is_follower: self.subject_is_follower,
            subject_connected_to_owner: self.subject_connected_to_owner,
            audience_tags: self.audience_tags.deep_view(),
        }
    }
}

/// Somebody who reads actions of a tenant.
#[derive(Debug)]
pub struct Reader {
    pub id_tag: String,
    pub is_authenticated: bool,
    /// How they stand to the tenant, where that was looked up.
    pub relation: Option<ProfileRelation>,
}

/// What is asked of an action for a reader: the issuer owns it, it is for its audience and for
/// the reader where they subscribe to its container, and the reader counts as a follower where
/// they follow the tenant, whether or not the tenant follows them.
pub open spec fn question_of(
    a: ActionView,
    reader: Reader,
    tenant: Seq<char>,
    subscribers: Map<Seq<char>, Vec<String>>,
) -> ViewCheckView {
    ViewCheckView {
        subject_id_tag: reader.id_tag@,
        is_authenticated: reader.is_authenticated,
        item_owner_id_tag: a.issuer.id_tag@,
        tenant_id_tag: tenant,
        visibility: a.visibility,
        subject_is_follower: reader.relation matches Some(r) && r.follower,
        subject_connected_to_owner: reader.relation matches Some(r) && r.connected,
        audience_tags: Some(audience_of(a, subscribers, reader.id_tag@)),
    }
}

/// Puts together what is asked of an action for a reader.
pub fn view_question(
    action: &ActionView,
    reader: &Reader,
    tenant_id_tag: &str,
    subscribers: &StrMap<Vec<String>>,
) -> (r: ViewCheckContext)
    ensures
        r.deep_view() == question_of(*action, *reader, tenant_id_tag@, subscribers@),
{
    let (follower, connected) = match reader.relation {
        Some(r) => (r.follower, r.connected),
        None => (false, false),
    };
    let audience = view_audience(action, subscribers, reader.id_tag.as_str());
    ViewCheckContext {
        subject_id_tag: text::owned(reader.id_tag.as_str()),
        is_authenticated: reader.is_authenticated,
        item_owner_id_tag: text::owned(action.issuer.id_tag.as_str()),
        tenant_id_tag: text::owned(tenant_id_tag),
        visibility: action.visibility,
        subject_is_follower: follower,
        subject_connected_to_owner: connected,
        audience_tags: Some(audience),
    }
}

/// That the tenant follows a reader confers nothing on them.
pub proof fn law_being_followed_confers_nothing(
    a: ActionView,
    reader: Reader,
    tenant: Seq<char>,
    subscribers: Map<Seq<char>, Vec<String>>,
    following: bool,
)
    requires
        reader.relation is Some,
    ensures
        question_of(
            a,
            Reader {
                relation: Some(ProfileRelation { following, ..reader.relation->Some_0 }),
                ..reader
            },
            tenant,
            subscribers,
        ) == question_of(a, reader, tenant, subscribers),
{
}

/// The actions whose verdict is favourable, in order.
pub open spec fn admitted(actions: Seq<ActionView>, verdicts: Seq<bool>) -> Seq<ActionView>
    decreases actions.len(),
{
    if actions.len() == 0 || verdicts.len() != actions.len() {
        Seq::empty()
    } else {
        let rest = admitted(actions.drop_last(), verdicts.drop_last());
        if verdicts.last() {
            rest.push(actions.last())
        } else {
            rest
        }
    }
}

/// Keeps the actions that the reader may see, given the verdict on what is asked of each.
pub fn filter_actions_by_visibility(actions: Vec<ActionView>, verdicts: &Vec<bool>) -> (r: Vec<
    ActionView,
>)
    requires
        verdicts@.len() == actions@.len(),
    ensures
        r@ == admitted(actions@, verdicts@),
{
    let mut rest = actions;
    let mut kept: Vec<ActionView> = Vec::new();
    let ghost all = rest@;
    let n: usize = rest.len();
    let mut i: usize = n;
    // The list is taken apart from its end; the kept actions come out in reverse order.
    assert(all.take(n as int) =~= all);
    assert(verdicts@.take(n as int) =~= verdicts@);
    while i > 0
        invariant
            i <= n,
            n == all.len(),
            verdicts@.len() == n,
            rest@ == all.take(i as int),
            admitted(all, verdicts@) == admitted(
                all.take(i as int),
                verdicts@.take(i as int),
            ) + kept@.reverse(),
        decreases i,
    {
        let last = rest.pop();
        i = i - 1;
        proof {
            assert(all.take(i + 1).drop_last() =~= all.take(i as int));
            assert(verdicts@.take(i + 1).drop_last() =~= verdicts@.take(i as int));
            assert(rest@ =~= all.take(i as int));
        }
        let ghost before = kept@;
        if let Some(a) = last {
            if verdicts[i] {
                kept.push(a);
                proof {
                    let head = admitted(all.take(i as int), verdicts@.take(i as int));
                    assert(before.push(a).reverse() =~= seq![a] + before.reverse());
                    assert(head.push(a) + before.reverse() =~= head + (seq![a]
                        + before.reverse()));
                }
            }
        }
    }
    assert(admitted(all.take(0), verdicts@.take(0)) =~= Seq::<ActionView>::empty());
    assert(admitted(all, verdicts@) =~= kept@.reverse());
    reverse_actions(kept)
}

fn reverse_actions(v: Vec<ActionView>) -> (r: Vec<ActionView>)
    ensures
        r@ == v@.reverse(),
{
    let mut from = v;
    let mut out: Vec<ActionView> = Vec::new();
    let ghost all = from@;
    while from.len() > 0
        invariant
            from@.len() + out@.len() == all.len(),
            from@ == all.take(from@.len() as int),
            out@ == all.reverse().take(out@.len() as int),
        decreases from@.len(),
    {
        let ghost n = from@.len();
        if let Some(a) = from.pop() {
            out.push(a);
        }
        proof {
            assert(from@ =~= all.take(n - 1));
            assert(out@ =~= all.reverse().take(out@.len() as int));
        }
    }
    assert(out@ =~= all.reverse());
    out
}

/// Whether a subject counts as a follower of a tenant: the tenant itself does, and so does
/// everybody who follows it.
pub fn subject_has_peer_relation_to_tenant(
    subject_id_tag: &str,
    tenant_id_tag: &str,
    follower: bool,
) -> (r: bool)
    ensures
        r == (subject_id_tag@ == tenant_id_tag@ || follower),
{
    text::same(subject_id_tag, tenant_id_tag) || follower
}

/// A message in a thread is gated by the same container as the conversation at its root, so
/// that exactly the members read it.
pub proof fn law_thread_shares_its_container(conv: ActionView, msg: ActionView)
    requires
        conv.root_id is None && conv.subject is None,
        msg.root_id is Some && msg.root_id->0@ == conv.action_id@,
    ensures
        container_of(msg) == container_of(conv),
{
}

/// The subscribers of a container never open an action whose visibility is neither that of
/// subscribers nor absent.
pub proof fn law_subscribers_open_nothing_else(
    a: ActionView,
    subscribers: Map<Seq<char>, Vec<String>>,
    reader: Seq<char>,
)
    requires
        a.visibility is Some && a.visibility != Some('S'),
    ensures
        audience_of(a, subscribers, reader) == audience_of(a, Map::empty(), reader),
{
}

} // verus!
