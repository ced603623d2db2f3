//! `STAT`: the counters of an action, told by the tenant that keeps them.
//!
//! The time of the last one applied is kept with the subject, so that one that arrives late
//! never overwrites a newer one.
use crate::action::helpers;
use crate::action::hooks::HookContext;
use crate::action::native_hooks::cmnt;
use crate::action::native_hooks::ownership;
use crate::decimal;
use crate::json::{self, Json, JsonView};
use crate::text;
use crate::types::{ActionView, Patch, Timestamp};
use vstd::prelude::*;

verus! {

/// What is copied from the statistics to the subject on record. A counter that the statistics do
/// not state stays as it is.
pub struct MirrorUpdate {
    pub reactions: Option<String>,
    pub comments: Option<u32>,
    /// The time of the newest comment; null where there is none.
    pub comments_ts: Patch<Timestamp>,
    pub reposts: Option<u32>,
    pub stat_at: i64,
}

/// A counter in the statistics, held at the largest 32-bit number.
pub open spec fn stated_count(content: JsonView, name: Seq<char>) -> Option<u32> {
    match content.member(name) {
        Some(JsonView::Unsigned(n)) => Some(
            if n <= u32::MAX {
                n as u32
            } else {
                u32::MAX
            },
        ),
        _ => None,
    }
}

/// The time of the newest comment in the statistics.
pub open spec fn stated_time(content: JsonView) -> Patch<Timestamp> {
    match content.member("ct"@) {
        Some(v) => match v.signed() {
            Some(t) => if t > 0 {
                Patch::Value(Timestamp(t))
            } else {
                Patch::Null
            },
            None => Patch::Undefined,
        },
        None => Patch::Undefined,
    }
}

/// Whether statistics state a counter at all.
pub open spec fn states_counters(content: JsonView) -> bool {
    ||| content.text_member("r"@) is Some
    ||| stated_count(content, "c"@) is Some
    ||| stated_time(content) != Patch::<Timestamp>::Undefined
    ||| stated_count(content, "rp"@) is Some
}

/// Whether the counters of an update are those that statistics state.
pub open spec fn mirrors(u: MirrorUpdate, content: JsonView) -> bool {
    &&& u.reactions.deep_view() == content.text_member("r"@)
    &&& u.comments == stated_count(content, "c"@)
    &&& u.comments_ts == stated_time(content)
    &&& u.reposts == stated_count(content, "rp"@)
}

fn read_count(content: &Json, name: &str) -> (r: Option<u32>)
    ensures
        r == stated_count(content@, name@),
{
    match content.get(name) {
        Some(v) => match v.as_u64() {
            Some(n) => Some(
                if n <= 4294967295 {
                    n as u32
                } else {
                    u32::MAX
                },
            ),
            None => None,
        },
        None => None,
    }
}

fn read_time(content: &Json) -> (r: Patch<Timestamp>)
    ensures
        r == stated_time(content@),
{
    match content.get("ct") {
        Some(v) => match v.as_i64() {
            Some(t) => if t > 0 {
                Patch::Value(Timestamp(t))
            } else {
                Patch::Null
            },
            None => Patch::Undefined,
        },
        None => Patch::Undefined,
    }
}

/// Whether statistics speak for a subject on this tenant: they come from the tenant that keeps
/// the counters, and that is another one.
pub open spec fn speaks_for(ctx: HookContext, subject: ActionView) -> bool {
    ctx.issuer@ == ownership::owner_of(subject) && ownership::owner_of(subject) != ctx.tenant_tag@
}

/// Whether the statistics are applied: they speak for the subject, they carry the time of their
/// creation, it is later than that of the last ones applied, and they state a counter.
pub open spec fn applies(
    ctx: HookContext,
    subject: Option<ActionView>,
    last_applied: Option<i64>,
) -> bool {
    &&& ctx.content is Some && ctx.parent is Some && subject is Some
    &&& speaks_for(ctx, subject->0)
    &&& decimal::signed_of(ctx.created_at@) matches Some(t) && (match last_applied {
        Some(last) => t > last,
        None => t > i64::MIN,
    })
    &&& states_counters(ctx.content->0@)
}

/// What to copy to the subject. `subject` is the parent on record, and `last_applied` the time
/// of the last statistics applied to it.
pub fn mirror_update(ctx: &HookContext, subject: Option<&ActionView>, last_applied: Option<i64>) -> (r:
    Option<MirrorUpdate>)
    ensures
        r is Some <==> applies(*ctx, helpers::opt_action(subject), last_applied),
        r matches Some(u) ==> {
            &&& mirrors(u, ctx.content->0@)
            &&& decimal::signed_of(ctx.created_at@) == Some(u.stat_at as int)
        },
{
    let content: &Json = match &ctx.content {
        Some(c) => c,
        None => {
            return None;
        },
    };
    let action: &ActionView = match (&ctx.parent, subject) {
        (Some(_), Some(a)) => a,
        _ => {
            return None;
        },
    };
    let owner = ownership::authoritative_owner(action);
    if !text::same(ctx.issuer.as_str(), owner) || text::same(owner, ctx.tenant_tag.as_str()) {
        return None;
    }
    let created_at: i64 = match decimal::parse_signed(ctx.created_at.as_str()) {
        Some(t) => t,
        None => {
            return None;
        },
    };
    let last: i64 = match last_applied {
        Some(t) => t,
        None => i64::MIN,
    };
    if created_at <= last {
        return None;
    }
    let reactions: Option<String> = text::owned_opt(content.get_text("r"));
    let comments = read_count(content, "c");
    let comments_ts = read_time(content);
    let reposts = read_count(content, "rp");
    let timeless = match comments_ts {
        Patch::Undefined => true,
        _ => false,
    };
    if reactions.is_none() && comments.is_none() && timeless && reposts.is_none() {
        return None;
    }
    Some(MirrorUpdate { reactions, comments, comments_ts, reposts, stat_at: created_at })
}

/// The counters of a subject are written on one side only: where statistics are applied, no
/// reaction, comment or repost keeps counters, and the other way round.
pub proof fn law_counters_have_one_writer(
    ctx: HookContext,
    other: HookContext,
    subject: ActionView,
    last_applied: Option<i64>,
)
    requires
        other.tenant_tag@ == ctx.tenant_tag@,
        applies(ctx, Some(subject), last_applied),
    ensures
        !cmnt::keeps_counters(other.parent, Some(subject), other.tenant_tag@),
        !cmnt::keeps_counters(other.subject, Some(subject), other.tenant_tag@),
{
}

/// Statistics that arrive late, or twice, are not applied again.
pub proof fn law_statistics_are_monotone(
    ctx: HookContext,
    subject: Option<ActionView>,
    before: Option<i64>,
    applied: i64,
)
    requires
        applies(ctx, subject, before),
        decimal::signed_of(ctx.created_at@) == Some(applied as int),
    ensures
        before matches Some(b) ==> applied > b,
        !applies(ctx, subject, Some(applied)),
{
}

/// The total of a reaction string once it is normalised: at least the sum of its entries.
pub open spec fn entry_sum(entries: Seq<(char, u32)>) -> int
    decreases entries.len(),
{
    if entries.len() == 0 {
        0
    } else {
        entry_sum(entries.drop_last()) + entries.last().1
    }
}

proof fn lemma_entry_sum(entries: Seq<(char, u32)>, n: int)
    requires
        0 <= n <= entries.len(),
    ensures
        0 <= entry_sum(entries.take(n)) <= entry_sum(entries),
    decreases entries.len() - n, n,
{
    if n < entries.len() {
        lemma_entry_sum(entries, n + 1);
        assert(entries.take(n + 1).drop_last() =~= entries.take(n));
        lemma_entry_sum_nonneg(entries.take(n));
    } else {
        assert(entries.take(n) =~= entries);
        lemma_entry_sum_nonneg(entries);
    }
}

proof fn lemma_entry_sum_nonneg(entries: Seq<(char, u32)>)
    ensures
        0 <= entry_sum(entries),
    decreases entries.len(),
{
    if entries.len() > 0 {
        lemma_entry_sum_nonneg(entries.drop_last());
    }
}

/// The larger of a stated total and the sum of the entries.
pub fn normalized_total(entries: &Vec<(char, u32)>, total: u32) -> (r: u32)
    requires
        entry_sum(entries@) <= u32::MAX,
    ensures
        r == (if total >= entry_sum(entries@) {
            total as int
        } else {
            entry_sum(entries@)
        }),
{
    let mut sum: u32 = 0;
    let mut i: usize = 0;
    while i < entries.len()
        invariant
            i <= entries@.len(),
            entry_sum(entries@) <= u32::MAX,
            sum == entry_sum(entries@.take(i as int)),
        decreases entries@.len() - i,
    {
        proof {
            assert(entries@.take(i + 1).drop_last() =~= entries@.take(i as int));
            lemma_entry_sum(entries@, i + 1);
        }
        sum = sum + entries[i].1;
        i = i + 1;
    }
    assert(entries@.take(i as int) =~= entries@);
    if total >= sum {
        total
    } else {
        sum
    }
}

/// The members of an object without those of a name.
pub open spec fn without(o: Seq<(Seq<char>, JsonView)>, name: Seq<char>) -> Seq<
    (Seq<char>, JsonView),
>
    decreases o.len(),
{
    if o.len() == 0 {
        Seq::empty()
    } else if o.last().0 == name {
        without(o.drop_last(), name)
    } else {
        without(o.drop_last(), name).push(o.last())
    }
}

/// Content whose member `r` is a normalised reaction string; an empty one is left out.
pub open spec fn with_reactions(content: JsonView, normalized: Seq<char>) -> JsonView {
    match content {
        JsonView::Object(o) => if normalized.len() == 0 {
            JsonView::Object(without(o, "r"@))
        } else {
            JsonView::Object(without(o, "r"@).push(("r"@, JsonView::Text(normalized))))
        },
        other => other,
    }
}

fn remove_member(content: &Json, name: &str) -> (r: Json)
    requires
        content@ is Object,
    ensures
        r@ == JsonView::Object(without(content@->Object_0, name@)),
{
    let ghost all = content@->Object_0;
    match content {
        Json::Object(o) => {
            let mut out: Vec<(String, Json)> = Vec::new();
            let mut i: usize = 0;
            assert(all.len() == o@.len());
            assert(forall|k: int| 0 <= k < o@.len() ==> #[trigger] all[k] == (o@[k].0@, o@[k].1@));
            while i < o.len()
                invariant
                    all.len() == o@.len(),
                    forall|k: int|
                        0 <= k < o@.len() ==> #[trigger] all[k] == (o@[k].0@, o@[k].1@),
                    i <= o@.len(),
                    Seq::new(out@.len(), |k: int| (out@[k].0@, out@[k].1@)) == without(
                        all.take(i as int),
                        name@,
                    ),
                decreases o@.len() - i,
            {
                let ghost before = Seq::new(out@.len(), |k: int| (out@[k].0@, out@[k].1@));
                proof {
                    assert(all.take(i + 1).drop_last() =~= all.take(i as int));
                    assert(all.take(i + 1).last() == all[i as int]);
                }
                if !text::same(o[i].0.as_str(), name) {
                    let copy = o[i].1.duplicate();
                    out.push((o[i].0.clone(), copy));
                    assert(Seq::new(out@.len(), |k: int| (out@[k].0@, out@[k].1@)) =~= before.push(
                        all[i as int],
                    ));
                }
                i = i + 1;
            }
            assert(all.take(i as int) =~= all);
            let r = Json::Object(out);
            assert(r@->Object_0 =~= Seq::new(out@.len(), |k: int| (out@[k].0@, out@[k].1@)));
            r
        },
        _ => Json::Null,
    }
}

/// The content to store where the sender's reaction string is not the normalised one; nothing
/// where it is, or where there is none.
pub fn normalized_content(content: &Json, normalized: &str) -> (r: Option<Json>)
    ensures
        r is Some <==> (content@.text_member("r"@) is Some && content@.text_member("r"@)->0
            != normalized@),
        r matches Some(j) ==> j@ == with_reactions(content@, normalized@),
{
    let given = match content.get_text("r") {
        Some(s) => s,
        None => {
            return None;
        },
    };
    if text::same(given, normalized) {
        return None;
    }
    let rest = remove_member(content, "r");
    if normalized.is_empty() {
        return Some(rest);
    }
    match rest {
        Json::Object(o) => {
            let ghost before = rest@->Object_0;
            let mut members = o;
            members.push((text::owned("r"), Json::Text(text::owned(normalized))));
            let j = Json::Object(members);
            proof {
                reveal_with_fuel(json::says, 2);
                assert(j@->Object_0 =~= before.push(("r"@, JsonView::Text(normalized@))));
            }
            Some(j)
        },
        other => Some(other),
    }
}

/// The content to store, in JSON notation.
pub fn normalized_content_text(content: &Json, normalized: &str) -> (r: Option<String>)
    ensures
        r is Some <==> (content@.text_member("r"@) is Some && content@.text_member("r"@)->0
            != normalized@),
        r matches Some(s) ==> s@ == json::compact_notation(with_reactions(content@, normalized@)),
{
    match normalized_content(content, normalized) {
        Some(j) => Some(json::write_compact(&j)),
        None => None,
    }
}

/// What statistics that arrived change.
pub struct StatPlan {
    /// What is copied to the subject.
    pub mirror: Option<MirrorUpdate>,
    /// The content of the statistics themselves, where it is rewritten.
    pub content: Option<String>,
}

/// Whether the reaction string of statistics is rewritten.
pub open spec fn rewrites(ctx: HookContext, normalized: Seq<char>) -> bool {
    &&& ctx.content is Some && ctx.parent is Some
    &&& ctx.content->0@.text_member("r"@) matches Some(given) && given != normalized
}

/// Decides on a `STAT` that arrived. `subject` is the parent on record, `last_applied` the time of
/// the last statistics applied to it, and `normalized` the reaction string in its normal form.
pub fn on_receive(
    ctx: &HookContext,
    subject: Option<&ActionView>,
    last_applied: Option<i64>,
    normalized: &str,
) -> (r: StatPlan)
    ensures
        r.mirror is Some <==> applies(*ctx, helpers::opt_action(subject), last_applied),
        r.mirror matches Some(u) ==> {
            &&& mirrors(u, ctx.content->0@)
            &&& decimal::signed_of(ctx.created_at@) == Some(u.stat_at as int)
        },
        r.content is Some <==> rewrites(*ctx, normalized@),
        r.content matches Some(s) ==> s@ == json::compact_notation(
            with_reactions(ctx.content->0@, normalized@),
        ),
{
    let mirror = mirror_update(ctx, subject, last_applied);
    let content: Option<String> = match (&ctx.content, &ctx.parent) {
        (Some(c), Some(_)) => normalized_content_text(c, normalized),
        _ => None,
    };
    StatPlan { mirror, content }
}

} // verus!
