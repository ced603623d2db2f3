//! The task that tells the statistics of a subject.
use crate::action::native_hooks::stat::{self, MirrorUpdate};
use crate::action::task::CreateAction;
use crate::json::{self, Json, JsonView};
use crate::text;
use crate::types::{Error, Patch, Timestamp, TnId};
use vstd::prelude::*;

verus! {

/// A request to tell the statistics of a subject.
#[derive(Debug)]
pub struct StatEmitTask {
    pub tn_id: TnId,
    pub subject_id: String,
    pub tenant_tag: String,
    /// The time of the first request in the current wait.
    pub first_scheduled_at: i64,
}

pub struct TaskView {
    pub tn_id: u32,
    pub subject_id: Seq<char>,
    pub tenant_tag: Seq<char>,
    pub first_scheduled_at: i64,
}

impl View for StatEmitTask {
    type V = TaskView;

    open spec fn view(&self) -> TaskView {
        TaskView {
            tn_id: self.tn_id.0,
            subject_id: self.subject_id@,
            tenant_tag: self.tenant_tag@,
            first_scheduled_at: self.first_scheduled_at,
        }
    }
}

/// The stored form of a task.
pub open spec fn task_json(t: TaskView) -> JsonView {
    JsonView::Object(
        seq![
            ("tn_id"@, JsonView::Unsigned(t.tn_id as u64)),
            ("subject_id"@, JsonView::Text(t.subject_id)),
            ("tenant_tag"@, JsonView::Text(t.tenant_tag)),
            ("first_scheduled_at"@, json::integer_json(t.first_scheduled_at)),
        ],
    )
}

/// The task that a stored form describes; the time of the first request may be absent.
pub open spec fn task_in(v: JsonView) -> Option<TaskView> {
    match (v.member("tn_id"@), v.text_member("subject_id"@), v.text_member("tenant_tag"@)) {
        (Some(JsonView::Unsigned(n)), Some(subject_id), Some(tenant_tag)) => if n <= u32::MAX {
            match v.member("first_scheduled_at"@) {
                None => Some(
                    TaskView { tn_id: n as u32, subject_id, tenant_tag, first_scheduled_at: 0 },
                ),
                Some(x) => match x.signed() {
                    Some(t) => Some(
                        TaskView { tn_id: n as u32, subject_id, tenant_tag, first_scheduled_at: t },
                    ),
                    None => None,
                },
            }
        } else {
            None
        },
        _ => None,
    }
}

/// The fields of a stored task.
pub open spec fn task_fields() -> Seq<Seq<char>> {
    seq!["tn_id"@, "subject_id"@, "tenant_tag"@, "first_scheduled_at"@]
}

/// The task that a stored text describes.
pub open spec fn task_stored(ctx: Seq<char>) -> Option<TaskView> {
    match json::record_of(ctx, task_fields()) {
        Some(v) => task_in(v),
        None => None,
    }
}

proof fn lemma_task_json(t: TaskView)
    ensures
        json::flat(task_json(t)),
        task_json(t).member("tn_id"@) == Some(JsonView::Unsigned(t.tn_id as u64)),
        task_json(t).member("subject_id"@) == Some(JsonView::Text(t.subject_id)),
        task_json(t).member("tenant_tag"@) == Some(JsonView::Text(t.tenant_tag)),
        task_json(t).member("first_scheduled_at"@) == Some(json::integer_json(t.first_scheduled_at)),
{
    reveal_strlit("tn_id");
    reveal_strlit("subject_id");
    reveal_strlit("tenant_tag");
    reveal_strlit("first_scheduled_at");
    let o = task_json(t)->Object_0;
    assert("tn_id"@.len() == 5 && "first_scheduled_at"@.len() == 18);
    assert("subject_id"@[0] == 's' && "tenant_tag"@[0] == 't');
    assert("subject_id"@.len() == 10 && "tenant_tag"@.len() == 10);
    reveal_with_fuel(json::last_named, 5);
    assert(o.drop_last().last() == o[2]);
    assert(o.drop_last().drop_last().last() == o[1]);
    assert(o.drop_last().drop_last().drop_last().last() == o[0]);
}

/// A task that is read from an object with the members that were written is the task that was
/// written.
pub proof fn law_task_round_trip(t: TaskView, v: JsonView)
    requires
        json::same_members(v, task_json(t)),
    ensures
        task_in(v) == Some(t),
{
    lemma_task_json(t);
}

/// The total of the reposts per subtype, without the deletion markers.
pub fn count_reposts(groups: &Vec<(Option<String>, i64)>) -> (r: i64)
    requires
        crate::action::native_hooks::cmnt::sums_fit(groups@),
    ensures
        r == crate::action::native_hooks::cmnt::live_total(groups@),
{
    crate::action::native_hooks::cmnt::count_live(groups)
}

/// What the statistics of a subject say. Every counter is always present, zero or not, so that
/// those who mirror them learn when one goes back to zero.
pub open spec fn stat_json(
    reactions: Seq<char>,
    comments: u32,
    comments_ts: i64,
    reposts: i64,
) -> JsonView {
    JsonView::Object(
        seq![
            ("r"@, JsonView::Text(reactions)),
            ("c"@, JsonView::Unsigned(comments as u64)),
            ("ct"@, json::integer_json(comments_ts)),
            ("rp"@, json::integer_json(reposts)),
        ],
    )
}

/// The content of the statistics of a subject.
pub fn stat_content(reactions: &str, comments: u32, comments_ts: i64, reposts: i64) -> (r: Json)
    ensures
        r@ == stat_json(reactions@, comments, comments_ts, reposts),
{
    let mut o: Vec<(String, Json)> = Vec::new();
    o.push((text::owned("r"), Json::Text(text::owned(reactions))));
    o.push((text::owned("c"), Json::Unsigned(comments as u64)));
    o.push((text::owned("ct"), json::integer(comments_ts)));
    o.push((text::owned("rp"), json::integer(reposts)));
    let j = Json::Object(o);
    proof {
        reveal_with_fuel(json::says, 2);
        assert(j@->Object_0 =~= stat_json(reactions@, comments, comments_ts, reposts)->Object_0);
    }
    j
}

/// Whoever mirrors statistics gets every counter as it was told, zero or not.
pub proof fn law_told_counters_are_mirrored(
    u: MirrorUpdate,
    reactions: Seq<char>,
    comments: u32,
    comments_ts: i64,
    reposts: i64,
)
    requires
        stat::mirrors(u, stat_json(reactions, comments, comments_ts, reposts)),
        0 <= reposts <= u32::MAX,
    ensures
        u.reactions.deep_view() == Some(reactions),
        u.comments == Some(comments),
        u.comments_ts == (if comments_ts > 0 {
            Patch::Value(Timestamp(comments_ts))
        } else {
            Patch::Null
        }),
        u.reposts == Some(reposts as u32),
{
    reveal_strlit("r");
    reveal_strlit("c");
    reveal_strlit("ct");
    reveal_strlit("rp");
    assert("r"@.len() == 1 && "c"@.len() == 1 && "ct"@.len() == 2 && "rp"@.len() == 2);
    assert("r"@[0] != "c"@[0] && "ct"@[0] != "rp"@[0]);
    let o = stat_json(reactions, comments, comments_ts, reposts)->Object_0;
    reveal_with_fuel(json::last_named, 5);
    assert(o.drop_last().last() == o[2]);
    assert(o.drop_last().drop_last().last() == o[1]);
    assert(o.drop_last().drop_last().drop_last().last() == o[0]);
}

/// Whether the counters changed while the statistics were told, so that they have to be told
/// again.
pub fn counters_changed(
    reactions: &str,
    comments: u32,
    later_reactions: &str,
    later_comments: u32,
) -> (r: bool)
    ensures
        r == (later_reactions@ != reactions@ || later_comments != comments),
{
    !text::same(later_reactions, reactions) || later_comments != comments
}

impl StatEmitTask {
    pub fn kind() -> (r: &'static str)
        ensures
            r@ == "stat.emit"@,
    {
        "stat.emit"
    }

    pub fn kind_of(&self) -> (r: &'static str)
        ensures
            r@ == "stat.emit"@,
    {
        StatEmitTask::kind()
    }

    /// The action that tells the statistics of the subject.
    pub fn statistics(&self, reactions: &str, comments: u32, comments_ts: i64, reposts: i64) -> (r:
        CreateAction)
        ensures
            r.typ@ == "STAT"@,
            r.parent_id.deep_view() == Some(self.subject_id@),
            json::held(r.content) == Some(stat_json(reactions@, comments, comments_ts, reposts)),
            r.sub_typ is None && r.audience_tag is None && r.attachments is None,
            r.subject is None && r.expires_at is None && r.visibility is None,
            r.flags is None && r.x is None,
    {
        CreateAction {
            typ: text::owned("STAT"),
            parent_id: Some(self.subject_id.clone()),
            content: Some(stat_content(reactions, comments, comments_ts, reposts)),
            ..CreateAction::default()
        }
    }

    /// The stored form of the task.
    pub fn serialize(&self) -> (r: String)
        ensures
            r@ == json::compact_notation(task_json(self@)),
    {
        let mut o: Vec<(String, Json)> = Vec::new();
        o.push((text::owned("tn_id"), Json::Unsigned(self.tn_id.0 as u64)));
        o.push((text::owned("subject_id"), Json::Text(self.subject_id.clone())));
        o.push((text::owned("tenant_tag"), Json::Text(self.tenant_tag.clone())));
        o.push((text::owned("first_scheduled_at"), json::integer(self.first_scheduled_at)));
        let j = Json::Object(o);
        proof {
            reveal_with_fuel(json::says, 2);
            assert(j@->Object_0 =~= task_json(self@)->Object_0);
        }
        json::write_compact(&j)
    }

    /// The task that a JSON value describes.
    pub fn from_json(v: &Json) -> (r: Result<StatEmitTask, Error>)
        ensures
            match r {
                Ok(t) => task_in(v@) == Some(t@),
                Err(e) => task_in(v@) is None && e is Parse,
            },
    {
        let tn_id: u32 = match v.get("tn_id") {
            Some(x) => match x.as_u64() {
                Some(n) => {
                    if n > 4294967295 {
                        return Err(Error::Parse);
                    }
                    n as u32
                },
                None => {
                    return Err(Error::Parse);
                },
            },
            None => {
                return Err(Error::Parse);
            },
        };
        let (subject_id, tenant_tag) = match (v.get_text("subject_id"), v.get_text("tenant_tag")) {
            (Some(s), Some(t)) => (text::owned(s), text::owned(t)),
            _ => {
                return Err(Error::Parse);
            },
        };
        let first_scheduled_at: i64 = match v.get("first_scheduled_at") {
            Some(x) => match x.as_i64() {
                Some(t) => t,
                None => {
                    return Err(Error::Parse);
                },
            },
            None => 0,
        };
        Ok(StatEmitTask { tn_id: TnId(tn_id), subject_id, tenant_tag, first_scheduled_at })
    }

    /// Reads a task from its stored form. A task that was written is read back as it was.
    pub fn build(ctx: &str) -> (r: Result<StatEmitTask, Error>)
        ensures
            match r {
                Ok(t) => task_stored(ctx@) == Some(t@),
                Err(e) => task_stored(ctx@) is None && e is Parse,
            },
            forall|t: TaskView|
                #![trigger task_json(t)]
                ctx@ == json::compact_notation(task_json(t)) ==> (r matches Ok(x)
                    && x@ == t),
    {
        let fields = vec!["tn_id", "subject_id", "tenant_tag", "first_scheduled_at"];
        assert(fields.deep_view() =~= task_fields());
        match json::read_record(ctx, &fields) {
            Some(v) => {
                proof {
                    assert forall|t: TaskView|
                        ctx@ == json::compact_notation(#[trigger] task_json(t)) implies task_in(v@)
                        == Some(t) by {
                        lemma_task_json(t);
                        law_task_round_trip(t, v@);
                    }
                }
                StatEmitTask::from_json(&v)
            },
            None => {
                proof {
                    assert forall|t: TaskView|
                        ctx@ == json::compact_notation(#[trigger] task_json(t)) implies false by {
                        lemma_task_json(t);
                    }
                }
                Err(Error::Parse)
            },
        }
    }
}

} // verus!
