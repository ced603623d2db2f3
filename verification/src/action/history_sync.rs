//! Fetching the recent history of a new peer.
use crate::decimal;
use crate::json::{self, Json, JsonView};
use crate::text;
use crate::types::{Error, TnId};
use vstd::prelude::*;

verus! {

/// How many days back the history goes by default.
pub const DEFAULT_SINCE_DAYS: i64 = 30;

/// How many actions are fetched by default.
pub const DEFAULT_LIMIT: i64 = 10;

/// The task of fetching the history of a peer.
#[derive(Debug)]
pub struct HistoryFetchTask {
    pub tn_id: TnId,
    pub peer_id_tag: String,
}

/// The stored form of a fetch.
pub open spec fn fetch_json(tn_id: u32, peer: Seq<char>) -> JsonView {
    JsonView::Object(
        seq![
            ("tn_id"@, JsonView::Unsigned(tn_id as u64)),
            ("peer_id_tag"@, JsonView::Text(peer)),
        ],
    )
}

/// The fetch that a stored form describes.
pub open spec fn fetch_in(v: JsonView) -> Option<(u32, Seq<char>)> {
    match (v.member("tn_id"@), v.text_member("peer_id_tag"@)) {
        (Some(JsonView::Unsigned(n)), Some(peer)) if n <= u32::MAX => Some((n as u32, peer)),
        _ => None,
    }
}

/// The fields of a stored fetch.
pub open spec fn fetch_fields() -> Seq<Seq<char>> {
    seq!["tn_id"@, "peer_id_tag"@]
}

/// The fetch that a stored text describes.
pub open spec fn fetch_stored(ctx: Seq<char>) -> Option<(u32, Seq<char>)> {
    match json::record_of(ctx, fetch_fields()) {
        Some(v) => fetch_in(v),
        None => None,
    }
}

proof fn lemma_fetch_json(tn_id: u32, peer: Seq<char>)
    ensures
        json::flat(fetch_json(tn_id, peer)),
        fetch_json(tn_id, peer).member("tn_id"@) == Some(JsonView::Unsigned(tn_id as u64)),
        fetch_json(tn_id, peer).member("peer_id_tag"@) == Some(JsonView::Text(peer)),
{
    reveal_strlit("tn_id");
    reveal_strlit("peer_id_tag");
    assert("tn_id"@.len() == 5 && "peer_id_tag"@.len() == 11);
    let o = fetch_json(tn_id, peer)->Object_0;
    reveal_with_fuel(json::last_named, 3);
    assert(o.drop_last().last() == o[0]);
}

/// A fetch that is read from an object with the members that were written is the fetch that was
/// written.
pub proof fn law_fetch_round_trip(tn_id: u32, peer: Seq<char>, v: JsonView)
    requires
        json::same_members(v, fetch_json(tn_id, peer)),
    ensures
        fetch_in(v) == Some((tn_id, peer)),
{
    lemma_fetch_json(tn_id, peer);
}

/// What a peer hands out: an action, and the actions that it depends on.
#[derive(Debug)]
pub struct OutboxItem {
    pub token: String,
    pub related: Vec<String>,
}

/// One step of taking in what a peer handed out.
#[derive(Debug)]
pub enum IngestStep {
    /// Put an action aside for the one that depends on it.
    PreStore { token: String, primary: String },
    /// Process an action, together with what was put aside for it.
    Process { token: String },
}

pub ghost enum StepView {
    PreStore { token: Seq<char>, primary: Seq<char> },
    Process { token: Seq<char> },
}

impl DeepView for IngestStep {
    type V = StepView;

    open spec fn deep_view(&self) -> StepView {
        match *self {
            IngestStep::PreStore { token, primary } => StepView::PreStore {
                token: token@,
                primary: primary@,
            },
            IngestStep::Process { token } => StepView::Process { token: token@ },
        }
    }
}

/// The steps for one item: what it depends on first.
pub open spec fn item_steps(item: OutboxItem) -> Seq<StepView> {
    item.related@.map_values(
        |t: String| StepView::PreStore { token: t@, primary: item.token@ },
    ).push(StepView::Process { token: item.token@ })
}

/// The steps for all items, in their order.
pub open spec fn all_steps(items: Seq<OutboxItem>) -> Seq<StepView>
    decreases items.len(),
{
    if items.len() == 0 {
        Seq::empty()
    } else {
        all_steps(items.drop_last()) + item_steps(items.last())
    }
}

fn add_step(out: &mut Vec<IngestStep>, step: IngestStep)
    ensures
        final(out).deep_view() == old(out).deep_view().push(step.deep_view()),
{
    let ghost before = out.deep_view();
    out.push(step);
    assert(out.deep_view() =~= before.push(step.deep_view()));
}

/// How to take in what a peer handed out. A step that fails does not stop the others.
pub fn ingest_steps(items: &Vec<OutboxItem>) -> (r: Vec<IngestStep>)
    ensures
        r.deep_view() == all_steps(items@),
{
    let mut out: Vec<IngestStep> = Vec::new();
    assert(out.deep_view() =~= all_steps(items@.take(0)));
    let mut i: usize = 0;
    while i < items.len()
        invariant
            i <= items@.len(),
            out.deep_view() == all_steps(items@.take(i as int)),
        decreases items@.len() - i,
    {
        let item = &items[i];
        let ghost head = out.deep_view();
        let ghost pre = item.related@.map_values(
            |t: String| StepView::PreStore { token: t@, primary: item.token@ },
        );
        assert(head + pre.take(0) =~= head);
        let mut j: usize = 0;
        while j < item.related.len()
            invariant
                pre == item.related@.map_values(
                    |t: String| StepView::PreStore { token: t@, primary: item.token@ },
                ),
                j <= item.related@.len(),
                out.deep_view() == head + pre.take(j as int),
            decreases item.related@.len() - j,
        {
            let ghost mid = out.deep_view();
            add_step(
                &mut out,
                IngestStep::PreStore {
                    token: text::owned(item.related[j].as_str()),
                    primary: text::owned(item.token.as_str()),
                },
            );
            assert(mid.push(pre[j as int]) =~= head + pre.take(j + 1));
            j = j + 1;
        }
        assert(pre.take(j as int) =~= pre);
        add_step(&mut out, IngestStep::Process { token: text::owned(item.token.as_str()) });
        proof {
            assert(items@.take(i + 1).drop_last() =~= items@.take(i as int));
            assert(items@.take(i + 1).last() == items@[i as int]);
            assert(out.deep_view() =~= head + item_steps(items@[i as int]));
        }
        i = i + 1;
    }
    assert(items@.take(i as int) =~= items@);
    out
}

/// Every action that an item depends on is put aside before the item is processed, and nothing
/// else of the item comes after its processing.
pub proof fn law_related_before_primary(item: OutboxItem)
    ensures
        item_steps(item).last() == (StepView::Process { token: item.token@ }),
        item_steps(item).len() == item.related@.len() + 1,
        forall|i: int|
            0 <= i < item.related@.len() ==> (#[trigger] item_steps(item)[i]) == (
            StepView::PreStore { token: item.related@[i]@, primary: item.token@ }),
{
}

/// A setting that counts something: its default where it cannot be read, and never negative.
pub open spec fn counted(setting: Option<i64>, default: i64) -> i64 {
    let v = match setting {
        Some(x) => x,
        None => default,
    };
    if v < 0 {
        0
    } else {
        v
    }
}

/// The time that lies a number of days back, held at the ends of the range.
pub open spec fn days_back(now: i64, days: i64) -> int {
    let secs = if days * 86400 > i64::MAX {
        i64::MAX as int
    } else {
        days * 86400
    };
    if now - secs < i64::MIN {
        i64::MIN as int
    } else {
        now - secs
    }
}

fn count(setting: Option<i64>, default: i64) -> (r: i64)
    ensures
        r == counted(setting, default),
        r >= 0,
{
    let v: i64 = match setting {
        Some(x) => x,
        None => default,
    };
    if v < 0 {
        0
    } else {
        v
    }
}

impl HistoryFetchTask {
    pub fn new(tn_id: TnId, peer_id_tag: String) -> (r: HistoryFetchTask)
        ensures
            r == (HistoryFetchTask { tn_id, peer_id_tag }),
    {
        HistoryFetchTask { tn_id, peer_id_tag }
    }

    pub fn kind() -> (r: &'static str)
        ensures
            r@ == "action.history_sync"@,
    {
        "action.history_sync"
    }

    pub fn kind_of(&self) -> (r: &'static str)
        ensures
            r@ == "action.history_sync"@,
    {
        HistoryFetchTask::kind()
    }

    /// The stored form of the task.
    pub fn serialize(&self) -> (r: String)
        ensures
            r@ == json::compact_notation(fetch_json(self.tn_id.0, self.peer_id_tag@)),
    {
        let mut o: Vec<(String, Json)> = Vec::new();
        o.push((text::owned("tn_id"), Json::Unsigned(self.tn_id.0 as u64)));
        o.push((text::owned("peer_id_tag"), Json::Text(self.peer_id_tag.clone())));
        let j = Json::Object(o);
        proof {
            reveal_with_fuel(json::says, 2);
            assert(j@->Object_0 =~= fetch_json(self.tn_id.0, self.peer_id_tag@)->Object_0);
        }
        json::write_compact(&j)
    }

    /// Reads a task from its stored form. A task that was written is read back as it was.
    pub fn build(ctx: &str) -> (r: Result<HistoryFetchTask, Error>)
        ensures
            match r {
                Ok(t) => fetch_stored(ctx@) == Some((t.tn_id.0, t.peer_id_tag@)),
                Err(e) => fetch_stored(ctx@) is None && e is Parse,
            },
            forall|n: u32, peer: Seq<char>|
                #![trigger fetch_json(n, peer)]
                ctx@ == json::compact_notation(fetch_json(n, peer)) ==> (r matches Ok(x)
                    && x.tn_id.0 == n && x.peer_id_tag@ == peer),
    {
        let fields = vec!["tn_id", "peer_id_tag"];
        assert(fields.deep_view() =~= fetch_fields());
        match json::read_record(ctx, &fields) {
            Some(v) => {
                proof {
                    assert forall|n: u32, peer: Seq<char>|
                        ctx@ == json::compact_notation(
                            #[trigger] fetch_json(n, peer),
                        ) implies fetch_in(v@) == Some((n, peer)) by {
                        lemma_fetch_json(n, peer);
                        law_fetch_round_trip(n, peer, v@);
                    }
                }
                let n: Option<u64> = match v.get("tn_id") {
                    Some(x) => x.as_u64(),
                    None => None,
                };
                match (n, v.get_text("peer_id_tag")) {
                    (Some(n), Some(peer)) => {
                        if n > 4294967295 {
                            return Err(Error::Parse);
                        }
                        Ok(HistoryFetchTask { tn_id: TnId(n as u32), peer_id_tag: text::owned(peer) })
                    },
                    _ => Err(Error::Parse),
                }
            },
            None => {
                proof {
                    assert forall|n: u32, peer: Seq<char>|
                        ctx@ == json::compact_notation(#[trigger] fetch_json(n, peer)) implies false by {
                        lemma_fetch_json(n, peer);
                    }
                }
                Err(Error::Parse)
            },
        }
    }

    /// The key of the task: one fetch per tenant and peer.
    pub fn key(&self) -> (r: String)
        ensures
            r@ == "history_sync:"@ + decimal::decimal_text(self.tn_id.0 as nat) + ":"@
                + self.peer_id_tag@,
    {
        let mut k = text::owned("history_sync:");
        k.append(decimal::unsigned_to_text(self.tn_id.0 as u64).as_str());
        k.append(":");
        k.append(self.peer_id_tag.as_str());
        k
    }

    /// What to ask the peer for; nothing where the limit is none.
    pub fn outbox_path(&self, since_days: Option<i64>, limit: Option<i64>, now: i64) -> (r: Option<
        String,
    >)
        ensures
            r.deep_view() == (if counted(limit, DEFAULT_LIMIT) == 0 {
                None
            } else {
                Some(
                    "/outbox?since="@ + decimal::integer_text(
                        days_back(now, counted(since_days, DEFAULT_SINCE_DAYS)),
                    ) + "&limit="@ + decimal::integer_text(counted(limit, DEFAULT_LIMIT) as int),
                )
            }),
    {
        let days: i64 = count(since_days, DEFAULT_SINCE_DAYS);
        let n: i64 = count(limit, DEFAULT_LIMIT);
        if n == 0 {
            return None;
        }
        let secs: i64 = match days.checked_mul(86400) {
            Some(s) => s,
            None => i64::MAX,
        };
        let since: i64 = match now.checked_sub(secs) {
            Some(s) => s,
            None => i64::MIN,
        };
        let mut p = text::owned("/outbox?since=");
        p.append(decimal::signed_to_text(since).as_str());
        p.append("&limit=");
        p.append(decimal::signed_to_text(n).as_str());
        Some(p)
    }

    /// Whether a failed fetch ends the task quietly: a peer that denies access has not accepted
    /// the tenant yet.
    pub fn gives_up(error: &Error) -> (r: bool)
        ensures
            r == (error is PermissionDenied),
    {
        match error {
            Error::PermissionDenied => true,
            _ => false,
        }
    }
}

} // verus!
