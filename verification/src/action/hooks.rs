//! Hooks: what they are, what they see, and how one runs.
use crate::json::Json;
use crate::str_map::StrMap;
use crate::text;
use crate::types::Error;
use vstd::prelude::*;

verus! {

/// The number of a native hook in the program's table of functions.
#[derive(Debug, Clone, Copy, PartialEq, Eq, Structural)]
pub struct HookFunction(pub u32);

/// How a hook is implemented. Operations are declarative JSON objects.
#[derive(Debug)]
pub enum HookImplementation {
    /// Operations only.
    Dsl(Vec<Json>),
    /// A native function.
    Native(HookFunction),
    /// Operations first, then a native function.
    Hybrid { dsl: Vec<Json>, native: HookFunction },
    /// No hook.
    Absent,
}

impl Default for HookImplementation {
    fn default() -> (r: Self)
        ensures
            r is Absent,
    {
        HookImplementation::Absent
    }
}

impl HookImplementation {
    pub fn is_some(&self) -> (r: bool)
        ensures
            r == !(self is Absent),
    {
        match self {
            HookImplementation::Absent => false,
            _ => true,
        }
    }

    pub fn is_none(&self) -> (r: bool)
        ensures
            r == (self is Absent),
    {
        !self.is_some()
    }
}

/// What a hook reports back.
#[derive(Debug)]
pub struct HookResult {
    /// Variables to merge into the context.
    pub vars: StrMap<Json>,
    /// Whether processing goes on.
    pub continue_processing: bool,
    /// The resting status of the action; the default one where it is absent.
    pub status: Option<char>,
    /// A value for the caller.
    pub return_value: Option<Json>,
}

impl HookResult {
    /// Whether the result carries no variables and no value, and just the given decision.
    pub open spec fn decides(self, continue_processing: bool, status: Option<char>) -> bool {
        self.vars@ == Map::<Seq<char>, Json>::empty() && self.continue_processing
            == continue_processing && self.status == status && self.return_value is None
    }

    /// A result that carries a decision only.
    pub fn decision(continue_processing: bool, status: Option<char>) -> (r: HookResult)
        ensures
            r.decides(continue_processing, status),
    {
        HookResult { vars: StrMap::new(), continue_processing, status, return_value: None }
    }
}

impl Default for HookResult {
    fn default() -> (r: Self)
        ensures
            r.decides(true, None),
    {
        HookResult::decision(true, None)
    }
}

/// The moments of an action's life at which hooks run.
#[derive(Debug, Clone, Copy, PartialEq, Eq, Hash, Structural)]
pub enum HookType {
    OnCreate,
    OnReceive,
    OnAccept,
    OnReject,
}

impl HookType {
    pub fn as_str(&self) -> (r: &'static str)
        ensures
            r@ == (match self {
                HookType::OnCreate => "on_create"@,
                HookType::OnReceive => "on_receive"@,
                HookType::OnAccept => "on_accept"@,
                HookType::OnReject => "on_reject"@,
            }),
    {
        match self {
            HookType::OnCreate => "on_create",
            HookType::OnReceive => "on_receive",
            HookType::OnAccept => "on_accept",
            HookType::OnReject => "on_reject",
        }
    }
}

/// What a hook sees of an action and its surroundings.
#[derive(Debug)]
pub struct HookContext {
    pub action_id: String,
    pub typ: String,
    pub subtype: Option<String>,
    pub issuer: String,
    pub audience: Option<String>,
    pub parent: Option<String>,
    pub subject: Option<String>,
    pub content: Option<Json>,
    pub attachments: Option<Vec<String>>,
    pub created_at: String,
    pub expires_at: Option<String>,
    pub tenant_id: i64,
    pub tenant_tag: String,
    pub tenant_type: String,
    pub is_inbound: bool,
    pub is_outbound: bool,
    pub client_address: Option<String>,
    /// Whether the owner of the subject has vouched for the action.
    pub pre_approved: bool,
    pub vars: StrMap<Json>,
}

impl HookContext {
    /// A builder whose fields are all empty.
    pub fn builder() -> (r: HookContextBuilder)
        ensures
            r.ctx.action_id@ == ""@,
            r.ctx.typ@ == ""@,
            r.ctx.issuer@ == ""@,
            r.ctx.created_at@ == ""@,
            r.ctx.tenant_tag@ == ""@,
            r.ctx.tenant_type@ == ""@,
            r.ctx.subtype is None,
            r.ctx.audience is None,
            r.ctx.parent is None,
            r.ctx.subject is None,
            r.ctx.content is None,
            r.ctx.attachments is None,
            r.ctx.expires_at is None,
            r.ctx.client_address is None,
            r.ctx.tenant_id == 0,
            !r.ctx.is_inbound,
            !r.ctx.is_outbound,
            !r.ctx.pre_approved,
            r.ctx.vars@ == Map::<Seq<char>, Json>::empty(),
    {
        HookContextBuilder {
            ctx: HookContext {
                action_id: text::owned(""),
                typ: text::owned(""),
                subtype: None,
                issuer: text::owned(""),
                audience: None,
                parent: None,
                subject: None,
                content: None,
                attachments: None,
                created_at: text::owned(""),
                expires_at: None,
                tenant_id: 0,
                tenant_tag: text::owned(""),
                tenant_type: text::owned(""),
                is_inbound: false,
                is_outbound: false,
                client_address: None,
                pre_approved: false,
                vars: StrMap::new(),
            },
        }
    }
}

/// Builds a context field by field.
pub struct HookContextBuilder {
    pub ctx: HookContext,
}

impl HookContextBuilder {
    pub fn action_id(self, id: String) -> (r: Self)
        ensures
            r.ctx == (HookContext { action_id: id, ..self.ctx }),
    {
        let mut b = self;
        b.ctx.action_id = id;
        b
    }

    pub fn action_type(self, t: String) -> (r: Self)
        ensures
            r.ctx == (HookContext { typ: t, ..self.ctx }),
    {
        let mut b = self;
        b.ctx.typ = t;
        b
    }

    pub fn subtype(self, st: Option<String>) -> (r: Self)
        ensures
            r.ctx == (HookContext { subtype: st, ..self.ctx }),
    {
        let mut b = self;
        b.ctx.subtype = st;
        b
    }

    pub fn issuer(self, i: String) -> (r: Self)
        ensures
            r.ctx == (HookContext { issuer: i, ..self.ctx }),
    {
        let mut b = self;
        b.ctx.issuer = i;
        b
    }

    pub fn audience(self, a: Option<String>) -> (r: Self)
        ensures
            r.ctx == (HookContext { audience: a, ..self.ctx }),
    {
        let mut b = self;
        b.ctx.audience = a;
        b
    }

    pub fn parent(self, p: Option<String>) -> (r: Self)
        ensures
            r.ctx == (HookContext { parent: p, ..self.ctx }),
    {
        let mut b = self;
        b.ctx.parent = p;
        b
    }

    pub fn subject(self, s: Option<String>) -> (r: Self)
        ensures
            r.ctx == (HookContext { subject: s, ..self.ctx }),
    {
        let mut b = self;
        b.ctx.subject = s;
        b
    }

    pub fn content(self, c: Option<Json>) -> (r: Self)
        ensures
            r.ctx == (HookContext { content: c, ..self.ctx }),
    {
        let mut b = self;
        b.ctx.content = c;
        b
    }

    pub fn attachments(self, a: Option<Vec<String>>) -> (r: Self)
        ensures
            r.ctx == (HookContext { attachments: a, ..self.ctx }),
    {
        let mut b = self;
        b.ctx.attachments = a;
        b
    }

    pub fn created_at(self, ts: String) -> (r: Self)
        ensures
            r.ctx == (HookContext { created_at: ts, ..self.ctx }),
    {
        let mut b = self;
        b.ctx.created_at = ts;
        b
    }

    pub fn expires_at(self, ts: Option<String>) -> (r: Self)
        ensures
            r.ctx == (HookContext { expires_at: ts, ..self.ctx }),
    {
        let mut b = self;
        b.ctx.expires_at = ts;
        b
    }

    pub fn tenant(self, id: i64, tag: String, typ: String) -> (r: Self)
        ensures
            r.ctx == (HookContext { tenant_id: id, tenant_tag: tag, tenant_type: typ, ..self.ctx }),
    {
        let mut b = self;
        b.ctx.tenant_id = id;
        b.ctx.tenant_tag = tag;
        b.ctx.tenant_type = typ;
        b
    }

    pub fn inbound(self) -> (r: Self)
        ensures
            r.ctx == (HookContext { is_inbound: true, is_outbound: false, ..self.ctx }),
    {
        let mut b = self;
        b.ctx.is_inbound = true;
        b.ctx.is_outbound = false;
        b
    }

    pub fn outbound(self) -> (r: Self)
        ensures
            r.ctx == (HookContext { is_inbound: false, is_outbound: true, ..self.ctx }),
    {
        let mut b = self;
        b.ctx.is_inbound = false;
        b.ctx.is_outbound = true;
        b
    }

    pub fn client_address(self, addr: Option<String>) -> (r: Self)
        ensures
            r.ctx == (HookContext { client_address: addr, ..self.ctx }),
    {
        let mut b = self;
        b.ctx.client_address = addr;
        b
    }

    pub fn vars(self, vars: StrMap<Json>) -> (r: Self)
        ensures
            r.ctx == (HookContext { vars, ..self.ctx }),
    {
        let mut b = self;
        b.ctx.vars = vars;
        b
    }

    pub fn build(self) -> (r: HookContext)
        ensures
            r == self.ctx,
    {
        self.ctx
    }
}

/// The native hooks of one action type.
#[derive(Debug, Clone, Copy, PartialEq, Eq)]
pub struct ActionTypeHooks {
    pub on_create: Option<HookFunction>,
    pub on_receive: Option<HookFunction>,
    pub on_accept: Option<HookFunction>,
    pub on_reject: Option<HookFunction>,
}

impl ActionTypeHooks {
    pub open spec fn at(self, t: HookType) -> Option<HookFunction> {
        match t {
            HookType::OnCreate => self.on_create,
            HookType::OnReceive => self.on_receive,
            HookType::OnAccept => self.on_accept,
            HookType::OnReject => self.on_reject,
        }
    }

    pub open spec fn none() -> ActionTypeHooks {
        ActionTypeHooks { on_create: None, on_receive: None, on_accept: None, on_reject: None }
    }

    /// The hooks with the one for `t` set to `f`.
    pub open spec fn with(self, t: HookType, f: HookFunction) -> ActionTypeHooks {
        match t {
            HookType::OnCreate => ActionTypeHooks { on_create: Some(f), ..self },
            HookType::OnReceive => ActionTypeHooks { on_receive: Some(f), ..self },
            HookType::OnAccept => ActionTypeHooks { on_accept: Some(f), ..self },
            HookType::OnReject => ActionTypeHooks { on_reject: Some(f), ..self },
        }
    }
}

/// The registry of native hooks.
#[derive(Debug)]
pub struct HookRegistry {
    hooks: StrMap<ActionTypeHooks>,
}

impl View for HookRegistry {
    type V = Map<Seq<char>, ActionTypeHooks>;

    closed spec fn view(&self) -> Map<Seq<char>, ActionTypeHooks> {
        self.hooks@
    }
}

/// The hook that a registry holds for a type and a moment.
pub open spec fn registered(
    m: Map<Seq<char>, ActionTypeHooks>,
    name: Seq<char>,
    t: HookType,
) -> Option<HookFunction> {
    if m.dom().contains(name) {
        m[name].at(t)
    } else {
        None
    }
}

/// A registry with one hook of a type set and its others kept.
pub open spec fn with_hook(
    m: Map<Seq<char>, ActionTypeHooks>,
    name: Seq<char>,
    t: HookType,
    f: HookFunction,
) -> Map<Seq<char>, ActionTypeHooks> {
    m.insert(
        name,
        (if m.dom().contains(name) {
            m[name]
        } else {
            ActionTypeHooks::none()
        }).with(t, f),
    )
}

/// A registry with all hooks of a type set.
pub open spec fn with_hooks(
    m: Map<Seq<char>, ActionTypeHooks>,
    name: Seq<char>,
    hooks: ActionTypeHooks,
) -> Map<Seq<char>, ActionTypeHooks> {
    m.insert(name, hooks)
}

impl HookRegistry {
    pub fn new() -> (r: HookRegistry)
        ensures
            r@ == Map::<Seq<char>, ActionTypeHooks>::empty(),
    {
        HookRegistry { hooks: StrMap::new() }
    }

    /// Sets all hooks of an action type.
    pub fn register_type(&mut self, name: &str, hooks: ActionTypeHooks)
        ensures
            final(self)@ == with_hooks(old(self)@, name@, hooks),
    {
        self.hooks.insert(text::owned(name), hooks);
    }

    /// Sets one hook of an action type and keeps its others.
    pub fn register_hook(&mut self, name: &str, hook_type: HookType, function: HookFunction)
        ensures
            final(self)@ == with_hook(old(self)@, name@, hook_type, function),
    {
        let mut hooks = match self.hooks.get(name) {
            Some(h) => *h,
            None => ActionTypeHooks {
                on_create: None,
                on_receive: None,
                on_accept: None,
                on_reject: None,
            },
        };
        match hook_type {
            HookType::OnCreate => {
                hooks.on_create = Some(function);
            },
            HookType::OnReceive => {
                hooks.on_receive = Some(function);
            },
            HookType::OnAccept => {
                hooks.on_accept = Some(function);
            },
            HookType::OnReject => {
                hooks.on_reject = Some(function);
            },
        }
        self.hooks.insert(text::owned(name), hooks);
    }

    pub fn get_hook(&self, name: &str, hook_type: HookType) -> (r: Option<HookFunction>)
        ensures
            r == registered(self@, name@, hook_type),
    {
        match self.hooks.get(name) {
            Some(hooks) => match hook_type {
                HookType::OnCreate => hooks.on_create,
                HookType::OnReceive => hooks.on_receive,
                HookType::OnAccept => hooks.on_accept,
                HookType::OnReject => hooks.on_reject,
            },
            None => None,
        }
    }

    pub fn has_hook(&self, name: &str, hook_type: HookType) -> (r: bool)
        ensures
            r == (registered(self@, name@, hook_type) is Some),
    {
        self.get_hook(name, hook_type).is_some()
    }

    /// The action types with an entry, each once.
    pub fn registered_types(&self) -> (r: Vec<String>)
        ensures
            r.deep_view().no_duplicates(),
            r.deep_view().to_set() == self@.dom(),
    {
        self.hooks.keys()
    }
}

impl Default for HookRegistry {
    fn default() -> (r: Self)
        ensures
            r@ == Map::<Seq<char>, ActionTypeHooks>::empty(),
    {
        HookRegistry::new()
    }
}

/// Registering one hook makes that hook the one found, and leaves every other one as it was.
pub proof fn law_register_hook(
    m: Map<Seq<char>, ActionTypeHooks>,
    name: Seq<char>,
    t: HookType,
    f: HookFunction,
    other: Seq<char>,
    u: HookType,
)
    ensures
        ({
            let after = with_hook(m, name, t, f);
            &&& registered(after, name, t) == Some(f)
            &&& (other != name || u != t) ==> registered(after, other, u) == registered(m, other, u)
        }),
{
}

// ---------------------------------------------------------------------------------------------
// Running a hook
// ---------------------------------------------------------------------------------------------

/// Where the run of a hook stands.
pub enum HookPhase {
    /// The operation with this index is to be executed, under the time limit of the operations.
    Operation(usize),
    /// The native function is to be called, under a time limit of its own.
    Native(HookFunction),
    /// The run is over, with this result.
    Done(HookResult),
    /// The run is over, and its result carries the variables of the context.
    DoneWithVars,
    /// The run is over, with this error.
    Failed(Error),
}

/// What happened to the step that was asked for.
pub enum HookEvent {
    OperationDone,
    /// The operation asked to end the operations early.
    OperationReturned,
    OperationFailed(Error),
    NativeDone(HookResult),
    NativeFailed(Error),
    TimedOut,
}

/// The run of one hook.
pub struct HookRun {
    /// How many operations there are.
    pub operations: usize,
    /// The native function to call after them.
    pub native: Option<HookFunction>,
    /// Whether the hook is made of operations alone.
    pub dsl_only: bool,
    pub phase: HookPhase,
}

impl HookRun {
    pub open spec fn wf(self) -> bool {
        &&& self.phase matches HookPhase::Operation(i) ==> i < self.operations
        &&& self.dsl_only ==> self.native is None
    }

    pub open spec fn over(self) -> bool {
        !(self.phase is Operation || self.phase is Native)
    }

    /// How many steps are left at most.
    pub open spec fn steps_left(self) -> int {
        match self.phase {
            HookPhase::Operation(i) => self.operations - i + 1,
            HookPhase::Native(_) => 1,
            _ => 0,
        }
    }
}

/// Whether the operations end after this event without an error.
pub open spec fn operations_end(run: HookRun, event: HookEvent) -> bool {
    &&& run.phase is Operation
    &&& event is OperationReturned || (event is OperationDone && run.phase->Operation_0 + 1
        >= run.operations)
}

/// Starts the run of a hook, given its implementation and the native function registered for
/// it. A hook made of operations never calls a native function; every other one does where one
/// is registered.
pub fn begin_run(implementation: &HookImplementation, registered: Option<HookFunction>) -> (r:
    HookRun)
    ensures
        r.wf(),
        r.operations == (match implementation {
            HookImplementation::Dsl(ops) => ops@.len(),
            HookImplementation::Hybrid { dsl, native } => dsl@.len(),
            _ => 0,
        }),
        r.dsl_only == (implementation is Dsl),
        r.native == (if implementation is Dsl {
            None
        } else {
            registered
        }),
        r.operations > 0 ==> r.phase == HookPhase::Operation(0),
        r.operations == 0 && r.native is Some ==> r.phase == HookPhase::Native(r.native->0),
        r.operations == 0 && r.native is None ==> (r.phase matches HookPhase::Done(res)
            && res.decides(true, None)),
{
    let operations: usize = match implementation {
        HookImplementation::Dsl(ops) => ops.len(),
        HookImplementation::Hybrid { dsl, native: _ } => dsl.len(),
        _ => 0,
    };
    let dsl_only = match implementation {
        HookImplementation::Dsl(_) => true,
        _ => false,
    };
    let native: Option<HookFunction> = if dsl_only {
        None
    } else {
        registered
    };
    let phase = if operations > 0 {
        HookPhase::Operation(0)
    } else {
        match native {
            Some(f) => HookPhase::Native(f),
            None => HookPhase::Done(HookResult::decision(true, None)),
        }
    };
    HookRun { operations, native, dsl_only, phase }
}

/// Takes a run one event further. An event that does not belong to the step that was asked for
/// leaves the run as it is.
pub fn advance(run: HookRun, event: HookEvent) -> (r: HookRun)
    requires
        run.wf(),
    ensures
        r.wf(),
        r.operations == run.operations && r.native == run.native && r.dsl_only == run.dsl_only,
        run.over() ==> r == run,
        !run.over() && event is TimedOut ==> r.phase == HookPhase::Failed(Error::Timeout),
        run.phase is Operation ==> {
            &&& event matches HookEvent::OperationFailed(e) ==> r.phase == HookPhase::Failed(e)
            &&& (event is OperationDone && run.phase->Operation_0 + 1 < run.operations)
                ==> r.phase == HookPhase::Operation((run.phase->Operation_0 + 1) as usize)
            &&& operations_end(run, event) && run.dsl_only ==> r.phase is DoneWithVars
            &&& operations_end(run, event) && run.native is Some ==> r.phase == HookPhase::Native(
                run.native->0,
            )
            &&& operations_end(run, event) && !run.dsl_only && run.native is None ==> (
            r.phase matches HookPhase::Done(res) && res.decides(true, None))
            &&& (event is NativeDone || event is NativeFailed) ==> r == run
        },
        run.phase is Native ==> {
            &&& event matches HookEvent::NativeDone(res) ==> r.phase == HookPhase::Done(res)
            &&& event matches HookEvent::NativeFailed(e) ==> r.phase == HookPhase::Failed(e)
            &&& (event is OperationDone || event is OperationReturned || event is OperationFailed)
                ==> r == run
        },
        r == run || r.steps_left() < run.steps_left(),
{
    let HookRun { operations, native, dsl_only, phase } = run;
    let next = match phase {
        HookPhase::Operation(i) => match event {
            HookEvent::TimedOut => HookPhase::Failed(Error::Timeout),
            HookEvent::OperationFailed(e) => HookPhase::Failed(e),
            HookEvent::OperationDone => {
                if i + 1 < operations {
                    HookPhase::Operation(i + 1)
                } else {
                    after_operations(native, dsl_only)
                }
            },
            HookEvent::OperationReturned => after_operations(native, dsl_only),
            _ => HookPhase::Operation(i),
        },
        HookPhase::Native(f) => match event {
            HookEvent::TimedOut => HookPhase::Failed(Error::Timeout),
            HookEvent::NativeDone(res) => HookPhase::Done(res),
            HookEvent::NativeFailed(e) => HookPhase::Failed(e),
            _ => HookPhase::Native(f),
        },
        other => other,
    };
    HookRun { operations, native, dsl_only, phase: next }
}

fn after_operations(native: Option<HookFunction>, dsl_only: bool) -> (r: HookPhase)
    requires
        dsl_only ==> native is None,
    ensures
        dsl_only ==> r is DoneWithVars,
        native is Some ==> r == HookPhase::Native(native->0),
        !dsl_only && native is None ==> (r matches HookPhase::Done(res) && res.decides(true, None)),
{
    if dsl_only {
        HookPhase::DoneWithVars
    } else {
        match native {
            Some(f) => HookPhase::Native(f),
            None => HookPhase::Done(HookResult::decision(true, None)),
        }
    }
}

/// The event for the outcome of an operation: an error that carries the marker of an early
/// return is no failure.
pub fn operation_event(outcome: Result<(), Error>, early_return_marker: &str) -> (r: HookEvent)
    ensures
        outcome is Ok ==> r is OperationDone,
        outcome matches Err(e) ==> {
            if e matches Error::ValidationError(m) && m@ == early_return_marker@ {
                r is OperationReturned
            } else {
                r == HookEvent::OperationFailed(e)
            }
        },
{
    match outcome {
        Ok(()) => HookEvent::OperationDone,
        Err(Error::ValidationError(m)) => {
            if text::same(m.as_str(), early_return_marker) {
                HookEvent::OperationReturned
            } else {
                HookEvent::OperationFailed(Error::ValidationError(m))
            }
        },
        Err(e) => HookEvent::OperationFailed(e),
    }
}

/// What a finished run comes to, with the variables that the context then holds.
pub fn run_result(run: HookRun, context_vars: StrMap<Json>) -> (r: Result<HookResult, Error>)
    requires
        run.wf(),
        run.over(),
    ensures
        run.phase matches HookPhase::Done(res) ==> r == Ok::<HookResult, Error>(res),
        run.phase matches HookPhase::Failed(e) ==> r == Err::<HookResult, Error>(e),
        run.phase is DoneWithVars ==> (r matches Ok(res) && res.vars == context_vars
            && res.continue_processing && res.status is None && res.return_value is None),
{
    match run.phase {
        HookPhase::Done(res) => Ok(res),
        HookPhase::Failed(e) => Err(e),
        _ => Ok(
            HookResult {
                vars: context_vars,
                continue_processing: true,
                status: None,
                return_value: None,
            },
        ),
    }
}

} // verus!
