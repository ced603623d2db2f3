//! Access tokens: what a credential is traded for.
use crate::text;
use crate::types::{AuthCtx, Error, ErrorView, TnId};
use vstd::prelude::*;

verus! {

/// How much somebody may do with a file, from the least to the most.
#[derive(Debug, Clone, Copy, PartialEq, Eq, Structural)]
pub enum AccessLevel {
    Nothing,
    Read,
    Comment,
    Write,
    Admin,
}

impl AccessLevel {
    pub open spec fn rank(self) -> int {
        match self {
            AccessLevel::Nothing => 0,
            AccessLevel::Read => 1,
            AccessLevel::Comment => 2,
            AccessLevel::Write => 3,
            AccessLevel::Admin => 4,
        }
    }

    /// The lower of two levels.
    pub open spec fn lower(self, other: AccessLevel) -> AccessLevel {
        if self.rank() <= other.rank() {
            self
        } else {
            other
        }
    }

    /// The level that a permission letter stands for; an unknown one is reading.
    pub open spec fn of_letter(c: char) -> AccessLevel {
        if c == 'A' {
            AccessLevel::Admin
        } else if c == 'W' {
            AccessLevel::Write
        } else if c == 'C' {
            AccessLevel::Comment
        } else {
            AccessLevel::Read
        }
    }

    /// The letter for a level in a scope, which never carries more than writing.
    pub open spec fn letter(self) -> Option<char> {
        match self {
            AccessLevel::Nothing => None,
            AccessLevel::Read => Some('R'),
            AccessLevel::Comment => Some('C'),
            AccessLevel::Write => Some('W'),
            AccessLevel::Admin => Some('W'),
        }
    }

    fn order(self) -> (r: u8)
        ensures
            r == self.rank(),
    {
        match self {
            AccessLevel::Nothing => 0,
            AccessLevel::Read => 1,
            AccessLevel::Comment => 2,
            AccessLevel::Write => 3,
            AccessLevel::Admin => 4,
        }
    }

    pub fn lower_of(self, other: AccessLevel) -> (r: AccessLevel)
        ensures
            r == self.lower(other),
    {
        if self.order() <= other.order() {
            self
        } else {
            other
        }
    }

    pub fn from_perm_char(c: char) -> (r: AccessLevel)
        ensures
            r == AccessLevel::of_letter(c),
    {
        if c == 'A' {
            AccessLevel::Admin
        } else if c == 'W' {
            AccessLevel::Write
        } else if c == 'C' {
            AccessLevel::Comment
        } else {
            AccessLevel::Read
        }
    }

    /// The letter of a level in a grant.
    pub open spec fn perm_letter(self) -> Option<char> {
        match self {
            AccessLevel::Nothing => None,
            AccessLevel::Read => Some('R'),
            AccessLevel::Comment => Some('C'),
            AccessLevel::Write => Some('W'),
            AccessLevel::Admin => Some('A'),
        }
    }

    pub fn to_perm_char(self) -> (r: Option<char>)
        ensures
            r == self.perm_letter(),
    {
        match self {
            AccessLevel::Nothing => None,
            AccessLevel::Read => Some('R'),
            AccessLevel::Comment => Some('C'),
            AccessLevel::Write => Some('W'),
            AccessLevel::Admin => Some('A'),
        }
    }

    pub fn to_scope_char(self) -> (r: Option<char>)
        ensures
            r == self.letter(),
    {
        match self {
            AccessLevel::Nothing => None,
            AccessLevel::Read => Some('R'),
            AccessLevel::Comment => Some('C'),
            AccessLevel::Write => Some('W'),
            AccessLevel::Admin => Some('W'),
        }
    }
}

/// What a token is restricted to.
#[derive(Debug)]
pub enum TokenScope {
    /// One file, up to a level.
    File { file_id: String, access: AccessLevel },
    /// Publishing packages.
    ApkgPublish,
}

pub enum ScopeView {
    File { file_id: Seq<char>, access: AccessLevel },
    ApkgPublish,
}

impl View for TokenScope {
    type V = ScopeView;

    open spec fn view(&self) -> ScopeView {
        match self {
            TokenScope::File { file_id, access } => ScopeView::File {
                file_id: file_id@,
                access: *access,
            },
            TokenScope::ApkgPublish => ScopeView::ApkgPublish,
        }
    }
}

pub open spec fn opt_scope(s: Option<&TokenScope>) -> Option<ScopeView> {
    match s {
        Some(x) => Some(x@),
        None => None,
    }
}

/// The scope of a file at a level.
pub open spec fn file_scope_text(file_id: Seq<char>, letter: char) -> Seq<char> {
    "file:"@ + file_id + ":"@ + seq![letter]
}

fn file_scope(file_id: &str, letter: char) -> (r: String)
    ensures
        r@ == file_scope_text(file_id@, letter),
{
    let mut s = text::owned("file:");
    s.append(file_id);
    s.append(":");
    s.push(letter);
    assert(s@ =~= file_scope_text(file_id@, letter));
    s
}

// ---------------------------------------------------------------------------------------------
// Scopes on request
// ---------------------------------------------------------------------------------------------

/// Whether a text is one of the four scopes for contacts and calendars.
pub open spec fn is_dav_scope(s: Seq<char>) -> bool {
    s == "carddav:read"@ || s == "carddav:write"@ || s == "caldav:read"@ || s == "caldav:write"@
}

pub open spec fn trim_all(parts: Seq<Seq<char>>) -> Seq<Seq<char>> {
    Seq::new(parts.len(), |i: int| text::trimmed(parts[i]))
}

/// A list of scopes for contacts and calendars with commas between them and no white space;
/// nothing where one of its entries is another scope.
pub open spec fn dav_scope_of(requested: Seq<char>) -> Option<Seq<char>> {
    let entries = trim_all(text::split_on(requested, ','));
    if forall|i: int| 0 <= i < entries.len() ==> is_dav_scope(#[trigger] entries[i]) {
        Some(text::joined(entries, ","@))
    } else {
        None
    }
}

pub fn normalized_dav_scope(requested: &str) -> (r: Option<String>)
    ensures
        r.deep_view() == dav_scope_of(requested@),
{
    let parts = text::split_char(requested, ',');
    let ghost all = trim_all(parts.deep_view());
    let mut entries: Vec<String> = Vec::new();
    let mut i: usize = 0;
    while i < parts.len()
        invariant
            all == trim_all(parts.deep_view()),
            all == trim_all(text::split_on(requested@, ',')),
            all.len() == parts@.len(),
            i <= parts@.len(),
            entries.deep_view() == all.take(i as int),
            forall|k: int| 0 <= k < i ==> is_dav_scope(#[trigger] all[k]),
        decreases parts@.len() - i,
    {
        let ghost before = entries.deep_view();
        let e = text::trim(parts[i].as_str());
        assert(e@ == all[i as int]);
        let known = text::same(e.as_str(), "carddav:read") || text::same(
            e.as_str(),
            "carddav:write",
        ) || text::same(e.as_str(), "caldav:read") || text::same(e.as_str(), "caldav:write");
        if !known {
            assert(!is_dav_scope(all[i as int]));
            return None;
        }
        entries.push(e);
        assert(entries.deep_view() =~= before.push(e@));
        assert(all.take(i + 1) =~= all.take(i as int).push(all[i as int]));
        i = i + 1;
    }
    assert(all.take(i as int) =~= all);
    Some(text::join(&entries, ","))
}

/// What becomes of a scope on request.
pub enum ScopeOutcome {
    Scope(Option<Seq<char>>),
    Invalid,
    Denied,
}

/// What becomes of a scope on request. A scope for a file is cut down to the access that the
/// caller has to it, and denied where they have none; publishing is for leaders; the scopes for
/// contacts and calendars pass; everything else is invalid.
pub open spec fn scope_outcome(
    requested: Option<Seq<char>>,
    parsed: Option<ScopeView>,
    file_access: Option<AccessLevel>,
    leader: bool,
) -> ScopeOutcome {
    match requested {
        None => ScopeOutcome::Scope(None),
        Some(req) => match parsed {
            None => match dav_scope_of(req) {
                Some(s) => ScopeOutcome::Scope(Some(s)),
                None => ScopeOutcome::Invalid,
            },
            Some(ScopeView::File { file_id, access }) => match file_access {
                Some(level) => match access.lower(level).letter() {
                    Some(c) => ScopeOutcome::Scope(Some(file_scope_text(file_id, c))),
                    None => ScopeOutcome::Denied,
                },
                None => ScopeOutcome::Denied,
            },
            Some(ScopeView::ApkgPublish) => if leader {
                ScopeOutcome::Scope(Some(req))
            } else {
                ScopeOutcome::Denied
            },
        },
    }
}

pub open spec fn is_scope_result(r: Result<Option<String>, Error>, o: ScopeOutcome) -> bool {
    match o {
        ScopeOutcome::Scope(s) => r matches Ok(x) && x.deep_view() == s,
        ScopeOutcome::Invalid => r matches Err(e) && e.deep_view() == ErrorView::ValidationError(
            "Invalid scope format"@,
        ),
        ScopeOutcome::Denied => r matches Err(e) && e is PermissionDenied,
    }
}

/// The scope that a token gets. `parsed` is what the requested scope means, `file_access` the
/// access that the caller has to the file it names, and `leader` the verdict on their roles.
pub fn validated_scope(
    requested: Option<&str>,
    parsed: Option<&TokenScope>,
    file_access: Option<AccessLevel>,
    leader: bool,
) -> (r: Result<Option<String>, Error>)
    ensures
        is_scope_result(
            r,
            scope_outcome(requested.deep_view(), opt_scope(parsed), file_access, leader),
        ),
{
    let req = match requested {
        Some(x) => x,
        None => {
            return Ok(None);
        },
    };
    match parsed {
        None => match normalized_dav_scope(req) {
            Some(s) => Ok(Some(s)),
            None => Err(Error::ValidationError(text::owned("Invalid scope format"))),
        },
        Some(TokenScope::File { file_id, access }) => match file_access {
            Some(level) => match access.lower_of(level).to_scope_char() {
                Some(c) => Ok(Some(file_scope(file_id.as_str(), c))),
                None => Err(Error::PermissionDenied),
            },
            None => Err(Error::PermissionDenied),
        },
        Some(TokenScope::ApkgPublish) => {
            if leader {
                Ok(Some(text::owned(req)))
            } else {
                Err(Error::PermissionDenied)
            }
        },
    }
}

// ---------------------------------------------------------------------------------------------
// Roles and identities
// ---------------------------------------------------------------------------------------------

/// The identity that a derived token names: that of the caller, unless they are anonymous.
pub fn derived_sub<'a>(auth: &'a AuthCtx) -> (r: Option<&'a str>)
    ensures
        r.deep_view() == (if auth.anonymous {
            None
        } else {
            Some(auth.id_tag@)
        }),
{
    if auth.anonymous {
        None
    } else {
        Some(auth.id_tag.as_str())
    }
}

/// The longest life, in seconds, of a token that is traded for a session.
pub const PROXY_TOKEN_MAX_LIFETIME: i64 = 300;

/// Whether an action token may be traded for a session: only a proxy token may, and only one
/// that expires soon.
pub open spec fn exchangeable(typ: Seq<char>, exp: Option<i64>, max_exp: i64) -> bool {
    typ == "PROXY"@ && exp is Some && exp->0 <= max_exp
}

pub fn proxy_exchange_allowed(typ: &str, exp: Option<i64>, max_exp: i64) -> (r: bool)
    ensures
        r == exchangeable(typ@, exp, max_exp),
{
    text::same(typ, "PROXY") && match exp {
        Some(e) => e <= max_exp,
        None => false,
    }
}

/// The entries that occur in a list, in order.
pub open spec fn kept(entries: Seq<Seq<char>>, list: Seq<Seq<char>>) -> Seq<Seq<char>>
    decreases entries.len(),
{
    if entries.len() == 0 {
        Seq::empty()
    } else {
        let rest = kept(entries.drop_last(), list);
        if list.contains(entries.last()) {
            rest.push(entries.last())
        } else {
            rest
        }
    }
}

/// A list of roles cut down to those that were presented.
pub open spec fn narrowed(expanded: Option<Seq<char>>, presented: Seq<Seq<char>>) -> Option<
    Seq<char>,
> {
    match expanded {
        Some(s) => Some(text::joined(kept(text::split_on(s, ','), presented), ","@)),
        None => None,
    }
}

/// Cuts a list of roles down to those that were presented.
pub fn narrow_to_presented(expanded: Option<String>, presented: &Vec<String>) -> (r: Option<String>)
    ensures
        r.deep_view() == narrowed(expanded.deep_view(), presented.deep_view()),
{
    match expanded {
        None => None,
        Some(s) => {
            let parts = text::split_char(s.as_str(), ',');
            let ghost all = parts.deep_view();
            let mut out: Vec<String> = Vec::new();
            let mut i: usize = 0;
            assert(out.deep_view() =~= kept(all.take(0), presented.deep_view()));
            while i < parts.len()
                invariant
                    all == parts.deep_view(),
                    i <= parts@.len(),
                    out.deep_view() == kept(all.take(i as int), presented.deep_view()),
                decreases parts@.len() - i,
            {
                let ghost before = out.deep_view();
                proof {
                    assert(all.take(i + 1).drop_last() =~= all.take(i as int));
                    assert(all.take(i + 1).last() == parts@[i as int]@);
                }
                if crate::action::helpers::contains_tag(presented, parts[i].as_str()) {
                    out.push(parts[i].clone());
                    assert(out.deep_view() =~= before.push(parts@[i as int]@));
                }
                i = i + 1;
            }
            assert(all.take(i as int) =~= all);
            Some(text::join(&out, ","))
        },
    }
}

/// Narrowing never adds a role: what is kept was presented and was in the list.
pub proof fn law_narrowing_never_adds(
    entries: Seq<Seq<char>>,
    presented: Seq<Seq<char>>,
    role: Seq<char>,
)
    ensures
        kept(entries, presented).contains(role) <==> entries.contains(role) && presented.contains(
            role,
        ),
    decreases entries.len(),
{
    if entries.len() > 0 {
        let rest = entries.drop_last();
        law_narrowing_never_adds(rest, presented, role);
        crate::action::helpers::lemma_push_contains(
            kept(rest, presented),
            entries.last(),
            role,
        );
        assert(entries =~= rest.push(entries.last()));
        crate::action::helpers::lemma_push_contains(rest, entries.last(), role);
    }
}

/// A credential that carries no roles gets none, whatever is on record.
pub proof fn law_no_roles_stay_no_roles(expanded: Seq<char>)
    ensures
        narrowed(Some(expanded), Seq::empty()) == Some(Seq::<char>::empty()),
{
    let entries = text::split_on(expanded, ',');
    lemma_kept_of_nothing(entries);
}

proof fn lemma_kept_of_nothing(entries: Seq<Seq<char>>)
    ensures
        kept(entries, Seq::empty()) == Seq::<Seq<char>>::empty(),
    decreases entries.len(),
{
    if entries.len() > 0 {
        lemma_kept_of_nothing(entries.drop_last());
    }
}

/// The roles of a tenant's own account, before they are expanded: it leads, and has the further
/// roles on record.
pub open spec fn account_roles(extra: Option<Seq<Seq<char>>>) -> Seq<Seq<char>> {
    seq!["leader"@] + (match extra {
        Some(roles) => roles,
        None => Seq::empty(),
    })
}

/// The roles of a tenant's own account, given the further ones on record, where they could be
/// read.
pub fn owner_role_names(extra: Option<Vec<String>>) -> (r: Vec<String>)
    ensures
        r.deep_view() == account_roles(extra.deep_view()),
{
    let mut out: Vec<String> = Vec::new();
    out.push(text::owned("leader"));
    assert(out.deep_view() =~= seq!["leader"@]);
    match extra {
        Some(roles) => {
            let ghost all = roles.deep_view();
            let mut i: usize = 0;
            while i < roles.len()
                invariant
                    all == roles.deep_view(),
                    i <= roles@.len(),
                    out.deep_view() == seq!["leader"@] + all.take(i as int),
                decreases roles@.len() - i,
            {
                let ghost before = out.deep_view();
                out.push(roles[i].clone());
                assert(out.deep_view() =~= before.push(all[i as int]));
                assert(all.take(i + 1) =~= all.take(i as int).push(all[i as int]));
                i = i + 1;
            }
            assert(all.take(i as int) =~= all);
        },
        None => {
            assert(out.deep_view() =~= account_roles(None));
        },
    }
    out
}

/// What the store says about the roles of a caller.
pub struct RoleFacts {
    /// The status of the tenant, where it has one and could be read; `X` for a deleted one.
    pub tenant_status: Option<String>,
    /// The expanded roles of the tenant's own account, with commas between them.
    pub owner_roles: String,
    /// The roles of the caller's profile, with commas between them.
    pub profile_roles: Result<Option<String>, Error>,
}

/// The roles on record for a caller: those of the account where the caller is the tenant, else
/// those of their profile. A profile that is gone has none; where it could not be read, the
/// presented roles stand.
pub open spec fn recorded_roles(
    tenant: Seq<char>,
    id_tag: Seq<char>,
    presented: Seq<Seq<char>>,
    facts: RoleFacts,
) -> Option<Seq<char>> {
    if id_tag == tenant {
        Some(facts.owner_roles@)
    } else {
        match facts.profile_roles {
            Ok(r) => r.deep_view(),
            Err(Error::NotFound) => None,
            Err(_) => Some(text::joined(presented, ","@)),
        }
    }
}

/// A text that is not empty.
pub open spec fn non_empty(s: Option<Seq<char>>) -> Option<Seq<char>> {
    match s {
        Some(x) => if x.len() > 0 {
            Some(x)
        } else {
            None
        },
        None => None,
    }
}

pub fn drop_empty(s: Option<String>) -> (r: Option<String>)
    ensures
        r.deep_view() == non_empty(s.deep_view()),
{
    match s {
        Some(x) => {
            if x.as_str().is_empty() {
                None
            } else {
                Some(x)
            }
        },
        None => None,
    }
}

/// The roles of a token that renews another one: read from the record, and never more than were
/// presented. Nobody renews one at a tenant that has been deleted.
pub fn reread_roles(tenant: &str, auth: &AuthCtx, facts: RoleFacts) -> (r: Result<
    Option<String>,
    Error,
>)
    ensures
        r is Err <==> facts.tenant_status.deep_view() == Some("X"@),
        r matches Err(e) ==> e is PermissionDenied,
        r matches Ok(x) ==> x.deep_view() == non_empty(
            narrowed(
                recorded_roles(tenant@, auth.id_tag@, auth.roles.deep_view(), facts),
                auth.roles.deep_view(),
            ),
        ),
{
    if text::is_text(text::as_opt(&facts.tenant_status), "X") {
        return Err(Error::PermissionDenied);
    }
    let expanded: Option<String> = if text::same(auth.id_tag.as_str(), tenant) {
        Some(facts.owner_roles)
    } else {
        match facts.profile_roles {
            Ok(x) => x,
            Err(Error::NotFound) => None,
            Err(_) => Some(text::join(&auth.roles, ",")),
        }
    };
    Ok(drop_empty(narrow_to_presented(expanded, &auth.roles)))
}

// ---------------------------------------------------------------------------------------------
// Trading a credential for an access token
// ---------------------------------------------------------------------------------------------

/// A request for an access token.
#[derive(Debug)]
pub struct GetAccessTokenQuery {
    pub token: Option<String>,
    pub scope: Option<String>,
    pub ref_id: Option<String>,
    pub api_key: Option<String>,
    pub refresh: Option<bool>,
    pub via: Option<String>,
}

/// What a request trades.
#[derive(Debug, Clone, Copy, PartialEq, Eq, Structural)]
pub enum AccessRoute {
    /// Access to a file for access to one that it embeds.
    CrossDocument,
    /// A signed action.
    ActionToken,
    /// A share link.
    ShareLink,
    /// An API key.
    ApiKey,
    /// The session itself.
    Session,
}

pub open spec fn route_of(q: GetAccessTokenQuery) -> AccessRoute {
    if q.via is Some {
        AccessRoute::CrossDocument
    } else if q.token is Some {
        AccessRoute::ActionToken
    } else if q.ref_id is Some {
        AccessRoute::ShareLink
    } else if q.api_key is Some {
        AccessRoute::ApiKey
    } else {
        AccessRoute::Session
    }
}

/// Whether a share link counts as used by a request; a refresh only looks at it.
pub fn uses_link(q: &GetAccessTokenQuery) -> (r: bool)
    ensures
        r == (q.refresh != Some(true)),
{
    match q.refresh {
        Some(refresh) => !refresh,
        None => true,
    }
}

/// What a request trades, which tells what has to be found out to answer it.
pub fn access_route(q: &GetAccessTokenQuery) -> (r: AccessRoute)
    ensures
        r == route_of(*q),
{
    if q.via.is_some() {
        AccessRoute::CrossDocument
    } else if q.token.is_some() {
        AccessRoute::ActionToken
    } else if q.ref_id.is_some() {
        AccessRoute::ShareLink
    } else if q.api_key.is_some() {
        AccessRoute::ApiKey
    } else {
        AccessRoute::Session
    }
}

/// A signed action whose signature was verified.
#[derive(Debug)]
pub struct VerifiedAction {
    pub typ: String,
    pub iss: String,
    pub aud: Option<String>,
    pub exp: Option<i64>,
}

/// A share link.
#[derive(Debug)]
pub struct ShareRef {
    pub tn_id: TnId,
    pub resource_id: Option<String>,
    pub access_level: Option<char>,
    /// How the file is to be shown.
    pub params: Option<String>,
}

/// An API key.
#[derive(Debug)]
pub struct ApiKeyInfo {
    pub tn_id: TnId,
    pub id_tag: String,
    pub roles: Option<String>,
    pub scopes: Option<String>,
}

/// What was found out about a request. Only what its route asks for counts.
pub struct AccessFacts {
    /// What the requested scope means.
    pub requested_scope: Option<TokenScope>,
    /// What the caller's own scope means.
    pub caller_scope: Option<TokenScope>,
    /// The access that the caller's session has to the embedding file.
    pub via_access: Option<AccessLevel>,
    /// The permission with which the file is embedded, where it is, or why it could not be read.
    pub link_permission: Result<Option<char>, Error>,
    /// The action, or why it could not be verified.
    pub action: Result<VerifiedAction, Error>,
    /// The latest expiry of an action that is traded.
    pub max_exp: i64,
    /// The share link, or why it cannot be used.
    pub share: Result<ShareRef, Error>,
    /// The API key, where it is valid.
    pub api_key: Option<ApiKeyInfo>,
    /// The caller's roles on record, with commas between them, or why the session ends.
    pub roles: Result<Option<String>, Error>,
    /// Whether these are the roles of a leader.
    pub leader: bool,
    /// The access that the caller has to the file of the requested scope.
    pub file_access: Option<AccessLevel>,
}

/// What an access token says.
#[derive(Debug)]
pub struct AccessGrant {
    pub sub: Option<String>,
    pub roles: Option<String>,
    pub scope: Option<String>,
    /// The file that it is for, and the level.
    pub resource_id: Option<String>,
    pub level: Option<AccessLevel>,
    /// How the file of a share link is to be shown.
    pub params: Option<String>,
}

pub struct GrantView {
    pub sub: Option<Seq<char>>,
    pub roles: Option<Seq<char>>,
    pub scope: Option<Seq<char>>,
    pub resource_id: Option<Seq<char>>,
    pub level: Option<AccessLevel>,
    pub params: Option<Seq<char>>,
}

impl View for AccessGrant {
    type V = GrantView;

    open spec fn view(&self) -> GrantView {
        GrantView {
            sub: self.sub.deep_view(),
            roles: self.roles.deep_view(),
            scope: self.scope.deep_view(),
            resource_id: self.resource_id.deep_view(),
            level: self.level,
            params: self.params.deep_view(),
        }
    }
}

/// What a request comes to.
pub enum AccessOutcome {
    Granted(GrantView),
    Invalid(Seq<char>),
    Denied,
    Unauthorized,
    Failed(Error),
}

pub open spec fn is_access_result(r: Result<AccessGrant, Error>, o: AccessOutcome) -> bool {
    match o {
        AccessOutcome::Granted(g) => r matches Ok(x) && x@ == g,
        AccessOutcome::Invalid(m) => r matches Err(e) && e.deep_view()
            == ErrorView::ValidationError(m),
        AccessOutcome::Denied => r matches Err(e) && e is PermissionDenied,
        AccessOutcome::Unauthorized => r matches Err(e) && e is Unauthorized,
        AccessOutcome::Failed(x) => r matches Err(e) && e == x,
    }
}

/// The file in a reference, which may name its owner before a colon.
pub open spec fn bare_file(reference: Seq<char>) -> Seq<char> {
    let n = text::before_char(reference, ':');
    if n < reference.len() {
        reference.skip(n + 1)
    } else {
        reference
    }
}

/// Takes the file out of a reference.
pub fn bare_file_id(reference: &str) -> (r: String)
    ensures
        r@ == bare_file(reference@),
{
    let n: usize = reference.unicode_len();
    match text::find_char(reference, ':') {
        Some(at) => {
            let rest = reference.substring_char(at + 1, n);
            assert(rest@ =~= reference@.skip(at + 1));
            text::owned(rest)
        },
        None => text::owned(reference),
    }
}

/// The most that a caller can pass on from the embedding file: the level of their own scope,
/// where it is for that file, or the access that their session has to it.
pub open spec fn caller_ceiling(
    scoped: bool,
    caller_scope: Option<ScopeView>,
    via: Seq<char>,
    via_access: Option<AccessLevel>,
) -> Option<AccessLevel> {
    if scoped {
        match caller_scope {
            Some(ScopeView::File { file_id, access }) => if file_id == bare_file(via) {
                Some(access)
            } else {
                None
            },
            _ => None,
        }
    } else {
        via_access
    }
}

/// The lowest of what was requested, what the file is embedded with, and what the caller holds.
pub open spec fn passed_on(requested: AccessLevel, link: char, ceiling: AccessLevel) -> AccessLevel {
    requested.lower(AccessLevel::of_letter(link)).lower(ceiling)
}

/// Access to a file for access to one that embeds it.
pub open spec fn cross_document_outcome(
    q: GetAccessTokenQuery,
    auth: Option<AuthCtx>,
    f: AccessFacts,
) -> AccessOutcome {
    if q.scope is None {
        AccessOutcome::Invalid("scope parameter required with via"@)
    } else {
        match f.requested_scope {
            Some(TokenScope::File { file_id, access }) => if auth is None {
                AccessOutcome::Unauthorized
            } else {
                let ceiling = caller_ceiling(
                    auth->0.scope is Some,
                    match f.caller_scope {
                        Some(s) => Some(s@),
                        None => None,
                    },
                    q.via->0@,
                    f.via_access,
                );
                if ceiling is None {
                    AccessOutcome::Denied
                } else {
                    match f.link_permission {
                        Err(e) => AccessOutcome::Failed(e),
                        Ok(None) => AccessOutcome::Denied,
                        Ok(Some(link)) => match passed_on(access, link, ceiling->0).letter() {
                            Some(c) => AccessOutcome::Granted(
                                GrantView {
                                    sub: if auth->0.anonymous {
                                        None
                                    } else {
                                        Some(auth->0.id_tag@)
                                    },
                                    roles: None,
                                    scope: Some(file_scope_text(file_id@, c)),
                                    resource_id: Some(file_id@),
                                    level: Some(AccessLevel::of_letter(c)),
                                    params: None,
                                },
                            ),
                            None => AccessOutcome::Denied,
                        },
                    }
                }
            },
            Some(_) => AccessOutcome::Invalid("scope must be a file scope"@),
            None => AccessOutcome::Invalid("Invalid scope format"@),
        }
    }
}

fn cross_document_token(q: &GetAccessTokenQuery, auth: Option<&AuthCtx>, f: AccessFacts) -> (r:
    Result<AccessGrant, Error>)
    requires
        q.via is Some,
    ensures
        is_access_result(r, cross_document_outcome(*q, opt_auth(auth), f)),
{
    if q.scope.is_none() {
        return Err(Error::ValidationError(text::owned("scope parameter required with via")));
    }
    let (target, requested) = match &f.requested_scope {
        Some(TokenScope::File { file_id, access }) => (file_id, *access),
        Some(_) => {
            return Err(Error::ValidationError(text::owned("scope must be a file scope")));
        },
        None => {
            return Err(Error::ValidationError(text::owned("Invalid scope format")));
        },
    };
    let caller: &AuthCtx = match auth {
        Some(a) => a,
        None => {
            return Err(Error::Unauthorized);
        },
    };
    let via: String = match &q.via {
        Some(v) => bare_file_id(v.as_str()),
        None => String::new(),
    };
    let ceiling: Option<AccessLevel> = if caller.scope.is_some() {
        match &f.caller_scope {
            Some(TokenScope::File { file_id, access }) => {
                if text::same(file_id.as_str(), via.as_str()) {
                    Some(*access)
                } else {
                    None
                }
            },
            _ => None,
        }
    } else {
        f.via_access
    };
    let cap: AccessLevel = match ceiling {
        Some(level) => level,
        None => {
            return Err(Error::PermissionDenied);
        },
    };
    match f.link_permission {
        Err(e) => Err(e),
        Ok(None) => Err(Error::PermissionDenied),
        Ok(Some(link)) => {
            let asked = requested.lower_of(AccessLevel::from_perm_char(link));
            match asked.lower_of(cap).to_scope_char() {
                Some(c) => Ok(
                    AccessGrant {
                        sub: text::owned_opt(derived_sub(caller)),
                        roles: None,
                        scope: Some(file_scope(target.as_str(), c)),
                        resource_id: Some(target.clone()),
                        level: Some(AccessLevel::from_perm_char(c)),
                        params: None,
                    },
                ),
                None => Err(Error::PermissionDenied),
            }
        },
    }
}

pub open spec fn opt_auth(a: Option<&AuthCtx>) -> Option<AuthCtx> {
    match a {
        Some(x) => Some(*x),
        None => None,
    }
}

/// A token for somebody with roles, and with the scope on request.
pub open spec fn session_outcome(
    id_tag: Seq<char>,
    roles: Option<Seq<char>>,
    q: GetAccessTokenQuery,
    f: AccessFacts,
) -> AccessOutcome {
    let parsed = match f.requested_scope {
        Some(s) => Some(s@),
        None => None,
    };
    match scope_outcome(q.scope.deep_view(), parsed, f.file_access, f.leader) {
        ScopeOutcome::Scope(s) => AccessOutcome::Granted(
            GrantView {
                sub: Some(id_tag),
                roles,
                scope: s,
                resource_id: None,
                level: None,
                params: None,
            },
        ),
        ScopeOutcome::Invalid => AccessOutcome::Invalid("Invalid scope format"@),
        ScopeOutcome::Denied => AccessOutcome::Denied,
    }
}

fn session_grant(
    id_tag: String,
    roles: Option<String>,
    q: &GetAccessTokenQuery,
    requested_scope: Option<&TokenScope>,
    file_access: Option<AccessLevel>,
    leader: bool,
) -> (r: Result<AccessGrant, Error>)
    ensures
        match scope_outcome(q.scope.deep_view(), opt_scope(requested_scope), file_access, leader) {
            ScopeOutcome::Scope(s) => r matches Ok(g) && g@ == (GrantView {
                sub: Some(id_tag@),
                roles: roles.deep_view(),
                scope: s,
                resource_id: None,
                level: None,
                params: None,
            }),
            ScopeOutcome::Invalid => r matches Err(e) && e.deep_view()
                == ErrorView::ValidationError("Invalid scope format"@),
            ScopeOutcome::Denied => r matches Err(e) && e is PermissionDenied,
        },
{
    match validated_scope(text::as_opt(&q.scope), requested_scope, file_access, leader) {
        Ok(scope) => Ok(
            AccessGrant {
                sub: Some(id_tag),
                roles,
                scope,
                resource_id: None,
                level: None,
                params: None,
            },
        ),
        Err(e) => Err(e),
    }
}

/// A token for a signed action: it has to be addressed to this tenant and be one that may be
/// traded. Its issuer gets the roles that they have here.
pub open spec fn action_outcome(
    tenant: Seq<char>,
    q: GetAccessTokenQuery,
    f: AccessFacts,
) -> AccessOutcome {
    match f.action {
        Err(e) => AccessOutcome::Failed(e),
        Ok(a) => if a.aud.deep_view() != Some(tenant) || !exchangeable(a.typ@, a.exp, f.max_exp) {
            AccessOutcome::Denied
        } else {
            let roles = match f.roles {
                Ok(r) => non_empty(r.deep_view()),
                Err(_) => None,
            };
            session_outcome(a.iss@, roles, q, f)
        },
    }
}

/// A token for a share link: nobody in particular, without roles, for one file.
pub open spec fn share_outcome(tn_id: TnId, f: AccessFacts) -> AccessOutcome {
    match f.share {
        Err(Error::NotFound) => AccessOutcome::Invalid("Invalid or expired share link"@),
        Err(Error::ValidationError(m)) => AccessOutcome::Invalid(m@),
        Err(_) => AccessOutcome::Invalid("Invalid share link"@),
        Ok(s) => if s.tn_id != tn_id {
            AccessOutcome::Denied
        } else if s.resource_id is None {
            AccessOutcome::Invalid("Share link missing resource_id"@)
        } else {
            let level = AccessLevel::of_letter(
                match s.access_level {
                    Some(c) => c,
                    None => 'R',
                },
            );
            match level.letter() {
                Some(c) => AccessOutcome::Granted(
                    GrantView {
                        sub: None,
                        roles: None,
                        scope: Some(file_scope_text(s.resource_id->0@, c)),
                        resource_id: Some(s.resource_id->0@),
                        level: Some(level.lower(AccessLevel::Write)),
                        params: s.params.deep_view(),
                    },
                ),
                None => AccessOutcome::Denied,
            }
        },
    }
}

/// A token for an API key: it has to belong to this tenant, and passes on what it carries.
pub open spec fn api_key_outcome(tn_id: TnId, f: AccessFacts) -> AccessOutcome {
    match f.api_key {
        None => AccessOutcome::Denied,
        Some(k) => if k.tn_id != tn_id {
            AccessOutcome::Denied
        } else {
            AccessOutcome::Granted(
                GrantView {
                    sub: Some(k.id_tag@),
                    roles: k.roles.deep_view(),
                    scope: k.scopes.deep_view(),
                    resource_id: None,
                    level: None,
                    params: None,
                },
            )
        },
    }
}

/// A token that renews a session. A restricted credential renews nothing.
pub open spec fn own_session_outcome(
    q: GetAccessTokenQuery,
    auth: Option<AuthCtx>,
    f: AccessFacts,
) -> AccessOutcome {
    if auth is None {
        AccessOutcome::Unauthorized
    } else if auth->0.scope is Some {
        AccessOutcome::Denied
    } else {
        match f.roles {
            Err(e) => AccessOutcome::Failed(e),
            Ok(r) => session_outcome(auth->0.id_tag@, r.deep_view(), q, f),
        }
    }
}

/// What a request for an access token comes to.
pub open spec fn access_outcome(
    tenant: Seq<char>,
    tn_id: TnId,
    auth: Option<AuthCtx>,
    q: GetAccessTokenQuery,
    f: AccessFacts,
) -> AccessOutcome {
    match route_of(q) {
        AccessRoute::CrossDocument => cross_document_outcome(q, auth, f),
        AccessRoute::ActionToken => action_outcome(tenant, q, f),
        AccessRoute::ShareLink => share_outcome(tn_id, f),
        AccessRoute::ApiKey => api_key_outcome(tn_id, f),
        AccessRoute::Session => own_session_outcome(q, auth, f),
    }
}

/// Decides on a request for an access token.
pub fn get_access_token(
    tenant: &str,
    tn_id: TnId,
    auth: Option<&AuthCtx>,
    q: &GetAccessTokenQuery,
    f: AccessFacts,
) -> (r: Result<AccessGrant, Error>)
    ensures
        is_access_result(r, access_outcome(tenant@, tn_id, opt_auth(auth), *q, f)),
{
    match access_route(q) {
        AccessRoute::CrossDocument => cross_document_token(q, auth, f),
        AccessRoute::ActionToken => match f.action {
            Err(e) => Err(e),
            Ok(a) => {
                if !text::is_text(text::as_opt(&a.aud), tenant) || !proxy_exchange_allowed(
                    a.typ.as_str(),
                    a.exp,
                    f.max_exp,
                ) {
                    return Err(Error::PermissionDenied);
                }
                let roles: Option<String> = match f.roles {
                    Ok(x) => drop_empty(x),
                    Err(_) => None,
                };
                session_grant(
                    a.iss,
                    roles,
                    q,
                    f.requested_scope.as_ref(),
                    f.file_access,
                    f.leader,
                )
            },
        },
        AccessRoute::ShareLink => match f.share {
            Err(Error::ValidationError(m)) => Err(Error::ValidationError(m)),
            Err(Error::NotFound) => Err(
                Error::ValidationError(text::owned("Invalid or expired share link")),
            ),
            Err(_) => Err(Error::ValidationError(text::owned("Invalid share link"))),
            Ok(s) => {
                if s.tn_id != tn_id {
                    return Err(Error::PermissionDenied);
                }
                let file_id: String = match s.resource_id {
                    Some(id) => id,
                    None => {
                        return Err(
                            Error::ValidationError(text::owned("Share link missing resource_id")),
                        );
                    },
                };
                let letter: char = match s.access_level {
                    Some(c) => c,
                    None => 'R',
                };
                let level = AccessLevel::from_perm_char(letter);
                match level.to_scope_char() {
                    Some(c) => Ok(
                        AccessGrant {
                            sub: None,
                            roles: None,
                            scope: Some(file_scope(file_id.as_str(), c)),
                            resource_id: Some(file_id),
                            level: Some(level.lower_of(AccessLevel::Write)),
                            params: s.params,
                        },
                    ),
                    None => Err(Error::PermissionDenied),
                }
            },
        },
        AccessRoute::ApiKey => match f.api_key {
            None => Err(Error::PermissionDenied),
            Some(k) => {
                if k.tn_id != tn_id {
                    return Err(Error::PermissionDenied);
                }
                Ok(
                    AccessGrant {
                        sub: Some(k.id_tag),
                        roles: k.roles,
                        scope: k.scopes,
                        resource_id: None,
                        level: None,
                        params: None,
                    },
                )
            },
        },
        AccessRoute::Session => {
            let caller: &AuthCtx = match auth {
                Some(a) => a,
                None => {
                    return Err(Error::Unauthorized);
                },
            };
            if caller.scope.is_some() {
                return Err(Error::PermissionDenied);
            }
            match f.roles {
                Err(e) => Err(e),
                Ok(roles) => session_grant(
                    caller.id_tag.clone(),
                    roles,
                    q,
                    f.requested_scope.as_ref(),
                    f.file_access,
                    f.leader,
                ),
            }
        },
    }
}

/// A restricted credential never becomes an unrestricted one.
pub proof fn law_scoped_credentials_stay_scoped(
    tenant: Seq<char>,
    tn_id: TnId,
    auth: AuthCtx,
    q: GetAccessTokenQuery,
    f: AccessFacts,
    g: GrantView,
)
    requires
        auth.scope is Some,
        route_of(q) == AccessRoute::CrossDocument || route_of(q) == AccessRoute::Session,
        access_outcome(tenant, tn_id, Some(auth), q, f) == AccessOutcome::Granted(g),
    ensures
        g.scope is Some,
        g.roles is None,
{
}

/// A token that was passed on through an embedding file carries no more than was requested, than
/// the file is embedded with, and than the caller holds, and never the management of shares.
pub proof fn law_passed_on_access_is_capped(requested: AccessLevel, link: char, ceiling: AccessLevel)
    ensures
        passed_on(requested, link, ceiling).rank() <= requested.rank(),
        passed_on(requested, link, ceiling).rank() <= AccessLevel::of_letter(link).rank(),
        passed_on(requested, link, ceiling).rank() <= ceiling.rank(),
        passed_on(requested, link, ceiling).letter() matches Some(c) ==> AccessLevel::of_letter(
            c,
        ).rank() <= AccessLevel::Write.rank() && AccessLevel::of_letter(c).rank() <= passed_on(
            requested,
            link,
            ceiling,
        ).rank(),
{
}

/// A share link names nobody and carries no roles.
pub proof fn law_share_links_are_anonymous(tn_id: TnId, f: AccessFacts, g: GrantView)
    requires
        share_outcome(tn_id, f) == AccessOutcome::Granted(g),
    ensures
        g.sub is None,
        g.roles is None,
        g.scope is Some,
{
}

/// A session is traded for an action only where the action is a proxy token for this tenant that
/// expires soon.
pub proof fn law_only_proxy_tokens_are_traded(
    tenant: Seq<char>,
    q: GetAccessTokenQuery,
    f: AccessFacts,
    g: GrantView,
)
    requires
        action_outcome(tenant, q, f) == AccessOutcome::Granted(g),
    ensures
        f.action is Ok,
        f.action->Ok_0.typ@ == "PROXY"@,
        f.action->Ok_0.aud.deep_view() == Some(tenant),
        f.action->Ok_0.exp is Some && f.action->Ok_0.exp->0 <= f.max_exp,
        g.sub == Some(f.action->Ok_0.iss@),
{
}

// ---------------------------------------------------------------------------------------------
// Proxy tokens
// ---------------------------------------------------------------------------------------------

#[derive(Debug)]
pub struct ProxyTokenQuery {
    pub id_tag: Option<String>,
}

/// A proxy token, and the roles that it carries.
#[derive(Debug)]
pub struct ProxyTokenRes {
    pub token: String,
    pub roles: Option<Vec<String>>,
}

/// How a request for a proxy token is answered.
#[derive(Debug)]
pub enum ProxyRoute {
    /// By a token of the named server, for which this tenant vouches.
    Federated(String),
    /// By a token of this server with these roles.
    Local(Option<String>),
}

/// The server that a proxy token is asked for, where it is another one.
pub open spec fn foreign_target(q: ProxyTokenQuery, own: Seq<char>) -> Option<Seq<char>> {
    match q.id_tag {
        Some(t) => if t@ != own {
            Some(t@)
        } else {
            None
        },
        None => None,
    }
}

/// Decides on a request for a proxy token: a restricted credential gets none, and only a leader
/// gets one for another server. `roles` are the caller's roles on record, and `leader` the
/// verdict on them.
pub fn get_proxy_token(
    own: &str,
    auth: &AuthCtx,
    q: &ProxyTokenQuery,
    roles: Result<Option<String>, Error>,
    leader: bool,
) -> (r: Result<ProxyRoute, Error>)
    ensures
        auth.scope is Some ==> (r matches Err(e) && e is PermissionDenied),
        auth.scope is None && roles is Err ==> (r matches Err(e) && e == roles->Err_0),
        auth.scope is None && roles is Ok ==> (match foreign_target(*q, own@) {
            Some(t) => if leader {
                r matches Ok(ProxyRoute::Federated(x)) && x@ == t
            } else {
                r matches Err(e) && e is PermissionDenied
            },
            None => r matches Ok(ProxyRoute::Local(x)) && x.deep_view() == non_empty(
                roles->Ok_0.deep_view(),
            ),
        }),
{
    if auth.scope.is_some() {
        return Err(Error::PermissionDenied);
    }
    let expanded = match roles {
        Ok(x) => x,
        Err(e) => {
            return Err(e);
        },
    };
    if let Some(target) = &q.id_tag {
        if !text::same(target.as_str(), own) {
            if !leader {
                return Err(Error::PermissionDenied);
            }
            return Ok(ProxyRoute::Federated(target.clone()));
        }
    }
    Ok(ProxyRoute::Local(drop_empty(expanded)))
}

/// The entries that are not empty, in order.
pub open spec fn filled(entries: Seq<Seq<char>>) -> Seq<Seq<char>>
    decreases entries.len(),
{
    if entries.len() == 0 {
        Seq::empty()
    } else {
        let rest = filled(entries.drop_last());
        if entries.last().len() > 0 {
            rest.push(entries.last())
        } else {
            rest
        }
    }
}

/// The roles in a list with commas between them.
pub fn role_list(roles: &str) -> (r: Vec<String>)
    ensures
        r.deep_view() == filled(text::split_on(roles@, ',')),
{
    let parts = text::split_char(roles, ',');
    let ghost all = parts.deep_view();
    let mut out: Vec<String> = Vec::new();
    let mut i: usize = 0;
    assert(out.deep_view() =~= filled(all.take(0)));
    while i < parts.len()
        invariant
            all == parts.deep_view(),
            i <= parts@.len(),
            out.deep_view() == filled(all.take(i as int)),
        decreases parts@.len() - i,
    {
        let ghost before = out.deep_view();
        proof {
            assert(all.take(i + 1).drop_last() =~= all.take(i as int));
            assert(all.take(i + 1).last() == parts@[i as int]@);
        }
        if !parts[i].as_str().is_empty() {
            out.push(parts[i].clone());
            assert(out.deep_view() =~= before.push(parts@[i as int]@));
        }
        i = i + 1;
    }
    assert(all.take(i as int) =~= all);
    out
}

/// The answer with a token of this server: it tells the roles that the token carries.
pub fn local_proxy_token(token: String, roles: &Option<String>) -> (r: ProxyTokenRes)
    ensures
        r.token@ == token@,
        r.roles.deep_view() == Some(
            match roles.deep_view() {
                Some(list) => filled(text::split_on(list, ',')),
                None => Seq::empty(),
            },
        ),
{
    let held: Vec<String> = match roles {
        Some(list) => role_list(list.as_str()),
        None => Vec::new(),
    };
    assert(roles is None ==> held.deep_view() =~= Seq::<Seq<char>>::empty());
    ProxyTokenRes { token, roles: Some(held) }
}

/// The answer with a token of another server: it tells the roles that the token claims, where it
/// claims any.
pub fn federated_proxy_token(token: String, claim: Option<&str>) -> (r: ProxyTokenRes)
    ensures
        r.token@ == token@,
        r.roles.deep_view() == (match claim.deep_view() {
            Some(list) => Some(text::split_on(list, ',')),
            None => None,
        }),
{
    let roles: Option<Vec<String>> = match claim {
        Some(list) => Some(text::split_char(list, ',')),
        None => None,
    };
    ProxyTokenRes { token, roles }
}

} // verus!
