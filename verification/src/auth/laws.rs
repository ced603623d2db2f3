//! What credentials are good for: what each is traded for, what it never becomes, and what is
//! refused.
use crate::auth::access::{
    self, access_route, bare_file_id, derived_sub, drop_empty, federated_proxy_token,
    get_access_token, get_proxy_token,
    local_proxy_token, narrow_to_presented, normalized_dav_scope, owner_role_names,
    proxy_exchange_allowed, reread_roles, role_list, uses_link, validated_scope, AccessFacts, AccessGrant,
    AccessLevel, AccessRoute, GetAccessTokenQuery, ProxyRoute, ProxyTokenQuery,
    ProxyTokenRes, RoleFacts, TokenScope,
};
use crate::text;
use crate::types::{AuthCtx, Error, TnId};
use vstd::prelude::*;

verus! {

// ---------------------------------------------------------------------------------------------
// Levels and letters
// ---------------------------------------------------------------------------------------------

/// The letters of the levels: each letter stands for its level, each level with a letter is given
/// back by it, and only in a scope does managing become writing.
pub proof fn law_letters_stand_for_levels(
    c: char,
    level: AccessLevel,
    read: AccessLevel,
    perm: Option<char>,
    scope: Option<char>,
)
    requires
        call_ensures(AccessLevel::from_perm_char, (c,), read),
        call_ensures(AccessLevel::to_perm_char, (level,), perm),
        call_ensures(AccessLevel::to_scope_char, (level,), scope),
    ensures
        read == AccessLevel::Admin <==> c == 'A',
        read == AccessLevel::Write <==> c == 'W',
        read == AccessLevel::Comment <==> c == 'C',
        read == AccessLevel::Read <==> c != 'A' && c != 'W' && c != 'C',
        perm is None <==> level == AccessLevel::Nothing,
        scope is None <==> level == AccessLevel::Nothing,
        perm == Some(c) ==> read == level,
        scope == Some(c) && level != AccessLevel::Admin ==> read == level,
        level == AccessLevel::Admin ==> perm == Some('A') && scope == Some('W'),
        level == AccessLevel::Read ==> perm == Some('R') && scope == Some('R'),
{
}

/// The lower of two levels is one of them and not above either: nothing is below everything, then
/// come reading, commenting, writing and managing.
pub proof fn law_lower_levels(a: AccessLevel, b: AccessLevel, r: AccessLevel, s: AccessLevel)
    requires
        call_ensures(AccessLevel::lower_of, (a, b), r),
        call_ensures(AccessLevel::lower_of, (b, a), s),
    ensures
        r == a || r == b,
        r == s,
        a == AccessLevel::Nothing ==> r == AccessLevel::Nothing,
        a == AccessLevel::Admin ==> r == b,
        a == AccessLevel::Read && b != AccessLevel::Nothing ==> r == AccessLevel::Read,
        a == AccessLevel::Write && b != AccessLevel::Admin ==> r == b,
        a == AccessLevel::Comment && b == AccessLevel::Write ==> r == AccessLevel::Comment,
{
}

/// Whether a text is the scope of a file with a letter.
pub open spec fn is_file_scope(s: Option<String>, file_id: Seq<char>, letter: char) -> bool {
    s is Some && s->0@ == "file:"@ + file_id + ":"@ + seq![letter]
}

// ---------------------------------------------------------------------------------------------
// What a credential is traded for
// ---------------------------------------------------------------------------------------------

/// What a request trades is what it holds: an embedding file before anything else, then a signed
/// action, a share link, an API key, and without any of them the session.
pub proof fn law_routes(q: &GetAccessTokenQuery, r: AccessRoute, used: bool)
    requires
        call_ensures(access_route, (q,), r),
        call_ensures(uses_link, (q,), used),
    ensures
        r == AccessRoute::CrossDocument <==> q.via is Some,
        r == AccessRoute::ActionToken <==> q.via is None && q.token is Some,
        r == AccessRoute::ShareLink <==> q.via is None && q.token is None && q.ref_id is Some,
        r == AccessRoute::ApiKey <==> q.via is None && q.token is None && q.ref_id is None
            && q.api_key is Some,
        r == AccessRoute::Session <==> q.via is None && q.token is None && q.ref_id is None
            && q.api_key is None,
        q.refresh == Some(true) <==> !used,
{
}

/// The token for a share link carries exactly the level of the link, for the file of the link and
/// for nobody in particular: a link with the letter R, C or W gives the scope with that letter
/// and that level, a link with A gives W, and one without a letter gives R.
pub proof fn law_share_links_carry_their_level(
    tenant: &str,
    tn_id: TnId,
    auth: Option<&AuthCtx>,
    q: &GetAccessTokenQuery,
    f: AccessFacts,
    r: Result<AccessGrant, Error>,
)
    requires
        q.via is None && q.token is None && q.ref_id is Some,
        f.share is Ok,
        call_ensures(get_access_token, (tenant, tn_id, auth, q, f), r),
    ensures
        ({
            let link = f.share->Ok_0;
            &&& r is Ok <==> link.tn_id == tn_id && link.resource_id is Some
            &&& link.tn_id != tn_id ==> r->Err_0 is PermissionDenied
            &&& r matches Ok(g) ==> {
                let file = link.resource_id->0@;
                &&& g.sub is None && g.roles is None
                &&& g.resource_id is Some && g.resource_id->0@ == file
                &&& g.params.deep_view() == link.params.deep_view()
                &&& link.access_level == Some('R') || link.access_level is None ==> is_file_scope(
                    g.scope,
                    file,
                    'R',
                ) && g.level == Some(AccessLevel::Read)
                &&& link.access_level == Some('C') ==> is_file_scope(g.scope, file, 'C') && g.level
                    == Some(AccessLevel::Comment)
                &&& link.access_level == Some('W') || link.access_level == Some('A')
                    ==> is_file_scope(g.scope, file, 'W') && g.level == Some(AccessLevel::Write)
                &&& !(link.access_level == Some('C') || link.access_level == Some('W')
                    || link.access_level == Some('A')) ==> is_file_scope(g.scope, file, 'R')
                    && g.level == Some(AccessLevel::Read)
            }
        }),
{
    if let Ok(g) = r {
        lemma_grant(g);
    }
}

/// A share link that cannot be used gives nothing.
pub proof fn law_bad_share_links_give_nothing(
    tenant: &str,
    tn_id: TnId,
    auth: Option<&AuthCtx>,
    q: &GetAccessTokenQuery,
    f: AccessFacts,
    r: Result<AccessGrant, Error>,
)
    requires
        q.via is None && q.token is None && q.ref_id is Some,
        f.share is Err,
        call_ensures(get_access_token, (tenant, tn_id, auth, q, f), r),
    ensures
        r is Err && r->Err_0 is ValidationError,
        f.share->Err_0 matches Error::ValidationError(m) ==> r->Err_0->ValidationError_0@ == m@,
{
}

proof fn lemma_grant(g: AccessGrant)
    ensures
        g@.sub is None <==> g.sub is None,
        g@.roles is None <==> g.roles is None,
        g@.scope is None <==> g.scope is None,
        g@.resource_id is None <==> g.resource_id is None,
        g@.params is None <==> g.params is None,
        g.sub is Some ==> g@.sub == Some(g.sub->0@),
        g.scope is Some ==> g@.scope == Some(g.scope->0@),
        g.roles is Some ==> g@.roles == Some(g.roles->0@),
        g.resource_id is Some ==> g@.resource_id == Some(g.resource_id->0@),
{
}

/// An API key of this tenant gives what it carries: its identity, roles and scopes. Any other one
/// gives nothing.
pub proof fn law_api_keys_give_what_they_carry(
    tenant: &str,
    tn_id: TnId,
    auth: Option<&AuthCtx>,
    q: &GetAccessTokenQuery,
    f: AccessFacts,
    r: Result<AccessGrant, Error>,
)
    requires
        q.via is None && q.token is None && q.ref_id is None && q.api_key is Some,
        call_ensures(get_access_token, (tenant, tn_id, auth, q, f), r),
    ensures
        r is Ok <==> f.api_key is Some && f.api_key->0.tn_id == tn_id,
        r is Err ==> r->Err_0 is PermissionDenied,
        r matches Ok(g) ==> {
            let k = f.api_key->0;
            &&& g.sub is Some && g.sub->0@ == k.id_tag@
            &&& g.roles.deep_view() == k.roles.deep_view()
            &&& g.scope.deep_view() == k.scopes.deep_view()
            &&& g.resource_id is None && g.level is None && g.params is None
        },
{
    if let Ok(g) = r {
        lemma_grant(g);
    }
}

/// A session is renewed for whoever it is for and with the roles on record. A restricted credential
/// renews nothing, and neither does nobody.
pub proof fn law_sessions_are_renewed(
    tenant: &str,
    tn_id: TnId,
    auth: Option<&AuthCtx>,
    q: &GetAccessTokenQuery,
    f: AccessFacts,
    r: Result<AccessGrant, Error>,
)
    requires
        q.via is None && q.token is None && q.ref_id is None && q.api_key is None,
        call_ensures(get_access_token, (tenant, tn_id, auth, q, f), r),
    ensures
        auth is None ==> r is Err && r->Err_0 is Unauthorized,
        auth is Some && auth->0.scope is Some ==> r is Err && r->Err_0 is PermissionDenied,
        auth is Some && auth->0.scope is None && f.roles is Err ==> r is Err && r->Err_0
            == f.roles->Err_0,
        auth is Some && auth->0.scope is None && f.roles is Ok && q.scope is None ==> r is Ok
            && r->Ok_0.scope is None,
        r matches Ok(g) ==> g.sub is Some && g.sub->0@ == auth->0.id_tag@ && g.roles.deep_view()
            == f.roles->Ok_0.deep_view() && g.resource_id is None && g.level is None,
{
    if let Ok(g) = r {
        lemma_grant(g);
    }
    assert(q.scope.deep_view() is None <==> q.scope is None);
}

/// A signed action is traded exactly where it is a proxy token for this tenant that expires soon; its
/// issuer gets the roles that they have here.
pub proof fn law_actions_are_traded(
    tenant: &str,
    tn_id: TnId,
    auth: Option<&AuthCtx>,
    q: &GetAccessTokenQuery,
    f: AccessFacts,
    r: Result<AccessGrant, Error>,
)
    requires
        q.via is None && q.token is Some,
        call_ensures(get_access_token, (tenant, tn_id, auth, q, f), r),
    ensures
        f.action is Err ==> r is Err && r->Err_0 == f.action->Err_0,
        r is Ok ==> {
            let a = f.action->Ok_0;
            &&& f.action is Ok && a.typ@ == "PROXY"@
            &&& a.aud is Some && a.aud->0@ == tenant@
            &&& a.exp is Some && a.exp->0 <= f.max_exp
            &&& r->Ok_0.sub is Some && r->Ok_0.sub->0@ == a.iss@
            &&& f.roles is Err ==> r->Ok_0.roles is None
            &&& f.roles is Ok && f.roles->Ok_0 is Some && f.roles->Ok_0->0@.len() > 0
                ==> r->Ok_0.roles.deep_view() == f.roles->Ok_0.deep_view()
            &&& f.roles is Ok && f.roles->Ok_0 is Some && f.roles->Ok_0->0@.len() == 0
                ==> r->Ok_0.roles is None
            &&& f.roles is Ok && f.roles->Ok_0 is None ==> r->Ok_0.roles is None
        },
        (f.action is Ok && f.action->Ok_0.typ@ == "PROXY"@ && f.action->Ok_0.aud is Some
            && f.action->Ok_0.aud->0@ == tenant@ && f.action->Ok_0.exp is Some
            && f.action->Ok_0.exp->0 <= f.max_exp && q.scope is None) ==> r is Ok
            && r->Ok_0.scope is None,
{
    if let Ok(g) = r {
        lemma_grant(g);
    }
    assert(q.scope.deep_view() is None <==> q.scope is None);
    if f.action is Ok && f.action->Ok_0.aud is Some {
        assert(f.action->Ok_0.aud.deep_view() == Some(f.action->Ok_0.aud->0@));
    }
    if f.roles is Ok {
        assert(f.roles->Ok_0.deep_view() is None <==> f.roles->Ok_0 is None);
        if f.roles->Ok_0 is Some {
            assert(f.roles->Ok_0.deep_view() == Some(f.roles->Ok_0->0@));
        }
    }
}

/// Access through an embedding file is given exactly to a caller who has access to the embedding
/// file, which embeds the file, and where something is left: no more than was requested, than the
/// file is embedded with and than the caller holds, and the scope and the level say the same. It
/// carries no roles, and names the caller unless they are anonymous.
pub proof fn law_embedded_files(
    tenant: &str,
    tn_id: TnId,
    auth: Option<&AuthCtx>,
    q: &GetAccessTokenQuery,
    f: AccessFacts,
    r: Result<AccessGrant, Error>,
)
    requires
        q.via is Some,
        call_ensures(get_access_token, (tenant, tn_id, auth, q, f), r),
    ensures
        q.scope is None ==> r is Err && r->Err_0 is ValidationError,
        !(f.requested_scope matches Some(TokenScope::File { .. })) ==> r is Err
            && r->Err_0 is ValidationError,
        auth is None ==> r is Err,
        auth is Some && auth->0.scope is None && f.via_access is None ==> r is Err,
        auth is Some && auth->0.scope is Some && !(f.caller_scope matches Some(
            TokenScope::File { .. },
        )) ==> r is Err,
        f.link_permission is Err ==> r is Err,
        f.link_permission matches Ok(None) ==> r is Err,
        r matches Ok(g) ==> {
            let file = f.requested_scope->0->File_file_id@;
            let asked = f.requested_scope->0->File_access;
            let held = if auth->0.scope is Some {
                f.caller_scope->0->File_access
            } else {
                f.via_access->0
            };
            &&& g.roles is None && g.params is None
            &&& auth->0.anonymous ==> g.sub is None
            &&& !auth->0.anonymous ==> g.sub is Some && g.sub->0@ == auth->0.id_tag@
            &&& g.resource_id is Some && g.resource_id->0@ == file
            &&& g.level matches Some(l) && l.rank() <= asked.rank() && l.rank() <= held.rank()
                && l.rank() <= AccessLevel::Write.rank() && l.rank() >= AccessLevel::Read.rank()
                && (f.link_permission->Ok_0 == Some('R') ==> l == AccessLevel::Read) && (
            f.link_permission->Ok_0 == Some('C') ==> l.rank() <= AccessLevel::Comment.rank()) && (
            is_file_scope(g.scope, file, 'R') <==> l == AccessLevel::Read) && (is_file_scope(
                g.scope,
                file,
                'C',
            ) <==> l == AccessLevel::Comment) && (is_file_scope(g.scope, file, 'W') <==> l
                == AccessLevel::Write)
        },
        (q.scope is Some && auth is Some && auth->0.scope is None && (f.requested_scope matches Some(
            TokenScope::File { file_id, access },
        ) && access == AccessLevel::Write) && f.via_access == Some(AccessLevel::Admin)
            && f.link_permission == Ok::<Option<char>, Error>(Some('W'))) ==> r is Ok
            && r->Ok_0.level == Some(AccessLevel::Write),
{
    if let Ok(g) = r {
        lemma_grant(g);
        let file = f.requested_scope->0->File_file_id@;
        lemma_scopes_differ(file, 'R', 'C');
        lemma_scopes_differ(file, 'R', 'W');
        lemma_scopes_differ(file, 'C', 'W');
    }
}

proof fn lemma_scopes_differ(file: Seq<char>, a: char, b: char)
    requires
        a != b,
    ensures
        access::file_scope_text(file, a) != access::file_scope_text(file, b),
{
    assert(access::file_scope_text(file, a).last() == a);
    assert(access::file_scope_text(file, b).last() == b);
}

/// A scope on request is cut down to what the caller holds: a file's scope to the access that they
/// have to it, publishing to leaders. Nothing on request gives nothing, and what is no scope is
/// refused.
pub proof fn law_requested_scopes_are_cut_down(
    requested: Option<&str>,
    parsed: Option<&TokenScope>,
    held: Option<AccessLevel>,
    leader: bool,
    r: Result<Option<String>, Error>,
)
    requires
        call_ensures(validated_scope, (requested, parsed, held, leader), r),
    ensures
        requested is None ==> r == Ok::<Option<String>, Error>(None),
        requested is Some && parsed is Some && *parsed->0 is File && held is None ==> r is Err
            && r->Err_0 is PermissionDenied,
        requested is Some && (parsed matches Some(TokenScope::File { file_id, access })) && held is Some ==> {
            let file = parsed->0->File_file_id@;
            let asked = parsed->0->File_access;
            let least = if asked.rank() <= held->0.rank() {
                asked
            } else {
                held->0
            };
            &&& least == AccessLevel::Nothing ==> r is Err
            &&& least == AccessLevel::Read ==> r is Ok && is_file_scope(r->Ok_0, file, 'R')
            &&& least == AccessLevel::Comment ==> r is Ok && is_file_scope(r->Ok_0, file, 'C')
            &&& least == AccessLevel::Write || least == AccessLevel::Admin ==> r is Ok
                && is_file_scope(r->Ok_0, file, 'W')
        },
        requested is Some && parsed is Some && *parsed->0 is ApkgPublish ==> (r is Ok <==> leader)
            && (leader ==> r->Ok_0 is Some && r->Ok_0->0@ == requested->0@),
        r is Ok && requested is Some ==> r->Ok_0 is Some,
{
    if requested is Some {
        assert(requested.deep_view() == Some(requested->0@));
    }
    if let Ok(x) = r {
        assert(x.deep_view() is Some <==> x is Some);
        assert(x is Some ==> x.deep_view() == Some(x->0@));
    }
}

/// A proxy token is traded only where it is one and expires in time.
pub proof fn law_proxy_exchange(typ: &str, exp: Option<i64>, max_exp: i64, r: bool)
    requires
        call_ensures(proxy_exchange_allowed, (typ, exp, max_exp), r),
    ensures
        r ==> typ@ == "PROXY"@ && exp is Some && exp->0 <= max_exp,
        typ@ == "PROXY"@ && exp is Some && exp->0 <= max_exp ==> r,
{
}

/// A restricted credential gets no proxy token, and only a leader gets one for another server; at
/// one's own server it carries the roles on record.
pub proof fn law_proxy_tokens(
    own: &str,
    auth: &AuthCtx,
    q: &ProxyTokenQuery,
    roles: Result<Option<String>, Error>,
    leader: bool,
    r: Result<ProxyRoute, Error>,
)
    requires
        call_ensures(get_proxy_token, (own, auth, q, roles, leader), r),
    ensures
        r is Ok ==> auth.scope is None && roles is Ok,
        (r matches Ok(ProxyRoute::Federated(t))) ==> leader && q.id_tag is Some
            && r->Ok_0->Federated_0@ == q.id_tag->0@ && q.id_tag->0@ != own@,
        (r matches Ok(ProxyRoute::Local(x))) ==> q.id_tag is None || q.id_tag->0@ == own@,
        (r matches Ok(ProxyRoute::Local(x))) && roles->Ok_0 is Some && roles->Ok_0->0@.len() > 0
            ==> r->Ok_0->Local_0.deep_view() == roles->Ok_0.deep_view(),
        auth.scope is None && roles is Ok && (leader || q.id_tag is None || q.id_tag->0@ == own@)
            ==> r is Ok,
        auth.scope is None && roles is Ok && !leader && q.id_tag is Some && q.id_tag->0@ != own@
            ==> r is Err && r->Err_0 is PermissionDenied,
{
    if roles is Ok && roles->Ok_0 is Some {
        assert(roles->Ok_0.deep_view() == Some(roles->Ok_0->0@));
    }
}

/// Nobody renews a token at a deleted tenant. Otherwise the roles are read from the record and cut
/// down to those that were presented: who presents none gets none.
pub proof fn law_renewed_roles(tenant: &str, auth: &AuthCtx, facts: RoleFacts, r: Result<
    Option<String>,
    Error,
>)
    requires
        call_ensures(reread_roles, (tenant, auth, facts), r),
    ensures
        (facts.tenant_status is Some && facts.tenant_status->0@ == "X"@) <==> r is Err,
        r is Ok && auth.roles@.len() == 0 ==> r->Ok_0 is None,
        r is Ok && auth.id_tag@ != tenant@ && facts.profile_roles == Err::<Option<String>, Error>(
            Error::NotFound,
        ) ==> r->Ok_0 is None,
        r is Ok && auth.id_tag@ != tenant@ && facts.profile_roles == Ok::<Option<String>, Error>(
            None,
        ) ==> r->Ok_0 is None,
        r is Ok && r->Ok_0 is Some ==> r->Ok_0->0@.len() > 0,
{
    assert(facts.tenant_status.deep_view() is Some <==> facts.tenant_status is Some);
    if facts.tenant_status is Some {
        assert(facts.tenant_status.deep_view() == Some(facts.tenant_status->0@));
    }
    if let Ok(x) = r {
        assert(x.deep_view() is Some <==> x is Some);
        if auth.roles@.len() == 0 {
            assert(auth.roles.deep_view() =~= Seq::<Seq<char>>::empty());
            let e = access::recorded_roles(
                tenant@,
                auth.id_tag@,
                auth.roles.deep_view(),
                facts,
            );
            if e is Some {
                access::law_no_roles_stay_no_roles(e->0);
            }
        }
        if facts.profile_roles is Ok {
            assert(facts.profile_roles->Ok_0.deep_view() is None
                <==> facts.profile_roles->Ok_0 is None);
        }
    }
}

/// Roles are cut down to those that were presented and to nothing else: what is left is a list of
/// entries of the first list, each one presented, and every entry that was presented is left.
pub proof fn law_narrowed_roles(
    expanded: Option<String>,
    presented: &Vec<String>,
    r: Option<String>,
    role: Seq<char>,
)
    requires
        call_ensures(narrow_to_presented, (expanded, presented), r),
    ensures
        expanded is None <==> r is None,
        expanded is Some ==> exists|left: Seq<Seq<char>>|
            r->0@ == text::joined(left, ","@) && (#[trigger] left.contains(role)
                <==> text::split_on(expanded->0@, ',').contains(role)
                && presented.deep_view().contains(role)),
{
    assert(r.deep_view() is None <==> r is None);
    assert(expanded.deep_view() is None <==> expanded is None);
    if let Some(e) = expanded {
        let left = access::kept(text::split_on(e@, ','), presented.deep_view());
        access::law_narrowing_never_adds(
            text::split_on(e@, ','),
            presented.deep_view(),
            role,
        );
        assert(r.deep_view() == Some(r->0@));
        assert(left.contains(role) <==> text::split_on(e@, ',').contains(role)
            && presented.deep_view().contains(role));
    }
}

/// The tenant's own account always leads, and has the further roles on record.
pub proof fn law_owners_lead(extra: Option<Vec<String>>, r: Vec<String>, i: int)
    requires
        call_ensures(owner_role_names, (extra,), r),
    ensures
        r@.len() > 0 && r@[0]@ == "leader"@,
        extra is None ==> r@.len() == 1,
        extra is Some ==> r@.len() == 1 + extra->0@.len(),
        extra is Some && 0 <= i < extra->0@.len() ==> r@[i + 1]@ == extra->0@[i]@,
{
    assert(r.deep_view().len() == r@.len());
    assert(r.deep_view()[0] == "leader"@);
    assert(r.deep_view()[0] == r@[0]@);
    if extra is Some && 0 <= i < extra->0@.len() {
        assert(extra.deep_view() == Some(extra->0.deep_view()));
        assert(r.deep_view()[i + 1] == r@[i + 1]@);
        assert(extra->0.deep_view()[i] == extra->0@[i]@);
    }
}

/// A token that is derived from another names the same caller, and nobody where they are
/// anonymous.
pub proof fn law_derived_tokens_name_the_caller(auth: &AuthCtx, r: Option<&str>)
    requires
        call_ensures(derived_sub, (auth,), r),
    ensures
        auth.anonymous <==> r is None,
        r is Some ==> r->0@ == auth.id_tag@,
{
    assert(r.deep_view() is None <==> r is None);
}

/// A file reference with an owner before a colon stands for the file, and one without for itself.
pub proof fn law_file_references(
    owner: Seq<char>,
    file: Seq<char>,
    reference: &str,
    r: String,
)
    requires
        call_ensures(bare_file_id, (reference,), r),
        !owner.contains(':'),
        !file.contains(':'),
    ensures
        reference@ == owner + seq![':'] + file ==> r@ == file,
        reference@ == file ==> r@ == file,
{
    let s = owner + seq![':'] + file;
    assert forall|k: int| 0 <= k < owner.len() implies s[k] != ':' by {
        assert(owner.contains(owner[k]));
    }
    text::lemma_before_char(s, ':', owner.len() as int);
    assert(s.skip(owner.len() as int + 1) =~= file);
    assert forall|k: int| 0 <= k < file.len() implies file[k] != ':' by {
        assert(file.contains(file[k]));
    }
    text::lemma_before_char(file, ':', file.len() as int);
}

/// A list of roles that is empty counts as none, and the roles that are told of a token are those that it
/// carries.
pub proof fn law_told_roles(
    roles: Option<String>,
    r: Option<String>,
    token: String,
    held: &Option<String>,
    told: ProxyTokenRes,
)
    requires
        call_ensures(drop_empty, (roles,), r),
        call_ensures(local_proxy_token, (token, held), told),
    ensures
        roles is Some && roles->0@.len() > 0 ==> r is Some && r->0@ == roles->0@,
        roles is None || roles->0@.len() == 0 ==> r is None,
        told.token@ == token@,
        *held is None ==> told.roles is Some && told.roles->0@.len() == 0,
        (*held is Some && (*held)->0@.len() > 0 && !(*held)->0@.contains(',')) ==> told.roles is Some
            && told.roles->0@.len() == 1 && told.roles->0@[0]@ == (*held)->0@,
{
    assert(roles.deep_view() is Some <==> roles is Some);
    assert(r.deep_view() is Some <==> r is Some);
    assert(told.roles.deep_view() is Some <==> told.roles is Some);
    assert(told.roles is Some ==> told.roles.deep_view() == Some(told.roles->0.deep_view()));
    assert(told.roles is Some ==> told.roles->0.deep_view().len() == told.roles->0@.len());
    if *held is Some && (*held)->0@.len() > 0 && !(*held)->0@.contains(',') {
        let s = (*held)->0@;
        assert(held.deep_view() == Some(s));
        assert forall|k: int| 0 <= k < s.len() implies s[k] != ',' by {
            assert(s.contains(s[k]));
        }
        text::lemma_before_char(s, ',', s.len() as int);
        let parts = text::split_on(s, ',');
        assert(parts =~= seq![s]);
        assert(parts.drop_last() =~= Seq::<Seq<char>>::empty());
        reveal_with_fuel(access::filled, 2);
        assert(access::filled(parts) =~= seq![s]);
        assert(told.roles->0.deep_view()[0] == told.roles->0@[0]@);
    }
}

/// Of the scopes for contacts and calendars every single one passes as it is, and a text without a comma that
/// is none of them does not.
pub proof fn law_scopes_for_contacts_and_calendars(s: &str, r: Option<String>)
    requires
        call_ensures(normalized_dav_scope, (s,), r),
        !s@.contains(','),
        text::trimmed(s@) == s@,
    ensures
        (s@ == "carddav:read"@ || s@ == "carddav:write"@ || s@ == "caldav:read"@ || s@
            == "caldav:write"@) ==> r is Some && r->0@ == s@,
        !(s@ == "carddav:read"@ || s@ == "carddav:write"@ || s@ == "caldav:read"@ || s@
            == "caldav:write"@) ==> r is None,
{
    let t = s@;
    assert forall|k: int| 0 <= k < t.len() implies t[k] != ',' by {
        assert(t.contains(t[k]));
    }
    text::lemma_before_char(t, ',', t.len() as int);
    let entries = access::trim_all(text::split_on(t, ','));
    assert(entries =~= seq![t]);
    assert(entries[0] == t);
    assert(r.deep_view() is Some <==> r is Some);
}

/// The roles that another server's token claims are told as it claims them, and none where it claims none; the
/// roles in a list are its entries but for empty ones.
pub proof fn law_claimed_roles(
    token: String,
    claim: Option<&str>,
    r: ProxyTokenRes,
    list: &str,
    roles: Vec<String>,
    i: int,
)
    requires
        call_ensures(federated_proxy_token, (token, claim), r),
        call_ensures(role_list, (list,), roles),
    ensures
        r.token@ == token@,
        claim is None <==> r.roles is None,
        claim is Some ==> r.roles->0.deep_view() == text::split_on(claim->0@, ','),
        0 <= i < roles@.len() ==> roles@[i]@.len() > 0 && text::split_on(list@, ',').contains(
            roles@[i]@,
        ),
        (0 <= i < text::split_on(list@, ',').len() && text::split_on(list@, ',')[i].len() > 0)
            ==> roles.deep_view().contains(text::split_on(list@, ',')[i]),
{
    assert(r.roles.deep_view() is None <==> r.roles is None);
    if claim is Some {
        assert(claim.deep_view() == Some(claim->0@));
        assert(r.roles.deep_view() == Some(r.roles->0.deep_view()));
    }
    lemma_filled(text::split_on(list@, ','), i);
    if 0 <= i < roles@.len() {
        assert(roles.deep_view()[i] == roles@[i]@);
    }
    assert(roles.deep_view().len() == roles@.len());
}

proof fn lemma_filled(entries: Seq<Seq<char>>, i: int)
    ensures
        0 <= i < access::filled(entries).len() ==> access::filled(entries)[i].len() > 0
            && entries.contains(access::filled(entries)[i]),
        0 <= i < entries.len() && entries[i].len() > 0 ==> access::filled(entries).contains(
            entries[i],
        ),
    decreases entries.len(),
{
    if entries.len() > 0 {
        let rest = entries.drop_last();
        let before = access::filled(rest);
        let now = access::filled(entries);
        lemma_filled(rest, i);
        if 0 <= i < now.len() {
            if i < before.len() {
                let k = choose|k: int| 0 <= k < rest.len() && rest[k] == before[i];
                assert(entries[k] == now[i]);
            } else {
                assert(entries[entries.len() - 1] == now[i]);
            }
        }
        if 0 <= i < entries.len() && entries[i].len() > 0 {
            if i < rest.len() {
                let k = choose|k: int| 0 <= k < before.len() && before[k] == rest[i];
                assert(now[k] == entries[i]);
            } else {
                assert(now[now.len() - 1] == entries[i]);
            }
        }
    }
}

/// Whose roles are read from where: the tenant's own from its account, anybody else's from their profile, and where
/// that cannot be read the presented ones stand; and each is cut down to what was presented.
pub proof fn law_roles_are_read_from_the_record(
    tenant: &str,
    auth: &AuthCtx,
    facts: RoleFacts,
    r: Result<Option<String>, Error>,
    record: Option<String>,
    presented: &Vec<String>,
    narrowed: Option<String>,
    left: Option<String>,
)
    requires
        call_ensures(reread_roles, (tenant, auth, facts), r),
        r is Ok,
        presented.deep_view() == auth.roles.deep_view(),
        auth.id_tag@ == tenant@ ==> record is Some && record->0@ == facts.owner_roles@,
        auth.id_tag@ != tenant@ && facts.profile_roles is Ok ==> record.deep_view()
            == facts.profile_roles->Ok_0.deep_view(),
        auth.id_tag@ != tenant@ && facts.profile_roles is Err && facts.profile_roles->Err_0 is DbError
            ==> record is Some && record->0@ == text::joined(auth.roles.deep_view(), ","@),
        auth.id_tag@ == tenant@ || facts.profile_roles is Ok || facts.profile_roles->Err_0 is DbError,
        call_ensures(narrow_to_presented, (record, presented), narrowed),
        call_ensures(drop_empty, (narrowed,), left),
    ensures
        r->Ok_0.deep_view() == left.deep_view(),
{
    assert(record is Some ==> record.deep_view() == Some(record->0@));
}

/// A list of two scopes for contacts and calendars passes without the white space in it.
pub proof fn law_lists_of_scopes(
    a: Seq<char>,
    b: Seq<char>,
    s: &str,
    r: Option<String>,
)
    requires
        call_ensures(normalized_dav_scope, (s,), r),
        !a.contains(',') && !b.contains(','),
        s@ == a + seq![','] + b,
    ensures
        (access::is_dav_scope(text::trimmed(a)) && access::is_dav_scope(text::trimmed(b))) ==> r is Some
            && r->0@ == text::trimmed(a) + ","@ + text::trimmed(b),
        !access::is_dav_scope(text::trimmed(b)) ==> r is None,
        !access::is_dav_scope(text::trimmed(a)) ==> r is None,
{
    let t = s@;
    assert forall|k: int| 0 <= k < a.len() implies t[k] != ',' by {
        assert(a.contains(a[k]));
    }
    text::lemma_before_char(t, ',', a.len() as int);
    assert(t.take(a.len() as int) =~= a);
    assert(t.skip(a.len() as int + 1) =~= b);
    assert forall|k: int| 0 <= k < b.len() implies b[k] != ',' by {
        assert(b.contains(b[k]));
    }
    text::lemma_before_char(b, ',', b.len() as int);
    let parts = text::split_on(t, ',');
    assert(text::split_on(b, ',') =~= seq![b]);
    assert(parts == seq![t.take(a.len() as int)] + text::split_on(b, ','));
    assert(parts =~= seq![a, b]);
    let e = access::trim_all(parts);
    assert(e =~= seq![text::trimmed(a), text::trimmed(b)]);
    assert(e[0] == text::trimmed(a) && e[1] == text::trimmed(b));
    assert(e.drop_last() =~= seq![text::trimmed(a)]);
    reveal_with_fuel(text::joined, 3);
    assert(r.deep_view() is Some <==> r is Some);
}

} // verus!
