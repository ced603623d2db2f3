//! `FSHR`: sharing a file. `DEL` takes a share back.
use crate::action::hooks::HookContext;
use crate::action::native_hooks::cmnt;
use crate::action::native_hooks::plan::{self, resting, HookPlan};
use crate::json::Json;
use crate::text;
use crate::types::{Error, Timestamp};
use vstd::prelude::*;

verus! {

/// The permission that a subtype grants; an unknown one grants reading only.
pub open spec fn permission_of(sub_typ: Option<Seq<char>>) -> char {
    if sub_typ == Some("ADMIN"@) {
        'A'
    } else if sub_typ == Some("WRITE"@) {
        'W'
    } else if sub_typ == Some("COMMENT"@) {
        'C'
    } else {
        'R'
    }
}

pub fn perm_char_for_sub_typ(sub_typ: Option<&str>) -> (r: char)
    ensures
        r == permission_of(sub_typ.deep_view()),
{
    if text::is_text(sub_typ, "ADMIN") {
        'A'
    } else if text::is_text(sub_typ, "WRITE") {
        'W'
    } else if text::is_text(sub_typ, "COMMENT") {
        'C'
    } else {
        'R'
    }
}

/// Whether a grantee drops their own grant.
pub fn is_self_revocation(issuer: &str, audience: &str) -> (r: bool)
    ensures
        r == (issuer@ == audience@),
{
    text::same(issuer, audience)
}

/// The change to the shares of a file that an `FSHR` asks for.
#[derive(Debug, Clone, Copy, PartialEq, Eq, Structural)]
pub enum ShareChange {
    /// Nothing: the file or the grantee is missing.
    Nothing,
    /// The grant of this permission, for which the issuer needs to manage the file's shares and
    /// may not grant more than they hold.
    Grant(char),
    /// The end of a grant, for which the issuer needs to manage the file's shares.
    Revoke,
    /// The end of the issuer's own grant, for which they need nothing.
    Renounce,
}

pub open spec fn change_of(ctx: HookContext) -> ShareChange {
    if ctx.subject is None || ctx.audience is None {
        ShareChange::Nothing
    } else if cmnt::is_deletion(ctx) {
        if ctx.issuer@ == ctx.audience->0@ {
            ShareChange::Renounce
        } else {
            ShareChange::Revoke
        }
    } else {
        ShareChange::Grant(permission_of(ctx.subtype.deep_view()))
    }
}

/// What change an `FSHR` created here asks for.
pub fn share_change(ctx: &HookContext) -> (r: ShareChange)
    ensures
        r == change_of(*ctx),
{
    match (&ctx.subject, &ctx.audience) {
        (Some(_), Some(audience)) => {
            let subtype = text::as_opt(&ctx.subtype);
            if text::is_text(subtype, "DEL") {
                if is_self_revocation(ctx.issuer.as_str(), audience.as_str()) {
                    ShareChange::Renounce
                } else {
                    ShareChange::Revoke
                }
            } else {
                ShareChange::Grant(perm_char_for_sub_typ(subtype))
            }
        },
        _ => ShareChange::Nothing,
    }
}

/// Whether a change goes ahead. `manages` tells whether the issuer manages the file's shares,
/// and `within_ceiling` whether they may grant the permission.
pub fn authorize_share_change(change: ShareChange, manages: bool, within_ceiling: bool) -> (r: Result<
    (),
    Error,
>)
    ensures
        r is Ok <==> (match change {
            ShareChange::Grant(_) => manages && within_ceiling,
            ShareChange::Revoke => manages,
            _ => true,
        }),
        r matches Err(e) ==> e is PermissionDenied,
{
    let allowed = match change {
        ShareChange::Grant(_) => manages && within_ceiling,
        ShareChange::Revoke => manages,
        _ => true,
    };
    if allowed {
        Ok(())
    } else {
        Err(Error::PermissionDenied)
    }
}

/// A share of a file.
#[derive(Debug)]
pub struct ShareEntry {
    pub id: i64,
    pub subject_type: char,
    pub subject_id: String,
    pub permission: char,
    pub expires_at: Option<Timestamp>,
}

/// Whether a share is that of a user.
pub open spec fn is_share_of(e: ShareEntry, user: Seq<char>) -> bool {
    e.subject_type == 'U' && e.subject_id@ == user
}

fn shares_with(e: &ShareEntry, user: &str) -> (r: bool)
    ensures
        r == is_share_of(*e, user@),
{
    e.subject_type == 'U' && text::same(e.subject_id.as_str(), user)
}

/// The numbers of the shares of a user.
pub open spec fn share_ids(entries: Seq<ShareEntry>, user: Seq<char>) -> Seq<i64>
    decreases entries.len(),
{
    if entries.len() == 0 {
        Seq::empty()
    } else {
        let rest = share_ids(entries.drop_last(), user);
        if is_share_of(entries.last(), user) {
            rest.push(entries.last().id)
        } else {
            rest
        }
    }
}

/// The shares that the end of a user's grant deletes.
pub fn shares_to_delete(entries: &Vec<ShareEntry>, user: &str) -> (r: Vec<i64>)
    ensures
        r@ == share_ids(entries@, user@),
{
    let mut ids: Vec<i64> = Vec::new();
    let mut i: usize = 0;
    while i < entries.len()
        invariant
            i <= entries@.len(),
            ids@ == share_ids(entries@.take(i as int), user@),
        decreases entries@.len() - i,
    {
        proof {
            assert(entries@.take(i + 1).drop_last() =~= entries@.take(i as int));
            assert(entries@.take(i + 1).last() == entries@[i as int]);
        }
        if shares_with(&entries[i], user) {
            ids.push(entries[i].id);
        }
        i = i + 1;
    }
    assert(entries@.take(i as int) =~= entries@);
    ids
}

/// Whether a share is the first one of a user.
pub open spec fn first_share(entries: Seq<ShareEntry>, user: Seq<char>, i: int) -> bool {
    &&& 0 <= i < entries.len()
    &&& is_share_of(entries[i], user)
    &&& forall|k: int| 0 <= k < i ==> !is_share_of(#[trigger] entries[k], user)
}

/// What a grant of `permission` to a user writes: nothing where the user already holds exactly
/// that, else a share that expires when the earlier one would have.
pub fn share_to_write(entries: &Vec<ShareEntry>, user: &str, permission: char) -> (r: Option<
    Option<Timestamp>,
>)
    ensures
        r is None <==> (exists|i: int|
            first_share(entries@, user@, i) && entries@[i].permission == permission),
        r matches Some(expires_at) ==> {
            &&& forall|i: int| first_share(entries@, user@, i) ==> expires_at
                == entries@[i].expires_at
            &&& (forall|i: int|
                0 <= i < entries@.len() ==> !is_share_of(#[trigger] entries@[i], user@))
                ==> expires_at is None
        },
{
    let mut i: usize = 0;
    while i < entries.len()
        invariant
            i <= entries@.len(),
            forall|k: int| 0 <= k < i ==> !is_share_of(#[trigger] entries@[k], user@),
        decreases entries@.len() - i,
    {
        if shares_with(&entries[i], user) {
            proof {
                assert(first_share(entries@, user@, i as int));
                assert forall|j: int| first_share(entries@, user@, j) implies j == i by {
                    if j < i {
                        assert(!is_share_of(entries@[j], user@));
                    }
                    if i < j {
                        assert(!is_share_of(entries@[i as int], user@));
                    }
                }
            }
            if entries[i].permission == permission {
                return None;
            }
            return Some(entries[i].expires_at);
        }
        i = i + 1;
    }
    Some(None)
}

/// What the issuer of a share may do with the file.
#[derive(Debug, Clone, Copy, PartialEq, Eq, Structural)]
pub struct ShareAuthority {
    /// Whether they manage the file's shares.
    pub manages: bool,
    /// Whether they may grant the permission that is asked for.
    pub within_ceiling: bool,
}

/// What an `FSHR` created here does to the shares of its file.
#[derive(Debug)]
pub enum ShareWork {
    Nothing,
    /// The shares with these numbers are deleted.
    Delete(Vec<i64>),
    /// The grantee gets a share with this permission and expiry.
    Write { permission: char, expires_at: Option<Timestamp> },
}

/// Whether a change needs the authority of its issuer over the file.
pub open spec fn needs_authority(change: ShareChange) -> bool {
    change is Grant || change is Revoke
}

/// Why a change is refused; nothing where it goes ahead.
pub open spec fn change_refusal(
    change: ShareChange,
    authority: Result<ShareAuthority, Error>,
) -> Option<Error> {
    if !needs_authority(change) {
        None
    } else {
        match authority {
            Err(e) => Some(e),
            Ok(a) => if a.manages && (change is Grant ==> a.within_ceiling) {
                None
            } else {
                Some(Error::PermissionDenied)
            },
        }
    }
}

/// Whether `w` is what a change does to the shares of a file.
pub open spec fn is_share_work(
    w: ShareWork,
    change: ShareChange,
    entries: Seq<ShareEntry>,
    user: Seq<char>,
) -> bool {
    match change {
        ShareChange::Nothing => w is Nothing,
        ShareChange::Revoke | ShareChange::Renounce => w matches ShareWork::Delete(ids) && ids@
            == share_ids(entries, user),
        ShareChange::Grant(c) => if exists|i: int|
            first_share(entries, user, i) && entries[i].permission == c {
            w is Nothing
        } else {
            w matches ShareWork::Write { permission, expires_at } && permission == c && (forall|
                i: int,
            |
                first_share(entries, user, i) ==> expires_at == entries[i].expires_at) && ((forall|
                i: int,
            |
                0 <= i < entries.len() ==> !is_share_of(#[trigger] entries[i], user))
                ==> expires_at is None)
        },
    }
}

/// Decides on an `FSHR` created here; `authority` is what its issuer may do with the file, and
/// `entries` are the shares of the file. One that is refused is deleted.
pub fn on_create(
    ctx: &HookContext,
    authority: Result<ShareAuthority, Error>,
    entries: &Vec<ShareEntry>,
) -> (r: Result<ShareWork, Error>)
    ensures
        match change_refusal(change_of(*ctx), authority) {
            Some(e) => r == Err::<ShareWork, Error>(e),
            None => r matches Ok(w) && is_share_work(
                w,
                change_of(*ctx),
                entries@,
                ctx.audience->0@,
            ),
        },
{
    let change = share_change(ctx);
    let audience: &str = match &ctx.audience {
        Some(a) => a.as_str(),
        None => {
            return Ok(ShareWork::Nothing);
        },
    };
    match change {
        ShareChange::Nothing => {
            return Ok(ShareWork::Nothing);
        },
        ShareChange::Renounce => {},
        ShareChange::Grant(_) | ShareChange::Revoke => match authority {
            Err(e) => {
                return Err(e);
            },
            Ok(a) => match authorize_share_change(change, a.manages, a.within_ceiling) {
                Ok(()) => {},
                Err(_) => {
                    return Err(Error::PermissionDenied);
                },
            },
        },
    }
    match change {
        ShareChange::Grant(permission) => match share_to_write(entries, audience, permission) {
            Some(expires_at) => Ok(ShareWork::Write { permission, expires_at }),
            None => Ok(ShareWork::Nothing),
        },
        _ => Ok(ShareWork::Delete(shares_to_delete(entries, audience))),
    }
}

/// Nobody grants access to a file whose shares they do not manage, nor ends the grant of somebody
/// else.
pub proof fn law_shares_are_managed(ctx: HookContext, authority: Result<ShareAuthority, Error>)
    requires
        ctx.subject is Some && ctx.audience is Some,
        !(cmnt::is_deletion(ctx) && ctx.issuer@ == ctx.audience->0@),
        !(authority is Ok && authority->Ok_0.manages),
    ensures
        change_refusal(change_of(ctx), authority) is Some,
{
}

/// The owner of a file on record: the tenant itself where none is named.
pub open spec fn file_owner(owner: Option<Seq<char>>, tenant_tag: Seq<char>) -> Seq<char> {
    match owner {
        Some(o) => if o.len() > 0 {
            o
        } else {
            tenant_tag
        },
        None => tenant_tag,
    }
}

/// Whether a share is refused: the file is on record with another owner than the issuer.
pub open spec fn share_refused(ctx: HookContext, file: Option<Option<Seq<char>>>) -> bool {
    ctx.subject is Some && file is Some && file_owner(file->0, ctx.tenant_tag@) != ctx.issuer@
}

/// Decides on an `FSHR` that arrived; `file` is the owner of the file on record, where there is
/// such a file. A share with this tenant waits for confirmation.
pub fn on_receive(ctx: &HookContext, file: Option<Option<&str>>) -> (r: Result<HookPlan, Error>)
    ensures
        r is Err <==> share_refused(
            *ctx,
            match file {
                Some(o) => Some(o.deep_view()),
                None => None,
            },
        ),
        r matches Err(e) ==> e is PermissionDenied,
        r matches Ok(p) ==> p@ == resting(
            if ctx.audience.deep_view() == Some(ctx.tenant_tag@) && !cmnt::is_deletion(*ctx) {
                Some('C')
            } else {
                None
            },
        ),
{
    if ctx.subject.is_some() {
        if let Some(o) = file {
            let owner: &str = match o {
                Some(x) => {
                    if x.is_empty() {
                        ctx.tenant_tag.as_str()
                    } else {
                        x
                    }
                },
                None => ctx.tenant_tag.as_str(),
            };
            if !text::same(owner, ctx.issuer.as_str()) {
                return Err(Error::PermissionDenied);
            }
        }
    }
    let audience = text::is_text(text::as_opt(&ctx.audience), ctx.tenant_tag.as_str());
    if audience && !text::is_text(text::as_opt(&ctx.subtype), "DEL") {
        Ok(plan::rest(Some('C')))
    } else {
        Ok(plan::rest(None))
    }
}

/// The file that accepting a share creates.
#[derive(Debug)]
pub struct SharedFile {
    pub file_id: String,
    pub owner_tag: String,
    pub content_type: String,
    pub file_name: String,
    pub file_tp: String,
    /// The permission that the recipient sees.
    pub permission: char,
}

/// Whether a share says everything that is needed to accept it.
pub open spec fn acceptable(ctx: HookContext) -> bool {
    &&& ctx.content is Some && ctx.subject is Some
    &&& ctx.content->0@.text_member("contentType"@) is Some
    &&& ctx.content->0@.text_member("fileName"@) is Some
    &&& ctx.content->0@.text_member("fileTp"@) is Some
}

/// What accepting a share creates: the file, owned by the issuer. Nothing where the share does
/// not say what is needed.
pub fn on_accept(ctx: &HookContext) -> (r: Option<SharedFile>)
    ensures
        r is Some <==> acceptable(*ctx),
        r matches Some(f) ==> {
            &&& f.file_id@ == ctx.subject->0@
            &&& f.owner_tag@ == ctx.issuer@
            &&& f.content_type@ == ctx.content->0@.text_member("contentType"@)->0
            &&& f.file_name@ == ctx.content->0@.text_member("fileName"@)->0
            &&& f.file_tp@ == ctx.content->0@.text_member("fileTp"@)->0
            &&& f.permission == permission_of(ctx.subtype.deep_view())
        },
{
    let content: &Json = match &ctx.content {
        Some(c) => c,
        None => {
            return None;
        },
    };
    let file_id: &String = match &ctx.subject {
        Some(s) => s,
        None => {
            return None;
        },
    };
    match (content.get_text("contentType"), content.get_text("fileName"), content.get_text("fileTp")) {
        (Some(ct), Some(name), Some(tp)) => Some(
            SharedFile {
                file_id: file_id.clone(),
                owner_tag: ctx.issuer.clone(),
                content_type: text::owned(ct),
                file_name: text::owned(name),
                file_tp: text::owned(tp),
                permission: perm_char_for_sub_typ(text::as_opt(&ctx.subtype)),
            },
        ),
        _ => None,
    }
}

/// No subtype outside the vocabulary grants more than reading.
pub proof fn law_unknown_subtypes_grant_reading(sub_typ: Option<Seq<char>>)
    requires
        sub_typ != Some("ADMIN"@),
        sub_typ != Some("WRITE"@),
        sub_typ != Some("COMMENT"@),
    ensures
        permission_of(sub_typ) == 'R',
{
}

} // verus!
