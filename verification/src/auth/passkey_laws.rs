//! What challenges and passkeys are good for.
use crate::auth::secrets;
use crate::auth::webauthn::{
    self, check_login, check_registration, credential_info, describe_passkey, has_passkeys,
    new_credential, parse_user_agent, read_challenge, reg_challenge, sign_challenge,
    try_login_challenge, valid_passkeys, ChallengeRes, ChallengeToken, ChallengeView,
    CredentialInfo, NewCredential, PasskeyFailure,
};
use crate::json::Json;
use crate::text;
use crate::types::{Error, ErrorView, Timestamp, TnId};
use vstd::prelude::*;

verus! {

/// A challenge that is signed is read from its token as it was, wherever it can be read with that secret.
pub proof fn law_challenges_are_read_back(
    c: &ChallengeToken,
    secret: &str,
    signed: Result<String, Error>,
    token: &str,
    r: Result<ChallengeToken, Error>,
)
    requires
        call_ensures(sign_challenge, (c, secret), signed),
        signed is Ok,
        token@ == signed->Ok_0@,
        call_ensures(read_challenge, (token, secret), r),
    ensures
        r is Ok ==> {
            let x = r->Ok_0;
            x.tn_id == c.tn_id && x.id_tag@ == c.id_tag@ && x.state@ == c.state@ && x.exp == c.exp
                && x.jti.deep_view() == c.jti.deep_view()
        },
        r is Err ==> r->Err_0 is Unauthorized,
{
    if let Ok(x) = r {
        assert(x@ == c@);
        assert(x@.tn_id == x.tn_id && x@.id_tag == x.id_tag@ && x@.state == x.state@);
        assert(x@.exp == x.exp && x@.jti == x.jti.deep_view());
    }
}

/// A challenge for a registration is admitted exactly where it is the caller's, of the tenant that is asked,
/// and not over; one for a sign-in where it is of that tenant and not over.
pub proof fn law_admitted_challenges(
    c: &ChallengeToken,
    tn_id: TnId,
    id_tag: &str,
    now: u64,
    reg: Result<(), Error>,
    login: Result<(), Error>,
)
    requires
        call_ensures(check_registration, (c, tn_id, id_tag, now), reg),
        call_ensures(check_login, (c, id_tag, now), login),
    ensures
        reg is Ok <==> c.tn_id == tn_id.0 && c.id_tag@ == id_tag@ && now <= c.exp,
        login is Ok <==> c.id_tag@ == id_tag@ && now <= c.exp,
        c.tn_id != tn_id.0 ==> reg is Err && reg->Err_0 is PermissionDenied,
        login is Err ==> login->Err_0 is Unauthorized,
{
}

/// A challenge is of the tenant that hands it out, holds the state of its ceremony, and lasts two minutes. One
/// for a sign-in can be spent, one for a registration cannot. What the client gets are the options of the
/// ceremony.
pub proof fn law_challenges_that_are_handed_out(
    tn_id: TnId,
    id_tag: &str,
    options: Json,
    state: String,
    jti: &str,
    secret: &str,
    now: u64,
    reg: Result<ChallengeRes, Error>,
    login: Option<ChallengeRes>,
    read: Result<ChallengeToken, Error>,
    token: &str,
)
    requires
        now < 0x1000_0000_0000_0000,
        call_ensures(reg_challenge, (tn_id, id_tag, Ok((options, state)), secret, now), reg),
        call_ensures(
            try_login_challenge,
            (tn_id, id_tag, Ok((options, state)), jti, secret, now),
            login,
        ),
    ensures
        reg is Ok ==> exists|c: ChallengeView|
            #[trigger] secrets::signed_claims(webauthn::challenge_json(c), secret@) == Some(
                reg->Ok_0.token@,
            ) && c.tn_id == tn_id.0 && c.id_tag == id_tag@ && c.state == state@ && c.exp == now + 120
                && c.jti is None,
        login is Some ==> exists|c: ChallengeView|
            #[trigger] secrets::signed_claims(webauthn::challenge_json(c), secret@) == Some(
                login->0.token@,
            ) && c.tn_id == tn_id.0 && c.id_tag == id_tag@ && c.state == state@ && c.exp == now + 120
                && c.jti == Some(jti@),
        reg is Ok && options@.member("publicKey"@) is Some ==> reg->Ok_0.options@ == options@.member(
            "publicKey"@,
        )->0,
        reg is Ok && options@.member("publicKey"@) is None ==> reg->Ok_0.options@ == options@,
        reg is Ok && login is Some ==> reg->Ok_0.options@ == login->0.options@,
{
    let a = webauthn::registration_challenge(tn_id, id_tag@, state@, now);
    let b = webauthn::login_challenge(tn_id, id_tag@, state@, jti@, now);
    if reg is Ok {
        assert(secrets::signed_claims(webauthn::challenge_json(a), secret@) == Some(
            reg->Ok_0.token@,
        ));
    }
    if login is Some {
        assert(secrets::signed_claims(webauthn::challenge_json(b), secret@) == Some(
            login->0.token@,
        ));
    }
}

/// A ceremony that could not start hands out no challenge.
pub proof fn law_failed_starts(
    tn_id: TnId,
    id_tag: &str,
    f: PasskeyFailure,
    jti: &str,
    secret: &str,
    now: u64,
    reg: Result<ChallengeRes, Error>,
    login: Option<ChallengeRes>,
)
    requires
        call_ensures(reg_challenge, (tn_id, id_tag, Err(f), secret, now), reg),
        call_ensures(try_login_challenge, (tn_id, id_tag, Err(f), jti, secret, now), login),
    ensures
        reg is Err && reg->Err_0 is Internal,
        login is None,
{
}

/// A new passkey is stored under its id, in its written form, unused, and described as asked; an answer that
/// was refused stores nothing.
pub proof fn law_new_passkeys(
    finished: Result<(Vec<u8>, String), PasskeyFailure>,
    given: Option<&str>,
    ua: Option<&str>,
    now: Timestamp,
    r: Result<NewCredential, Error>,
    described: String,
)
    requires
        call_ensures(new_credential, (finished, given, ua, now), r),
        call_ensures(describe_passkey, (given, ua, now), described),
    ensures
        r is Ok <==> finished is Ok,
        r matches Ok(c) ==> c.public_key@ == (finished->Ok_0).1@ && c.counter == 0 && c.description@
            == described@ && c.credential_id@ == secrets::base64_url_of((finished->Ok_0).0@),
        given is Some ==> described@ == given->0@,
        finished is Err && finished->Err_0 == PasskeyFailure::Refused ==> r->Err_0
            is PermissionDenied,
        finished is Err && finished->Err_0 == PasskeyFailure::Answer ==> r->Err_0 is Parse,
{
    if given is Some {
        assert(given.deep_view() == Some(given->0@));
    }
}

/// A device goes by the browser and the system that its user agent names.
pub proof fn law_devices(ua: &str, r: String)
    requires
        call_ensures(parse_user_agent, (ua,), r),
    ensures
        text::has_part(ua@, "Firefox"@) && text::has_part(ua@, "Windows"@) ==> r@ == "Firefox"@
            + " on "@ + "Windows"@,
        (!text::has_part(ua@, "Firefox"@) && !text::has_part(ua@, "Edg/"@) && text::has_part(
            ua@,
            "Chrome"@,
        ) && !text::has_part(ua@, "Windows"@) && text::has_part(ua@, "Macintosh"@)) ==> r@
            == "Chrome"@ + " on "@ + "macOS"@,
        (!text::has_part(ua@, "Firefox"@) && text::has_part(ua@, "Edg/"@) && text::has_part(
            ua@,
            "Windows"@,
        )) ==> r@ == "Edge"@ + " on "@ + "Windows"@,
        (!text::has_part(ua@, "Firefox"@) && !text::has_part(ua@, "Edg/"@) && !text::has_part(
            ua@,
            "Chrome"@,
        ) && text::has_part(ua@, "Safari"@) && !text::has_part(ua@, "Windows"@)
            && !text::has_part(ua@, "Mac OS"@) && !text::has_part(ua@, "Macintosh"@)
            && !text::has_part(ua@, "Linux"@) && !text::has_part(ua@, "Android"@)
            && text::has_part(ua@, "iPad"@)) ==> r@ == "Safari"@ + " on "@ + "iOS"@,
        (text::has_part(ua@, "Firefox"@) && !text::has_part(ua@, "Windows"@) && !text::has_part(
            ua@,
            "Mac OS"@,
        ) && !text::has_part(ua@, "Macintosh"@) && text::has_part(ua@, "Linux"@)) ==> r@
            == "Firefox"@ + " on "@ + "Linux"@,
        (text::has_part(ua@, "Firefox"@) && !text::has_part(ua@, "Windows"@) && !text::has_part(
            ua@,
            "Mac OS"@,
        ) && !text::has_part(ua@, "Macintosh"@) && !text::has_part(ua@, "Linux"@)
            && text::has_part(ua@, "Android"@)) ==> r@ == "Firefox"@ + " on "@ + "Android"@,
{
}

/// A passkey is listed under its id with its description, or as a passkey where it has none.
pub proof fn law_listed_passkeys(id: &str, description: Option<&str>, r: CredentialInfo)
    requires
        call_ensures(credential_info, (id, description), r),
    ensures
        r.credential_id@ == id@,
        description is Some ==> r.description@ == description->0@,
        description is None ==> r.description@ == "Passkey"@,
{
}

/// The passkeys that can be used are those on record that can be read.
pub proof fn law_usable_passkeys(keys: &Vec<String>, r: Vec<String>, has: bool, i: int)
    requires
        call_ensures(valid_passkeys, (keys,), r),
        call_ensures(has_passkeys, (keys,), has),
    ensures
        has <==> r@.len() > 0,
        0 <= i < keys@.len() && webauthn::is_passkey(keys@[i]@) ==> r.deep_view().contains(keys@[i]@),
        0 <= i < r@.len() ==> webauthn::is_passkey(r@[i]@) && keys.deep_view().contains(r@[i]@),
{
    let all = keys.deep_view();
    let keep = |k: Seq<char>| webauthn::is_passkey(k);
    assert(webauthn::usable(all) == all.filter(keep));
    assert(r.deep_view().len() == r@.len());
    lemma_usable(all, i);
    if 0 <= i < keys@.len() {
        assert(all[i] == keys@[i]@);
    }
    if 0 <= i < r@.len() {
        assert(r.deep_view()[i] == r@[i]@);
    }
}

proof fn lemma_usable(all: Seq<Seq<char>>, i: int)
    ensures
        0 <= i < all.len() && webauthn::is_passkey(all[i]) ==> webauthn::usable(all).contains(all[i]),
        0 <= i < webauthn::usable(all).len() ==> webauthn::is_passkey(webauthn::usable(all)[i])
            && all.contains(webauthn::usable(all)[i]),
    decreases all.len(),
{
    reveal_with_fuel(Seq::filter, 2);
    if all.len() > 0 {
        let rest = all.drop_last();
        let before = webauthn::usable(rest);
        let now = webauthn::usable(all);
        lemma_usable(rest, i);
        assert(now == if webauthn::is_passkey(all.last()) {
            before.push(all.last())
        } else {
            before
        });
        if 0 <= i < all.len() && webauthn::is_passkey(all[i]) {
            if i < rest.len() {
                let j = choose|j: int| 0 <= j < before.len() && before[j] == all[i];
                assert(now[j] == all[i]);
            } else {
                assert(now[now.len() - 1] == all[i]);
            }
        }
        if 0 <= i < now.len() {
            if i < before.len() {
                let j = choose|j: int| 0 <= j < rest.len() && rest[j] == before[i];
                assert(all[j] == now[i]);
            } else {
                assert(all[all.len() - 1] == now[i]);
            }
        }
    }
}

/// A sign-in is accepted exactly where the challenge is one for a sign-in at this tenant that is not over, the
/// answer was accepted, and the challenge was not spent; only what the client sent counts against it.
pub proof fn law_accepted_sign_ins(
    c: ChallengeView,
    host: Seq<char>,
    finished: Result<(Seq<u8>, u32), PasskeyFailure>,
    spent: Map<Seq<char>, u64>,
    now: u64,
    tick: u64,
)
    ensures
        webauthn::login_outcome(c, host, finished, spent, now, tick) is Ok <==> c.jti is Some && now
            <= c.exp && c.id_tag == host && finished is Ok && !(spent.dom().contains(c.jti->0) && tick
            < spent[c.jti->0]),
        (c.jti is Some && now <= c.exp && c.id_tag == host && (finished matches Err(f) && f
            == PasskeyFailure::Refused)) ==> webauthn::login_outcome(
            c,
            host,
            finished,
            spent,
            now,
            tick,
        ) == Err::<(), (ErrorView, bool)>((ErrorView::PermissionDenied, true)),
        (c.jti is Some && now <= c.exp && c.id_tag == host && (finished matches Err(f) && (f
            == PasskeyFailure::State || f == PasskeyFailure::Origin || f == PasskeyFailure::Party)))
            ==> webauthn::login_outcome(c, host, finished, spent, now, tick) is Err
            && !(webauthn::login_outcome(c, host, finished, spent, now, tick)->Err_0).1,
        webauthn::record_end(tick) >= tick,
        tick <= u64::MAX - 120_000 ==> webauthn::record_end(tick) == tick + 120_000,
{
}

/// A challenge that is spent is remembered for two minutes, and so are the others that were.
pub proof fn law_spent_challenges(
    m: Map<Seq<char>, u64>,
    jti: Seq<char>,
    other: Seq<char>,
    now: u64,
    later: u64,
)
    requires
        now <= u64::MAX - 120_000,
        now <= later,
    ensures
        webauthn::is_spent(webauthn::spent_with(m, jti, now), jti, later) <==> later < now + 120_000,
        other != jti && m.dom().contains(other) && later < m[other] ==> webauthn::is_spent(
            webauthn::spent_with(m, jti, now),
            other,
            later,
        ),
{
}

} // verus!
