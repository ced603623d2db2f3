//! Signing in with a passkey.
//!
//! A challenge is handed out as a signed token, and an accepted answer to it is recorded, so
//! that the same answer is not accepted twice.
use crate::auth::secrets::{self, claims_of};
use crate::calendar::time::{self, TimeStyle};
use crate::json::{self, Json, JsonView};
use crate::text;
use crate::types::{Error, ErrorView, Timestamp, TnId};
use vstd::prelude::*;
use webauthn_rs::prelude::{Passkey, Url, Uuid};
use webauthn_rs::WebauthnBuilder;

verus! {

/// How long a challenge lasts, in seconds.
pub const CHALLENGE_EXPIRY_SECS: u64 = 120;

/// How many records there may be before those that have expired are removed.
pub const SPENT_SWEEP_ABOVE: usize = 1024;

/// The challenges for which an answer was accepted, with the time, in milliseconds of a clock
/// that never goes back, until which each is remembered.
pub uninterp spec fn spent_in(m: dashmap::DashMap<String, u64>) -> Map<Seq<char>, u64>;

pub open spec fn none_spent() -> Map<Seq<char>, u64> {
    Map::empty()
}

/// `dashmap::DashMap::new`: an empty map.
#[verifier::external_body]
fn map_new() -> (r: dashmap::DashMap<String, u64>)
    ensures
        spent_in(r) == none_spent(),
{
    dashmap::DashMap::new()
}

/// Whether a row of that many distinct keys makes up the keys of a map.
pub open spec fn has_keys(m: Map<Seq<char>, u64>, n: nat) -> bool {
    exists|ks: Seq<Seq<char>>| #[trigger]
        ks.no_duplicates() && ks.to_set() == m.dom() && ks.len() == n
}

/// `dashmap::DashMap::len`: the number of entries.
#[verifier::external_body]
fn map_count(m: &dashmap::DashMap<String, u64>) -> (r: usize)
    ensures
        has_keys(spent_in(*m), r as nat),
{
    m.len()
}

/// `dashmap::DashMap::get`: a copy of the value of a key.
#[verifier::external_body]
fn map_get(m: &dashmap::DashMap<String, u64>, key: &str) -> (r: Option<u64>)
    ensures
        r is Some <==> spent_in(*m).dom().contains(key@),
        r is Some ==> r->0 == spent_in(*m)[key@],
{
    m.get(key).map(|t| *t.value())
}

/// `dashmap::DashMap::insert`: sets the value of a key, in place of an earlier one.
#[verifier::external_body]
fn map_insert(m: &mut dashmap::DashMap<String, u64>, key: String, t: u64)
    ensures
        spent_in(*final(m)) == spent_in(*old(m)).insert(key@, t),
{
    m.insert(key, t);
}

/// The records that have not expired.
pub open spec fn unexpired(m: Map<Seq<char>, u64>, now: u64) -> Map<Seq<char>, u64> {
    m.restrict(m.dom().filter(|k: Seq<char>| now < m[k]))
}

/// Whether a record has not expired.
pub fn unexpired_at(expires: u64, now: u64) -> (r: bool)
    ensures
        r == (now < expires),
{
    now < expires
}

/// `dashmap::DashMap::retain`: keeps the entries whose time [`unexpired_at`] holds of.
#[verifier::external_body]
fn map_retain_unexpired(m: &mut dashmap::DashMap<String, u64>, now: u64)
    ensures
        spent_in(*final(m)) == unexpired(spent_in(*old(m)), now),
{
    m.retain(|_, t| unexpired_at(*t, now));
}

/// The record of spent challenges. Where it is shared, the program puts a lock round it, so that
/// of two answers to one challenge only one is accepted.
pub struct SpentChallenges {
    spent: dashmap::DashMap<String, u64>,
}

impl View for SpentChallenges {
    type V = Map<Seq<char>, u64>;

    closed spec fn view(&self) -> Map<Seq<char>, u64> {
        spent_in(self.spent)
    }
}

/// The records that are there when another one is made: where there are many, those that have
/// expired go first.
pub open spec fn swept(m: Map<Seq<char>, u64>, now: u64) -> Map<Seq<char>, u64> {
    if m.dom().len() > SPENT_SWEEP_ABOVE {
        unexpired(m, now)
    } else {
        m
    }
}

/// The end of a record that is made at a given time.
pub open spec fn record_end(now: u64) -> u64 {
    if now + CHALLENGE_EXPIRY_SECS * 1000 > u64::MAX {
        u64::MAX
    } else {
        (now + CHALLENGE_EXPIRY_SECS * 1000) as u64
    }
}

/// Whether a challenge was spent and is still remembered.
pub open spec fn is_spent(m: Map<Seq<char>, u64>, jti: Seq<char>, now: u64) -> bool {
    m.dom().contains(jti) && now < m[jti]
}

/// The records once a challenge is spent.
pub open spec fn spent_with(m: Map<Seq<char>, u64>, jti: Seq<char>, now: u64) -> Map<Seq<char>, u64> {
    swept(m, now).insert(jti, record_end(now))
}

impl SpentChallenges {
    pub fn new() -> (r: SpentChallenges)
        ensures
            r@ == Map::<Seq<char>, u64>::empty(),
    {
        SpentChallenges { spent: map_new() }
    }

    /// Records a challenge as spent; refused where it is spent already, without making the
    /// record last longer.
    pub fn consume_challenge(&mut self, jti: &str, now: u64) -> (r: Result<(), Error>)
        ensures
            r is Err <==> is_spent(old(self)@, jti@, now),
            r matches Err(e) ==> e is Unauthorized && final(self)@ == swept(old(self)@, now),
            r is Ok ==> final(self)@ == spent_with(old(self)@, jti@, now),
    {
        let n: usize = map_count(&self.spent);
        proof {
            let m = self@;
            let ks = choose|ks: Seq<Seq<char>>| #[trigger]
                ks.no_duplicates() && ks.to_set() == m.dom() && ks.len() == n as nat;
            ks.unique_seq_to_set();
        }
        if n > SPENT_SWEEP_ABOVE {
            map_retain_unexpired(&mut self.spent, now);
        }
        let expires: u64 = match now.checked_add(CHALLENGE_EXPIRY_SECS * 1000) {
            Some(t) => t,
            None => u64::MAX,
        };
        if let Some(t) = map_get(&self.spent, jti) {
            if unexpired_at(t, now) {
                return Err(Error::Unauthorized);
            }
        }
        map_insert(&mut self.spent, text::owned(jti), expires);
        Ok(())
    }
}

/// A challenge is spent at most once while it lasts.
pub proof fn law_challenge_is_spent_once(m: Map<Seq<char>, u64>, jti: Seq<char>, now: u64, later: u64)
    requires
        now <= later < record_end(now),
    ensures
        is_spent(spent_with(m, jti, now), jti, later),
{
}

/// Spending one challenge does not spend another.
pub proof fn law_challenges_are_independent(
    m: Map<Seq<char>, u64>,
    jti: Seq<char>,
    other: Seq<char>,
    now: u64,
)
    requires
        other != jti,
    ensures
        is_spent(spent_with(m, jti, now), other, now) == is_spent(m, other, now),
{
}

/// A fresh id for a challenge.
pub fn new_jti() -> (r: String)
    ensures
        secrets::is_drawn(r@, 16),
{
    let bytes = secrets::random_bytes(16);
    secrets::base64_url(bytes.as_slice())
}

// ---------------------------------------------------------------------------------------------
// Challenges
// ---------------------------------------------------------------------------------------------

/// The claims of a challenge. One for registration has no id.
#[derive(Debug)]
pub struct ChallengeToken {
    pub tn_id: u32,
    pub id_tag: String,
    /// What the passkey library needs to check the answer.
    pub state: String,
    pub exp: u64,
    /// The id under which the challenge is recorded as spent.
    pub jti: Option<String>,
}

pub struct ChallengeView {
    pub tn_id: u32,
    pub id_tag: Seq<char>,
    pub state: Seq<char>,
    pub exp: u64,
    pub jti: Option<Seq<char>>,
}

impl View for ChallengeToken {
    type V = ChallengeView;

    open spec fn view(&self) -> ChallengeView {
        ChallengeView {
            tn_id: self.tn_id,
            id_tag: self.id_tag@,
            state: self.state@,
            exp: self.exp,
            jti: self.jti.deep_view(),
        }
    }
}

/// The signed form of a challenge.
pub open spec fn challenge_json(c: ChallengeView) -> JsonView {
    let common = seq![
        ("tn_id"@, JsonView::Unsigned(c.tn_id as u64)),
        ("id_tag"@, JsonView::Text(c.id_tag)),
        ("state"@, JsonView::Text(c.state)),
        ("exp"@, JsonView::Unsigned(c.exp)),
    ];
    match c.jti {
        Some(j) => JsonView::Object(common.push(("jti"@, JsonView::Text(j)))),
        None => JsonView::Object(common),
    }
}

/// The challenge that claims describe.
pub open spec fn challenge_in(v: JsonView) -> Option<ChallengeView> {
    match (
        v.member("tn_id"@),
        v.text_member("id_tag"@),
        v.text_member("state"@),
        v.member("exp"@),
    ) {
        (
            Some(JsonView::Unsigned(n)),
            Some(id_tag),
            Some(state),
            Some(JsonView::Unsigned(exp)),
        ) => if n <= u32::MAX {
            Some(
                ChallengeView {
                    tn_id: n as u32,
                    id_tag,
                    state,
                    exp,
                    jti: v.text_member("jti"@),
                },
            )
        } else {
            None
        },
        _ => None,
    }
}

impl ChallengeToken {
    /// The claims as they are signed.
    pub fn to_json(&self) -> (r: Json)
        ensures
            r@ == challenge_json(self@),
    {
        let mut o: Vec<(String, Json)> = Vec::new();
        o.push((text::owned("tn_id"), Json::Unsigned(self.tn_id as u64)));
        o.push((text::owned("id_tag"), Json::Text(self.id_tag.clone())));
        o.push((text::owned("state"), Json::Text(self.state.clone())));
        o.push((text::owned("exp"), Json::Unsigned(self.exp)));
        if let Some(j) = &self.jti {
            o.push((text::owned("jti"), Json::Text(j.clone())));
        }
        let r = Json::Object(o);
        proof {
            reveal_with_fuel(json::says, 2);
            assert(r@->Object_0 =~= challenge_json(self@)->Object_0);
        }
        r
    }

    /// The challenge that claims describe; claims of another shape are refused.
    pub fn from_json(v: &Json) -> (r: Result<ChallengeToken, Error>)
        ensures
            match r {
                Ok(c) => challenge_in(v@) == Some(c@),
                Err(e) => challenge_in(v@) is None && e is Unauthorized,
            },
    {
        let tn_id: Option<u64> = match v.get("tn_id") {
            Some(x) => x.as_u64(),
            None => None,
        };
        let exp: Option<u64> = match v.get("exp") {
            Some(x) => x.as_u64(),
            None => None,
        };
        match (tn_id, v.get_text("id_tag"), v.get_text("state"), exp) {
            (Some(n), Some(id_tag), Some(state), Some(exp)) => {
                if n > 4294967295 {
                    return Err(Error::Unauthorized);
                }
                Ok(
                    ChallengeToken {
                        tn_id: n as u32,
                        id_tag: text::owned(id_tag),
                        state: text::owned(state),
                        exp,
                        jti: text::owned_opt(v.get_text("jti")),
                    },
                )
            },
            _ => Err(Error::Unauthorized),
        }
    }
}

/// The challenge that was signed is the one that is read from its claims.
pub proof fn law_challenge_round_trip(c: ChallengeView)
    ensures
        challenge_in(challenge_json(c)) == Some(c),
{
    reveal_strlit("tn_id");
    reveal_strlit("id_tag");
    reveal_strlit("state");
    reveal_strlit("exp");
    reveal_strlit("jti");
    let o = challenge_json(c)->Object_0;
    assert("tn_id"@.len() == 5 && "id_tag"@.len() == 6 && "state"@.len() == 5);
    assert("exp"@.len() == 3 && "jti"@.len() == 3);
    assert("tn_id"@[0] == 't' && "state"@[0] == 's' && "exp"@[0] == 'e' && "jti"@[0] == 'j');
    reveal_with_fuel(json::last_named, 6);
    if c.jti is Some {
        let p = o.drop_last();
        assert(o.last() == o[4]);
        assert(p.last() == o[3]);
        assert(p.drop_last().last() == o[2]);
        assert(p.drop_last().drop_last().last() == o[1]);
        assert(p.drop_last().drop_last().drop_last().last() == o[0]);
    } else {
        assert(o.last() == o[3]);
        assert(o.drop_last().last() == o[2]);
        assert(o.drop_last().drop_last().last() == o[1]);
        assert(o.drop_last().drop_last().drop_last().last() == o[0]);
    }
}

/// Admits a challenge for a registration: it has to be the caller's, of the tenant that is
/// asked, and not expired. Times are seconds since the Unix epoch.
pub fn check_registration(c: &ChallengeToken, tn_id: TnId, id_tag: &str, now: u64) -> (r: Result<
    (),
    Error,
>)
    ensures
        r is Ok <==> c.tn_id == tn_id.0 && c.id_tag@ == id_tag@ && c.exp >= now,
        r matches Err(e) ==> (if c.tn_id != tn_id.0 || c.id_tag@ != id_tag@ {
            e is PermissionDenied
        } else {
            e is Unauthorized
        }),
{
    if c.tn_id != tn_id.0 || !text::same(c.id_tag.as_str(), id_tag) {
        return Err(Error::PermissionDenied);
    }
    if c.exp < now {
        return Err(Error::Unauthorized);
    }
    Ok(())
}

/// Admits a challenge for a sign-in: it has to be of the tenant that is asked, and not expired.
pub fn check_login(c: &ChallengeToken, host: &str, now: u64) -> (r: Result<(), Error>)
    ensures
        r is Ok <==> c.exp >= now && c.id_tag@ == host@,
        r matches Err(e) ==> e is Unauthorized,
{
    if c.exp < now || !text::same(c.id_tag.as_str(), host) {
        return Err(Error::Unauthorized);
    }
    Ok(())
}

// ---------------------------------------------------------------------------------------------
// Credentials
// ---------------------------------------------------------------------------------------------

/// A passkey as it is listed.
#[derive(Debug)]
pub struct CredentialInfo {
    pub credential_id: String,
    pub description: String,
}

/// How a passkey on record is listed.
pub fn credential_info(credential_id: &str, description: Option<&str>) -> (r: CredentialInfo)
    ensures
        r.credential_id@ == credential_id@,
        r.description@ == (match description {
            Some(d) => d@,
            None => "Passkey"@,
        }),
{
    let d: String = match description {
        Some(x) => text::owned(x),
        None => text::owned("Passkey"),
    };
    CredentialInfo { credential_id: text::owned(credential_id), description: d }
}

pub open spec fn browser_of(ua: Seq<char>) -> Seq<char> {
    if text::has_part(ua, "Firefox"@) {
        "Firefox"@
    } else if text::has_part(ua, "Edg/"@) {
        "Edge"@
    } else if text::has_part(ua, "Chrome"@) {
        "Chrome"@
    } else if text::has_part(ua, "Safari"@) {
        "Safari"@
    } else {
        "Browser"@
    }
}

pub open spec fn system_of(ua: Seq<char>) -> Seq<char> {
    if text::has_part(ua, "Windows"@) {
        "Windows"@
    } else if text::has_part(ua, "Mac OS"@) || text::has_part(ua, "Macintosh"@) {
        "macOS"@
    } else if text::has_part(ua, "Linux"@) {
        "Linux"@
    } else if text::has_part(ua, "Android"@) {
        "Android"@
    } else if text::has_part(ua, "iPhone"@) || text::has_part(ua, "iPad"@) {
        "iOS"@
    } else {
        "Unknown"@
    }
}

/// A readable name for the device behind a user agent.
pub fn parse_user_agent(ua: &str) -> (r: String)
    ensures
        r@ == browser_of(ua@) + " on "@ + system_of(ua@),
{
    let browser: &str = if text::contains(ua, "Firefox") {
        "Firefox"
    } else if text::contains(ua, "Edg/") {
        "Edge"
    } else if text::contains(ua, "Chrome") {
        "Chrome"
    } else if text::contains(ua, "Safari") {
        "Safari"
    } else {
        "Browser"
    };
    let os: &str = if text::contains(ua, "Windows") {
        "Windows"
    } else if text::contains(ua, "Mac OS") || text::contains(ua, "Macintosh") {
        "macOS"
    } else if text::contains(ua, "Linux") {
        "Linux"
    } else if text::contains(ua, "Android") {
        "Android"
    } else if text::contains(ua, "iPhone") || text::contains(ua, "iPad") {
        "iOS"
    } else {
        "Unknown"
    };
    let mut s = text::owned(browser);
    s.append(" on ");
    s.append(os);
    s
}

/// The description of a new passkey.
pub open spec fn description_of(
    given: Option<Seq<char>>,
    ua: Option<Seq<char>>,
    now: Timestamp,
) -> Seq<char> {
    match given {
        Some(d) => d,
        None => {
            let device = match ua {
                Some(x) => x,
                None => "Unknown device"@,
            };
            browser_of(device) + " on "@ + system_of(device) + " - "@ + time::emitted(
                now.0,
                TimeStyle::Minute,
            )
        },
    }
}

/// The description of a new passkey: the given one, else the device and the time. An unknown
/// device goes by that name.
pub fn describe_passkey(given: Option<&str>, ua: Option<&str>, now: Timestamp) -> (r: String)
    ensures
        r@ == description_of(given.deep_view(), ua.deep_view(), now),
{
    match given {
        Some(d) => text::owned(d),
        None => {
            let device: &str = match ua {
                Some(x) => x,
                None => "Unknown device",
            };
            let mut s = parse_user_agent(device);
            s.append(" - ");
            let at = time::minute_text(now);
            s.append(at.as_str());
            s
        },
    }
}

// ---------------------------------------------------------------------------------------------
// Ceremonies
// ---------------------------------------------------------------------------------------------

/// Why the passkey library did not do its part.
#[derive(Debug, Clone, Copy, PartialEq, Eq, Structural)]
pub enum PasskeyFailure {
    /// The answer is no credential.
    Answer,
    /// The state in a challenge cannot be read.
    State,
    /// The tenant's address is no origin.
    Origin,
    /// The tenant cannot be a relying party.
    Party,
    /// The ceremony itself failed.
    Refused,
    /// The state of a ceremony, or a passkey, cannot be written down.
    Unwritable,
    /// The options for the client cannot be written down.
    Options,
}

/// `webauthn_rs::Webauthn::start_passkey_registration` for a relying party: options for the
/// client and the state of the ceremony. Both hold a random challenge, so nothing is said of
/// them.
#[verifier::external_body]
fn start_registration(rp: &str, origin: &str, user: u32, known: Vec<Vec<u8>>) -> (r: Result<
    (Json, String),
    PasskeyFailure,
>) {
    let url = Url::parse(origin).map_err(|_| PasskeyFailure::Origin)?;
    let party = WebauthnBuilder::new(rp, &url).and_then(|b| b.rp_name(rp).build()).map_err(
        |_| PasskeyFailure::Party,
    )?;
    let user = Uuid::from_u128(u128::from(user));
    let (options, state) = party.start_passkey_registration(user, rp, rp, Some(known)).map_err(
        |_| PasskeyFailure::Refused,
    )?;
    let state = serde_json::to_string(&state).map_err(|_| PasskeyFailure::Unwritable)?;
    let options = serde_json::to_value(&options).map_err(|_| PasskeyFailure::Options)?;
    Ok((json::from_value(options), state))
}

/// The passkey that an answer registers: its id and its written form.
pub uninterp spec fn registered_key(
    rp: Seq<char>,
    origin: Seq<char>,
    answer: Seq<char>,
    state: Seq<char>,
) -> Option<(Seq<u8>, Seq<char>)>;

/// `webauthn_rs::Webauthn::finish_passkey_registration` for a relying party: where a passkey
/// comes back, it is a function of the relying party, the answer and the state. The library
/// holds certificates in the answer against the time, so that one comes back is not promised.
#[verifier::external_body]
fn finish_registration(rp: &str, origin: &str, answer: &str, state: &str) -> (r: Result<
    (Vec<u8>, String),
    PasskeyFailure,
>)
    ensures
        r matches Ok(k) ==> registered_key(rp@, origin@, answer@, state@) == Some((k.0@, k.1@)),
{
    let answer = serde_json::from_str(answer).map_err(|_| PasskeyFailure::Answer)?;
    let state = serde_json::from_str(state).map_err(|_| PasskeyFailure::State)?;
    let url = Url::parse(origin).map_err(|_| PasskeyFailure::Origin)?;
    let party = WebauthnBuilder::new(rp, &url).and_then(|b| b.rp_name(rp).build()).map_err(
        |_| PasskeyFailure::Party,
    )?;
    let key = party.finish_passkey_registration(&answer, &state).map_err(
        |_| PasskeyFailure::Refused,
    )?;
    let written = serde_json::to_string(&key).map_err(|_| PasskeyFailure::Unwritable)?;
    Ok((key.cred_id().to_vec(), written))
}

/// Whether a text is the written form of a passkey.
pub uninterp spec fn is_passkey(s: Seq<char>) -> bool;

/// `serde_json::from_str` for a `webauthn_rs::prelude::Passkey`: whether it can be read is a
/// function of the text.
#[verifier::external_body]
fn passkey_readable(s: &str) -> (r: bool)
    ensures
        r == is_passkey(s@),
{
    serde_json::from_str::<Passkey>(s).is_ok()
}

/// `webauthn_rs::Webauthn::start_passkey_authentication` for a relying party and its passkeys:
/// options for the client and the state of the ceremony. Both hold a random challenge, so
/// nothing is said of them.
#[verifier::external_body]
fn start_authentication(rp: &str, origin: &str, keys: &Vec<String>) -> (r: Result<
    (Json, String),
    PasskeyFailure,
>) {
    let url = Url::parse(origin).map_err(|_| PasskeyFailure::Origin)?;
    let party = WebauthnBuilder::new(rp, &url).and_then(|b| b.rp_name(rp).build()).map_err(
        |_| PasskeyFailure::Party,
    )?;
    let keys: Result<Vec<Passkey>, _> = keys.iter().map(|k| serde_json::from_str(k)).collect();
    let keys = keys.map_err(|_| PasskeyFailure::State)?;
    let (options, state) = party.start_passkey_authentication(&keys).map_err(
        |_| PasskeyFailure::Refused,
    )?;
    let state = serde_json::to_string(&state).map_err(|_| PasskeyFailure::Unwritable)?;
    let options = serde_json::to_value(&options).map_err(|_| PasskeyFailure::Options)?;
    Ok((json::from_value(options), state))
}

/// What an answer to a sign-in comes to: the id of the passkey and its counter.
pub uninterp spec fn authentication_of(
    rp: Seq<char>,
    origin: Seq<char>,
    answer: Seq<char>,
    state: Seq<char>,
) -> Result<(Seq<u8>, u32), PasskeyFailure>;

/// `webauthn_rs::Webauthn::finish_passkey_authentication` for a relying party: the outcome is a
/// function of the relying party, the answer and the state.
#[verifier::external_body]
fn finish_authentication(rp: &str, origin: &str, answer: &str, state: &str) -> (r: Result<
    (Vec<u8>, u32),
    PasskeyFailure,
>)
    ensures
        outcome_view(r) == authentication_of(rp@, origin@, answer@, state@),
{
    let answer = serde_json::from_str(answer).map_err(|_| PasskeyFailure::Answer)?;
    let state = serde_json::from_str(state).map_err(|_| PasskeyFailure::State)?;
    let url = Url::parse(origin).map_err(|_| PasskeyFailure::Origin)?;
    let party = WebauthnBuilder::new(rp, &url).and_then(|b| b.rp_name(rp).build()).map_err(
        |_| PasskeyFailure::Party,
    )?;
    let done = party.finish_passkey_authentication(&answer, &state).map_err(
        |_| PasskeyFailure::Refused,
    )?;
    Ok((done.cred_id().to_vec(), done.counter()))
}

pub open spec fn outcome_view(r: Result<(Vec<u8>, u32), PasskeyFailure>) -> Result<
    (Seq<u8>, u32),
    PasskeyFailure,
> {
    match r {
        Ok((id, n)) => Ok((id@, n)),
        Err(f) => Err(f),
    }
}

/// The origin of a tenant.
pub open spec fn origin_of(id_tag: Seq<char>) -> Seq<char> {
    "https://"@ + id_tag
}

fn write_origin(id_tag: &str) -> (r: String)
    ensures
        r@ == origin_of(id_tag@),
{
    let mut s = text::owned("https://");
    s.append(id_tag);
    s
}

/// Signs a challenge. What is read from the token later is the challenge again.
pub fn sign_challenge(c: &ChallengeToken, secret: &str) -> (r: Result<String, Error>)
    ensures
        match r {
            Ok(t) => secrets::signed_claims(challenge_json(c@), secret@) == Some(t@) && (claims_of(
                t@,
                secret@,
            ) matches Some(v) && challenge_in(v) == Some(c@)),
            Err(e) => secrets::signed_claims(challenge_json(c@), secret@) is None && e.deep_view()
                == ErrorView::Internal("JWT encode error"@),
        },
{
    let claims = c.to_json();
    let r = secrets::create_challenge_jwt(&claims, secret);
    proof {
        reveal_strlit("tn_id");
        reveal_strlit("id_tag");
        reveal_strlit("state");
        reveal_strlit("exp");
        reveal_strlit("jti");
        assert(json::flat(claims@));
        law_challenge_round_trip(c@);
        if r is Ok {
            let v = claims_of(r->Ok_0@, secret@)->Some_0;
            assert(json::same_members(v, claims@));
            assert(v.member("tn_id"@) == claims@.member("tn_id"@));
            assert(v.member("id_tag"@) == claims@.member("id_tag"@));
            assert(v.member("state"@) == claims@.member("state"@));
            assert(v.member("exp"@) == claims@.member("exp"@));
            assert(v.member("jti"@) == claims@.member("jti"@));
        }
    }
    r
}

/// Reads a challenge from a token; one that was not signed here, has expired or holds something
/// else is refused.
pub fn read_challenge(token: &str, secret: &str) -> (r: Result<ChallengeToken, Error>)
    ensures
        match r {
            Ok(c) => claims_of(token@, secret@) matches Some(v) && challenge_in(v) == Some(c@),
            Err(e) => e is Unauthorized,
        },
{
    match secrets::decode_challenge_jwt(token, secret) {
        Ok(v) => ChallengeToken::from_json(&v),
        Err(e) => Err(e),
    }
}

/// What a client needs for a ceremony.
#[derive(Debug)]
pub struct ChallengeRes {
    pub options: Json,
    pub token: String,
}

/// The options that a client expects: those under `publicKey`, where the library wraps them.
pub open spec fn client_options(v: JsonView) -> JsonView {
    match v.member("publicKey"@) {
        Some(o) => o,
        None => v,
    }
}

fn unwrap_options(v: Json) -> (r: Json)
    ensures
        r@ == client_options(v@),
{
    match v.get("publicKey") {
        Some(o) => o.duplicate(),
        None => v,
    }
}

/// The ids of passkeys that are known already; an id that cannot be read is left out.
pub open spec fn known_ids(ids: Seq<Seq<char>>) -> Seq<Seq<u8>>
    decreases ids.len(),
{
    if ids.len() == 0 {
        Seq::empty()
    } else {
        let before = known_ids(ids.drop_last());
        match secrets::base64_bytes(ids.last()) {
            Some(b) => before.push(b),
            None => before,
        }
    }
}

pub open spec fn byte_views(v: Seq<Vec<u8>>) -> Seq<Seq<u8>> {
    v.map_values(|b: Vec<u8>| b@)
}

/// Reads the ids of passkeys that are known already.
pub fn excluded_credentials(ids: &Vec<String>) -> (r: Vec<Vec<u8>>)
    ensures
        byte_views(r@) == known_ids(ids.deep_view()),
{
    let ghost all = ids.deep_view();
    let mut out: Vec<Vec<u8>> = Vec::new();
    let mut i: usize = 0;
    assert(byte_views(out@) =~= known_ids(all.take(0)));
    while i < ids.len()
        invariant
            all == ids.deep_view(),
            i <= ids@.len(),
            byte_views(out@) == known_ids(all.take(i as int)),
        decreases ids@.len() - i,
    {
        proof {
            assert(all.take(i + 1).drop_last() =~= all.take(i as int));
            assert(all.take(i + 1).last() == ids@[i as int]@);
        }
        let ghost before = byte_views(out@);
        if let Some(b) = secrets::base64_url_decode(ids[i].as_str()) {
            out.push(b);
            assert(byte_views(out@) =~= before.push(b@));
        }
        i = i + 1;
    }
    assert(all.take(i as int) =~= all);
    out
}

/// The error for a registration that could not start.
pub open spec fn start_error(f: PasskeyFailure) -> ErrorView {
    match f {
        PasskeyFailure::Origin => ErrorView::Internal("invalid origin URL"@),
        PasskeyFailure::Party => ErrorView::Internal("WebAuthn builder error"@),
        PasskeyFailure::Unwritable => ErrorView::Internal(
            "Failed to serialize registration state"@,
        ),
        PasskeyFailure::Options => ErrorView::Internal("Failed to serialize challenge"@),
        _ => ErrorView::Internal("WebAuthn registration error"@),
    }
}

/// The challenge of a registration that has started: it is of the tenant, lasts two minutes and
/// is never recorded as spent.
pub open spec fn registration_challenge(
    tn_id: TnId,
    id_tag: Seq<char>,
    state: Seq<char>,
    now: u64,
) -> ChallengeView {
    ChallengeView {
        tn_id: tn_id.0,
        id_tag,
        state,
        exp: challenge_end(now),
        jti: None,
    }
}

/// The end of a challenge that is handed out at a given second.
pub open spec fn challenge_end(now: u64) -> u64 {
    if now + CHALLENGE_EXPIRY_SECS > u64::MAX {
        u64::MAX
    } else {
        (now + CHALLENGE_EXPIRY_SECS) as u64
    }
}

fn expiry(now: u64) -> (r: u64)
    ensures
        r == challenge_end(now),
{
    match now.checked_add(CHALLENGE_EXPIRY_SECS) {
        Some(t) => t,
        None => u64::MAX,
    }
}

/// Hands out the challenge of a registration that has started.
pub fn reg_challenge(
    tn_id: TnId,
    id_tag: &str,
    started: Result<(Json, String), PasskeyFailure>,
    secret: &str,
    now: u64,
) -> (r: Result<ChallengeRes, Error>)
    ensures
        match started {
            Ok((options, state)) => {
                let signed = secrets::signed_claims(
                    challenge_json(registration_challenge(tn_id, id_tag@, state@, now)),
                    secret@,
                );
                match r {
                    Ok(res) => res.options@ == client_options(options@) && signed == Some(
                        res.token@,
                    ),
                    Err(e) => signed is None && e.deep_view() == ErrorView::Internal(
                        "JWT encode error"@,
                    ),
                }
            },
            Err(f) => r matches Err(e) && e.deep_view() == start_error(f),
        },
{
    match started {
        Ok((options, state)) => {
            let claims = ChallengeToken {
                tn_id: tn_id.0,
                id_tag: text::owned(id_tag),
                state,
                exp: expiry(now),
                jti: None,
            };
            match sign_challenge(&claims, secret) {
                Ok(token) => Ok(ChallengeRes { options: unwrap_options(options), token }),
                Err(e) => Err(e),
            }
        },
        Err(PasskeyFailure::Origin) => Err(Error::internal("invalid origin URL")),
        Err(PasskeyFailure::Party) => Err(Error::internal("WebAuthn builder error")),
        Err(PasskeyFailure::Unwritable) => Err(
            Error::internal("Failed to serialize registration state"),
        ),
        Err(PasskeyFailure::Options) => Err(Error::internal("Failed to serialize challenge")),
        Err(_) => Err(Error::internal("WebAuthn registration error")),
    }
}

/// Whether a token is a signed challenge of a tenant, handed out at a given second, with some
/// state.
pub open spec fn is_registration_token(
    token: Seq<char>,
    secret: Seq<char>,
    tn_id: TnId,
    id_tag: Seq<char>,
    now: u64,
) -> bool {
    exists|state: Seq<char>| #[trigger]
        secrets::signed_claims(
            challenge_json(registration_challenge(tn_id, id_tag, state, now)),
            secret,
        ) == Some(token)
}

/// Starts the registration of a passkey of the caller's tenant. The relying party is the tenant;
/// passkeys that are known are excluded.
pub fn get_reg_challenge(
    tn_id: TnId,
    id_tag: &str,
    known: &Vec<String>,
    secret: &str,
    now: u64,
) -> (r: Result<ChallengeRes, Error>)
    ensures
        match r {
            Ok(res) => is_registration_token(res.token@, secret@, tn_id, id_tag@, now),
            Err(e) => e is Internal,
        },
{
    let origin = write_origin(id_tag);
    let ids = excluded_credentials(known);
    let started = start_registration(id_tag, origin.as_str(), tn_id.0, ids);
    reg_challenge(tn_id, id_tag, started, secret, now)
}

/// A passkey to store.
#[derive(Debug)]
pub struct NewCredential {
    pub credential_id: String,
    /// The written form of the passkey.
    pub public_key: String,
    pub description: String,
    pub counter: u32,
}

/// The error for an answer to a registration that was not accepted.
pub open spec fn registration_error(f: PasskeyFailure) -> ErrorView {
    match f {
        PasskeyFailure::Answer => ErrorView::Parse,
        PasskeyFailure::State => ErrorView::Internal("Invalid registration state"@),
        PasskeyFailure::Origin => ErrorView::Internal("invalid origin URL"@),
        PasskeyFailure::Party => ErrorView::Internal("WebAuthn builder error"@),
        PasskeyFailure::Refused => ErrorView::PermissionDenied,
        _ => ErrorView::Internal("Failed to serialize passkey"@),
    }
}

/// The passkey to store after a registration.
pub fn new_credential(
    finished: Result<(Vec<u8>, String), PasskeyFailure>,
    given: Option<&str>,
    ua: Option<&str>,
    now: Timestamp,
) -> (r: Result<NewCredential, Error>)
    ensures
        match finished {
            Ok((id, key)) => r matches Ok(c) && c.credential_id@ == secrets::base64_url_of(id@)
                && c.public_key@ == key@ && c.counter == 0 && c.description@ == description_of(
                given.deep_view(),
                ua.deep_view(),
                now,
            ),
            Err(f) => r matches Err(e) && e.deep_view() == registration_error(f),
        },
{
    match finished {
        Ok((id, key)) => Ok(
            NewCredential {
                credential_id: secrets::base64_url(id.as_slice()),
                public_key: key,
                description: describe_passkey(given, ua, now),
                counter: 0,
            },
        ),
        Err(PasskeyFailure::Answer) => Err(Error::Parse),
        Err(PasskeyFailure::State) => Err(Error::internal("Invalid registration state")),
        Err(PasskeyFailure::Origin) => Err(Error::internal("invalid origin URL")),
        Err(PasskeyFailure::Party) => Err(Error::internal("WebAuthn builder error")),
        Err(PasskeyFailure::Refused) => Err(Error::PermissionDenied),
        Err(_) => Err(Error::internal("Failed to serialize passkey")),
    }
}

/// Whether a stored passkey is what a registration leaves: the answer was one to the state of
/// the challenge.
pub open spec fn registers(
    id_tag: Seq<char>,
    answer: Seq<char>,
    state: Seq<char>,
    c: NewCredential,
) -> bool {
    registered_key(id_tag, origin_of(id_tag), answer, state) matches Some(k) && c.credential_id@
        == secrets::base64_url_of(k.0) && c.public_key@ == k.1
}

/// Finishes the registration of a passkey against its challenge: the challenge must be the
/// caller's, of the tenant that is asked and not expired, and the answer must fit it.
pub fn finish_challenge(
    c: &ChallengeToken,
    tn_id: TnId,
    id_tag: &str,
    answer: &str,
    given: Option<&str>,
    ua: Option<&str>,
    now: u64,
) -> (r: Result<NewCredential, Error>)
    ensures
        c.tn_id != tn_id.0 || c.id_tag@ != id_tag@ ==> (r matches Err(e)
            && e is PermissionDenied),
        c.tn_id == tn_id.0 && c.id_tag@ == id_tag@ && c.exp < now ==> (r matches Err(e)
            && e is Unauthorized),
        r matches Ok(k) ==> registers(id_tag@, answer@, c.state@, k) && k.counter == 0
            && k.description@ == description_of(
            given.deep_view(),
            ua.deep_view(),
            clock_of(now),
        ),
{
    match check_registration(c, tn_id, id_tag, now) {
        Ok(()) => {},
        Err(e) => {
            return Err(e);
        },
    }
    let origin = write_origin(id_tag);
    let finished = finish_registration(id_tag, origin.as_str(), answer, c.state.as_str());
    new_credential(finished, given, ua, to_clock(now))
}

/// A number of seconds since the Unix epoch as a time.
pub open spec fn clock_of(now: u64) -> Timestamp {
    if now > i64::MAX {
        Timestamp(i64::MAX)
    } else {
        Timestamp(now as i64)
    }
}

fn to_clock(now: u64) -> (r: Timestamp)
    ensures
        r == clock_of(now),
{
    if now > i64::MAX as u64 {
        Timestamp(i64::MAX)
    } else {
        Timestamp(now as i64)
    }
}

/// Whether a token holds no challenge that was signed with a secret.
pub open spec fn no_challenge(token: Seq<char>, secret: Seq<char>) -> bool {
    claims_of(token, secret) matches Some(v) ==> challenge_in(v) is None
}

/// Finishes the registration of a passkey.
pub fn post_reg(
    token: &str,
    secret: &str,
    tn_id: TnId,
    id_tag: &str,
    answer: &str,
    given: Option<&str>,
    ua: Option<&str>,
    now: u64,
) -> (r: Result<NewCredential, Error>)
    ensures
        r matches Ok(k) ==> (claims_of(token@, secret@) matches Some(v) && challenge_in(
            v,
        ) matches Some(c) && c.tn_id == tn_id.0 && c.id_tag == id_tag@ && c.exp >= now && registers(
            id_tag@,
            answer@,
            c.state,
            k,
        )),
        r matches Ok(k) ==> k.counter == 0 && k.description@ == description_of(
            given.deep_view(),
            ua.deep_view(),
            clock_of(now),
        ),
        no_challenge(token@, secret@) ==> (r matches Err(e) && e is Unauthorized),
{
    match read_challenge(token, secret) {
        Ok(c) => finish_challenge(&c, tn_id, id_tag, answer, given, ua, now),
        Err(e) => Err(e),
    }
}

/// The written forms of passkeys that can be read.
pub open spec fn usable(keys: Seq<Seq<char>>) -> Seq<Seq<char>> {
    keys.filter(|k: Seq<char>| is_passkey(k))
}

/// The stored passkeys of a tenant that can still be read.
pub fn valid_passkeys(keys: &Vec<String>) -> (r: Vec<String>)
    ensures
        r.deep_view() == usable(keys.deep_view()),
{
    let ghost all = keys.deep_view();
    let ghost keep = |k: Seq<char>| is_passkey(k);
    let mut out: Vec<String> = Vec::new();
    let mut i: usize = 0;
    proof {
        reveal_with_fuel(Seq::filter, 1);
        assert(out.deep_view() =~= all.take(0).filter(keep));
    }
    while i < keys.len()
        invariant
            all == keys.deep_view(),
            keep == |k: Seq<char>| is_passkey(k),
            i <= keys@.len(),
            out.deep_view() == all.take(i as int).filter(keep),
        decreases keys@.len() - i,
    {
        let ghost before = out.deep_view();
        proof {
            assert(all.take(i + 1).drop_last() =~= all.take(i as int));
            assert(all.take(i + 1).last() == keys@[i as int]@);
            reveal_with_fuel(Seq::filter, 2);
        }
        if passkey_readable(keys[i].as_str()) {
            let k = text::owned(keys[i].as_str());
            out.push(k);
            assert(out.deep_view() =~= before.push(k@));
        }
        i = i + 1;
    }
    assert(all.take(i as int) =~= all);
    out
}

/// Whether a tenant has a passkey that can be used.
pub fn has_passkeys(keys: &Vec<String>) -> (r: bool)
    ensures
        r == (usable(keys.deep_view()).len() > 0),
{
    let v = valid_passkeys(keys);
    assert(v.deep_view().len() == v@.len());
    v.len() > 0
}

/// The challenge of a sign-in that has started: it is of the tenant, lasts two minutes and is
/// good for one answer.
pub open spec fn login_challenge(
    tn_id: TnId,
    id_tag: Seq<char>,
    state: Seq<char>,
    jti: Seq<char>,
    now: u64,
) -> ChallengeView {
    ChallengeView { tn_id: tn_id.0, id_tag, state, exp: challenge_end(now), jti: Some(jti) }
}

/// Hands out the challenge of a sign-in that has started; where it could not start there is
/// none.
pub fn try_login_challenge(
    tn_id: TnId,
    id_tag: &str,
    started: Result<(Json, String), PasskeyFailure>,
    jti: &str,
    secret: &str,
    now: u64,
) -> (r: Option<ChallengeRes>)
    ensures
        match started {
            Ok((options, state)) => {
                let signed = secrets::signed_claims(
                    challenge_json(login_challenge(tn_id, id_tag@, state@, jti@, now)),
                    secret@,
                );
                match r {
                    Some(res) => res.options@ == client_options(options@) && signed == Some(
                        res.token@,
                    ),
                    None => signed is None,
                }
            },
            Err(_) => r is None,
        },
{
    match started {
        Ok((options, state)) => {
            let claims = ChallengeToken {
                tn_id: tn_id.0,
                id_tag: text::owned(id_tag),
                state,
                exp: expiry(now),
                jti: Some(text::owned(jti)),
            };
            match sign_challenge(&claims, secret) {
                Ok(token) => Some(ChallengeRes { options: unwrap_options(options), token }),
                Err(_) => None,
            }
        },
        Err(_) => None,
    }
}

/// Whether a token is a signed challenge for a sign-in at a tenant, handed out at a given
/// second, with some state and a drawn id.
pub open spec fn is_login_token(
    token: Seq<char>,
    secret: Seq<char>,
    tn_id: TnId,
    id_tag: Seq<char>,
    now: u64,
) -> bool {
    exists|state: Seq<char>, jti: Seq<char>|
        secrets::is_drawn(jti, 16) && #[trigger] secrets::signed_claims(
            challenge_json(login_challenge(tn_id, id_tag, state, jti, now)),
            secret,
        ) == Some(token)
}

/// Starts a sign-in with one of a tenant's passkeys; refused where the tenant has none that can
/// be used.
pub fn get_login_challenge(
    tn_id: TnId,
    id_tag: &str,
    keys: &Vec<String>,
    secret: &str,
    now: u64,
) -> (r: Result<ChallengeRes, Error>)
    ensures
        usable(keys.deep_view()).len() == 0 ==> r is Err,
        match r {
            Ok(res) => is_login_token(res.token@, secret@, tn_id, id_tag@, now),
            Err(e) => e is NotFound,
        },
{
    let valid = valid_passkeys(keys);
    assert(valid.deep_view().len() == valid@.len());
    if valid.len() == 0 {
        return Err(Error::NotFound);
    }
    let origin = write_origin(id_tag);
    let started = start_authentication(id_tag, origin.as_str(), &valid);
    let jti = new_jti();
    match try_login_challenge(tn_id, id_tag, started, jti.as_str(), secret, now) {
        Some(res) => Ok(res),
        None => Err(Error::NotFound),
    }
}

/// An answer to a sign-in that was accepted.
#[derive(Debug)]
pub struct Assertion {
    pub tn_id: u32,
    pub id_tag: String,
    pub credential_id: String,
    pub counter: u32,
}

/// A sign-in that was refused, and whether the client is penalized for it: it is for what the
/// client sent, and not for a fault of the server.
#[derive(Debug)]
pub struct LoginRefusal {
    pub error: Error,
    pub penalize: bool,
}

/// How a refused answer to a sign-in is answered.
pub open spec fn login_error(f: PasskeyFailure) -> (ErrorView, bool) {
    match f {
        PasskeyFailure::Answer => (ErrorView::Parse, false),
        PasskeyFailure::State => (ErrorView::Internal("Invalid authentication state"@), false),
        PasskeyFailure::Origin => (ErrorView::Internal("invalid origin URL"@), false),
        PasskeyFailure::Party => (ErrorView::Internal("WebAuthn builder error"@), false),
        _ => (ErrorView::PermissionDenied, true),
    }
}

fn refuse_login(f: PasskeyFailure) -> (r: LoginRefusal)
    ensures
        (r.error.deep_view(), r.penalize) == login_error(f),
{
    match f {
        PasskeyFailure::Answer => LoginRefusal { error: Error::Parse, penalize: false },
        PasskeyFailure::State => LoginRefusal {
            error: Error::internal("Invalid authentication state"),
            penalize: false,
        },
        PasskeyFailure::Origin => LoginRefusal {
            error: Error::internal("invalid origin URL"),
            penalize: false,
        },
        PasskeyFailure::Party => LoginRefusal {
            error: Error::internal("WebAuthn builder error"),
            penalize: false,
        },
        _ => LoginRefusal { error: Error::PermissionDenied, penalize: true },
    }
}

/// What comes of an answer to a challenge for a sign-in, given what the passkey library made of
/// it: the challenge must be one for a sign-in, must not have expired, must be of the tenant that
/// is asked, and is spent by the first answer that is accepted. An answer that is not accepted
/// spends nothing.
pub open spec fn login_outcome(
    c: ChallengeView,
    host: Seq<char>,
    finished: Result<(Seq<u8>, u32), PasskeyFailure>,
    spent: Map<Seq<char>, u64>,
    now: u64,
    tick: u64,
) -> Result<(), (ErrorView, bool)> {
    if c.jti is None || c.exp < now || c.id_tag != host {
        Err((ErrorView::Unauthorized, true))
    } else {
        match finished {
            Err(f) => Err(login_error(f)),
            Ok(_) => if is_spent(spent, c.jti->Some_0, tick) {
                Err((ErrorView::Unauthorized, true))
            } else {
                Ok(())
            },
        }
    }
}

/// Finishes a sign-in against its challenge. `now` is in seconds since the Unix epoch, `tick` in
/// milliseconds of the clock of the record of spent challenges.
pub fn finish_login(
    spent: &mut SpentChallenges,
    c: &ChallengeToken,
    host: &str,
    answer: &str,
    now: u64,
    tick: u64,
) -> (r: Result<Assertion, LoginRefusal>)
    ensures
        match login_outcome(
            c@,
            host@,
            authentication_of(c.id_tag@, origin_of(c.id_tag@), answer@, c.state@),
            old(spent)@,
            now,
            tick,
        ) {
            Ok(()) => {
                let done = authentication_of(
                    c.id_tag@,
                    origin_of(c.id_tag@),
                    answer@,
                    c.state@,
                )->Ok_0;
                &&& r matches Ok(a) && a.tn_id == c.tn_id && a.id_tag@ == c.id_tag@
                    && a.credential_id@ == secrets::base64_url_of(done.0) && a.counter == done.1
                &&& final(spent)@ == spent_with(old(spent)@, c@.jti->Some_0, tick)
            },
            Err(x) => {
                &&& r matches Err(e) && (e.error.deep_view(), e.penalize) == x
                &&& final(spent)@ == old(spent)@ || final(spent)@ == swept(old(spent)@, tick)
            },
        },
{
    let jti = match &c.jti {
        Some(j) => j,
        None => {
            return Err(LoginRefusal { error: Error::Unauthorized, penalize: true });
        },
    };
    if check_login(c, host, now).is_err() {
        return Err(LoginRefusal { error: Error::Unauthorized, penalize: true });
    }
    let origin = write_origin(c.id_tag.as_str());
    let (id, counter) = match finish_authentication(
        c.id_tag.as_str(),
        origin.as_str(),
        answer,
        c.state.as_str(),
    ) {
        Ok(done) => done,
        Err(f) => {
            return Err(refuse_login(f));
        },
    };
    match spent.consume_challenge(jti.as_str(), tick) {
        Ok(()) => Ok(
            Assertion {
                tn_id: c.tn_id,
                id_tag: text::owned(c.id_tag.as_str()),
                credential_id: secrets::base64_url(id.as_slice()),
                counter,
            },
        ),
        Err(e) => Err(LoginRefusal { error: e, penalize: true }),
    }
}

/// Finishes a sign-in with a passkey.
pub fn post_login(
    spent: &mut SpentChallenges,
    token: &str,
    secret: &str,
    host: &str,
    answer: &str,
    now: u64,
    tick: u64,
) -> (r: Result<Assertion, LoginRefusal>)
    ensures
        r matches Ok(a) ==> (claims_of(token@, secret@) matches Some(v) && challenge_in(
            v,
        ) matches Some(c) && a.tn_id == c.tn_id && a.id_tag@ == host@ && login_outcome(
            c,
            host@,
            authentication_of(host@, origin_of(host@), answer@, c.state),
            old(spent)@,
            now,
            tick,
        ) is Ok && (authentication_of(host@, origin_of(host@), answer@, c.state) matches Ok(d)
            && a.credential_id@ == secrets::base64_url_of(d.0) && a.counter == d.1)
            && final(spent)@ == spent_with(old(spent)@, c.jti->Some_0, tick)),
        no_challenge(token@, secret@) ==> (r matches Err(e) && e.error is Unauthorized
            && e.penalize),
        r is Err ==> final(spent)@ == old(spent)@ || final(spent)@ == swept(old(spent)@, tick),
{
    match read_challenge(token, secret) {
        Ok(c) => finish_login(spent, &c, host, answer, now, tick),
        Err(e) => Err(LoginRefusal { error: e, penalize: true }),
    }
}

/// An accepted answer to a sign-in is never accepted again while its challenge is remembered,
/// whatever the passkey library says of it.
pub proof fn law_sign_in_is_accepted_once(
    c: ChallengeView,
    host: Seq<char>,
    first: Result<(Seq<u8>, u32), PasskeyFailure>,
    again: Result<(Seq<u8>, u32), PasskeyFailure>,
    spent: Map<Seq<char>, u64>,
    now: u64,
    tick: u64,
    later: u64,
    later_tick: u64,
)
    requires
        login_outcome(c, host, first, spent, now, tick) is Ok,
        tick <= later_tick < record_end(tick),
    ensures
        login_outcome(
            c,
            host,
            again,
            spent_with(spent, c.jti->Some_0, tick),
            later,
            later_tick,
        ) is Err,
{
}

/// An accepted answer to a sign-in is never accepted again, however late: once its challenge is
/// no longer remembered it has expired. This is so where the two clocks advance alike, up to
/// parts of a second. It leaves out the last second of a challenge that was answered in the same
/// second in which it was handed out: its record may end within that second.
pub proof fn law_sign_in_is_not_repeated(
    c: ChallengeView,
    handed_out: u64,
    host: Seq<char>,
    first: Result<(Seq<u8>, u32), PasskeyFailure>,
    again: Result<(Seq<u8>, u32), PasskeyFailure>,
    spent: Map<Seq<char>, u64>,
    now: u64,
    tick: u64,
    later: u64,
    later_tick: u64,
)
    requires
        login_outcome(c, host, first, spent, now, tick) is Ok,
        c.exp == challenge_end(handed_out),
        handed_out <= now <= later,
        handed_out < now || later != c.exp || later_tick < record_end(tick),
        tick <= later_tick < u64::MAX,
        later_tick - tick < (later - now + 1) * 1000,
    ensures
        login_outcome(
            c,
            host,
            again,
            spent_with(spent, c.jti->Some_0, tick),
            later,
            later_tick,
        ) is Err,
{
    if later_tick < record_end(tick) {
        law_sign_in_is_accepted_once(c, host, first, again, spent, now, tick, later, later_tick);
    } else {
        assert(later - now >= CHALLENGE_EXPIRY_SECS);
    }
}

/// A challenge of one tenant opens no sign-in at another.
pub proof fn law_challenge_is_bound_to_its_tenant(
    c: ChallengeView,
    host: Seq<char>,
    finished: Result<(Seq<u8>, u32), PasskeyFailure>,
    spent: Map<Seq<char>, u64>,
    now: u64,
    tick: u64,
)
    requires
        c.id_tag != host,
    ensures
        login_outcome(c, host, finished, spent, now, tick) == Err::<(), (ErrorView, bool)>(
            (ErrorView::Unauthorized, true),
        ),
{
}

} // verus!
