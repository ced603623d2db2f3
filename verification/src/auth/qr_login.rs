//! Signing in with the help of a device that is signed in already.
//!
//! A client that wants to sign in opens a session and shows its public id; a signed-in device of
//! the same tenant approves or denies it; and the client, which alone knows the session's
//! secret, collects the outcome once.
use crate::auth::handler::{Login, LoginView};
use crate::auth::secrets;
use crate::text;
use crate::types::{Error, ErrorView, TnId};
use vstd::prelude::*;

verus! {

/// How long a session lasts, in milliseconds.
pub const SESSION_EXPIRY_MS: u64 = 300_000;

/// How many sessions there may be at once.
pub const MAX_SESSIONS: usize = 10_000;

/// The longest and the default wait for a change, in seconds.
pub const MAX_POLL_TIMEOUT_SECS: u64 = 30;

pub const DEFAULT_POLL_TIMEOUT_SECS: u64 = 15;

#[derive(Debug, Clone, Copy, PartialEq, Eq, Structural)]
pub enum QrLoginStatus {
    Pending,
    Approved,
    Denied,
}

/// A session. Times are milliseconds of a clock that never goes back.
#[derive(Debug)]
pub struct QrLoginSession {
    pub tn_id: TnId,
    pub status: QrLoginStatus,
    pub secret_hash: String,
    pub user_agent: Option<String>,
    pub ip_address: Option<String>,
    pub login_data: Option<Login>,
    pub expires_at: u64,
}

pub struct SessionView {
    pub tn_id: TnId,
    pub status: QrLoginStatus,
    pub secret_hash: Seq<char>,
    pub user_agent: Option<Seq<char>>,
    pub ip_address: Option<Seq<char>>,
    pub login_data: Option<LoginView>,
    pub expires_at: u64,
}

pub open spec fn opt_login(l: Option<Login>) -> Option<LoginView> {
    match l {
        Some(x) => Some(x@),
        None => None,
    }
}

impl View for QrLoginSession {
    type V = SessionView;

    open spec fn view(&self) -> SessionView {
        SessionView {
            tn_id: self.tn_id,
            status: self.status,
            secret_hash: self.secret_hash@,
            user_agent: self.user_agent.deep_view(),
            ip_address: self.ip_address.deep_view(),
            login_data: opt_login(self.login_data),
            expires_at: self.expires_at,
        }
    }
}

impl SessionView {
    pub open spec fn live(self, now: u64) -> bool {
        now < self.expires_at
    }
}

impl QrLoginSession {
    /// A session that holds the same.
    pub fn duplicate(&self) -> (r: QrLoginSession)
        ensures
            r@ == self@,
    {
        let login_data = match &self.login_data {
            Some(l) => Some(l.duplicate()),
            None => None,
        };
        QrLoginSession {
            tn_id: self.tn_id,
            status: self.status,
            secret_hash: self.secret_hash.clone(),
            user_agent: text::owned_opt(text::as_opt(&self.user_agent)),
            ip_address: text::owned_opt(text::as_opt(&self.ip_address)),
            login_data,
            expires_at: self.expires_at,
        }
    }
}

/// Whether a session has not expired.
pub fn is_live(s: &QrLoginSession, now: u64) -> (r: bool)
    ensures
        r == s@.live(now),
{
    now < s.expires_at
}

/// `dashmap::DashMap`: a map that can be shared.
#[verifier::external_type_specification]
#[verifier::external_body]
#[verifier::reject_recursive_types(K)]
#[verifier::reject_recursive_types(V)]
#[verifier::reject_recursive_types(S)]
pub struct ExDashMap<K, V, S>(dashmap::DashMap<K, V, S>);

/// The sessions in a map.
pub uninterp spec fn sessions_in(m: dashmap::DashMap<String, QrLoginSession>) -> Map<
    Seq<char>,
    SessionView,
>;

pub open spec fn no_sessions() -> Map<Seq<char>, SessionView> {
    Map::empty()
}

/// `dashmap::DashMap::new`: an empty map.
#[verifier::external_body]
fn map_new() -> (r: dashmap::DashMap<String, QrLoginSession>)
    ensures
        sessions_in(r) == no_sessions(),
{
    dashmap::DashMap::new()
}

/// Whether a row of that many distinct keys makes up the keys of a map.
pub open spec fn has_keys(m: Map<Seq<char>, SessionView>, n: nat) -> bool {
    exists|ks: Seq<Seq<char>>| #[trigger]
        ks.no_duplicates() && ks.to_set() == m.dom() && ks.len() == n
}

proof fn lemma_has_keys(m: Map<Seq<char>, SessionView>, n: nat)
    requires
        has_keys(m, n),
    ensures
        m.dom().finite(),
        m.dom().len() == n,
{
    let ks = choose|ks: Seq<Seq<char>>| #[trigger]
        ks.no_duplicates() && ks.to_set() == m.dom() && ks.len() == n;
    vstd::seq_lib::seq_to_set_is_finite(ks);
    ks.unique_seq_to_set();
}

/// `dashmap::DashMap::len`: the number of entries.
#[verifier::external_body]
fn map_count(m: &dashmap::DashMap<String, QrLoginSession>) -> (r: usize)
    ensures
        has_keys(sessions_in(*m), r as nat),
{
    m.len()
}

fn map_len(m: &dashmap::DashMap<String, QrLoginSession>) -> (r: usize)
    ensures
        r == sessions_in(*m).dom().len(),
        sessions_in(*m).dom().finite(),
{
    let n: usize = map_count(m);
    proof {
        lemma_has_keys(sessions_in(*m), n as nat);
    }
    n
}

/// `dashmap::DashMap::get`: a [`QrLoginSession::duplicate`] of the value of a key.
#[verifier::external_body]
fn map_get(m: &dashmap::DashMap<String, QrLoginSession>, key: &str) -> (r: Option<QrLoginSession>)
    ensures
        r is Some <==> sessions_in(*m).dom().contains(key@),
        r is Some ==> r->0@ == sessions_in(*m)[key@],
{
    m.get(key).map(|s| s.value().duplicate())
}

/// `dashmap::DashMap::insert`: sets the value of a key, in place of an earlier one.
#[verifier::external_body]
fn map_insert(m: &mut dashmap::DashMap<String, QrLoginSession>, key: String, s: QrLoginSession)
    ensures
        sessions_in(*final(m)) == sessions_in(*old(m)).insert(key@, s@),
{
    m.insert(key, s);
}

/// `dashmap::DashMap::remove`: takes a key and its value out.
#[verifier::external_body]
fn map_remove(m: &mut dashmap::DashMap<String, QrLoginSession>, key: &str)
    ensures
        sessions_in(*final(m)) == sessions_in(*old(m)).remove(key@),
{
    m.remove(key);
}

/// The sessions that have not expired.
pub open spec fn live_sessions(m: Map<Seq<char>, SessionView>, now: u64) -> Map<
    Seq<char>,
    SessionView,
> {
    m.restrict(m.dom().filter(|k: Seq<char>| m[k].live(now)))
}

/// `dashmap::DashMap::retain`: keeps the entries whose session [`is_live`].
#[verifier::external_body]
fn map_retain_live(m: &mut dashmap::DashMap<String, QrLoginSession>, now: u64)
    ensures
        sessions_in(*final(m)) == live_sessions(sessions_in(*old(m)), now),
{
    m.retain(|_, s| is_live(s, now));
}

/// The sessions. Where the store is shared, the program puts a lock round it.
pub struct QrLoginStore {
    sessions: dashmap::DashMap<String, QrLoginSession>,
}

impl View for QrLoginStore {
    type V = Map<Seq<char>, SessionView>;

    closed spec fn view(&self) -> Map<Seq<char>, SessionView> {
        sessions_in(self.sessions)
    }
}

impl Default for QrLoginStore {
    fn default() -> (r: Self)
        ensures
            r@ == Map::<Seq<char>, SessionView>::empty(),
    {
        QrLoginStore { sessions: map_new() }
    }
}

/// What the client that opens a session gets.
#[derive(Debug)]
pub struct InitResponse {
    pub session_id: String,
    pub secret: String,
}

/// Who opens a session.
#[derive(Debug)]
pub struct SessionOrigin {
    pub tn_id: TnId,
    pub user_agent: Option<String>,
    pub ip_address: Option<String>,
}

/// The end of a session that begins at a given time.
pub open spec fn expiry(now: u64) -> u64 {
    if now + SESSION_EXPIRY_MS > u64::MAX {
        u64::MAX
    } else {
        (now + SESSION_EXPIRY_MS) as u64
    }
}

/// A session as it is opened.
pub open spec fn opened(origin: SessionOrigin, secret: Seq<char>, now: u64) -> SessionView {
    SessionView {
        tn_id: origin.tn_id,
        status: QrLoginStatus::Pending,
        secret_hash: secrets::secret_digest(secret),
        user_agent: origin.user_agent.deep_view(),
        ip_address: origin.ip_address.deep_view(),
        login_data: None,
        expires_at: expiry(now),
    }
}

/// The sessions that are there when another one is opened: where there are too many, those that
/// have expired go first.
pub open spec fn room_made(m: Map<Seq<char>, SessionView>, now: u64) -> Map<Seq<char>, SessionView> {
    if m.dom().len() >= MAX_SESSIONS {
        live_sessions(m, now)
    } else {
        m
    }
}

/// What a client that collects the outcome learns.
#[derive(Debug)]
pub enum Resolution {
    /// There is no such session any more.
    Expired,
    Approved(Option<Login>),
    Denied,
    /// There is no outcome yet.
    Pending,
}

pub enum ResolutionView {
    Expired,
    Approved(Option<LoginView>),
    Denied,
    Pending,
}

impl View for Resolution {
    type V = ResolutionView;

    open spec fn view(&self) -> ResolutionView {
        match self {
            Resolution::Expired => ResolutionView::Expired,
            Resolution::Approved(l) => ResolutionView::Approved(opt_login(*l)),
            Resolution::Denied => ResolutionView::Denied,
            Resolution::Pending => ResolutionView::Pending,
        }
    }
}

/// The outcome of a session at a given time.
pub open spec fn outcome_of(m: Map<Seq<char>, SessionView>, id: Seq<char>, now: u64) -> ResolutionView {
    if !m.dom().contains(id) || !m[id].live(now) {
        ResolutionView::Expired
    } else {
        match m[id].status {
            QrLoginStatus::Approved => ResolutionView::Approved(m[id].login_data),
            QrLoginStatus::Denied => ResolutionView::Denied,
            QrLoginStatus::Pending => ResolutionView::Pending,
        }
    }
}

/// What is kept once an outcome was collected: a session goes with it.
pub open spec fn collected(m: Map<Seq<char>, SessionView>, id: Seq<char>, now: u64) -> Map<
    Seq<char>,
    SessionView,
> {
    if outcome_of(m, id, now) is Pending {
        m
    } else {
        m.remove(id)
    }
}

/// Why a response to a session is refused; nothing where it is admitted.
pub open spec fn response_error(
    m: Map<Seq<char>, SessionView>,
    id: Seq<char>,
    tn_id: TnId,
    now: u64,
) -> Option<Error> {
    if !m.dom().contains(id) || !m[id].live(now) {
        Some(Error::NotFound)
    } else if m[id].tn_id != tn_id {
        Some(Error::PermissionDenied)
    } else {
        None
    }
}

/// The sessions once one was approved with a sign-in.
pub open spec fn approved(m: Map<Seq<char>, SessionView>, id: Seq<char>, login: LoginView) -> Map<
    Seq<char>,
    SessionView,
> {
    m.insert(
        id,
        SessionView { status: QrLoginStatus::Approved, login_data: Some(login), ..m[id] },
    )
}

/// The sessions once one was denied.
pub open spec fn denied(m: Map<Seq<char>, SessionView>, id: Seq<char>) -> Map<
    Seq<char>,
    SessionView,
> {
    m.insert(id, SessionView { status: QrLoginStatus::Denied, ..m[id] })
}

impl QrLoginStore {
    pub fn new() -> (r: QrLoginStore)
        ensures
            r@ == Map::<Seq<char>, SessionView>::empty(),
    {
        QrLoginStore { sessions: map_new() }
    }

    /// Removes the sessions that have expired, and tells how many there were.
    pub fn cleanup_expired(&mut self, now: u64) -> (r: usize)
        ensures
            final(self)@ == live_sessions(old(self)@, now),
            r == old(self)@.dom().len() - final(self)@.dom().len(),
    {
        let before: usize = map_len(&self.sessions);
        map_retain_live(&mut self.sessions, now);
        let after: usize = map_len(&self.sessions);
        proof {
            let m = old(self)@;
            let kept = m.dom().filter(|k: Seq<char>| m[k].live(now));
            assert(live_sessions(m, now).dom() =~= kept);
            assert(kept.subset_of(m.dom()));
            vstd::set_lib::lemma_len_subset(kept, m.dom());
        }
        before - after
    }

    /// Opens a session under a given id and secret; refused where there are too many.
    pub fn open_session(
        &mut self,
        session_id: String,
        secret: &str,
        origin: SessionOrigin,
        now: u64,
    ) -> (r: Result<(), Error>)
        ensures
            r is Err <==> room_made(old(self)@, now).dom().len() >= MAX_SESSIONS,
            r matches Err(e) ==> e.deep_view() == ErrorView::ServiceUnavailable(
                "too many QR login sessions"@,
            ) && final(self)@ == room_made(old(self)@, now),
            r is Ok ==> final(self)@ == room_made(old(self)@, now).insert(
                session_id@,
                opened(origin, secret@, now),
            ),
    {
        if map_len(&self.sessions) >= MAX_SESSIONS {
            map_retain_live(&mut self.sessions, now);
            if map_len(&self.sessions) >= MAX_SESSIONS {
                return Err(
                    Error::ServiceUnavailable(text::owned("too many QR login sessions")),
                );
            }
        }
        let expires_at: u64 = match now.checked_add(SESSION_EXPIRY_MS) {
            Some(t) => t,
            None => u64::MAX,
        };
        let session = QrLoginSession {
            tn_id: origin.tn_id,
            status: QrLoginStatus::Pending,
            secret_hash: secrets::hash_secret(secret),
            user_agent: origin.user_agent,
            ip_address: origin.ip_address,
            login_data: None,
            expires_at,
        };
        map_insert(&mut self.sessions, session_id, session);
        Ok(())
    }

    /// Opens a session under a fresh id with a fresh secret.
    pub fn create_session(&mut self, origin: SessionOrigin, now: u64) -> (r: Result<
        InitResponse,
        Error,
    >)
        ensures
            r is Err <==> room_made(old(self)@, now).dom().len() >= MAX_SESSIONS,
            r matches Err(e) ==> e.deep_view() == ErrorView::ServiceUnavailable(
                "too many QR login sessions"@,
            ) && final(self)@ == room_made(old(self)@, now),
            r matches Ok(x) ==> final(self)@ == room_made(old(self)@, now).insert(
                x.session_id@,
                opened(origin, x.secret@, now),
            ),
            r matches Ok(x) ==> secrets::is_drawn(x.session_id@, 16) && secrets::is_drawn(
                x.secret@,
                32,
            ),
    {
        let id_bytes = secrets::random_bytes(16);
        let session_id = secrets::base64_url(id_bytes.as_slice());
        let secret_bytes = secrets::random_bytes(32);
        let secret = secrets::base64_url(secret_bytes.as_slice());
        match self.open_session(session_id.clone(), secret.as_str(), origin, now) {
            Ok(()) => Ok(InitResponse { session_id, secret }),
            Err(e) => Err(e),
        }
    }

    /// Makes sure that the caller knows the secret of a session.
    pub fn verify_secret(&self, session_id: &str, secret: &str) -> (r: Result<(), Error>)
        ensures
            r is Ok <==> self@.dom().contains(session_id@) && self@[session_id@].secret_hash
                == secrets::secret_digest(secret@),
            r matches Err(e) ==> e is NotFound,
    {
        match map_get(&self.sessions, session_id) {
            None => Err(Error::NotFound),
            Some(s) => {
                let digest = secrets::hash_secret(secret);
                if text::same(s.secret_hash.as_str(), digest.as_str()) {
                    Ok(())
                } else {
                    Err(Error::NotFound)
                }
            },
        }
    }

    /// Collects the outcome of a session.
    pub fn try_resolve_status(&mut self, session_id: &str, now: u64) -> (r: Resolution)
        ensures
            r@ == outcome_of(old(self)@, session_id@, now),
            final(self)@ == collected(old(self)@, session_id@, now),
    {
        match map_get(&self.sessions, session_id) {
            None => {
                assert(self@.remove(session_id@) =~= self@);
                Resolution::Expired
            },
            Some(s) => {
                if !is_live(&s, now) {
                    map_remove(&mut self.sessions, session_id);
                    return Resolution::Expired;
                }
                match s.status {
                    QrLoginStatus::Approved => {
                        map_remove(&mut self.sessions, session_id);
                        Resolution::Approved(s.login_data)
                    },
                    QrLoginStatus::Denied => {
                        map_remove(&mut self.sessions, session_id);
                        Resolution::Denied
                    },
                    QrLoginStatus::Pending => Resolution::Pending,
                }
            },
        }
    }

    /// How long to wait for an outcome, in milliseconds: as long as the client asks for, within
    /// the limit and the life of the session.
    pub fn wait_ms(&self, session_id: &str, timeout_secs: Option<u64>, now: u64) -> (r: u64)
        ensures
            r == (if !self@.dom().contains(session_id@) {
                0
            } else {
                let secs = match timeout_secs {
                    Some(t) => if t < MAX_POLL_TIMEOUT_SECS {
                        t
                    } else {
                        MAX_POLL_TIMEOUT_SECS
                    },
                    None => DEFAULT_POLL_TIMEOUT_SECS,
                };
                let left = if self@[session_id@].live(now) {
                    self@[session_id@].expires_at - now
                } else {
                    0
                };
                if secs * 1000 <= left {
                    secs * 1000
                } else {
                    left
                }
            }),
    {
        let secs: u64 = match timeout_secs {
            Some(t) => {
                if t < MAX_POLL_TIMEOUT_SECS {
                    t
                } else {
                    MAX_POLL_TIMEOUT_SECS
                }
            },
            None => DEFAULT_POLL_TIMEOUT_SECS,
        };
        match map_get(&self.sessions, session_id) {
            None => 0,
            Some(s) => {
                let left: u64 = if is_live(&s, now) {
                    s.expires_at - now
                } else {
                    0
                };
                if secs * 1000 <= left {
                    secs * 1000
                } else {
                    left
                }
            },
        }
    }

    /// Who opened a session, for the device that is to approve it.
    pub fn get_details(&self, session_id: &str, tn_id: TnId, now: u64) -> (r: Result<
        DetailsResponse,
        Error,
    >)
        ensures
            match response_error(self@, session_id@, tn_id, now) {
                Some(x) => r matches Err(e) && e == x,
                None => r matches Ok(d) && d.user_agent.deep_view()
                    == self@[session_id@].user_agent && d.ip_address.deep_view()
                    == self@[session_id@].ip_address,
            },
    {
        match map_get(&self.sessions, session_id) {
            None => Err(Error::NotFound),
            Some(s) => {
                if !is_live(&s, now) {
                    return Err(Error::NotFound);
                }
                if s.tn_id != tn_id {
                    return Err(Error::PermissionDenied);
                }
                Ok(DetailsResponse { user_agent: s.user_agent, ip_address: s.ip_address })
            },
        }
    }

    /// Admits a response to a session: it has to be there, belong to the tenant and have none.
    pub fn check_response(&self, session_id: &str, tn_id: TnId, now: u64) -> (r: Result<(), Error>)
        ensures
            match response_error(self@, session_id@, tn_id, now) {
                Some(x) => r matches Err(e) && e == x,
                None => if self@[session_id@].status == QrLoginStatus::Pending {
                    r is Ok
                } else {
                    r matches Err(e) && e.deep_view() == ErrorView::ValidationError(
                        "Session already responded"@,
                    )
                },
            },
    {
        match map_get(&self.sessions, session_id) {
            None => Err(Error::NotFound),
            Some(s) => {
                if !is_live(&s, now) {
                    return Err(Error::NotFound);
                }
                if s.tn_id != tn_id {
                    return Err(Error::PermissionDenied);
                }
                match s.status {
                    QrLoginStatus::Pending => Ok(()),
                    _ => Err(Error::ValidationError(text::owned("Session already responded"))),
                }
            },
        }
    }

    /// Approves a session with the sign-in that the client is to get. It must still be there
    /// without a response.
    pub fn approve(&mut self, session_id: &str, login: Login) -> (r: Result<(), Error>)
        ensures
            !old(self)@.dom().contains(session_id@) ==> (r matches Err(e) && e is NotFound),
            old(self)@.dom().contains(session_id@) && old(self)@[session_id@].status
                != QrLoginStatus::Pending ==> (r matches Err(e) && e.deep_view()
                == ErrorView::ValidationError("Session already responded"@)),
            r is Err ==> final(self)@ == old(self)@,
            old(self)@.dom().contains(session_id@) && old(self)@[session_id@].status
                == QrLoginStatus::Pending ==> r is Ok && final(self)@ == approved(old(self)@, session_id@, login@),
    {
        match map_get(&self.sessions, session_id) {
            None => Err(Error::NotFound),
            Some(s) => {
                match s.status {
                    QrLoginStatus::Pending => {},
                    _ => {
                        return Err(
                            Error::ValidationError(text::owned("Session already responded")),
                        );
                    },
                }
                let mut session = s;
                session.login_data = Some(login);
                session.status = QrLoginStatus::Approved;
                map_insert(&mut self.sessions, text::owned(session_id), session);
                Ok(())
            },
        }
    }

    /// Denies a session. It must still be there.
    pub fn deny(&mut self, session_id: &str) -> (r: Result<(), Error>)
        ensures
            r is Ok <==> old(self)@.dom().contains(session_id@),
            r matches Err(e) ==> e is NotFound && final(self)@ == old(self)@,
            r is Ok ==> final(self)@ == denied(old(self)@, session_id@),
    {
        match map_get(&self.sessions, session_id) {
            None => Err(Error::NotFound),
            Some(s) => {
                let mut session = s;
                session.status = QrLoginStatus::Denied;
                map_insert(&mut self.sessions, text::owned(session_id), session);
                Ok(())
            },
        }
    }
}

/// An empty store of sessions.
pub fn new_qr_login_store() -> (r: QrLoginStore)
    ensures
        r@ == Map::<Seq<char>, SessionView>::empty(),
{
    QrLoginStore::new()
}

#[derive(Debug)]
pub struct StatusQuery {
    pub timeout: Option<u64>,
}

#[derive(Debug)]
pub struct StatusResponse {
    pub status: String,
    pub login: Option<Login>,
}

#[derive(Debug)]
pub struct DetailsResponse {
    pub user_agent: Option<String>,
    pub ip_address: Option<String>,
}

#[derive(Debug, Clone, Copy)]
pub struct RespondRequest {
    pub approved: bool,
}

/// An outcome as the client is told of it.
pub fn status_response(outcome: Resolution) -> (r: StatusResponse)
    ensures
        r.status@ == (match outcome@ {
            ResolutionView::Expired => "expired"@,
            ResolutionView::Approved(_) => "approved"@,
            ResolutionView::Denied => "denied"@,
            ResolutionView::Pending => "pending"@,
        }),
        opt_login(r.login) == (match outcome@ {
            ResolutionView::Approved(l) => l,
            _ => None,
        }),
{
    match outcome {
        Resolution::Expired => StatusResponse { status: text::owned("expired"), login: None },
        Resolution::Approved(login) => StatusResponse { status: text::owned("approved"), login },
        Resolution::Denied => StatusResponse { status: text::owned("denied"), login: None },
        Resolution::Pending => StatusResponse { status: text::owned("pending"), login: None },
    }
}

/// The response of a device as it is confirmed.
pub fn respond_status(req: RespondRequest) -> (r: StatusResponse)
    ensures
        r.status@ == (if req.approved {
            "approved"@
        } else {
            "denied"@
        }),
        r.login is None,
{
    let status = if req.approved {
        text::owned("approved")
    } else {
        text::owned("denied")
    };
    StatusResponse { status, login: None }
}

/// An outcome is collected at most once: whoever comes later finds no session.
pub proof fn law_outcome_is_collected_once(
    m: Map<Seq<char>, SessionView>,
    id: Seq<char>,
    now: u64,
    later: u64,
)
    requires
        !(outcome_of(m, id, now) is Pending),
    ensures
        outcome_of(collected(m, id, now), id, later) is Expired,
{
}

/// A session that was approved and has not expired gives the client exactly the sign-in that it
/// was approved with, and no other session changes.
pub proof fn law_approval_is_delivered(
    m: Map<Seq<char>, SessionView>,
    id: Seq<char>,
    other: Seq<char>,
    login: LoginView,
    now: u64,
)
    requires
        m.dom().contains(id),
        m[id].live(now),
        other != id,
    ensures
        ({
            let after = approved(m, id, login);
            &&& outcome_of(after, id, now) == ResolutionView::Approved(Some(login))
            &&& outcome_of(after, other, now) == outcome_of(m, other, now)
        }),
{
}

/// A session that has expired has no outcome, whatever was responded.
pub proof fn law_expired_sessions_have_no_outcome(
    m: Map<Seq<char>, SessionView>,
    id: Seq<char>,
    now: u64,
)
    requires
        m.dom().contains(id) ==> !m[id].live(now),
    ensures
        outcome_of(m, id, now) is Expired,
{
}

/// A device of another tenant can neither look at a session nor respond to it.
pub proof fn law_sessions_belong_to_their_tenant(
    m: Map<Seq<char>, SessionView>,
    id: Seq<char>,
    tn_id: TnId,
    now: u64,
)
    requires
        m.dom().contains(id),
        m[id].tn_id != tn_id,
    ensures
        response_error(m, id, tn_id, now) is Some,
{
}

} // verus!
