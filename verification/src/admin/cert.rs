//! The state of a tenant's certificate.
use crate::types::Timestamp;
use vstd::prelude::*;

verus! {

/// The state of a certificate. Times are in ISO notation.
#[derive(Debug)]
pub struct CertStatusResponse {
    pub domain: String,
    pub expires_at: String,
    pub days_until_expiry: i64,
    pub last_renewal_attempt_at: Option<String>,
    pub last_renewal_error: Option<String>,
    pub failure_count: u32,
    pub notified_at: Option<String>,
    pub tenant_status: Option<String>,
}

/// Whole days in a number of seconds, counted towards zero.
pub open spec fn whole_days(secs: int) -> int {
    if secs >= 0 {
        secs / 86400
    } else {
        -((-secs) / 86400)
    }
}

/// The whole days until a certificate expires; negative once it has, for a day or longer.
pub fn days_until_expiry(expires_at: i64, now: i64) -> (r: i64)
    requires
        i64::MIN <= expires_at - now <= i64::MAX,
    ensures
        r == whole_days(expires_at - now),
{
    let d: i64 = expires_at - now;
    if d >= 0 {
        ((d as u64) / 86400) as i64
    } else {
        let past: u64 = (-(d + 1)) as u64 + 1;
        -((past / 86400) as i64)
    }
}

/// A certificate on record. Times other than the expiry are in ISO notation.
#[derive(Debug)]
pub struct CertRecord {
    pub domain: String,
    pub expires_at: Timestamp,
    pub expires_at_iso: String,
    pub last_renewal_attempt_at: Option<String>,
    pub last_renewal_error: Option<String>,
    pub failure_count: u32,
    pub notified_at: Option<String>,
}

/// Reports on a certificate.
pub fn get_cert_status(cert: CertRecord, tenant_status: Option<String>, now: Timestamp) -> (r:
    CertStatusResponse)
    requires
        i64::MIN <= cert.expires_at.0 - now.0 <= i64::MAX,
    ensures
        r.domain == cert.domain,
        r.expires_at == cert.expires_at_iso,
        r.days_until_expiry == whole_days(cert.expires_at.0 - now.0),
        r.last_renewal_attempt_at == cert.last_renewal_attempt_at,
        r.last_renewal_error == cert.last_renewal_error,
        r.failure_count == cert.failure_count,
        r.notified_at == cert.notified_at,
        r.tenant_status == tenant_status,
{
    CertStatusResponse {
        domain: cert.domain,
        expires_at: cert.expires_at_iso,
        days_until_expiry: days_until_expiry(cert.expires_at.0, now.0),
        last_renewal_attempt_at: cert.last_renewal_attempt_at,
        last_renewal_error: cert.last_renewal_error,
        failure_count: cert.failure_count,
        notified_at: cert.notified_at,
        tenant_status,
    }
}

/// A certificate that has not expired is never reported as overdue, nor the other way round.
pub proof fn law_days_until_expiry_sign(expires_at: i64, now: i64)
    ensures
        expires_at >= now ==> whole_days(expires_at - now) >= 0,
        expires_at <= now ==> whole_days(expires_at - now) <= 0,
        whole_days(expires_at - now) * 86400 <= expires_at - now || expires_at < now,
{
    let d = expires_at - now;
    assert(d >= 0 ==> d / 86400 >= 0 && (d / 86400) * 86400 <= d);
    assert(d < 0 ==> (-d) / 86400 >= 0);
}

} // verus!
