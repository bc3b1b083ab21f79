use vstd::prelude::*;

use crate::check_result::CheckState;

verus! {

/// The not-after time, in seconds since the Unix epoch, of the X.509
/// certificate that `der` encodes; `None` when `der` is no such certificate.
pub uninterp spec fn der_not_after(der: Seq<u8>) -> Option<int>;

/// An optional machine timestamp as a mathematical one.
pub open spec fn opt_int(t: Option<i64>) -> Option<int> {
    match t {
        Some(t) => Some(t as int),
        None => None,
    }
}

/// Relies on `x509_parser::parse_x509_certificate`, then
/// `validity().not_after.timestamp()` of the parsed certificate: the expiry
/// time of a DER certificate, which depends on the bytes alone.
#[verifier::external_body]
pub(crate) fn parse_not_after(der: &[u8]) -> (r: Option<i64>)
    ensures
        der_not_after(der@) == opt_int(r),
{
    match x509_parser::parse_x509_certificate(der) {
        Ok((_, cert)) => Some(cert.validity().not_after.timestamp()),
        Err(_) => None,
    }
}

/// Whole days from `checked_at` to `not_after` (both in seconds), rounded
/// down: negative once the certificate has expired, -1 already one second
/// after its expiry.
pub open spec fn spec_days_between(not_after: int, checked_at: int) -> int {
    (not_after - checked_at) / 86400
}

/// Whole days from `checked_at` to `not_after`, rounded down.
pub fn days_between(not_after: i64, checked_at: i64) -> (r: i64)
    ensures
        r as int == spec_days_between(not_after as int, checked_at as int),
{
    let d: i128 = not_after as i128 - checked_at as i128;
    if d >= 0 {
        (d / 86400) as i64
    } else {
        let q: i128 = (-d + 86399) / 86400;
        assert(-q == d / 86400) by (nonlinear_arith)
            requires
                d < 0,
                q == (-d + 86399) / 86400,
        ;
        -(q as i64)
    }
}

/// A certificate with more days left than the grace period is healthy;
/// any other is a warning.
pub open spec fn spec_classify(days: int, grace_in_days: int) -> CheckState {
    if days > grace_in_days {
        CheckState::Healthy
    } else {
        CheckState::Warning
    }
}

/// State of a certificate that parsed, from the days it has left.
pub fn classify(days: i64, grace_in_days: i64) -> (r: CheckState)
    ensures
        r == spec_classify(days as int, grace_in_days as int),
        r == CheckState::Healthy <==> days > grace_in_days,
        r == CheckState::Warning <==> days <= grace_in_days,
{
    if days > grace_in_days {
        CheckState::Healthy
    } else {
        CheckState::Warning
    }
}

} // verus!
