use vstd::prelude::*;

verus! {

/// Operational state of one checked domain.
#[derive(Clone, Copy, Debug, PartialEq, Eq, Structural)]
pub enum CheckState {
    /// The certificate has more days left than the grace period.
    Healthy,
    /// The certificate has at most the grace period left (or is past its date).
    Warning,
    /// The host refused the session after the handshake, or no expiry date
    /// could be read from its certificate.
    Expired,
}

/// Outcome of checking one domain; created once and only read afterwards.
#[derive(Debug)]
pub struct CheckResult {
    /// The domain that was checked.
    pub domain_name: String,
    /// Classification of the certificate.
    pub state: CheckState,
    /// When the check ran, in whole seconds since the Unix epoch.
    pub checked_at: i64,
    /// When the certificate expires, in seconds since the Unix epoch; 0 when unknown.
    pub not_after: i64,
    /// Whole days from `checked_at` to `not_after`, rounded down.
    pub days: i64,
    /// Milliseconds the forced write took, when timing was asked for.
    pub elapsed: Option<u128>,
}

/// Mathematical model of a [`CheckResult`].
pub ghost struct CheckResultView {
    pub domain_name: Seq<char>,
    pub state: CheckState,
    pub checked_at: int,
    pub not_after: int,
    pub days: int,
    pub elapsed: Option<u128>,
}

impl View for CheckResult {
    type V = CheckResultView;

    open spec fn view(&self) -> CheckResultView {
        CheckResultView {
            domain_name: self.domain_name@,
            state: self.state,
            checked_at: self.checked_at as int,
            not_after: self.not_after as int,
            days: self.days as int,
            elapsed: self.elapsed,
        }
    }
}

/// The result recorded for a domain found expired at `checked_at`.
pub open spec fn expired_view(domain_name: Seq<char>, checked_at: int) -> CheckResultView {
    CheckResultView {
        domain_name,
        state: CheckState::Expired,
        checked_at,
        not_after: 0,
        days: 0,
        elapsed: None,
    }
}

impl CheckResult {
    /// The result for a domain that counts as expired: no expiry date, no days left.
    pub fn expired(domain_name: &str, checked_at: i64) -> (r: CheckResult)
        ensures
            r@ == expired_view(domain_name@, checked_at as int),
    {
        CheckResult {
            domain_name: domain_name.to_owned(),
            state: CheckState::Expired,
            checked_at,
            not_after: 0,
            days: 0,
            elapsed: None,
        }
    }
}

} // verus!
