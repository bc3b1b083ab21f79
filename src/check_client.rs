use vstd::prelude::*;
use vstd::string::StringExecFns;

use crate::certificate::{
    classify, days_between, der_not_after, opt_int, parse_not_after, spec_classify,
    spec_days_between,
};
use crate::check_result::{expired_view, CheckResult, CheckResultView, CheckState};

verus! {

/// What the network side found for one domain: the input of a check.
pub enum Fetched {
    /// No TLS session could be set up: the name was invalid, or resolving,
    /// connecting or the handshake failed.
    Unreachable { reason: String },
    /// The handshake was made, but the peer refused the forced HTTP write.
    Rejected,
    /// The forced write went through: the peer's certificates, leaf first,
    /// if it sent any, and how long the write took.
    Connected { peer_certificates: Option<Vec<Vec<u8>>>, elapsed_ms: u128 },
}

/// Why a domain could not be checked.
#[derive(Debug)]
pub enum CheckError {
    /// No TLS session could be set up with the domain.
    Unreachable { domain_name: String, reason: String },
    /// The session reported no peer certificates.
    NoPeerCertificates { domain_name: String },
    /// The peer's certificate list was empty.
    NoCertificate { domain_name: String },
}

/// Mathematical model of a [`CheckError`].
pub ghost enum CheckErrorView {
    Unreachable { domain_name: Seq<char>, reason: Seq<char> },
    NoPeerCertificates { domain_name: Seq<char> },
    NoCertificate { domain_name: Seq<char> },
}

impl View for CheckError {
    type V = CheckErrorView;

    open spec fn view(&self) -> CheckErrorView {
        match self {
            CheckError::Unreachable { domain_name, reason } => CheckErrorView::Unreachable {
                domain_name: domain_name@,
                reason: reason@,
            },
            CheckError::NoPeerCertificates { domain_name } => CheckErrorView::NoPeerCertificates {
                domain_name: domain_name@,
            },
            CheckError::NoCertificate { domain_name } => CheckErrorView::NoCertificate {
                domain_name: domain_name@,
            },
        }
    }
}

impl CheckError {
    /// May trying again succeed? Only a network failure is transient; a
    /// missing certificate is not, and an expired domain is no error at all.
    pub fn is_transient(&self) -> (r: bool)
        ensures
            r == self is Unreachable,
    {
        match self {
            CheckError::Unreachable { .. } => true,
            _ => false,
        }
    }
}

/// The model of a check's outcome.
pub open spec fn outcome_view(r: Result<CheckResult, CheckError>) -> Result<
    CheckResultView,
    CheckErrorView,
> {
    match r {
        Ok(v) => Ok(v@),
        Err(e) => Err(e@),
    }
}

/// A GET of `/` on `domain_name` that closes the connection and asks for no
/// content encoding.
pub open spec fn spec_http_request(domain_name: Seq<char>) -> Seq<char> {
    "GET / HTTP/1.1\r\nHost: "@ + domain_name
        + "\r\nConnection: close\r\nAccept-Encoding: identity\r\n\r\n"@
}

/// Settings shared by every check of one batch.
#[derive(Clone, Copy, Debug)]
pub struct CheckClient {
    /// When the checks run, in whole seconds since the Unix epoch.
    pub checked_at: i64,
    /// Record how long the forced write took?
    pub elapsed: bool,
    /// Grace period before a certificate actually expires, in days.
    pub grace_in_days: i64,
}

impl CheckClient {
    /// The result for a domain whose leaf certificate gave `not_after` as its
    /// expiry time. A leaf that did not parse (`None`), or whose expiry is at
    /// or before the epoch, gives no usable expiry date and counts as expired.
    pub open spec fn spec_result_for(
        self,
        domain_name: Seq<char>,
        not_after: Option<int>,
        elapsed_ms: u128,
    ) -> CheckResultView {
        match not_after {
            Some(t) if t > 0 => {
                let days = spec_days_between(t, self.checked_at as int);
                CheckResultView {
                    domain_name,
                    state: spec_classify(days, self.grace_in_days as int),
                    checked_at: self.checked_at as int,
                    not_after: t,
                    days,
                    elapsed: if self.elapsed {
                        Some(elapsed_ms)
                    } else {
                        None
                    },
                }
            },
            _ => expired_view(domain_name, self.checked_at as int),
        }
    }

    /// The outcome of checking `domain_name` when the network side found `fetched`.
    pub open spec fn spec_check_one(self, domain_name: Seq<char>, fetched: Fetched) -> Result<
        CheckResultView,
        CheckErrorView,
    > {
        match fetched {
            Fetched::Unreachable { reason } => Err(
                CheckErrorView::Unreachable { domain_name, reason: reason@ },
            ),
            Fetched::Rejected => Ok(expired_view(domain_name, self.checked_at as int)),
            Fetched::Connected { peer_certificates, elapsed_ms } => match peer_certificates {
                None => Err(CheckErrorView::NoPeerCertificates { domain_name }),
                Some(certificates) => if certificates@.len() == 0 {
                    Err(CheckErrorView::NoCertificate { domain_name })
                } else {
                    Ok(
                        self.spec_result_for(
                            domain_name,
                            der_not_after(certificates@[0]@),
                            elapsed_ms,
                        ),
                    )
                },
            },
        }
    }

    /// A client for checks made at `checked_at` (whole seconds since the
    /// epoch), with a grace period of seven days and no timing.
    pub fn new(checked_at: i64) -> (r: CheckClient)
        ensures
            r.checked_at == checked_at,
            r.grace_in_days == 7,
            !r.elapsed,
    {
        CheckClient { checked_at, elapsed: false, grace_in_days: 7 }
    }

    /// The result for `domain_name` once its leaf certificate gave
    /// `not_after` as its expiry time, or did not parse (`None`); an expiry
    /// at or before the epoch counts as none.
    pub fn result_for(&self, domain_name: &str, not_after: Option<i64>, elapsed_ms: u128) -> (r:
        CheckResult)
        ensures
            r@ == self.spec_result_for(domain_name@, opt_int(not_after), elapsed_ms),
    {
        match not_after {
            Some(t) if t > 0 => {
                let days = days_between(t, self.checked_at);
                CheckResult {
                    domain_name: domain_name.to_owned(),
                    state: classify(days, self.grace_in_days),
                    checked_at: self.checked_at,
                    not_after: t,
                    days,
                    elapsed: if self.elapsed {
                        Some(elapsed_ms)
                    } else {
                        None
                    },
                }
            },
            _ => CheckResult::expired(domain_name, self.checked_at),
        }
    }

    /// The minimal HTTP request written over a fresh session with
    /// `domain_name`, so that the peer has to answer.
    pub fn build_http_headers(domain_name: &str) -> (r: String)
        ensures
            r@ == spec_http_request(domain_name@),
    {
        let mut request = "GET / HTTP/1.1\r\nHost: ".to_owned();
        request.append(domain_name);
        request.append("\r\nConnection: close\r\nAccept-Encoding: identity\r\n\r\n");
        request
    }

    /// Check one domain from what the network side found for it.
    ///
    /// A refused write means the domain counts as expired; an unreachable
    /// host or a missing certificate is an error; otherwise the leaf
    /// certificate is parsed and classified. A leaf certificate that does not
    /// parse, or whose expiry is at or before the epoch, gives no usable
    /// expiry date, and so counts as expired too.
    pub fn check_one(&self, domain_name: &str, fetched: &Fetched) -> (r: Result<
        CheckResult,
        CheckError,
    >)
        ensures
            outcome_view(r) == self.spec_check_one(domain_name@, *fetched),
    {
        match fetched {
            Fetched::Unreachable { reason } => Err(
                CheckError::Unreachable { domain_name: domain_name.to_owned(), reason: reason.clone() },
            ),
            Fetched::Rejected => Ok(CheckResult::expired(domain_name, self.checked_at)),
            Fetched::Connected { peer_certificates, elapsed_ms } => match peer_certificates {
                None => Err(CheckError::NoPeerCertificates { domain_name: domain_name.to_owned() }),
                Some(certificates) => {
                    if certificates.len() == 0 {
                        Err(CheckError::NoCertificate { domain_name: domain_name.to_owned() })
                    } else {
                        let not_after = parse_not_after(certificates[0].as_slice());
                        Ok(self.result_for(domain_name, not_after, *elapsed_ms))
                    }
                },
            },
        }
    }

    /// Check a batch of domains, `fetched[i]` being what the network side
    /// found for `domain_names[i]`.
    ///
    /// The results come in the order of the input, one per domain; the first
    /// domain, in that order, whose check fails makes the whole batch fail
    /// with its error.
    pub fn check_many(&self, domain_names: &[&str], fetched: &[Fetched]) -> (r: Result<
        Vec<CheckResult>,
        CheckError,
    >)
        requires
            domain_names@.len() == fetched@.len(),
        ensures
            match r {
                Ok(results) => {
                    &&& results@.len() == domain_names@.len()
                    &&& forall|i: int|
                        0 <= i < results@.len() ==> self.spec_check_one(
                            #[trigger] domain_names@[i]@,
                            fetched@[i],
                        ) == Ok::<CheckResultView, CheckErrorView>(results@[i]@)
                },
                Err(e) => exists|i: int|
                    {
                        &&& 0 <= i < domain_names@.len()
                        &&& self.spec_check_one(#[trigger] domain_names@[i]@, fetched@[i]) == Err::<
                            CheckResultView,
                            CheckErrorView,
                        >(e@)
                        &&& forall|j: int|
                            0 <= j < i ==> self.spec_check_one(
                                #[trigger] domain_names@[j]@,
                                fetched@[j],
                            ) is Ok
                    },
            },
    {
        let mut results: Vec<CheckResult> = Vec::new();
        let mut i: usize = 0;
        while i < fetched.len()
            invariant
                domain_names@.len() == fetched@.len(),
                i <= fetched@.len(),
                results@.len() == i,
                forall|j: int|
                    0 <= j < i ==> self.spec_check_one(#[trigger] domain_names@[j]@, fetched@[j])
                        == Ok::<CheckResultView, CheckErrorView>(results@[j]@),
            decreases fetched@.len() - i,
        {
            match self.check_one(domain_names[i], &fetched[i]) {
                Ok(result) => results.push(result),
                Err(e) => {
                    assert(self.spec_check_one(domain_names@[i as int]@, fetched@[i as int])
                        == Err::<CheckResultView, CheckErrorView>(e@));
                    return Err(e);
                },
            }
            i += 1;
        }
        Ok(results)
    }
}

/// The state of a certificate that parsed, with an expiry after the epoch,
/// depends on the grace period alone through its days left (rounded down):
/// it is healthy exactly when more days are left than the grace period, and
/// a warning exactly when at most that many are.
pub proof fn lemma_state_by_grace(
    client: CheckClient,
    domain_name: Seq<char>,
    not_after: int,
    elapsed_ms: u128,
)
    requires
        not_after > 0,
    ensures
        ({
            let r = client.spec_result_for(domain_name, Some(not_after), elapsed_ms);
            &&& r.days == spec_days_between(not_after, client.checked_at as int)
            &&& r.state == CheckState::Healthy <==> r.days > client.grace_in_days
            &&& r.state == CheckState::Warning <==> r.days <= client.grace_in_days
        }),
{
}

/// Every result of a check is consistent: an expired one carries no expiry
/// date and no days left; a healthy or warning one carries an expiry after
/// the epoch and the whole days, rounded down, from the check time to it.
pub proof fn lemma_check_result_consistent(
    client: CheckClient,
    domain_name: Seq<char>,
    fetched: Fetched,
)
    ensures
        client.spec_check_one(domain_name, fetched) matches Ok(r) ==> {
            &&& r.domain_name == domain_name
            &&& r.checked_at == client.checked_at
            &&& r.state == CheckState::Expired ==> r.not_after == 0 && r.days == 0 && r.elapsed
                is None
            &&& r.state != CheckState::Expired ==> r.not_after > 0 && r.days == spec_days_between(
                r.not_after,
                r.checked_at,
            )
        },
{
}

/// A domain that refuses the forced write is expired, with no expiry date,
/// whatever the grace period.
pub proof fn lemma_rejected_is_expired(client: CheckClient, domain_name: Seq<char>)
    ensures
        client.spec_check_one(domain_name, Fetched::Rejected) matches Ok(r) && r.state
            == CheckState::Expired && r.not_after == 0 && r.domain_name == domain_name,
{
}

/// Checking the same certificate twice gives the same result when both checks
/// run at the same second. When the second check runs `s` seconds later, its
/// days left are fewer by at most `s / 86400 + 1` and never more, so the state
/// stays the same unless the days left crossed the grace period in between.
pub proof fn lemma_check_repeated(
    first: CheckClient,
    second: CheckClient,
    domain_name: Seq<char>,
    fetched: Fetched,
)
    requires
        first.grace_in_days == second.grace_in_days,
        first.elapsed == second.elapsed,
        first.checked_at <= second.checked_at,
    ensures
        first.checked_at == second.checked_at ==> first.spec_check_one(domain_name, fetched)
            == second.spec_check_one(domain_name, fetched),
        first.spec_check_one(domain_name, fetched) is Ok <==> second.spec_check_one(
            domain_name,
            fetched,
        ) is Ok,
        first.spec_check_one(domain_name, fetched) matches Ok(a) ==> second.spec_check_one(
            domain_name,
            fetched,
        ) matches Ok(b) && {
            &&& b.days <= a.days
            &&& a.days - b.days <= (second.checked_at - first.checked_at) / 86400 + 1
            &&& b.state == CheckState::Healthy ==> a.state == CheckState::Healthy
            &&& a.state == CheckState::Warning ==> b.state == CheckState::Warning
            &&& a.state == CheckState::Expired <==> b.state == CheckState::Expired
        },
{
    if let Fetched::Connected { peer_certificates: Some(certificates), elapsed_ms } = fetched {
        if certificates@.len() > 0 {
            if let Some(t) = der_not_after(certificates@[0]@) {
                lemma_days_drift(t, first.checked_at as int, second.checked_at as int);
            }
        }
    }
}

/// A certificate found healthy with `d` days left is a warning for a check
/// made at the same time or later with a grace period of `d + 1` days.
pub proof fn lemma_grace_past_days_warns(
    first: CheckClient,
    second: CheckClient,
    domain_name: Seq<char>,
    fetched: Fetched,
)
    requires
        first.checked_at <= second.checked_at,
        first.spec_check_one(domain_name, fetched) matches Ok(r) && r.state
            == CheckState::Healthy && second.grace_in_days == r.days + 1,
    ensures
        second.spec_check_one(domain_name, fetched) matches Ok(r) && r.state
            == CheckState::Warning,
{
    if let Fetched::Connected { peer_certificates: Some(certificates), elapsed_ms } = fetched {
        if certificates@.len() > 0 {
            if let Some(t) = der_not_after(certificates@[0]@) {
                lemma_days_drift(t, first.checked_at as int, second.checked_at as int);
            }
        }
    }
}

/// In the results of a batch, two entries for the same domain that the
/// network side found alike are alike: duplicates are kept, each with the
/// same name and state.
pub proof fn lemma_batch_duplicates_agree(
    client: CheckClient,
    domain_names: Seq<Seq<char>>,
    fetched: Seq<Fetched>,
    results: Seq<CheckResultView>,
    i: int,
    j: int,
)
    requires
        domain_names.len() == fetched.len(),
        results.len() == domain_names.len(),
        forall|k: int|
            0 <= k < results.len() ==> client.spec_check_one(#[trigger] domain_names[k], fetched[k])
                == Ok::<CheckResultView, CheckErrorView>(results[k]),
        0 <= i < results.len(),
        0 <= j < results.len(),
        domain_names[i] == domain_names[j],
        fetched[i] == fetched[j],
    ensures
        results[i] == results[j],
        results[i].domain_name == domain_names[i],
        results[j].domain_name == domain_names[j],
{
    assert(client.spec_check_one(domain_names[i], fetched[i]) == Ok::<
        CheckResultView,
        CheckErrorView,
    >(results[i]));
    assert(client.spec_check_one(domain_names[j], fetched[j]) == Ok::<
        CheckResultView,
        CheckErrorView,
    >(results[j]));
    lemma_check_result_consistent(client, domain_names[i], fetched[i]);
}

/// Days left, counted from a later time, are fewer by at most the whole days
/// in between plus one, and never more.
proof fn lemma_days_drift(not_after: int, t1: int, t2: int)
    requires
        t1 <= t2,
    ensures
        spec_days_between(not_after, t2) <= spec_days_between(not_after, t1),
        spec_days_between(not_after, t1) - spec_days_between(not_after, t2) <= (t2 - t1) / 86400
            + 1,
{
    let d1 = not_after - t1;
    let d2 = not_after - t2;
    assert(d2 / 86400 <= d1 / 86400) by (nonlinear_arith)
        requires
            d2 <= d1,
    ;
    assert(d1 / 86400 - d2 / 86400 <= (d1 - d2) / 86400 + 1) by (nonlinear_arith)
        requires
            d2 <= d1,
    ;
}

} // verus!
