use vstd::prelude::*;
use crate::probe::{fetch_status, outcome_ok, MAX_TIMEOUT_SEC};

verus! {

/// The hysteresis step: a success decays the count by one (never below zero),
/// a failure raises it by one; the result is clamped to `[0, ceiling]`.
pub open spec fn next_fail_count(f: int, ok: bool, ceiling: int) -> int {
    let raw = if ok {
        if f == 0 {
            0
        } else {
            f - 1
        }
    } else {
        f + 1
    };
    if raw > ceiling {
        ceiling
    } else {
        raw
    }
}

/// A check is healthy while its fail count is strictly below the healthy threshold.
pub open spec fn healthy(fail_count: int, healthy_threshold: int) -> bool {
    fail_count < healthy_threshold
}

/// A check is due on every epoch second that is an exact multiple of its interval.
pub open spec fn due(now: int, interval: int) -> bool {
    now % interval == 0
}

/// The probe target: `http://{domain}:{port}{path}`.
pub open spec fn url_of(domain: Seq<char>, port: Seq<char>, path: Seq<char>) -> Seq<char> {
    seq!['h', 't', 't', 'p', ':', '/', '/'] + domain + seq![':'] + port + path
}

/// The fail count of a freshly loaded check.
pub fn default_fail_count() -> (r: u64)
    ensures
        r == 0,
{
    0
}

/// Reasons a check definition is refused when it is loaded.
#[derive(Debug, Clone, Copy, PartialEq, Eq, Structural)]
pub enum ConfigError {
    /// The polling interval is zero, so no epoch second could be tested against it.
    ZeroInterval,
    /// The fail-count ceiling (`unhealthy_threshold`) lies below `healthy_threshold`.
    CeilingBelowHealthyThreshold,
    /// The probe timeout exceeds `MAX_TIMEOUT_SEC`.
    TimeoutTooLarge,
}

/// One monitored endpoint.
///
/// `unhealthy_threshold` serves only as the ceiling of `fail_count`; the
/// healthy/unhealthy classification is decided by `healthy_threshold` alone.
/// Loading refuses a ceiling below the healthy threshold.
pub struct HttpCheck {
    /// The domain this check will be hitting
    pub domain: String,
    /// Path on the domain to hit
    pub path: String,
    /// The port for the domain
    pub port: String,
    pub timeout_sec: u64,
    pub check_interval_sec: u64,
    pub healthy_threshold: u64,
    pub unhealthy_threshold: u64,
    pub fail_count: u64,
}

impl HttpCheck {
    /// The load-time invariant of a check.
    pub open spec fn wf(&self) -> bool {
        &&& self.check_interval_sec > 0
        &&& self.timeout_sec <= MAX_TIMEOUT_SEC
        &&& self.healthy_threshold <= self.unhealthy_threshold
        &&& self.fail_count <= self.unhealthy_threshold
    }

    /// Validates a check definition; its fail count starts at zero.
    pub fn new(
        domain: String,
        path: String,
        port: String,
        timeout_sec: u64,
        check_interval_sec: u64,
        healthy_threshold: u64,
        unhealthy_threshold: u64,
    ) -> (r: Result<HttpCheck, ConfigError>)
        ensures
            check_interval_sec == 0 <==> r == Err::<HttpCheck, ConfigError>(
                ConfigError::ZeroInterval,
            ),
            (check_interval_sec > 0 && timeout_sec > MAX_TIMEOUT_SEC) <==> r == Err::<
                HttpCheck,
                ConfigError,
            >(ConfigError::TimeoutTooLarge),
            (check_interval_sec > 0 && timeout_sec <= MAX_TIMEOUT_SEC && unhealthy_threshold
                < healthy_threshold) <==> r == Err::<
                HttpCheck,
                ConfigError,
            >(ConfigError::CeilingBelowHealthyThreshold),
            r matches Ok(c) ==> {
                &&& c.wf()
                &&& c.domain == domain
                &&& c.path == path
                &&& c.port == port
                &&& c.timeout_sec == timeout_sec
                &&& c.check_interval_sec == check_interval_sec
                &&& c.healthy_threshold == healthy_threshold
                &&& c.unhealthy_threshold == unhealthy_threshold
                &&& c.fail_count == 0
            },
    {
        if check_interval_sec == 0 {
            Err(ConfigError::ZeroInterval)
        } else if timeout_sec > MAX_TIMEOUT_SEC {
            Err(ConfigError::TimeoutTooLarge)
        } else if unhealthy_threshold < healthy_threshold {
            Err(ConfigError::CeilingBelowHealthyThreshold)
        } else {
            Ok(
                HttpCheck {
                    domain,
                    path,
                    port,
                    timeout_sec,
                    check_interval_sec,
                    healthy_threshold,
                    unhealthy_threshold,
                    fail_count: default_fail_count(),
                },
            )
        }
    }

    /// An independent copy of this check, field for field.
    pub fn duplicate(&self) -> (r: HttpCheck)
        ensures
            r == *self,
    {
        HttpCheck {
            domain: self.domain.clone(),
            path: self.path.clone(),
            port: self.port.clone(),
            timeout_sec: self.timeout_sec,
            check_interval_sec: self.check_interval_sec,
            healthy_threshold: self.healthy_threshold,
            unhealthy_threshold: self.unhealthy_threshold,
            fail_count: self.fail_count,
        }
    }

    pub fn get_full_url(&self) -> (r: String)
        ensures
            r@ == url_of(self.domain@, self.port@, self.path@),
    {
        let mut url = String::from_str("http://");
        url.append(self.domain.as_str());
        url.append(":");
        url.append(self.port.as_str());
        url.append(self.path.as_str());
        proof {
            reveal_strlit("http://");
            reveal_strlit(":");
            assert(url@ =~= url_of(self.domain@, self.port@, self.path@));
        }
        url
    }

    /// The fail count that follows the given probe outcome.
    pub fn fail_count_after(&self, ok: bool) -> (r: u64)
        ensures
            r == next_fail_count(self.fail_count as int, ok, self.unhealthy_threshold as int),
    {
        let f = self.fail_count;
        let ceiling = self.unhealthy_threshold;
        if ok {
            let raw: u64 = if f == 0 {
                0
            } else {
                f - 1
            };
            if raw > ceiling {
                ceiling
            } else {
                raw
            }
        } else if f >= ceiling {
            ceiling
        } else {
            f + 1
        }
    }

    /// Probes this check's URL once, with its timeout.
    pub fn is_ok(&self) -> (ok: bool)
        requires
            self.timeout_sec <= MAX_TIMEOUT_SEC,
    {
        outcome_ok(fetch_status(&self.get_full_url(), self.timeout_sec))
    }

    /// Probes this check once and returns the fail count that follows the
    /// outcome, whichever it was; the check itself is left unchanged.
    pub fn get_the_new_fail_count(&self) -> (r: u64)
        requires
            self.timeout_sec <= MAX_TIMEOUT_SEC,
        ensures
            r == next_fail_count(self.fail_count as int, true, self.unhealthy_threshold as int)
                || r == next_fail_count(
                self.fail_count as int,
                false,
                self.unhealthy_threshold as int,
            ),
    {
        let ok = self.is_ok();
        self.fail_count_after(ok)
    }

    pub fn fail_count(&self) -> (r: u64)
        ensures
            r == self.fail_count,
    {
        self.fail_count
    }

    /// Replaces the fail count; every other field is kept.
    pub fn set_the_new_fail_count(&mut self, new_fail_count: u64)
        ensures
            *final(self) == (HttpCheck { fail_count: new_fail_count, ..*old(self) }),
    {
        self.fail_count = new_fail_count;
    }

    pub fn is_healthy(&self) -> (r: bool)
        ensures
            r == healthy(self.fail_count as int, self.healthy_threshold as int),
    {
        self.fail_count < self.healthy_threshold
    }

    /// Whether this check is probed at epoch second `now`.
    pub fn is_due(&self, now: u64) -> (r: bool)
        requires
            self.check_interval_sec > 0,
        ensures
            r == due(now as int, self.check_interval_sec as int),
    {
        now % self.check_interval_sec == 0
    }
}

} // verus!
