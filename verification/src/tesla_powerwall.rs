//! Decision logic of the gateway telemetry client: configuration, the
//! bounded connectivity wait, the cached-token authentication protocol, and
//! the assembly of a unified reading from the two telemetry endpoints.
//!
//! The HTTP requests themselves are made by the caller; this module decides,
//! from plain values, what to request next and what each response means.

use vstd::prelude::*;

verus! {

/// A failure of the telemetry client.
#[derive(Clone, Copy, Debug, PartialEq, Eq, Structural)]
pub enum PowerwallApiError {
    /// The gateway address is missing from the environment.
    Env,
    /// The gateway stayed unreachable for the whole retry budget.
    Connectivity,
    /// A login failed, or a second authorization failure followed the one
    /// permitted retry.
    Auth,
    /// The gateway answered a telemetry request with a status that the
    /// protocol does not handle.
    UnexpectedStatus(u16),
}

/// The bounded connectivity-wait budget: 300 attempts, 200 ms apart.
pub const CONNECTIVITY_ATTEMPTS: u32 = 300;

pub const CONNECTIVITY_INTERVAL_MILLIS: u64 = 200;

/// What the connectivity wait does after one probe of the status endpoint.
#[derive(Clone, Copy, Debug, PartialEq, Eq, Structural)]
pub enum WaitDecision {
    /// The gateway answered; the wait is over.
    Ready,
    /// Probe again after this fixed pause.
    RetryAfterMillis(u64),
    /// The whole retry budget is spent; connectivity failed.
    GiveUp,
}

/// Where the next telemetry request's bearer token comes from.
#[derive(Debug, PartialEq, Eq)]
pub enum TokenDecision {
    /// Use this cached token.
    UseCached(String),
    /// No usable token is cached; log in first.
    NeedLogin,
}

/// What one telemetry response means under the single-retry rule.
#[derive(Clone, Copy, Debug, PartialEq, Eq, Structural)]
pub enum FetchDecision {
    /// Success; decode the body.
    UseBody,
    /// The token was rejected for the first time: it is discarded, and the
    /// caller logs in freshly and retries this one request once.
    RetryAfterLogin,
    /// The session cannot continue.
    Fatal(PowerwallApiError),
}

/// Integer division truncated toward zero, as the device computes it.
pub open spec fn trunc_div(a: int, b: int) -> int {
    if a >= 0 {
        a / b
    } else {
        -((-a) / b)
    }
}

/// The telemetry client's own state: the gateway address and the cached
/// bearer token. The caller performs the HTTP requests that these decisions
/// call for.
pub struct PowerwallApi {
    ip_address: String,
    api_token: Option<String>,
}

impl PowerwallApi {
    /// The gateway host this client addresses.
    pub closed spec fn spec_ip_address(&self) -> Seq<char> {
        self.ip_address@
    }

    /// The cached bearer token, if one is held.
    pub closed spec fn spec_token(&self) -> Option<Seq<char>> {
        match self.api_token {
            Option::Some(ref t) => Some(t@),
            Option::None => None,
        }
    }

    /// Builds the client from the gateway address as read from the
    /// environment; an absent address is a configuration error and nothing
    /// is constructed.
    pub fn new(ip_address: Option<String>) -> (r: Result<PowerwallApi, PowerwallApiError>)
        ensures
            match ip_address {
                Option::Some(addr) => {
                    &&& r matches Ok(api)
                    &&& r matches Ok(api) ==> api.spec_ip_address() == addr@ && api.spec_token()
                        is None
                },
                Option::None => r == Result::<PowerwallApi, PowerwallApiError>::Err(
                    PowerwallApiError::Env,
                ),
            },
    {
        match ip_address {
            Some(addr) => Ok(PowerwallApi { ip_address: addr, api_token: None }),
            None => Err(PowerwallApiError::Env),
        }
    }

    /// The gateway host, for building request URLs.
    pub fn ip_address(&self) -> (a: &str)
        ensures
            a@ == self.spec_ip_address(),
    {
        self.ip_address.as_str()
    }

    /// One step of the connectivity wait: after probe number `attempt` of
    /// the status endpoint, either the gateway answered, or the wait pauses
    /// the fixed 200 ms before the next probe, or the 300-attempt budget is
    /// spent and the wait gives up. Startup latency is thereby bounded.
    pub fn wait_for_connection(attempt: u32, success: bool) -> (d: WaitDecision)
        requires
            1 <= attempt <= CONNECTIVITY_ATTEMPTS,
        ensures
            success ==> d == WaitDecision::Ready,
            !success && attempt < CONNECTIVITY_ATTEMPTS ==> d == WaitDecision::RetryAfterMillis(
                CONNECTIVITY_INTERVAL_MILLIS as u64,
            ),
            !success && attempt == CONNECTIVITY_ATTEMPTS ==> d == WaitDecision::GiveUp,
    {
        if success {
            WaitDecision::Ready
        } else if attempt < CONNECTIVITY_ATTEMPTS {
            WaitDecision::RetryAfterMillis(CONNECTIVITY_INTERVAL_MILLIS)
        } else {
            WaitDecision::GiveUp
        }
    }

    /// Runs the whole connectivity wait over a given sequence of probe
    /// outcomes: exactly the probes before the first success are made, at
    /// most 300 of them at 200 ms spacing, so the wait sleeps at most
    /// 59 800 ms in all and never blocks indefinitely; only a budget spent
    /// entirely on failures surfaces the connectivity error.
    pub fn run_connectivity_wait(probes: &Vec<bool>) -> (r: (u32, u64, Result<
        (),
        PowerwallApiError,
    >))
        requires
            probes@.len() >= CONNECTIVITY_ATTEMPTS,
        ensures
            1 <= r.0 <= CONNECTIVITY_ATTEMPTS,
            r.1 == CONNECTIVITY_INTERVAL_MILLIS * (r.0 - 1),
            r.1 <= 59800,
            forall|i: int| 0 <= i < r.0 - 1 ==> !probes@[i],
            r.2 is Ok <==> (exists|i: int| 0 <= i < CONNECTIVITY_ATTEMPTS && probes@[i]),
            r.2 is Ok ==> probes@[r.0 - 1],
            r.2 is Err ==> r.2 == Result::<(), PowerwallApiError>::Err(
                PowerwallApiError::Connectivity,
            ) && r.0 == CONNECTIVITY_ATTEMPTS,
    {
        let mut attempt: u32 = 1;
        let mut slept: u64 = 0;
        loop
            invariant
                1 <= attempt <= CONNECTIVITY_ATTEMPTS,
                slept == CONNECTIVITY_INTERVAL_MILLIS * (attempt - 1),
                probes@.len() >= CONNECTIVITY_ATTEMPTS,
                forall|i: int| 0 <= i < attempt - 1 ==> !probes@[i],
            decreases CONNECTIVITY_ATTEMPTS - attempt,
        {
            let success = probes[(attempt - 1) as usize];
            match PowerwallApi::wait_for_connection(attempt, success) {
                WaitDecision::Ready => {
                    return (attempt, slept, Ok(()));
                },
                WaitDecision::RetryAfterMillis(ms) => {
                    slept = slept + ms;
                    attempt = attempt + 1;
                },
                WaitDecision::GiveUp => {
                    assert forall|i: int|
                        0 <= i < CONNECTIVITY_ATTEMPTS implies !probes@[i] by {
                        if i < attempt - 1 {
                        } else {
                            assert(i == attempt - 1);
                        }
                    }
                    return (attempt, slept, Err(PowerwallApiError::Connectivity));
                },
            }
        }
    }

    /// Decides where the next request's token comes from: the cache is used
    /// unless a fresh login is forced or nothing is cached.
    pub fn token_request(&self, force: bool) -> (d: TokenDecision)
        ensures
            match d {
                TokenDecision::UseCached(t) => !force && self.spec_token() == Some(t@),
                TokenDecision::NeedLogin => force || self.spec_token() is None,
            },
    {
        if !force {
            if let Some(t) = &self.api_token {
                return TokenDecision::UseCached(t.clone());
            }
        }
        TokenDecision::NeedLogin
    }

    /// Records the outcome of a login: a successful response that carried a
    /// token caches and returns it; a non-success response, or one without a
    /// token, is a fatal authentication error and changes nothing.
    pub fn on_login_response(&mut self, success: bool, token: Option<String>) -> (r: Result<
        String,
        PowerwallApiError,
    >)
        ensures
            final(self).spec_ip_address() == old(self).spec_ip_address(),
            match token {
                Option::Some(t) => if success {
                    &&& r matches Ok(rt)
                    &&& r matches Ok(rt) ==> rt@ == t@
                    &&& final(self).spec_token() == Some(t@)
                } else {
                    &&& r == Result::<String, PowerwallApiError>::Err(PowerwallApiError::Auth)
                    &&& final(self).spec_token() == old(self).spec_token()
                },
                Option::None => {
                    &&& r == Result::<String, PowerwallApiError>::Err(PowerwallApiError::Auth)
                    &&& final(self).spec_token() == old(self).spec_token()
                },
            },
    {
        if !success {
            return Err(PowerwallApiError::Auth);
        }
        match token {
            Some(t) => {
                self.api_token = Some(t.clone());
                Ok(t)
            },
            None => Err(PowerwallApiError::Auth),
        }
    }

    /// Decides what one telemetry response means: success is decoded; the
    /// first authorization failure discards the cached token and grants
    /// exactly one fresh-login retry; a second authorization failure is
    /// fatal, as is any other status.
    pub fn on_fetch_status(&mut self, status: u16, retried: bool) -> (d: FetchDecision)
        ensures
            final(self).spec_ip_address() == old(self).spec_ip_address(),
            status == 200 ==> d == FetchDecision::UseBody && final(self).spec_token()
                == old(self).spec_token(),
            status == 401 && !retried ==> d == FetchDecision::RetryAfterLogin
                && final(self).spec_token() is None,
            status == 401 && retried ==> d == FetchDecision::Fatal(PowerwallApiError::Auth)
                && final(self).spec_token() == old(self).spec_token(),
            status != 200 && status != 401 ==> d == FetchDecision::Fatal(
                PowerwallApiError::UnexpectedStatus(status),
            ) && final(self).spec_token() == old(self).spec_token(),
    {
        if status == 200 {
            FetchDecision::UseBody
        } else if status == 401 {
            if !retried {
                self.api_token = None;
                FetchDecision::RetryAfterLogin
            } else {
                FetchDecision::Fatal(PowerwallApiError::Auth)
            }
        } else {
            FetchDecision::Fatal(PowerwallApiError::UnexpectedStatus(status))
        }
    }
}

/// Normalizes the gateway's battery level for its reserved 5% floor:
/// `level = (raw - 5%) / 0.95`, in hundredths of a percent and truncated
/// toward zero, so the gateway's usable 0–95% spans the user-facing scale.
pub fn normalize_battery_level(raw_centipercent: i64) -> (level: i64)
    requires
        -400000000000000000 <= raw_centipercent <= 400000000000000000,
    ensures
        level == trunc_div((raw_centipercent - 500) * 20, 19),
{
    let scaled: i64 = (raw_centipercent - 500) * 20;
    if scaled >= 0 {
        ((scaled as u64) / 19) as i64
    } else {
        -((((-scaled) as u64) / 19) as i64)
    }
}

impl crate::solar_status::SolarStatus {
    /// Assembles the unified reading from the two endpoint bodies: powers in
    /// whole watts as the caller truncated them, and the raw battery level
    /// normalized for the reserved floor.
    pub fn from_raw(
        solar_power_watts: i32,
        battery_power_watts: i32,
        house_power_watts: i32,
        grid_power_watts: i32,
        raw_battery_centipercent: i64,
    ) -> (st: crate::solar_status::SolarStatus)
        requires
            -400000000000000000 <= raw_battery_centipercent <= 400000000000000000,
        ensures
            st.solar_power_watts == solar_power_watts,
            st.battery_power_watts == battery_power_watts,
            st.house_power_watts == house_power_watts,
            st.grid_power_watts == grid_power_watts,
            st.battery_level_centipercent == trunc_div(
                (raw_battery_centipercent - 500) * 20,
                19,
            ),
    {
        crate::solar_status::SolarStatus {
            solar_power_watts,
            battery_power_watts,
            house_power_watts,
            grid_power_watts,
            battery_level_centipercent: normalize_battery_level(raw_battery_centipercent),
        }
    }
}

} // verus!
