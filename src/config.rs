//! Connection settings of a store, and how they are layered over the
//! defaults of the environment.

use vstd::prelude::*;

verus! {

/// The region used where neither the store nor the environment names one.
pub const FALLBACK_REGION: &'static str = "us-west-2";

/// The text of an optional string.
pub open spec fn opt_text(o: Option<String>) -> Option<Seq<char>> {
    match o {
        Some(s) => Some(s@),
        None => None,
    }
}

/// Static credential material.
#[derive(Debug)]
pub struct Credentials {
    pub access_key_id: String,
    pub secret_access_key: String,
    pub session_token: Option<String>,
    pub provider_name: String,
}

pub struct CredentialsView {
    pub access_key_id: Seq<char>,
    pub secret_access_key: Seq<char>,
    pub session_token: Option<Seq<char>>,
    pub provider_name: Seq<char>,
}

impl View for Credentials {
    type V = CredentialsView;

    open spec fn view(&self) -> CredentialsView {
        CredentialsView {
            access_key_id: self.access_key_id@,
            secret_access_key: self.secret_access_key@,
            session_token: opt_text(self.session_token),
            provider_name: self.provider_name@,
        }
    }
}

/// How often the provider client tries a call before it gives up.
#[derive(Debug, Clone, Copy, PartialEq, Eq)]
pub struct RetryPolicy {
    pub max_attempts: u32,
}

/// Time limits of the provider client, in milliseconds; none where the
/// client's default holds.
#[derive(Debug, Clone, Copy, PartialEq, Eq)]
pub struct TimeoutPolicy {
    pub api_call_ms: Option<u64>,
    pub api_call_attempt_ms: Option<u64>,
    pub connect_ms: Option<u64>,
    pub read_ms: Option<u64>,
}

/// The connection settings of a store. Each one is optional: an absent one
/// falls through to what the environment provides.
#[derive(Debug)]
pub struct StoreConfig {
    pub credentials: Option<Credentials>,
    pub region: Option<String>,
    pub endpoint: Option<String>,
    pub retry: Option<RetryPolicy>,
    pub timeout: Option<TimeoutPolicy>,
}

pub struct StoreConfigView {
    pub credentials: Option<CredentialsView>,
    pub region: Option<Seq<char>>,
    pub endpoint: Option<Seq<char>>,
    pub retry: Option<RetryPolicy>,
    pub timeout: Option<TimeoutPolicy>,
}

impl View for StoreConfig {
    type V = StoreConfigView;

    open spec fn view(&self) -> StoreConfigView {
        StoreConfigView {
            credentials: match self.credentials {
                Some(c) => Some(c@),
                None => None,
            },
            region: opt_text(self.region),
            endpoint: opt_text(self.endpoint),
            retry: self.retry,
            timeout: self.timeout,
        }
    }
}

/// A copy of an optional string.
pub fn copy_opt_string(o: &Option<String>) -> (r: Option<String>)
    ensures
        opt_text(r) == opt_text(*o),
{
    match o {
        Some(s) => Some(s.clone()),
        None => None,
    }
}

impl Credentials {
    /// A copy of these credentials.
    pub fn copy(&self) -> (r: Credentials)
        ensures
            r@ == self@,
    {
        Credentials {
            access_key_id: self.access_key_id.clone(),
            secret_access_key: self.secret_access_key.clone(),
            session_token: copy_opt_string(&self.session_token),
            provider_name: self.provider_name.clone(),
        }
    }
}

impl StoreConfig {
    /// A configuration that overrides nothing.
    pub fn empty() -> (r: StoreConfig)
        ensures
            r@.credentials is None,
            r@.region is None,
            r@.endpoint is None,
            r@.retry is None,
            r@.timeout is None,
    {
        StoreConfig { credentials: None, region: None, endpoint: None, retry: None, timeout: None }
    }

    /// A copy of this configuration, equal to it in every setting.
    pub fn copy(&self) -> (r: StoreConfig)
        ensures
            r@ == self@,
    {
        let credentials = match &self.credentials {
            Some(c) => Some(c.copy()),
            None => None,
        };
        StoreConfig {
            credentials,
            region: copy_opt_string(&self.region),
            endpoint: copy_opt_string(&self.endpoint),
            retry: self.retry,
            timeout: self.timeout,
        }
    }

    /// The region that a client of this store uses: its own where it names
    /// one, else the one the environment provides, else the fallback region.
    pub fn resolve_region(&self, ambient: &Option<String>) -> (r: String)
        ensures
            r@ == region_choice(self@.region, opt_text(*ambient)),
    {
        match &self.region {
            Some(region) => region.clone(),
            None => match ambient {
                Some(region) => region.clone(),
                None => FALLBACK_REGION.to_owned(),
            },
        }
    }
}

/// The first of the explicit region, the environment's region and the
/// fallback region that is there.
pub open spec fn region_choice(explicit: Option<Seq<char>>, ambient: Option<Seq<char>>) -> Seq<char> {
    match explicit {
        Some(r) => r,
        None => match ambient {
            Some(r) => r,
            None => FALLBACK_REGION@,
        },
    }
}

} // verus!
