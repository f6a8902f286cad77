//! Read-only monitor configuration: the required target URL and the
//! optional webhook URL.

use vstd::prelude::*;

verus! {

/// The one fatal configuration error: the target URL is missing (absent or
/// empty), so a tick must abort before any probe is attempted.
#[derive(Clone, Copy, Debug, PartialEq, Eq, Structural)]
pub enum ConfigError {
    MissingTargetUrl,
}

/// Read-only configuration for the monitor. The target URL is required and
/// non-empty; the webhook URL is optional, and its absence only disables
/// the notification step.
#[derive(Debug)]
pub struct HealthCheckConfig {
    pub target_url: String,
    pub webhook_url: Option<String>,
}

/// The characters of an optional URL, for contracts that compare two
/// optional strings.
pub open spec fn opt_url_view(u: Option<String>) -> Option<Seq<char>> {
    match u {
        Option::Some(s) => Option::Some(s@),
        Option::None => Option::None,
    }
}

impl HealthCheckConfig {
    /// A well-formed configuration has a non-empty target URL.
    pub open spec fn wf(&self) -> bool {
        self.target_url@.len() > 0
    }

    /// Builds a configuration from externally supplied values. Fails exactly
    /// when the target URL is absent or empty; the webhook URL is taken as
    /// given, present or not.
    pub fn new(target_url: Option<String>, webhook_url: Option<String>) -> (r: Result<
        HealthCheckConfig,
        ConfigError,
    >)
        ensures
            r is Ok <==> (target_url matches Some(t) && t@.len() > 0),
            r matches Ok(c) ==> {
                &&& c.wf()
                &&& c.target_url@ == target_url.unwrap()@
                &&& opt_url_view(c.webhook_url) == opt_url_view(webhook_url)
            },
            r matches Err(e) ==> e == ConfigError::MissingTargetUrl,
    {
        match target_url {
            Some(t) => {
                if t.as_str().is_empty() {
                    Err(ConfigError::MissingTargetUrl)
                } else {
                    Ok(HealthCheckConfig { target_url: t, webhook_url })
                }
            },
            None => Err(ConfigError::MissingTargetUrl),
        }
    }
}

} // verus!
