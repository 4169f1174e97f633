use vstd::prelude::*;

verus! {

/// Settings shared by every call that goes through one agent. They are never
/// changed once the agent holds them.
#[derive(Debug, Clone)]
pub struct AgentConfig {
    /// Refuse any request whose URI scheme is not https.
    pub https_only: bool,
    /// Sent as the user-agent header unless empty.
    pub user_agent: String,
    /// Turn a final 4xx or 5xx response into an error.
    pub http_status_as_error: bool,
    /// How many redirect hops one call may follow.
    pub max_redirects: u32,
    /// Sent as the accept-encoding header when compression is configured.
    pub accept_encoding: Option<String>,
}

pub const DEFAULT_MAX_REDIRECTS: u32 = 10;

impl AgentConfig {
    /// The settings an agent gets when none are given: plain http allowed, no
    /// user-agent header, error statuses reported as errors, up to ten
    /// redirects, no compression.
    pub open spec fn is_default(&self) -> bool {
        &&& !self.https_only
        &&& self.user_agent@.len() == 0
        &&& self.http_status_as_error
        &&& self.max_redirects == DEFAULT_MAX_REDIRECTS
        &&& self.accept_encoding.is_none()
    }

    pub fn default_config() -> (r: AgentConfig)
        ensures
            r.is_default(),
    {
        AgentConfig {
            https_only: false,
            user_agent: String::new(),
            http_status_as_error: true,
            max_redirects: DEFAULT_MAX_REDIRECTS,
            accept_encoding: None,
        }
    }
}

impl Default for AgentConfig {
    fn default() -> (r: AgentConfig)
        ensures
            r.is_default(),
    {
        AgentConfig::default_config()
    }
}

} // verus!
