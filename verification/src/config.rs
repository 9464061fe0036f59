use std::time::Duration;

use vstd::prelude::*;

use crate::constants::{DEFAULT_MAX_RPS, DEFAULT_TIMEOUT_SECS};
use crate::errors::{duration_debug, duration_debug_text, opt_text, RedmineError};
use crate::text::{
    decimal, decimal_string, lemma_trim_end_char, str_debug, str_debug_text, trim_end_char,
    trim_end_slashes, IntoText,
};

verus! {

/// Name for what `Duration::from_secs` returns: the duration of `secs` whole
/// seconds. The same number of seconds always gives the same duration.
pub uninterp spec fn duration_from_secs(secs: u64) -> Duration;

/// `std::time::Duration::from_secs` builds the duration of `secs` seconds;
/// its result is named by `duration_from_secs`.
pub assume_specification[ Duration::from_secs ](secs: u64) -> (d: Duration)
    ensures
        d == duration_from_secs(secs),
;

/// Authentication method for the Redmine API.
#[derive(Debug, Clone, Copy, PartialEq, Eq, Structural)]
pub enum AuthMethod {
    /// Sends the key in the `X-Redmine-API-Key` header.
    Header,
}

impl Default for AuthMethod {
    fn default() -> (r: Self)
        ensures
            r == AuthMethod::Header,
    {
        AuthMethod::Header
    }
}

/// Configuration of the Redmine client, with defaults applied.
pub struct RedmineConfig {
    /// Normalised base URL (no trailing slash).
    pub base_url: String,
    /// API key sent in the `X-Redmine-API-Key` header; `None` for anonymous
    /// access to public resources.
    pub token: Option<String>,
    /// Authentication method (default: `Header`).
    pub auth_method: AuthMethod,
    /// User to impersonate, if any.
    pub switch_user: Option<String>,
    /// Timeout of HTTP requests (default: 30 s).
    pub timeout: Duration,
    /// Maximum number of requests per second (default: 10).
    pub max_rps: u32,
}

impl Clone for RedmineConfig {
    fn clone(&self) -> (r: Self)
        ensures
            r == *self,
    {
        RedmineConfig {
            base_url: self.base_url.clone(),
            token: self.token.clone(),
            auth_method: self.auth_method,
            switch_user: self.switch_user.clone(),
            timeout: self.timeout,
            max_rps: self.max_rps,
        }
    }
}

impl Default for RedmineConfig {
    fn default() -> (r: Self)
        ensures
            r.base_url@ == Seq::<char>::empty(),
            r.token is None,
            r.auth_method == AuthMethod::Header,
            r.switch_user is None,
            r.timeout == duration_from_secs(DEFAULT_TIMEOUT_SECS),
            r.max_rps == DEFAULT_MAX_RPS,
    {
        RedmineConfig {
            base_url: String::new(),
            token: None,
            auth_method: AuthMethod::default(),
            switch_user: None,
            timeout: Duration::from_secs(DEFAULT_TIMEOUT_SECS),
            max_rps: DEFAULT_MAX_RPS,
        }
    }
}

/// How an optional text prints with `{:?}`, given how the text itself prints.
pub open spec fn debug_option(v: Option<Seq<char>>) -> Seq<char> {
    match v {
        Some(t) => "Some("@ + t + ")"@,
        None => "None"@,
    }
}

/// The debugging text of a configuration, with the API key masked: each field
/// as `{:?}` prints it, the key shown as `"***"` when there is one.
pub open spec fn config_debug(c: RedmineConfig) -> Seq<char> {
    "RedmineConfig { base_url: "@ + str_debug(c.base_url@) + ", token: "@ + debug_option(
        if c.token is Some {
            Some("\"***\""@)
        } else {
            None
        },
    ) + ", auth_method: Header, switch_user: "@ + debug_option(
        match c.switch_user {
            Some(u) => Some(str_debug(u@)),
            None => None,
        },
    ) + ", timeout: "@ + duration_debug(c.timeout) + ", max_rps: "@ + decimal(c.max_rps as nat)
        + " }"@
}

impl RedmineConfig {
    /// Returns a builder that configures and validates a `RedmineConfig`.
    pub fn builder() -> (b: RedmineConfigBuilder)
        ensures
            b@ == BuilderFields::unset(),
    {
        RedmineConfigBuilder::default()
    }

    /// The text that debugging output shows of the configuration, with the API
    /// key masked.
    pub fn debug_text(&self) -> (r: String)
        ensures
            r@ == config_debug(*self),
    {
        let token = match &self.token {
            Some(_) => "Some(\"***\")".to_owned(),
            None => "None".to_owned(),
        };
        let user = match &self.switch_user {
            Some(u) => "Some(".to_owned().concat(str_debug_text(u.as_str()).as_str()).concat(")"),
            None => "None".to_owned(),
        };
        let r = "RedmineConfig { base_url: ".to_owned().concat(
            str_debug_text(self.base_url.as_str()).as_str(),
        ).concat(", token: ").concat(token.as_str()).concat(
            ", auth_method: Header, switch_user: ",
        ).concat(user.as_str()).concat(", timeout: ").concat(
            duration_debug_text(&self.timeout).as_str(),
        ).concat(", max_rps: ").concat(decimal_string(self.max_rps as u64).as_str()).concat(" }");
        proof {
            reveal_strlit("Some(\"***\")");
            reveal_strlit("Some(");
            reveal_strlit("\"***\"");
            reveal_strlit(")");
        }
        r
    }

    /// The base URL followed by `path`.
    pub fn api_url(&self, path: &str) -> (r: String)
        ensures
            r@ == self.base_url@ + path@,
    {
        self.base_url.clone().concat(path)
    }
}

/// What a builder has been given so far.
pub struct BuilderFields {
    pub base_url: Option<Seq<char>>,
    pub token: Option<Seq<char>>,
    pub auth_method: Option<AuthMethod>,
    pub switch_user: Option<Seq<char>>,
    pub timeout: Option<Duration>,
    pub max_rps: Option<u32>,
}

impl BuilderFields {
    /// Nothing given yet.
    pub open spec fn unset() -> BuilderFields {
        BuilderFields {
            base_url: None,
            token: None,
            auth_method: None,
            switch_user: None,
            timeout: None,
            max_rps: None,
        }
    }
}

/// Builder of `RedmineConfig`, validated when built.
#[derive(Debug, Clone)]
pub struct RedmineConfigBuilder {
    base_url: Option<String>,
    token: Option<String>,
    auth_method: Option<AuthMethod>,
    switch_user: Option<String>,
    timeout: Option<Duration>,
    max_rps: Option<u32>,
}

impl View for RedmineConfigBuilder {
    type V = BuilderFields;

    closed spec fn view(&self) -> BuilderFields {
        BuilderFields {
            base_url: opt_text(self.base_url),
            token: opt_text(self.token),
            auth_method: self.auth_method,
            switch_user: opt_text(self.switch_user),
            timeout: self.timeout,
            max_rps: self.max_rps,
        }
    }
}

impl Default for RedmineConfigBuilder {
    fn default() -> (r: Self)
        ensures
            r@ == BuilderFields::unset(),
    {
        RedmineConfigBuilder {
            base_url: None,
            token: None,
            auth_method: None,
            switch_user: None,
            timeout: None,
            max_rps: None,
        }
    }
}

/// Whether `r` is a configuration error with message `msg`.
pub open spec fn is_config_error<T>(r: Result<T, RedmineError>, msg: Seq<char>) -> bool {
    match r {
        Err(RedmineError::Config(m)) => m@ == msg,
        _ => false,
    }
}

/// The configuration that `build` makes of the fields `f`, whose base URL,
/// once its trailing slashes are removed, is `base_url`.
pub open spec fn built_from(c: RedmineConfig, f: BuilderFields, base_url: Seq<char>) -> bool {
    &&& c.base_url@ == base_url
    &&& opt_text(c.token) == f.token
    &&& c.auth_method == (match f.auth_method {
        Some(m) => m,
        None => AuthMethod::Header,
    })
    &&& opt_text(c.switch_user) == f.switch_user
    &&& c.timeout == (match f.timeout {
        Some(d) => d,
        None => duration_from_secs(DEFAULT_TIMEOUT_SECS),
    })
    &&& c.max_rps == (match f.max_rps {
        Some(n) => n,
        None => DEFAULT_MAX_RPS,
    })
}

impl RedmineConfigBuilder {
    /// Sets the base URL of the Redmine instance (required).
    pub fn base_url<T: IntoText>(self, url: T) -> (r: Self)
        ensures
            r@ == (BuilderFields { base_url: Some(url.text()), ..self@ }),
    {
        let mut b = self;
        b.base_url = Some(url.into_text());
        b
    }

    /// Sets the API key.
    pub fn token<T: IntoText>(self, token: T) -> (r: Self)
        ensures
            r@ == (BuilderFields { token: Some(token.text()), ..self@ }),
    {
        let mut b = self;
        b.token = Some(token.into_text());
        b
    }

    /// Sets the authentication method.
    pub fn auth_method(self, method: AuthMethod) -> (r: Self)
        ensures
            r@ == (BuilderFields { auth_method: Some(method), ..self@ }),
    {
        let mut b = self;
        b.auth_method = Some(method);
        b
    }

    /// Sets the user to impersonate (header `X-Redmine-Switch-User`).
    pub fn switch_user<T: IntoText>(self, user: T) -> (r: Self)
        ensures
            r@ == (BuilderFields { switch_user: Some(user.text()), ..self@ }),
    {
        let mut b = self;
        b.switch_user = Some(user.into_text());
        b
    }

    /// Sets the timeout of HTTP requests, in seconds.
    pub fn timeout_secs(self, secs: u64) -> (r: Self)
        ensures
            r@ == (BuilderFields { timeout: Some(duration_from_secs(secs)), ..self@ }),
    {
        let mut b = self;
        b.timeout = Some(Duration::from_secs(secs));
        b
    }

    /// Sets the maximum number of requests per second.
    pub fn max_rps(self, rps: u32) -> (r: Self)
        ensures
            r@ == (BuilderFields { max_rps: Some(rps), ..self@ }),
    {
        let mut b = self;
        b.max_rps = Some(rps);
        b
    }

    /// Builds the validated `RedmineConfig`.
    ///
    /// Fails with `RedmineError::Config` when no base URL was given, or when
    /// it is empty once its trailing slashes are removed.
    pub fn build(self) -> (r: Result<RedmineConfig, RedmineError>)
        ensures
            match self@.base_url {
                None => is_config_error(r, "base_url é obrigatória"@),
                Some(u) => if trim_end_char(u, '/').len() == 0 {
                    is_config_error(r, "base_url não pode estar vazia"@)
                } else {
                    r matches Ok(c) && built_from(c, self@, trim_end_char(u, '/'))
                },
            },
    {
        let base_url = match self.base_url {
            Some(u) => u,
            None => {
                return Err(RedmineError::Config("base_url é obrigatória".to_owned()));
            },
        };
        let base_url = trim_end_slashes(base_url.as_str());
        if base_url.as_str().is_empty() {
            return Err(RedmineError::Config("base_url não pode estar vazia".to_owned()));
        }
        let auth_method = match self.auth_method {
            Some(m) => m,
            None => AuthMethod::default(),
        };
        let timeout = match self.timeout {
            Some(d) => d,
            None => Duration::from_secs(DEFAULT_TIMEOUT_SECS),
        };
        let max_rps = match self.max_rps {
            Some(n) => n,
            None => DEFAULT_MAX_RPS,
        };
        Ok(
            RedmineConfig {
                base_url,
                token: self.token,
                auth_method,
                switch_user: self.switch_user,
                timeout,
                max_rps,
            },
        )
    }
}

/// A built configuration's base URL is the given one without its trailing
/// slashes: it is not empty, does not end in `/`, begins the given URL, and
/// building again from it gives it back unchanged.
pub proof fn lemma_built_base_url(given: Seq<char>)
    requires
        trim_end_char(given, '/').len() > 0,
    ensures
        ({
            let b = trim_end_char(given, '/');
            &&& b.last() != '/'
            &&& b == given.subrange(0, b.len() as int)
            &&& trim_end_char(b, '/') == b
        }),
{
    lemma_trim_end_char(given, '/');
}

} // verus!
