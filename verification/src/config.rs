//! The deployment environment and the server settings read from it.
use vstd::prelude::*;

use crate::text::{ascii_lower, eq_ignore_ascii_case, owned, parse_in, parse_int};

verus! {

/// The default port of the API server.
pub const DEFAULT_PORT: u16 = 3701;

/// The default frontend origin allowed by CORS.
pub const DEFAULT_FRONTEND_ORIGIN: &'static str = "http://localhost:3702";

/// The environment assumed when none is set: production, so that a missing
/// setting never opens the developer endpoints.
pub const DEFAULT_APP_ENV: &'static str = "production";

/// The deployment environment.
#[derive(Debug, Clone, Copy, PartialEq, Eq, Structural)]
pub enum AppEnv {
    /// Cookies not `Secure`, developer endpoints open.
    Development,
    /// Cookies `Secure`, developer endpoints closed.
    Production,
}

/// Only `development` and `test` (ASCII case-insensitive) name the
/// development environment; anything else is production.
pub open spec fn app_env_of(s: Seq<char>) -> AppEnv {
    if ascii_lower(s) == "development"@ || ascii_lower(s) == "test"@ {
        AppEnv::Development
    } else {
        AppEnv::Production
    }
}

impl AppEnv {
    /// Parses the environment name, failing safe to production.
    pub fn from_str_lossy(s: &str) -> (r: AppEnv)
        ensures
            r == app_env_of(s@),
    {
        proof {
            reveal_strlit("development");
            reveal_strlit("test");
        }
        assert(ascii_lower("development"@) =~= "development"@);
        assert(ascii_lower("test"@) =~= "test"@);
        if eq_ignore_ascii_case(s, "development") || eq_ignore_ascii_case(s, "test") {
            AppEnv::Development
        } else {
            AppEnv::Production
        }
    }

    /// Whether session and CSRF cookies carry `Secure` (in production).
    pub fn cookies_secure(self) -> (r: bool)
        ensures
            r == (self == AppEnv::Production),
    {
        match self {
            AppEnv::Production => true,
            AppEnv::Development => false,
        }
    }

    /// Whether the developer endpoints are open (outside production).
    pub fn dev_endpoints_enabled(self) -> (r: bool)
        ensures
            r == (self == AppEnv::Development),
    {
        match self {
            AppEnv::Development => true,
            AppEnv::Production => false,
        }
    }
}

/// The developer endpoints are open exactly where cookies are not `Secure`,
/// and only an explicit development or test setting opens them.
pub proof fn law_dev_endpoints_fail_safe(s: Seq<char>)
    ensures
        (app_env_of(s) == AppEnv::Development) <==> (app_env_of(s) != AppEnv::Production),
        app_env_of(s) == AppEnv::Development ==> ascii_lower(s) == "development"@ || ascii_lower(s) == "test"@,
{
}

/// The port text read from the environment: `APP_PORT` when set, else `PORT`.
pub open spec fn port_text(app_port: Option<Seq<char>>, port: Option<Seq<char>>) -> Option<Seq<char>> {
    match app_port {
        Some(p) => Some(p),
        None => port,
    }
}

/// The port the server binds: the port text as a `u16`, else the default.
pub fn resolve_port(app_port: Option<&str>, port: Option<&str>) -> (r: u16)
    ensures
        r == match port_text(
            match app_port {
                Some(p) => Some(p@),
                None => None,
            },
            match port {
                Some(p) => Some(p@),
                None => None,
            },
        ) {
            Some(t) => match parse_in(t, false, 0, 65535) {
                Some(v) => v as u16,
                None => DEFAULT_PORT,
            },
            None => DEFAULT_PORT,
        },
{
    let t = match app_port {
        Some(p) => Some(p),
        None => port,
    };
    match t {
        Some(s) => {
            let v = crate::text::chars_of(s);
            match crate::text::parse_int_exec(&v, false, 0, 65535) {
                Some(x) => x as u16,
                None => DEFAULT_PORT,
            }
        },
        None => DEFAULT_PORT,
    }
}

/// The CORS origin: the configured one when set and not empty, else the
/// default.
pub fn resolve_frontend_origin(configured: Option<&str>) -> (r: String)
    ensures
        r@ == match configured {
            Some(o) => if o@.len() > 0 {
                o@
            } else {
                DEFAULT_FRONTEND_ORIGIN@
            },
            None => DEFAULT_FRONTEND_ORIGIN@,
        },
{
    match configured {
        Some(o) => if crate::text::chars_of(o).len() > 0 {
            owned(o)
        } else {
            owned(DEFAULT_FRONTEND_ORIGIN)
        },
        None => owned(DEFAULT_FRONTEND_ORIGIN),
    }
}

/// The environment: the configured name when set and not empty, else the
/// default, parsed failing safe.
pub fn resolve_app_env(configured: Option<&str>) -> (r: AppEnv)
    ensures
        r == match configured {
            Some(s) => if s@.len() > 0 {
                app_env_of(s@)
            } else {
                app_env_of(DEFAULT_APP_ENV@)
            },
            None => app_env_of(DEFAULT_APP_ENV@),
        },
{
    match configured {
        Some(s) => if crate::text::chars_of(s).len() > 0 {
            AppEnv::from_str_lossy(s)
        } else {
            AppEnv::from_str_lossy(DEFAULT_APP_ENV)
        },
        None => AppEnv::from_str_lossy(DEFAULT_APP_ENV),
    }
}

/// The database address: the configured one when set and not empty.
pub fn resolve_database_url(configured: Option<String>) -> (r: Option<String>)
    ensures
        crate::listing::opt_str_view(r) == match configured {
            Some(s) => if s@.len() > 0 {
                Some(s@)
            } else {
                None
            },
            None => None,
        },
{
    match configured {
        Some(s) => if crate::text::chars_of(s.as_str()).len() > 0 {
            Some(s)
        } else {
            None
        },
        None => None,
    }
}

} // verus!
