//! Process-wide configuration.
use vstd::prelude::*;

verus! {

/// Port the server listens on when none is configured.
pub const DEFAULT_PORT: u16 = 8080;

#[derive(Clone, Debug)]
pub struct AppConfig {
    pub database_url: String,
    pub database_auth_token: Option<String>,
    pub jwt_secret: String,
    pub backend_port: u16,
    pub frontend_url: String,
}

impl AppConfig {
    /// The configuration from the values found: an empty database
    /// credential counts as none; the port defaults to 8080 and the
    /// frontend origin to `http://localhost:3000`.
    pub fn from_values(
        database_url: String,
        database_auth_token: Option<String>,
        jwt_secret: String,
        backend_port: Option<u16>,
        frontend_url: Option<String>,
    ) -> (r: AppConfig)
        ensures
            r.database_url == database_url,
            r.jwt_secret == jwt_secret,
            match database_auth_token {
                Some(t) => if t@.len() == 0 {
                    r.database_auth_token is None
                } else {
                    r.database_auth_token == Some(t)
                },
                None => r.database_auth_token is None,
            },
            r.backend_port == match backend_port {
                Some(p) => p,
                None => DEFAULT_PORT,
            },
            r.frontend_url@ == match frontend_url {
                Some(u) => u@,
                None => "http://localhost:3000"@,
            },
    {
        let database_auth_token = match database_auth_token {
            Some(t) => if t.as_str().is_empty() {
                None
            } else {
                Some(t)
            },
            None => None,
        };
        let backend_port = match backend_port {
            Some(p) => p,
            None => DEFAULT_PORT,
        };
        let frontend_url = match frontend_url {
            Some(u) => u,
            None => String::from_str("http://localhost:3000"),
        };
        AppConfig { database_url, database_auth_token, jwt_secret, backend_port, frontend_url }
    }
}

} // verus!
