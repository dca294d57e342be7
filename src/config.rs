use vstd::prelude::*;

use crate::error::{msg, AppError, AppResult};

verus! {

/// Runtime settings of the service.
#[derive(Debug, Clone)]
pub struct AppConfig {
    pub database_url: String,
    pub server_host: String,
    pub server_port: u16,
    pub environment: String,
    pub supabase_url: String,
    pub supabase_jwt_secret: String,
}

/// What `str::parse::<u16>` reads from a text.
pub uninterp spec fn puerto_de(s: Seq<char>) -> Option<u16>;

/// Relies on `str::parse::<u16>`: the port number written in a text, if it
/// is one; the result depends on the characters alone.
#[verifier::external_body]
fn leer_puerto(s: &str) -> (r: Option<u16>)
    ensures
        r == puerto_de(s@),
{
    s.parse::<u16>().ok()
}

fn valor_o(o: Option<String>, defecto: &str) -> (r: String)
    ensures
        r@ == match o {
            Some(x) => x@,
            None => defecto@,
        },
{
    match o {
        Some(x) => x,
        None => defecto.to_owned(),
    }
}

impl AppConfig {
    /// Builds the settings from the raw values of the environment. The
    /// database URL and the token secret are required; host, port,
    /// environment and Supabase URL fall back to `0.0.0.0`, `3000`,
    /// `development` and the empty text.
    pub fn from_values(
        database_url: Option<String>,
        server_host: Option<String>,
        server_port: Option<String>,
        environment: Option<String>,
        supabase_url: Option<String>,
        supabase_jwt_secret: Option<String>,
    ) -> (r: AppResult<AppConfig>)
        ensures
            r is Ok <==> database_url is Some && supabase_jwt_secret is Some && match server_port {
                Some(p) => puerto_de(p@) is Some,
                None => true,
            },
            r is Err ==> r matches Err(AppError::Internal(_)),
            r matches Ok(c) ==> {
                &&& Some(c.database_url) == database_url
                &&& Some(c.supabase_jwt_secret) == supabase_jwt_secret
                &&& c.server_host@ == match server_host {
                    Some(x) => x@,
                    None => "0.0.0.0"@,
                }
                &&& c.server_port == match server_port {
                    Some(p) => puerto_de(p@)->0,
                    None => 3000u16,
                }
                &&& c.environment@ == match environment {
                    Some(x) => x@,
                    None => "development"@,
                }
                &&& c.supabase_url@ == match supabase_url {
                    Some(x) => x@,
                    None => ""@,
                }
            },
    {
        let database_url = match database_url {
            Some(x) => x,
            None => {
                return Err(AppError::Internal(msg("DATABASE_URL must be set")));
            },
        };
        let server_port = match server_port {
            Some(p) => match leer_puerto(p.as_str()) {
                Some(n) => n,
                None => {
                    return Err(AppError::Internal(msg("SERVER_PORT must be a valid number")));
                },
            },
            None => 3000,
        };
        let supabase_jwt_secret = match supabase_jwt_secret {
            Some(x) => x,
            None => {
                return Err(
                    AppError::Internal(msg("SUPABASE_JWT_SECRET must be set for authentication")),
                );
            },
        };
        Ok(
            AppConfig {
                database_url,
                server_host: valor_o(server_host, "0.0.0.0"),
                server_port,
                environment: valor_o(environment, "development"),
                supabase_url: valor_o(supabase_url, ""),
                supabase_jwt_secret,
            },
        )
    }
}

} // verus!
