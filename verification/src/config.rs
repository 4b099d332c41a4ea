//! The application's configuration, read from environment variables.
use vstd::prelude::*;

verus! {

/// Name of the variable that holds the database URL.
pub const DATABASE_URL_VAR: &'static str = "DATABASE_URL";
/// Name of the variable that holds the Google OAuth client id.
pub const GOOGLE_CLIENT_ID_VAR: &'static str = "GOOGLE_OAUTH_CLIENT_ID";
/// Name of the variable that holds the Google OAuth client secret.
pub const GOOGLE_CLIENT_SECRET_VAR: &'static str = "GOOGLE_OAUTH_CLIENT_SECRET";
/// Name of the variable that holds the OAuth redirect URI.
pub const GOOGLE_REDIRECT_URI_VAR: &'static str = "GOOGLE_REDIRECT_URI";

/// Holds the application's configuration, loaded from environment variables.
#[derive(Clone, Debug)]
pub struct Config {
    pub database_url: String,
    pub google_client_id: String,
    pub google_client_secret: String,
    pub google_redirect_uri: String,
}

impl Config {
    /// Builds the configuration from the results of reading the variables
    /// `DATABASE_URL`, `GOOGLE_OAUTH_CLIENT_ID`, `GOOGLE_OAUTH_CLIENT_SECRET`
    /// and `GOOGLE_REDIRECT_URI`, in that order: the configuration when all
    /// four were read, else the error of the first one that was not.
    pub fn from_vars<E>(
        database_url: Result<String, E>,
        google_client_id: Result<String, E>,
        google_client_secret: Result<String, E>,
        google_redirect_uri: Result<String, E>,
    ) -> (r: Result<Config, E>)
        ensures
            r is Ok <==> (database_url is Ok && google_client_id is Ok
                && google_client_secret is Ok && google_redirect_uri is Ok),
            r matches Ok(c) ==> {
                &&& c.database_url == database_url->Ok_0
                &&& c.google_client_id == google_client_id->Ok_0
                &&& c.google_client_secret == google_client_secret->Ok_0
                &&& c.google_redirect_uri == google_redirect_uri->Ok_0
            },
            database_url is Err ==> r == Err::<Config, E>(database_url->Err_0),
            database_url is Ok && google_client_id is Err ==> r == Err::<Config, E>(
                google_client_id->Err_0,
            ),
            database_url is Ok && google_client_id is Ok && google_client_secret is Err ==> r
                == Err::<Config, E>(google_client_secret->Err_0),
            database_url is Ok && google_client_id is Ok && google_client_secret is Ok
                && google_redirect_uri is Err ==> r == Err::<Config, E>(
                google_redirect_uri->Err_0,
            ),
    {
        let database_url = database_url?;
        let google_client_id = google_client_id?;
        let google_client_secret = google_client_secret?;
        let google_redirect_uri = google_redirect_uri?;
        Ok(Config { database_url, google_client_id, google_client_secret, google_redirect_uri })
    }
}

} // verus!
