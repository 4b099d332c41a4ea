//! Pages and redirects whose content the library decides.
use vstd::prelude::*;
use vstd::string::*;

use crate::error::AppError;
use crate::user::User;

verus! {

/// The page content before the OAuth client id.
pub const HOMEPAGE_BEFORE_CLIENT_ID: &'static str = r#"<!DOCTYPE html>
<html>
<head>
    <title>Welcome to Crowdfund</title>
    <style>
        body {
            font-family: Arial, sans-serif;
            max-width: 800px;
            margin: 0 auto;
            padding: 20px;
            text-align: center;
        }
        .login-button {
            display: inline-block;
            background-color: #4285f4;
            color: white;
            padding: 10px 20px;
            text-decoration: none;
            border-radius: 5px;
            margin-top: 20px;
        }
        .login-button:hover {
            background-color: #357abd;
        }
    </style>
</head>
<body>
    <h1>Welcome to Crowdfund!</h1>
    <p>Please sign in to continue</p>
    <a href="https://accounts.google.com/o/oauth2/v2/auth?scope=openid%20profile%20email&client_id="#;

/// The page content after the OAuth client id.
pub const HOMEPAGE_AFTER_CLIENT_ID: &'static str = r#"&response_type=code&redirect_uri=http://localhost:8081/auth/google/callback" class="login-button">
        Sign in with Google
    </a>
</body>
</html>"#;

/// Where a completed Google sign-in leads.
pub const DASHBOARD_PATH: &'static str = "/dashboard";

/// The welcome page with a "Sign in with Google" link for the OAuth client
/// `oauth_id`.
pub fn homepage(oauth_id: &str) -> (r: String)
    ensures
        r@ == HOMEPAGE_BEFORE_CLIENT_ID@ + oauth_id@ + HOMEPAGE_AFTER_CLIENT_ID@,
{
    let mut r = String::from_str(HOMEPAGE_BEFORE_CLIENT_ID);
    r.append(oauth_id);
    r.append(HOMEPAGE_AFTER_CLIENT_ID);
    r
}

/// The message given when the dashboard has no user to show.
pub const NOT_LOGGED_IN: &'static str = "Not logged in. No users found.";

/// The user whose dashboard is shown: the most recent user, or an
/// authentication error when there is none.
pub fn dashboard_user(latest: Option<User>) -> (r: Result<User, AppError>)
    ensures
        latest matches Some(u) ==> r == Ok::<User, AppError>(u),
        latest is None ==> (r matches Err(AppError::AuthError(m)) && m@ == NOT_LOGGED_IN@),
{
    match latest {
        Some(u) => Ok(u),
        None => Err(AppError::AuthError(String::from_str(NOT_LOGGED_IN))),
    }
}

} // verus!
