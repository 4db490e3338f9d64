//! Scheduled jobs: their names and schedules, and the messages they end with.

use vstd::prelude::*;
use vstd::string::StringExecFns;
use crate::text::{push_signed, signed_decimal};

verus! {

/// Resets the demo data to its seed state.
#[derive(Debug, Clone, Copy, Default)]
pub struct DemoResetJob;

/// The message of a finished demo reset that removed `deleted` files.
pub open spec fn demo_reset_message(deleted: int) -> Seq<char> {
    "Demo reset: 9 tables reseeded, "@ + signed_decimal(deleted) + " files cleaned"@
}

impl DemoResetJob {
    pub fn name(&self) -> (r: &'static str)
        ensures
            r@ == "admin_demo_reset"@,
    {
        "admin_demo_reset"
    }

    pub fn description(&self) -> (r: &'static str)
        ensures
            r@ == "Resets admin demo data to seed state every hour, cleans uploaded files"@,
    {
        "Resets admin demo data to seed state every hour, cleans uploaded files"
    }

    /// Every hour, on the hour.
    pub fn schedule(&self) -> (r: &'static str)
        ensures
            r@ == "0 0 * * * *"@,
    {
        "0 0 * * * *"
    }

    /// The directory of uploaded files, which the job empties.
    pub fn uploads_dir(&self) -> (r: &'static str)
        ensures
            r@ == "storage/files/uploads"@,
    {
        "storage/files/uploads"
    }

    /// The number of files removed from the store: what the store counted,
    /// or none if it failed.
    pub fn files_deleted(&self, counted: Result<i64, String>) -> (r: i64)
        ensures
            r == match counted {
                Ok(n) => n,
                Err(_) => 0,
            },
    {
        match counted {
            Ok(n) => n,
            Err(_) => 0,
        }
    }

    /// The message the job ends with.
    pub fn message(&self, deleted: i64) -> (r: String)
        ensures
            r@ == demo_reset_message(deleted as int),
    {
        let mut r = String::from_str("Demo reset: 9 tables reseeded, ");
        push_signed(&mut r, deleted);
        r.append(" files cleaned");
        r
    }
}

/// Registers the redirect address of the admin login with the OAuth client.
#[derive(Debug, Clone, Copy, Default)]
pub struct RegisterOAuthClientJob;

/// The redirect address of the admin login under the given external base
/// address of the API.
pub open spec fn login_redirect_uri(api_external_url: Seq<char>) -> Seq<char> {
    api_external_url + "/admin/login"@
}

/// The message of a finished registration.
pub open spec fn registered_message(redirect_uri: Seq<char>) -> Seq<char> {
    "Registered redirect URI: "@ + redirect_uri
}

impl RegisterOAuthClientJob {
    pub fn name(&self) -> (r: &'static str)
        ensures
            r@ == "register_oauth_client"@,
    {
        "register_oauth_client"
    }

    pub fn description(&self) -> (r: &'static str)
        ensures
            r@ == "Registers OAuth client redirect URI using api_external_url from profile"@,
    {
        "Registers OAuth client redirect URI using api_external_url from profile"
    }

    /// A date that never comes: the job runs at startup only.
    pub fn schedule(&self) -> (r: &'static str)
        ensures
            r@ == "0 0 0 31 2 *"@,
    {
        "0 0 0 31 2 *"
    }

    pub fn run_on_startup(&self) -> (r: bool)
        ensures
            r,
    {
        true
    }

    /// The redirect address to register.
    pub fn redirect_uri(&self, api_external_url: &str) -> (r: String)
        ensures
            r@ == login_redirect_uri(api_external_url@),
    {
        let mut r = String::from_str(api_external_url);
        r.append("/admin/login");
        r
    }

    /// The message the job ends with.
    pub fn message(&self, redirect_uri: &str) -> (r: String)
        ensures
            r@ == registered_message(redirect_uri@),
    {
        let mut r = String::from_str("Registered redirect URI: ");
        r.append(redirect_uri);
        r
    }
}

} // verus!
