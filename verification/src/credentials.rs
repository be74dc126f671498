//! The authentication status of a provider, as gcloud reports it.

use vstd::prelude::*;
use crate::gcp::parse::str_or;
use crate::gcp::serverless::{find_with, first_with};
use crate::json::{jarr, jget, jstr, Json, JsonV};
use crate::text::{cat3, str_eq};

verus! {

/// Who is signed in to a provider, and how.
#[derive(Debug)]
pub struct CredentialStatus {
    pub provider: String,
    pub authenticated: bool,
    pub identity: String,
    pub method: String,
}

/// The value of a credential status.
pub open spec fn status_view(s: CredentialStatus) -> (Seq<char>, bool, Seq<char>, Seq<char>) {
    (s.provider@, s.authenticated, s.identity@, s.method@)
}

/// Only GCP credentials can be checked.
pub open spec fn credential_check(provider: Seq<char>) -> Result<(), Seq<char>> {
    if provider == "gcp"@ {
        Ok(())
    } else {
        Err("Provider '"@ + provider + "' not supported"@)
    }
}

/// Whether the credentials of a provider (by its lowercase name) can be checked.
pub fn check_provider_name(provider: &str) -> (r: Result<(), String>)
    ensures
        match r {
            Ok(()) => credential_check(provider@) == Ok::<(), Seq<char>>(()),
            Err(e) => credential_check(provider@) == Err::<(), Seq<char>>(e@),
        },
{
    if str_eq(provider, "gcp") {
        Ok(())
    } else {
        Err(cat3("Provider '", provider, "' not supported"))
    }
}

/// The error when no gcloud CLI was found.
pub fn gcloud_not_found() -> (r: String)
    ensures
        r@ == "gcloud CLI not found"@,
{
    String::from_str("gcloud CLI not found")
}

/// The account gcloud marks ACTIVE in `gcloud auth list --format=json` output
/// (`unknown` without one).
pub open spec fn active_identity(accounts: JsonV) -> Seq<char> {
    match jarr(accounts) {
        Some(a) => match first_with(a, "status"@, "ACTIVE"@) {
            Some(acct) => str_or(acct, "account"@, "unknown"@),
            None => "unknown"@,
        },
        None => "unknown"@,
    }
}

/// The status when gcloud reported an error: not signed in.
pub open spec fn signed_out() -> (Seq<char>, bool, Seq<char>, Seq<char>) {
    ("gcp"@, false, "none"@, "gcloud CLI"@)
}

/// The status from the account list: signed in as the active account, when there is one.
pub open spec fn signed_in_as(accounts: JsonV) -> (Seq<char>, bool, Seq<char>, Seq<char>) {
    ("gcp"@, active_identity(accounts) != "unknown"@, active_identity(accounts), "gcloud CLI"@)
}

/// The status when `gcloud auth list` failed.
pub fn gcp_signed_out() -> (r: CredentialStatus)
    ensures
        status_view(r) == signed_out(),
{
    CredentialStatus {
        provider: String::from_str("gcp"),
        authenticated: false,
        identity: String::from_str("none"),
        method: String::from_str("gcloud CLI"),
    }
}

/// The status from the output of `gcloud auth list --format=json` (output that is not
/// JSON is read as an empty list).
pub fn gcp_status(accounts: &Json) -> (r: CredentialStatus)
    ensures
        status_view(r) == signed_in_as(accounts@),
{
    let active = match accounts.as_array() {
        Some(a) => match find_with(a, "status", "ACTIVE") {
            Some(acct) => crate::gcp::parse::str_at_or(acct, "account", "unknown"),
            None => String::from_str("unknown"),
        },
        None => String::from_str("unknown"),
    };
    let authenticated = !str_eq(active.as_str(), "unknown");
    CredentialStatus {
        provider: String::from_str("gcp"),
        authenticated,
        identity: active,
        method: String::from_str("gcloud CLI"),
    }
}


/// Credentials can be checked exactly for `gcp`; the status read from gcloud's account
/// list is signed in exactly when one of the accounts is ACTIVE with an account name
/// other than `unknown`, and then names the first such ACTIVE account.
pub proof fn law_credentials(provider: Seq<char>, accounts: JsonV)
    ensures
        credential_check(provider) is Ok <==> provider == "gcp"@,
        signed_in_as(accounts).0 == "gcp"@,
        signed_in_as(accounts).1 <==> active_identity(accounts) != "unknown"@,
        signed_in_as(accounts).1 ==> jarr(accounts) is Some && exists|i: int|
            0 <= i < jarr(accounts)->0.len() && jstr(jget(jarr(accounts)->0[i], "status"@)) == Some(
                "ACTIVE"@,
            ) && str_or(jarr(accounts)->0[i], "account"@, "unknown"@) == signed_in_as(accounts).2,
        signed_out().1 == false,
{
    if let Some(a) = jarr(accounts) {
        crate::gcp::serverless::law_first_with_finds_the_first(a, "status"@, "ACTIVE"@);
    }
}

} // verus!
