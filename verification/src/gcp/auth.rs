//! Authenticating with GCP through the gcloud CLI: where the CLI is looked for, what
//! its output means, and the messages of the provider's account-level calls.

use vstd::prelude::*;
use crate::gcp::parse::{array_fields, fields_in, str_at_or, str_or, strings_view};
use crate::gcp::scan::array_at;
use crate::json::{Json, JsonV};
use crate::text::{cat2, cat3, trim, trimmed};

verus! {

/// The places the gcloud CLI is looked for after `PATH`, for a home directory.
pub open spec fn gcloud_locations(home: Seq<char>) -> Seq<Seq<char>> {
    seq![
        home + "/google-cloud-sdk/bin/gcloud"@,
        home + "/Downloads/google-cloud-sdk/bin/gcloud"@,
        "/usr/local/bin/gcloud"@,
        "/opt/homebrew/bin/gcloud"@,
        "/usr/bin/gcloud"@,
        "/snap/bin/gcloud"@,
        home + "/snap/google-cloud-sdk/current/bin/gcloud"@,
        "/usr/local/Caskroom/google-cloud-sdk/latest/google-cloud-sdk/bin/gcloud"@,
    ]
}

/// The places the gcloud CLI is looked for after `PATH`, in order.
pub fn gcloud_candidates(home: &str) -> (r: Vec<String>)
    ensures
        strings_view(r@) == gcloud_locations(home@),
{
    let r = vec![
        cat2(home, "/google-cloud-sdk/bin/gcloud"),
        cat2(home, "/Downloads/google-cloud-sdk/bin/gcloud"),
        String::from_str("/usr/local/bin/gcloud"),
        String::from_str("/opt/homebrew/bin/gcloud"),
        String::from_str("/usr/bin/gcloud"),
        String::from_str("/snap/bin/gcloud"),
        cat2(home, "/snap/google-cloud-sdk/current/bin/gcloud"),
        String::from_str("/usr/local/Caskroom/google-cloud-sdk/latest/google-cloud-sdk/bin/gcloud"),
    ];
    assert(strings_view(r@) =~= gcloud_locations(home@));
    r
}

/// The path `which gcloud` printed: its output trimmed, when not empty.
pub open spec fn which_path(stdout: Seq<char>) -> Option<Seq<char>> {
    if trimmed(stdout).len() > 0 {
        Some(trimmed(stdout))
    } else {
        None
    }
}

/// The path `which gcloud` printed.
pub fn path_from_which(stdout: &str) -> (r: Option<String>)
    ensures
        crate::json::opt_view(r) == which_path(stdout@),
{
    let p = trim(stdout);
    if p.as_str().unicode_len() > 0 {
        Some(p)
    } else {
        None
    }
}

/// The error when no gcloud CLI was found.
pub fn gcloud_missing() -> (r: String)
    ensures
        r@ == "Could not find gcloud CLI. Ensure Google Cloud SDK is installed and you've run 'gcloud auth login'."@,
{
    String::from_str(
        "Could not find gcloud CLI. Ensure Google Cloud SDK is installed and you've run 'gcloud auth login'.",
    )
}

/// The error when the gcloud CLI could not be started.
pub fn gcloud_launch_failure(path: &str, error: &str) -> (r: String)
    ensures
        r@ == "Failed to run gcloud CLI at '"@ + path@ + "'. Error: "@ + error@,
{
    let mut s = cat3("Failed to run gcloud CLI at '", path, "'. Error: ");
    s.append(error);
    s
}

/// The error when `gcloud auth print-access-token` failed.
pub fn auth_failure(stderr: &str) -> (r: String)
    ensures
        r@ == "gcloud auth failed: "@ + trimmed(stderr@) + ". Run 'gcloud auth login' first."@,
{
    let t = trim(stderr);
    cat3("gcloud auth failed: ", t.as_str(), ". Run 'gcloud auth login' first.")
}

/// The access token `gcloud auth print-access-token` printed: its output trimmed; an
/// empty one is an error.
pub open spec fn token_from(stdout: Seq<char>) -> Result<Seq<char>, Seq<char>> {
    if trimmed(stdout).len() > 0 {
        Ok(trimmed(stdout))
    } else {
        Err("Empty access token from gcloud CLI"@)
    }
}

/// The access token printed by gcloud.
pub fn access_token(stdout: &str) -> (r: Result<String, String>)
    ensures
        match r {
            Ok(t) => token_from(stdout@) == Ok::<Seq<char>, Seq<char>>(t@),
            Err(e) => token_from(stdout@) == Err::<Seq<char>, Seq<char>>(e@),
        },
{
    let t = trim(stdout);
    if t.as_str().unicode_len() > 0 {
        Ok(t)
    } else {
        Err(String::from_str("Empty access token from gcloud CLI"))
    }
}

/// The error when the token info endpoint rejected the token.
pub fn invalid_token() -> (r: String)
    ensures
        r@ == "Invalid access token. Run 'gcloud auth login' first."@,
{
    String::from_str("Invalid access token. Run 'gcloud auth login' first.")
}

/// What a successful credential check reports: the token's email (`unknown` without
/// one) and the project.
pub open spec fn validation_message(info: JsonV, project: Seq<char>) -> Seq<char> {
    "Authenticated as "@ + str_or(info, "email"@, "unknown"@) + " for project: "@ + project
}

/// The message of a successful credential check, from the token info.
pub fn credentials_message(info: &Json, project: &str) -> (r: String)
    ensures
        r@ == validation_message(info@, project@),
{
    let email = str_at_or(info, "email", "unknown");
    let mut s = cat3("Authenticated as ", email.as_str(), " for project: ");
    s.append(project);
    s
}

/// The error when the zones could not be listed.
pub fn zones_failure(body: &str) -> (r: String)
    ensures
        r@ == "Failed to list zones: "@ + body@,
{
    cat2("Failed to list zones: ", body)
}

/// The URL listing the zones of a project.
pub fn zones_url(project: &str) -> (r: String)
    ensures
        r@ == "https://compute.googleapis.com/compute/v1/projects/"@ + project@ + "/zones"@,
{
    cat3("https://compute.googleapis.com/compute/v1/projects/", project, "/zones")
}

/// The names of the zones of a zone listing, in order.
pub open spec fn zone_names_of(data: JsonV) -> Seq<Seq<char>> {
    fields_in(array_at(data, "items"@), "name"@)
}

/// The names of the zones of a zone listing.
pub fn zone_names(data: &Json) -> (r: Vec<String>)
    ensures
        strings_view(r@) == zone_names_of(data@),
{
    match data.get_array("items") {
        Some(a) => array_fields(a, "name"),
        None => {
            let r: Vec<String> = Vec::new();
            assert(strings_view(r@) =~= Seq::<Seq<char>>::empty());
            assert(fields_in(Seq::<JsonV>::empty(), "name"@) =~= Seq::<Seq<char>>::empty());
            r
        },
    }
}


/// The access token is gcloud's output without surrounding whitespace; an output that
/// is only whitespace is the error "Empty access token from gcloud CLI". The same holds
/// of the path printed by `which gcloud`.
pub proof fn law_token_is_trimmed_output(stdout: Seq<char>)
    ensures
        token_from(stdout) is Ok <==> trimmed(stdout).len() > 0,
        token_from(stdout) matches Ok(t) ==> t == trimmed(stdout) && !crate::text::is_ws(t[0])
            && !crate::text::is_ws(t.last()),
        token_from(stdout) is Err ==> token_from(stdout) == Err::<Seq<char>, Seq<char>>(
            "Empty access token from gcloud CLI"@,
        ),
        which_path(stdout) == (if trimmed(stdout).len() > 0 {
            Some(trimmed(stdout))
        } else {
            None
        }),
{
    crate::text::law_trim(stdout);
}

} // verus!
