//! Cloud accounts: new accounts, the projects gcloud lists, and which providers can be
//! connected to.

use vstd::prelude::*;
use crate::gcp::parse::{str_at, str_or};
use crate::json::{jarr, opt_view, Json, JsonV};
use crate::provider::{provider_variant_name, CloudAccount, ProviderKind};
use crate::text::{cat2, cat3, str_eq, trim, trimmed};

verus! {

/// A lowercase hexadecimal digit.
pub open spec fn is_lower_hex(c: char) -> bool {
    ('0' <= c <= '9') || ('a' <= c <= 'f')
}

/// The text of a random (version 4) UUID: 36 characters, hyphens at 8, 13, 18 and 23,
/// lowercase hexadecimal digits elsewhere, version digit `4` and variant digit 8 to b.
pub open spec fn is_v4_uuid_text(s: Seq<char>) -> bool {
    &&& s.len() == 36
    &&& forall|i: int|
        0 <= i < 36 ==> if i == 8 || i == 13 || i == 18 || i == 23 {
            s[i] == '-'
        } else {
            is_lower_hex(#[trigger] s[i])
        }
    &&& s[14] == '4'
    &&& (s[19] == '8' || s[19] == '9' || s[19] == 'a' || s[19] == 'b')
}

/// `Uuid::new_v4().to_string()`: a fresh random id. Its value is chance; what holds of
/// every outcome is its shape (the crate masks the version and variant bits of the
/// random number and prints it hyphenated in lowercase).
#[verifier::external_body]
fn new_v4_id() -> (r: String)
    ensures
        is_v4_uuid_text(r@),
{
    uuid::Uuid::new_v4().to_string()
}

/// A new account with a fresh random id.
pub fn new_account(provider: ProviderKind, display_name: String, project_id: Option<String>, config: Json) -> (r:
    CloudAccount)
    ensures
        is_v4_uuid_text(r.id@),
        r.provider == provider,
        r.display_name == display_name,
        r.project_id == project_id,
        r.config == config,
{
    CloudAccount { id: new_v4_id(), provider, display_name, project_id, config }
}

/// A fresh random scan id.
pub fn new_scan_id() -> (r: String)
    ensures
        is_v4_uuid_text(r@),
{
    new_v4_id()
}

/// Only GCP accounts can be connected to and scanned.
pub open spec fn provider_check(p: ProviderKind) -> Result<(), Seq<char>> {
    if p == ProviderKind::Gcp {
        Ok(())
    } else {
        Err("Provider "@ + provider_variant_name(p) + " not yet supported"@)
    }
}

/// Whether accounts of a provider can be connected to.
pub fn check_provider(p: ProviderKind) -> (r: Result<(), String>)
    ensures
        match r {
            Ok(()) => provider_check(p) == Ok::<(), Seq<char>>(()),
            Err(e) => provider_check(p) == Err::<(), Seq<char>>(e@),
        },
{
    match p {
        ProviderKind::Gcp => Ok(()),
        _ => Err(cat3("Provider ", p.variant_name(), " not yet supported")),
    }
}

/// A GCP project the signed-in user can use.
#[derive(Debug)]
pub struct GcpProject {
    pub project_id: String,
    pub name: String,
    pub state: String,
}

/// The value of a project: id, name and lifecycle state.
pub open spec fn project_view(p: GcpProject) -> (Seq<char>, Seq<char>, Seq<char>) {
    (p.project_id@, p.name@, p.state@)
}

/// A project entry of `gcloud projects list`: it needs a `projectId`; its name defaults
/// to the id and its state to ACTIVE; only ACTIVE projects are kept.
pub open spec fn project_entry(p: JsonV) -> Option<(Seq<char>, Seq<char>, Seq<char>)> {
    match str_at(p, "projectId"@) {
        Some(id) => {
            let state = str_or(p, "lifecycleState"@, "ACTIVE"@);
            if state == "ACTIVE"@ {
                Some((id, str_or(p, "name"@, id), state))
            } else {
                None
            }
        },
        None => None,
    }
}

/// The active projects of a list of entries, in order.
pub open spec fn active_projects(s: Seq<JsonV>) -> Seq<(Seq<char>, Seq<char>, Seq<char>)>
    decreases s.len(),
{
    if s.len() == 0 {
        Seq::empty()
    } else {
        let prev = active_projects(s.drop_last());
        match project_entry(s.last()) {
            Some(p) => prev.push(p),
            None => prev,
        }
    }
}

/// The active projects of `gcloud projects list --format=json` output (none unless it
/// is an array).
pub open spec fn listed_projects(output: JsonV) -> Seq<(Seq<char>, Seq<char>, Seq<char>)> {
    match jarr(output) {
        Some(a) => active_projects(a),
        None => Seq::empty(),
    }
}

/// The active projects of `gcloud projects list` output, in order.
pub fn active_gcp_projects(output: &Json) -> (r: Vec<GcpProject>)
    ensures
        r@.map_values(|p: GcpProject| project_view(p)) == listed_projects(output@),
{
    let mut out: Vec<GcpProject> = Vec::new();
    assert(out@.map_values(|p: GcpProject| project_view(p)) =~= Seq::<
        (Seq<char>, Seq<char>, Seq<char>),
    >::empty());
    let items = match output.as_array() {
        Some(a) => a,
        None => return out,
    };
    let ghost s = crate::json::jv_seq(items@);
    let n = items.len();
    let mut i: usize = 0;
    assert(s.take(0) =~= Seq::<JsonV>::empty());
    while i < n
        invariant
            n == items@.len(),
            s == crate::json::jv_seq(items@),
            jarr(output@) == Some(s),
            i <= n,
            out@.map_values(|p: GcpProject| project_view(p)) == active_projects(s.take(i as int)),
        decreases n - i,
    {
        assert(s.take(i + 1).drop_last() =~= s.take(i as int));
        assert(s.take(i + 1).last() == items@[i as int]@);
        let p = &items[i];
        match p.get_str("projectId") {
            Some(id) => {
                let state = crate::gcp::parse::str_at_or(p, "lifecycleState", "ACTIVE");
                if str_eq(state.as_str(), "ACTIVE") {
                    let name = crate::gcp::parse::str_at_or(p, "name", id.as_str());
                    let ghost before = out@;
                    let proj = GcpProject { project_id: id.clone(), name, state };
                    let ghost pv = project_view(proj);
                    out.push(proj);
                    assert(out@.map_values(|p: GcpProject| project_view(p)) =~= before.map_values(
                        |p: GcpProject| project_view(p),
                    ).push(pv));
                }
            },
            None => {},
        }
        i = i + 1;
    }
    assert(s.take(n as int) =~= s);
    out
}

/// The error when gcloud is missing while listing projects.
pub fn projects_gcloud_missing() -> (r: String)
    ensures
        r@ == "Could not find gcloud CLI. Ensure Google Cloud SDK is installed."@,
{
    String::from_str("Could not find gcloud CLI. Ensure Google Cloud SDK is installed.")
}

/// The error when gcloud could not be started.
pub fn gcloud_run_failure(error: &str) -> (r: String)
    ensures
        r@ == "Failed to run gcloud: "@ + error@,
{
    cat2("Failed to run gcloud: ", error)
}

/// The error when `gcloud projects list` failed.
pub fn projects_list_failure(stderr: &str) -> (r: String)
    ensures
        r@ == "gcloud projects list failed: "@ + trimmed(stderr@),
{
    let t = trim(stderr);
    cat2("gcloud projects list failed: ", t.as_str())
}

/// The error when the output of `gcloud projects list` is not JSON.
pub fn projects_parse_failure(error: &str) -> (r: String)
    ensures
        r@ == "Failed to parse gcloud output: "@ + error@,
{
    cat2("Failed to parse gcloud output: ", error)
}


/// Accounts can be connected to exactly for GCP; AWS and Azure are refused as not yet
/// supported.
pub proof fn law_only_gcp_is_supported(p: ProviderKind)
    ensures
        provider_check(p) is Ok <==> p == ProviderKind::Gcp,
{
}


/// Only ACTIVE projects are listed, each at most once per entry and in entry order:
/// listing two runs of entries gives the two listings one after the other.
pub proof fn law_active_projects(a: Seq<JsonV>, b: Seq<JsonV>)
    ensures
        active_projects(a + b) == active_projects(a) + active_projects(b),
        active_projects(a).len() <= a.len(),
        forall|i: int| 0 <= i < active_projects(a).len() ==> (#[trigger] active_projects(a)[i]).2
            == "ACTIVE"@,
    decreases a.len() + b.len(),
{
    if b.len() == 0 {
        assert(a + b =~= a);
        assert(active_projects(a) + active_projects(b) =~= active_projects(a));
    } else {
        law_active_projects(a, b.drop_last());
        assert((a + b).drop_last() =~= a + b.drop_last());
        assert((a + b).last() == b.last());
        match project_entry(b.last()) {
            Some(p) => {
                assert(active_projects(a) + active_projects(b.drop_last()).push(p) =~= (
                active_projects(a) + active_projects(b.drop_last())).push(p));
            },
            None => {},
        }
    }
    if a.len() > 0 {
        law_active_projects(a.drop_last(), Seq::empty());
        let p = active_projects(a.drop_last());
        assert forall|i: int| 0 <= i < active_projects(a).len() implies (
        #[trigger] active_projects(a)[i]).2 == "ACTIVE"@ by {
            if i < p.len() {
                assert(active_projects(a)[i] == p[i]);
            }
        }
    }
}

} // verus!
