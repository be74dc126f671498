use r3x_cloud::gcp::auth::{
    access_token, auth_failure, credentials_message, gcloud_candidates, path_from_which, zone_names,
};
use r3x_cloud::gcp::scan::{
    appengine_service_ids, appengine_versions_found, appengine_versions_url, collect_nat_gateways, collect_resources,
    collect_versions, dataset_ids, dataset_tables_url, list_failure, list_outcome, list_url,
    progress, scans_type, secret_versions_url, supported_resource_types, versions_outcome,
    ListOutcome,
};
use r3x_cloud::json::{Json, JsonNumber};
use r3x_cloud::provider::{ResourceType, ScanStepStatus};

fn obj(entries: Vec<(&str, Json)>) -> Json {
    Json::Object(entries.into_iter().map(|(k, v)| (k.to_string(), v)).collect())
}

fn text(s: &str) -> Json {
    Json::Str(s.to_string())
}

fn arr(v: Vec<Json>) -> Json {
    Json::Array(v)
}

fn named(id: &str, name: &str) -> Json {
    obj(vec![("id", text(id)), ("name", text(name))])
}

#[test]
fn listing_status_outcomes() {
    assert_eq!(list_outcome(ResourceType::VirtualMachine, 200), ListOutcome::Read);
    assert_eq!(list_outcome(ResourceType::VirtualMachine, 403), ListOutcome::Failed);
    assert_eq!(list_outcome(ResourceType::StorageBucket, 404), ListOutcome::Failed);
    assert_eq!(list_outcome(ResourceType::CloudRunService, 403), ListOutcome::NothingToList);
    assert_eq!(list_outcome(ResourceType::PubSubTopic, 404), ListOutcome::NothingToList);
    assert_eq!(list_outcome(ResourceType::PubSubTopic, 500), ListOutcome::Failed);
    assert_eq!(list_outcome(ResourceType::GkeCluster, 299), ListOutcome::Read);
    assert_eq!(versions_outcome(404), ListOutcome::NothingToList);
    assert_eq!(versions_outcome(401), ListOutcome::Failed);
}

#[test]
fn listing_urls_and_failures() {
    assert_eq!(
        list_url(ResourceType::VirtualMachine, "proj"),
        "https://compute.googleapis.com/compute/v1/projects/proj/aggregated/instances"
    );
    assert_eq!(
        list_url(ResourceType::StorageBucket, "proj"),
        "https://storage.googleapis.com/storage/v1/b?project=proj"
    );
    assert_eq!(
        list_url(ResourceType::ServerlessFunction, "proj"),
        "https://cloudfunctions.googleapis.com/v2/projects/proj/locations/-/functions"
    );
    assert_eq!(
        list_failure(ResourceType::LoadBalancer, "500 Internal Server Error", "boom"),
        "Failed to list forwarding rules: 500 Internal Server Error boom"
    );
    assert_eq!(
        appengine_versions_url("proj", "default"),
        "https://appengine.googleapis.com/v1/apps/proj/services/default/versions"
    );
    assert_eq!(
        dataset_tables_url("proj", "ds"),
        "https://bigquery.googleapis.com/bigquery/v2/projects/proj/datasets/ds/tables?maxResults=100"
    );
    assert_eq!(
        secret_versions_url("projects/1/secrets/k"),
        "https://secretmanager.googleapis.com/v1/projects/1/secrets/k/versions"
    );
}

#[test]
fn progress_reports_the_type_name() {
    let p = progress("proj", ResourceType::ElasticIp, 3, ScanStepStatus::Completed);
    assert_eq!(p.account_id, "proj");
    assert_eq!(p.resource_type, "ElasticIp");
    assert_eq!(p.found, 3);
    assert_eq!(p.status, ScanStepStatus::Completed);
}

#[test]
fn aggregated_listing_reads_every_zone_in_order() {
    let data = obj(vec![(
        "items",
        obj(vec![
            ("zones/us-central1-a", obj(vec![("instances", arr(vec![named("1", "a"), obj(vec![])]))])),
            ("zones/europe-west1-b", obj(vec![("warning", text("no results"))])),
            ("zones/asia-east1-c", obj(vec![("instances", arr(vec![named("2", "b")]))])),
        ]),
    )]);
    let r = collect_resources(ResourceType::VirtualMachine, &data, "proj");
    assert_eq!(r.len(), 2);
    assert_eq!(r[0].name, "a");
    assert_eq!(r[0].region, "us-central1-a");
    assert_eq!(r[1].region, "asia-east1-c");
    assert!(r.iter().all(|x| x.resource_type == ResourceType::VirtualMachine && x.account_id == "proj"));
}

#[test]
fn flat_listing_reads_its_array() {
    let data = obj(vec![("items", arr(vec![named("1", "snap-a"), named("2", "snap-b")]))]);
    let r = collect_resources(ResourceType::Snapshot, &data, "proj");
    assert_eq!(r.iter().map(|x| x.name.as_str()).collect::<Vec<_>>(), vec!["snap-a", "snap-b"]);
    let empty = collect_resources(ResourceType::Snapshot, &obj(vec![]), "proj");
    assert!(empty.is_empty());
    let topics = obj(vec![("topics", arr(vec![obj(vec![("name", text("projects/p/topics/t"))])]))]);
    assert_eq!(collect_resources(ResourceType::PubSubTopic, &topics, "p").len(), 1);
}

#[test]
fn vpn_scope_without_region_prefix_is_unknown() {
    let data = obj(vec![(
        "items",
        obj(vec![
            ("regions/us-east1", obj(vec![("vpnTunnels", arr(vec![obj(vec![("name", text("t1"))])]))])),
            ("global", obj(vec![("vpnTunnels", arr(vec![obj(vec![("name", text("t2"))])]))])),
        ]),
    )]);
    let r = collect_resources(ResourceType::VpnTunnel, &data, "p");
    assert_eq!(r[0].region, "us-east1");
    assert_eq!(r[1].region, "unknown");
    let addr = obj(vec![("items", obj(vec![("global", obj(vec![("addresses", arr(vec![named("1", "ip")]))]))]))]);
    assert_eq!(collect_resources(ResourceType::ElasticIp, &addr, "p")[0].region, "global");
}

#[test]
fn nat_gateways_of_routers() {
    let data = obj(vec![(
        "items",
        obj(vec![(
            "regions/us-west1",
            obj(vec![(
                "routers",
                arr(vec![
                    obj(vec![("name", text("r1")), ("nats", arr(vec![obj(vec![("name", text("n1"))]), obj(vec![("name", text("n2"))])]))]),
                    obj(vec![("name", text("r2"))]),
                    obj(vec![("nats", arr(vec![obj(vec![("name", text("n3"))])]))]),
                ]),
            )]),
        )]),
    )]);
    let r = collect_nat_gateways(&data, "p");
    let ids: Vec<&str> = r.iter().map(|x| x.id.as_str()).collect();
    assert_eq!(ids, vec!["r1/n1", "r1/n2", "unknown/n3"]);
    assert!(r.iter().all(|x| x.region == "us-west1" && x.resource_type == ResourceType::NatGateway));
}

#[test]
fn appengine_services_and_versions() {
    let services = obj(vec![("services", arr(vec![obj(vec![("id", text("default"))]), obj(vec![]), obj(vec![("id", text("api"))])]))]);
    assert_eq!(appengine_service_ids(&services), vec!["default".to_string(), "api".to_string()]);
    let versions = obj(vec![("versions", arr(vec![obj(vec![("id", text("v1"))]), obj(vec![("id", Json::Number(JsonNumber::PosInt(3)))])]))]);
    let r = collect_versions(&versions, "api", "p");
    assert_eq!(r.len(), 1);
    assert_eq!(r[0].id, "api/v1");
}

#[test]
fn appengine_versions_concatenate_over_readable_services() {
    let versions = |ids: Vec<&str>| obj(vec![("versions", arr(ids.into_iter().map(|i| obj(vec![("id", text(i))])).collect()))]);
    let replies = vec![
        ("default".to_string(), 200u16, versions(vec!["v1", "v2"])),
        ("hidden".to_string(), 403u16, Json::Null),
        ("api".to_string(), 200u16, versions(vec!["v9"])),
        ("gone".to_string(), 404u16, Json::Null),
    ];
    let (found, done) = appengine_versions_found(&replies, "p");
    let ids: Vec<&str> = found.iter().map(|r| r.id.as_str()).collect();
    assert_eq!(ids, vec!["default/v1", "default/v2", "api/v9"]);
    assert_eq!(done.found, 3);
    assert_eq!(done.status, ScanStepStatus::Completed);
    assert_eq!(done.resource_type, "AppEngineVersion");
    assert_eq!(done.account_id, "p");
    let (none, empty_done) = appengine_versions_found(&vec![], "p");
    assert!(none.is_empty());
    assert_eq!(empty_done.found, 0);
}

#[test]
fn dataset_ids_skip_entries_without_reference() {
    let data = obj(vec![(
        "datasets",
        arr(vec![
            obj(vec![("datasetReference", obj(vec![("datasetId", text("sales"))]))]),
            obj(vec![("id", text("x"))]),
            obj(vec![("datasetReference", obj(vec![("datasetId", text("logs"))]))]),
        ]),
    )]);
    assert_eq!(dataset_ids(&data), vec!["sales".to_string(), "logs".to_string()]);
}

#[test]
fn provider_scans_seven_types() {
    let types = supported_resource_types();
    assert_eq!(types.len(), 7);
    assert_eq!(types[0], ResourceType::VirtualMachine);
    assert_eq!(types[6], ResourceType::MachineImage);
    assert!(scans_type(ResourceType::LoadBalancer));
    assert!(!scans_type(ResourceType::GkeCluster));
}

#[test]
fn gcloud_output_and_messages() {
    let c = gcloud_candidates("/home/u");
    assert_eq!(c.len(), 8);
    assert_eq!(c[0], "/home/u/google-cloud-sdk/bin/gcloud");
    assert_eq!(c[2], "/usr/local/bin/gcloud");
    assert_eq!(path_from_which("  /usr/bin/gcloud\n"), Some("/usr/bin/gcloud".to_string()));
    assert_eq!(path_from_which("\n"), None);
    assert_eq!(access_token("ya29.token\n"), Ok("ya29.token".to_string()));
    assert_eq!(access_token(" \t\n"), Err("Empty access token from gcloud CLI".to_string()));
    assert_eq!(
        auth_failure("ERROR: not logged in\n"),
        "gcloud auth failed: ERROR: not logged in. Run 'gcloud auth login' first."
    );
    assert_eq!(
        credentials_message(&obj(vec![("email", text("me@x.com"))]), "proj"),
        "Authenticated as me@x.com for project: proj"
    );
    assert_eq!(credentials_message(&obj(vec![]), "proj"), "Authenticated as unknown for project: proj");
    let zones = obj(vec![("items", arr(vec![obj(vec![("name", text("us-central1-a"))]), obj(vec![("name", text("us-central1-b"))])]))]);
    assert_eq!(zone_names(&zones), vec!["us-central1-a".to_string(), "us-central1-b".to_string()]);
}
