use r3x_cloud::gcp::compute::{parse_disk, parse_image, parse_instance, parse_snapshot, source_disk_zone};
use r3x_cloud::gcp::data::{
    build_dataset, parse_dataproc_cluster, parse_gke_cluster, parse_memorystore_instance,
    parse_spanner_instance, parse_sql_instance, tables_summary,
};
use r3x_cloud::gcp::network::{
    parse_address, parse_firewall, parse_forwarding_rule, parse_nat_gateway, parse_network,
    parse_vpn_tunnel,
};
use r3x_cloud::gcp::serverless::{location_of, parse_appengine_version, parse_function, parse_service};
use r3x_cloud::gcp::services::{
    classify_destination, parse_bucket, parse_log_sink, parse_repository, parse_secret,
    parse_subscription, parse_topic, secret_versions_status,
};
use r3x_cloud::json::{Json, JsonNumber};
use r3x_cloud::provider::{ProviderKind, ResourceType};

fn obj(entries: Vec<(&str, Json)>) -> Json {
    Json::Object(entries.into_iter().map(|(k, v)| (k.to_string(), v)).collect())
}

fn text(s: &str) -> Json {
    Json::Str(s.to_string())
}

fn num(n: u64) -> Json {
    Json::Number(JsonNumber::PosInt(n))
}

fn arr(v: Vec<Json>) -> Json {
    Json::Array(v)
}

fn tag<'a>(tags: &'a [(String, String)], k: &str) -> Option<&'a str> {
    tags.iter().find(|(key, _)| key == k).map(|(_, v)| v.as_str())
}

#[test]
fn instance_reads_fields_type_and_price() {
    let v = obj(vec![
        ("id", num(1234567890123)),
        ("name", text("web-1")),
        ("status", text("RUNNING")),
        ("creationTimestamp", text("2024-01-02T03:04:05.000-08:00")),
        ("machineType", text("https://compute.googleapis.com/compute/v1/projects/p/zones/us-central1-a/machineTypes/e2-medium")),
        ("labels", obj(vec![("env", text("prod")), ("n", num(1))])),
        ("canIpForward", Json::Bool(false)),
    ]);
    let r = parse_instance(&v, "us-central1-a", "proj").unwrap();
    assert_eq!(r.id, "1234567890123");
    assert_eq!(r.name, "web-1");
    assert_eq!(r.resource_type, ResourceType::VirtualMachine);
    assert_eq!(r.provider, ProviderKind::Gcp);
    assert_eq!(r.region, "us-central1-a");
    assert_eq!(r.account_id, "proj");
    assert_eq!(r.status, "RUNNING");
    assert_eq!(r.created_at.as_deref(), Some("2024-01-02T03:04:05.000-08:00"));
    assert_eq!(r.tags, vec![("env".to_string(), "prod".to_string())]);
    assert_eq!(r.monthly_cost, Some(30_670_000_000));
    assert_eq!(r.metadata.get_str("machine_type").map(|s| s.as_str()), Some("e2-medium"));
    assert_eq!(r.metadata.get("can_ip_forward"), Some(&Json::Bool(false)));
    assert_eq!(r.metadata.get("disks"), Some(&Json::Null));
}

#[test]
fn instance_without_name_is_skipped_and_unknown_type_has_no_price() {
    let no_name = obj(vec![("id", text("1"))]);
    assert!(parse_instance(&no_name, "z", "p").is_none());
    let no_id = obj(vec![("name", text("x"))]);
    assert!(parse_instance(&no_id, "z", "p").is_none());
    let custom = obj(vec![("id", text("7")), ("name", text("c")), ("machineType", text("custom-4-8192"))]);
    let r = parse_instance(&custom, "z", "p").unwrap();
    assert_eq!(r.monthly_cost, None);
    assert_eq!(r.status, "UNKNOWN");
}

#[test]
fn disk_status_size_and_cost() {
    let v = obj(vec![
        ("id", text("42")),
        ("name", text("data")),
        ("sizeGb", text("200")),
        ("type", text("projects/p/zones/z/diskTypes/pd-ssd")),
        ("users", arr(vec![])),
    ]);
    let r = parse_disk(&v, "europe-west1-b", "p").unwrap();
    assert_eq!(r.status, "UNATTACHED");
    assert_eq!(r.monthly_cost, Some(34_000_000_000));
    assert_eq!(
        r.metadata.get("size_gb"),
        Some(&Json::Number(JsonNumber::Float(200_000_000_000)))
    );
    let attached = obj(vec![
        ("id", text("43")),
        ("name", text("boot")),
        ("sizeGb", text("10")),
        ("type", text("pd-standard")),
        ("users", arr(vec![text("instances/web")])),
    ]);
    let r = parse_disk(&attached, "z", "p").unwrap();
    assert_eq!(r.status, "ATTACHED");
    assert_eq!(r.monthly_cost, Some(400_000_000));
    let unknown = obj(vec![("id", text("44")), ("name", text("n")), ("type", text("local-ssd"))]);
    assert_eq!(parse_disk(&unknown, "z", "p").unwrap().monthly_cost, None);
    let half = obj(vec![
        ("id", text("45")),
        ("name", text("half")),
        ("sizeGb", text("10.5")),
        ("type", text("pd-ssd")),
    ]);
    let r = parse_disk(&half, "z", "p").unwrap();
    assert_eq!(r.monthly_cost, Some(1_785_000_000));
    assert_eq!(r.metadata.get("size_gb"), Some(&Json::Number(JsonNumber::Float(10_500_000_000))));
}

#[test]
fn snapshot_region_comes_from_source_disk_zone() {
    assert_eq!(source_disk_zone("https://x/projects/p/zones/us-east1-b/disks/d1"), "us-east1-b");
    assert_eq!(source_disk_zone("projects/p/regions/r/disks/d"), "global");
    assert_eq!(source_disk_zone(""), "global");
    let v = obj(vec![
        ("id", text("9")),
        ("name", text("snap")),
        ("storageBytes", text("2147483648")),
        ("sourceDisk", text("projects/p/zones/asia-east1-a/disks/d")),
    ]);
    let r = parse_snapshot(&v, "p").unwrap();
    assert_eq!(r.region, "asia-east1-a");
    // 2 GiB at $0.026 per GiB
    assert_eq!(r.monthly_cost, Some(52_000_000));
    let empty = obj(vec![("id", text("9")), ("name", text("snap"))]);
    assert_eq!(parse_snapshot(&empty, "p").unwrap().monthly_cost, None);
}

#[test]
fn image_deprecation_becomes_a_tag_that_labels_override() {
    let v = obj(vec![
        ("id", text("5")),
        ("name", text("img")),
        ("archiveSizeBytes", text("1073741824")),
        ("deprecated", obj(vec![("state", text("DEPRECATED"))])),
        ("labels", obj(vec![("deprecated", text("no")), ("team", text("a"))])),
    ]);
    let r = parse_image(&v, "p").unwrap();
    assert_eq!(r.region, "global");
    assert_eq!(tag(&r.tags, "deprecated"), Some("no"));
    assert_eq!(tag(&r.tags, "team"), Some("a"));
    assert_eq!(r.tags.len(), 2);
    assert_eq!(r.monthly_cost, Some(50_000_000));
}

#[test]
fn reserved_address_costs_idle_price() {
    let v = obj(vec![("id", text("1")), ("name", text("ip")), ("status", text("RESERVED"))]);
    let r = parse_address(&v, "us-west1", "p").unwrap();
    assert_eq!(r.monthly_cost, Some(7_300_000_000));
    assert_eq!(r.metadata.get_str("address_type").map(|s| s.as_str()), Some("EXTERNAL"));
    let used = obj(vec![("id", text("2")), ("name", text("ip2")), ("status", text("IN_USE"))]);
    assert_eq!(parse_address(&used, "us-west1", "p").unwrap().monthly_cost, Some(0));
}

#[test]
fn firewall_tags_and_status() {
    let v = obj(vec![
        ("id", text("1")),
        ("name", text("allow-ssh")),
        ("disabled", Json::Bool(true)),
        ("network", text("projects/p/global/networks/default")),
        ("targetTags", arr(vec![text("web"), num(3), text("db")])),
    ]);
    let r = parse_firewall(&v, "p").unwrap();
    assert_eq!(r.status, "DISABLED");
    assert_eq!(tag(&r.tags, "direction"), Some("INGRESS"));
    assert_eq!(tag(&r.tags, "network"), Some("default"));
    assert_eq!(tag(&r.tags, "target_tags"), Some("web, db"));
    assert_eq!(r.monthly_cost, Some(0));
    let plain = obj(vec![("id", text("2")), ("name", text("fw"))]);
    let r = parse_firewall(&plain, "p").unwrap();
    assert_eq!(r.status, "ENABLED");
    assert_eq!(r.tags.len(), 2);
}

#[test]
fn forwarding_rule_without_target_has_no_target_status() {
    let v = obj(vec![("id", text("1")), ("name", text("lb")), ("IPProtocol", text("TCP"))]);
    let r = parse_forwarding_rule(&v, "us-central1", "p").unwrap();
    assert_eq!(r.status, "NO_TARGET");
    assert_eq!(tag(&r.tags, "protocol"), Some("TCP"));
    assert_eq!(tag(&r.tags, "scheme"), Some("EXTERNAL"));
    assert_eq!(r.monthly_cost, Some(18_260_000_000));
    let t = obj(vec![("id", text("2")), ("name", text("lb2")), ("target", text("a/b/pool"))]);
    let r = parse_forwarding_rule(&t, "us-central1", "p").unwrap();
    assert_eq!(r.status, "ACTIVE");
    assert_eq!(r.metadata.get_str("target").map(|s| s.as_str()), Some("pool"));
}

#[test]
fn network_counts_subnets_and_peerings() {
    let v = obj(vec![
        ("id", text("1")),
        ("name", text("vpc")),
        ("subnetworks", arr(vec![text("a"), text("b"), text("c")])),
        ("peerings", arr(vec![obj(vec![("name", text("peer-1"))]), obj(vec![])])),
    ]);
    let r = parse_network(&v, "p").unwrap();
    assert_eq!(r.status, "ACTIVE");
    assert!(r.tags.is_empty());
    assert_eq!(r.metadata.get("subnet_count"), Some(&num(3)));
    assert_eq!(r.metadata.get("peering_count"), Some(&num(2)));
    assert_eq!(r.metadata.get("peerings"), Some(&arr(vec![text("peer-1")])));
    assert_eq!(r.metadata.get_str("routing_mode").map(|s| s.as_str()), Some("REGIONAL"));
}

#[test]
fn nat_gateway_is_identified_under_its_router() {
    let v = obj(vec![("name", text("nat-1"))]);
    let r = parse_nat_gateway(&v, "router-a", "us-east1", "p").unwrap();
    assert_eq!(r.id, "router-a/nat-1");
    assert_eq!(r.monthly_cost, Some(31_680_000_000));
    assert!(parse_nat_gateway(&obj(vec![]), "r", "x", "p").is_none());
}

#[test]
fn vpn_tunnel_gateway_falls_back_to_target_gateway() {
    let v = obj(vec![
        ("name", text("tun")),
        ("targetVpnGateway", text("gw-classic")),
        ("ikeVersion", num(2)),
    ]);
    let r = parse_vpn_tunnel(&v, "us-east1", "p").unwrap();
    assert_eq!(r.id, "tun");
    assert_eq!(r.metadata.get_str("gateway").map(|s| s.as_str()), Some("gw-classic"));
    assert_eq!(r.metadata.get("ike_version"), Some(&num(2)));
    assert_eq!(r.monthly_cost, Some(54_000_000_000));
}

#[test]
fn cloud_run_service_status_location_and_idle_cost() {
    assert_eq!(location_of("projects/p/locations/europe-west4/services/api"), "europe-west4");
    assert_eq!(location_of("short/name"), "unknown");
    let v = obj(vec![
        ("name", text("projects/p/locations/us-central1/services/api")),
        (
            "conditions",
            arr(vec![
                obj(vec![("type", text("RoutesReady")), ("state", text("CONDITION_FAILED"))]),
                obj(vec![("type", text("Ready")), ("state", text("CONDITION_SUCCEEDED"))]),
            ]),
        ),
        (
            "template",
            obj(vec![
                ("scaling", obj(vec![("minInstanceCount", num(2))])),
                ("containers", arr(vec![obj(vec![("image", text("gcr.io/p/api"))])])),
            ]),
        ),
    ]);
    let r = parse_service(&v, "p").unwrap();
    assert_eq!(r.name, "api");
    assert_eq!(r.region, "us-central1");
    assert_eq!(r.status, "ACTIVE");
    assert_eq!(r.monthly_cost, Some(30_000_000_000));
    assert_eq!(r.metadata.get_str("image").map(|s| s.as_str()), Some("gcr.io/p/api"));
    assert_eq!(r.metadata.get_str("memory").map(|s| s.as_str()), Some("512Mi"));
    assert_eq!(r.metadata.get("max_instances"), Some(&num(100)));
}

#[test]
fn function_timeout_and_idle_cost() {
    let v = obj(vec![
        ("name", text("projects/p/locations/us-east1/functions/f")),
        ("state", text("ACTIVE")),
        ("serviceConfig", obj(vec![("timeoutSeconds", num(60)), ("minInstanceCount", num(1))])),
    ]);
    let r = parse_function(&v, "p").unwrap();
    assert_eq!(r.name, "f");
    assert_eq!(r.region, "us-east1");
    assert_eq!(r.metadata.get_str("timeout_seconds").map(|s| s.as_str()), Some(""));
    assert_eq!(r.monthly_cost, Some(5_400_000_000));
    let idle = obj(vec![("name", text("projects/p/locations/x/functions/g"))]);
    let r = parse_function(&idle, "p").unwrap();
    assert_eq!(r.metadata.get_str("timeout_seconds").map(|s| s.as_str()), Some("60"));
    assert_eq!(r.monthly_cost, Some(0));
    assert_eq!(r.status, "UNKNOWN");
}

#[test]
fn appengine_version_costs_only_when_serving() {
    let serving = obj(vec![("id", text("v1")), ("servingStatus", text("SERVING")), ("instanceClass", text("F2"))]);
    let r = parse_appengine_version(&serving, "default", "p").unwrap();
    assert_eq!(r.id, "default/v1");
    assert_eq!(r.region, "p");
    assert_eq!(r.monthly_cost, Some(72_000_000_000));
    let stopped = obj(vec![("id", text("v0")), ("servingStatus", text("STOPPED"))]);
    let r = parse_appengine_version(&stopped, "default", "p").unwrap();
    assert_eq!(r.status, "STOPPED");
    assert_eq!(r.monthly_cost, Some(0));
}

#[test]
fn sql_instance_cost_counts_availability_and_storage() {
    let v = obj(vec![
        ("name", text("db")),
        ("region", text("us-central1")),
        ("state", text("RUNNABLE")),
        (
            "settings",
            obj(vec![
                ("tier", text("db-n1-standard-2")),
                ("dataDiskSizeGb", text("100")),
                ("availabilityType", text("REGIONAL")),
                ("userLabels", obj(vec![("app", text("shop"))])),
            ]),
        ),
        ("ipAddresses", arr(vec![obj(vec![("ipAddress", text("10.0.0.3"))])])),
    ]);
    let r = parse_sql_instance(&v, "p").unwrap();
    // 102.20 * 2 + 100 * 0.17
    assert_eq!(r.monthly_cost, Some(221_400_000_000));
    assert_eq!(tag(&r.tags, "app"), Some("shop"));
    assert_eq!(r.metadata.get("ip_addresses"), Some(&arr(vec![text("10.0.0.3")])));
    assert_eq!(
        r.metadata.get("data_disk_size_gb"),
        Some(&Json::Number(JsonNumber::Float(100_000_000_000)))
    );
    let numeric = obj(vec![
        ("name", text("db2")),
        ("settings", obj(vec![("tier", text("db-f1-micro")), ("dataDiskSizeGb", num(20))])),
    ]);
    // 7.67 + 20 * 0.17
    assert_eq!(parse_sql_instance(&numeric, "p").unwrap().monthly_cost, Some(11_070_000_000));
}

#[test]
fn gke_cluster_cost_uses_current_nodes() {
    let v = obj(vec![
        ("name", text("k")),
        ("location", text("us-central1")),
        ("currentNodeCount", num(3)),
        ("nodeConfig", obj(vec![("machineType", text("e2-standard-4"))])),
        ("resourceLabels", obj(vec![("env", text("dev"))])),
    ]);
    let r = parse_gke_cluster(&v, "p").unwrap();
    assert_eq!(r.monthly_cost, Some(372_000_000_000));
    assert_eq!(r.metadata.get("disk_size_gb"), Some(&num(100)));
    assert_eq!(tag(&r.tags, "env"), Some("dev"));
    let fractional = obj(vec![
        ("name", text("k2")),
        ("currentNodeCount", Json::Number(JsonNumber::Float(2_700_000_000))),
    ]);
    let r = parse_gke_cluster(&fractional, "p").unwrap();
    assert_eq!(r.metadata.get("current_node_count"), Some(&num(2)));
}

#[test]
fn spanner_region_display_name_and_multi_region_price() {
    let v = obj(vec![
        ("name", text("projects/p/instances/inst")),
        ("config", text("projects/p/instanceConfigs/nam-eur-asia1")),
        ("nodeCount", num(2)),
    ]);
    let r = parse_spanner_instance(&v, "p").unwrap();
    assert_eq!(r.id, "projects/p/instances/inst");
    assert_eq!(r.name, "inst");
    assert_eq!(r.region, "nam-eur-asia1");
    assert_eq!(r.monthly_cost, Some(3_942_000_000_000));
    let pu = obj(vec![
        ("name", text("projects/p/instances/small")),
        ("displayName", text("Small")),
        ("config", text("projects/p/instanceConfigs/regional-us-central1")),
        ("processingUnits", num(100)),
    ]);
    let r = parse_spanner_instance(&pu, "p").unwrap();
    assert_eq!(r.name, "Small");
    assert_eq!(r.monthly_cost, Some(65_700_000_000));
}

#[test]
fn memorystore_ready_reads_running_and_prices_memory() {
    let v = obj(vec![
        ("name", text("projects/p/locations/us-central1/instances/cache")),
        ("state", text("READY")),
        ("tier", text("STANDARD_HA")),
        ("memorySizeGb", num(5)),
    ]);
    let r = parse_memorystore_instance(&v, "p").unwrap();
    assert_eq!(r.id, "cache");
    assert_eq!(r.status, "RUNNING");
    assert_eq!(r.monthly_cost, Some(352_800_000_000));
    assert_eq!(r.metadata.get("port"), Some(&num(6379)));
}

#[test]
fn dataproc_region_and_cost() {
    let v = obj(vec![
        ("clusterName", text("etl")),
        ("status", obj(vec![("state", text("RUNNING"))])),
        (
            "config",
            obj(vec![
                ("gceClusterConfig", obj(vec![("zoneUri", text("projects/p/zones/us-central1-f"))])),
                ("masterConfig", obj(vec![("numInstances", num(1)), ("machineTypeUri", text("x/n1-standard-4"))])),
                ("workerConfig", obj(vec![("numInstances", text("2")), ("machineTypeUri", text("x/e2-standard-2"))])),
            ]),
        ),
    ]);
    let r = parse_dataproc_cluster(&v, "p").unwrap();
    assert_eq!(r.region, "us-central1");
    assert_eq!(r.status, "RUNNING");
    // 100 + 2*50 + (4 + 2*2) vCPUs * 7.30
    assert_eq!(r.monthly_cost, Some(258_400_000_000));
    let bare = obj(vec![("clusterName", text("c"))]);
    let r = parse_dataproc_cluster(&bare, "p").unwrap();
    assert_eq!(r.region, "unknown");
    assert_eq!(r.status, "UNKNOWN");
}

#[test]
fn dataset_from_details_and_tables() {
    let tables = obj(vec![(
        "tables",
        arr(vec![
            obj(vec![("numBytes", text("1073741824"))]),
            obj(vec![("numBytes", num(1073741824))]),
            obj(vec![]),
        ]),
    )]);
    assert_eq!(tables_summary(&tables), Some((3, 2147483648)));
    assert_eq!(tables_summary(&obj(vec![])), Some((0, 0)));
    let huge = obj(vec![(
        "tables",
        arr(vec![obj(vec![("numBytes", num(u64::MAX))]), obj(vec![("numBytes", num(1))])]),
    )]);
    assert_eq!(tables_summary(&huge), None);
    let details = obj(vec![
        ("location", text("US")),
        ("defaultTableExpirationMs", num(3600000)),
        ("labels", obj(vec![("owner", text("bi"))])),
    ]);
    let r = build_dataset(&details, "sales", "p", 3, 2147483648);
    assert_eq!(r.id, "sales");
    assert_eq!(r.status, "ACTIVE");
    assert_eq!(r.region, "US");
    assert_eq!(r.monthly_cost, Some(40_000_000));
    assert_eq!(r.metadata.get_str("default_table_expiration_ms").map(|s| s.as_str()), Some(""));
    let empty = build_dataset(&obj(vec![]), "e", "p", 0, 0);
    assert_eq!(empty.status, "EMPTY");
    assert_eq!(empty.region, "unknown");
    assert_eq!(empty.monthly_cost, Some(0));
}

#[test]
fn bucket_region_is_lowercased_location() {
    let v = obj(vec![("name", text("b")), ("location", text("US-CENTRAL1"))]);
    let r = parse_bucket(&v, "p").unwrap();
    assert_eq!(r.id, "b");
    assert_eq!(r.region, "us-central1");
    assert_eq!(r.monthly_cost, Some(0));
    assert_eq!(r.status, "ACTIVE");
}

#[test]
fn repository_minimum_charge_and_location() {
    let v = obj(vec![
        ("name", text("projects/p/locations/us/repositories/images")),
        ("sizeBytes", text("1024")),
    ]);
    let r = parse_repository(&v, "p").unwrap();
    assert_eq!(r.id, "images");
    assert_eq!(r.region, "us");
    assert_eq!(r.monthly_cost, Some(10_000_000));
    let big = obj(vec![("name", text("a/b/c/d/e/f")), ("sizeBytes", num(10 * 1073741824))]);
    assert_eq!(parse_repository(&big, "p").unwrap().monthly_cost, Some(1_000_000_000));
    let none = obj(vec![("name", text("x"))]);
    assert_eq!(parse_repository(&none, "p").unwrap().monthly_cost, Some(0));
}

#[test]
fn log_sink_destination_kind_and_cost() {
    assert_eq!(classify_destination("bigquery.googleapis.com/projects/p/datasets/d"), "bigquery");
    assert_eq!(classify_destination("storage.googleapis.com/bucket"), "cloud_storage");
    assert_eq!(classify_destination("pubsub.googleapis.com/topics/t"), "pubsub");
    assert_eq!(classify_destination("logging.googleapis.com/buckets/b"), "logging_bucket");
    assert_eq!(classify_destination("elsewhere"), "other");
    let v = obj(vec![
        ("name", text("sink")),
        ("destination", text("bigquery.googleapis.com/projects/p/datasets/d")),
        ("filter", text("severity>=ERROR")),
    ]);
    let r = parse_log_sink(&v, "p").unwrap();
    assert_eq!(r.status, "ACTIVE");
    assert_eq!(r.monthly_cost, Some(2_750_000_000));
    let off = obj(vec![("name", text("s2")), ("disabled", Json::Bool(true))]);
    let r = parse_log_sink(&off, "p").unwrap();
    assert_eq!(r.status, "DISABLED");
    assert_eq!(r.monthly_cost, Some(5_000_000_000));
}

#[test]
fn topics_and_detached_subscriptions() {
    let t = parse_topic(&obj(vec![("name", text("projects/p/topics/orders"))]), "p").unwrap();
    assert_eq!(t.id, "projects/p/topics/orders");
    assert_eq!(t.name, "orders");
    let s = parse_subscription(
        &obj(vec![("name", text("projects/p/subscriptions/s")), ("topic", text("_deleted-topic_"))]),
        "p",
    )
    .unwrap();
    assert_eq!(s.status, "DETACHED");
    assert_eq!(s.metadata.get("ack_deadline_seconds"), Some(&num(10)));
    assert_eq!(s.metadata.get("has_push_config"), Some(&Json::Bool(false)));
    let live = parse_subscription(
        &obj(vec![
            ("name", text("projects/p/subscriptions/s2")),
            ("topic", text("projects/p/topics/t")),
            ("pushConfig", obj(vec![("pushEndpoint", text("https://h"))])),
        ]),
        "p",
    )
    .unwrap();
    assert_eq!(live.status, "ACTIVE");
    assert_eq!(live.metadata.get("has_push_config"), Some(&Json::Bool(true)));
}

#[test]
fn secret_state_from_versions() {
    let listing = obj(vec![(
        "versions",
        arr(vec![
            obj(vec![("state", text("DESTROYED"))]),
            obj(vec![("state", text("ENABLED"))]),
        ]),
    )]);
    assert_eq!(secret_versions_status(&listing), ("ACTIVE".to_string(), 2, 1));
    let counted = obj(vec![("totalSize", text("7")), ("versions", arr(vec![obj(vec![("state", text("DISABLED"))])]))]);
    assert_eq!(secret_versions_status(&counted), ("DISABLED".to_string(), 7, 0));
    assert_eq!(secret_versions_status(&obj(vec![])), ("DISABLED".to_string(), 0, 0));
    let secret = obj(vec![
        ("name", text("projects/1/secrets/api-key")),
        ("replication", obj(vec![("automatic", obj(vec![]))])),
    ]);
    let r = parse_secret(&secret, "p", "ACTIVE", 2, 2).unwrap();
    assert_eq!(r.id, "api-key");
    assert_eq!(r.status, "ACTIVE");
    assert_eq!(r.monthly_cost, Some(66_000_000));
    assert_eq!(r.metadata.get("version_count"), Some(&Json::unsigned(2)));
    assert_eq!(r.metadata.get_str("replication_type").map(|s| s.as_str()), Some("automatic"));
}

#[test]
fn secret_is_priced_by_its_active_versions() {
    let listing = obj(vec![(
        "versions",
        arr(vec![
            obj(vec![("state", text("ENABLED"))]),
            obj(vec![("state", text("DISABLED"))]),
            obj(vec![("state", text("DESTROYED"))]),
        ]),
    )]);
    let (status, count, active) = secret_versions_status(&listing);
    assert_eq!((status.as_str(), count, active), ("ACTIVE", 3, 1));
    let secret = obj(vec![("name", text("projects/1/secrets/s"))]);
    let r = parse_secret(&secret, "p", &status, count, active).unwrap();
    assert_eq!(r.id, "s");
    assert_eq!(r.name, "s");
    assert_eq!(r.status, "ACTIVE");
    assert_eq!(r.monthly_cost, Some(36_000_000));
    assert_eq!(r.metadata.get_str("replication_type").map(|s| s.as_str()), Some("unknown"));
}
