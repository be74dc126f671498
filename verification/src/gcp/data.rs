//! Data and compute-platform services: Cloud SQL, GKE, Spanner, Memorystore,
//! Dataproc and BigQuery.

use vstd::prelude::*;
use crate::gcp::parse::{
    add_labels_at, add_labels_from, array_fields, decimal_nanos, field_in, fields_in, float_json,
    float_value, gcp_resource, get_in, labels_at, opt_str_at, parse_decimal_nanos, read_whole,
    size_json, size_value, str_at, str_at_or, str_or, text_in, whole_number,
};
use crate::gcp::pricing::{
    bigquery_cost, dataproc_cost, estimate_bigquery_cost, estimate_dataproc_cost, estimate_gke_cost,
    estimate_memorystore_cost, estimate_spanner_cost, estimate_sql_cost, gke_cost, memorystore_cost,
    spanner_cost, sql_cost, cap, GIB,
};
use crate::json::{
    jarr, jbool, jget, jnanos, jstr, ju64, jv_entries, jv_seq, opt_jv, opt_str_jv, opt_view, put, Json,
    JsonNumber, JsonV,
};
use crate::provider::{opt_resource_view, pairs_view, CloudResource, ProviderKind, ResourceType, ResourceV};
use crate::text::{
    after_last, contains_str, find_from, last_index_of, last_segment, lemma_last_index_of_bounds,
    parse_u64, rfind_char, spec_parse_u64,
};

verus! {




/// The data disk size of a Cloud SQL instance in billionths of a GB: a decimal written
/// as text, or a number, saturated; else 0.
pub open spec fn sql_disk_gb(settings: JsonV) -> u64 {
    let d = jget(settings, "dataDiskSizeGb"@);
    match jstr(d) {
        Some(s) => match decimal_nanos(s) {
            Some(n) => cap(n),
            None => 0,
        },
        None => match jnanos(d) {
            Some(n) => cap(n),
            None => 0,
        },
    }
}

/// The addresses of a Cloud SQL instance, in order.
pub open spec fn sql_ip_addresses(v: JsonV) -> Seq<Seq<char>> {
    match jarr(jget(v, "ipAddresses"@)) {
        Some(a) => fields_in(a, "ipAddress"@),
        None => Seq::empty(),
    }
}

/// What is kept of a Cloud SQL instance besides its common fields.
pub open spec fn sql_metadata(v: JsonV) -> JsonV {
    let s = jget(v, "settings"@);
    JsonV::Object(
        Seq::empty().push(
            ("database_version"@, JsonV::Str(str_or(v, "databaseVersion"@, "unknown"@))),
        ).push(("tier"@, JsonV::Str(str_or(s, "tier"@, "unknown"@)))).push(
            ("data_disk_size_gb"@, size_json(sql_disk_gb(s))),
        ).push(("data_disk_type"@, JsonV::Str(str_or(s, "dataDiskType"@, "PD_SSD"@)))).push(
            ("availability_type"@, JsonV::Str(str_or(s, "availabilityType"@, "ZONAL"@))),
        ).push(
            (
                "backup_enabled"@,
                JsonV::Bool(jbool(jget(jget(s, "backupConfiguration"@), "enabled"@)) == Some(true)),
            ),
        ).push(("ip_addresses"@, JsonV::Array(sql_ip_addresses(v).map_values(|x| JsonV::Str(x))))).push(
            ("instance_type"@, jget(v, "instanceType"@)),
        ).push(("self_link"@, jget(v, "selfLink"@))),
    )
}

/// A Cloud SQL instance, identified by its name; tagged with its user labels.
pub open spec fn sql_resource(v: JsonV, project: Seq<char>) -> Option<ResourceV> {
    match str_at(v, "name"@) {
        Some(name) => {
            let s = jget(v, "settings"@);
            Some(
                gcp_resource(
                    name,
                    name,
                    ResourceType::CloudSqlInstance,
                    str_or(v, "region"@, "unknown"@),
                    project,
                    str_or(v, "state"@, "UNKNOWN"@),
                    str_at(v, "createTime"@),
                    None,
                    add_labels_at(Seq::empty(), s, "userLabels"@),
                    sql_metadata(v),
                    Some(
                        sql_cost(
                            str_or(s, "tier"@, "unknown"@),
                            sql_disk_gb(s),
                            str_or(s, "availabilityType"@, "ZONAL"@),
                        ),
                    ),
                ),
            )
        },
        None => None,
    }
}

/// Reads a Cloud SQL instance.
pub fn parse_sql_instance(v: &Json, project: &str) -> (r: Option<CloudResource>)
    ensures
        opt_resource_view(r) == sql_resource(v@, project@),
{
    let name = match v.get_str("name") {
        Some(n) => n.clone(),
        None => return None,
    };
    let settings = v.get("settings");
    let tier = text_in(settings, "tier", "unknown");
    let availability = text_in(settings, "availabilityType", "ZONAL");
    let disk = get_in(settings, "dataDiskSizeGb");
    let disk_gb: u64 = match disk {
        Some(d) => match d.as_str() {
            Some(s) => match parse_decimal_nanos(s.as_str()) {
                Some(n) => n,
                None => 0,
            },
            None => match d.as_nanos() {
                Some(x) => if x <= 0 {
                    0
                } else if x > u64::MAX as i128 {
                    u64::MAX
                } else {
                    x as u64
                },
                None => 0,
            },
        },
        None => 0,
    };
    assert(disk_gb == sql_disk_gb(opt_jv(settings)));
    let backup = match get_in(settings, "backupConfiguration") {
        Some(b) => match b.get_bool("enabled") {
            Some(x) => x,
            None => false,
        },
        None => false,
    };
    let ips: Vec<String> = match v.get_array("ipAddresses") {
        Some(a) => array_fields(a, "ipAddress"),
        None => Vec::new(),
    };
    let ips_json = Json::strings(&ips);
    assert(ips@.map_values(|s: String| JsonV::Str(s@)) =~= sql_ip_addresses(v@).map_values(
        |x| JsonV::Str(x),
    ));
    let mut m: Vec<(String, Json)> = Vec::new();
    assert(jv_entries(m@) =~= Seq::empty());
    put(&mut m, "database_version", Json::string(str_at_or(v, "databaseVersion", "unknown").as_str()));
    put(&mut m, "tier", Json::string(tier.as_str()));
    put(&mut m, "data_disk_size_gb", size_value(disk_gb));
    put(&mut m, "data_disk_type", Json::string(text_in(settings, "dataDiskType", "PD_SSD").as_str()));
    put(&mut m, "availability_type", Json::string(availability.as_str()));
    put(&mut m, "backup_enabled", Json::Bool(backup));
    put(&mut m, "ip_addresses", ips_json);
    put(&mut m, "instance_type", v.field("instanceType"));
    put(&mut m, "self_link", v.field("selfLink"));
    let mut tags: Vec<(String, String)> = Vec::new();
    assert(pairs_view(tags@) =~= Seq::<(Seq<char>, Seq<char>)>::empty());
    match settings {
        Some(s) => add_labels_from(&mut tags, s, "userLabels"),
        None => {},
    }
    let cost = estimate_sql_cost(tier.as_str(), disk_gb, availability.as_str());
    Some(
        CloudResource {
            id: name.clone(),
            name,
            resource_type: ResourceType::CloudSqlInstance,
            provider: ProviderKind::Gcp,
            region: str_at_or(v, "region", "unknown"),
            account_id: String::from_str(project),
            status: str_at_or(v, "state", "UNKNOWN"),
            created_at: opt_str_at(v, "createTime"),
            last_used: None,
            tags,
            metadata: Json::object(m),
            monthly_cost: Some(cost),
        },
    )
}

/// A count read as a whole number, with a default.
pub open spec fn whole_or(v: JsonV, key: Seq<char>, default: u64) -> u64 {
    match whole_number(jget(v, key)) {
        Some(n) => n,
        None => default,
    }
}

/// The machine type of a GKE cluster's nodes (`e2-medium` by default).
pub open spec fn gke_machine_type(v: JsonV) -> Seq<char> {
    str_or(jget(v, "nodeConfig"@), "machineType"@, "e2-medium"@)
}

/// What is kept of a GKE cluster besides its common fields.
pub open spec fn gke_metadata(v: JsonV) -> JsonV {
    JsonV::Object(
        Seq::empty().push(
            (
                "current_node_count"@,
                JsonV::Number(JsonNumber::PosInt(whole_or(v, "currentNodeCount"@, 0))),
            ),
        ).push(
            (
                "initial_node_count"@,
                JsonV::Number(JsonNumber::PosInt(whole_or(v, "initialNodeCount"@, 0))),
            ),
        ).push(("machine_type"@, JsonV::Str(gke_machine_type(v)))).push(
            (
                "disk_size_gb"@,
                JsonV::Number(
                    JsonNumber::PosInt(whole_or(jget(v, "nodeConfig"@), "diskSizeGb"@, 100)),
                ),
            ),
        ).push(
            (
                "current_master_version"@,
                JsonV::Str(str_or(v, "currentMasterVersion"@, "unknown"@)),
            ),
        ).push(("network_config"@, jget(v, "networkConfig"@))).push(
            ("autoscaling"@, jget(v, "autoscaling"@)),
        ).push(("node_config"@, jget(v, "nodeConfig"@))).push(("self_link"@, jget(v, "selfLink"@))),
    )
}

/// A GKE cluster, identified by its name: its current nodes at its machine type's price,
/// plus the management fee.
pub open spec fn gke_resource(v: JsonV, project: Seq<char>) -> Option<ResourceV> {
    match str_at(v, "name"@) {
        Some(name) => Some(
            gcp_resource(
                name,
                name,
                ResourceType::GkeCluster,
                str_or(v, "location"@, "unknown"@),
                project,
                str_or(v, "status"@, "UNKNOWN"@),
                str_at(v, "createTime"@),
                None,
                add_labels_at(Seq::empty(), v, "resourceLabels"@),
                gke_metadata(v),
                Some(gke_cost(gke_machine_type(v), whole_or(v, "currentNodeCount"@, 0))),
            ),
        ),
        None => None,
    }
}

/// A count of an optional object read as a whole number, with a default.
fn whole_in(v: Option<&Json>, key: &str, default: u64) -> (r: u64)
    ensures
        r == whole_or(opt_jv(v), key@, default),
{
    let n = match v {
        Some(x) => read_whole(x, key),
        None => None,
    };
    match n {
        Some(k) => k,
        None => default,
    }
}

/// Reads a GKE cluster.
pub fn parse_gke_cluster(v: &Json, project: &str) -> (r: Option<CloudResource>)
    ensures
        opt_resource_view(r) == gke_resource(v@, project@),
{
    let name = match v.get_str("name") {
        Some(n) => n.clone(),
        None => return None,
    };
    let node_config = v.get("nodeConfig");
    let current = whole_in(Some(v), "currentNodeCount", 0);
    let initial = whole_in(Some(v), "initialNodeCount", 0);
    let machine_type = text_in(node_config, "machineType", "e2-medium");
    let disk_gb = whole_in(node_config, "diskSizeGb", 100);
    let mut m: Vec<(String, Json)> = Vec::new();
    assert(jv_entries(m@) =~= Seq::empty());
    put(&mut m, "current_node_count", Json::unsigned(current));
    put(&mut m, "initial_node_count", Json::unsigned(initial));
    put(&mut m, "machine_type", Json::string(machine_type.as_str()));
    put(&mut m, "disk_size_gb", Json::unsigned(disk_gb));
    put(
        &mut m,
        "current_master_version",
        Json::string(str_at_or(v, "currentMasterVersion", "unknown").as_str()),
    );
    put(&mut m, "network_config", v.field("networkConfig"));
    put(&mut m, "autoscaling", v.field("autoscaling"));
    put(&mut m, "node_config", v.field("nodeConfig"));
    put(&mut m, "self_link", v.field("selfLink"));
    let cost = estimate_gke_cost(machine_type.as_str(), current);
    Some(
        CloudResource {
            id: name.clone(),
            name,
            resource_type: ResourceType::GkeCluster,
            provider: ProviderKind::Gcp,
            region: str_at_or(v, "location", "unknown"),
            account_id: String::from_str(project),
            status: str_at_or(v, "status", "UNKNOWN"),
            created_at: opt_str_at(v, "createTime"),
            last_used: None,
            tags: labels_at(v, "resourceLabels"),
            metadata: Json::object(m),
            monthly_cost: Some(cost),
        },
    )
}

/// An unsigned integer field, 0 when absent.
pub open spec fn u64_or_zero(v: JsonV, key: Seq<char>) -> u64 {
    match ju64(jget(v, key)) {
        Some(n) => n,
        None => 0,
    }
}

/// A Spanner configuration is multi-region when its name mentions `multi`, `nam-eur`
/// or `nam6`.
pub open spec fn spanner_multi_region(config: Seq<char>) -> bool {
    find_from(config, "multi"@, 0) is Some || find_from(config, "nam-eur"@, 0) is Some || find_from(
        config,
        "nam6"@,
        0,
    ) is Some
}

/// What is kept of a Spanner instance besides its common fields.
pub open spec fn spanner_metadata(v: JsonV, full: Seq<char>) -> JsonV {
    let config = str_or(v, "config"@, "unknown"@);
    JsonV::Object(
        Seq::empty().push(("full_name"@, JsonV::Str(full))).push(
            ("display_name"@, JsonV::Str(str_or(v, "displayName"@, after_last(full, '/')))),
        ).push(("config"@, JsonV::Str(config))).push(
            ("node_count"@, JsonV::Number(JsonNumber::PosInt(u64_or_zero(v, "nodeCount"@)))),
        ).push(
            (
                "processing_units"@,
                JsonV::Number(JsonNumber::PosInt(u64_or_zero(v, "processingUnits"@))),
            ),
        ).push(("state"@, JsonV::Str(str_or(v, "state"@, "UNKNOWN"@)))).push(
            ("is_multi_region"@, JsonV::Bool(spanner_multi_region(config))),
        ).push(("endpoint_uris"@, jget(v, "endpointUris"@))),
    )
}

/// A Spanner instance, identified by its full name, named by its display name (else the
/// last part of its name) and located in its configuration.
pub open spec fn spanner_resource(v: JsonV, project: Seq<char>) -> Option<ResourceV> {
    match str_at(v, "name"@) {
        Some(full) => {
            let config = str_or(v, "config"@, "unknown"@);
            Some(
                gcp_resource(
                    full,
                    str_or(v, "displayName"@, after_last(full, '/')),
                    ResourceType::SpannerInstance,
                    after_last(config, '/'),
                    project,
                    str_or(v, "state"@, "UNKNOWN"@),
                    None,
                    None,
                    add_labels_at(Seq::empty(), v, "labels"@),
                    spanner_metadata(v, full),
                    Some(
                        spanner_cost(
                            u64_or_zero(v, "nodeCount"@),
                            u64_or_zero(v, "processingUnits"@),
                            spanner_multi_region(config),
                        ),
                    ),
                ),
            )
        },
        None => None,
    }
}

/// Reads a Spanner instance.
pub fn parse_spanner_instance(v: &Json, project: &str) -> (r: Option<CloudResource>)
    ensures
        opt_resource_view(r) == spanner_resource(v@, project@),
{
    let full = match v.get_str("name") {
        Some(n) => n.clone(),
        None => return None,
    };
    let short = last_segment(full.as_str(), '/');
    let display = str_at_or(v, "displayName", short.as_str());
    let config = str_at_or(v, "config", "unknown");
    let state = str_at_or(v, "state", "UNKNOWN");
    let nodes: u64 = match v.get_u64("nodeCount") {
        Some(n) => n,
        None => 0,
    };
    let units: u64 = match v.get_u64("processingUnits") {
        Some(n) => n,
        None => 0,
    };
    let multi = contains_str(config.as_str(), "multi") || contains_str(config.as_str(), "nam-eur")
        || contains_str(config.as_str(), "nam6");
    let mut m: Vec<(String, Json)> = Vec::new();
    assert(jv_entries(m@) =~= Seq::empty());
    put(&mut m, "full_name", Json::string(full.as_str()));
    put(&mut m, "display_name", Json::string(display.as_str()));
    put(&mut m, "config", Json::string(config.as_str()));
    put(&mut m, "node_count", Json::unsigned(nodes));
    put(&mut m, "processing_units", Json::unsigned(units));
    put(&mut m, "state", Json::string(state.as_str()));
    put(&mut m, "is_multi_region", Json::Bool(multi));
    put(&mut m, "endpoint_uris", v.field("endpointUris"));
    let cost = estimate_spanner_cost(nodes, units, multi);
    Some(
        CloudResource {
            id: full,
            name: display,
            resource_type: ResourceType::SpannerInstance,
            provider: ProviderKind::Gcp,
            region: last_segment(config.as_str(), '/'),
            account_id: String::from_str(project),
            status: state,
            created_at: None,
            last_used: None,
            tags: labels_at(v, "labels"),
            metadata: Json::object(m),
            monthly_cost: Some(cost),
        },
    )
}

/// The memory size of a Memorystore instance in billionths of a GB (every number counts).
pub open spec fn memory_size_nanos(v: JsonV) -> int {
    match jnanos(jget(v, "memorySizeGb"@)) {
        Some(x) => x,
        None => 0,
    }
}

/// Memorystore reports READY instances as RUNNING; other states keep their name.
pub open spec fn memorystore_status(state: Seq<char>) -> Seq<char> {
    if state == "READY"@ {
        "RUNNING"@
    } else {
        state
    }
}

/// What is kept of a Memorystore instance besides its common fields.
pub open spec fn memorystore_metadata(v: JsonV, full: Seq<char>) -> JsonV {
    JsonV::Object(
        Seq::empty().push(("full_name"@, JsonV::Str(full))).push(
            ("tier"@, JsonV::Str(str_or(v, "tier"@, "BASIC"@))),
        ).push(
            (
                "memory_size_gb"@,
                JsonV::Number(JsonNumber::Float(memory_size_nanos(v) as i128)),
            ),
        ).push(("redis_version"@, JsonV::Str(str_or(v, "redisVersion"@, "unknown"@)))).push(
            ("host"@, JsonV::Str(str_or(v, "host"@, "unknown"@))),
        ).push(
            (
                "port"@,
                JsonV::Number(
                    JsonNumber::PosInt(
                        match ju64(jget(v, "port"@)) {
                            Some(p) => p,
                            None => 6379,
                        },
                    ),
                ),
            ),
        ).push(("state"@, JsonV::Str(str_or(v, "state"@, "UNKNOWN"@)))),
    )
}

/// A Memorystore (Redis) instance, identified and named by the last part of its name:
/// its memory at the tier's price per GB.
pub open spec fn memorystore_resource(v: JsonV, project: Seq<char>) -> Option<ResourceV> {
    match str_at(v, "name"@) {
        Some(full) => Some(
            gcp_resource(
                after_last(full, '/'),
                after_last(full, '/'),
                ResourceType::MemorystoreInstance,
                str_or(v, "locationId"@, "unknown"@),
                project,
                memorystore_status(str_or(v, "state"@, "UNKNOWN"@)),
                str_at(v, "createTime"@),
                None,
                add_labels_at(Seq::empty(), v, "labels"@),
                memorystore_metadata(v, full),
                Some(memorystore_cost(str_or(v, "tier"@, "BASIC"@), memory_size_nanos(v))),
            ),
        ),
        None => None,
    }
}

/// Reads a Memorystore instance.
pub fn parse_memorystore_instance(v: &Json, project: &str) -> (r: Option<CloudResource>)
    ensures
        opt_resource_view(r) == memorystore_resource(v@, project@),
{
    let full = match v.get_str("name") {
        Some(n) => n.clone(),
        None => return None,
    };
    let name = last_segment(full.as_str(), '/');
    let state = str_at_or(v, "state", "UNKNOWN");
    let tier = str_at_or(v, "tier", "BASIC");
    let size: i128 = match v.get_nanos("memorySizeGb") {
        Some(x) => x,
        None => 0,
    };
    let port: u64 = match v.get_u64("port") {
        Some(p) => p,
        None => 6379,
    };
    let mut m: Vec<(String, Json)> = Vec::new();
    assert(jv_entries(m@) =~= Seq::empty());
    put(&mut m, "full_name", Json::string(full.as_str()));
    put(&mut m, "tier", Json::string(tier.as_str()));
    put(&mut m, "memory_size_gb", Json::fraction(size));
    put(&mut m, "redis_version", Json::string(str_at_or(v, "redisVersion", "unknown").as_str()));
    put(&mut m, "host", Json::string(str_at_or(v, "host", "unknown").as_str()));
    put(&mut m, "port", Json::unsigned(port));
    put(&mut m, "state", Json::string(state.as_str()));
    let status = if crate::text::str_eq(state.as_str(), "READY") {
        String::from_str("RUNNING")
    } else {
        state
    };
    let cost = estimate_memorystore_cost(tier.as_str(), size);
    Some(
        CloudResource {
            id: name.clone(),
            name,
            resource_type: ResourceType::MemorystoreInstance,
            provider: ProviderKind::Gcp,
            region: str_at_or(v, "locationId", "unknown"),
            account_id: String::from_str(project),
            status,
            created_at: opt_str_at(v, "createTime"),
            last_used: None,
            tags: labels_at(v, "labels"),
            metadata: Json::object(m),
            monthly_cost: Some(cost),
        },
    )
}

/// The region of a Dataproc cluster: its zone (last part of `zoneUri`) without the
/// final `-suffix`; `unknown` without a zone URI or a `-`.
pub open spec fn dataproc_region(v: JsonV) -> Seq<char> {
    match str_at(jget(jget(v, "config"@), "gceClusterConfig"@), "zoneUri"@) {
        Some(z) => {
            let zone = after_last(z, '/');
            if last_index_of(zone, '-') >= 0 {
                zone.take(last_index_of(zone, '-'))
            } else {
                "unknown"@
            }
        },
        None => "unknown"@,
    }
}

/// The instance count of a Dataproc node group: a number, or a number written as text,
/// else 0.
pub open spec fn group_instances(group: JsonV) -> u64 {
    let n = jget(group, "numInstances"@);
    match ju64(n) {
        Some(k) => k,
        None => match jstr(n) {
            Some(s) => match spec_parse_u64(s) {
                Some(k) => k,
                None => 0,
            },
            None => 0,
        },
    }
}

/// The machine type of a Dataproc node group: the last part of its URI, else `unknown`.
pub open spec fn group_machine_type(group: JsonV) -> Seq<char> {
    match str_at(group, "machineTypeUri"@) {
        Some(u) => after_last(u, '/'),
        None => "unknown"@,
    }
}

/// What is kept of a Dataproc cluster besides its common fields.
pub open spec fn dataproc_metadata(v: JsonV) -> JsonV {
    let c = jget(v, "config"@);
    let mg = jget(c, "masterConfig"@);
    let wg = jget(c, "workerConfig"@);
    JsonV::Object(
        Seq::empty().push(
            ("master_num_instances"@, JsonV::Number(JsonNumber::PosInt(group_instances(mg)))),
        ).push(("master_machine_type"@, JsonV::Str(group_machine_type(mg)))).push(
            ("worker_num_instances"@, JsonV::Number(JsonNumber::PosInt(group_instances(wg)))),
        ).push(("worker_machine_type"@, JsonV::Str(group_machine_type(wg)))).push(
            ("status_history"@, jget(v, "statusHistory"@)),
        ).push(("config_bucket"@, jget(c, "configBucket"@))).push(
            ("software_config"@, jget(c, "softwareConfig"@)),
        ),
    )
}

/// A Dataproc cluster, identified by its name: its nodes at their machine types' prices
/// plus the Dataproc premium.
pub open spec fn dataproc_resource(v: JsonV, project: Seq<char>) -> Option<ResourceV> {
    match str_at(v, "clusterName"@) {
        Some(name) => {
            let c = jget(v, "config"@);
            let mg = jget(c, "masterConfig"@);
            let wg = jget(c, "workerConfig"@);
            Some(
                gcp_resource(
                    name,
                    name,
                    ResourceType::DataprocCluster,
                    dataproc_region(v),
                    project,
                    str_or(jget(v, "status"@), "state"@, "UNKNOWN"@),
                    None,
                    None,
                    add_labels_at(Seq::empty(), v, "labels"@),
                    dataproc_metadata(v),
                    Some(
                        dataproc_cost(
                            group_instances(mg),
                            group_machine_type(mg),
                            group_instances(wg),
                            group_machine_type(wg),
                        ),
                    ),
                ),
            )
        },
        None => None,
    }
}

/// The instance count of an optional node group.
fn instances_in(group: Option<&Json>) -> (r: u64)
    ensures
        r == group_instances(opt_jv(group)),
{
    match get_in(group, "numInstances") {
        Some(n) => match n.as_u64() {
            Some(k) => k,
            None => match n.as_str() {
                Some(s) => match parse_u64(s.as_str()) {
                    Some(k) => k,
                    None => 0,
                },
                None => 0,
            },
        },
        None => 0,
    }
}

/// The machine type of an optional node group.
fn machine_type_in(group: Option<&Json>) -> (r: String)
    ensures
        r@ == group_machine_type(opt_jv(group)),
{
    let uri = match group {
        Some(g) => g.get_str("machineTypeUri"),
        None => None,
    };
    match uri {
        Some(u) => last_segment(u.as_str(), '/'),
        None => String::from_str("unknown"),
    }
}

/// The region of a Dataproc cluster.
fn region_of_cluster(v: &Json) -> (r: String)
    ensures
        r@ == dataproc_region(v@),
{
    let zone_uri = match get_in(v.get("config"), "gceClusterConfig") {
        Some(g) => g.get_str("zoneUri"),
        None => None,
    };
    match zone_uri {
        Some(z) => {
            let zone = last_segment(z.as_str(), '/');
            proof {
                lemma_last_index_of_bounds(zone@, '-');
            }
            match rfind_char(zone.as_str(), '-') {
                Some(i) => String::from_str(zone.as_str().substring_char(0, i)),
                None => String::from_str("unknown"),
            }
        },
        None => String::from_str("unknown"),
    }
}

/// Reads a Dataproc cluster.
pub fn parse_dataproc_cluster(v: &Json, project: &str) -> (r: Option<CloudResource>)
    ensures
        opt_resource_view(r) == dataproc_resource(v@, project@),
{
    let name = match v.get_str("clusterName") {
        Some(n) => n.clone(),
        None => return None,
    };
    let config = v.get("config");
    let master = get_in(config, "masterConfig");
    let worker = get_in(config, "workerConfig");
    let masters = instances_in(master);
    let master_type = machine_type_in(master);
    let workers = instances_in(worker);
    let worker_type = machine_type_in(worker);
    let mut m: Vec<(String, Json)> = Vec::new();
    assert(jv_entries(m@) =~= Seq::empty());
    put(&mut m, "master_num_instances", Json::unsigned(masters));
    put(&mut m, "master_machine_type", Json::string(master_type.as_str()));
    put(&mut m, "worker_num_instances", Json::unsigned(workers));
    put(&mut m, "worker_machine_type", Json::string(worker_type.as_str()));
    put(&mut m, "status_history", v.field("statusHistory"));
    put(&mut m, "config_bucket", field_in(config, "configBucket"));
    put(&mut m, "software_config", field_in(config, "softwareConfig"));
    let cost = estimate_dataproc_cost(masters, master_type.as_str(), workers, worker_type.as_str());
    Some(
        CloudResource {
            id: name.clone(),
            name,
            resource_type: ResourceType::DataprocCluster,
            provider: ProviderKind::Gcp,
            region: region_of_cluster(v),
            account_id: String::from_str(project),
            status: text_in(v.get("status"), "state", "UNKNOWN"),
            created_at: None,
            last_used: None,
            tags: labels_at(v, "labels"),
            metadata: Json::object(m),
            monthly_cost: Some(cost),
        },
    )
}

/// The size of a table in bytes: a whole number written as text or as a number, else 0.
pub open spec fn table_bytes(t: JsonV) -> u64 {
    let n = jget(t, "numBytes"@);
    match jstr(n) {
        Some(s) => match spec_parse_u64(s) {
            Some(k) => k,
            None => match ju64(n) {
                Some(k) => k,
                None => 0,
            },
        },
        None => match ju64(n) {
            Some(k) => k,
            None => 0,
        },
    }
}

/// The total size of a list of tables.
pub open spec fn tables_total(s: Seq<JsonV>) -> int
    decreases s.len(),
{
    if s.len() == 0 {
        0
    } else {
        tables_total(s.drop_last()) + table_bytes(s.last())
    }
}

/// The tables of a table listing.
pub open spec fn listed_tables(listing: JsonV) -> Seq<JsonV> {
    match jarr(jget(listing, "tables"@)) {
        Some(a) => a,
        None => Seq::empty(),
    }
}

proof fn lemma_tables_total_monotone(s: Seq<JsonV>, i: int)
    requires
        0 <= i <= s.len(),
    ensures
        tables_total(s.take(i)) <= tables_total(s),
    decreases s.len() - i,
{
    if i < s.len() {
        lemma_tables_total_monotone(s, i + 1);
        assert(s.take(i + 1).drop_last() =~= s.take(i));
    } else {
        assert(s.take(i) =~= s);
    }
}

/// The number of tables of a listing and their total size; `None` when the total does
/// not fit in 64 bits (where adding the sizes up would overflow).
pub fn tables_summary(listing: &Json) -> (r: Option<(u64, u64)>)
    ensures
        r matches Some(p) ==> p.0 == listed_tables(listing@).len() && p.1 == tables_total(
            listed_tables(listing@),
        ),
        r is None <==> tables_total(listed_tables(listing@)) > u64::MAX,
{
    let tables = match listing.get_array("tables") {
        Some(a) => a,
        None => {
            assert(listed_tables(listing@) =~= Seq::<JsonV>::empty());
            return Some((0, 0));
        },
    };
    let ghost s = jv_seq(tables@);
    let n = tables.len();
    let mut total: u64 = 0;
    let mut i: usize = 0;
    assert(s.take(0) =~= Seq::<JsonV>::empty());
    while i < n
        invariant
            n == tables@.len(),
            s == jv_seq(tables@),
            s == listed_tables(listing@),
            i <= n,
            total == tables_total(s.take(i as int)),
        decreases n - i,
    {
        assert(s.take(i + 1).drop_last() =~= s.take(i as int));
        assert(s.take(i + 1).last() == tables@[i as int]@);
        let t = &tables[i];
        let bytes: u64 = match t.get("numBytes") {
            Some(x) => match x.as_str() {
                Some(txt) => match parse_u64(txt.as_str()) {
                    Some(k) => k,
                    None => match x.as_u64() {
                        Some(k) => k,
                        None => 0,
                    },
                },
                None => match x.as_u64() {
                    Some(k) => k,
                    None => 0,
                },
            },
            None => 0,
        };
        assert(bytes == table_bytes(tables@[i as int]@));
        match total.checked_add(bytes) {
            Some(x) => {
                total = x;
            },
            None => {
                proof {
                    lemma_tables_total_monotone(s, i + 1);
                }
                return None;
            },
        }
        i = i + 1;
    }
    assert(s.take(n as int) =~= s);
    Some((n as u64, total))
}

/// `defaultTableExpirationMs` as text: text stays, a number reads as empty, else none.
pub open spec fn table_expiration(d: JsonV) -> Option<Seq<char>> {
    match str_at(d, "defaultTableExpirationMs"@) {
        Some(s) => Some(s),
        None => if jnanos(jget(d, "defaultTableExpirationMs"@)) is Some {
            Some(""@)
        } else {
            None
        },
    }
}

/// A size in bytes as GiB, written as a floating-point number (in billionths, rounded
/// down).
pub open spec fn gib_json(bytes: u64) -> JsonV {
    JsonV::Number(JsonNumber::Float((bytes * 1_000_000_000 / (GIB as int)) as i128))
}

/// What is kept of a dataset besides its common fields.
pub open spec fn dataset_metadata(d: JsonV, id: Seq<char>, table_count: u64, total_bytes: u64) -> JsonV {
    JsonV::Object(
        Seq::empty().push(("dataset_id"@, JsonV::Str(id))).push(
            ("location"@, JsonV::Str(str_or(d, "location"@, "unknown"@))),
        ).push(("default_table_expiration_ms"@, opt_str_jv(table_expiration(d)))).push(
            ("creation_time"@, opt_str_jv(str_at(d, "creationTime"@))),
        ).push(("last_modified_time"@, opt_str_jv(str_at(d, "lastModifiedTime"@)))).push(
            ("access"@, jget(d, "access"@)),
        ).push(("table_count"@, JsonV::Number(JsonNumber::PosInt(table_count)))).push(
            ("total_bytes"@, JsonV::Number(JsonNumber::PosInt(total_bytes))),
        ).push(("total_size_gb"@, gib_json(total_bytes))).push(("self_link"@, jget(d, "selfLink"@))),
    )
}

/// A BigQuery dataset from its details and the count and total size of its tables: ACTIVE
/// with tables, EMPTY without; its storage at the active rate.
pub open spec fn dataset_resource(
    d: JsonV,
    id: Seq<char>,
    project: Seq<char>,
    table_count: u64,
    total_bytes: u64,
) -> ResourceV {
    gcp_resource(
        id,
        id,
        ResourceType::BigQueryDataset,
        str_or(d, "location"@, "unknown"@),
        project,
        if table_count > 0 {
            "ACTIVE"@
        } else {
            "EMPTY"@
        },
        str_at(d, "creationTime"@),
        str_at(d, "lastModifiedTime"@),
        add_labels_at(Seq::empty(), d, "labels"@),
        dataset_metadata(d, id, table_count, total_bytes),
        Some(bigquery_cost(total_bytes)),
    )
}

/// A size in bytes as GiB in billionths.
pub fn gib_value(bytes: u64) -> (r: Json)
    ensures
        r@ == gib_json(bytes),
{
    let x: u128 = (bytes as u128) * 1_000_000_000u128 / (GIB as u128);
    proof {
        assert(bytes * 1_000_000_000 / (GIB as int) <= bytes) by (nonlinear_arith)
            requires
                bytes >= 0,
        ;
    }
    Json::fraction(x as i128)
}

/// Builds a BigQuery dataset from its details, its tables' count and their total size.
pub fn build_dataset(d: &Json, id: &str, project: &str, table_count: u64, total_bytes: u64) -> (r:
    CloudResource)
    ensures
        r@ == dataset_resource(d@, id@, project@, table_count, total_bytes),
{
    let expiration: Option<String> = match d.get_str("defaultTableExpirationMs") {
        Some(s) => Some(s.clone()),
        None => if d.get_nanos("defaultTableExpirationMs").is_some() {
            Some(String::from_str(""))
        } else {
            None
        },
    };
    proof {
        reveal_strlit("");
    }
    assert(opt_view(expiration) == table_expiration(d@));
    let created = opt_str_at(d, "creationTime");
    let modified = opt_str_at(d, "lastModifiedTime");
    let location = str_at_or(d, "location", "unknown");
    let mut m: Vec<(String, Json)> = Vec::new();
    assert(jv_entries(m@) =~= Seq::empty());
    put(&mut m, "dataset_id", Json::string(id));
    put(&mut m, "location", Json::string(location.as_str()));
    put(&mut m, "default_table_expiration_ms", Json::opt_string(&expiration));
    put(&mut m, "creation_time", Json::opt_string(&created));
    put(&mut m, "last_modified_time", Json::opt_string(&modified));
    put(&mut m, "access", d.field("access"));
    put(&mut m, "table_count", Json::unsigned(table_count));
    put(&mut m, "total_bytes", Json::unsigned(total_bytes));
    put(&mut m, "total_size_gb", gib_value(total_bytes));
    put(&mut m, "self_link", d.field("selfLink"));
    let status = if table_count > 0 {
        String::from_str("ACTIVE")
    } else {
        String::from_str("EMPTY")
    };
    CloudResource {
        id: String::from_str(id),
        name: String::from_str(id),
        resource_type: ResourceType::BigQueryDataset,
        provider: ProviderKind::Gcp,
        region: location,
        account_id: String::from_str(project),
        status,
        created_at: created,
        last_used: modified,
        tags: labels_at(d, "labels"),
        metadata: Json::object(m),
        monthly_cost: Some(estimate_bigquery_cost(total_bytes)),
    }
}


/// Cloud SQL, GKE, Spanner and Dataproc resources keep the state or status the API
/// reports (UNKNOWN without one).
pub proof fn law_reported_states_kept(v: JsonV, project: Seq<char>)
    ensures
        sql_resource(v, project) matches Some(r) ==> r.resource_type
            == ResourceType::CloudSqlInstance && r.status == str_or(v, "state"@, "UNKNOWN"@),
        gke_resource(v, project) matches Some(r) ==> r.resource_type == ResourceType::GkeCluster
            && r.status == str_or(v, "status"@, "UNKNOWN"@),
        spanner_resource(v, project) matches Some(r) ==> r.resource_type
            == ResourceType::SpannerInstance && r.status == str_or(v, "state"@, "UNKNOWN"@),
        dataproc_resource(v, project) matches Some(r) ==> r.resource_type
            == ResourceType::DataprocCluster && r.status == str_or(
            jget(v, "status"@),
            "state"@,
            "UNKNOWN"@,
        ),
{
}

/// A Memorystore instance that is READY is reported as RUNNING; every other state is
/// kept as it is.
pub proof fn law_memorystore_ready_is_running(v: JsonV, project: Seq<char>)
    ensures
        memorystore_resource(v, project) matches Some(r) ==> {
            &&& r.resource_type == ResourceType::MemorystoreInstance
            &&& (str_or(v, "state"@, "UNKNOWN"@) == "READY"@ ==> r.status == "RUNNING"@)
            &&& (str_or(v, "state"@, "UNKNOWN"@) != "READY"@ ==> r.status == str_or(
                v,
                "state"@,
                "UNKNOWN"@,
            ))
        },
{
}

/// A BigQuery dataset is ACTIVE exactly when it has tables and EMPTY otherwise, and its
/// storage costs $0.02 per GiB.
pub proof fn law_dataset_status_follows_tables(
    d: JsonV,
    id: Seq<char>,
    project: Seq<char>,
    table_count: u64,
    total_bytes: u64,
)
    ensures
        ({
            let r = dataset_resource(d, id, project, table_count, total_bytes);
            &&& r.resource_type == ResourceType::BigQueryDataset
            &&& (r.status == "ACTIVE"@ <==> table_count > 0)
            &&& (r.status == "EMPTY"@ <==> table_count == 0)
            &&& r.monthly_cost == Some((total_bytes * 20_000_000 / 1_073_741_824) as u64)
        }),
{
    reveal_strlit("ACTIVE");
    reveal_strlit("EMPTY");
    assert("ACTIVE"@.len() != "EMPTY"@.len());
}


/// How the managed data services are priced when read: Cloud SQL by its tier, its data
/// disk and its availability (ZONAL by default); a GKE cluster by its current node count
/// at its node machine type (e2-medium by default); Spanner by its nodes or processing
/// units, multi-region when its configuration says so; Memorystore by its tier (BASIC by
/// default) and memory size; Dataproc by its master and worker groups, each a count and
/// the machine type named last in its URI.
pub proof fn law_data_service_prices(v: JsonV, project: Seq<char>)
    ensures
        sql_resource(v, project) matches Some(r) ==> r.monthly_cost == Some(sql_cost(
            str_or(jget(v, "settings"@), "tier"@, "unknown"@),
            sql_disk_gb(jget(v, "settings"@)),
            str_or(jget(v, "settings"@), "availabilityType"@, "ZONAL"@),
        )),
        gke_resource(v, project) matches Some(r) ==> r.monthly_cost == Some(gke_cost(
            str_or(jget(v, "nodeConfig"@), "machineType"@, "e2-medium"@),
            match whole_number(jget(v, "currentNodeCount"@)) {
                Some(n) => n,
                None => 0,
            },
        )) && r.region == str_or(v, "location"@, "unknown"@),
        spanner_resource(v, project) matches Some(r) ==> r.monthly_cost == Some(spanner_cost(
            u64_or_zero(v, "nodeCount"@),
            u64_or_zero(v, "processingUnits"@),
            spanner_multi_region(str_or(v, "config"@, "unknown"@)),
        )),
        memorystore_resource(v, project) matches Some(r) ==> r.monthly_cost == Some(
            memorystore_cost(
                str_or(v, "tier"@, "BASIC"@),
                match jnanos(jget(v, "memorySizeGb"@)) {
                    Some(x) => x,
                    None => 0,
                },
            ),
        ),
        dataproc_resource(v, project) matches Some(r) ==> r.monthly_cost == Some(dataproc_cost(
            group_instances(jget(jget(v, "config"@), "masterConfig"@)),
            group_machine_type(jget(jget(v, "config"@), "masterConfig"@)),
            group_instances(jget(jget(v, "config"@), "workerConfig"@)),
            group_machine_type(jget(jget(v, "config"@), "workerConfig"@)),
        )),
{
}


/// The size of a dataset is the sum of its tables' sizes: the total of two runs of
/// tables is the sum of their totals, and one table contributes its `numBytes`.
pub proof fn law_tables_total_adds_up(a: Seq<JsonV>, b: Seq<JsonV>)
    ensures
        tables_total(a + b) == tables_total(a) + tables_total(b),
        forall|t: JsonV| #[trigger] tables_total(seq![t]) == table_bytes(t),
    decreases b.len(),
{
    if b.len() == 0 {
        assert(a + b =~= a);
    } else {
        law_tables_total_adds_up(a, b.drop_last());
        assert((a + b).drop_last() =~= a + b.drop_last());
        assert((a + b).last() == b.last());
    }
    assert forall|t: JsonV| #[trigger] tables_total(seq![t]) == table_bytes(t) by {
        let s = seq![t];
        let e = Seq::<JsonV>::empty();
        assert(s.len() == 1);
        assert(s.drop_last() =~= e);
        assert(s.last() == t);
        assert(tables_total(e) == 0);
        assert(tables_total(s) == tables_total(s.drop_last()) + table_bytes(s.last()));
    }
}

} // verus!
