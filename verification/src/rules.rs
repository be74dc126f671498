//! The catalog of detection rules.

use vstd::prelude::*;

verus! {

/// How serious a finding is.
#[derive(Clone, Copy, Debug, PartialEq, Eq, Structural)]
pub enum Severity {
    Low,
    Medium,
    High,
    Critical,
}

/// The lowercase name a severity is reported under.
pub open spec fn severity_name(s: Severity) -> Seq<char> {
    match s {
        Severity::Low => "low"@,
        Severity::Medium => "medium"@,
        Severity::High => "high"@,
        Severity::Critical => "critical"@,
    }
}

impl Severity {
    /// The lowercase name (`low`, `medium`, `high`, `critical`).
    pub fn as_str(&self) -> (r: &'static str)
        ensures
            r@ == severity_name(*self),
    {
        match self {
            Severity::Low => "low",
            Severity::Medium => "medium",
            Severity::High => "high",
            Severity::Critical => "critical",
        }
    }
}

/// A detection rule: which resources it looks at, how serious its findings are,
/// and whether it is switched on.
#[derive(Debug)]
pub struct DetectionRule {
    pub id: String,
    pub name: String,
    pub description: String,
    pub resource_type: String,
    pub severity: Severity,
    pub enabled: bool,
}

/// The value of a detection rule.
pub struct RuleV {
    pub id: Seq<char>,
    pub name: Seq<char>,
    pub description: Seq<char>,
    pub resource_type: Seq<char>,
    pub severity: Severity,
    pub enabled: bool,
}

impl View for DetectionRule {
    type V = RuleV;

    open spec fn view(&self) -> RuleV {
        RuleV {
            id: self.id@,
            name: self.name@,
            description: self.description@,
            resource_type: self.resource_type@,
            severity: self.severity,
            enabled: self.enabled,
        }
    }
}

/// The values of a list of rules.
pub open spec fn rules_view(s: Seq<DetectionRule>) -> Seq<RuleV> {
    Seq::new(s.len(), |i: int| s[i]@)
}

/// An enabled rule with the given texts.
pub open spec fn rule_v(
    id: Seq<char>,
    name: Seq<char>,
    description: Seq<char>,
    resource_type: Seq<char>,
    severity: Severity,
) -> RuleV {
    RuleV { id, name, description, resource_type, severity, enabled: true }
}

/// The title and explanation of each rule of the catalog, as shown to users.
pub const VM_STOPPED_TITLE: &'static str = "Stopped VMs";

pub const VM_STOPPED_ABOUT: &'static str = "Compute instances in TERMINATED state";

pub const DISK_UNATTACHED_TITLE: &'static str = "Unattached Disks";

pub const DISK_UNATTACHED_ABOUT: &'static str = "Persistent disks not attached to any instance";

pub const SNAPSHOT_OLD_TITLE: &'static str = "Old Snapshots";

pub const SNAPSHOT_OLD_ABOUT: &'static str = "Disk snapshots older than 90 days";

pub const IP_UNUSED_TITLE: &'static str = "Unused Static IPs";

pub const IP_UNUSED_ABOUT: &'static str = "Static external IPs in RESERVED state (not in use)";

pub const LB_NO_TARGET_TITLE: &'static str = "Load Balancers Without Targets";

pub const LB_NO_TARGET_ABOUT: &'static str = "Forwarding rules with no backend target configured";

pub const FW_DISABLED_TITLE: &'static str = "Disabled Firewall Rules";

pub const FW_DISABLED_ABOUT: &'static str = "Firewall rules that are disabled and may be unused";

pub const IMAGE_OLD_TITLE: &'static str = "Old Machine Images";

pub const IMAGE_OLD_ABOUT: &'static str = "Custom images older than 180 days";

pub const DISK_LARGE_UNUSED_TITLE: &'static str = "Large Unattached Disks";

pub const DISK_LARGE_UNUSED_ABOUT: &'static str = "Unattached disks larger than 100GB";

pub const SQL_STOPPED_TITLE: &'static str = "Stopped Cloud SQL Instances";

pub const SQL_STOPPED_ABOUT: &'static str = "Cloud SQL instances in STOPPED or SUSPENDED state still incur storage costs";

pub const FUNCTION_IDLE_TITLE: &'static str = "Idle Cloud Functions";

pub const FUNCTION_IDLE_ABOUT: &'static str = "Cloud Functions with min instances > 0 but no recent updates";

pub const RUN_IDLE_TITLE: &'static str = "Idle Cloud Run Services";

pub const RUN_IDLE_ABOUT: &'static str = "Cloud Run services with min instances > 0 incurring idle costs";

pub const RESOURCE_UNTAGGED_TITLE: &'static str = "Untagged Resources";

pub const RESOURCE_UNTAGGED_ABOUT: &'static str = "Resources with no labels/tags for cost allocation and ownership tracking";

pub const GKE_DEGRADED_TITLE: &'static str = "Degraded GKE Clusters";

pub const GKE_DEGRADED_ABOUT: &'static str = "GKE clusters in ERROR or DEGRADED state";

pub const GKE_OVERPROVISIONED_TITLE: &'static str = "Overprovisioned GKE Clusters";

pub const GKE_OVERPROVISIONED_ABOUT: &'static str = "GKE clusters with 10+ nodes that may be overprovisioned";

pub const BQ_EMPTY_TITLE: &'static str = "Empty BigQuery Datasets";

pub const BQ_EMPTY_ABOUT: &'static str = "BigQuery datasets with no tables";

pub const BQ_LARGE_TITLE: &'static str = "Large BigQuery Datasets";

pub const BQ_LARGE_ABOUT: &'static str = "BigQuery datasets over 100GB in storage";

pub const PUBSUB_DETACHED_TITLE: &'static str = "Detached Pub/Sub Subscriptions";

pub const PUBSUB_DETACHED_ABOUT: &'static str = "Subscriptions whose topic has been deleted";

pub const SPANNER_IDLE_TITLE: &'static str = "Idle Spanner Instances";

pub const SPANNER_IDLE_ABOUT: &'static str = "Cloud Spanner instances are very expensive; review if still needed";

pub const MEMORYSTORE_IDLE_TITLE: &'static str = "Idle Memorystore Instances";

pub const MEMORYSTORE_IDLE_ABOUT: &'static str = "Memorystore (Redis) instances that may be unused";

pub const APPENGINE_STOPPED_TITLE: &'static str = "Stopped App Engine Versions";

pub const APPENGINE_STOPPED_ABOUT: &'static str = "App Engine versions that are stopped but still deployed";

pub const NAT_UNUSED_TITLE: &'static str = "Cloud NAT Gateways";

pub const NAT_UNUSED_ABOUT: &'static str = "Cloud NAT gateways incur hourly costs; review if still needed";

pub const VPN_DOWN_TITLE: &'static str = "VPN Tunnels Not Established";

pub const VPN_DOWN_ABOUT: &'static str = "VPN tunnels that are not in ESTABLISHED state";

pub const ARTIFACT_LARGE_TITLE: &'static str = "Large Artifact Registry Repos";

pub const ARTIFACT_LARGE_ABOUT: &'static str = "Artifact Registry repositories over 10GB in storage";

pub const DATAPROC_IDLE_TITLE: &'static str = "Idle Dataproc Clusters";

pub const DATAPROC_IDLE_ABOUT: &'static str = "Dataproc clusters that are running but may be idle";

pub const SECRET_DISABLED_TITLE: &'static str = "Disabled Secrets";

pub const SECRET_DISABLED_ABOUT: &'static str = "Secret Manager secrets with all versions disabled or destroyed";

pub const LOGSINK_DISABLED_TITLE: &'static str = "Disabled Log Sinks";

pub const LOGSINK_DISABLED_ABOUT: &'static str = "Log sinks that are disabled and may be unused";

/// The GCP rule catalog, in order.
pub open spec fn gcp_rule_table() -> Seq<RuleV> {
    seq![
        rule_v("gcp-vm-stopped"@, VM_STOPPED_TITLE@, VM_STOPPED_ABOUT@, "virtual_machine"@, Severity::High),
        rule_v("gcp-disk-unattached"@, DISK_UNATTACHED_TITLE@, DISK_UNATTACHED_ABOUT@, "disk"@, Severity::High),
        rule_v("gcp-snapshot-old"@, SNAPSHOT_OLD_TITLE@, SNAPSHOT_OLD_ABOUT@, "snapshot"@, Severity::Medium),
        rule_v("gcp-ip-unused"@, IP_UNUSED_TITLE@, IP_UNUSED_ABOUT@, "elastic_ip"@, Severity::High),
        rule_v("gcp-lb-no-target"@, LB_NO_TARGET_TITLE@, LB_NO_TARGET_ABOUT@, "load_balancer"@, Severity::Medium),
        rule_v("gcp-fw-disabled"@, FW_DISABLED_TITLE@, FW_DISABLED_ABOUT@, "security_group"@, Severity::Low),
        rule_v("gcp-image-old"@, IMAGE_OLD_TITLE@, IMAGE_OLD_ABOUT@, "machine_image"@, Severity::Low),
        rule_v("gcp-disk-large-unused"@, DISK_LARGE_UNUSED_TITLE@, DISK_LARGE_UNUSED_ABOUT@, "disk"@, Severity::Critical),
        rule_v("gcp-sql-stopped"@, SQL_STOPPED_TITLE@, SQL_STOPPED_ABOUT@, "cloud_sql_instance"@, Severity::High),
        rule_v("gcp-function-idle"@, FUNCTION_IDLE_TITLE@, FUNCTION_IDLE_ABOUT@, "serverless_function"@, Severity::Medium),
        rule_v("gcp-run-idle"@, RUN_IDLE_TITLE@, RUN_IDLE_ABOUT@, "cloud_run_service"@, Severity::Medium),
        rule_v("gcp-resource-untagged"@, RESOURCE_UNTAGGED_TITLE@, RESOURCE_UNTAGGED_ABOUT@, "*"@, Severity::Medium),
        rule_v("gcp-gke-degraded"@, GKE_DEGRADED_TITLE@, GKE_DEGRADED_ABOUT@, "gke_cluster"@, Severity::Critical),
        rule_v("gcp-gke-overprovisioned"@, GKE_OVERPROVISIONED_TITLE@, GKE_OVERPROVISIONED_ABOUT@, "gke_cluster"@, Severity::High),
        rule_v("gcp-bq-empty"@, BQ_EMPTY_TITLE@, BQ_EMPTY_ABOUT@, "big_query_dataset"@, Severity::Low),
        rule_v("gcp-bq-large"@, BQ_LARGE_TITLE@, BQ_LARGE_ABOUT@, "big_query_dataset"@, Severity::Medium),
        rule_v("gcp-pubsub-detached"@, PUBSUB_DETACHED_TITLE@, PUBSUB_DETACHED_ABOUT@, "pub_sub_subscription"@, Severity::High),
        rule_v("gcp-spanner-idle"@, SPANNER_IDLE_TITLE@, SPANNER_IDLE_ABOUT@, "spanner_instance"@, Severity::High),
        rule_v("gcp-memorystore-idle"@, MEMORYSTORE_IDLE_TITLE@, MEMORYSTORE_IDLE_ABOUT@, "memorystore_instance"@, Severity::Medium),
        rule_v("gcp-appengine-stopped"@, APPENGINE_STOPPED_TITLE@, APPENGINE_STOPPED_ABOUT@, "app_engine_version"@, Severity::Low),
        rule_v("gcp-nat-unused"@, NAT_UNUSED_TITLE@, NAT_UNUSED_ABOUT@, "nat_gateway"@, Severity::Low),
        rule_v("gcp-vpn-down"@, VPN_DOWN_TITLE@, VPN_DOWN_ABOUT@, "vpn_tunnel"@, Severity::High),
        rule_v("gcp-artifact-large"@, ARTIFACT_LARGE_TITLE@, ARTIFACT_LARGE_ABOUT@, "artifact_registry_repo"@, Severity::Medium),
        rule_v("gcp-dataproc-idle"@, DATAPROC_IDLE_TITLE@, DATAPROC_IDLE_ABOUT@, "dataproc_cluster"@, Severity::High),
        rule_v("gcp-secret-disabled"@, SECRET_DISABLED_TITLE@, SECRET_DISABLED_ABOUT@, "secret_manager_secret"@, Severity::Low),
        rule_v("gcp-logsink-disabled"@, LOGSINK_DISABLED_TITLE@, LOGSINK_DISABLED_ABOUT@, "log_sink"@, Severity::Low),
    ]
}

fn rule(id: &str, name: &str, description: &str, resource_type: &str, severity: Severity) -> (r:
    DetectionRule)
    ensures
        r@ == rule_v(id@, name@, description@, resource_type@, severity),
{
    DetectionRule {
        id: String::from_str(id),
        name: String::from_str(name),
        description: String::from_str(description),
        resource_type: String::from_str(resource_type),
        severity,
        enabled: true,
    }
}

/// Every GCP detection rule, enabled, in catalog order.
pub fn all_gcp_rules() -> (rules: Vec<DetectionRule>)
    ensures
        rules_view(rules@) == gcp_rule_table(),
{
    let mut rules: Vec<DetectionRule> = Vec::new();
    rules.push(rule("gcp-vm-stopped", VM_STOPPED_TITLE, VM_STOPPED_ABOUT, "virtual_machine", Severity::High));
    rules.push(rule("gcp-disk-unattached", DISK_UNATTACHED_TITLE, DISK_UNATTACHED_ABOUT, "disk", Severity::High));
    rules.push(rule("gcp-snapshot-old", SNAPSHOT_OLD_TITLE, SNAPSHOT_OLD_ABOUT, "snapshot", Severity::Medium));
    rules.push(rule("gcp-ip-unused", IP_UNUSED_TITLE, IP_UNUSED_ABOUT, "elastic_ip", Severity::High));
    rules.push(rule("gcp-lb-no-target", LB_NO_TARGET_TITLE, LB_NO_TARGET_ABOUT, "load_balancer", Severity::Medium));
    rules.push(rule("gcp-fw-disabled", FW_DISABLED_TITLE, FW_DISABLED_ABOUT, "security_group", Severity::Low));
    rules.push(rule("gcp-image-old", IMAGE_OLD_TITLE, IMAGE_OLD_ABOUT, "machine_image", Severity::Low));
    rules.push(rule("gcp-disk-large-unused", DISK_LARGE_UNUSED_TITLE, DISK_LARGE_UNUSED_ABOUT, "disk", Severity::Critical));
    rules.push(rule("gcp-sql-stopped", SQL_STOPPED_TITLE, SQL_STOPPED_ABOUT, "cloud_sql_instance", Severity::High));
    rules.push(rule("gcp-function-idle", FUNCTION_IDLE_TITLE, FUNCTION_IDLE_ABOUT, "serverless_function", Severity::Medium));
    rules.push(rule("gcp-run-idle", RUN_IDLE_TITLE, RUN_IDLE_ABOUT, "cloud_run_service", Severity::Medium));
    rules.push(rule("gcp-resource-untagged", RESOURCE_UNTAGGED_TITLE, RESOURCE_UNTAGGED_ABOUT, "*", Severity::Medium));
    rules.push(rule("gcp-gke-degraded", GKE_DEGRADED_TITLE, GKE_DEGRADED_ABOUT, "gke_cluster", Severity::Critical));
    rules.push(rule("gcp-gke-overprovisioned", GKE_OVERPROVISIONED_TITLE, GKE_OVERPROVISIONED_ABOUT, "gke_cluster", Severity::High));
    rules.push(rule("gcp-bq-empty", BQ_EMPTY_TITLE, BQ_EMPTY_ABOUT, "big_query_dataset", Severity::Low));
    rules.push(rule("gcp-bq-large", BQ_LARGE_TITLE, BQ_LARGE_ABOUT, "big_query_dataset", Severity::Medium));
    rules.push(rule("gcp-pubsub-detached", PUBSUB_DETACHED_TITLE, PUBSUB_DETACHED_ABOUT, "pub_sub_subscription", Severity::High));
    rules.push(rule("gcp-spanner-idle", SPANNER_IDLE_TITLE, SPANNER_IDLE_ABOUT, "spanner_instance", Severity::High));
    rules.push(rule("gcp-memorystore-idle", MEMORYSTORE_IDLE_TITLE, MEMORYSTORE_IDLE_ABOUT, "memorystore_instance", Severity::Medium));
    rules.push(rule("gcp-appengine-stopped", APPENGINE_STOPPED_TITLE, APPENGINE_STOPPED_ABOUT, "app_engine_version", Severity::Low));
    rules.push(rule("gcp-nat-unused", NAT_UNUSED_TITLE, NAT_UNUSED_ABOUT, "nat_gateway", Severity::Low));
    rules.push(rule("gcp-vpn-down", VPN_DOWN_TITLE, VPN_DOWN_ABOUT, "vpn_tunnel", Severity::High));
    rules.push(rule("gcp-artifact-large", ARTIFACT_LARGE_TITLE, ARTIFACT_LARGE_ABOUT, "artifact_registry_repo", Severity::Medium));
    rules.push(rule("gcp-dataproc-idle", DATAPROC_IDLE_TITLE, DATAPROC_IDLE_ABOUT, "dataproc_cluster", Severity::High));
    rules.push(rule("gcp-secret-disabled", SECRET_DISABLED_TITLE, SECRET_DISABLED_ABOUT, "secret_manager_secret", Severity::Low));
    rules.push(rule("gcp-logsink-disabled", LOGSINK_DISABLED_TITLE, LOGSINK_DISABLED_ABOUT, "log_sink", Severity::Low));
    assert(rules_view(rules@) =~= gcp_rule_table());
    rules
}

/// `list_rules`: the rule catalog shown to users.
pub fn list_rules() -> (rules: Vec<DetectionRule>)
    ensures
        rules_view(rules@) == gcp_rule_table(),
{
    all_gcp_rules()
}


/// The catalog names each rule once (rule ids are distinct), and every rule starts enabled.
pub proof fn law_catalog_ids_distinct_and_enabled()
    ensures
        forall|i: int, j: int|
            0 <= i < j < gcp_rule_table().len() ==> gcp_rule_table()[i].id
                != gcp_rule_table()[j].id,
        forall|i: int| 0 <= i < gcp_rule_table().len() ==> gcp_rule_table()[i].enabled,
        gcp_rule_table().len() == 26,
{
    reveal_strlit("gcp-vm-stopped");
    reveal_strlit("gcp-disk-unattached");
    reveal_strlit("gcp-snapshot-old");
    reveal_strlit("gcp-ip-unused");
    reveal_strlit("gcp-lb-no-target");
    reveal_strlit("gcp-fw-disabled");
    reveal_strlit("gcp-image-old");
    reveal_strlit("gcp-disk-large-unused");
    reveal_strlit("gcp-sql-stopped");
    reveal_strlit("gcp-function-idle");
    reveal_strlit("gcp-run-idle");
    reveal_strlit("gcp-resource-untagged");
    reveal_strlit("gcp-gke-degraded");
    reveal_strlit("gcp-gke-overprovisioned");
    reveal_strlit("gcp-bq-empty");
    reveal_strlit("gcp-bq-large");
    reveal_strlit("gcp-pubsub-detached");
    reveal_strlit("gcp-spanner-idle");
    reveal_strlit("gcp-memorystore-idle");
    reveal_strlit("gcp-appengine-stopped");
    reveal_strlit("gcp-nat-unused");
    reveal_strlit("gcp-vpn-down");
    reveal_strlit("gcp-artifact-large");
    reveal_strlit("gcp-dataproc-idle");
    reveal_strlit("gcp-secret-disabled");
    reveal_strlit("gcp-logsink-disabled");
    assert forall|i: int, j: int| 0 <= i < j < gcp_rule_table().len() implies gcp_rule_table()[i].id
        != gcp_rule_table()[j].id by {
        let a = gcp_rule_table()[i].id;
        let b = gcp_rule_table()[j].id;
        if a.len() == b.len() {
            assert(a[4] != b[4] || a[5] != b[5] || a[7] != b[7]);
        }
    }
}


/// What each rule of the catalog is, in catalog order: its id, the resource type it
/// applies to (`all` for every type) and its severity.
pub open spec fn catalog_outline() -> Seq<(Seq<char>, Seq<char>, Severity)> {
    seq![
        ("gcp-vm-stopped"@, "virtual_machine"@, Severity::High),
        ("gcp-disk-unattached"@, "disk"@, Severity::High),
        ("gcp-snapshot-old"@, "snapshot"@, Severity::Medium),
        ("gcp-ip-unused"@, "elastic_ip"@, Severity::High),
        ("gcp-lb-no-target"@, "load_balancer"@, Severity::Medium),
        ("gcp-fw-disabled"@, "security_group"@, Severity::Low),
        ("gcp-image-old"@, "machine_image"@, Severity::Low),
        ("gcp-disk-large-unused"@, "disk"@, Severity::Critical),
        ("gcp-sql-stopped"@, "cloud_sql_instance"@, Severity::High),
        ("gcp-function-idle"@, "serverless_function"@, Severity::Medium),
        ("gcp-run-idle"@, "cloud_run_service"@, Severity::Medium),
        ("gcp-resource-untagged"@, "*"@, Severity::Medium),
        ("gcp-gke-degraded"@, "gke_cluster"@, Severity::Critical),
        ("gcp-gke-overprovisioned"@, "gke_cluster"@, Severity::High),
        ("gcp-bq-empty"@, "big_query_dataset"@, Severity::Low),
        ("gcp-bq-large"@, "big_query_dataset"@, Severity::Medium),
        ("gcp-pubsub-detached"@, "pub_sub_subscription"@, Severity::High),
        ("gcp-spanner-idle"@, "spanner_instance"@, Severity::High),
        ("gcp-memorystore-idle"@, "memorystore_instance"@, Severity::Medium),
        ("gcp-appengine-stopped"@, "app_engine_version"@, Severity::Low),
        ("gcp-nat-unused"@, "nat_gateway"@, Severity::Low),
        ("gcp-vpn-down"@, "vpn_tunnel"@, Severity::High),
        ("gcp-artifact-large"@, "artifact_registry_repo"@, Severity::Medium),
        ("gcp-dataproc-idle"@, "dataproc_cluster"@, Severity::High),
        ("gcp-secret-disabled"@, "secret_manager_secret"@, Severity::Low),
        ("gcp-logsink-disabled"@, "log_sink"@, Severity::Low),
    ]
}

/// The catalog holds, in order, each rule of the outline with its resource type and
/// severity, all enabled.
pub proof fn law_catalog_outline()
    ensures
        gcp_rule_table().len() == catalog_outline().len(),
        forall|i: int|
            0 <= i < gcp_rule_table().len() ==> (#[trigger] gcp_rule_table()[i]).id
                == catalog_outline()[i].0 && gcp_rule_table()[i].resource_type
                == catalog_outline()[i].1 && gcp_rule_table()[i].severity == catalog_outline()[i].2
                && gcp_rule_table()[i].enabled,
{
    assert forall|i: int| 0 <= i < gcp_rule_table().len() implies (#[trigger] gcp_rule_table()[i]).id
        == catalog_outline()[i].0 && gcp_rule_table()[i].resource_type == catalog_outline()[i].1
        && gcp_rule_table()[i].severity == catalog_outline()[i].2 && gcp_rule_table()[i].enabled by {}
}

} // verus!
