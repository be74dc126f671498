//! Detection of unused and wasteful resources: one check per rule, and the analysis
//! of a whole scan (rule overrides, findings ordered by savings, totals).
//!
//! Amounts of money are in billionths of a US dollar.

use vstd::prelude::*;
use crate::clock::{days_between, parse_rfc3339, rfc3339_instant, utc_now, whole_days};
use crate::json::{jget, jnanos, ji64, jstr};
use crate::numfmt::{
    one_decimal,
    plain_nanos,
    push_one_decimal,
    push_plain_nanos,
    push_whole_rounded,
    whole_rounded,
};
use crate::provider::{resource_type_name, resources_view, CloudResource, ResourceType, ResourceV};
use crate::rules::{
    all_gcp_rules, gcp_rule_table, law_catalog_ids_distinct_and_enabled, rules_view, DetectionRule,
    RuleV, Severity,
};
use crate::text::{
    cat3,
    dec_int,
    lowercase,
    push_dec_i64,
    str_eq,
    to_lower,
    to_upper,
    uppercase,
};

verus! {

/// A wasteful or unused resource found by a rule.
#[derive(Debug)]
pub struct Finding {
    pub id: String,
    pub resource_id: String,
    pub resource_name: String,
    pub resource_type: String,
    pub rule_id: String,
    pub rule_name: String,
    pub severity: Severity,
    pub description: String,
    pub recommendation: String,
    pub estimated_monthly_savings: u64,
    pub region: String,
}

/// The value of a finding.
pub struct FindingV {
    pub id: Seq<char>,
    pub resource_id: Seq<char>,
    pub resource_name: Seq<char>,
    pub resource_type: Seq<char>,
    pub rule_id: Seq<char>,
    pub rule_name: Seq<char>,
    pub severity: Severity,
    pub description: Seq<char>,
    pub recommendation: Seq<char>,
    pub estimated_monthly_savings: u64,
    pub region: Seq<char>,
}

impl View for Finding {
    type V = FindingV;

    open spec fn view(&self) -> FindingV {
        FindingV {
            id: self.id@,
            resource_id: self.resource_id@,
            resource_name: self.resource_name@,
            resource_type: self.resource_type@,
            rule_id: self.rule_id@,
            rule_name: self.rule_name@,
            severity: self.severity,
            description: self.description@,
            recommendation: self.recommendation@,
            estimated_monthly_savings: self.estimated_monthly_savings,
            region: self.region@,
        }
    }
}

/// The value of an optional finding.
pub open spec fn opt_finding_view(f: Option<Finding>) -> Option<FindingV> {
    match f {
        Some(x) => Some(x@),
        None => None,
    }
}

/// The values of a list of findings.
pub open spec fn findings_view(s: Seq<Finding>) -> Seq<FindingV> {
    Seq::new(s.len(), |i: int| s[i]@)
}

/// The findings of an analysis with their totals. `total_monthly_savings` is in
/// billionths of a US dollar.
#[derive(Debug)]
pub struct AnalysisSummary {
    pub total_findings: usize,
    pub total_monthly_savings: u128,
    pub critical_count: usize,
    pub high_count: usize,
    pub medium_count: usize,
    pub low_count: usize,
    pub findings: Vec<Finding>,
}

// ---------------------------------------------------------------------------
// What one check reads from a resource.
// ---------------------------------------------------------------------------

/// A text field of the resource's metadata, or `default`.
pub open spec fn meta_str_or(r: ResourceV, key: Seq<char>, default: Seq<char>) -> Seq<char> {
    match jstr(jget(r.metadata, key)) {
        Some(s) => s,
        None => default,
    }
}

/// A numeric field of the resource's metadata read as a fraction (in billionths), or 0.
pub open spec fn meta_nanos(r: ResourceV, key: Seq<char>) -> int {
    match jnanos(jget(r.metadata, key)) {
        Some(x) => x,
        None => 0,
    }
}

/// An integer field of the resource's metadata, or 0.
pub open spec fn meta_int(r: ResourceV, key: Seq<char>) -> int {
    match ji64(jget(r.metadata, key)) {
        Some(x) => x as int,
        None => 0,
    }
}

/// The resource's monthly cost, or `default`.
pub open spec fn cost_or(r: ResourceV, default: u64) -> u64 {
    match r.monthly_cost {
        Some(c) => c,
        None => default,
    }
}

/// The share `num / den` of an amount, rounded down.
pub open spec fn share(c: u64, num: int, den: int) -> u64 {
    (c * num / den) as u64
}

/// One gibibyte.
pub open spec fn gib() -> int {
    1073741824
}

/// The finding a rule reports for a resource.
pub open spec fn make_finding_v(
    r: ResourceV,
    rule: RuleV,
    description: Seq<char>,
    recommendation: Seq<char>,
    savings: u64,
) -> FindingV {
    FindingV {
        id: rule.id + "-"@ + r.id,
        resource_id: r.id,
        resource_name: r.name,
        resource_type: resource_type_name(r.resource_type),
        rule_id: rule.id,
        rule_name: rule.name,
        severity: rule.severity,
        description,
        recommendation,
        estimated_monthly_savings: savings,
        region: r.region,
    }
}

// ---------------------------------------------------------------------------
// The checks. `up` is the resource status in upper case, `low` is `up` in lower
// case, `age` is the resource's age in whole days when its creation time is known.
// ---------------------------------------------------------------------------

pub open spec fn vm_stopped(r: ResourceV, rule: RuleV, up: Seq<char>) -> Option<FindingV> {
    if r.resource_type == ResourceType::VirtualMachine && up == "TERMINATED"@ {
        Some(
            make_finding_v(
                r,
                rule,
                "VM '"@ + r.name + "' ("@ + meta_str_or(r, "machine_type"@, "unknown"@)
                    + ") is stopped/terminated in "@ + r.region,
                "Delete or restart this VM. Stopped VMs still incur costs for attached disks and reserved IPs."@,
                cost_or(r, 0),
            ),
        )
    } else {
        None
    }
}

pub open spec fn disk_unattached(r: ResourceV, rule: RuleV, up: Seq<char>) -> Option<FindingV> {
    if r.resource_type == ResourceType::Disk && up == "UNATTACHED"@ {
        Some(
            make_finding_v(
                r,
                rule,
                "Disk '"@ + r.name + "' ("@ + plain_nanos(meta_nanos(r, "size_gb"@)) + " GB, "@
                    + meta_str_or(r, "disk_type"@, "unknown"@)
                    + ") is not attached to any instance"@,
                "Snapshot this disk for backup, then delete it to save costs."@,
                cost_or(r, 0),
            ),
        )
    } else {
        None
    }
}

pub open spec fn disk_large_unused(r: ResourceV, rule: RuleV, up: Seq<char>) -> Option<FindingV> {
    if r.resource_type == ResourceType::Disk && up == "UNATTACHED"@ && meta_nanos(r, "size_gb"@)
        > 100 * 1_000_000_000 {
        Some(
            make_finding_v(
                r,
                rule,
                "Large unattached disk '"@ + r.name + "' ("@ + plain_nanos(meta_nanos(r, "size_gb"@))
                    + " GB) is wasting significant storage costs"@,
                "This disk is large and unattached. Delete it immediately or snapshot and delete."@,
                cost_or(r, 0),
            ),
        )
    } else {
        None
    }
}

pub open spec fn snapshot_old(r: ResourceV, rule: RuleV, age: Option<int>) -> Option<FindingV> {
    if r.resource_type == ResourceType::Snapshot && age is Some && age->0 > 90 {
        Some(
            make_finding_v(
                r,
                rule,
                "Snapshot '"@ + r.name + "' is "@ + dec_int(age->0) + " days old"@,
                "Review if this snapshot is still needed. Old snapshots accumulate storage costs."@,
                cost_or(r, 0),
            ),
        )
    } else {
        None
    }
}

pub open spec fn ip_unused(r: ResourceV, rule: RuleV, up: Seq<char>) -> Option<FindingV> {
    if r.resource_type == ResourceType::ElasticIp && up == "RESERVED"@ {
        Some(
            make_finding_v(
                r,
                rule,
                "Static IP '"@ + r.name + "' ("@ + meta_str_or(r, "address"@, "unknown"@)
                    + ") is reserved but not in use"@,
                "Release this static IP or assign it to a resource. Unused IPs cost $7.30/month."@,
                7_300_000_000,
            ),
        )
    } else {
        None
    }
}

pub open spec fn lb_no_target(r: ResourceV, rule: RuleV, up: Seq<char>) -> Option<FindingV> {
    if r.resource_type == ResourceType::LoadBalancer && up == "NO_TARGET"@ {
        Some(
            make_finding_v(
                r,
                rule,
                "Forwarding rule '"@ + r.name + "' has no backend target"@,
                "This load balancer has no targets. Delete it if no longer needed."@,
                cost_or(r, 18_260_000_000),
            ),
        )
    } else {
        None
    }
}

pub open spec fn fw_disabled(r: ResourceV, rule: RuleV, up: Seq<char>) -> Option<FindingV> {
    if r.resource_type == ResourceType::SecurityGroup && up == "DISABLED"@ {
        Some(
            make_finding_v(
                r,
                rule,
                "Firewall rule '"@ + r.name + "' is disabled"@,
                "Review if this firewall rule is still needed. Disabled rules add clutter."@,
                0,
            ),
        )
    } else {
        None
    }
}

pub open spec fn image_old(r: ResourceV, rule: RuleV, age: Option<int>) -> Option<FindingV> {
    if r.resource_type == ResourceType::MachineImage && age is Some && age->0 > 180 {
        Some(
            make_finding_v(
                r,
                rule,
                "Image '"@ + r.name + "' is "@ + dec_int(age->0) + " days old"@,
                "Old custom images accumulate storage costs. Delete if no longer needed."@,
                cost_or(r, 0),
            ),
        )
    } else {
        None
    }
}

pub open spec fn sql_stopped(r: ResourceV, rule: RuleV, up: Seq<char>, low: Seq<char>) -> Option<
    FindingV,
> {
    if r.resource_type == ResourceType::CloudSqlInstance && (up == "STOPPED"@ || up
        == "SUSPENDED"@) {
        Some(
            make_finding_v(
                r,
                rule,
                "Cloud SQL instance '"@ + r.name + "' ("@ + meta_str_or(r, "tier"@, "unknown"@)
                    + ") is "@ + low + " \u{2014} still incurs storage costs"@,
                "Delete this instance if no longer needed, or restart it. Stopped instances still pay for storage."@,
                share(cost_or(r, 0), 3, 10),
            ),
        )
    } else {
        None
    }
}

pub open spec fn function_idle(r: ResourceV, rule: RuleV) -> Option<FindingV> {
    if r.resource_type == ResourceType::ServerlessFunction && meta_int(r, "min_instances"@) > 0 {
        Some(
            make_finding_v(
                r,
                rule,
                "Cloud Function '"@ + r.name + "' has "@ + dec_int(meta_int(r, "min_instances"@))
                    + " min instances configured, incurring idle costs"@,
                "Set min instances to 0 if cold starts are acceptable. Min instances cost money even without invocations."@,
                cost_or(r, 0),
            ),
        )
    } else {
        None
    }
}

pub open spec fn run_idle(r: ResourceV, rule: RuleV) -> Option<FindingV> {
    if r.resource_type == ResourceType::CloudRunService && meta_int(r, "min_instances"@) > 0 {
        Some(
            make_finding_v(
                r,
                rule,
                "Cloud Run service '"@ + r.name + "' has "@ + dec_int(meta_int(r, "min_instances"@))
                    + " min instances, incurring idle costs"@,
                "Set min instances to 0 if cold starts are acceptable to eliminate idle costs."@,
                cost_or(r, 0),
            ),
        )
    } else {
        None
    }
}

/// Resource types that carry no user labels and are not reported as untagged.
pub open spec fn untaggable(t: ResourceType) -> bool {
    t == ResourceType::SecurityGroup || t == ResourceType::Network || t == ResourceType::LogSink
        || t == ResourceType::PubSubTopic || t == ResourceType::PubSubSubscription || t
        == ResourceType::NatGateway
}

pub open spec fn untagged(r: ResourceV, rule: RuleV) -> Option<FindingV> {
    if !untaggable(r.resource_type) && r.tags.len() == 0 {
        Some(
            make_finding_v(
                r,
                rule,
                resource_type_name(r.resource_type) + " '"@ + r.name + "' has no labels/tags"@,
                "Add labels for cost allocation, ownership tracking, and environment identification."@,
                0,
            ),
        )
    } else {
        None
    }
}

pub open spec fn gke_degraded(r: ResourceV, rule: RuleV, up: Seq<char>) -> Option<FindingV> {
    if r.resource_type == ResourceType::GkeCluster && (up == "ERROR"@ || up == "DEGRADED"@) {
        Some(
            make_finding_v(
                r,
                rule,
                "GKE cluster '"@ + r.name + "' is in "@ + up + " state"@,
                "Investigate and repair this cluster, or delete if no longer needed."@,
                cost_or(r, 0),
            ),
        )
    } else {
        None
    }
}

pub open spec fn gke_overprovisioned(r: ResourceV, rule: RuleV) -> Option<FindingV> {
    if r.resource_type == ResourceType::GkeCluster && meta_int(r, "current_node_count"@) >= 10 {
        Some(
            make_finding_v(
                r,
                rule,
                "GKE cluster '"@ + r.name + "' has "@ + dec_int(meta_int(r, "current_node_count"@))
                    + " nodes \u{2014} review if all are needed"@,
                "Consider enabling cluster autoscaler or reducing node pool size to match actual workload."@,
                share(cost_or(r, 0), 3, 10),
            ),
        )
    } else {
        None
    }
}

pub open spec fn bq_empty(r: ResourceV, rule: RuleV, up: Seq<char>) -> Option<FindingV> {
    if r.resource_type == ResourceType::BigQueryDataset && up == "EMPTY"@ {
        Some(
            make_finding_v(
                r,
                rule,
                "BigQuery dataset '"@ + r.name + "' has no tables"@,
                "Delete empty datasets to reduce clutter."@,
                0,
            ),
        )
    } else {
        None
    }
}

pub open spec fn bq_large(r: ResourceV, rule: RuleV) -> Option<FindingV> {
    if r.resource_type == ResourceType::BigQueryDataset && meta_nanos(r, "total_size_bytes"@)
        > 100 * gib() * 1_000_000_000 {
        Some(
            make_finding_v(
                r,
                rule,
                "BigQuery dataset '"@ + r.name + "' is "@ + one_decimal(
                    (meta_nanos(r, "total_size_bytes"@) / gib()) as nat,
                ) + " GB \u{2014} review table expiration and partitioning"@,
                "Set table expiration policies, use partitioning, and archive old data to reduce storage costs."@,
                share(cost_or(r, 0), 2, 10),
            ),
        )
    } else {
        None
    }
}

pub open spec fn pubsub_detached(r: ResourceV, rule: RuleV, up: Seq<char>) -> Option<FindingV> {
    if r.resource_type == ResourceType::PubSubSubscription && up == "DETACHED"@ {
        Some(
            make_finding_v(
                r,
                rule,
                "Pub/Sub subscription '"@ + r.name
                    + "' is detached \u{2014} topic has been deleted"@,
                "Delete this orphaned subscription as it will never receive new messages."@,
                0,
            ),
        )
    } else {
        None
    }
}

pub open spec fn spanner_idle(r: ResourceV, rule: RuleV) -> Option<FindingV> {
    if r.resource_type == ResourceType::SpannerInstance && cost_or(r, 0) > 0 {
        Some(
            make_finding_v(
                r,
                rule,
                "Spanner instance '"@ + r.name + "' costs $"@ + whole_rounded(cost_or(r, 0) as nat)
                    + "/month \u{2014} verify it's actively used"@,
                "Cloud Spanner is very expensive. Scale down processing units or delete if not actively used."@,
                share(cost_or(r, 0), 3, 10),
            ),
        )
    } else {
        None
    }
}

pub open spec fn memorystore_idle(r: ResourceV, rule: RuleV, up: Seq<char>) -> Option<FindingV> {
    if r.resource_type == ResourceType::MemorystoreInstance && (up == "RUNNING"@ || up
        == "READY"@) {
        Some(
            make_finding_v(
                r,
                rule,
                "Memorystore instance '"@ + r.name + "' is running \u{2014} verify it's actively used"@,
                "Review if this Redis instance is still needed. Consider downscaling memory if underutilized."@,
                share(cost_or(r, 0), 2, 10),
            ),
        )
    } else {
        None
    }
}

pub open spec fn appengine_stopped(r: ResourceV, rule: RuleV, up: Seq<char>) -> Option<FindingV> {
    if r.resource_type == ResourceType::AppEngineVersion && up == "STOPPED"@ {
        Some(
            make_finding_v(
                r,
                rule,
                "App Engine version '"@ + r.name + "' is stopped but still deployed"@,
                "Delete unused App Engine versions to clean up."@,
                0,
            ),
        )
    } else {
        None
    }
}

pub open spec fn nat_unused(r: ResourceV, rule: RuleV) -> Option<FindingV> {
    if r.resource_type == ResourceType::NatGateway {
        Some(
            make_finding_v(
                r,
                rule,
                "Cloud NAT gateway '"@ + r.name + "' costs ~$"@ + whole_rounded(
                    cost_or(r, 31_680_000_000) as nat,
                ) + "/month"@,
                "Review if this NAT gateway is still needed. Each gateway incurs hourly charges."@,
                cost_or(r, 31_680_000_000),
            ),
        )
    } else {
        None
    }
}

pub open spec fn vpn_down(r: ResourceV, rule: RuleV, up: Seq<char>) -> Option<FindingV> {
    if r.resource_type == ResourceType::VpnTunnel && up != "ESTABLISHED"@ {
        Some(
            make_finding_v(
                r,
                rule,
                "VPN tunnel '"@ + r.name + "' is in "@ + up + " state \u{2014} not connected"@,
                "Fix or delete this VPN tunnel. Non-established tunnels still incur costs."@,
                cost_or(r, 54_000_000_000),
            ),
        )
    } else {
        None
    }
}

pub open spec fn artifact_large(r: ResourceV, rule: RuleV) -> Option<FindingV> {
    if r.resource_type == ResourceType::ArtifactRegistryRepo && meta_nanos(r, "size_bytes"@) > 10
        * gib() * 1_000_000_000 {
        Some(
            make_finding_v(
                r,
                rule,
                "Artifact Registry repo '"@ + r.name + "' is "@ + one_decimal(
                    (meta_nanos(r, "size_bytes"@) / gib()) as nat,
                ) + " GB"@,
                "Set up cleanup policies to remove old container images and reduce storage costs."@,
                share(cost_or(r, 0), 3, 10),
            ),
        )
    } else {
        None
    }
}

pub open spec fn dataproc_idle(r: ResourceV, rule: RuleV, up: Seq<char>) -> Option<FindingV> {
    if r.resource_type == ResourceType::DataprocCluster && up == "RUNNING"@ {
        Some(
            make_finding_v(
                r,
                rule,
                "Dataproc cluster '"@ + r.name
                    + "' is running \u{2014} verify it's actively processing jobs"@,
                "Consider using ephemeral clusters (create per job, delete after). Long-running clusters waste money."@,
                share(cost_or(r, 0), 5, 10),
            ),
        )
    } else {
        None
    }
}

pub open spec fn secret_disabled(r: ResourceV, rule: RuleV, up: Seq<char>) -> Option<FindingV> {
    if r.resource_type == ResourceType::SecretManagerSecret && up == "DISABLED"@ {
        Some(
            make_finding_v(
                r,
                rule,
                "Secret '"@ + r.name + "' has no active versions"@,
                "Delete unused secrets to reduce clutter and minor storage costs."@,
                cost_or(r, 0),
            ),
        )
    } else {
        None
    }
}

pub open spec fn logsink_disabled(r: ResourceV, rule: RuleV, up: Seq<char>) -> Option<FindingV> {
    if r.resource_type == ResourceType::LogSink && up == "DISABLED"@ {
        Some(
            make_finding_v(
                r,
                rule,
                "Log sink '"@ + r.name + "' is disabled"@,
                "Delete disabled log sinks if they're no longer needed."@,
                0,
            ),
        )
    } else {
        None
    }
}

/// What a rule reports for a resource, chosen by the rule's id; unknown ids report nothing.
pub open spec fn rule_outcome(
    r: ResourceV,
    rule: RuleV,
    up: Seq<char>,
    low: Seq<char>,
    age: Option<int>,
) -> Option<FindingV> {
    let id = rule.id;
    if id == "gcp-vm-stopped"@ {
        vm_stopped(r, rule, up)
    } else if id == "gcp-disk-unattached"@ {
        disk_unattached(r, rule, up)
    } else if id == "gcp-disk-large-unused"@ {
        disk_large_unused(r, rule, up)
    } else if id == "gcp-snapshot-old"@ {
        snapshot_old(r, rule, age)
    } else if id == "gcp-ip-unused"@ {
        ip_unused(r, rule, up)
    } else if id == "gcp-lb-no-target"@ {
        lb_no_target(r, rule, up)
    } else if id == "gcp-fw-disabled"@ {
        fw_disabled(r, rule, up)
    } else if id == "gcp-image-old"@ {
        image_old(r, rule, age)
    } else if id == "gcp-sql-stopped"@ {
        sql_stopped(r, rule, up, low)
    } else if id == "gcp-function-idle"@ {
        function_idle(r, rule)
    } else if id == "gcp-run-idle"@ {
        run_idle(r, rule)
    } else if id == "gcp-resource-untagged"@ {
        untagged(r, rule)
    } else if id == "gcp-gke-degraded"@ {
        gke_degraded(r, rule, up)
    } else if id == "gcp-gke-overprovisioned"@ {
        gke_overprovisioned(r, rule)
    } else if id == "gcp-bq-empty"@ {
        bq_empty(r, rule, up)
    } else if id == "gcp-bq-large"@ {
        bq_large(r, rule)
    } else if id == "gcp-pubsub-detached"@ {
        pubsub_detached(r, rule, up)
    } else if id == "gcp-spanner-idle"@ {
        spanner_idle(r, rule)
    } else if id == "gcp-memorystore-idle"@ {
        memorystore_idle(r, rule, up)
    } else if id == "gcp-appengine-stopped"@ {
        appengine_stopped(r, rule, up)
    } else if id == "gcp-nat-unused"@ {
        nat_unused(r, rule)
    } else if id == "gcp-vpn-down"@ {
        vpn_down(r, rule, up)
    } else if id == "gcp-artifact-large"@ {
        artifact_large(r, rule)
    } else if id == "gcp-dataproc-idle"@ {
        dataproc_idle(r, rule, up)
    } else if id == "gcp-secret-disabled"@ {
        secret_disabled(r, rule, up)
    } else if id == "gcp-logsink-disabled"@ {
        logsink_disabled(r, rule, up)
    } else {
        None
    }
}

/// The age in whole days of a resource created at `created`, measured at `now`, when the
/// creation time is present and reads as RFC 3339.
pub open spec fn age_days(created: Option<Seq<char>>, now: (i64, u32)) -> Option<int> {
    match created {
        None => None,
        Some(c) => match rfc3339_instant(c) {
            None => None,
            Some(t) => Some(whole_days(now, t)),
        },
    }
}

/// What a rule reports for a resource at time `now`.
pub open spec fn check_outcome(r: ResourceV, rule: RuleV, now: (i64, u32)) -> Option<FindingV> {
    rule_outcome(
        r,
        rule,
        uppercase(r.status),
        lowercase(uppercase(r.status)),
        age_days(r.created_at, now),
    )
}

// ---------------------------------------------------------------------------
// Executable checks.
// ---------------------------------------------------------------------------

fn meta_str<'a>(r: &'a CloudResource, key: &str, default: &'a str) -> (s: &'a str)
    ensures
        s@ == meta_str_or(r@, key@, default@),
{
    match r.metadata.get_str(key) {
        Some(x) => x.as_str(),
        None => default,
    }
}

fn meta_nanos_of(r: &CloudResource, key: &str) -> (x: i128)
    ensures
        x as int == meta_nanos(r@, key@),
{
    match r.metadata.get_nanos(key) {
        Some(x) => x,
        None => 0,
    }
}

fn meta_int_of(r: &CloudResource, key: &str) -> (x: i64)
    ensures
        x as int == meta_int(r@, key@),
{
    match r.metadata.get_i64(key) {
        Some(x) => x,
        None => 0,
    }
}

fn cost_or_of(r: &CloudResource, default: u64) -> (c: u64)
    ensures
        c == cost_or(r@, default),
{
    match r.monthly_cost {
        Some(c) => c,
        None => default,
    }
}

fn share_of(c: u64, num: u64, den: u64) -> (r: u64)
    requires
        0 < den <= 100,
        num <= den,
    ensures
        r == share(c, num as int, den as int),
{
    assert((c as u128) * (num as u128) <= 0xffff_ffff_ffff_ffff * 100) by (nonlinear_arith)
        requires
            num <= 100,
            c <= 0xffff_ffff_ffff_ffff,
    ;
    let p: u128 = (c as u128) * (num as u128);
    assert(p <= (c as u128) * (den as u128)) by (nonlinear_arith)
        requires
            p == (c as u128) * (num as u128),
            num <= den,
    ;
    assert(p / (den as u128) <= c) by (nonlinear_arith)
        requires
            p <= (c as u128) * (den as u128),
            0 < den,
    ;
    (p / (den as u128)) as u64
}

fn make_finding(
    r: &CloudResource,
    rule: &DetectionRule,
    description: String,
    recommendation: String,
    savings: u64,
) -> (f: Finding)
    ensures
        f@ == make_finding_v(r@, rule@, description@, recommendation@, savings),
{
    Finding {
        id: cat3(rule.id.as_str(), "-", r.id.as_str()),
        resource_id: r.id.clone(),
        resource_name: r.name.clone(),
        resource_type: r.resource_type.name_string(),
        rule_id: rule.id.clone(),
        rule_name: rule.name.clone(),
        severity: rule.severity,
        description,
        recommendation,
        estimated_monthly_savings: savings,
        region: r.region.clone(),
    }
}

fn text(s: &str) -> (r: String)
    ensures
        r@ == s@,
{
    String::from_str(s)
}

fn check_vm_stopped(r: &CloudResource, rule: &DetectionRule, up: &str) -> (f: Option<Finding>)
    ensures
        opt_finding_view(f) == vm_stopped(r@, rule@, up@),
{
    if r.resource_type == ResourceType::VirtualMachine && str_eq(up, "TERMINATED") {
        let mut d = text("VM '");
        d.append(r.name.as_str());
        d.append("' (");
        d.append(meta_str(r, "machine_type", "unknown"));
        d.append(") is stopped/terminated in ");
        d.append(r.region.as_str());
        Some(
            make_finding(
                r,
                rule,
                d,
                text(
                    "Delete or restart this VM. Stopped VMs still incur costs for attached disks and reserved IPs.",
                ),
                cost_or_of(r, 0),
            ),
        )
    } else {
        None
    }
}

fn check_disk_unattached(r: &CloudResource, rule: &DetectionRule, up: &str) -> (f: Option<
    Finding,
>)
    ensures
        opt_finding_view(f) == disk_unattached(r@, rule@, up@),
{
    if r.resource_type == ResourceType::Disk && str_eq(up, "UNATTACHED") {
        let mut d = text("Disk '");
        d.append(r.name.as_str());
        d.append("' (");
        push_plain_nanos(&mut d, meta_nanos_of(r, "size_gb"));
        d.append(" GB, ");
        d.append(meta_str(r, "disk_type", "unknown"));
        d.append(") is not attached to any instance");
        Some(
            make_finding(
                r,
                rule,
                d,
                text("Snapshot this disk for backup, then delete it to save costs."),
                cost_or_of(r, 0),
            ),
        )
    } else {
        None
    }
}

fn check_disk_large_unused(r: &CloudResource, rule: &DetectionRule, up: &str) -> (f: Option<
    Finding,
>)
    ensures
        opt_finding_view(f) == disk_large_unused(r@, rule@, up@),
{
    if r.resource_type != ResourceType::Disk {
        return None;
    }
    if !str_eq(up, "UNATTACHED") {
        return None;
    }
    let size = meta_nanos_of(r, "size_gb");
    if size > 100 * 1_000_000_000 {
        let mut d = text("Large unattached disk '");
        d.append(r.name.as_str());
        d.append("' (");
        push_plain_nanos(&mut d, size);
        d.append(" GB) is wasting significant storage costs");
        Some(
            make_finding(
                r,
                rule,
                d,
                text(
                    "This disk is large and unattached. Delete it immediately or snapshot and delete.",
                ),
                cost_or_of(r, 0),
            ),
        )
    } else {
        None
    }
}

fn check_snapshot_old(r: &CloudResource, rule: &DetectionRule, age: Option<i64>) -> (f: Option<
    Finding,
>)
    ensures
        opt_finding_view(f) == snapshot_old(r@, rule@, opt_int(age)),
{
    if r.resource_type != ResourceType::Snapshot {
        return None;
    }
    match age {
        Some(a) => if a > 90 {
            let mut d = text("Snapshot '");
            d.append(r.name.as_str());
            d.append("' is ");
            push_dec_i64(&mut d, a);
            d.append(" days old");
            Some(
                make_finding(
                    r,
                    rule,
                    d,
                    text(
                        "Review if this snapshot is still needed. Old snapshots accumulate storage costs.",
                    ),
                    cost_or_of(r, 0),
                ),
            )
        } else {
            None
        },
        None => None,
    }
}

fn check_ip_unused(r: &CloudResource, rule: &DetectionRule, up: &str) -> (f: Option<Finding>)
    ensures
        opt_finding_view(f) == ip_unused(r@, rule@, up@),
{
    if r.resource_type == ResourceType::ElasticIp && str_eq(up, "RESERVED") {
        let mut d = text("Static IP '");
        d.append(r.name.as_str());
        d.append("' (");
        d.append(meta_str(r, "address", "unknown"));
        d.append(") is reserved but not in use");
        Some(
            make_finding(
                r,
                rule,
                d,
                text(
                    "Release this static IP or assign it to a resource. Unused IPs cost $7.30/month.",
                ),
                7_300_000_000,
            ),
        )
    } else {
        None
    }
}

fn check_lb_no_target(r: &CloudResource, rule: &DetectionRule, up: &str) -> (f: Option<Finding>)
    ensures
        opt_finding_view(f) == lb_no_target(r@, rule@, up@),
{
    if r.resource_type == ResourceType::LoadBalancer && str_eq(up, "NO_TARGET") {
        let mut d = text("Forwarding rule '");
        d.append(r.name.as_str());
        d.append("' has no backend target");
        Some(
            make_finding(
                r,
                rule,
                d,
                text("This load balancer has no targets. Delete it if no longer needed."),
                cost_or_of(r, 18_260_000_000),
            ),
        )
    } else {
        None
    }
}

fn check_fw_disabled(r: &CloudResource, rule: &DetectionRule, up: &str) -> (f: Option<Finding>)
    ensures
        opt_finding_view(f) == fw_disabled(r@, rule@, up@),
{
    if r.resource_type == ResourceType::SecurityGroup && str_eq(up, "DISABLED") {
        let mut d = text("Firewall rule '");
        d.append(r.name.as_str());
        d.append("' is disabled");
        Some(
            make_finding(
                r,
                rule,
                d,
                text("Review if this firewall rule is still needed. Disabled rules add clutter."),
                0,
            ),
        )
    } else {
        None
    }
}

fn check_image_old(r: &CloudResource, rule: &DetectionRule, age: Option<i64>) -> (f: Option<
    Finding,
>)
    ensures
        opt_finding_view(f) == image_old(r@, rule@, opt_int(age)),
{
    if r.resource_type != ResourceType::MachineImage {
        return None;
    }
    match age {
        Some(a) => if a > 180 {
            let mut d = text("Image '");
            d.append(r.name.as_str());
            d.append("' is ");
            push_dec_i64(&mut d, a);
            d.append(" days old");
            Some(
                make_finding(
                    r,
                    rule,
                    d,
                    text(
                        "Old custom images accumulate storage costs. Delete if no longer needed.",
                    ),
                    cost_or_of(r, 0),
                ),
            )
        } else {
            None
        },
        None => None,
    }
}

fn check_sql_stopped(r: &CloudResource, rule: &DetectionRule, up: &str, low: &str) -> (f: Option<
    Finding,
>)
    ensures
        opt_finding_view(f) == sql_stopped(r@, rule@, up@, low@),
{
    if r.resource_type == ResourceType::CloudSqlInstance && (str_eq(up, "STOPPED") || str_eq(
        up,
        "SUSPENDED",
    )) {
        let mut d = text("Cloud SQL instance '");
        d.append(r.name.as_str());
        d.append("' (");
        d.append(meta_str(r, "tier", "unknown"));
        d.append(") is ");
        d.append(low);
        d.append(" \u{2014} still incurs storage costs");
        Some(
            make_finding(
                r,
                rule,
                d,
                text(
                    "Delete this instance if no longer needed, or restart it. Stopped instances still pay for storage.",
                ),
                share_of(cost_or_of(r, 0), 3, 10),
            ),
        )
    } else {
        None
    }
}

fn check_function_idle(r: &CloudResource, rule: &DetectionRule) -> (f: Option<Finding>)
    ensures
        opt_finding_view(f) == function_idle(r@, rule@),
{
    if r.resource_type != ResourceType::ServerlessFunction {
        return None;
    }
    let m = meta_int_of(r, "min_instances");
    if m > 0 {
        let mut d = text("Cloud Function '");
        d.append(r.name.as_str());
        d.append("' has ");
        push_dec_i64(&mut d, m);
        d.append(" min instances configured, incurring idle costs");
        Some(
            make_finding(
                r,
                rule,
                d,
                text(
                    "Set min instances to 0 if cold starts are acceptable. Min instances cost money even without invocations.",
                ),
                cost_or_of(r, 0),
            ),
        )
    } else {
        None
    }
}

fn check_run_idle(r: &CloudResource, rule: &DetectionRule) -> (f: Option<Finding>)
    ensures
        opt_finding_view(f) == run_idle(r@, rule@),
{
    if r.resource_type != ResourceType::CloudRunService {
        return None;
    }
    let m = meta_int_of(r, "min_instances");
    if m > 0 {
        let mut d = text("Cloud Run service '");
        d.append(r.name.as_str());
        d.append("' has ");
        push_dec_i64(&mut d, m);
        d.append(" min instances, incurring idle costs");
        Some(
            make_finding(
                r,
                rule,
                d,
                text(
                    "Set min instances to 0 if cold starts are acceptable to eliminate idle costs.",
                ),
                cost_or_of(r, 0),
            ),
        )
    } else {
        None
    }
}

fn check_untagged(r: &CloudResource, rule: &DetectionRule) -> (f: Option<Finding>)
    ensures
        opt_finding_view(f) == untagged(r@, rule@),
{
    let t = r.resource_type;
    if t == ResourceType::SecurityGroup || t == ResourceType::Network || t == ResourceType::LogSink
        || t == ResourceType::PubSubTopic || t == ResourceType::PubSubSubscription || t
        == ResourceType::NatGateway {
        return None;
    }
    if r.tags.len() == 0 {
        let mut d = text(t.name());
        d.append(" '");
        d.append(r.name.as_str());
        d.append("' has no labels/tags");
        Some(
            make_finding(
                r,
                rule,
                d,
                text(
                    "Add labels for cost allocation, ownership tracking, and environment identification.",
                ),
                0,
            ),
        )
    } else {
        None
    }
}

fn check_gke_degraded(r: &CloudResource, rule: &DetectionRule, up: &str) -> (f: Option<Finding>)
    ensures
        opt_finding_view(f) == gke_degraded(r@, rule@, up@),
{
    if r.resource_type == ResourceType::GkeCluster && (str_eq(up, "ERROR") || str_eq(
        up,
        "DEGRADED",
    )) {
        let mut d = text("GKE cluster '");
        d.append(r.name.as_str());
        d.append("' is in ");
        d.append(up);
        d.append(" state");
        Some(
            make_finding(
                r,
                rule,
                d,
                text("Investigate and repair this cluster, or delete if no longer needed."),
                cost_or_of(r, 0),
            ),
        )
    } else {
        None
    }
}

fn check_gke_overprovisioned(r: &CloudResource, rule: &DetectionRule) -> (f: Option<Finding>)
    ensures
        opt_finding_view(f) == gke_overprovisioned(r@, rule@),
{
    if r.resource_type != ResourceType::GkeCluster {
        return None;
    }
    let n = meta_int_of(r, "current_node_count");
    if n >= 10 {
        let mut d = text("GKE cluster '");
        d.append(r.name.as_str());
        d.append("' has ");
        push_dec_i64(&mut d, n);
        d.append(" nodes \u{2014} review if all are needed");
        Some(
            make_finding(
                r,
                rule,
                d,
                text(
                    "Consider enabling cluster autoscaler or reducing node pool size to match actual workload.",
                ),
                share_of(cost_or_of(r, 0), 3, 10),
            ),
        )
    } else {
        None
    }
}

fn check_bq_empty(r: &CloudResource, rule: &DetectionRule, up: &str) -> (f: Option<Finding>)
    ensures
        opt_finding_view(f) == bq_empty(r@, rule@, up@),
{
    if r.resource_type == ResourceType::BigQueryDataset && str_eq(up, "EMPTY") {
        let mut d = text("BigQuery dataset '");
        d.append(r.name.as_str());
        d.append("' has no tables");
        Some(make_finding(r, rule, d, text("Delete empty datasets to reduce clutter."), 0))
    } else {
        None
    }
}

fn check_bq_large(r: &CloudResource, rule: &DetectionRule) -> (f: Option<Finding>)
    ensures
        opt_finding_view(f) == bq_large(r@, rule@),
{
    if r.resource_type != ResourceType::BigQueryDataset {
        return None;
    }
    let b = meta_nanos_of(r, "total_size_bytes");
    if b > 100 * 1073741824 * 1_000_000_000 {
        let mut d = text("BigQuery dataset '");
        d.append(r.name.as_str());
        d.append("' is ");
        push_one_decimal(&mut d, (b / 1073741824) as u128);
        d.append(" GB \u{2014} review table expiration and partitioning");
        Some(
            make_finding(
                r,
                rule,
                d,
                text(
                    "Set table expiration policies, use partitioning, and archive old data to reduce storage costs.",
                ),
                share_of(cost_or_of(r, 0), 2, 10),
            ),
        )
    } else {
        None
    }
}

fn check_pubsub_detached(r: &CloudResource, rule: &DetectionRule, up: &str) -> (f: Option<
    Finding,
>)
    ensures
        opt_finding_view(f) == pubsub_detached(r@, rule@, up@),
{
    if r.resource_type == ResourceType::PubSubSubscription && str_eq(up, "DETACHED") {
        let mut d = text("Pub/Sub subscription '");
        d.append(r.name.as_str());
        d.append("' is detached \u{2014} topic has been deleted");
        Some(
            make_finding(
                r,
                rule,
                d,
                text("Delete this orphaned subscription as it will never receive new messages."),
                0,
            ),
        )
    } else {
        None
    }
}

fn check_spanner_idle(r: &CloudResource, rule: &DetectionRule) -> (f: Option<Finding>)
    ensures
        opt_finding_view(f) == spanner_idle(r@, rule@),
{
    if r.resource_type != ResourceType::SpannerInstance {
        return None;
    }
    let c = cost_or_of(r, 0);
    if c > 0 {
        let mut d = text("Spanner instance '");
        d.append(r.name.as_str());
        d.append("' costs $");
        push_whole_rounded(&mut d, c);
        d.append("/month \u{2014} verify it's actively used");
        Some(
            make_finding(
                r,
                rule,
                d,
                text(
                    "Cloud Spanner is very expensive. Scale down processing units or delete if not actively used.",
                ),
                share_of(c, 3, 10),
            ),
        )
    } else {
        None
    }
}

fn check_memorystore_idle(r: &CloudResource, rule: &DetectionRule, up: &str) -> (f: Option<
    Finding,
>)
    ensures
        opt_finding_view(f) == memorystore_idle(r@, rule@, up@),
{
    if r.resource_type == ResourceType::MemorystoreInstance && (str_eq(up, "RUNNING") || str_eq(
        up,
        "READY",
    )) {
        let mut d = text("Memorystore instance '");
        d.append(r.name.as_str());
        d.append("' is running \u{2014} verify it's actively used");
        Some(
            make_finding(
                r,
                rule,
                d,
                text(
                    "Review if this Redis instance is still needed. Consider downscaling memory if underutilized.",
                ),
                share_of(cost_or_of(r, 0), 2, 10),
            ),
        )
    } else {
        None
    }
}

fn check_appengine_stopped(r: &CloudResource, rule: &DetectionRule, up: &str) -> (f: Option<
    Finding,
>)
    ensures
        opt_finding_view(f) == appengine_stopped(r@, rule@, up@),
{
    if r.resource_type == ResourceType::AppEngineVersion && str_eq(up, "STOPPED") {
        let mut d = text("App Engine version '");
        d.append(r.name.as_str());
        d.append("' is stopped but still deployed");
        Some(make_finding(r, rule, d, text("Delete unused App Engine versions to clean up."), 0))
    } else {
        None
    }
}

fn check_nat_unused(r: &CloudResource, rule: &DetectionRule) -> (f: Option<Finding>)
    ensures
        opt_finding_view(f) == nat_unused(r@, rule@),
{
    if r.resource_type != ResourceType::NatGateway {
        return None;
    }
    let c = cost_or_of(r, 31_680_000_000);
    let mut d = text("Cloud NAT gateway '");
    d.append(r.name.as_str());
    d.append("' costs ~$");
    push_whole_rounded(&mut d, c);
    d.append("/month");
    Some(
        make_finding(
            r,
            rule,
            d,
            text("Review if this NAT gateway is still needed. Each gateway incurs hourly charges."),
            c,
        ),
    )
}

fn check_vpn_down(r: &CloudResource, rule: &DetectionRule, up: &str) -> (f: Option<Finding>)
    ensures
        opt_finding_view(f) == vpn_down(r@, rule@, up@),
{
    if r.resource_type == ResourceType::VpnTunnel && !str_eq(up, "ESTABLISHED") {
        let mut d = text("VPN tunnel '");
        d.append(r.name.as_str());
        d.append("' is in ");
        d.append(up);
        d.append(" state \u{2014} not connected");
        Some(
            make_finding(
                r,
                rule,
                d,
                text("Fix or delete this VPN tunnel. Non-established tunnels still incur costs."),
                cost_or_of(r, 54_000_000_000),
            ),
        )
    } else {
        None
    }
}

fn check_artifact_large(r: &CloudResource, rule: &DetectionRule) -> (f: Option<Finding>)
    ensures
        opt_finding_view(f) == artifact_large(r@, rule@),
{
    if r.resource_type != ResourceType::ArtifactRegistryRepo {
        return None;
    }
    let b = meta_nanos_of(r, "size_bytes");
    if b > 10 * 1073741824 * 1_000_000_000 {
        let mut d = text("Artifact Registry repo '");
        d.append(r.name.as_str());
        d.append("' is ");
        push_one_decimal(&mut d, (b / 1073741824) as u128);
        d.append(" GB");
        Some(
            make_finding(
                r,
                rule,
                d,
                text(
                    "Set up cleanup policies to remove old container images and reduce storage costs.",
                ),
                share_of(cost_or_of(r, 0), 3, 10),
            ),
        )
    } else {
        None
    }
}

fn check_dataproc_idle(r: &CloudResource, rule: &DetectionRule, up: &str) -> (f: Option<Finding>)
    ensures
        opt_finding_view(f) == dataproc_idle(r@, rule@, up@),
{
    if r.resource_type == ResourceType::DataprocCluster && str_eq(up, "RUNNING") {
        let mut d = text("Dataproc cluster '");
        d.append(r.name.as_str());
        d.append("' is running \u{2014} verify it's actively processing jobs");
        Some(
            make_finding(
                r,
                rule,
                d,
                text(
                    "Consider using ephemeral clusters (create per job, delete after). Long-running clusters waste money.",
                ),
                share_of(cost_or_of(r, 0), 5, 10),
            ),
        )
    } else {
        None
    }
}

fn check_secret_disabled(r: &CloudResource, rule: &DetectionRule, up: &str) -> (f: Option<
    Finding,
>)
    ensures
        opt_finding_view(f) == secret_disabled(r@, rule@, up@),
{
    if r.resource_type == ResourceType::SecretManagerSecret && str_eq(up, "DISABLED") {
        let mut d = text("Secret '");
        d.append(r.name.as_str());
        d.append("' has no active versions");
        Some(
            make_finding(
                r,
                rule,
                d,
                text("Delete unused secrets to reduce clutter and minor storage costs."),
                cost_or_of(r, 0),
            ),
        )
    } else {
        None
    }
}

fn check_logsink_disabled(r: &CloudResource, rule: &DetectionRule, up: &str) -> (f: Option<
    Finding,
>)
    ensures
        opt_finding_view(f) == logsink_disabled(r@, rule@, up@),
{
    if r.resource_type == ResourceType::LogSink && str_eq(up, "DISABLED") {
        let mut d = text("Log sink '");
        d.append(r.name.as_str());
        d.append("' is disabled");
        Some(
            make_finding(
                r,
                rule,
                d,
                text("Delete disabled log sinks if they're no longer needed."),
                0,
            ),
        )
    } else {
        None
    }
}

/// An optional machine integer as a mathematical one.
pub open spec fn opt_int(a: Option<i64>) -> Option<int> {
    match a {
        Some(x) => Some(x as int),
        None => None,
    }
}

/// What `rule` reports for `resource`, given the resource status in upper case
/// (`status_upper`), that text in lower case (`status_lower`) and the resource's age
/// in whole days when known (`age_days`).
pub fn evaluate_rule(
    resource: &CloudResource,
    rule: &DetectionRule,
    status_upper: &str,
    status_lower: &str,
    age: Option<i64>,
) -> (f: Option<Finding>)
    ensures
        opt_finding_view(f) == rule_outcome(
            resource@,
            rule@,
            status_upper@,
            status_lower@,
            opt_int(age),
        ),
{
    let id = rule.id.as_str();
    let r = resource;
    let up = status_upper;
    if str_eq(id, "gcp-vm-stopped") {
        check_vm_stopped(r, rule, up)
    } else if str_eq(id, "gcp-disk-unattached") {
        check_disk_unattached(r, rule, up)
    } else if str_eq(id, "gcp-disk-large-unused") {
        check_disk_large_unused(r, rule, up)
    } else if str_eq(id, "gcp-snapshot-old") {
        check_snapshot_old(r, rule, age)
    } else if str_eq(id, "gcp-ip-unused") {
        check_ip_unused(r, rule, up)
    } else if str_eq(id, "gcp-lb-no-target") {
        check_lb_no_target(r, rule, up)
    } else if str_eq(id, "gcp-fw-disabled") {
        check_fw_disabled(r, rule, up)
    } else if str_eq(id, "gcp-image-old") {
        check_image_old(r, rule, age)
    } else if str_eq(id, "gcp-sql-stopped") {
        check_sql_stopped(r, rule, up, status_lower)
    } else if str_eq(id, "gcp-function-idle") {
        check_function_idle(r, rule)
    } else if str_eq(id, "gcp-run-idle") {
        check_run_idle(r, rule)
    } else if str_eq(id, "gcp-resource-untagged") {
        check_untagged(r, rule)
    } else if str_eq(id, "gcp-gke-degraded") {
        check_gke_degraded(r, rule, up)
    } else if str_eq(id, "gcp-gke-overprovisioned") {
        check_gke_overprovisioned(r, rule)
    } else if str_eq(id, "gcp-bq-empty") {
        check_bq_empty(r, rule, up)
    } else if str_eq(id, "gcp-bq-large") {
        check_bq_large(r, rule)
    } else if str_eq(id, "gcp-pubsub-detached") {
        check_pubsub_detached(r, rule, up)
    } else if str_eq(id, "gcp-spanner-idle") {
        check_spanner_idle(r, rule)
    } else if str_eq(id, "gcp-memorystore-idle") {
        check_memorystore_idle(r, rule, up)
    } else if str_eq(id, "gcp-appengine-stopped") {
        check_appengine_stopped(r, rule, up)
    } else if str_eq(id, "gcp-nat-unused") {
        check_nat_unused(r, rule)
    } else if str_eq(id, "gcp-vpn-down") {
        check_vpn_down(r, rule, up)
    } else if str_eq(id, "gcp-artifact-large") {
        check_artifact_large(r, rule)
    } else if str_eq(id, "gcp-dataproc-idle") {
        check_dataproc_idle(r, rule, up)
    } else if str_eq(id, "gcp-secret-disabled") {
        check_secret_disabled(r, rule, up)
    } else if str_eq(id, "gcp-logsink-disabled") {
        check_logsink_disabled(r, rule, up)
    } else {
        None
    }
}

/// The age in whole days of a resource created at `created`, measured at `now`.
pub fn created_age_days(created: &Option<String>, now: (i64, u32)) -> (a: Option<i64>)
    ensures
        opt_int(a) == age_days(crate::json::opt_view(*created), now),
{
    match created {
        Some(c) => match parse_rfc3339(c.as_str()) {
            Some(t) => Some(days_between(now, t)),
            None => None,
        },
        None => None,
    }
}

/// What `rule` reports for `resource` at time `now` (seconds and nanoseconds since the
/// Unix epoch).
pub fn check_rule(resource: &CloudResource, rule: &DetectionRule, now: (i64, u32)) -> (f: Option<
    Finding,
>)
    ensures
        opt_finding_view(f) == check_outcome(resource@, rule@, now),
{
    let up = to_upper(resource.status.as_str());
    let low = to_lower(up.as_str());
    let age = created_age_days(&resource.created_at, now);
    evaluate_rule(resource, rule, up.as_str(), low.as_str(), age)
}

// ---------------------------------------------------------------------------
// Analysis of a whole scan.
// ---------------------------------------------------------------------------

/// The values of rule overrides (rule id, enabled).
pub open spec fn overrides_view(s: Seq<(String, bool)>) -> Seq<(Seq<char>, bool)> {
    Seq::new(s.len(), |i: int| (s[i].0@, s[i].1))
}

/// The override for a rule id: the last entry with that id, as when the entries are
/// collected into a map.
pub open spec fn override_for(ov: Seq<(Seq<char>, bool)>, id: Seq<char>) -> Option<bool>
    decreases ov.len(),
{
    if ov.len() == 0 {
        None
    } else if ov.last().0 == id {
        Some(ov.last().1)
    } else {
        override_for(ov.drop_last(), id)
    }
}

/// A rule with its override applied.
pub open spec fn with_override(rule: RuleV, ov: Seq<(Seq<char>, bool)>) -> RuleV {
    match override_for(ov, rule.id) {
        Some(e) => RuleV { enabled: e, ..rule },
        None => rule,
    }
}

/// The rule catalog with the overrides applied.
pub open spec fn effective_rules(ov: Seq<(Seq<char>, bool)>) -> Seq<RuleV> {
    Seq::new(gcp_rule_table().len(), |i: int| with_override(gcp_rule_table()[i], ov))
}

/// The findings of the enabled rules for one resource, in rule order.
pub open spec fn resource_findings(r: ResourceV, rules: Seq<RuleV>, now: (i64, u32)) -> Seq<
    FindingV,
>
    decreases rules.len(),
{
    if rules.len() == 0 {
        Seq::empty()
    } else {
        let prev = resource_findings(r, rules.drop_last(), now);
        let rule = rules.last();
        if rule.enabled {
            match check_outcome(r, rule, now) {
                Some(f) => prev.push(f),
                None => prev,
            }
        } else {
            prev
        }
    }
}

/// The findings for a list of resources, resource by resource.
pub open spec fn scan_findings(rs: Seq<ResourceV>, rules: Seq<RuleV>, now: (i64, u32)) -> Seq<
    FindingV,
>
    decreases rs.len(),
{
    if rs.len() == 0 {
        Seq::empty()
    } else {
        scan_findings(rs.drop_last(), rules, now) + resource_findings(rs.last(), rules, now)
    }
}

/// Where a finding with savings `x` goes in a list ordered by savings, highest first:
/// after every finding that saves at least as much.
pub open spec fn insert_pos(s: Seq<FindingV>, x: u64) -> int
    decreases s.len(),
{
    if s.len() == 0 {
        0
    } else if s[0].estimated_monthly_savings < x {
        0
    } else {
        1 + insert_pos(s.drop_first(), x)
    }
}

/// A list ordered by savings with one more finding put in its place.
pub open spec fn insert_by_savings(s: Seq<FindingV>, f: FindingV) -> Seq<FindingV> {
    s.insert(insert_pos(s, f.estimated_monthly_savings), f)
}

/// The findings ordered by savings, highest first; findings with equal savings keep
/// their order (a stable sort).
pub open spec fn sort_by_savings(s: Seq<FindingV>) -> Seq<FindingV>
    decreases s.len(),
{
    if s.len() == 0 {
        s
    } else {
        insert_by_savings(sort_by_savings(s.drop_last()), s.last())
    }
}

/// The sum of the findings' savings.
pub open spec fn total_savings(s: Seq<FindingV>) -> int
    decreases s.len(),
{
    if s.len() == 0 {
        0
    } else {
        total_savings(s.drop_last()) + s.last().estimated_monthly_savings
    }
}

/// The number of findings of a severity.
pub open spec fn severity_count(s: Seq<FindingV>, sev: Severity) -> nat
    decreases s.len(),
{
    if s.len() == 0 {
        0
    } else {
        severity_count(s.drop_last(), sev) + if s.last().severity == sev {
            1nat
        } else {
            0nat
        }
    }
}

/// The findings an analysis reports: every finding of every enabled rule for every
/// resource, ordered by savings, highest first.
pub open spec fn analysis_findings(
    rs: Seq<ResourceV>,
    ov: Seq<(Seq<char>, bool)>,
    now: (i64, u32),
) -> Seq<FindingV> {
    sort_by_savings(scan_findings(rs, effective_rules(ov), now))
}

/// The override for a rule id.
pub fn lookup_override(overrides: &Vec<(String, bool)>, id: &str) -> (r: Option<bool>)
    ensures
        r == override_for(overrides_view(overrides@), id@),
{
    let ghost ov = overrides_view(overrides@);
    let n = overrides.len();
    let mut found: Option<bool> = None;
    let mut i: usize = 0;
    assert(ov.take(0) =~= Seq::<(Seq<char>, bool)>::empty());
    while i < n
        invariant
            n == overrides@.len(),
            ov == overrides_view(overrides@),
            i <= n,
            found == override_for(ov.take(i as int), id@),
        decreases n - i,
    {
        assert(ov.take(i + 1).drop_last() =~= ov.take(i as int));
        assert(ov.take(i + 1).last() == (overrides@[i as int].0@, overrides@[i as int].1));
        if str_eq(overrides[i].0.as_str(), id) {
            found = Some(overrides[i].1);
        }
        i = i + 1;
    }
    assert(ov.take(n as int) =~= ov);
    found
}

/// The rule catalog with the overrides applied.
pub fn rules_with_overrides(overrides: &Vec<(String, bool)>) -> (rules: Vec<DetectionRule>)
    ensures
        rules_view(rules@) == effective_rules(overrides_view(overrides@)),
{
    let ghost ov = overrides_view(overrides@);
    let ghost table = gcp_rule_table();
    let mut rules = all_gcp_rules();
    let n = rules.len();
    let mut k: usize = 0;
    while k < n
        invariant
            n == rules@.len(),
            n == table.len(),
            table == gcp_rule_table(),
            ov == overrides_view(overrides@),
            k <= n,
            forall|i: int|
                0 <= i < n ==> (#[trigger] rules@[i])@ == if i < k {
                    with_override(table[i], ov)
                } else {
                    table[i]
                },
        decreases n - k,
    {
        assert(rules@[k as int]@ == rules_view(rules@)[k as int]);
        let o = lookup_override(overrides, rules[k].id.as_str());
        match o {
            Some(e) => {
                rules[k].enabled = e;
            },
            None => {},
        }
        k = k + 1;
    }
    assert(rules_view(rules@) =~= effective_rules(ov));
    rules
}

proof fn lemma_insert_pos_bounds(s: Seq<FindingV>, x: u64)
    ensures
        0 <= insert_pos(s, x) <= s.len(),
        forall|k: int| 0 <= k < insert_pos(s, x) ==> s[k].estimated_monthly_savings >= x,
        insert_pos(s, x) < s.len() ==> s[insert_pos(s, x)].estimated_monthly_savings < x,
    decreases s.len(),
{
    if s.len() > 0 && s[0].estimated_monthly_savings >= x {
        lemma_insert_pos_bounds(s.drop_first(), x);
        assert forall|k: int| 0 <= k < insert_pos(s, x) implies s[k].estimated_monthly_savings
            >= x by {
            if k > 0 {
                assert(s[k] == s.drop_first()[k - 1]);
            }
        }
    }
}

/// Puts a finding into a list ordered by savings, after every finding that saves at
/// least as much.
fn insert_sorted(v: &mut Vec<Finding>, f: Finding)
    ensures
        findings_view(final(v)@) == insert_by_savings(findings_view(old(v)@), f@),
{
    let ghost s = findings_view(v@);
    let x = f.estimated_monthly_savings;
    let n = v.len();
    let mut k: usize = 0;
    assert(s.skip(0) =~= s);
    while k < n && v[k].estimated_monthly_savings >= x
        invariant
            n == v@.len(),
            s == findings_view(v@),
            k <= n,
            insert_pos(s, x) == k + insert_pos(s.skip(k as int), x),
        decreases n - k,
    {
        assert(s.skip(k as int)[0] == s[k as int]);
        assert(s.skip(k as int).drop_first() =~= s.skip(k + 1));
        k = k + 1;
    }
    proof {
        if k < n {
            assert(s.skip(k as int)[0] == s[k as int]);
        }
        assert(insert_pos(s.skip(k as int), x) == 0);
    }
    v.insert(k, f);
    assert(findings_view(v@) =~= s.insert(k as int, f@));
}

/// The analysis of scanned resources at time `now`: every enabled rule (after applying
/// `overrides`, rule id to enabled, the last entry for an id winning) is checked against
/// every resource; the findings are ordered by savings, highest first, and counted.
pub fn analyze_resources_at(
    resources: &Vec<CloudResource>,
    overrides: &Vec<(String, bool)>,
    now: (i64, u32),
) -> (s: AnalysisSummary)
    ensures
        findings_view(s.findings@) == analysis_findings(
            resources_view(resources@),
            overrides_view(overrides@),
            now,
        ),
        s.total_findings == s.findings@.len(),
        s.total_monthly_savings == total_savings(findings_view(s.findings@)),
        s.critical_count == severity_count(findings_view(s.findings@), Severity::Critical),
        s.high_count == severity_count(findings_view(s.findings@), Severity::High),
        s.medium_count == severity_count(findings_view(s.findings@), Severity::Medium),
        s.low_count == severity_count(findings_view(s.findings@), Severity::Low),
{
    let ghost rv = resources_view(resources@);
    let ghost ov = overrides_view(overrides@);
    let rules = rules_with_overrides(overrides);
    let ghost eff = effective_rules(ov);
    let n_res = resources.len();
    let n_rules = rules.len();
    let mut sorted: Vec<Finding> = Vec::new();
    let mut i: usize = 0;
    assert(rv.take(0) =~= Seq::<ResourceV>::empty());
    assert(findings_view(sorted@) =~= Seq::<FindingV>::empty());
    while i < n_res
        invariant
            n_res == resources@.len(),
            rv == resources_view(resources@),
            eff == rules_view(rules@),
            n_rules == rules@.len(),
            i <= n_res,
            findings_view(sorted@) == sort_by_savings(scan_findings(rv.take(i as int), eff, now)),
        decreases n_res - i,
    {
        let r = &resources[i];
        assert(rv[i as int] == r@);
        let up = to_upper(r.status.as_str());
        let low = to_lower(up.as_str());
        let age = created_age_days(&r.created_at, now);
        let ghost before = scan_findings(rv.take(i as int), eff, now);
        let mut j: usize = 0;
        assert(eff.take(0) =~= Seq::<RuleV>::empty());
        assert(before + resource_findings(r@, eff.take(0), now) =~= before);
        while j < n_rules
            invariant
                eff == rules_view(rules@),
                n_rules == rules@.len(),
                j <= n_rules,
                up@ == uppercase(r@.status),
                low@ == lowercase(up@),
                opt_int(age) == age_days(r@.created_at, now),
                findings_view(sorted@) == sort_by_savings(
                    before + resource_findings(r@, eff.take(j as int), now),
                ),
            decreases n_rules - j,
        {
            let rule = &rules[j];
            assert(eff[j as int] == rule@);
            assert(eff.take(j + 1).drop_last() =~= eff.take(j as int));
            assert(eff.take(j + 1).last() == rule@);
            let ghost prev = before + resource_findings(r@, eff.take(j as int), now);
            if rule.enabled {
                match evaluate_rule(r, rule, up.as_str(), low.as_str(), age) {
                    Some(f) => {
                        let ghost fv = f@;
                        insert_sorted(&mut sorted, f);
                        assert(prev.push(fv).drop_last() =~= prev);
                        assert(before + resource_findings(r@, eff.take(j + 1), now) =~= prev.push(
                            fv,
                        ));
                    },
                    None => {
                        assert(before + resource_findings(r@, eff.take(j + 1), now) =~= prev);
                    },
                }
            } else {
                assert(before + resource_findings(r@, eff.take(j + 1), now) =~= prev);
            }
            j = j + 1;
        }
        assert(eff.take(n_rules as int) =~= eff);
        assert(rv.take(i + 1).drop_last() =~= rv.take(i as int));
        assert(rv.take(i + 1).last() == r@);
        i = i + 1;
    }
    assert(rv.take(n_res as int) =~= rv);
    let ghost fs = findings_view(sorted@);
    let n = sorted.len();
    let mut total: u128 = 0;
    let mut critical: usize = 0;
    let mut high: usize = 0;
    let mut medium: usize = 0;
    let mut low_count: usize = 0;
    let mut k: usize = 0;
    assert(fs.take(0) =~= Seq::<FindingV>::empty());
    while k < n
        invariant
            n == sorted@.len(),
            fs == findings_view(sorted@),
            k <= n,
            total == total_savings(fs.take(k as int)),
            total <= k * 0xffff_ffff_ffff_ffffu128,
            critical == severity_count(fs.take(k as int), Severity::Critical),
            high == severity_count(fs.take(k as int), Severity::High),
            medium == severity_count(fs.take(k as int), Severity::Medium),
            low_count == severity_count(fs.take(k as int), Severity::Low),
            critical <= k,
            high <= k,
            medium <= k,
            low_count <= k,
        decreases n - k,
    {
        let f = &sorted[k];
        assert(fs[k as int] == f@);
        assert(fs.take(k + 1).drop_last() =~= fs.take(k as int));
        assert(fs.take(k + 1).last() == f@);
        assert(total + f.estimated_monthly_savings <= (k + 1) * 0xffff_ffff_ffff_ffffu128) by (
        nonlinear_arith)
            requires
                total <= k * 0xffff_ffff_ffff_ffffu128,
                f.estimated_monthly_savings <= 0xffff_ffff_ffff_ffffu64,
        ;
        assert((k + 1) * 0xffff_ffff_ffff_ffffu128 <= 0xffff_ffff_ffff_ffff_ffff_ffff_ffff_ffffu128)
            by (nonlinear_arith)
            requires
                k < n,
                n <= usize::MAX,
        ;
        total = total + f.estimated_monthly_savings as u128;
        match f.severity {
            Severity::Critical => {
                critical = critical + 1;
            },
            Severity::High => {
                high = high + 1;
            },
            Severity::Medium => {
                medium = medium + 1;
            },
            Severity::Low => {
                low_count = low_count + 1;
            },
        }
        k = k + 1;
    }
    assert(fs.take(n as int) =~= fs);
    AnalysisSummary {
        total_findings: n,
        total_monthly_savings: total,
        critical_count: critical,
        high_count: high,
        medium_count: medium,
        low_count: low_count,
        findings: sorted,
    }
}

/// The analysis of scanned resources now (by the machine's clock); see
/// `analyze_resources_at`.
pub fn analyze_resources(resources: &Vec<CloudResource>, overrides: &Vec<(String, bool)>) -> (s:
    AnalysisSummary)
    ensures
        exists|now: (i64, u32)|
            findings_view(s.findings@) == analysis_findings(
                resources_view(resources@),
                overrides_view(overrides@),
                now,
            ),
        s.total_findings == s.findings@.len(),
        s.total_monthly_savings == total_savings(findings_view(s.findings@)),
        s.critical_count == severity_count(findings_view(s.findings@), Severity::Critical),
        s.high_count == severity_count(findings_view(s.findings@), Severity::High),
        s.medium_count == severity_count(findings_view(s.findings@), Severity::Medium),
        s.low_count == severity_count(findings_view(s.findings@), Severity::Low),
{
    let now = utc_now();
    analyze_resources_at(resources, overrides, now)
}

// ---------------------------------------------------------------------------
// Laws of the analysis.
// ---------------------------------------------------------------------------

/// Findings ordered by savings, highest first.
pub open spec fn ordered_by_savings(s: Seq<FindingV>) -> bool {
    forall|i: int, j: int|
        0 <= i < j < s.len() ==> s[i].estimated_monthly_savings
            >= s[j].estimated_monthly_savings
}

proof fn lemma_insert_keeps_order(t: Seq<FindingV>, f: FindingV)
    requires
        ordered_by_savings(t),
    ensures
        ordered_by_savings(insert_by_savings(t, f)),
{
    let x = f.estimated_monthly_savings;
    lemma_insert_pos_bounds(t, x);
    let p = insert_pos(t, x);
    let u = insert_by_savings(t, f);
    assert forall|i: int, j: int| 0 <= i < j < u.len() implies u[i].estimated_monthly_savings
        >= u[j].estimated_monthly_savings by {
        if j < p {
        } else if j == p {
            assert(u[i] == t[i]);
        } else if i < p {
            assert(u[i] == t[i]);
            assert(u[j] == t[j - 1]);
        } else if i == p {
            assert(u[j] == t[j - 1]);
            assert(t[p].estimated_monthly_savings < x);
            assert(t[p].estimated_monthly_savings >= t[j - 1].estimated_monthly_savings);
        } else {
            assert(u[i] == t[i - 1]);
            assert(u[j] == t[j - 1]);
        }
    }
}

/// Sorting by savings orders the findings by savings, highest first.
pub proof fn lemma_sort_ordered(s: Seq<FindingV>)
    ensures
        ordered_by_savings(sort_by_savings(s)),
    decreases s.len(),
{
    if s.len() > 0 {
        lemma_sort_ordered(s.drop_last());
        lemma_insert_keeps_order(sort_by_savings(s.drop_last()), s.last());
    }
}

/// Sorting by savings keeps every finding, as often as it occurs.
pub proof fn lemma_sort_permutes(s: Seq<FindingV>)
    ensures
        sort_by_savings(s).to_multiset() == s.to_multiset(),
        sort_by_savings(s).len() == s.len(),
    decreases s.len(),
{
    if s.len() > 0 {
        lemma_sort_permutes(s.drop_last());
        let t = sort_by_savings(s.drop_last());
        lemma_insert_pos_bounds(t, s.last().estimated_monthly_savings);
        vstd::seq_lib::to_multiset_insert(
            t,
            insert_pos(t, s.last().estimated_monthly_savings),
            s.last(),
        );
        vstd::seq_lib::to_multiset_build(s.drop_last(), s.last());
        assert(s.drop_last().push(s.last()) =~= s);
    }
}

proof fn lemma_total_insert(t: Seq<FindingV>, k: int, f: FindingV)
    requires
        0 <= k <= t.len(),
    ensures
        total_savings(t.insert(k, f)) == total_savings(t) + f.estimated_monthly_savings,
    decreases t.len(),
{
    if k == t.len() {
        assert(t.insert(k, f).drop_last() =~= t);
    } else {
        lemma_total_insert(t.drop_last(), k, f);
        assert(t.insert(k, f).drop_last() =~= t.drop_last().insert(k, f));
        assert(t.insert(k, f).last() == t.last());
    }
}

/// Sorting by savings leaves the total savings unchanged.
pub proof fn lemma_sort_keeps_total(s: Seq<FindingV>)
    ensures
        total_savings(sort_by_savings(s)) == total_savings(s),
    decreases s.len(),
{
    if s.len() > 0 {
        lemma_sort_keeps_total(s.drop_last());
        let t = sort_by_savings(s.drop_last());
        lemma_insert_pos_bounds(t, s.last().estimated_monthly_savings);
        lemma_total_insert(t, insert_pos(t, s.last().estimated_monthly_savings), s.last());
    }
}

/// Every finding has exactly one severity: the four counts add up to the number of
/// findings.
pub proof fn law_severity_counts_partition(s: Seq<FindingV>)
    ensures
        severity_count(s, Severity::Critical) + severity_count(s, Severity::High) + severity_count(
            s,
            Severity::Medium,
        ) + severity_count(s, Severity::Low) == s.len(),
    decreases s.len(),
{
    if s.len() > 0 {
        law_severity_counts_partition(s.drop_last());
    }
}

/// A rule's finding names the rule and the resource: its id is the rule id, `-` and the
/// resource id.
pub proof fn lemma_outcome_identity(
    r: ResourceV,
    rule: RuleV,
    up: Seq<char>,
    low: Seq<char>,
    age: Option<int>,
)
    ensures
        rule_outcome(r, rule, up, low, age) matches Some(f) ==> f.rule_id == rule.id
            && f.resource_id == r.id && f.id == rule.id + "-"@ + r.id && f.severity
            == rule.severity,
{
}

/// Every finding for a resource comes from an enabled rule of the list and names it.
proof fn lemma_resource_findings_from_enabled(
    r: ResourceV,
    rules: Seq<RuleV>,
    now: (i64, u32),
    f: FindingV,
)
    requires
        resource_findings(r, rules, now).contains(f),
    ensures
        exists|k: int|
            0 <= k < rules.len() && (#[trigger] rules[k]).enabled && rules[k].id == f.rule_id
                && rules[k].severity == f.severity,
        f.resource_id == r.id,
        f.id == f.rule_id + "-"@ + r.id,
    decreases rules.len(),
{
    let prev = resource_findings(r, rules.drop_last(), now);
    let rule = rules.last();
    if prev.contains(f) {
        lemma_resource_findings_from_enabled(r, rules.drop_last(), now, f);
        let k = choose|k: int|
            0 <= k < rules.drop_last().len() && (#[trigger] rules.drop_last()[k]).enabled
                && rules.drop_last()[k].id == f.rule_id && rules.drop_last()[k].severity
                == f.severity;
        assert(rules[k] == rules.drop_last()[k]);
    } else {
        lemma_outcome_identity(
            r,
            rule,
            uppercase(r.status),
            lowercase(uppercase(r.status)),
            age_days(r.created_at, now),
        );
        let idx = choose|i: int| 0 <= i < resource_findings(r, rules, now).len() && resource_findings(r, rules, now)[i] == f;
        assert(idx == prev.len());
        assert(rules[rules.len() - 1] == rule);
    }
}

proof fn lemma_scan_findings_from_enabled(
    rs: Seq<ResourceV>,
    rules: Seq<RuleV>,
    now: (i64, u32),
    f: FindingV,
)
    requires
        scan_findings(rs, rules, now).contains(f),
    ensures
        exists|k: int|
            0 <= k < rules.len() && (#[trigger] rules[k]).enabled && rules[k].id == f.rule_id
                && rules[k].severity == f.severity,
        f.id == f.rule_id + "-"@ + f.resource_id,
    decreases rs.len(),
{
    let a = scan_findings(rs.drop_last(), rules, now);
    let b = resource_findings(rs.last(), rules, now);
    let idx = choose|i: int| 0 <= i < (a + b).len() && (a + b)[i] == f;
    if idx < a.len() {
        assert(a[idx] == f);
        lemma_scan_findings_from_enabled(rs.drop_last(), rules, now, f);
    } else {
        assert(b[idx - a.len()] == f);
        lemma_resource_findings_from_enabled(rs.last(), rules, now, f);
    }
}

/// Whatever the overrides, the analysis reports its findings ordered by savings, highest
/// first; it reports every finding of the enabled rules, each once per time it arises,
/// and no other; and its total is the total of those findings.
pub proof fn law_analysis_ordered_and_complete(
    rs: Seq<ResourceV>,
    ov: Seq<(Seq<char>, bool)>,
    now: (i64, u32),
)
    ensures
        ordered_by_savings(analysis_findings(rs, ov, now)),
        analysis_findings(rs, ov, now).to_multiset() == scan_findings(
            rs,
            effective_rules(ov),
            now,
        ).to_multiset(),
        total_savings(analysis_findings(rs, ov, now)) == total_savings(
            scan_findings(rs, effective_rules(ov), now),
        ),
{
    let s = scan_findings(rs, effective_rules(ov), now);
    lemma_sort_ordered(s);
    lemma_sort_permutes(s);
    lemma_sort_keeps_total(s);
}

/// Every reported finding comes from a rule that is enabled after the overrides, carries
/// that rule's severity, and has the id `<rule id>-<resource id>`; in particular a rule
/// switched off by an override reports nothing.
pub proof fn law_findings_come_from_enabled_rules(
    rs: Seq<ResourceV>,
    ov: Seq<(Seq<char>, bool)>,
    now: (i64, u32),
    f: FindingV,
)
    requires
        analysis_findings(rs, ov, now).contains(f),
    ensures
        exists|k: int|
            0 <= k < effective_rules(ov).len() && (#[trigger] effective_rules(ov)[k]).enabled
                && effective_rules(ov)[k].id == f.rule_id && effective_rules(ov)[k].severity
                == f.severity,
        override_for(ov, f.rule_id) != Some(false),
        f.id == f.rule_id + "-"@ + f.resource_id,
{
    let s = scan_findings(rs, effective_rules(ov), now);
    lemma_sort_permutes(s);
    vstd::seq_lib::to_multiset_contains(analysis_findings(rs, ov, now), f);
    vstd::seq_lib::to_multiset_contains(s, f);
    assert(s.contains(f));
    lemma_scan_findings_from_enabled(rs, effective_rules(ov), now, f);
    let k = choose|k: int|
        0 <= k < effective_rules(ov).len() && (#[trigger] effective_rules(ov)[k]).enabled
            && effective_rules(ov)[k].id == f.rule_id && effective_rules(ov)[k].severity
            == f.severity;
    assert(effective_rules(ov)[k] == with_override(gcp_rule_table()[k], ov));
}


/// The catalog rule named by a finding applies to every resource type, or to the type
/// of the finding's resource.
pub open spec fn covered_by_catalog(f: FindingV) -> bool {
    exists|i: int|
        0 <= i < gcp_rule_table().len() && #[trigger] gcp_rule_table()[i].id == f.rule_id && (
        gcp_rule_table()[i].resource_type == "*"@ || gcp_rule_table()[i].resource_type
            == f.resource_type)
}

proof fn lemma_outcome_covered(r: ResourceV, rule: RuleV, up: Seq<char>, low: Seq<char>, age: Option<int>)
    ensures
        rule_outcome(r, rule, up, low, age) matches Some(f) ==> covered_by_catalog(f),
{
    lemma_outcome_identity(r, rule, up, low, age);
    if rule_outcome(r, rule, up, low, age) is Some {
        let id = rule.id;
            if id == "gcp-vm-stopped"@ {
                assert(gcp_rule_table()[0].id == id);
            } else if id == "gcp-disk-unattached"@ {
                assert(gcp_rule_table()[1].id == id);
            } else if id == "gcp-disk-large-unused"@ {
                assert(gcp_rule_table()[7].id == id);
            } else if id == "gcp-snapshot-old"@ {
                assert(gcp_rule_table()[2].id == id);
            } else if id == "gcp-ip-unused"@ {
                assert(gcp_rule_table()[3].id == id);
            } else if id == "gcp-lb-no-target"@ {
                assert(gcp_rule_table()[4].id == id);
            } else if id == "gcp-fw-disabled"@ {
                assert(gcp_rule_table()[5].id == id);
            } else if id == "gcp-image-old"@ {
                assert(gcp_rule_table()[6].id == id);
            } else if id == "gcp-sql-stopped"@ {
                assert(gcp_rule_table()[8].id == id);
            } else if id == "gcp-function-idle"@ {
                assert(gcp_rule_table()[9].id == id);
            } else if id == "gcp-run-idle"@ {
                assert(gcp_rule_table()[10].id == id);
            } else if id == "gcp-resource-untagged"@ {
                assert(gcp_rule_table()[11].id == id);
            } else if id == "gcp-gke-degraded"@ {
                assert(gcp_rule_table()[12].id == id);
            } else if id == "gcp-gke-overprovisioned"@ {
                assert(gcp_rule_table()[13].id == id);
            } else if id == "gcp-bq-empty"@ {
                assert(gcp_rule_table()[14].id == id);
            } else if id == "gcp-bq-large"@ {
                assert(gcp_rule_table()[15].id == id);
            } else if id == "gcp-pubsub-detached"@ {
                assert(gcp_rule_table()[16].id == id);
            } else if id == "gcp-spanner-idle"@ {
                assert(gcp_rule_table()[17].id == id);
            } else if id == "gcp-memorystore-idle"@ {
                assert(gcp_rule_table()[18].id == id);
            } else if id == "gcp-appengine-stopped"@ {
                assert(gcp_rule_table()[19].id == id);
            } else if id == "gcp-nat-unused"@ {
                assert(gcp_rule_table()[20].id == id);
            } else if id == "gcp-vpn-down"@ {
                assert(gcp_rule_table()[21].id == id);
            } else if id == "gcp-artifact-large"@ {
                assert(gcp_rule_table()[22].id == id);
            } else if id == "gcp-dataproc-idle"@ {
                assert(gcp_rule_table()[23].id == id);
            } else if id == "gcp-secret-disabled"@ {
                assert(gcp_rule_table()[24].id == id);
            } else if id == "gcp-logsink-disabled"@ {
                assert(gcp_rule_table()[25].id == id);
            }
    }
}

proof fn lemma_resource_findings_covered(r: ResourceV, rules: Seq<RuleV>, now: (i64, u32))
    ensures
        forall|j: int|
            0 <= j < resource_findings(r, rules, now).len() ==> covered_by_catalog(
                #[trigger] resource_findings(r, rules, now)[j],
            ),
    decreases rules.len(),
{
    if rules.len() > 0 {
        let prev = resource_findings(r, rules.drop_last(), now);
        let rule = rules.last();
        lemma_resource_findings_covered(r, rules.drop_last(), now);
        lemma_outcome_covered(
            r,
            rule,
            uppercase(r.status),
            lowercase(uppercase(r.status)),
            age_days(r.created_at, now),
        );
        assert forall|j: int| 0 <= j < resource_findings(r, rules, now).len() implies covered_by_catalog(
            #[trigger] resource_findings(r, rules, now)[j],
        ) by {
            if j < prev.len() {
                assert(resource_findings(r, rules, now)[j] == prev[j]);
            }
        }
    }
}

proof fn lemma_scan_findings_covered(rs: Seq<ResourceV>, rules: Seq<RuleV>, now: (i64, u32))
    ensures
        forall|j: int|
            0 <= j < scan_findings(rs, rules, now).len() ==> covered_by_catalog(
                #[trigger] scan_findings(rs, rules, now)[j],
            ),
    decreases rs.len(),
{
    if rs.len() > 0 {
        let a = scan_findings(rs.drop_last(), rules, now);
        let b = resource_findings(rs.last(), rules, now);
        lemma_scan_findings_covered(rs.drop_last(), rules, now);
        lemma_resource_findings_covered(rs.last(), rules, now);
        assert forall|j: int| 0 <= j < scan_findings(rs, rules, now).len() implies covered_by_catalog(
            #[trigger] scan_findings(rs, rules, now)[j],
        ) by {
            assert(scan_findings(rs, rules, now) == a + b);
            if j >= a.len() {
                assert((a + b)[j] == b[j - a.len()]);
            }
        }
    }
}

/// Each rule reports only resources of its own type: the catalog rule that a finding of
/// an analysis names applies to every type (the untagged check) or to the type of the
/// finding's resource.
pub proof fn law_rules_fire_on_their_type(
    rs: Seq<ResourceV>,
    ov: Seq<(Seq<char>, bool)>,
    now: (i64, u32),
    f: FindingV,
)
    requires
        analysis_findings(rs, ov, now).contains(f),
    ensures
        covered_by_catalog(f),
{
    let s = scan_findings(rs, effective_rules(ov), now);
    lemma_sort_permutes(s);
    vstd::seq_lib::to_multiset_contains(analysis_findings(rs, ov, now), f);
    vstd::seq_lib::to_multiset_contains(s, f);
    lemma_scan_findings_covered(rs, effective_rules(ov), now);
    let j = choose|j: int| 0 <= j < s.len() && s[j] == f;
    assert(covered_by_catalog(s[j]));
}

// ---------------------------------------------------------------------------
// How overrides and the resource list shape an analysis.
// ---------------------------------------------------------------------------

/// Overrides that can switch no catalog rule off: every entry that names a rule of the
/// catalog enables it.
pub open spec fn enabling_only(ov: Seq<(Seq<char>, bool)>) -> bool {
    forall|i: int, k: int|
        0 <= i < ov.len() && 0 <= k < gcp_rule_table().len() && #[trigger] ov[i].0
            == #[trigger] gcp_rule_table()[k].id ==> ov[i].1
}

proof fn lemma_enabling_override(ov: Seq<(Seq<char>, bool)>, k: int)
    requires
        enabling_only(ov),
        0 <= k < gcp_rule_table().len(),
    ensures
        override_for(ov, gcp_rule_table()[k].id) != Some(false),
    decreases ov.len(),
{
    if ov.len() > 0 {
        let id = gcp_rule_table()[k].id;
        if ov.last().0 == id {
            assert(ov[ov.len() - 1].0 == gcp_rule_table()[k].id);
        } else {
            assert forall|i: int, j: int|
                0 <= i < ov.drop_last().len() && 0 <= j < gcp_rule_table().len()
                    && #[trigger] ov.drop_last()[i].0 == #[trigger] gcp_rule_table()[j].id implies ov.drop_last()[i].1 by {
                assert(ov.drop_last()[i] == ov[i]);
            }
            lemma_enabling_override(ov.drop_last(), k);
        }
    }
}

/// Overrides that only enable rules, or name rules the catalog does not have, change
/// nothing: every rule starts enabled, so the analysis is the one without overrides.
pub proof fn law_enabling_overrides_change_nothing(
    rs: Seq<ResourceV>,
    ov: Seq<(Seq<char>, bool)>,
    now: (i64, u32),
)
    requires
        enabling_only(ov),
    ensures
        effective_rules(ov) == effective_rules(Seq::empty()),
        analysis_findings(rs, ov, now) == analysis_findings(rs, Seq::empty(), now),
{
    law_catalog_ids_distinct_and_enabled();
    assert forall|k: int| 0 <= k < gcp_rule_table().len() implies #[trigger] with_override(
        gcp_rule_table()[k],
        ov,
    ) == with_override(gcp_rule_table()[k], Seq::empty()) by {
        lemma_enabling_override(ov, k);
        let rule = gcp_rule_table()[k];
        assert(rule.enabled);
        assert(RuleV { enabled: true, ..rule } == rule);
    }
    assert(effective_rules(ov) =~= effective_rules(Seq::empty()));
}

proof fn lemma_scan_findings_concat(
    a: Seq<ResourceV>,
    b: Seq<ResourceV>,
    rules: Seq<RuleV>,
    now: (i64, u32),
)
    ensures
        scan_findings(a + b, rules, now) == scan_findings(a, rules, now) + scan_findings(
            b,
            rules,
            now,
        ),
    decreases b.len(),
{
    if b.len() == 0 {
        assert(a + b =~= a);
        assert(scan_findings(a, rules, now) + Seq::<FindingV>::empty() =~= scan_findings(a, rules, now));
    } else {
        lemma_scan_findings_concat(a, b.drop_last(), rules, now);
        assert((a + b).drop_last() =~= a + b.drop_last());
        assert((a + b).last() == b.last());
        let x = scan_findings(a, rules, now);
        let y = scan_findings(b.drop_last(), rules, now);
        let z = resource_findings(b.last(), rules, now);
        assert(x + y + z =~= x + (y + z));
    }
}

proof fn lemma_count_insert(t: Seq<FindingV>, k: int, f: FindingV, sev: Severity)
    requires
        0 <= k <= t.len(),
    ensures
        severity_count(t.insert(k, f), sev) == severity_count(t, sev) + if f.severity == sev {
            1int
        } else {
            0int
        },
    decreases t.len(),
{
    if k == t.len() {
        assert(t.insert(k, f).drop_last() =~= t);
    } else {
        lemma_count_insert(t.drop_last(), k, f, sev);
        assert(t.insert(k, f).drop_last() =~= t.drop_last().insert(k, f));
        assert(t.insert(k, f).last() == t.last());
    }
}

/// Sorting by savings leaves the count of each severity unchanged.
proof fn lemma_sort_keeps_counts(s: Seq<FindingV>, sev: Severity)
    ensures
        severity_count(sort_by_savings(s), sev) == severity_count(s, sev),
    decreases s.len(),
{
    if s.len() > 0 {
        lemma_sort_keeps_counts(s.drop_last(), sev);
        let t = sort_by_savings(s.drop_last());
        lemma_insert_pos_bounds(t, s.last().estimated_monthly_savings);
        lemma_count_insert(t, insert_pos(t, s.last().estimated_monthly_savings), s.last(), sev);
    }
}

proof fn lemma_sums_concat(x: Seq<FindingV>, y: Seq<FindingV>, sev: Severity)
    ensures
        severity_count(x + y, sev) == severity_count(x, sev) + severity_count(y, sev),
        total_savings(x + y) == total_savings(x) + total_savings(y),
    decreases y.len(),
{
    if y.len() == 0 {
        assert(x + y =~= x);
    } else {
        lemma_sums_concat(x, y.drop_last(), sev);
        assert((x + y).drop_last() =~= x + y.drop_last());
        assert((x + y).last() == y.last());
    }
}

/// Analysing two resource lists together reports the findings of both analyses, in
/// some order: the number of findings, the count of each severity and the total savings
/// add up.
pub proof fn law_analysis_of_concatenation(
    a: Seq<ResourceV>,
    b: Seq<ResourceV>,
    ov: Seq<(Seq<char>, bool)>,
    now: (i64, u32),
)
    ensures
        analysis_findings(a + b, ov, now).to_multiset() == analysis_findings(a, ov, now).to_multiset().add(
            analysis_findings(b, ov, now).to_multiset(),
        ),
        analysis_findings(a + b, ov, now).len() == analysis_findings(a, ov, now).len()
            + analysis_findings(b, ov, now).len(),
        forall|sev: Severity|
            #![trigger severity_count(analysis_findings(a + b, ov, now), sev)]
            severity_count(analysis_findings(a + b, ov, now), sev) == severity_count(
                analysis_findings(a, ov, now),
                sev,
            ) + severity_count(analysis_findings(b, ov, now), sev),
        total_savings(analysis_findings(a + b, ov, now)) == total_savings(
            analysis_findings(a, ov, now),
        ) + total_savings(analysis_findings(b, ov, now)),
{
    let rules = effective_rules(ov);
    let x = scan_findings(a, rules, now);
    let y = scan_findings(b, rules, now);
    lemma_scan_findings_concat(a, b, rules, now);
    lemma_sort_permutes(x);
    lemma_sort_permutes(y);
    lemma_sort_permutes(x + y);
    vstd::seq_lib::lemma_multiset_commutative(x, y);
    lemma_sort_keeps_total(x);
    lemma_sort_keeps_total(y);
    lemma_sort_keeps_total(x + y);
    lemma_sums_concat(x, y, Severity::Low);
    assert forall|sev: Severity|
        #![trigger severity_count(analysis_findings(a + b, ov, now), sev)]
        severity_count(analysis_findings(a + b, ov, now), sev) == severity_count(
            analysis_findings(a, ov, now),
            sev,
        ) + severity_count(analysis_findings(b, ov, now), sev) by {
        lemma_sort_keeps_counts(x, sev);
        lemma_sort_keeps_counts(y, sev);
        lemma_sort_keeps_counts(x + y, sev);
        lemma_sums_concat(x, y, sev);
    }
}

/// The findings of a list that do not come from rule `id`, in their order.
pub open spec fn without_rule(s: Seq<FindingV>, id: Seq<char>) -> Seq<FindingV>
    decreases s.len(),
{
    if s.len() == 0 {
        s
    } else if s.last().rule_id == id {
        without_rule(s.drop_last(), id)
    } else {
        without_rule(s.drop_last(), id).push(s.last())
    }
}

proof fn lemma_without_concat(x: Seq<FindingV>, y: Seq<FindingV>, id: Seq<char>)
    ensures
        without_rule(x + y, id) == without_rule(x, id) + without_rule(y, id),
    decreases y.len(),
{
    if y.len() == 0 {
        assert(x + y =~= x);
        assert(without_rule(x, id) + without_rule(y, id) =~= without_rule(x, id));
    } else {
        lemma_without_concat(x, y.drop_last(), id);
        assert((x + y).drop_last() =~= x + y.drop_last());
        assert((x + y).last() == y.last());
        if y.last().rule_id != id {
            assert(without_rule(x, id) + without_rule(y.drop_last(), id).push(y.last())
                =~= (without_rule(x, id) + without_rule(y.drop_last(), id)).push(y.last()));
        }
    }
}

/// What is left after removing rule `id`'s findings comes from the list and is not
/// from rule `id`.
proof fn lemma_without_from(s: Seq<FindingV>, id: Seq<char>)
    ensures
        forall|i: int|
            0 <= i < without_rule(s, id).len() ==> s.contains(#[trigger] without_rule(s, id)[i])
                && without_rule(s, id)[i].rule_id != id,
    decreases s.len(),
{
    if s.len() > 0 {
        lemma_without_from(s.drop_last(), id);
        let w = without_rule(s, id);
        assert forall|i: int| 0 <= i < w.len() implies s.contains(#[trigger] w[i])
            && w[i].rule_id != id by {
            let p = without_rule(s.drop_last(), id);
            if i < p.len() {
                assert(w[i] == p[i]);
                let j = choose|j: int| 0 <= j < s.drop_last().len() && s.drop_last()[j] == p[i];
                assert(s[j] == p[i]);
            } else {
                assert(w[i] == s.last());
                assert(s[s.len() - 1] == s.last());
            }
        }
    }
}

/// Two rule lists alike but for rule `id`, which the second has switched off.
pub open spec fn switched_off(a: Seq<RuleV>, b: Seq<RuleV>, id: Seq<char>) -> bool {
    &&& a.len() == b.len()
    &&& forall|k: int|
        0 <= k < a.len() ==> if (#[trigger] a[k]).id == id {
            !b[k].enabled
        } else {
            b[k] == a[k]
        }
}

proof fn lemma_resource_findings_switched_off(
    r: ResourceV,
    a: Seq<RuleV>,
    b: Seq<RuleV>,
    id: Seq<char>,
    now: (i64, u32),
)
    requires
        switched_off(a, b, id),
    ensures
        resource_findings(r, b, now) == without_rule(resource_findings(r, a, now), id),
    decreases a.len(),
{
    if a.len() > 0 {
        assert(switched_off(a.drop_last(), b.drop_last(), id)) by {
            assert forall|k: int| 0 <= k < a.drop_last().len() implies if (
            #[trigger] a.drop_last()[k]).id == id {
                !b.drop_last()[k].enabled
            } else {
                b.drop_last()[k] == a.drop_last()[k]
            } by {
                assert(a.drop_last()[k] == a[k]);
                assert(b.drop_last()[k] == b[k]);
            }
        }
        lemma_resource_findings_switched_off(r, a.drop_last(), b.drop_last(), id, now);
        let ra = a.last();
        assert(ra == a[a.len() - 1]);
        assert(b.last() == b[b.len() - 1]);
        lemma_outcome_identity(
            r,
            ra,
            uppercase(r.status),
            lowercase(uppercase(r.status)),
            age_days(r.created_at, now),
        );
        let prev = resource_findings(r, a.drop_last(), now);
        match check_outcome(r, ra, now) {
            Some(f) => {
                if ra.enabled {
                    assert(prev.push(f).drop_last() =~= prev);
                }
            },
            None => {},
        }
    }
}

proof fn lemma_scan_findings_switched_off(
    rs: Seq<ResourceV>,
    a: Seq<RuleV>,
    b: Seq<RuleV>,
    id: Seq<char>,
    now: (i64, u32),
)
    requires
        switched_off(a, b, id),
    ensures
        scan_findings(rs, b, now) == without_rule(scan_findings(rs, a, now), id),
    decreases rs.len(),
{
    if rs.len() > 0 {
        lemma_scan_findings_switched_off(rs.drop_last(), a, b, id, now);
        lemma_resource_findings_switched_off(rs.last(), a, b, id, now);
        lemma_without_concat(
            scan_findings(rs.drop_last(), a, now),
            resource_findings(rs.last(), a, now),
            id,
        );
    }
}

proof fn lemma_without_single(f: FindingV, id: Seq<char>)
    ensures
        without_rule(seq![f], id) == if f.rule_id == id {
            Seq::<FindingV>::empty()
        } else {
            seq![f]
        },
{
    let e = Seq::<FindingV>::empty();
    assert(seq![f].drop_last() =~= e);
    assert(seq![f].last() == f);
    assert(without_rule(e, id) == e);
    assert(e.push(f) =~= seq![f]);
}

proof fn lemma_insert_front(a: FindingV, u: Seq<FindingV>, f: FindingV)
    requires
        a.estimated_monthly_savings >= f.estimated_monthly_savings,
    ensures
        insert_by_savings(seq![a] + u, f) == seq![a] + insert_by_savings(u, f),
{
    let t = seq![a] + u;
    let x = f.estimated_monthly_savings;
    assert(t[0] == a);
    assert(t.drop_first() =~= u);
    lemma_insert_pos_bounds(u, x);
    assert(insert_pos(t, x) == 1 + insert_pos(u, x));
    assert(t.insert(1 + insert_pos(u, x), f) =~= seq![a] + u.insert(insert_pos(u, x), f));
}

/// Removing rule `id`'s findings from a list ordered by savings and then putting a
/// finding in its place is the same as putting it in first and then removing.
proof fn lemma_without_insert(t: Seq<FindingV>, f: FindingV, id: Seq<char>)
    requires
        ordered_by_savings(t),
    ensures
        without_rule(insert_by_savings(t, f), id) == if f.rule_id == id {
            without_rule(t, id)
        } else {
            insert_by_savings(without_rule(t, id), f)
        },
    decreases t.len(),
{
    let x = f.estimated_monthly_savings;
    if t.len() == 0 {
        assert(t.insert(0, f) =~= seq![f]);
        assert(t =~= Seq::<FindingV>::empty());
        assert(insert_by_savings(t, f) =~= seq![f]);
        lemma_without_single(f, id);
    } else {
        let a = t[0];
        let u = t.drop_first();
        assert(t =~= seq![a] + u);
        assert(ordered_by_savings(u)) by {
            assert forall|i: int, j: int| 0 <= i < j < u.len() implies u[i].estimated_monthly_savings
                >= u[j].estimated_monthly_savings by {
                assert(u[i] == t[i + 1]);
                assert(u[j] == t[j + 1]);
            }
        }
        lemma_without_concat(seq![a], u, id);
        lemma_without_single(a, id);
        if a.estimated_monthly_savings < x {
            assert(insert_pos(t, x) == 0);
            assert(t.insert(0, f) =~= seq![f] + t);
            lemma_without_concat(seq![f], t, id);
            lemma_without_single(f, id);
            if f.rule_id != id {
                let w = without_rule(t, id);
                assert(insert_pos(w, x) == 0) by {
                    if w.len() > 0 {
                        lemma_without_from(t, id);
                        let j = choose|j: int| 0 <= j < t.len() && t[j] == w[0];
                        assert(t[0].estimated_monthly_savings >= t[j].estimated_monthly_savings);
                    }
                }
                assert(w.insert(0, f) =~= seq![f] + w);
                lemma_without_single(f, id);
            }
        } else {
            lemma_insert_front(a, u, f);
            lemma_without_insert(u, f, id);
            lemma_without_concat(seq![a], insert_by_savings(u, f), id);
            if f.rule_id != id && a.rule_id != id {
                lemma_insert_front(a, without_rule(u, id), f);
            }
            if a.rule_id == id {
                assert(without_rule(t, id) =~= without_rule(u, id));
                assert(without_rule(insert_by_savings(t, f), id) =~= without_rule(
                    insert_by_savings(u, f),
                    id,
                ));
            }
        }
    }
}

/// Removing rule `id`'s findings and sorting by savings can be done in either order.
proof fn lemma_sort_without(s: Seq<FindingV>, id: Seq<char>)
    ensures
        sort_by_savings(without_rule(s, id)) == without_rule(sort_by_savings(s), id),
    decreases s.len(),
{
    if s.len() > 0 {
        let p = s.drop_last();
        let f = s.last();
        lemma_sort_without(p, id);
        lemma_sort_ordered(p);
        lemma_without_insert(sort_by_savings(p), f, id);
        if f.rule_id != id {
            let w = without_rule(p, id);
            assert(w.push(f).drop_last() =~= w);
            assert(w.push(f).last() == f);
        }
    }
}

/// Switching one rule off with an override removes exactly that rule's findings from
/// the analysis and keeps the others in their order.
pub proof fn law_switching_a_rule_off(
    rs: Seq<ResourceV>,
    ov: Seq<(Seq<char>, bool)>,
    id: Seq<char>,
    now: (i64, u32),
)
    ensures
        analysis_findings(rs, ov.push((id, false)), now) == without_rule(
            analysis_findings(rs, ov, now),
            id,
        ),
        forall|i: int|
            0 <= i < analysis_findings(rs, ov.push((id, false)), now).len() ==> (
            #[trigger] analysis_findings(rs, ov.push((id, false)), now)[i]).rule_id != id,
{
    let ov2 = ov.push((id, false));
    let a = effective_rules(ov);
    let b = effective_rules(ov2);
    assert(ov2.last() == (id, false));
    assert(ov2.drop_last() =~= ov);
    assert forall|k: int| 0 <= k < a.len() implies if (#[trigger] a[k]).id == id {
        !b[k].enabled
    } else {
        b[k] == a[k]
    } by {
        let rule = gcp_rule_table()[k];
        assert(a[k] == with_override(rule, ov));
        assert(b[k] == with_override(rule, ov2));
    }
    lemma_scan_findings_switched_off(rs, a, b, id, now);
    lemma_sort_without(scan_findings(rs, a, now), id);
    lemma_without_from(analysis_findings(rs, ov, now), id);
}

// ---------------------------------------------------------------------------
// What individual rules report.
// ---------------------------------------------------------------------------

/// What tells the rule ids apart: length, and the fifth, sixth and eighth character.
spec fn id_key(s: Seq<char>) -> (nat, char, char, char) {
    (s.len(), s[4], s[5], s[7])
}

proof fn lemma_rule_id_keys()
    ensures
        id_key("gcp-appengine-stopped"@) == (21nat, 'a', 'p', 'e'),
        id_key("gcp-artifact-large"@) == (18nat, 'a', 'r', 'i'),
        id_key("gcp-bq-empty"@) == (12nat, 'b', 'q', 'e'),
        id_key("gcp-bq-large"@) == (12nat, 'b', 'q', 'l'),
        id_key("gcp-dataproc-idle"@) == (17nat, 'd', 'a', 'a'),
        id_key("gcp-disk-large-unused"@) == (21nat, 'd', 'i', 'k'),
        id_key("gcp-disk-unattached"@) == (19nat, 'd', 'i', 'k'),
        id_key("gcp-function-idle"@) == (17nat, 'f', 'u', 'c'),
        id_key("gcp-fw-disabled"@) == (15nat, 'f', 'w', 'd'),
        id_key("gcp-gke-degraded"@) == (16nat, 'g', 'k', '-'),
        id_key("gcp-gke-overprovisioned"@) == (23nat, 'g', 'k', '-'),
        id_key("gcp-image-old"@) == (13nat, 'i', 'm', 'g'),
        id_key("gcp-ip-unused"@) == (13nat, 'i', 'p', 'u'),
        id_key("gcp-lb-no-target"@) == (16nat, 'l', 'b', 'n'),
        id_key("gcp-logsink-disabled"@) == (20nat, 'l', 'o', 's'),
        id_key("gcp-memorystore-idle"@) == (20nat, 'm', 'e', 'o'),
        id_key("gcp-nat-unused"@) == (14nat, 'n', 'a', '-'),
        id_key("gcp-pubsub-detached"@) == (19nat, 'p', 'u', 's'),
        id_key("gcp-resource-untagged"@) == (21nat, 'r', 'e', 'o'),
        id_key("gcp-run-idle"@) == (12nat, 'r', 'u', '-'),
        id_key("gcp-secret-disabled"@) == (19nat, 's', 'e', 'r'),
        id_key("gcp-snapshot-old"@) == (16nat, 's', 'n', 'p'),
        id_key("gcp-spanner-idle"@) == (16nat, 's', 'p', 'n'),
        id_key("gcp-sql-stopped"@) == (15nat, 's', 'q', '-'),
        id_key("gcp-vm-stopped"@) == (14nat, 'v', 'm', 's'),
        id_key("gcp-vpn-down"@) == (12nat, 'v', 'p', '-'),
{
    reveal_strlit("gcp-appengine-stopped");
    reveal_strlit("gcp-artifact-large");
    reveal_strlit("gcp-bq-empty");
    reveal_strlit("gcp-bq-large");
    reveal_strlit("gcp-dataproc-idle");
    reveal_strlit("gcp-disk-large-unused");
    reveal_strlit("gcp-disk-unattached");
    reveal_strlit("gcp-function-idle");
    reveal_strlit("gcp-fw-disabled");
    reveal_strlit("gcp-gke-degraded");
    reveal_strlit("gcp-gke-overprovisioned");
    reveal_strlit("gcp-image-old");
    reveal_strlit("gcp-ip-unused");
    reveal_strlit("gcp-lb-no-target");
    reveal_strlit("gcp-logsink-disabled");
    reveal_strlit("gcp-memorystore-idle");
    reveal_strlit("gcp-nat-unused");
    reveal_strlit("gcp-pubsub-detached");
    reveal_strlit("gcp-resource-untagged");
    reveal_strlit("gcp-run-idle");
    reveal_strlit("gcp-secret-disabled");
    reveal_strlit("gcp-snapshot-old");
    reveal_strlit("gcp-spanner-idle");
    reveal_strlit("gcp-sql-stopped");
    reveal_strlit("gcp-vm-stopped");
    reveal_strlit("gcp-vpn-down");
}

/// The VPN rule reports every tunnel that is not established, whatever else its state
/// is, and saves the tunnel's monthly cost ($54 when unknown); an established tunnel is
/// never reported.
pub proof fn law_vpn_down_reports_unestablished_tunnels(r: ResourceV, rule: RuleV, now: (i64, u32))
    requires
        r.resource_type == ResourceType::VpnTunnel,
        rule.id == "gcp-vpn-down"@,
    ensures
        check_outcome(r, rule, now) is Some <==> uppercase(r.status) != "ESTABLISHED"@,
        check_outcome(r, rule, now) matches Some(f) ==> f.rule_id == rule.id && f.resource_id
            == r.id && f.severity == rule.severity && f.estimated_monthly_savings == match r.monthly_cost {
            Some(c) => c,
            None => 54_000_000_000u64,
        },
{
    lemma_rule_id_keys();
}

/// The monthly cost of a resource, or `default` when it has none.
pub open spec fn monthly_or(r: ResourceV, default: u64) -> int {
    match r.monthly_cost {
        Some(c) => c as int,
        None => default as int,
    }
}

/// A stopped VM rule reports exactly the virtual machines whose status is TERMINATED, saving their monthly cost.
pub proof fn law_rule_vm_stopped(r: ResourceV, rule: RuleV, now: (i64, u32))
    requires
        rule.id == "gcp-vm-stopped"@,
    ensures
        check_outcome(r, rule, now) is Some <==> (r.resource_type == ResourceType::VirtualMachine && uppercase(r.status) == "TERMINATED"@),
        check_outcome(r, rule, now) matches Some(f) ==> f.rule_id == rule.id && f.resource_id
            == r.id && f.severity == rule.severity && f.estimated_monthly_savings == monthly_or(r, 0),
{
    lemma_rule_id_keys();
}

/// The unattached disk rule reports exactly the disks that are UNATTACHED, saving their monthly cost.
pub proof fn law_rule_disk_unattached(r: ResourceV, rule: RuleV, now: (i64, u32))
    requires
        rule.id == "gcp-disk-unattached"@,
    ensures
        check_outcome(r, rule, now) is Some <==> (r.resource_type == ResourceType::Disk && uppercase(r.status) == "UNATTACHED"@),
        check_outcome(r, rule, now) matches Some(f) ==> f.rule_id == rule.id && f.resource_id
            == r.id && f.severity == rule.severity && f.estimated_monthly_savings == monthly_or(r, 0),
{
    lemma_rule_id_keys();
}

/// The large unused disk rule reports exactly the unattached disks larger than 100 GB, saving their monthly cost.
pub proof fn law_rule_disk_large_unused(r: ResourceV, rule: RuleV, now: (i64, u32))
    requires
        rule.id == "gcp-disk-large-unused"@,
    ensures
        check_outcome(r, rule, now) is Some <==> (r.resource_type == ResourceType::Disk && uppercase(r.status) == "UNATTACHED"@ && meta_nanos(r, "size_gb"@) > 100_000_000_000),
        check_outcome(r, rule, now) matches Some(f) ==> f.rule_id == rule.id && f.resource_id
            == r.id && f.severity == rule.severity && f.estimated_monthly_savings == monthly_or(r, 0),
{
    lemma_rule_id_keys();
}

/// The old snapshot rule reports exactly the snapshots created more than 90 days ago, saving their monthly cost.
pub proof fn law_rule_snapshot_old(r: ResourceV, rule: RuleV, now: (i64, u32))
    requires
        rule.id == "gcp-snapshot-old"@,
    ensures
        check_outcome(r, rule, now) is Some <==> (r.resource_type == ResourceType::Snapshot && (age_days(r.created_at, now) matches Some(d) && d > 90)),
        check_outcome(r, rule, now) matches Some(f) ==> f.rule_id == rule.id && f.resource_id
            == r.id && f.severity == rule.severity && f.estimated_monthly_savings == monthly_or(r, 0),
{
    lemma_rule_id_keys();
}

/// The unused IP rule reports exactly the static IPs that are RESERVED, saving $7.30 a month each.
pub proof fn law_rule_ip_unused(r: ResourceV, rule: RuleV, now: (i64, u32))
    requires
        rule.id == "gcp-ip-unused"@,
    ensures
        check_outcome(r, rule, now) is Some <==> (r.resource_type == ResourceType::ElasticIp && uppercase(r.status) == "RESERVED"@),
        check_outcome(r, rule, now) matches Some(f) ==> f.rule_id == rule.id && f.resource_id
            == r.id && f.severity == rule.severity && f.estimated_monthly_savings == 7_300_000_000,
{
    lemma_rule_id_keys();
}

/// The load balancer rule reports exactly the forwarding rules with NO_TARGET, saving their monthly cost ($18.26 when unknown).
pub proof fn law_rule_lb_no_target(r: ResourceV, rule: RuleV, now: (i64, u32))
    requires
        rule.id == "gcp-lb-no-target"@,
    ensures
        check_outcome(r, rule, now) is Some <==> (r.resource_type == ResourceType::LoadBalancer && uppercase(r.status) == "NO_TARGET"@),
        check_outcome(r, rule, now) matches Some(f) ==> f.rule_id == rule.id && f.resource_id
            == r.id && f.severity == rule.severity && f.estimated_monthly_savings == monthly_or(r, 18_260_000_000),
{
    lemma_rule_id_keys();
}

/// The firewall rule reports exactly the firewall rules that are DISABLED, with no savings.
pub proof fn law_rule_fw_disabled(r: ResourceV, rule: RuleV, now: (i64, u32))
    requires
        rule.id == "gcp-fw-disabled"@,
    ensures
        check_outcome(r, rule, now) is Some <==> (r.resource_type == ResourceType::SecurityGroup && uppercase(r.status) == "DISABLED"@),
        check_outcome(r, rule, now) matches Some(f) ==> f.rule_id == rule.id && f.resource_id
            == r.id && f.severity == rule.severity && f.estimated_monthly_savings == 0,
{
    lemma_rule_id_keys();
}

/// The old image rule reports exactly the machine images created more than 180 days ago, saving their monthly cost.
pub proof fn law_rule_image_old(r: ResourceV, rule: RuleV, now: (i64, u32))
    requires
        rule.id == "gcp-image-old"@,
    ensures
        check_outcome(r, rule, now) is Some <==> (r.resource_type == ResourceType::MachineImage && (age_days(r.created_at, now) matches Some(d) && d > 180)),
        check_outcome(r, rule, now) matches Some(f) ==> f.rule_id == rule.id && f.resource_id
            == r.id && f.severity == rule.severity && f.estimated_monthly_savings == monthly_or(r, 0),
{
    lemma_rule_id_keys();
}

/// The stopped Cloud SQL rule reports exactly the instances that are STOPPED or SUSPENDED, saving 30% of their monthly cost (the storage they still pay for).
pub proof fn law_rule_sql_stopped(r: ResourceV, rule: RuleV, now: (i64, u32))
    requires
        rule.id == "gcp-sql-stopped"@,
    ensures
        check_outcome(r, rule, now) is Some <==> (r.resource_type == ResourceType::CloudSqlInstance && (uppercase(r.status) == "STOPPED"@ || uppercase(r.status) == "SUSPENDED"@)),
        check_outcome(r, rule, now) matches Some(f) ==> f.rule_id == rule.id && f.resource_id
            == r.id && f.severity == rule.severity && f.estimated_monthly_savings == monthly_or(r, 0) * 3 / 10,
{
    lemma_rule_id_keys();
}

/// The idle function rule reports exactly the Cloud Functions with a positive number of minimum instances, saving their monthly cost.
pub proof fn law_rule_function_idle(r: ResourceV, rule: RuleV, now: (i64, u32))
    requires
        rule.id == "gcp-function-idle"@,
    ensures
        check_outcome(r, rule, now) is Some <==> (r.resource_type == ResourceType::ServerlessFunction && meta_int(r, "min_instances"@) > 0),
        check_outcome(r, rule, now) matches Some(f) ==> f.rule_id == rule.id && f.resource_id
            == r.id && f.severity == rule.severity && f.estimated_monthly_savings == monthly_or(r, 0),
{
    lemma_rule_id_keys();
}

/// The idle Cloud Run rule reports exactly the services with a positive number of minimum instances, saving their monthly cost.
pub proof fn law_rule_run_idle(r: ResourceV, rule: RuleV, now: (i64, u32))
    requires
        rule.id == "gcp-run-idle"@,
    ensures
        check_outcome(r, rule, now) is Some <==> (r.resource_type == ResourceType::CloudRunService && meta_int(r, "min_instances"@) > 0),
        check_outcome(r, rule, now) matches Some(f) ==> f.rule_id == rule.id && f.resource_id
            == r.id && f.severity == rule.severity && f.estimated_monthly_savings == monthly_or(r, 0),
{
    lemma_rule_id_keys();
}

/// The untagged rule reports exactly the resources without tags, except firewall rules, networks, log sinks, topics, subscriptions and NAT gateways, with no savings.
pub proof fn law_rule_untagged(r: ResourceV, rule: RuleV, now: (i64, u32))
    requires
        rule.id == "gcp-resource-untagged"@,
    ensures
        check_outcome(r, rule, now) is Some <==> (!(r.resource_type == ResourceType::SecurityGroup || r.resource_type == ResourceType::Network || r.resource_type == ResourceType::LogSink || r.resource_type == ResourceType::PubSubTopic || r.resource_type == ResourceType::PubSubSubscription || r.resource_type == ResourceType::NatGateway) && r.tags.len() == 0),
        check_outcome(r, rule, now) matches Some(f) ==> f.rule_id == rule.id && f.resource_id
            == r.id && f.severity == rule.severity && f.estimated_monthly_savings == 0,
{
    lemma_rule_id_keys();
}

/// The degraded GKE rule reports exactly the clusters in ERROR or DEGRADED state, saving their monthly cost.
pub proof fn law_rule_gke_degraded(r: ResourceV, rule: RuleV, now: (i64, u32))
    requires
        rule.id == "gcp-gke-degraded"@,
    ensures
        check_outcome(r, rule, now) is Some <==> (r.resource_type == ResourceType::GkeCluster && (uppercase(r.status) == "ERROR"@ || uppercase(r.status) == "DEGRADED"@)),
        check_outcome(r, rule, now) matches Some(f) ==> f.rule_id == rule.id && f.resource_id
            == r.id && f.severity == rule.severity && f.estimated_monthly_savings == monthly_or(r, 0),
{
    lemma_rule_id_keys();
}

/// The overprovisioned GKE rule reports exactly the clusters with at least 10 nodes, saving 30% of their monthly cost.
pub proof fn law_rule_gke_overprovisioned(r: ResourceV, rule: RuleV, now: (i64, u32))
    requires
        rule.id == "gcp-gke-overprovisioned"@,
    ensures
        check_outcome(r, rule, now) is Some <==> (r.resource_type == ResourceType::GkeCluster && meta_int(r, "current_node_count"@) >= 10),
        check_outcome(r, rule, now) matches Some(f) ==> f.rule_id == rule.id && f.resource_id
            == r.id && f.severity == rule.severity && f.estimated_monthly_savings == monthly_or(r, 0) * 3 / 10,
{
    lemma_rule_id_keys();
}

/// The empty BigQuery rule reports exactly the datasets whose status is EMPTY, with no savings.
pub proof fn law_rule_bq_empty(r: ResourceV, rule: RuleV, now: (i64, u32))
    requires
        rule.id == "gcp-bq-empty"@,
    ensures
        check_outcome(r, rule, now) is Some <==> (r.resource_type == ResourceType::BigQueryDataset && uppercase(r.status) == "EMPTY"@),
        check_outcome(r, rule, now) matches Some(f) ==> f.rule_id == rule.id && f.resource_id
            == r.id && f.severity == rule.severity && f.estimated_monthly_savings == 0,
{
    lemma_rule_id_keys();
}

/// The large BigQuery rule reports exactly the datasets over 100 GiB, saving 20% of their monthly cost.
pub proof fn law_rule_bq_large(r: ResourceV, rule: RuleV, now: (i64, u32))
    requires
        rule.id == "gcp-bq-large"@,
    ensures
        check_outcome(r, rule, now) is Some <==> (r.resource_type == ResourceType::BigQueryDataset && meta_nanos(r, "total_size_bytes"@) > 100 * 1073741824 * 1_000_000_000),
        check_outcome(r, rule, now) matches Some(f) ==> f.rule_id == rule.id && f.resource_id
            == r.id && f.severity == rule.severity && f.estimated_monthly_savings == monthly_or(r, 0) * 2 / 10,
{
    lemma_rule_id_keys();
}

/// The detached subscription rule reports exactly the subscriptions that are DETACHED, with no savings.
pub proof fn law_rule_pubsub_detached(r: ResourceV, rule: RuleV, now: (i64, u32))
    requires
        rule.id == "gcp-pubsub-detached"@,
    ensures
        check_outcome(r, rule, now) is Some <==> (r.resource_type == ResourceType::PubSubSubscription && uppercase(r.status) == "DETACHED"@),
        check_outcome(r, rule, now) matches Some(f) ==> f.rule_id == rule.id && f.resource_id
            == r.id && f.severity == rule.severity && f.estimated_monthly_savings == 0,
{
    lemma_rule_id_keys();
}

/// The Spanner rule reports exactly the instances that cost something, saving 30% of their monthly cost.
pub proof fn law_rule_spanner_idle(r: ResourceV, rule: RuleV, now: (i64, u32))
    requires
        rule.id == "gcp-spanner-idle"@,
    ensures
        check_outcome(r, rule, now) is Some <==> (r.resource_type == ResourceType::SpannerInstance && monthly_or(r, 0) > 0),
        check_outcome(r, rule, now) matches Some(f) ==> f.rule_id == rule.id && f.resource_id
            == r.id && f.severity == rule.severity && f.estimated_monthly_savings == monthly_or(r, 0) * 3 / 10,
{
    lemma_rule_id_keys();
}

/// The Memorystore rule reports exactly the instances that are RUNNING or READY, saving 20% of their monthly cost.
pub proof fn law_rule_memorystore_idle(r: ResourceV, rule: RuleV, now: (i64, u32))
    requires
        rule.id == "gcp-memorystore-idle"@,
    ensures
        check_outcome(r, rule, now) is Some <==> (r.resource_type == ResourceType::MemorystoreInstance && (uppercase(r.status) == "RUNNING"@ || uppercase(r.status) == "READY"@)),
        check_outcome(r, rule, now) matches Some(f) ==> f.rule_id == rule.id && f.resource_id
            == r.id && f.severity == rule.severity && f.estimated_monthly_savings == monthly_or(r, 0) * 2 / 10,
{
    lemma_rule_id_keys();
}

/// The App Engine rule reports exactly the versions that are STOPPED, with no savings.
pub proof fn law_rule_appengine_stopped(r: ResourceV, rule: RuleV, now: (i64, u32))
    requires
        rule.id == "gcp-appengine-stopped"@,
    ensures
        check_outcome(r, rule, now) is Some <==> (r.resource_type == ResourceType::AppEngineVersion && uppercase(r.status) == "STOPPED"@),
        check_outcome(r, rule, now) matches Some(f) ==> f.rule_id == rule.id && f.resource_id
            == r.id && f.severity == rule.severity && f.estimated_monthly_savings == 0,
{
    lemma_rule_id_keys();
}

/// The NAT rule reports every NAT gateway, saving its monthly cost ($31.68 when unknown).
pub proof fn law_rule_nat_unused(r: ResourceV, rule: RuleV, now: (i64, u32))
    requires
        rule.id == "gcp-nat-unused"@,
    ensures
        check_outcome(r, rule, now) is Some <==> (r.resource_type == ResourceType::NatGateway),
        check_outcome(r, rule, now) matches Some(f) ==> f.rule_id == rule.id && f.resource_id
            == r.id && f.severity == rule.severity && f.estimated_monthly_savings == monthly_or(r, 31_680_000_000),
{
    lemma_rule_id_keys();
}

/// The large repository rule reports exactly the Artifact Registry repositories over 10 GiB, saving 30% of their monthly cost.
pub proof fn law_rule_artifact_large(r: ResourceV, rule: RuleV, now: (i64, u32))
    requires
        rule.id == "gcp-artifact-large"@,
    ensures
        check_outcome(r, rule, now) is Some <==> (r.resource_type == ResourceType::ArtifactRegistryRepo && meta_nanos(r, "size_bytes"@) > 10 * 1073741824 * 1_000_000_000),
        check_outcome(r, rule, now) matches Some(f) ==> f.rule_id == rule.id && f.resource_id
            == r.id && f.severity == rule.severity && f.estimated_monthly_savings == monthly_or(r, 0) * 3 / 10,
{
    lemma_rule_id_keys();
}

/// The Dataproc rule reports exactly the clusters that are RUNNING, saving half their monthly cost.
pub proof fn law_rule_dataproc_idle(r: ResourceV, rule: RuleV, now: (i64, u32))
    requires
        rule.id == "gcp-dataproc-idle"@,
    ensures
        check_outcome(r, rule, now) is Some <==> (r.resource_type == ResourceType::DataprocCluster && uppercase(r.status) == "RUNNING"@),
        check_outcome(r, rule, now) matches Some(f) ==> f.rule_id == rule.id && f.resource_id
            == r.id && f.severity == rule.severity && f.estimated_monthly_savings == monthly_or(r, 0) * 5 / 10,
{
    lemma_rule_id_keys();
}

/// The disabled secret rule reports exactly the secrets that are DISABLED, saving their monthly cost.
pub proof fn law_rule_secret_disabled(r: ResourceV, rule: RuleV, now: (i64, u32))
    requires
        rule.id == "gcp-secret-disabled"@,
    ensures
        check_outcome(r, rule, now) is Some <==> (r.resource_type == ResourceType::SecretManagerSecret && uppercase(r.status) == "DISABLED"@),
        check_outcome(r, rule, now) matches Some(f) ==> f.rule_id == rule.id && f.resource_id
            == r.id && f.severity == rule.severity && f.estimated_monthly_savings == monthly_or(r, 0),
{
    lemma_rule_id_keys();
}

/// The disabled log sink rule reports exactly the sinks that are DISABLED, with no savings.
pub proof fn law_rule_logsink_disabled(r: ResourceV, rule: RuleV, now: (i64, u32))
    requires
        rule.id == "gcp-logsink-disabled"@,
    ensures
        check_outcome(r, rule, now) is Some <==> (r.resource_type == ResourceType::LogSink && uppercase(r.status) == "DISABLED"@),
        check_outcome(r, rule, now) matches Some(f) ==> f.rule_id == rule.id && f.resource_id
            == r.id && f.severity == rule.severity && f.estimated_monthly_savings == 0,
{
    lemma_rule_id_keys();
}


/// The override for a rule id is the value of the last entry for that id; an id with
/// no entry has no override.
pub proof fn law_last_override_wins(ov: Seq<(Seq<char>, bool)>, id: Seq<char>)
    ensures
        override_for(ov, id) matches Some(b) ==> exists|i: int|
            0 <= i < ov.len() && ov[i] == (id, b) && forall|j: int|
                i < j < ov.len() ==> (#[trigger] ov[j]).0 != id,
        override_for(ov, id) is None ==> forall|i: int| 0 <= i < ov.len() ==> (#[trigger] ov[i]).0
            != id,
        override_for(ov.push((id, false)), id) == Some(false),
        override_for(ov.push((id, true)), id) == Some(true),
    decreases ov.len(),
{
    if ov.len() > 0 {
        let p = ov.drop_last();
        law_last_override_wins(p, id);
        if ov.last().0 == id {
            assert(ov[ov.len() - 1] == ov.last());
        } else {
            if let Some(b) = override_for(ov, id) {
                let i = choose|i: int|
                    0 <= i < p.len() && p[i] == (id, b) && forall|j: int|
                        i < j < p.len() ==> (#[trigger] p[j]).0 != id;
                assert(ov[i] == p[i]);
                assert forall|j: int| i < j < ov.len() implies (#[trigger] ov[j]).0 != id by {
                    if j < ov.len() - 1 {
                        assert(ov[j] == p[j]);
                    }
                }
            } else {
                assert forall|i: int| 0 <= i < ov.len() implies (#[trigger] ov[i]).0 != id by {
                    if i < ov.len() - 1 {
                        assert(ov[i] == p[i]);
                    }
                }
            }
        }
    }
}


/// Every finding describes the resource it is about and the rule that reported it: its
/// id is `<rule id>-<resource id>`, and it carries the resource's id, name, type name and
/// region and the rule's id, name and severity.
pub proof fn law_findings_describe_resource_and_rule(r: ResourceV, rule: RuleV, now: (i64, u32))
    ensures
        check_outcome(r, rule, now) matches Some(f) ==> {
            &&& f.id == rule.id + "-"@ + r.id
            &&& f.resource_id == r.id
            &&& f.resource_name == r.name
            &&& f.resource_type == resource_type_name(r.resource_type)
            &&& f.region == r.region
            &&& f.rule_id == rule.id
            &&& f.rule_name == rule.name
            &&& f.severity == rule.severity
        },
{
}

} // verus!
