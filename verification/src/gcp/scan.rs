//! Scanning a GCP project: which API lists each resource type, what a listing's HTTP
//! status means, how the items of a listing become resources, and the progress
//! reported on the way. The HTTP calls themselves are made by the caller, which hands
//! the decoded responses in.

use vstd::prelude::*;
use crate::gcp::compute::{
    disk_resource, image_resource, instance_resource, parse_disk, parse_image, parse_instance,
    parse_snapshot, snapshot_resource,
};
use crate::gcp::data::{
    dataproc_resource, gke_resource, memorystore_resource, parse_dataproc_cluster, parse_gke_cluster,
    parse_memorystore_instance, parse_spanner_instance, parse_sql_instance, spanner_resource,
    sql_resource,
};
use crate::gcp::network::{
    address_resource, firewall_resource, forwarding_rule_resource, nat_gateway_resource,
    network_resource, parse_address, parse_firewall, parse_forwarding_rule, parse_nat_gateway,
    parse_network, parse_vpn_tunnel, vpn_tunnel_resource,
};
use crate::gcp::parse::{array_fields, fields_in, str_at_or, str_or, strings_view};
use crate::gcp::serverless::{
    function_resource, parse_appengine_version, parse_function, parse_service, service_resource,
    version_resource,
};
use crate::gcp::services::{
    bucket_resource, parse_bucket, parse_log_sink, parse_repository, parse_subscription, parse_topic,
    repository_resource, sink_resource, subscription_resource, topic_resource,
};
use crate::json::{jarr, jget, jobj, jstr, jv_entries, jv_seq, Json, JsonV};
use crate::provider::{
    opt_resource_view, resources_view, type_variant_name, CloudResource, ProviderKind, ResourceType,
    ResourceV, ScanProgress, ScanStepStatus,
};
use crate::text::{cat2, cat3, spec_strip_prefix, strip_prefix, strip_prefix_or_keep, strip_prefix_or_self};

verus! {

/// What the HTTP status of a listing call means for a scan.
#[derive(Clone, Copy, Debug, PartialEq, Eq, Structural)]
pub enum ListOutcome {
    /// The call succeeded: read the listing.
    Read,
    /// The API is disabled or absent for the project: report nothing, successfully.
    NothingToList,
    /// The call failed: report the failure.
    Failed,
}

/// Types whose API may be disabled for a project; a 403 or 404 then means "none".
pub open spec fn tolerates_missing_api(t: ResourceType) -> bool {
    match t {
        ResourceType::VirtualMachine | ResourceType::Disk | ResourceType::Snapshot
        | ResourceType::ElasticIp | ResourceType::SecurityGroup | ResourceType::LoadBalancer
        | ResourceType::MachineImage | ResourceType::Network | ResourceType::StorageBucket => false,
        _ => true,
    }
}

/// A status in 200..=299.
pub open spec fn is_success(status: u16) -> bool {
    200 <= status <= 299
}

/// The meaning of the status of a listing call for resource type `t`.
pub open spec fn list_outcome_of(t: ResourceType, status: u16) -> ListOutcome {
    if is_success(status) {
        ListOutcome::Read
    } else if tolerates_missing_api(t) && (status == 403 || status == 404) {
        ListOutcome::NothingToList
    } else {
        ListOutcome::Failed
    }
}

/// The meaning of the status of a listing call.
pub fn list_outcome(t: ResourceType, status: u16) -> (r: ListOutcome)
    ensures
        r == list_outcome_of(t, status),
{
    if 200 <= status && status <= 299 {
        ListOutcome::Read
    } else {
        let tolerant = match t {
            ResourceType::VirtualMachine | ResourceType::Disk | ResourceType::Snapshot
            | ResourceType::ElasticIp | ResourceType::SecurityGroup | ResourceType::LoadBalancer
            | ResourceType::MachineImage | ResourceType::Network | ResourceType::StorageBucket => false,
            _ => true,
        };
        if tolerant && (status == 403 || status == 404) {
            ListOutcome::NothingToList
        } else {
            ListOutcome::Failed
        }
    }
}

/// What a failed listing of `t` is called in its error message.
pub open spec fn listing_noun(t: ResourceType) -> Seq<char> {
    match t {
        ResourceType::VirtualMachine => "instances"@,
        ResourceType::Disk => "disks"@,
        ResourceType::Snapshot => "snapshots"@,
        ResourceType::LoadBalancer => "forwarding rules"@,
        ResourceType::ElasticIp => "addresses"@,
        ResourceType::SecurityGroup => "firewalls"@,
        ResourceType::ServerlessFunction => "functions"@,
        ResourceType::StorageBucket => "buckets"@,
        ResourceType::MachineImage => "images"@,
        ResourceType::CloudSqlInstance => "SQL instances"@,
        ResourceType::CloudRunService => "Cloud Run services"@,
        ResourceType::Network => "networks"@,
        ResourceType::NatGateway => "routers"@,
        ResourceType::VpnTunnel => "VPN tunnels"@,
        ResourceType::ArtifactRegistryRepo => "Artifact Registry repos"@,
        ResourceType::DataprocCluster => "Dataproc clusters"@,
        ResourceType::SecretManagerSecret => "secrets"@,
        ResourceType::LogSink => "log sinks"@,
        ResourceType::GkeCluster => "GKE clusters"@,
        ResourceType::BigQueryDataset => "BigQuery datasets"@,
        ResourceType::MemorystoreInstance => "Memorystore instances"@,
        ResourceType::AppEngineVersion => "App Engine services"@,
        ResourceType::PubSubTopic => "Pub/Sub topics"@,
        ResourceType::PubSubSubscription => "Pub/Sub subscriptions"@,
        ResourceType::SpannerInstance => "Spanner instances"@,
    }
}

fn noun_of(t: ResourceType) -> (r: &'static str)
    ensures
        r@ == listing_noun(t),
{
    match t {
        ResourceType::VirtualMachine => "instances",
        ResourceType::Disk => "disks",
        ResourceType::Snapshot => "snapshots",
        ResourceType::LoadBalancer => "forwarding rules",
        ResourceType::ElasticIp => "addresses",
        ResourceType::SecurityGroup => "firewalls",
        ResourceType::ServerlessFunction => "functions",
        ResourceType::StorageBucket => "buckets",
        ResourceType::MachineImage => "images",
        ResourceType::CloudSqlInstance => "SQL instances",
        ResourceType::CloudRunService => "Cloud Run services",
        ResourceType::Network => "networks",
        ResourceType::NatGateway => "routers",
        ResourceType::VpnTunnel => "VPN tunnels",
        ResourceType::ArtifactRegistryRepo => "Artifact Registry repos",
        ResourceType::DataprocCluster => "Dataproc clusters",
        ResourceType::SecretManagerSecret => "secrets",
        ResourceType::LogSink => "log sinks",
        ResourceType::GkeCluster => "GKE clusters",
        ResourceType::BigQueryDataset => "BigQuery datasets",
        ResourceType::MemorystoreInstance => "Memorystore instances",
        ResourceType::AppEngineVersion => "App Engine services",
        ResourceType::PubSubTopic => "Pub/Sub topics",
        ResourceType::PubSubSubscription => "Pub/Sub subscriptions",
        ResourceType::SpannerInstance => "Spanner instances",
    }
}

/// The error of a failed listing: `Failed to list {what}: {status} {body}`.
pub fn list_failure(t: ResourceType, status: &str, body: &str) -> (r: String)
    ensures
        r@ == "Failed to list "@ + listing_noun(t) + ": "@ + status@ + " "@ + body@,
{
    let mut s = cat3("Failed to list ", noun_of(t), ": ");
    s.append(status);
    s.append(" ");
    s.append(body);
    s
}

/// The listing URL of resource type `t` in a project.
pub open spec fn list_url_of(t: ResourceType, project: Seq<char>) -> Seq<char> {
    match t {
        ResourceType::VirtualMachine => "https://compute.googleapis.com/compute/v1/projects/"@
            + project + "/aggregated/instances"@,
        ResourceType::Disk => "https://compute.googleapis.com/compute/v1/projects/"@ + project
            + "/aggregated/disks"@,
        ResourceType::Snapshot => "https://compute.googleapis.com/compute/v1/projects/"@ + project
            + "/global/snapshots"@,
        ResourceType::LoadBalancer => "https://compute.googleapis.com/compute/v1/projects/"@
            + project + "/aggregated/forwardingRules"@,
        ResourceType::ElasticIp => "https://compute.googleapis.com/compute/v1/projects/"@ + project
            + "/aggregated/addresses"@,
        ResourceType::SecurityGroup => "https://compute.googleapis.com/compute/v1/projects/"@
            + project + "/global/firewalls"@,
        ResourceType::ServerlessFunction => "https://cloudfunctions.googleapis.com/v2/projects/"@
            + project + "/locations/-/functions"@,
        ResourceType::StorageBucket => "https://storage.googleapis.com/storage/v1/b?project="@
            + project + ""@,
        ResourceType::MachineImage => "https://compute.googleapis.com/compute/v1/projects/"@
            + project + "/global/images"@,
        ResourceType::CloudSqlInstance => "https://sqladmin.googleapis.com/v1/projects/"@ + project
            + "/instances"@,
        ResourceType::CloudRunService => "https://run.googleapis.com/v2/projects/"@ + project
            + "/locations/-/services"@,
        ResourceType::Network => "https://compute.googleapis.com/compute/v1/projects/"@ + project
            + "/global/networks"@,
        ResourceType::NatGateway => "https://compute.googleapis.com/compute/v1/projects/"@ + project
            + "/aggregated/routers"@,
        ResourceType::VpnTunnel => "https://compute.googleapis.com/compute/v1/projects/"@ + project
            + "/aggregated/vpnTunnels"@,
        ResourceType::ArtifactRegistryRepo => "https://artifactregistry.googleapis.com/v1/projects/"@
            + project + "/locations/-/repositories"@,
        ResourceType::DataprocCluster => "https://dataproc.googleapis.com/v1/projects/"@ + project
            + "/regions/-/clusters"@,
        ResourceType::SecretManagerSecret => "https://secretmanager.googleapis.com/v1/projects/"@
            + project + "/secrets"@,
        ResourceType::LogSink => "https://logging.googleapis.com/v2/projects/"@ + project
            + "/sinks"@,
        ResourceType::GkeCluster => "https://container.googleapis.com/v1/projects/"@ + project
            + "/locations/-/clusters"@,
        ResourceType::BigQueryDataset => "https://bigquery.googleapis.com/bigquery/v2/projects/"@
            + project + "/datasets"@,
        ResourceType::MemorystoreInstance => "https://redis.googleapis.com/v1/projects/"@ + project
            + "/locations/-/instances"@,
        ResourceType::AppEngineVersion => "https://appengine.googleapis.com/v1/apps/"@ + project
            + "/services"@,
        ResourceType::PubSubTopic => "https://pubsub.googleapis.com/v1/projects/"@ + project
            + "/topics"@,
        ResourceType::PubSubSubscription => "https://pubsub.googleapis.com/v1/projects/"@ + project
            + "/subscriptions"@,
        ResourceType::SpannerInstance => "https://spanner.googleapis.com/v1/projects/"@ + project
            + "/instances"@,
    }
}

/// The listing URL of a resource type in a project.
pub fn list_url(t: ResourceType, project: &str) -> (r: String)
    ensures
        r@ == list_url_of(t, project@),
{
    match t {
        ResourceType::VirtualMachine => cat3(
            "https://compute.googleapis.com/compute/v1/projects/",
            project,
            "/aggregated/instances",
        ),
        ResourceType::Disk => cat3(
            "https://compute.googleapis.com/compute/v1/projects/",
            project,
            "/aggregated/disks",
        ),
        ResourceType::Snapshot => cat3(
            "https://compute.googleapis.com/compute/v1/projects/",
            project,
            "/global/snapshots",
        ),
        ResourceType::LoadBalancer => cat3(
            "https://compute.googleapis.com/compute/v1/projects/",
            project,
            "/aggregated/forwardingRules",
        ),
        ResourceType::ElasticIp => cat3(
            "https://compute.googleapis.com/compute/v1/projects/",
            project,
            "/aggregated/addresses",
        ),
        ResourceType::SecurityGroup => cat3(
            "https://compute.googleapis.com/compute/v1/projects/",
            project,
            "/global/firewalls",
        ),
        ResourceType::ServerlessFunction => cat3(
            "https://cloudfunctions.googleapis.com/v2/projects/",
            project,
            "/locations/-/functions",
        ),
        ResourceType::StorageBucket => cat3(
            "https://storage.googleapis.com/storage/v1/b?project=",
            project,
            "",
        ),
        ResourceType::MachineImage => cat3(
            "https://compute.googleapis.com/compute/v1/projects/",
            project,
            "/global/images",
        ),
        ResourceType::CloudSqlInstance => cat3(
            "https://sqladmin.googleapis.com/v1/projects/",
            project,
            "/instances",
        ),
        ResourceType::CloudRunService => cat3(
            "https://run.googleapis.com/v2/projects/",
            project,
            "/locations/-/services",
        ),
        ResourceType::Network => cat3(
            "https://compute.googleapis.com/compute/v1/projects/",
            project,
            "/global/networks",
        ),
        ResourceType::NatGateway => cat3(
            "https://compute.googleapis.com/compute/v1/projects/",
            project,
            "/aggregated/routers",
        ),
        ResourceType::VpnTunnel => cat3(
            "https://compute.googleapis.com/compute/v1/projects/",
            project,
            "/aggregated/vpnTunnels",
        ),
        ResourceType::ArtifactRegistryRepo => cat3(
            "https://artifactregistry.googleapis.com/v1/projects/",
            project,
            "/locations/-/repositories",
        ),
        ResourceType::DataprocCluster => cat3(
            "https://dataproc.googleapis.com/v1/projects/",
            project,
            "/regions/-/clusters",
        ),
        ResourceType::SecretManagerSecret => cat3(
            "https://secretmanager.googleapis.com/v1/projects/",
            project,
            "/secrets",
        ),
        ResourceType::LogSink => cat3(
            "https://logging.googleapis.com/v2/projects/",
            project,
            "/sinks",
        ),
        ResourceType::GkeCluster => cat3(
            "https://container.googleapis.com/v1/projects/",
            project,
            "/locations/-/clusters",
        ),
        ResourceType::BigQueryDataset => cat3(
            "https://bigquery.googleapis.com/bigquery/v2/projects/",
            project,
            "/datasets",
        ),
        ResourceType::MemorystoreInstance => cat3(
            "https://redis.googleapis.com/v1/projects/",
            project,
            "/locations/-/instances",
        ),
        ResourceType::AppEngineVersion => cat3(
            "https://appengine.googleapis.com/v1/apps/",
            project,
            "/services",
        ),
        ResourceType::PubSubTopic => cat3(
            "https://pubsub.googleapis.com/v1/projects/",
            project,
            "/topics",
        ),
        ResourceType::PubSubSubscription => cat3(
            "https://pubsub.googleapis.com/v1/projects/",
            project,
            "/subscriptions",
        ),
        ResourceType::SpannerInstance => cat3(
            "https://spanner.googleapis.com/v1/projects/",
            project,
            "/instances",
        ),
    }
}

/// The progress of scanning type `t` in a project.
pub open spec fn progress_of(p: ScanProgress, project: Seq<char>, t: ResourceType, found: usize, status: ScanStepStatus) -> bool {
    &&& p.account_id@ == project
    &&& p.resource_type@ == type_variant_name(t)
    &&& p.found == found
    &&& p.status == status
}

/// A progress report for scanning type `t` in a project.
pub fn progress(project: &str, t: ResourceType, found: usize, status: ScanStepStatus) -> (r: ScanProgress)
    ensures
        progress_of(r, project@, t, found, status),
{
    ScanProgress {
        account_id: String::from_str(project),
        resource_type: String::from_str(t.variant_name()),
        found,
        status,
    }
}

/// Types whose listing gathers items across zones or regions (`aggregatedList`).
pub open spec fn is_aggregated(t: ResourceType) -> bool {
    match t {
        ResourceType::VirtualMachine | ResourceType::Disk | ResourceType::ElasticIp
        | ResourceType::LoadBalancer | ResourceType::VpnTunnel | ResourceType::NatGateway => true,
        _ => false,
    }
}

/// The key of the item array in a listing (in each scope of an aggregated one).
pub open spec fn list_key(t: ResourceType) -> Seq<char> {
    match t {
        ResourceType::VirtualMachine => "instances"@,
        ResourceType::Disk => "disks"@,
        ResourceType::ElasticIp => "addresses"@,
        ResourceType::LoadBalancer => "forwardingRules"@,
        ResourceType::VpnTunnel => "vpnTunnels"@,
        ResourceType::NatGateway => "routers"@,
        ResourceType::ServerlessFunction => "functions"@,
        ResourceType::CloudRunService => "services"@,
        ResourceType::ArtifactRegistryRepo => "repositories"@,
        ResourceType::DataprocCluster => "clusters"@,
        ResourceType::SecretManagerSecret => "secrets"@,
        ResourceType::LogSink => "sinks"@,
        ResourceType::GkeCluster => "clusters"@,
        ResourceType::BigQueryDataset => "datasets"@,
        ResourceType::MemorystoreInstance => "instances"@,
        ResourceType::AppEngineVersion => "services"@,
        ResourceType::PubSubTopic => "topics"@,
        ResourceType::PubSubSubscription => "subscriptions"@,
        ResourceType::SpannerInstance => "instances"@,
        _ => "items"@,
    }
}

fn list_key_of(t: ResourceType) -> (r: &'static str)
    ensures
        r@ == list_key(t),
{
    match t {
        ResourceType::VirtualMachine => "instances",
        ResourceType::Disk => "disks",
        ResourceType::ElasticIp => "addresses",
        ResourceType::LoadBalancer => "forwardingRules",
        ResourceType::VpnTunnel => "vpnTunnels",
        ResourceType::NatGateway => "routers",
        ResourceType::ServerlessFunction => "functions",
        ResourceType::CloudRunService => "services",
        ResourceType::ArtifactRegistryRepo => "repositories",
        ResourceType::DataprocCluster => "clusters",
        ResourceType::SecretManagerSecret => "secrets",
        ResourceType::LogSink => "sinks",
        ResourceType::GkeCluster => "clusters",
        ResourceType::BigQueryDataset => "datasets",
        ResourceType::MemorystoreInstance => "instances",
        ResourceType::AppEngineVersion => "services",
        ResourceType::PubSubTopic => "topics",
        ResourceType::PubSubSubscription => "subscriptions",
        ResourceType::SpannerInstance => "instances",
        _ => "items",
    }
}

/// The zone or region named by a scope key of an aggregated listing: without its
/// `zones/` or `regions/` prefix; a VPN or NAT scope without `regions/` is `unknown`.
pub open spec fn scope_name(t: ResourceType, key: Seq<char>) -> Seq<char> {
    match t {
        ResourceType::VirtualMachine | ResourceType::Disk => strip_prefix_or_self(key, "zones/"@),
        ResourceType::ElasticIp | ResourceType::LoadBalancer => strip_prefix_or_self(
            key,
            "regions/"@,
        ),
        _ => match spec_strip_prefix(key, "regions/"@) {
            Some(r) => r,
            None => "unknown"@,
        },
    }
}

/// The zone or region named by a scope key.
pub fn scope_of(t: ResourceType, key: &str) -> (r: String)
    ensures
        r@ == scope_name(t, key@),
{
    match t {
        ResourceType::VirtualMachine | ResourceType::Disk => strip_prefix_or_keep(key, "zones/"),
        ResourceType::ElasticIp | ResourceType::LoadBalancer => strip_prefix_or_keep(
            key,
            "regions/",
        ),
        _ => match strip_prefix(key, "regions/") {
            Some(r) => r,
            None => String::from_str("unknown"),
        },
    }
}

/// Types whose listing items are read on their own (without further calls or nesting).
pub open spec fn reads_items_directly(t: ResourceType) -> bool {
    match t {
        ResourceType::NatGateway | ResourceType::BigQueryDataset | ResourceType::AppEngineVersion
        | ResourceType::SecretManagerSecret => false,
        _ => true,
    }
}

/// The resource an item of a listing of `t` stands for, found in `scope` (zone or region
/// of an aggregated listing, else empty).
pub open spec fn item_resource(t: ResourceType, v: JsonV, scope: Seq<char>, project: Seq<char>) -> Option<
    ResourceV,
> {
    match t {
        ResourceType::VirtualMachine => instance_resource(v, scope, project),
        ResourceType::Disk => disk_resource(v, scope, project),
        ResourceType::Snapshot => snapshot_resource(v, project),
        ResourceType::LoadBalancer => forwarding_rule_resource(v, scope, project),
        ResourceType::ElasticIp => address_resource(v, scope, project),
        ResourceType::SecurityGroup => firewall_resource(v, project),
        ResourceType::ServerlessFunction => function_resource(v, project),
        ResourceType::StorageBucket => bucket_resource(v, project),
        ResourceType::MachineImage => image_resource(v, project),
        ResourceType::CloudSqlInstance => sql_resource(v, project),
        ResourceType::CloudRunService => service_resource(v, project),
        ResourceType::Network => network_resource(v, project),
        ResourceType::VpnTunnel => vpn_tunnel_resource(v, scope, project),
        ResourceType::ArtifactRegistryRepo => repository_resource(v, project),
        ResourceType::DataprocCluster => dataproc_resource(v, project),
        ResourceType::LogSink => sink_resource(v, project),
        ResourceType::GkeCluster => gke_resource(v, project),
        ResourceType::MemorystoreInstance => memorystore_resource(v, project),
        ResourceType::PubSubTopic => topic_resource(v, project),
        ResourceType::PubSubSubscription => subscription_resource(v, project),
        ResourceType::SpannerInstance => spanner_resource(v, project),
        _ => None,
    }
}

/// Reads one item of a listing.
pub fn parse_item(t: ResourceType, v: &Json, scope: &str, project: &str) -> (r: Option<CloudResource>)
    ensures
        opt_resource_view(r) == item_resource(t, v@, scope@, project@),
{
    match t {
        ResourceType::VirtualMachine => parse_instance(v, scope, project),
        ResourceType::Disk => parse_disk(v, scope, project),
        ResourceType::Snapshot => parse_snapshot(v, project),
        ResourceType::LoadBalancer => parse_forwarding_rule(v, scope, project),
        ResourceType::ElasticIp => parse_address(v, scope, project),
        ResourceType::SecurityGroup => parse_firewall(v, project),
        ResourceType::ServerlessFunction => parse_function(v, project),
        ResourceType::StorageBucket => parse_bucket(v, project),
        ResourceType::MachineImage => parse_image(v, project),
        ResourceType::CloudSqlInstance => parse_sql_instance(v, project),
        ResourceType::CloudRunService => parse_service(v, project),
        ResourceType::Network => parse_network(v, project),
        ResourceType::VpnTunnel => parse_vpn_tunnel(v, scope, project),
        ResourceType::ArtifactRegistryRepo => parse_repository(v, project),
        ResourceType::DataprocCluster => parse_dataproc_cluster(v, project),
        ResourceType::LogSink => parse_log_sink(v, project),
        ResourceType::GkeCluster => parse_gke_cluster(v, project),
        ResourceType::MemorystoreInstance => parse_memorystore_instance(v, project),
        ResourceType::PubSubTopic => parse_topic(v, project),
        ResourceType::PubSubSubscription => parse_subscription(v, project),
        ResourceType::SpannerInstance => parse_spanner_instance(v, project),
        _ => None,
    }
}

/// The array `v[key]`, empty when it is not an array.
pub open spec fn array_at(v: JsonV, key: Seq<char>) -> Seq<JsonV> {
    match jarr(jget(v, key)) {
        Some(a) => a,
        None => Seq::empty(),
    }
}

/// The resources that items of a listing stand for, in order, skipping unreadable items.
pub open spec fn parsed_items(t: ResourceType, items: Seq<JsonV>, scope: Seq<char>, project: Seq<
    char,
>) -> Seq<ResourceV>
    decreases items.len(),
{
    if items.len() == 0 {
        Seq::empty()
    } else {
        let prev = parsed_items(t, items.drop_last(), scope, project);
        match item_resource(t, items.last(), scope, project) {
            Some(r) => prev.push(r),
            None => prev,
        }
    }
}

/// The resources of the scopes of an aggregated listing, scope after scope.
pub open spec fn scoped_items(t: ResourceType, scopes: Seq<(Seq<char>, JsonV)>, project: Seq<char>) -> Seq<
    ResourceV,
>
    decreases scopes.len(),
{
    if scopes.len() == 0 {
        Seq::empty()
    } else {
        scoped_items(t, scopes.drop_last(), project) + parsed_items(
            t,
            array_at(scopes.last().1, list_key(t)),
            scope_name(t, scopes.last().0),
            project,
        )
    }
}

/// The resources a listing response of `t` holds.
pub open spec fn listed_resources(t: ResourceType, data: JsonV, project: Seq<char>) -> Seq<ResourceV> {
    if is_aggregated(t) {
        match jobj(jget(data, "items"@)) {
            Some(scopes) => scoped_items(t, scopes, project),
            None => Seq::empty(),
        }
    } else {
        parsed_items(t, array_at(data, list_key(t)), ""@, project)
    }
}

proof fn lemma_resources_view_push(s: Seq<CloudResource>, r: CloudResource)
    ensures
        resources_view(s.push(r)) == resources_view(s).push(r@),
{
    assert(resources_view(s.push(r)) =~= resources_view(s).push(r@));
}

/// Appends the resources that the items stand for.
fn append_items(
    t: ResourceType,
    out: &mut Vec<CloudResource>,
    items: &Vec<Json>,
    scope: &str,
    project: &str,
)
    ensures
        resources_view(final(out)@) == resources_view(old(out)@) + parsed_items(
            t,
            jv_seq(items@),
            scope@,
            project@,
        ),
{
    let ghost s = jv_seq(items@);
    let ghost start = resources_view(out@);
    let n = items.len();
    let mut i: usize = 0;
    assert(s.take(0) =~= Seq::<JsonV>::empty());
    assert(start + Seq::<ResourceV>::empty() =~= start);
    while i < n
        invariant
            n == items@.len(),
            s == jv_seq(items@),
            i <= n,
            resources_view(out@) == start + parsed_items(t, s.take(i as int), scope@, project@),
        decreases n - i,
    {
        assert(s.take(i + 1).drop_last() =~= s.take(i as int));
        assert(s.take(i + 1).last() == items@[i as int]@);
        let ghost before = out@;
        match parse_item(t, &items[i], scope, project) {
            Some(r) => {
                out.push(r);
                proof {
                    lemma_resources_view_push(before, r);
                    assert(start + parsed_items(t, s.take(i + 1), scope@, project@) =~= (start
                        + parsed_items(t, s.take(i as int), scope@, project@)).push(r@));
                }
            },
            None => {},
        }
        i = i + 1;
    }
    assert(s.take(n as int) =~= s);
}

/// The resources that a listing response of `t` holds, in listing order (scope by scope
/// for an aggregated listing). NAT gateways, datasets, App Engine versions and secrets
/// need further reads and have functions of their own.
pub fn collect_resources(t: ResourceType, data: &Json, project: &str) -> (r: Vec<CloudResource>)
    requires
        reads_items_directly(t),
    ensures
        resources_view(r@) == listed_resources(t, data@, project@),
{
    let mut out: Vec<CloudResource> = Vec::new();
    assert(resources_view(out@) =~= Seq::<ResourceV>::empty());
    let aggregated = match t {
        ResourceType::VirtualMachine | ResourceType::Disk | ResourceType::ElasticIp
        | ResourceType::LoadBalancer | ResourceType::VpnTunnel | ResourceType::NatGateway => true,
        _ => false,
    };
    let key = list_key_of(t);
    if !aggregated {
        match data.get_array(key) {
            Some(items) => {
                append_items(t, &mut out, items, "", project);
                proof {
                    reveal_strlit("");
                }
                assert(resources_view(out@) =~= parsed_items(t, jv_seq(items@), ""@, project@));
            },
            None => {
                assert(parsed_items(t, Seq::empty(), ""@, project@) =~= Seq::<ResourceV>::empty());
            },
        }
        return out;
    }
    let scopes = match data.get_object("items") {
        Some(e) => e,
        None => return out,
    };
    let ghost e = jv_entries(scopes@);
    let n = scopes.len();
    let mut i: usize = 0;
    assert(e.take(0) =~= Seq::<(Seq<char>, JsonV)>::empty());
    while i < n
        invariant
            n == scopes@.len(),
            e == jv_entries(scopes@),
            i <= n,
            key@ == list_key(t),
            resources_view(out@) == scoped_items(t, e.take(i as int), project@),
        decreases n - i,
    {
        assert(e.take(i + 1).drop_last() =~= e.take(i as int));
        assert(e.take(i + 1).last() == e[i as int]);
        let (k, val) = &scopes[i];
        let scope = scope_of(t, k.as_str());
        match val.get_array(key) {
            Some(items) => {
                append_items(t, &mut out, items, scope.as_str(), project);
            },
            None => {
                assert(scoped_items(t, e.take(i + 1), project@) =~= scoped_items(
                    t,
                    e.take(i as int),
                    project@,
                ));
            },
        }
        i = i + 1;
    }
    assert(e.take(n as int) =~= e);
    out
}

/// The NAT gateways of one router, identified under the router's name (`unknown` without
/// one).
pub open spec fn router_gateways(router: JsonV, region: Seq<char>, project: Seq<char>) -> Seq<
    ResourceV,
> {
    match jarr(jget(router, "nats"@)) {
        Some(nats) => nat_items(nats, str_or(router, "name"@, "unknown"@), region, project),
        None => Seq::empty(),
    }
}

/// The NAT gateways a list of NAT configurations stands for.
pub open spec fn nat_items(nats: Seq<JsonV>, router: Seq<char>, region: Seq<char>, project: Seq<char>) -> Seq<
    ResourceV,
>
    decreases nats.len(),
{
    if nats.len() == 0 {
        Seq::empty()
    } else {
        let prev = nat_items(nats.drop_last(), router, region, project);
        match nat_gateway_resource(nats.last(), router, region, project) {
            Some(r) => prev.push(r),
            None => prev,
        }
    }
}

/// The NAT gateways of a list of routers, router after router.
pub open spec fn routers_gateways(routers: Seq<JsonV>, region: Seq<char>, project: Seq<char>) -> Seq<
    ResourceV,
>
    decreases routers.len(),
{
    if routers.len() == 0 {
        Seq::empty()
    } else {
        routers_gateways(routers.drop_last(), region, project) + router_gateways(
            routers.last(),
            region,
            project,
        )
    }
}

/// The NAT gateways of the scopes of an aggregated router listing.
pub open spec fn scoped_gateways(scopes: Seq<(Seq<char>, JsonV)>, project: Seq<char>) -> Seq<ResourceV>
    decreases scopes.len(),
{
    if scopes.len() == 0 {
        Seq::empty()
    } else {
        scoped_gateways(scopes.drop_last(), project) + routers_gateways(
            array_at(scopes.last().1, "routers"@),
            scope_name(ResourceType::NatGateway, scopes.last().0),
            project,
        )
    }
}

/// The NAT gateways an aggregated router listing holds.
pub open spec fn listed_gateways(data: JsonV, project: Seq<char>) -> Seq<ResourceV> {
    match jobj(jget(data, "items"@)) {
        Some(scopes) => scoped_gateways(scopes, project),
        None => Seq::empty(),
    }
}

/// Appends the NAT gateways of one router.
fn append_router(out: &mut Vec<CloudResource>, router: &Json, region: &str, project: &str)
    ensures
        resources_view(final(out)@) == resources_view(old(out)@) + router_gateways(
            router@,
            region@,
            project@,
        ),
{
    let nats = match router.get_array("nats") {
        Some(a) => a,
        None => {
            assert(resources_view(out@) + Seq::<ResourceV>::empty() =~= resources_view(out@));
            return;
        },
    };
    let name = str_at_or(router, "name", "unknown");
    let ghost s = jv_seq(nats@);
    let ghost start = resources_view(out@);
    let n = nats.len();
    let mut i: usize = 0;
    assert(s.take(0) =~= Seq::<JsonV>::empty());
    assert(start + Seq::<ResourceV>::empty() =~= start);
    while i < n
        invariant
            n == nats@.len(),
            s == jv_seq(nats@),
            i <= n,
            resources_view(out@) == start + nat_items(s.take(i as int), name@, region@, project@),
        decreases n - i,
    {
        assert(s.take(i + 1).drop_last() =~= s.take(i as int));
        assert(s.take(i + 1).last() == nats@[i as int]@);
        let ghost before = out@;
        match parse_nat_gateway(&nats[i], name.as_str(), region, project) {
            Some(r) => {
                out.push(r);
                proof {
                    lemma_resources_view_push(before, r);
                    assert(start + nat_items(s.take(i + 1), name@, region@, project@) =~= (start
                        + nat_items(s.take(i as int), name@, region@, project@)).push(r@));
                }
            },
            None => {},
        }
        i = i + 1;
    }
    assert(s.take(n as int) =~= s);
}

/// The NAT gateways that an aggregated router listing holds, scope by scope and router by
/// router.
pub fn collect_nat_gateways(data: &Json, project: &str) -> (r: Vec<CloudResource>)
    ensures
        resources_view(r@) == listed_gateways(data@, project@),
{
    let mut out: Vec<CloudResource> = Vec::new();
    assert(resources_view(out@) =~= Seq::<ResourceV>::empty());
    let scopes = match data.get_object("items") {
        Some(e) => e,
        None => return out,
    };
    let ghost e = jv_entries(scopes@);
    let n = scopes.len();
    let mut i: usize = 0;
    assert(e.take(0) =~= Seq::<(Seq<char>, JsonV)>::empty());
    while i < n
        invariant
            n == scopes@.len(),
            e == jv_entries(scopes@),
            i <= n,
            resources_view(out@) == scoped_gateways(e.take(i as int), project@),
        decreases n - i,
    {
        assert(e.take(i + 1).drop_last() =~= e.take(i as int));
        assert(e.take(i + 1).last() == e[i as int]);
        let (k, val) = &scopes[i];
        let region = scope_of(ResourceType::NatGateway, k.as_str());
        let ghost before = resources_view(out@);
        match val.get_array("routers") {
            Some(routers) => {
                let ghost rs = jv_seq(routers@);
                let m = routers.len();
                let mut j: usize = 0;
                assert(rs.take(0) =~= Seq::<JsonV>::empty());
                assert(before + Seq::<ResourceV>::empty() =~= before);
                while j < m
                    invariant
                        m == routers@.len(),
                        rs == jv_seq(routers@),
                        j <= m,
                        resources_view(out@) == before + routers_gateways(
                            rs.take(j as int),
                            region@,
                            project@,
                        ),
                    decreases m - j,
                {
                    assert(rs.take(j + 1).drop_last() =~= rs.take(j as int));
                    assert(rs.take(j + 1).last() == routers@[j as int]@);
                    append_router(&mut out, &routers[j], region.as_str(), project);
                    assert(before + routers_gateways(rs.take(j + 1), region@, project@) =~= (before
                        + routers_gateways(rs.take(j as int), region@, project@)) + router_gateways(
                        routers@[j as int]@,
                        region@,
                        project@,
                    ));
                    j = j + 1;
                }
                assert(rs.take(m as int) =~= rs);
            },
            None => {
                assert(routers_gateways(Seq::empty(), region@, project@) =~= Seq::<ResourceV>::empty());
                assert(before + Seq::<ResourceV>::empty() =~= before);
            },
        }
        i = i + 1;
    }
    assert(e.take(n as int) =~= e);
    out
}

/// The ids of the App Engine services of a listing, in order.
pub open spec fn service_ids(data: JsonV) -> Seq<Seq<char>> {
    fields_in(array_at(data, "services"@), "id"@)
}

/// The ids of the App Engine services of a listing.
pub fn appengine_service_ids(data: &Json) -> (r: Vec<String>)
    ensures
        strings_view(r@) == service_ids(data@),
{
    match data.get_array("services") {
        Some(a) => array_fields(a, "id"),
        None => {
            let r: Vec<String> = Vec::new();
            assert(strings_view(r@) =~= Seq::<Seq<char>>::empty());
            assert(fields_in(Seq::<JsonV>::empty(), "id"@) =~= Seq::<Seq<char>>::empty());
            r
        },
    }
}

/// The URL listing the versions of an App Engine service.
pub fn appengine_versions_url(project: &str, service: &str) -> (r: String)
    ensures
        r@ == "https://appengine.googleapis.com/v1/apps/"@ + project@ + "/services/"@ + service@
            + "/versions"@,
{
    let mut s = cat3("https://appengine.googleapis.com/v1/apps/", project, "/services/");
    s.append(service);
    s.append("/versions");
    s
}

/// What the status of a versions listing means: read it, skip a service that cannot be
/// read (403 or 404), or fail.
pub open spec fn versions_outcome_of(status: u16) -> ListOutcome {
    if is_success(status) {
        ListOutcome::Read
    } else if status == 403 || status == 404 {
        ListOutcome::NothingToList
    } else {
        ListOutcome::Failed
    }
}

/// The meaning of the status of a versions listing.
pub fn versions_outcome(status: u16) -> (r: ListOutcome)
    ensures
        r == versions_outcome_of(status),
{
    if 200 <= status && status <= 299 {
        ListOutcome::Read
    } else if status == 403 || status == 404 {
        ListOutcome::NothingToList
    } else {
        ListOutcome::Failed
    }
}

/// The error of a failed versions listing.
pub fn versions_failure(service: &str, status: &str, body: &str) -> (r: String)
    ensures
        r@ == "Failed to list App Engine versions for service "@ + service@ + ": "@ + status@
            + " "@ + body@,
{
    let mut s = cat3("Failed to list App Engine versions for service ", service, ": ");
    s.append(status);
    s.append(" ");
    s.append(body);
    s
}

/// The App Engine versions of a versions listing of `service`.
pub open spec fn listed_versions(data: JsonV, service: Seq<char>, project: Seq<char>) -> Seq<ResourceV> {
    version_items(array_at(data, "versions"@), service, project)
}

/// The App Engine versions a list of version objects stands for.
pub open spec fn version_items(s: Seq<JsonV>, service: Seq<char>, project: Seq<char>) -> Seq<ResourceV>
    decreases s.len(),
{
    if s.len() == 0 {
        Seq::empty()
    } else {
        let prev = version_items(s.drop_last(), service, project);
        match version_resource(s.last(), service, project) {
            Some(r) => prev.push(r),
            None => prev,
        }
    }
}

/// The App Engine versions that a versions listing of a service holds, in order.
pub fn collect_versions(data: &Json, service: &str, project: &str) -> (r: Vec<CloudResource>)
    ensures
        resources_view(r@) == listed_versions(data@, service@, project@),
{
    let mut out: Vec<CloudResource> = Vec::new();
    assert(resources_view(out@) =~= Seq::<ResourceV>::empty());
    let items = match data.get_array("versions") {
        Some(a) => a,
        None => return out,
    };
    let ghost s = jv_seq(items@);
    let n = items.len();
    let mut i: usize = 0;
    assert(s.take(0) =~= Seq::<JsonV>::empty());
    while i < n
        invariant
            n == items@.len(),
            s == jv_seq(items@),
            i <= n,
            resources_view(out@) == version_items(s.take(i as int), service@, project@),
        decreases n - i,
    {
        assert(s.take(i + 1).drop_last() =~= s.take(i as int));
        assert(s.take(i + 1).last() == items@[i as int]@);
        let ghost before = out@;
        match parse_appengine_version(&items[i], service, project) {
            Some(r) => {
                out.push(r);
                proof {
                    lemma_resources_view_push(before, r);
                }
            },
            None => {},
        }
        i = i + 1;
    }
    assert(s.take(n as int) =~= s);
    out
}

/// The replies to the versions listings of the App Engine services, as plain values:
/// service id, HTTP status, and the decoded body (`null` where it was not read).
pub open spec fn replies_view(s: Seq<(String, u16, Json)>) -> Seq<(Seq<char>, u16, JsonV)> {
    Seq::new(s.len(), |i: int| (s[i].0@, s[i].1, s[i].2@))
}

/// The App Engine versions found over the services' replies, in order: the versions of
/// each service whose listing was read, one after another; a service whose listing was
/// refused (403 or 404) adds nothing.
pub open spec fn service_versions(replies: Seq<(Seq<char>, u16, JsonV)>, project: Seq<char>) -> Seq<
    ResourceV,
>
    decreases replies.len(),
{
    if replies.len() == 0 {
        Seq::empty()
    } else {
        let last = replies.last();
        service_versions(replies.drop_last(), project) + if versions_outcome_of(last.1)
            == ListOutcome::Read {
            listed_versions(last.2, last.0, project)
        } else {
            Seq::empty()
        }
    }
}

proof fn lemma_resources_view_append(a: Seq<CloudResource>, b: Seq<CloudResource>)
    ensures
        resources_view(a + b) == resources_view(a) + resources_view(b),
{
    assert(resources_view(a + b) =~= resources_view(a) + resources_view(b));
}

/// The App Engine versions of a project from the replies to its services' versions
/// listings, and the progress report that completes the scan with their number.
pub fn appengine_versions_found(replies: &Vec<(String, u16, Json)>, project: &str) -> (r: (
    Vec<CloudResource>,
    ScanProgress,
))
    ensures
        resources_view(r.0@) == service_versions(replies_view(replies@), project@),
        progress_of(
            r.1,
            project@,
            ResourceType::AppEngineVersion,
            r.0@.len() as usize,
            ScanStepStatus::Completed,
        ),
{
    let ghost rv = replies_view(replies@);
    let mut out: Vec<CloudResource> = Vec::new();
    assert(resources_view(out@) =~= Seq::<ResourceV>::empty());
    assert(rv.take(0) =~= Seq::<(Seq<char>, u16, JsonV)>::empty());
    let n = replies.len();
    let mut i: usize = 0;
    while i < n
        invariant
            n == replies@.len(),
            rv == replies_view(replies@),
            i <= n,
            resources_view(out@) == service_versions(rv.take(i as int), project@),
        decreases n - i,
    {
        assert(rv.take(i + 1).drop_last() =~= rv.take(i as int));
        assert(rv.take(i + 1).last() == rv[i as int]);
        let reply = &replies[i];
        let ghost before = out@;
        match versions_outcome(reply.1) {
            ListOutcome::Read => {
                let mut more = collect_versions(&reply.2, reply.0.as_str(), project);
                let ghost added = more@;
                out.append(&mut more);
                proof {
                    lemma_resources_view_append(before, added);
                }
            },
            _ => {
                assert(resources_view(out@) =~= resources_view(before) + Seq::<ResourceV>::empty());
            },
        }
        i = i + 1;
    }
    assert(rv.take(n as int) =~= rv);
    let found = out.len();
    let p = progress(project, ResourceType::AppEngineVersion, found, ScanStepStatus::Completed);
    (out, p)
}

/// The dataset ids of a dataset listing (`datasetReference.datasetId`), in order,
/// skipping entries without one.
pub open spec fn dataset_ids_in(s: Seq<JsonV>) -> Seq<Seq<char>>
    decreases s.len(),
{
    if s.len() == 0 {
        Seq::empty()
    } else {
        let prev = dataset_ids_in(s.drop_last());
        match jstr(jget(jget(s.last(), "datasetReference"@), "datasetId"@)) {
            Some(id) => prev.push(id),
            None => prev,
        }
    }
}

/// The dataset ids of a dataset listing.
pub fn dataset_ids(data: &Json) -> (r: Vec<String>)
    ensures
        strings_view(r@) == dataset_ids_in(array_at(data@, "datasets"@)),
{
    let mut out: Vec<String> = Vec::new();
    assert(strings_view(out@) =~= Seq::<Seq<char>>::empty());
    let items = match data.get_array("datasets") {
        Some(a) => a,
        None => return out,
    };
    let ghost s = jv_seq(items@);
    let n = items.len();
    let mut i: usize = 0;
    assert(s.take(0) =~= Seq::<JsonV>::empty());
    while i < n
        invariant
            n == items@.len(),
            s == jv_seq(items@),
            i <= n,
            strings_view(out@) == dataset_ids_in(s.take(i as int)),
        decreases n - i,
    {
        assert(s.take(i + 1).drop_last() =~= s.take(i as int));
        assert(s.take(i + 1).last() == items@[i as int]@);
        let ghost before = out@;
        let id = match items[i].get("datasetReference") {
            Some(r) => r.get_str("datasetId"),
            None => None,
        };
        match id {
            Some(x) => {
                out.push(x.clone());
                assert(strings_view(out@) =~= strings_view(before).push(x@));
            },
            None => {},
        }
        i = i + 1;
    }
    assert(s.take(n as int) =~= s);
    out
}

/// The URL of a dataset's details.
pub fn dataset_url(project: &str, dataset: &str) -> (r: String)
    ensures
        r@ == "https://bigquery.googleapis.com/bigquery/v2/projects/"@ + project@ + "/datasets/"@
            + dataset@,
{
    let mut s = cat3("https://bigquery.googleapis.com/bigquery/v2/projects/", project, "/datasets/");
    s.append(dataset);
    s
}

/// The URL listing (up to 100 of) a dataset's tables.
pub fn dataset_tables_url(project: &str, dataset: &str) -> (r: String)
    ensures
        r@ == "https://bigquery.googleapis.com/bigquery/v2/projects/"@ + project@ + "/datasets/"@
            + dataset@ + "/tables?maxResults=100"@,
{
    let mut s = dataset_url(project, dataset);
    s.append("/tables?maxResults=100");
    s
}

/// The URL listing the versions of a secret, by its full name.
pub fn secret_versions_url(full_name: &str) -> (r: String)
    ensures
        r@ == "https://secretmanager.googleapis.com/v1/"@ + full_name@ + "/versions"@,
{
    cat3("https://secretmanager.googleapis.com/v1/", full_name, "/versions")
}

/// The resource types the GCP provider scans.
pub open spec fn gcp_supported_types() -> Seq<ResourceType> {
    seq![
        ResourceType::VirtualMachine,
        ResourceType::Disk,
        ResourceType::Snapshot,
        ResourceType::ElasticIp,
        ResourceType::SecurityGroup,
        ResourceType::LoadBalancer,
        ResourceType::MachineImage,
    ]
}

/// The resource types the GCP provider scans, in scan order.
pub fn supported_resource_types() -> (r: Vec<ResourceType>)
    ensures
        r@ == gcp_supported_types(),
{
    let r = vec![
        ResourceType::VirtualMachine,
        ResourceType::Disk,
        ResourceType::Snapshot,
        ResourceType::ElasticIp,
        ResourceType::SecurityGroup,
        ResourceType::LoadBalancer,
        ResourceType::MachineImage,
    ];
    assert(r@ =~= gcp_supported_types());
    r
}

/// A scan of a type the provider does not scan yet finds nothing.
pub open spec fn provider_scans(t: ResourceType) -> bool {
    gcp_supported_types().contains(t)
}

/// Whether the provider scans a type.
pub fn scans_type(t: ResourceType) -> (r: bool)
    ensures
        r == provider_scans(t),
{
    let types = supported_resource_types();
    let mut i: usize = 0;
    while i < types.len()
        invariant
            types@ == gcp_supported_types(),
            i <= types@.len(),
            forall|j: int| 0 <= j < i ==> types@[j] != t,
        decreases types@.len() - i,
    {
        if types[i] == t {
            assert(types@[i as int] == t);
            return true;
        }
        i = i + 1;
    }
    assert(!gcp_supported_types().contains(t));
    false
}

/// The resource an item stands for has the listing's type, is a GCP resource and
/// belongs to the scanned project.
pub open spec fn belongs(r: ResourceV, t: ResourceType, project: Seq<char>) -> bool {
    r.resource_type == t && r.provider == ProviderKind::Gcp && r.account_id == project
}

proof fn lemma_item_belongs(t: ResourceType, v: JsonV, scope: Seq<char>, project: Seq<char>)
    ensures
        item_resource(t, v, scope, project) matches Some(r) ==> belongs(r, t, project),
{
}

proof fn lemma_parsed_items_belong(t: ResourceType, items: Seq<JsonV>, scope: Seq<char>, project: Seq<char>)
    ensures
        forall|i: int|
            0 <= i < parsed_items(t, items, scope, project).len() ==> belongs(
                #[trigger] parsed_items(t, items, scope, project)[i],
                t,
                project,
            ),
    decreases items.len(),
{
    if items.len() > 0 {
        let prev = parsed_items(t, items.drop_last(), scope, project);
        lemma_parsed_items_belong(t, items.drop_last(), scope, project);
        lemma_item_belongs(t, items.last(), scope, project);
        assert forall|i: int| 0 <= i < parsed_items(t, items, scope, project).len() implies belongs(
            #[trigger] parsed_items(t, items, scope, project)[i],
            t,
            project,
        ) by {
            if i < prev.len() {
                assert(parsed_items(t, items, scope, project)[i] == prev[i]);
            }
        }
    }
}

proof fn lemma_scoped_items_belong(t: ResourceType, scopes: Seq<(Seq<char>, JsonV)>, project: Seq<char>)
    ensures
        forall|i: int|
            0 <= i < scoped_items(t, scopes, project).len() ==> belongs(
                #[trigger] scoped_items(t, scopes, project)[i],
                t,
                project,
            ),
    decreases scopes.len(),
{
    if scopes.len() > 0 {
        let prev = scoped_items(t, scopes.drop_last(), project);
        let items = array_at(scopes.last().1, list_key(t));
        let scope = scope_name(t, scopes.last().0);
        let more = parsed_items(t, items, scope, project);
        lemma_scoped_items_belong(t, scopes.drop_last(), project);
        lemma_parsed_items_belong(t, items, scope, project);
        assert forall|i: int| 0 <= i < scoped_items(t, scopes, project).len() implies belongs(
            #[trigger] scoped_items(t, scopes, project)[i],
            t,
            project,
        ) by {
            assert(scoped_items(t, scopes, project) == prev + more);
            if i >= prev.len() {
                assert((prev + more)[i] == more[i - prev.len()]);
            }
        }
    }
}

/// A listing of type `t` yields only GCP resources of type `t` that belong to the
/// scanned project.
pub proof fn law_listing_yields_its_type(t: ResourceType, data: JsonV, project: Seq<char>)
    ensures
        forall|i: int|
            0 <= i < listed_resources(t, data, project).len() ==> belongs(
                #[trigger] listed_resources(t, data, project)[i],
                t,
                project,
            ),
{
    if is_aggregated(t) {
        match jobj(jget(data, "items"@)) {
            Some(scopes) => lemma_scoped_items_belong(t, scopes, project),
            None => {},
        }
    } else {
        lemma_parsed_items_belong(t, array_at(data, list_key(t)), ""@, project);
    }
}

proof fn lemma_nat_items_belong(nats: Seq<JsonV>, router: Seq<char>, region: Seq<char>, project: Seq<char>)
    ensures
        forall|i: int|
            0 <= i < nat_items(nats, router, region, project).len() ==> belongs(
                #[trigger] nat_items(nats, router, region, project)[i],
                ResourceType::NatGateway,
                project,
            ),
    decreases nats.len(),
{
    if nats.len() > 0 {
        let prev = nat_items(nats.drop_last(), router, region, project);
        lemma_nat_items_belong(nats.drop_last(), router, region, project);
        assert forall|i: int| 0 <= i < nat_items(nats, router, region, project).len() implies belongs(
            #[trigger] nat_items(nats, router, region, project)[i],
            ResourceType::NatGateway,
            project,
        ) by {
            if i < prev.len() {
                assert(nat_items(nats, router, region, project)[i] == prev[i]);
            }
        }
    }
}

proof fn lemma_routers_belong(routers: Seq<JsonV>, region: Seq<char>, project: Seq<char>)
    ensures
        forall|i: int|
            0 <= i < routers_gateways(routers, region, project).len() ==> belongs(
                #[trigger] routers_gateways(routers, region, project)[i],
                ResourceType::NatGateway,
                project,
            ),
    decreases routers.len(),
{
    if routers.len() > 0 {
        let prev = routers_gateways(routers.drop_last(), region, project);
        let more = router_gateways(routers.last(), region, project);
        lemma_routers_belong(routers.drop_last(), region, project);
        match jarr(jget(routers.last(), "nats"@)) {
            Some(nats) => lemma_nat_items_belong(
                nats,
                str_or(routers.last(), "name"@, "unknown"@),
                region,
                project,
            ),
            None => {},
        }
        assert forall|i: int| 0 <= i < routers_gateways(routers, region, project).len() implies belongs(
            #[trigger] routers_gateways(routers, region, project)[i],
            ResourceType::NatGateway,
            project,
        ) by {
            assert(routers_gateways(routers, region, project) == prev + more);
            if i >= prev.len() {
                assert((prev + more)[i] == more[i - prev.len()]);
            }
        }
    }
}

proof fn lemma_scoped_gateways_belong(scopes: Seq<(Seq<char>, JsonV)>, project: Seq<char>)
    ensures
        forall|i: int|
            0 <= i < scoped_gateways(scopes, project).len() ==> belongs(
                #[trigger] scoped_gateways(scopes, project)[i],
                ResourceType::NatGateway,
                project,
            ),
    decreases scopes.len(),
{
    if scopes.len() > 0 {
        let prev = scoped_gateways(scopes.drop_last(), project);
        let routers = array_at(scopes.last().1, "routers"@);
        let region = scope_name(ResourceType::NatGateway, scopes.last().0);
        let more = routers_gateways(routers, region, project);
        lemma_scoped_gateways_belong(scopes.drop_last(), project);
        lemma_routers_belong(routers, region, project);
        assert forall|i: int| 0 <= i < scoped_gateways(scopes, project).len() implies belongs(
            #[trigger] scoped_gateways(scopes, project)[i],
            ResourceType::NatGateway,
            project,
        ) by {
            assert(scoped_gateways(scopes, project) == prev + more);
            if i >= prev.len() {
                assert((prev + more)[i] == more[i - prev.len()]);
            }
        }
    }
}

/// A router listing yields only GCP NAT gateways that belong to the scanned project.
pub proof fn law_router_listing_yields_gateways(data: JsonV, project: Seq<char>)
    ensures
        forall|i: int|
            0 <= i < listed_gateways(data, project).len() ==> belongs(
                #[trigger] listed_gateways(data, project)[i],
                ResourceType::NatGateway,
                project,
            ),
{
    match jobj(jget(data, "items"@)) {
        Some(scopes) => lemma_scoped_gateways_belong(scopes, project),
        None => {},
    }
}

/// The APIs that a project may have disabled are those of GKE, Cloud SQL, Cloud Run,
/// Cloud Functions, Spanner, Memorystore, Dataproc, Artifact Registry, Cloud Logging,
/// Pub/Sub, Cloud VPN and NAT, App Engine, BigQuery and Secret Manager: a 403 or 404 to
/// their listings means there is nothing to list, and the step succeeds empty. Compute
/// Engine and Cloud Storage listings are always expected to work, so there a 403 or 404
/// is a failure. A 2xx reply is read for every type, and any other reply is a failure.
pub proof fn law_missing_optional_api_lists_nothing(t: ResourceType, status: u16)
    ensures
        200 <= status <= 299 ==> list_outcome_of(t, status) == ListOutcome::Read,
        (status == 403 || status == 404) ==> (list_outcome_of(t, status)
            == ListOutcome::NothingToList <==> (t == ResourceType::GkeCluster || t
            == ResourceType::CloudSqlInstance || t == ResourceType::CloudRunService || t
            == ResourceType::ServerlessFunction || t == ResourceType::SpannerInstance || t
            == ResourceType::MemorystoreInstance || t == ResourceType::DataprocCluster || t
            == ResourceType::ArtifactRegistryRepo || t == ResourceType::LogSink || t
            == ResourceType::PubSubTopic || t == ResourceType::PubSubSubscription || t
            == ResourceType::VpnTunnel || t == ResourceType::NatGateway || t
            == ResourceType::AppEngineVersion || t == ResourceType::BigQueryDataset || t
            == ResourceType::SecretManagerSecret)),
        (status == 403 || status == 404) && list_outcome_of(t, status)
            != ListOutcome::NothingToList ==> list_outcome_of(t, status) == ListOutcome::Failed,
        !(200 <= status <= 299) && status != 403 && status != 404 ==> list_outcome_of(t, status)
            == ListOutcome::Failed,
{
}


/// The resources of the scopes of an aggregated listing whose items sit under `key` in
/// each scope, scope after scope, each found in the zone or region its scope names.
pub open spec fn scoped_items_by_key(
    t: ResourceType,
    scopes: Seq<(Seq<char>, JsonV)>,
    key: Seq<char>,
    project: Seq<char>,
) -> Seq<ResourceV>
    decreases scopes.len(),
{
    if scopes.len() == 0 {
        Seq::empty()
    } else {
        scoped_items_by_key(t, scopes.drop_last(), key, project) + parsed_items(
            t,
            array_at(scopes.last().1, key),
            scope_name(t, scopes.last().0),
            project,
        )
    }
}

proof fn lemma_scoped_by_key(t: ResourceType, scopes: Seq<(Seq<char>, JsonV)>, project: Seq<char>)
    ensures
        scoped_items(t, scopes, project) == scoped_items_by_key(t, scopes, list_key(t), project),
    decreases scopes.len(),
{
    if scopes.len() > 0 {
        lemma_scoped_by_key(t, scopes.drop_last(), project);
    }
}

/// Each listing is read from the array the API returns its items in: `instances`,
/// `disks`, `addresses`, `forwardingRules` and `vpnTunnels` in every scope of the
/// aggregated Compute Engine listings; `items` for snapshots, firewalls, images,
/// networks, buckets and Cloud SQL; and the collection's own name (`functions`,
/// `services`, `repositories`, `clusters`, `sinks`, `instances`, `topics`,
/// `subscriptions`) for the other APIs. Items are read in order, each found in its
/// scope's zone or region, and unreadable ones skipped.
pub proof fn law_listing_reads_its_items(t: ResourceType, data: JsonV, project: Seq<char>)
    ensures
        t == ResourceType::VirtualMachine ==> listed_resources(t, data, project) == match jobj(jget(data, "items"@)) {
            Some(scopes) => scoped_items_by_key(t, scopes, "instances"@, project),
            None => Seq::empty(),
        },
        t == ResourceType::Disk ==> listed_resources(t, data, project) == match jobj(jget(data, "items"@)) {
            Some(scopes) => scoped_items_by_key(t, scopes, "disks"@, project),
            None => Seq::empty(),
        },
        t == ResourceType::ElasticIp ==> listed_resources(t, data, project) == match jobj(jget(data, "items"@)) {
            Some(scopes) => scoped_items_by_key(t, scopes, "addresses"@, project),
            None => Seq::empty(),
        },
        t == ResourceType::LoadBalancer ==> listed_resources(t, data, project) == match jobj(jget(data, "items"@)) {
            Some(scopes) => scoped_items_by_key(t, scopes, "forwardingRules"@, project),
            None => Seq::empty(),
        },
        t == ResourceType::VpnTunnel ==> listed_resources(t, data, project) == match jobj(jget(data, "items"@)) {
            Some(scopes) => scoped_items_by_key(t, scopes, "vpnTunnels"@, project),
            None => Seq::empty(),
        },
        t == ResourceType::Snapshot ==> listed_resources(t, data, project) == parsed_items(
            t,
            array_at(data, "items"@),
            ""@,
            project,
        ),
        t == ResourceType::SecurityGroup ==> listed_resources(t, data, project) == parsed_items(
            t,
            array_at(data, "items"@),
            ""@,
            project,
        ),
        t == ResourceType::MachineImage ==> listed_resources(t, data, project) == parsed_items(
            t,
            array_at(data, "items"@),
            ""@,
            project,
        ),
        t == ResourceType::Network ==> listed_resources(t, data, project) == parsed_items(
            t,
            array_at(data, "items"@),
            ""@,
            project,
        ),
        t == ResourceType::StorageBucket ==> listed_resources(t, data, project) == parsed_items(
            t,
            array_at(data, "items"@),
            ""@,
            project,
        ),
        t == ResourceType::CloudSqlInstance ==> listed_resources(t, data, project) == parsed_items(
            t,
            array_at(data, "items"@),
            ""@,
            project,
        ),
        t == ResourceType::ServerlessFunction ==> listed_resources(t, data, project) == parsed_items(
            t,
            array_at(data, "functions"@),
            ""@,
            project,
        ),
        t == ResourceType::CloudRunService ==> listed_resources(t, data, project) == parsed_items(
            t,
            array_at(data, "services"@),
            ""@,
            project,
        ),
        t == ResourceType::ArtifactRegistryRepo ==> listed_resources(t, data, project) == parsed_items(
            t,
            array_at(data, "repositories"@),
            ""@,
            project,
        ),
        t == ResourceType::DataprocCluster ==> listed_resources(t, data, project) == parsed_items(
            t,
            array_at(data, "clusters"@),
            ""@,
            project,
        ),
        t == ResourceType::LogSink ==> listed_resources(t, data, project) == parsed_items(
            t,
            array_at(data, "sinks"@),
            ""@,
            project,
        ),
        t == ResourceType::GkeCluster ==> listed_resources(t, data, project) == parsed_items(
            t,
            array_at(data, "clusters"@),
            ""@,
            project,
        ),
        t == ResourceType::MemorystoreInstance ==> listed_resources(t, data, project) == parsed_items(
            t,
            array_at(data, "instances"@),
            ""@,
            project,
        ),
        t == ResourceType::PubSubTopic ==> listed_resources(t, data, project) == parsed_items(
            t,
            array_at(data, "topics"@),
            ""@,
            project,
        ),
        t == ResourceType::PubSubSubscription ==> listed_resources(t, data, project) == parsed_items(
            t,
            array_at(data, "subscriptions"@),
            ""@,
            project,
        ),
        t == ResourceType::SpannerInstance ==> listed_resources(t, data, project) == parsed_items(
            t,
            array_at(data, "instances"@),
            ""@,
            project,
        ),
{
    if is_aggregated(t) {
        if let Some(scopes) = jobj(jget(data, "items"@)) {
            lemma_scoped_by_key(t, scopes, project);
        }
    }
}


/// Where each resource type is listed: Compute Engine's aggregated lists for
/// instances, disks, addresses, forwarding rules, routers and VPN tunnels and its global
/// lists for snapshots, firewalls, images and networks; Cloud Storage, Cloud SQL and each
/// other API's own collection of the project (all locations where the API has them).
pub proof fn law_listing_urls(project: Seq<char>)
    ensures
        list_url_of(ResourceType::VirtualMachine, project) == "https://compute.googleapis.com/compute/v1/projects/"@ + project + "/aggregated/instances"@,
        list_url_of(ResourceType::Disk, project) == "https://compute.googleapis.com/compute/v1/projects/"@ + project + "/aggregated/disks"@,
        list_url_of(ResourceType::Snapshot, project) == "https://compute.googleapis.com/compute/v1/projects/"@ + project + "/global/snapshots"@,
        list_url_of(ResourceType::LoadBalancer, project) == "https://compute.googleapis.com/compute/v1/projects/"@ + project + "/aggregated/forwardingRules"@,
        list_url_of(ResourceType::ElasticIp, project) == "https://compute.googleapis.com/compute/v1/projects/"@ + project + "/aggregated/addresses"@,
        list_url_of(ResourceType::SecurityGroup, project) == "https://compute.googleapis.com/compute/v1/projects/"@ + project + "/global/firewalls"@,
        list_url_of(ResourceType::ServerlessFunction, project) == "https://cloudfunctions.googleapis.com/v2/projects/"@ + project + "/locations/-/functions"@,
        list_url_of(ResourceType::StorageBucket, project) == "https://storage.googleapis.com/storage/v1/b?project="@ + project + ""@,
        list_url_of(ResourceType::MachineImage, project) == "https://compute.googleapis.com/compute/v1/projects/"@ + project + "/global/images"@,
        list_url_of(ResourceType::CloudSqlInstance, project) == "https://sqladmin.googleapis.com/v1/projects/"@ + project + "/instances"@,
        list_url_of(ResourceType::CloudRunService, project) == "https://run.googleapis.com/v2/projects/"@ + project + "/locations/-/services"@,
        list_url_of(ResourceType::Network, project) == "https://compute.googleapis.com/compute/v1/projects/"@ + project + "/global/networks"@,
        list_url_of(ResourceType::NatGateway, project) == "https://compute.googleapis.com/compute/v1/projects/"@ + project + "/aggregated/routers"@,
        list_url_of(ResourceType::VpnTunnel, project) == "https://compute.googleapis.com/compute/v1/projects/"@ + project + "/aggregated/vpnTunnels"@,
        list_url_of(ResourceType::ArtifactRegistryRepo, project) == "https://artifactregistry.googleapis.com/v1/projects/"@ + project + "/locations/-/repositories"@,
        list_url_of(ResourceType::DataprocCluster, project) == "https://dataproc.googleapis.com/v1/projects/"@ + project + "/regions/-/clusters"@,
        list_url_of(ResourceType::SecretManagerSecret, project) == "https://secretmanager.googleapis.com/v1/projects/"@ + project + "/secrets"@,
        list_url_of(ResourceType::LogSink, project) == "https://logging.googleapis.com/v2/projects/"@ + project + "/sinks"@,
        list_url_of(ResourceType::GkeCluster, project) == "https://container.googleapis.com/v1/projects/"@ + project + "/locations/-/clusters"@,
        list_url_of(ResourceType::BigQueryDataset, project) == "https://bigquery.googleapis.com/bigquery/v2/projects/"@ + project + "/datasets"@,
        list_url_of(ResourceType::MemorystoreInstance, project) == "https://redis.googleapis.com/v1/projects/"@ + project + "/locations/-/instances"@,
        list_url_of(ResourceType::AppEngineVersion, project) == "https://appengine.googleapis.com/v1/apps/"@ + project + "/services"@,
        list_url_of(ResourceType::PubSubTopic, project) == "https://pubsub.googleapis.com/v1/projects/"@ + project + "/topics"@,
        list_url_of(ResourceType::PubSubSubscription, project) == "https://pubsub.googleapis.com/v1/projects/"@ + project + "/subscriptions"@,
        list_url_of(ResourceType::SpannerInstance, project) == "https://spanner.googleapis.com/v1/projects/"@ + project + "/instances"@,
{
}


/// A service's versions listing is read on a 2xx reply, skipped on 403 or 404 (a
/// service the project cannot see), and fails on any other reply.
pub proof fn law_versions_outcome(status: u16)
    ensures
        versions_outcome_of(status) == ListOutcome::Read <==> 200 <= status <= 299,
        versions_outcome_of(status) == ListOutcome::NothingToList <==> status == 403 || status
            == 404,
        versions_outcome_of(status) == ListOutcome::Failed <==> !(200 <= status <= 299)
            && status != 403 && status != 404,
{
}


/// The dataset ids of a listing are those of its entries, in order, skipping entries
/// without a `datasetReference.datasetId`: the ids of two runs of entries are the two
/// lists of ids one after the other.
pub proof fn law_dataset_ids_in_order(a: Seq<JsonV>, b: Seq<JsonV>)
    ensures
        dataset_ids_in(a + b) == dataset_ids_in(a) + dataset_ids_in(b),
        forall|v: JsonV| #[trigger] dataset_ids_in(seq![v]) == match jstr(
            jget(jget(v, "datasetReference"@), "datasetId"@),
        ) {
            Some(id) => seq![id],
            None => Seq::empty(),
        },
    decreases b.len(),
{
    if b.len() == 0 {
        assert(a + b =~= a);
        assert(dataset_ids_in(a) + dataset_ids_in(b) =~= dataset_ids_in(a));
    } else {
        law_dataset_ids_in_order(a, b.drop_last());
        assert((a + b).drop_last() =~= a + b.drop_last());
        assert((a + b).last() == b.last());
        match jstr(jget(jget(b.last(), "datasetReference"@), "datasetId"@)) {
            Some(id) => {
                assert(dataset_ids_in(a) + dataset_ids_in(b.drop_last()).push(id) =~= (
                dataset_ids_in(a) + dataset_ids_in(b.drop_last())).push(id));
            },
            None => {},
        }
    }
    assert forall|v: JsonV| #[trigger] dataset_ids_in(seq![v]) == match jstr(
        jget(jget(v, "datasetReference"@), "datasetId"@),
    ) {
        Some(id) => seq![id],
        None => Seq::empty(),
    } by {
        let s = seq![v];
        let e = Seq::<JsonV>::empty();
        assert(s.len() == 1);
        assert(s.drop_last() =~= e);
        assert(s.last() == v);
        assert(dataset_ids_in(e) == Seq::<Seq<char>>::empty());
        if let Some(id) = jstr(jget(jget(v, "datasetReference"@), "datasetId"@)) {
            assert(Seq::<Seq<char>>::empty().push(id) =~= seq![id]);
        }
    }
}

} // verus!
