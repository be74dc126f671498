//! The cloud resource model shared by scanning, storage, analysis and export.

use vstd::prelude::*;
use crate::json::{Json, JsonV};
use crate::text::str_eq;

verus! {

/// A cloud provider.
#[derive(Clone, Copy, Debug, PartialEq, Eq, Hash, Structural)]
pub enum ProviderKind {
    Gcp,
    Aws,
    Azure,
}

/// The lowercase name a provider is stored and exported under.
pub open spec fn provider_name(p: ProviderKind) -> Seq<char> {
    match p {
        ProviderKind::Gcp => "gcp"@,
        ProviderKind::Aws => "aws"@,
        ProviderKind::Azure => "azure"@,
    }
}

/// The variant name of a provider, as it appears in diagnostics.
pub open spec fn provider_variant_name(p: ProviderKind) -> Seq<char> {
    match p {
        ProviderKind::Gcp => "Gcp"@,
        ProviderKind::Aws => "Aws"@,
        ProviderKind::Azure => "Azure"@,
    }
}

/// The provider a stored name reads back as; unknown names read as GCP.
pub open spec fn provider_from_name(s: Seq<char>) -> ProviderKind {
    if s == "gcp"@ {
        ProviderKind::Gcp
    } else if s == "aws"@ {
        ProviderKind::Aws
    } else if s == "azure"@ {
        ProviderKind::Azure
    } else {
        ProviderKind::Gcp
    }
}

impl ProviderKind {
    /// The lowercase name (`gcp`, `aws`, `azure`).
    pub fn as_str(&self) -> (r: &'static str)
        ensures
            r@ == provider_name(*self),
    {
        match self {
            ProviderKind::Gcp => "gcp",
            ProviderKind::Aws => "aws",
            ProviderKind::Azure => "azure",
        }
    }

    /// The lowercase name as an owned string.
    pub fn to_string(&self) -> (r: String)
        ensures
            r@ == provider_name(*self),
    {
        String::from_str(self.as_str())
    }

    /// The variant name (`Gcp`, `Aws`, `Azure`).
    pub fn variant_name(&self) -> (r: &'static str)
        ensures
            r@ == provider_variant_name(*self),
    {
        match self {
            ProviderKind::Gcp => "Gcp",
            ProviderKind::Aws => "Aws",
            ProviderKind::Azure => "Azure",
        }
    }

    /// Reads a stored provider name back; unknown names read as GCP.
    pub fn from_name(s: &str) -> (r: ProviderKind)
        ensures
            r == provider_from_name(s@),
    {
        if str_eq(s, "gcp") {
            ProviderKind::Gcp
        } else if str_eq(s, "aws") {
            ProviderKind::Aws
        } else if str_eq(s, "azure") {
            ProviderKind::Azure
        } else {
            ProviderKind::Gcp
        }
    }
}

/// A kind of cloud resource.
#[derive(Clone, Copy, Debug, PartialEq, Eq, Hash, Structural)]
pub enum ResourceType {
    VirtualMachine,
    Disk,
    Snapshot,
    LoadBalancer,
    ElasticIp,
    SecurityGroup,
    ServerlessFunction,
    StorageBucket,
    MachineImage,
    CloudSqlInstance,
    CloudRunService,
    Network,
    NatGateway,
    VpnTunnel,
    ArtifactRegistryRepo,
    DataprocCluster,
    SecretManagerSecret,
    LogSink,
    GkeCluster,
    BigQueryDataset,
    MemorystoreInstance,
    AppEngineVersion,
    PubSubTopic,
    PubSubSubscription,
    SpannerInstance,
}

/// The snake_case name a resource type is serialized under.
pub open spec fn resource_type_name(t: ResourceType) -> Seq<char> {
    match t {
        ResourceType::VirtualMachine => "virtual_machine"@,
        ResourceType::Disk => "disk"@,
        ResourceType::Snapshot => "snapshot"@,
        ResourceType::LoadBalancer => "load_balancer"@,
        ResourceType::ElasticIp => "elastic_ip"@,
        ResourceType::SecurityGroup => "security_group"@,
        ResourceType::ServerlessFunction => "serverless_function"@,
        ResourceType::StorageBucket => "storage_bucket"@,
        ResourceType::MachineImage => "machine_image"@,
        ResourceType::CloudSqlInstance => "cloud_sql_instance"@,
        ResourceType::CloudRunService => "cloud_run_service"@,
        ResourceType::Network => "network"@,
        ResourceType::NatGateway => "nat_gateway"@,
        ResourceType::VpnTunnel => "vpn_tunnel"@,
        ResourceType::ArtifactRegistryRepo => "artifact_registry_repo"@,
        ResourceType::DataprocCluster => "dataproc_cluster"@,
        ResourceType::SecretManagerSecret => "secret_manager_secret"@,
        ResourceType::LogSink => "log_sink"@,
        ResourceType::GkeCluster => "gke_cluster"@,
        ResourceType::BigQueryDataset => "big_query_dataset"@,
        ResourceType::MemorystoreInstance => "memorystore_instance"@,
        ResourceType::AppEngineVersion => "app_engine_version"@,
        ResourceType::PubSubTopic => "pub_sub_topic"@,
        ResourceType::PubSubSubscription => "pub_sub_subscription"@,
        ResourceType::SpannerInstance => "spanner_instance"@,
    }
}

/// The name of a resource type as written in Rust (`VirtualMachine`, ...), which scan
/// progress reports use.
pub open spec fn type_variant_name(t: ResourceType) -> Seq<char> {
    match t {
        ResourceType::VirtualMachine => "VirtualMachine"@,
        ResourceType::Disk => "Disk"@,
        ResourceType::Snapshot => "Snapshot"@,
        ResourceType::LoadBalancer => "LoadBalancer"@,
        ResourceType::ElasticIp => "ElasticIp"@,
        ResourceType::SecurityGroup => "SecurityGroup"@,
        ResourceType::ServerlessFunction => "ServerlessFunction"@,
        ResourceType::StorageBucket => "StorageBucket"@,
        ResourceType::MachineImage => "MachineImage"@,
        ResourceType::CloudSqlInstance => "CloudSqlInstance"@,
        ResourceType::CloudRunService => "CloudRunService"@,
        ResourceType::Network => "Network"@,
        ResourceType::NatGateway => "NatGateway"@,
        ResourceType::VpnTunnel => "VpnTunnel"@,
        ResourceType::ArtifactRegistryRepo => "ArtifactRegistryRepo"@,
        ResourceType::DataprocCluster => "DataprocCluster"@,
        ResourceType::SecretManagerSecret => "SecretManagerSecret"@,
        ResourceType::LogSink => "LogSink"@,
        ResourceType::GkeCluster => "GkeCluster"@,
        ResourceType::BigQueryDataset => "BigQueryDataset"@,
        ResourceType::MemorystoreInstance => "MemorystoreInstance"@,
        ResourceType::AppEngineVersion => "AppEngineVersion"@,
        ResourceType::PubSubTopic => "PubSubTopic"@,
        ResourceType::PubSubSubscription => "PubSubSubscription"@,
        ResourceType::SpannerInstance => "SpannerInstance"@,
    }
}

/// The human-readable name of a resource type.
pub open spec fn type_display_name(t: ResourceType) -> Seq<char> {
    match t {
        ResourceType::VirtualMachine => "Virtual Machine"@,
        ResourceType::Disk => "Disk"@,
        ResourceType::Snapshot => "Snapshot"@,
        ResourceType::LoadBalancer => "Load Balancer"@,
        ResourceType::ElasticIp => "Elastic IP"@,
        ResourceType::SecurityGroup => "Security Group"@,
        ResourceType::ServerlessFunction => "Serverless Function"@,
        ResourceType::StorageBucket => "Storage Bucket"@,
        ResourceType::MachineImage => "Machine Image"@,
        ResourceType::CloudSqlInstance => "Cloud SQL"@,
        ResourceType::CloudRunService => "Cloud Run"@,
        ResourceType::Network => "Network"@,
        ResourceType::NatGateway => "NAT Gateway"@,
        ResourceType::VpnTunnel => "VPN Tunnel"@,
        ResourceType::ArtifactRegistryRepo => "Artifact Registry"@,
        ResourceType::DataprocCluster => "Dataproc Cluster"@,
        ResourceType::SecretManagerSecret => "Secret Manager Secret"@,
        ResourceType::LogSink => "Log Sink"@,
        ResourceType::GkeCluster => "GKE Cluster"@,
        ResourceType::BigQueryDataset => "BigQuery Dataset"@,
        ResourceType::MemorystoreInstance => "Memorystore Instance"@,
        ResourceType::AppEngineVersion => "App Engine Version"@,
        ResourceType::PubSubTopic => "Pub/Sub Topic"@,
        ResourceType::PubSubSubscription => "Pub/Sub Subscription"@,
        ResourceType::SpannerInstance => "Spanner Instance"@,
    }
}

/// The resource type whose snake_case name is `s`, if any.
pub open spec fn type_from_name(s: Seq<char>) -> Option<ResourceType> {
    if exists|t: ResourceType| resource_type_name(t) == s {
        Some(choose|t: ResourceType| resource_type_name(t) == s)
    } else {
        None
    }
}

/// Every resource type, in declaration order.
pub open spec fn every_type() -> Seq<ResourceType> {
    seq![
        ResourceType::VirtualMachine,
        ResourceType::Disk,
        ResourceType::Snapshot,
        ResourceType::LoadBalancer,
        ResourceType::ElasticIp,
        ResourceType::SecurityGroup,
        ResourceType::ServerlessFunction,
        ResourceType::StorageBucket,
        ResourceType::MachineImage,
        ResourceType::CloudSqlInstance,
        ResourceType::CloudRunService,
        ResourceType::Network,
        ResourceType::NatGateway,
        ResourceType::VpnTunnel,
        ResourceType::ArtifactRegistryRepo,
        ResourceType::DataprocCluster,
        ResourceType::SecretManagerSecret,
        ResourceType::LogSink,
        ResourceType::GkeCluster,
        ResourceType::BigQueryDataset,
        ResourceType::MemorystoreInstance,
        ResourceType::AppEngineVersion,
        ResourceType::PubSubTopic,
        ResourceType::PubSubSubscription,
        ResourceType::SpannerInstance,
    ]
}

/// A stored (JSON-quoted) type name read back; anything else reads as a virtual machine.
pub open spec fn type_from_stored(s: Seq<char>) -> ResourceType {
    if s.len() >= 2 && s[0] == '"' && s.last() == '"' {
        match type_from_name(s.subrange(1, s.len() - 1)) {
            Some(t) => t,
            None => ResourceType::VirtualMachine,
        }
    } else {
        ResourceType::VirtualMachine
    }
}

impl ResourceType {
    /// The snake_case name (`virtual_machine`, `disk`, ...).
    pub fn name(&self) -> (r: &'static str)
        ensures
            r@ == resource_type_name(*self),
    {
        match self {
            ResourceType::VirtualMachine => "virtual_machine",
            ResourceType::Disk => "disk",
            ResourceType::Snapshot => "snapshot",
            ResourceType::LoadBalancer => "load_balancer",
            ResourceType::ElasticIp => "elastic_ip",
            ResourceType::SecurityGroup => "security_group",
            ResourceType::ServerlessFunction => "serverless_function",
            ResourceType::StorageBucket => "storage_bucket",
            ResourceType::MachineImage => "machine_image",
            ResourceType::CloudSqlInstance => "cloud_sql_instance",
            ResourceType::CloudRunService => "cloud_run_service",
            ResourceType::Network => "network",
            ResourceType::NatGateway => "nat_gateway",
            ResourceType::VpnTunnel => "vpn_tunnel",
            ResourceType::ArtifactRegistryRepo => "artifact_registry_repo",
            ResourceType::DataprocCluster => "dataproc_cluster",
            ResourceType::SecretManagerSecret => "secret_manager_secret",
            ResourceType::LogSink => "log_sink",
            ResourceType::GkeCluster => "gke_cluster",
            ResourceType::BigQueryDataset => "big_query_dataset",
            ResourceType::MemorystoreInstance => "memorystore_instance",
            ResourceType::AppEngineVersion => "app_engine_version",
            ResourceType::PubSubTopic => "pub_sub_topic",
            ResourceType::PubSubSubscription => "pub_sub_subscription",
            ResourceType::SpannerInstance => "spanner_instance",
        }
    }

    /// The name as written in Rust (`VirtualMachine`, ...).
    pub fn variant_name(&self) -> (r: &'static str)
        ensures
            r@ == type_variant_name(*self),
    {
        match self {
            ResourceType::VirtualMachine => "VirtualMachine",
            ResourceType::Disk => "Disk",
            ResourceType::Snapshot => "Snapshot",
            ResourceType::LoadBalancer => "LoadBalancer",
            ResourceType::ElasticIp => "ElasticIp",
            ResourceType::SecurityGroup => "SecurityGroup",
            ResourceType::ServerlessFunction => "ServerlessFunction",
            ResourceType::StorageBucket => "StorageBucket",
            ResourceType::MachineImage => "MachineImage",
            ResourceType::CloudSqlInstance => "CloudSqlInstance",
            ResourceType::CloudRunService => "CloudRunService",
            ResourceType::Network => "Network",
            ResourceType::NatGateway => "NatGateway",
            ResourceType::VpnTunnel => "VpnTunnel",
            ResourceType::ArtifactRegistryRepo => "ArtifactRegistryRepo",
            ResourceType::DataprocCluster => "DataprocCluster",
            ResourceType::SecretManagerSecret => "SecretManagerSecret",
            ResourceType::LogSink => "LogSink",
            ResourceType::GkeCluster => "GkeCluster",
            ResourceType::BigQueryDataset => "BigQueryDataset",
            ResourceType::MemorystoreInstance => "MemorystoreInstance",
            ResourceType::AppEngineVersion => "AppEngineVersion",
            ResourceType::PubSubTopic => "PubSubTopic",
            ResourceType::PubSubSubscription => "PubSubSubscription",
            ResourceType::SpannerInstance => "SpannerInstance",
        }
    }

    /// The human-readable name (`Virtual Machine`, `Cloud SQL`, ...).
    pub fn display_name(&self) -> (r: &'static str)
        ensures
            r@ == type_display_name(*self),
    {
        match self {
            ResourceType::VirtualMachine => "Virtual Machine",
            ResourceType::Disk => "Disk",
            ResourceType::Snapshot => "Snapshot",
            ResourceType::LoadBalancer => "Load Balancer",
            ResourceType::ElasticIp => "Elastic IP",
            ResourceType::SecurityGroup => "Security Group",
            ResourceType::ServerlessFunction => "Serverless Function",
            ResourceType::StorageBucket => "Storage Bucket",
            ResourceType::MachineImage => "Machine Image",
            ResourceType::CloudSqlInstance => "Cloud SQL",
            ResourceType::CloudRunService => "Cloud Run",
            ResourceType::Network => "Network",
            ResourceType::NatGateway => "NAT Gateway",
            ResourceType::VpnTunnel => "VPN Tunnel",
            ResourceType::ArtifactRegistryRepo => "Artifact Registry",
            ResourceType::DataprocCluster => "Dataproc Cluster",
            ResourceType::SecretManagerSecret => "Secret Manager Secret",
            ResourceType::LogSink => "Log Sink",
            ResourceType::GkeCluster => "GKE Cluster",
            ResourceType::BigQueryDataset => "BigQuery Dataset",
            ResourceType::MemorystoreInstance => "Memorystore Instance",
            ResourceType::AppEngineVersion => "App Engine Version",
            ResourceType::PubSubTopic => "Pub/Sub Topic",
            ResourceType::PubSubSubscription => "Pub/Sub Subscription",
            ResourceType::SpannerInstance => "Spanner Instance",
        }
    }

    /// The snake_case name as an owned string.
    pub fn name_string(&self) -> (r: String)
        ensures
            r@ == resource_type_name(*self),
    {
        String::from_str(self.name())
    }

    /// The JSON-quoted snake_case name, as stored.
    pub fn stored_name(&self) -> (r: String)
        ensures
            r@ == seq!['"'] + resource_type_name(*self) + seq!['"'],
    {
        let mut s = String::from_str("\"");
        s.append(self.name());
        s.append("\"");
        proof {
            reveal_strlit("\"");
        }
        s
    }

    /// The resource type a snake_case name stands for.
    pub fn from_name(s: &str) -> (r: Option<ResourceType>)
        ensures
            r == type_from_name(s@),
    {
        let all = all_resource_types();
        let mut i: usize = 0;
        while i < all.len()
            invariant
                all@ == every_type(),
                i <= all@.len(),
                forall|j: int| 0 <= j < i ==> resource_type_name(#[trigger] all@[j]) != s@,
            decreases all@.len() - i,
        {
            let t = all[i];
            if str_eq(t.name(), s) {
                proof {
                    lemma_name_picks_type(t, s@);
                }
                return Some(t);
            }
            i = i + 1;
        }
        proof {
            lemma_every_type_listed();
            assert forall|t: ResourceType| resource_type_name(t) != s@ by {
                assert(every_type().contains(t));
                let k = choose|k: int| 0 <= k < every_type().len() && every_type()[k] == t;
                assert(resource_type_name(all@[k]) != s@);
            }
        }
        None
    }

    /// Reads a stored (JSON-quoted) type name back; anything else reads as a virtual machine.
    pub fn from_stored(s: &str) -> (r: ResourceType)
        ensures
            r == type_from_stored(s@),
    {
        let n = s.unicode_len();
        if n >= 2 && s.get_char(0) == '"' && s.get_char(n - 1) == '"' {
            let inner = s.substring_char(1, n - 1);
            match ResourceType::from_name(inner) {
                Some(t) => t,
                None => ResourceType::VirtualMachine,
            }
        } else {
            ResourceType::VirtualMachine
        }
    }
}

/// The state of one step of a scan.
#[derive(Clone, Copy, Debug, PartialEq, Eq, Structural)]
pub enum ScanStepStatus {
    Scanning,
    Completed,
    Failed,
}

/// The lowercase name a scan step status is reported under.
pub open spec fn step_status_name(s: ScanStepStatus) -> Seq<char> {
    match s {
        ScanStepStatus::Scanning => "scanning"@,
        ScanStepStatus::Completed => "completed"@,
        ScanStepStatus::Failed => "failed"@,
    }
}

impl ScanStepStatus {
    /// The lowercase name (`scanning`, `completed`, `failed`).
    pub fn as_str(&self) -> (r: &'static str)
        ensures
            r@ == step_status_name(*self),
    {
        match self {
            ScanStepStatus::Scanning => "scanning",
            ScanStepStatus::Completed => "completed",
            ScanStepStatus::Failed => "failed",
        }
    }
}

/// Progress of scanning one resource type of one account.
#[derive(Debug)]
pub struct ScanProgress {
    pub account_id: String,
    pub resource_type: String,
    pub found: usize,
    pub status: ScanStepStatus,
}

/// A cloud resource found by a scan. `monthly_cost` is in billionths of a US dollar.
#[derive(Debug)]
pub struct CloudResource {
    pub id: String,
    pub name: String,
    pub resource_type: ResourceType,
    pub provider: ProviderKind,
    pub region: String,
    pub account_id: String,
    pub status: String,
    pub created_at: Option<String>,
    pub last_used: Option<String>,
    pub tags: Vec<(String, String)>,
    pub metadata: Json,
    pub monthly_cost: Option<u64>,
}

/// The value of a cloud resource.
pub struct ResourceV {
    pub id: Seq<char>,
    pub name: Seq<char>,
    pub resource_type: ResourceType,
    pub provider: ProviderKind,
    pub region: Seq<char>,
    pub account_id: Seq<char>,
    pub status: Seq<char>,
    pub created_at: Option<Seq<char>>,
    pub last_used: Option<Seq<char>>,
    pub tags: Seq<(Seq<char>, Seq<char>)>,
    pub metadata: JsonV,
    pub monthly_cost: Option<u64>,
}

/// The value of a list of string pairs.
pub open spec fn pairs_view(s: Seq<(String, String)>) -> Seq<(Seq<char>, Seq<char>)> {
    Seq::new(s.len(), |i: int| (s[i].0@, s[i].1@))
}

impl View for CloudResource {
    type V = ResourceV;

    open spec fn view(&self) -> ResourceV {
        ResourceV {
            id: self.id@,
            name: self.name@,
            resource_type: self.resource_type,
            provider: self.provider,
            region: self.region@,
            account_id: self.account_id@,
            status: self.status@,
            created_at: crate::json::opt_view(self.created_at),
            last_used: crate::json::opt_view(self.last_used),
            tags: pairs_view(self.tags@),
            metadata: self.metadata@,
            monthly_cost: self.monthly_cost,
        }
    }
}

/// The value of an optional resource.
pub open spec fn opt_resource_view(r: Option<CloudResource>) -> Option<ResourceV> {
    match r {
        Some(x) => Some(x@),
        None => None,
    }
}

/// The values of a list of resources.
pub open spec fn resources_view(s: Seq<CloudResource>) -> Seq<ResourceV> {
    Seq::new(s.len(), |i: int| s[i]@)
}

/// A configured cloud account.
#[derive(Debug)]
pub struct CloudAccount {
    pub id: String,
    pub provider: ProviderKind,
    pub display_name: String,
    pub project_id: Option<String>,
    pub config: Json,
}

/// Every resource type, in declaration order.
pub fn all_resource_types() -> (r: Vec<ResourceType>)
    ensures
        r@ == every_type(),
{
    let r = vec![
        ResourceType::VirtualMachine,
        ResourceType::Disk,
        ResourceType::Snapshot,
        ResourceType::LoadBalancer,
        ResourceType::ElasticIp,
        ResourceType::SecurityGroup,
        ResourceType::ServerlessFunction,
        ResourceType::StorageBucket,
        ResourceType::MachineImage,
        ResourceType::CloudSqlInstance,
        ResourceType::CloudRunService,
        ResourceType::Network,
        ResourceType::NatGateway,
        ResourceType::VpnTunnel,
        ResourceType::ArtifactRegistryRepo,
        ResourceType::DataprocCluster,
        ResourceType::SecretManagerSecret,
        ResourceType::LogSink,
        ResourceType::GkeCluster,
        ResourceType::BigQueryDataset,
        ResourceType::MemorystoreInstance,
        ResourceType::AppEngineVersion,
        ResourceType::PubSubTopic,
        ResourceType::PubSubSubscription,
        ResourceType::SpannerInstance,
    ];
    assert(r@ =~= every_type());
    r
}

proof fn lemma_every_type_listed()
    ensures
        forall|t: ResourceType| #[trigger] every_type().contains(t),
{
    assert forall|t: ResourceType| #[trigger] every_type().contains(t) by {
        let k: int = match t {
            ResourceType::VirtualMachine => 0,
            ResourceType::Disk => 1,
            ResourceType::Snapshot => 2,
            ResourceType::LoadBalancer => 3,
            ResourceType::ElasticIp => 4,
            ResourceType::SecurityGroup => 5,
            ResourceType::ServerlessFunction => 6,
            ResourceType::StorageBucket => 7,
            ResourceType::MachineImage => 8,
            ResourceType::CloudSqlInstance => 9,
            ResourceType::CloudRunService => 10,
            ResourceType::Network => 11,
            ResourceType::NatGateway => 12,
            ResourceType::VpnTunnel => 13,
            ResourceType::ArtifactRegistryRepo => 14,
            ResourceType::DataprocCluster => 15,
            ResourceType::SecretManagerSecret => 16,
            ResourceType::LogSink => 17,
            ResourceType::GkeCluster => 18,
            ResourceType::BigQueryDataset => 19,
            ResourceType::MemorystoreInstance => 20,
            ResourceType::AppEngineVersion => 21,
            ResourceType::PubSubTopic => 22,
            ResourceType::PubSubSubscription => 23,
            ResourceType::SpannerInstance => 24,
        };
        assert(every_type()[k] == t);
    }
}

/// Stored-name round trip: a provider written under its name reads back as itself.
pub proof fn lemma_provider_name_round_trip(p: ProviderKind)
    ensures
        provider_from_name(provider_name(p)) == p,
{
    reveal_strlit("gcp");
    reveal_strlit("aws");
    reveal_strlit("azure");
    assert("aws"@[0] != "gcp"@[0]);
    assert("azure"@.len() != "gcp"@.len() && "azure"@.len() != "aws"@.len());
    match p {
        ProviderKind::Gcp => {},
        ProviderKind::Aws => {
        },
        ProviderKind::Azure => {},
    }
}

/// What tells the snake_case type names apart: length, first and second character.
pub open spec fn name_key(s: Seq<char>) -> (nat, char, char) {
    (s.len(), s[0], s[1])
}

/// The key of each type's snake_case name.
spec fn type_key(t: ResourceType) -> (nat, char, char) {
    match t {
        ResourceType::VirtualMachine => (15, 'v', 'i'),
        ResourceType::Disk => (4, 'd', 'i'),
        ResourceType::Snapshot => (8, 's', 'n'),
        ResourceType::LoadBalancer => (13, 'l', 'o'),
        ResourceType::ElasticIp => (10, 'e', 'l'),
        ResourceType::SecurityGroup => (14, 's', 'e'),
        ResourceType::ServerlessFunction => (19, 's', 'e'),
        ResourceType::StorageBucket => (14, 's', 't'),
        ResourceType::MachineImage => (13, 'm', 'a'),
        ResourceType::CloudSqlInstance => (18, 'c', 'l'),
        ResourceType::CloudRunService => (17, 'c', 'l'),
        ResourceType::Network => (7, 'n', 'e'),
        ResourceType::NatGateway => (11, 'n', 'a'),
        ResourceType::VpnTunnel => (10, 'v', 'p'),
        ResourceType::ArtifactRegistryRepo => (22, 'a', 'r'),
        ResourceType::DataprocCluster => (16, 'd', 'a'),
        ResourceType::SecretManagerSecret => (21, 's', 'e'),
        ResourceType::LogSink => (8, 'l', 'o'),
        ResourceType::GkeCluster => (11, 'g', 'k'),
        ResourceType::BigQueryDataset => (17, 'b', 'i'),
        ResourceType::MemorystoreInstance => (20, 'm', 'e'),
        ResourceType::AppEngineVersion => (18, 'a', 'p'),
        ResourceType::PubSubTopic => (13, 'p', 'u'),
        ResourceType::PubSubSubscription => (20, 'p', 'u'),
        ResourceType::SpannerInstance => (16, 's', 'p'),
    }
}

proof fn lemma_name_keys()
    ensures
        forall|t: ResourceType| name_key(#[trigger] resource_type_name(t)) == type_key(t),
{
    assert forall|t: ResourceType| name_key(#[trigger] resource_type_name(t)) == type_key(t) by {
        match t {
            ResourceType::VirtualMachine => reveal_strlit("virtual_machine"),
            ResourceType::Disk => reveal_strlit("disk"),
            ResourceType::Snapshot => reveal_strlit("snapshot"),
            ResourceType::LoadBalancer => reveal_strlit("load_balancer"),
            ResourceType::ElasticIp => reveal_strlit("elastic_ip"),
            ResourceType::SecurityGroup => reveal_strlit("security_group"),
            ResourceType::ServerlessFunction => reveal_strlit("serverless_function"),
            ResourceType::StorageBucket => reveal_strlit("storage_bucket"),
            ResourceType::MachineImage => reveal_strlit("machine_image"),
            ResourceType::CloudSqlInstance => reveal_strlit("cloud_sql_instance"),
            ResourceType::CloudRunService => reveal_strlit("cloud_run_service"),
            ResourceType::Network => reveal_strlit("network"),
            ResourceType::NatGateway => reveal_strlit("nat_gateway"),
            ResourceType::VpnTunnel => reveal_strlit("vpn_tunnel"),
            ResourceType::ArtifactRegistryRepo => reveal_strlit("artifact_registry_repo"),
            ResourceType::DataprocCluster => reveal_strlit("dataproc_cluster"),
            ResourceType::SecretManagerSecret => reveal_strlit("secret_manager_secret"),
            ResourceType::LogSink => reveal_strlit("log_sink"),
            ResourceType::GkeCluster => reveal_strlit("gke_cluster"),
            ResourceType::BigQueryDataset => reveal_strlit("big_query_dataset"),
            ResourceType::MemorystoreInstance => reveal_strlit("memorystore_instance"),
            ResourceType::AppEngineVersion => reveal_strlit("app_engine_version"),
            ResourceType::PubSubTopic => reveal_strlit("pub_sub_topic"),
            ResourceType::PubSubSubscription => reveal_strlit("pub_sub_subscription"),
            ResourceType::SpannerInstance => reveal_strlit("spanner_instance"),
        }
    }
}

/// Distinct resource types have distinct snake_case names.
pub proof fn lemma_type_names_distinct(a: ResourceType, b: ResourceType)
    ensures
        resource_type_name(a) == resource_type_name(b) ==> a == b,
{
    lemma_name_keys();
    if resource_type_name(a) == resource_type_name(b) {
        assert(type_key(a) == type_key(b));
    }
}

/// A name read back gives the type it names.
proof fn lemma_name_picks_type(t: ResourceType, s: Seq<char>)
    requires
        resource_type_name(t) == s,
    ensures
        type_from_name(s) == Some(t),
{
    let c = choose|c: ResourceType| resource_type_name(c) == s;
    lemma_type_names_distinct(c, t);
}

/// Name round trip: a resource type's snake_case name, and its stored (JSON-quoted)
/// name, read back as that type.
pub proof fn lemma_type_name_round_trip(t: ResourceType)
    ensures
        type_from_name(resource_type_name(t)) == Some(t),
        type_from_stored(seq!['"'] + resource_type_name(t) + seq!['"']) == t,
{
    lemma_name_picks_type(t, resource_type_name(t));
    let s = seq!['"'] + resource_type_name(t) + seq!['"'];
    assert(s.subrange(1, s.len() - 1) =~= resource_type_name(t));
}


/// How each resource type is named: its stored (snake_case) name, its variant name, and
/// the name shown to users; and how each provider is named.
pub proof fn law_type_and_provider_names()
    ensures
        resource_type_name(ResourceType::VirtualMachine) == "virtual_machine"@ && type_variant_name(ResourceType::VirtualMachine) == "VirtualMachine"@ && type_display_name(ResourceType::VirtualMachine) == "Virtual Machine"@,
        resource_type_name(ResourceType::Disk) == "disk"@ && type_variant_name(ResourceType::Disk) == "Disk"@ && type_display_name(ResourceType::Disk) == "Disk"@,
        resource_type_name(ResourceType::Snapshot) == "snapshot"@ && type_variant_name(ResourceType::Snapshot) == "Snapshot"@ && type_display_name(ResourceType::Snapshot) == "Snapshot"@,
        resource_type_name(ResourceType::LoadBalancer) == "load_balancer"@ && type_variant_name(ResourceType::LoadBalancer) == "LoadBalancer"@ && type_display_name(ResourceType::LoadBalancer) == "Load Balancer"@,
        resource_type_name(ResourceType::ElasticIp) == "elastic_ip"@ && type_variant_name(ResourceType::ElasticIp) == "ElasticIp"@ && type_display_name(ResourceType::ElasticIp) == "Elastic IP"@,
        resource_type_name(ResourceType::SecurityGroup) == "security_group"@ && type_variant_name(ResourceType::SecurityGroup) == "SecurityGroup"@ && type_display_name(ResourceType::SecurityGroup) == "Security Group"@,
        resource_type_name(ResourceType::ServerlessFunction) == "serverless_function"@ && type_variant_name(ResourceType::ServerlessFunction) == "ServerlessFunction"@ && type_display_name(ResourceType::ServerlessFunction) == "Serverless Function"@,
        resource_type_name(ResourceType::StorageBucket) == "storage_bucket"@ && type_variant_name(ResourceType::StorageBucket) == "StorageBucket"@ && type_display_name(ResourceType::StorageBucket) == "Storage Bucket"@,
        resource_type_name(ResourceType::MachineImage) == "machine_image"@ && type_variant_name(ResourceType::MachineImage) == "MachineImage"@ && type_display_name(ResourceType::MachineImage) == "Machine Image"@,
        resource_type_name(ResourceType::CloudSqlInstance) == "cloud_sql_instance"@ && type_variant_name(ResourceType::CloudSqlInstance) == "CloudSqlInstance"@ && type_display_name(ResourceType::CloudSqlInstance) == "Cloud SQL"@,
        resource_type_name(ResourceType::CloudRunService) == "cloud_run_service"@ && type_variant_name(ResourceType::CloudRunService) == "CloudRunService"@ && type_display_name(ResourceType::CloudRunService) == "Cloud Run"@,
        resource_type_name(ResourceType::Network) == "network"@ && type_variant_name(ResourceType::Network) == "Network"@ && type_display_name(ResourceType::Network) == "Network"@,
        resource_type_name(ResourceType::NatGateway) == "nat_gateway"@ && type_variant_name(ResourceType::NatGateway) == "NatGateway"@ && type_display_name(ResourceType::NatGateway) == "NAT Gateway"@,
        resource_type_name(ResourceType::VpnTunnel) == "vpn_tunnel"@ && type_variant_name(ResourceType::VpnTunnel) == "VpnTunnel"@ && type_display_name(ResourceType::VpnTunnel) == "VPN Tunnel"@,
        resource_type_name(ResourceType::ArtifactRegistryRepo) == "artifact_registry_repo"@ && type_variant_name(ResourceType::ArtifactRegistryRepo) == "ArtifactRegistryRepo"@ && type_display_name(ResourceType::ArtifactRegistryRepo) == "Artifact Registry"@,
        resource_type_name(ResourceType::DataprocCluster) == "dataproc_cluster"@ && type_variant_name(ResourceType::DataprocCluster) == "DataprocCluster"@ && type_display_name(ResourceType::DataprocCluster) == "Dataproc Cluster"@,
        resource_type_name(ResourceType::SecretManagerSecret) == "secret_manager_secret"@ && type_variant_name(ResourceType::SecretManagerSecret) == "SecretManagerSecret"@ && type_display_name(ResourceType::SecretManagerSecret) == "Secret Manager Secret"@,
        resource_type_name(ResourceType::LogSink) == "log_sink"@ && type_variant_name(ResourceType::LogSink) == "LogSink"@ && type_display_name(ResourceType::LogSink) == "Log Sink"@,
        resource_type_name(ResourceType::GkeCluster) == "gke_cluster"@ && type_variant_name(ResourceType::GkeCluster) == "GkeCluster"@ && type_display_name(ResourceType::GkeCluster) == "GKE Cluster"@,
        resource_type_name(ResourceType::BigQueryDataset) == "big_query_dataset"@ && type_variant_name(ResourceType::BigQueryDataset) == "BigQueryDataset"@ && type_display_name(ResourceType::BigQueryDataset) == "BigQuery Dataset"@,
        resource_type_name(ResourceType::MemorystoreInstance) == "memorystore_instance"@ && type_variant_name(ResourceType::MemorystoreInstance) == "MemorystoreInstance"@ && type_display_name(ResourceType::MemorystoreInstance) == "Memorystore Instance"@,
        resource_type_name(ResourceType::AppEngineVersion) == "app_engine_version"@ && type_variant_name(ResourceType::AppEngineVersion) == "AppEngineVersion"@ && type_display_name(ResourceType::AppEngineVersion) == "App Engine Version"@,
        resource_type_name(ResourceType::PubSubTopic) == "pub_sub_topic"@ && type_variant_name(ResourceType::PubSubTopic) == "PubSubTopic"@ && type_display_name(ResourceType::PubSubTopic) == "Pub/Sub Topic"@,
        resource_type_name(ResourceType::PubSubSubscription) == "pub_sub_subscription"@ && type_variant_name(ResourceType::PubSubSubscription) == "PubSubSubscription"@ && type_display_name(ResourceType::PubSubSubscription) == "Pub/Sub Subscription"@,
        resource_type_name(ResourceType::SpannerInstance) == "spanner_instance"@ && type_variant_name(ResourceType::SpannerInstance) == "SpannerInstance"@ && type_display_name(ResourceType::SpannerInstance) == "Spanner Instance"@,
        provider_name(ProviderKind::Gcp) == "gcp"@ && provider_name(ProviderKind::Aws) == "aws"@
            && provider_name(ProviderKind::Azure) == "azure"@,
{
}

} // verus!
