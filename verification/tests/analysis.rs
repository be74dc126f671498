use r3x_cloud::detector::{analyze_resources, analyze_resources_at, check_rule};
use r3x_cloud::json::{Json, JsonNumber};
use r3x_cloud::provider::{CloudResource, ProviderKind, ResourceType};
use r3x_cloud::rules::{all_gcp_rules, list_rules, DetectionRule, Severity};

const USD: u64 = 1_000_000_000;

fn obj(entries: Vec<(&str, Json)>) -> Json {
    Json::Object(entries.into_iter().map(|(k, v)| (k.to_string(), v)).collect())
}

fn text(s: &str) -> Json {
    Json::Str(s.to_string())
}

fn float_gb(n: u64) -> Json {
    Json::Number(JsonNumber::Float(n as i128 * 1_000_000_000))
}

fn resource(
    id: &str,
    name: &str,
    t: ResourceType,
    status: &str,
    cost: Option<u64>,
    tags: Vec<(&str, &str)>,
    metadata: Json,
) -> CloudResource {
    CloudResource {
        id: id.to_string(),
        name: name.to_string(),
        resource_type: t,
        provider: ProviderKind::Gcp,
        region: "us-central1-a".to_string(),
        account_id: "proj".to_string(),
        status: status.to_string(),
        created_at: None,
        last_used: None,
        tags: tags.into_iter().map(|(k, v)| (k.to_string(), v.to_string())).collect(),
        metadata,
        monthly_cost: cost,
    }
}

fn rule(id: &str) -> DetectionRule {
    all_gcp_rules().into_iter().find(|r| r.id == id).unwrap()
}

// 2024-01-01T00:00:00Z
const NOW: (i64, u32) = (1_704_067_200, 0);

#[test]
fn catalog_has_twenty_six_enabled_rules_with_distinct_ids() {
    let rules = all_gcp_rules();
    assert_eq!(rules.len(), 26);
    assert!(rules.iter().all(|r| r.enabled));
    for (i, a) in rules.iter().enumerate() {
        for b in rules.iter().skip(i + 1) {
            assert_ne!(a.id, b.id);
        }
    }
    assert_eq!(rules[0].id, "gcp-vm-stopped");
    assert_eq!(rules[0].resource_type, "virtual_machine");
    assert_eq!(rules[0].severity, Severity::High);
    assert_eq!(list_rules().len(), 26);
}

#[test]
fn stopped_vm_is_reported_with_its_cost() {
    let vm = resource(
        "123",
        "web-1",
        ResourceType::VirtualMachine,
        "terminated",
        Some(15_330_000_000),
        vec![("env", "prod")],
        obj(vec![("machine_type", text("e2-small"))]),
    );
    let f = check_rule(&vm, &rule("gcp-vm-stopped"), NOW).unwrap();
    assert_eq!(f.id, "gcp-vm-stopped-123");
    assert_eq!(f.description, "VM 'web-1' (e2-small) is stopped/terminated in us-central1-a");
    assert_eq!(f.estimated_monthly_savings, 15_330_000_000);
    assert_eq!(f.severity, Severity::High);
    assert_eq!(f.resource_type, "virtual_machine");
    assert_eq!(f.region, "us-central1-a");
}

#[test]
fn running_vm_is_not_reported() {
    let vm = resource(
        "1",
        "web-2",
        ResourceType::VirtualMachine,
        "RUNNING",
        Some(USD),
        vec![("env", "prod")],
        obj(vec![]),
    );
    assert!(check_rule(&vm, &rule("gcp-vm-stopped"), NOW).is_none());
    assert!(check_rule(&vm, &rule("gcp-resource-untagged"), NOW).is_none());
}

#[test]
fn untagged_resource_is_reported_without_savings() {
    let vm = resource("1", "web-3", ResourceType::VirtualMachine, "RUNNING", None, vec![], obj(vec![]));
    let f = check_rule(&vm, &rule("gcp-resource-untagged"), NOW).unwrap();
    assert_eq!(f.description, "virtual_machine 'web-3' has no labels/tags");
    assert_eq!(f.estimated_monthly_savings, 0);
    assert_eq!(f.severity, Severity::Medium);
}

#[test]
fn untagged_rule_skips_firewalls() {
    let fw = resource("1", "fw", ResourceType::SecurityGroup, "ENABLED", Some(0), vec![], obj(vec![]));
    assert!(check_rule(&fw, &rule("gcp-resource-untagged"), NOW).is_none());
}

#[test]
fn rule_of_another_type_does_not_apply() {
    let disk = resource("d", "disk", ResourceType::Disk, "TERMINATED", Some(USD), vec![("a", "b")], obj(vec![]));
    assert!(check_rule(&disk, &rule("gcp-vm-stopped"), NOW).is_none());
}

#[test]
fn unattached_disk_description_uses_size_and_type() {
    let disk = resource(
        "d1",
        "data",
        ResourceType::Disk,
        "UNATTACHED",
        Some(34 * USD),
        vec![("team", "x")],
        obj(vec![("size_gb", float_gb(200)), ("disk_type", text("pd-ssd"))]),
    );
    let f = check_rule(&disk, &rule("gcp-disk-unattached"), NOW).unwrap();
    assert_eq!(f.description, "Disk 'data' (200 GB, pd-ssd) is not attached to any instance");
    let big = check_rule(&disk, &rule("gcp-disk-large-unused"), NOW).unwrap();
    assert_eq!(big.description, "Large unattached disk 'data' (200 GB) is wasting significant storage costs");
    assert_eq!(big.severity, Severity::Critical);
}

#[test]
fn small_unattached_disk_is_not_large() {
    let disk = resource(
        "d2",
        "small",
        ResourceType::Disk,
        "UNATTACHED",
        Some(USD),
        vec![("team", "x")],
        obj(vec![("size_gb", float_gb(99))]),
    );
    assert!(check_rule(&disk, &rule("gcp-disk-large-unused"), NOW).is_none());
    assert!(check_rule(&disk, &rule("gcp-disk-unattached"), NOW).is_some());
}

#[test]
fn disk_of_exactly_100_gb_is_not_large() {
    let disk = resource(
        "d1",
        "a",
        ResourceType::Disk,
        "UNATTACHED",
        Some(4 * USD),
        vec![("env", "prod")],
        obj(vec![("size_gb", float_gb(100))]),
    );
    let s = analyze_resources_at(&vec![disk], &vec![], NOW);
    assert_eq!(s.total_findings, 1);
    assert_eq!(s.findings[0].rule_id, "gcp-disk-unattached");
    assert_eq!(s.high_count, 1);
    assert_eq!(s.critical_count, 0);
    assert_eq!(s.total_monthly_savings, 4 * USD as u128);
}

#[test]
fn reserved_ip_saves_its_idle_price() {
    let ip = resource(
        "ip1",
        "static",
        ResourceType::ElasticIp,
        "RESERVED",
        Some(0),
        vec![("a", "b")],
        obj(vec![("address", text("34.1.2.3"))]),
    );
    let f = check_rule(&ip, &rule("gcp-ip-unused"), NOW).unwrap();
    assert_eq!(f.description, "Static IP 'static' (34.1.2.3) is reserved but not in use");
    assert_eq!(f.estimated_monthly_savings, 7_300_000_000);
}

#[test]
fn old_snapshot_is_reported_with_its_age() {
    let mut snap = resource(
        "s1",
        "backup",
        ResourceType::Snapshot,
        "READY",
        Some(USD),
        vec![("a", "b")],
        obj(vec![]),
    );
    snap.created_at = Some("2023-09-01T00:00:00Z".to_string());
    let f = check_rule(&snap, &rule("gcp-snapshot-old"), NOW).unwrap();
    assert_eq!(f.description, "Snapshot 'backup' is 122 days old");
    snap.created_at = Some("2023-12-01T00:00:00Z".to_string());
    assert!(check_rule(&snap, &rule("gcp-snapshot-old"), NOW).is_none());
    snap.created_at = Some("not a date".to_string());
    assert!(check_rule(&snap, &rule("gcp-snapshot-old"), NOW).is_none());
}

#[test]
fn analysis_orders_by_savings_and_counts_severities() {
    let vm = resource(
        "vm",
        "web",
        ResourceType::VirtualMachine,
        "TERMINATED",
        Some(15 * USD),
        vec![("env", "prod")],
        obj(vec![("machine_type", text("e2-small"))]),
    );
    let disk = resource(
        "disk",
        "data",
        ResourceType::Disk,
        "UNATTACHED",
        Some(34 * USD),
        vec![],
        obj(vec![("size_gb", float_gb(200)), ("disk_type", text("pd-ssd"))]),
    );
    let s = analyze_resources_at(&vec![vm, disk], &vec![], NOW);
    let ids: Vec<&str> = s.findings.iter().map(|f| f.rule_id.as_str()).collect();
    assert_eq!(
        ids,
        vec!["gcp-disk-unattached", "gcp-disk-large-unused", "gcp-vm-stopped", "gcp-resource-untagged"]
    );
    assert_eq!(s.total_findings, 4);
    assert_eq!(s.total_monthly_savings, (34 + 34 + 15) as u128 * USD as u128);
    assert_eq!(s.critical_count, 1);
    assert_eq!(s.high_count, 2);
    assert_eq!(s.medium_count, 1);
    assert_eq!(s.low_count, 0);
    assert_eq!(s.critical_count + s.high_count + s.medium_count + s.low_count, s.total_findings);
}

#[test]
fn disabled_rule_reports_nothing() {
    let vm = resource(
        "vm",
        "web",
        ResourceType::VirtualMachine,
        "TERMINATED",
        Some(15 * USD),
        vec![],
        obj(vec![]),
    );
    let overrides = vec![("gcp-vm-stopped".to_string(), false)];
    let s = analyze_resources_at(&vec![vm], &overrides, NOW);
    let ids: Vec<&str> = s.findings.iter().map(|f| f.rule_id.as_str()).collect();
    assert_eq!(ids, vec!["gcp-resource-untagged"]);
}

#[test]
fn last_override_for_a_rule_wins() {
    let vm = resource(
        "vm",
        "web",
        ResourceType::VirtualMachine,
        "TERMINATED",
        Some(15 * USD),
        vec![("a", "b")],
        obj(vec![]),
    );
    let overrides = vec![
        ("gcp-vm-stopped".to_string(), false),
        ("gcp-vm-stopped".to_string(), true),
    ];
    let s = analyze_resources_at(&vec![vm], &overrides, NOW);
    assert_eq!(s.total_findings, 1);
    assert_eq!(s.findings[0].rule_id, "gcp-vm-stopped");
}

#[test]
fn empty_scan_has_empty_analysis() {
    let s = analyze_resources(&vec![], &vec![]);
    assert_eq!(s.total_findings, 0);
    assert_eq!(s.total_monthly_savings, 0);
    assert!(s.findings.is_empty());
}

#[test]
fn findings_name_rules_of_their_resource_type() {
    let resources = vec![
        resource("1", "a", ResourceType::VirtualMachine, "TERMINATED", Some(USD), vec![], obj(vec![])),
        resource("2", "b", ResourceType::Disk, "UNATTACHED", Some(USD), vec![], obj(vec![("size_gb", float_gb(500))])),
        resource("3", "c", ResourceType::ElasticIp, "RESERVED", Some(0), vec![], obj(vec![])),
        resource("4", "d", ResourceType::PubSubSubscription, "DETACHED", Some(0), vec![], obj(vec![])),
    ];
    let s = analyze_resources_at(&resources, &vec![], NOW);
    assert!(s.total_findings >= 6);
    let rules = all_gcp_rules();
    for f in &s.findings {
        let rule = rules.iter().find(|r| r.id == f.rule_id).unwrap();
        assert!(rule.resource_type == "*" || rule.resource_type == f.resource_type);
        assert!(rule.enabled);
        assert_eq!(f.id, format!("{}-{}", f.rule_id, f.resource_id));
    }
    for w in s.findings.windows(2) {
        assert!(w[0].estimated_monthly_savings >= w[1].estimated_monthly_savings);
    }
}

fn sample_resources() -> (Vec<CloudResource>, Vec<CloudResource>) {
    let a = vec![
        resource("vm", "web", ResourceType::VirtualMachine, "TERMINATED", Some(15 * USD), vec![], obj(vec![])),
        resource(
            "disk",
            "data",
            ResourceType::Disk,
            "UNATTACHED",
            Some(34 * USD),
            vec![("env", "dev")],
            obj(vec![("size_gb", float_gb(200))]),
        ),
    ];
    let b = vec![
        resource("ip", "edge", ResourceType::ElasticIp, "RESERVED", None, vec![], obj(vec![])),
        resource("d2", "old", ResourceType::Disk, "UNATTACHED", Some(2 * USD), vec![], obj(vec![])),
    ];
    (a, b)
}

fn finding_ids(s: &r3x_cloud::detector::AnalysisSummary) -> Vec<String> {
    s.findings.iter().map(|f| f.id.clone()).collect()
}

#[test]
fn switching_a_rule_off_removes_exactly_its_findings() {
    let (a, b) = sample_resources();
    let all: Vec<CloudResource> = a.into_iter().chain(b).collect();
    let before = analyze_resources_at(&all, &vec![], NOW);
    let off = vec![("gcp-disk-unattached".to_string(), false)];
    let after = analyze_resources_at(&all, &off, NOW);
    let expected: Vec<String> = before
        .findings
        .iter()
        .filter(|f| f.rule_id != "gcp-disk-unattached")
        .map(|f| f.id.clone())
        .collect();
    assert!(before.findings.iter().any(|f| f.rule_id == "gcp-disk-unattached"));
    assert_eq!(finding_ids(&after), expected);
}

#[test]
fn enabling_and_unknown_overrides_change_nothing() {
    let (a, b) = sample_resources();
    let all: Vec<CloudResource> = a.into_iter().chain(b).collect();
    let plain = analyze_resources_at(&all, &vec![], NOW);
    let ov = vec![("gcp-vm-stopped".to_string(), true), ("no-such-rule".to_string(), false)];
    let same = analyze_resources_at(&all, &ov, NOW);
    assert_eq!(finding_ids(&same), finding_ids(&plain));
    assert_eq!(same.total_monthly_savings, plain.total_monthly_savings);
    assert_eq!(same.high_count, plain.high_count);
}

#[test]
fn analysing_two_lists_together_adds_up() {
    let (a, b) = sample_resources();
    let x = analyze_resources_at(&a, &vec![], NOW);
    let y = analyze_resources_at(&b, &vec![], NOW);
    let all: Vec<CloudResource> = a.into_iter().chain(b).collect();
    let z = analyze_resources_at(&all, &vec![], NOW);
    assert_eq!(z.total_findings, x.total_findings + y.total_findings);
    assert_eq!(z.critical_count, x.critical_count + y.critical_count);
    assert_eq!(z.high_count, x.high_count + y.high_count);
    assert_eq!(z.medium_count, x.medium_count + y.medium_count);
    assert_eq!(z.low_count, x.low_count + y.low_count);
    assert_eq!(z.total_monthly_savings, x.total_monthly_savings + y.total_monthly_savings);
    let mut together = finding_ids(&z);
    let mut apart = finding_ids(&x);
    apart.extend(finding_ids(&y));
    together.sort();
    apart.sort();
    assert_eq!(together, apart);
}

#[test]
fn whole_dollar_ties_round_to_even() {
    let spanner = |cost: u64| {
        resource("sp", "big", ResourceType::SpannerInstance, "READY", Some(cost), vec![("a", "b")], obj(vec![]))
    };
    let f = check_rule(&spanner(2 * USD + USD / 2), &rule("gcp-spanner-idle"), NOW).unwrap();
    assert_eq!(f.description, format!("Spanner instance 'big' costs ${:.0}/month \u{2014} verify it's actively used", 2.5f64));
    assert!(f.description.contains("costs $2/month"));
    let f = check_rule(&spanner(3 * USD + USD / 2), &rule("gcp-spanner-idle"), NOW).unwrap();
    assert!(f.description.contains("costs $4/month"));
}

#[test]
fn tenths_of_a_gb_round_to_even() {
    let repo = |bytes: u64| {
        resource(
            "r",
            "imgs",
            ResourceType::ArtifactRegistryRepo,
            "ACTIVE",
            Some(USD),
            vec![("a", "b")],
            obj(vec![("size_bytes", Json::Number(JsonNumber::Float(bytes as i128 * 1_000_000_000)))]),
        )
    };
    // 10.25 GiB and 10.35 GiB
    let f = check_rule(&repo(11_005_853_696), &rule("gcp-artifact-large"), NOW).unwrap();
    assert_eq!(f.description, format!("Artifact Registry repo 'imgs' is {:.1} GB", 10.25f64));
    assert_eq!(f.description, "Artifact Registry repo 'imgs' is 10.2 GB");
}
