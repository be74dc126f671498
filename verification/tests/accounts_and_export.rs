use r3x_cloud::account::{
    active_gcp_projects, check_provider, new_account, new_scan_id, projects_list_failure,
};
use r3x_cloud::cost::get_pricing_data;
use r3x_cloud::credentials::{check_provider_name, gcp_signed_out, gcp_status};
use r3x_cloud::detector::Finding;
use r3x_cloud::engine::{completed_scan, find_account, gather_results};
use r3x_cloud::export::{
    export_file_name, export_file_name_now, export_kind, finding_row, findings_header, resource_row, resources_header,
    ExportKind,
};
use r3x_cloud::json::{Json, JsonNumber};
use r3x_cloud::provider::{CloudAccount, CloudResource, ProviderKind, ResourceType};
use r3x_cloud::rules::Severity;

fn obj(entries: Vec<(&str, Json)>) -> Json {
    Json::Object(entries.into_iter().map(|(k, v)| (k.to_string(), v)).collect())
}

fn text(s: &str) -> Json {
    Json::Str(s.to_string())
}

fn is_v4(s: &str) -> bool {
    let b: Vec<char> = s.chars().collect();
    b.len() == 36
        && b.iter().enumerate().all(|(i, c)| {
            if [8, 13, 18, 23].contains(&i) {
                *c == '-'
            } else {
                c.is_ascii_hexdigit() && !c.is_ascii_uppercase()
            }
        })
        && b[14] == '4'
        && "89ab".contains(b[19])
}

fn account(id: &str) -> CloudAccount {
    CloudAccount {
        id: id.to_string(),
        provider: ProviderKind::Gcp,
        display_name: id.to_uppercase(),
        project_id: None,
        config: Json::Null,
    }
}

fn resource(name: &str, cost: Option<u64>) -> CloudResource {
    CloudResource {
        id: format!("id-{}", name),
        name: name.to_string(),
        resource_type: ResourceType::Disk,
        provider: ProviderKind::Gcp,
        region: "us-east1-b".to_string(),
        account_id: "p".to_string(),
        status: "UNATTACHED".to_string(),
        created_at: Some("2024-01-01T00:00:00Z".to_string()),
        last_used: None,
        tags: vec![("env".to_string(), "prod".to_string()), ("team".to_string(), "a".to_string())],
        metadata: Json::Null,
        monthly_cost: cost,
    }
}

#[test]
fn new_accounts_get_random_v4_ids() {
    let a = new_account(ProviderKind::Gcp, "Main".to_string(), Some("proj".to_string()), Json::Null);
    assert!(is_v4(&a.id));
    assert_eq!(a.display_name, "Main");
    assert_eq!(a.project_id.as_deref(), Some("proj"));
    let b = new_account(ProviderKind::Gcp, "Main".to_string(), None, Json::Null);
    assert_ne!(a.id, b.id);
    assert!(is_v4(&new_scan_id()));
}

#[test]
fn only_gcp_is_supported() {
    assert_eq!(check_provider(ProviderKind::Gcp), Ok(()));
    assert_eq!(check_provider(ProviderKind::Aws), Err("Provider Aws not yet supported".to_string()));
    assert_eq!(check_provider_name("gcp"), Ok(()));
    assert_eq!(check_provider_name("azure"), Err("Provider 'azure' not supported".to_string()));
}

#[test]
fn only_active_projects_are_listed() {
    let out = Json::Array(vec![
        obj(vec![("projectId", text("a")), ("name", text("Alpha"))]),
        obj(vec![("projectId", text("b")), ("lifecycleState", text("DELETE_REQUESTED"))]),
        obj(vec![("name", text("no id"))]),
        obj(vec![("projectId", text("c")), ("lifecycleState", text("ACTIVE"))]),
    ]);
    let p = active_gcp_projects(&out);
    assert_eq!(p.len(), 2);
    assert_eq!((p[0].project_id.as_str(), p[0].name.as_str(), p[0].state.as_str()), ("a", "Alpha", "ACTIVE"));
    assert_eq!((p[1].project_id.as_str(), p[1].name.as_str()), ("c", "c"));
    assert!(active_gcp_projects(&obj(vec![])).is_empty());
    assert_eq!(projects_list_failure(" denied \n"), "gcloud projects list failed: denied");
}

#[test]
fn credential_status_from_auth_list() {
    let list = Json::Array(vec![
        obj(vec![("account", text("old@x.com")), ("status", text(""))]),
        obj(vec![("account", text("me@x.com")), ("status", text("ACTIVE"))]),
    ]);
    let s = gcp_status(&list);
    assert!(s.authenticated);
    assert_eq!(s.identity, "me@x.com");
    assert_eq!(s.provider, "gcp");
    assert_eq!(s.method, "gcloud CLI");
    let none = gcp_status(&Json::Array(vec![]));
    assert!(!none.authenticated);
    assert_eq!(none.identity, "unknown");
    let out = gcp_signed_out();
    assert!(!out.authenticated);
    assert_eq!(out.identity, "none");
}

#[test]
fn scan_finds_its_account_and_gathers_results() {
    let accounts = vec![account("a1"), account("a2"), account("a2")];
    assert_eq!(find_account(&accounts, "a2"), Ok(1));
    assert_eq!(find_account(&accounts, "zz"), Err("Account zz not found".to_string()));
    let parts = vec![
        Some(vec![resource("x", None)]),
        None,
        Some(vec![resource("y", None), resource("z", None)]),
    ];
    let all = gather_results(parts);
    assert_eq!(all.iter().map(|r| r.name.as_str()).collect::<Vec<_>>(), vec!["x", "y", "z"]);
    let done = completed_scan("s".to_string(), "a1".to_string(), 3);
    assert_eq!(done.status, "completed");
    assert_eq!(done.total_resources, 3);
}

#[test]
fn resource_rows_follow_the_header() {
    assert_eq!(
        resources_header(),
        vec!["Name", "Type", "Status", "Region", "Provider", "Monthly Cost", "Created", "ID", "Tags"]
    );
    let row = resource_row(&resource("data", Some(34_005_000_000)));
    assert_eq!(
        row,
        vec![
            "data",
            "disk",
            "UNATTACHED",
            "us-east1-b",
            "gcp",
            "34.00",
            "2024-01-01T00:00:00Z",
            "id-data",
            "env=prod; team=a"
        ]
    );
    let mut r = resource("n", None);
    r.created_at = None;
    r.tags.clear();
    let row = resource_row(&r);
    assert_eq!(row[5], "");
    assert_eq!(row[6], "");
    assert_eq!(row[8], "");
    assert_eq!(row.len(), resources_header().len());
}

#[test]
fn finding_rows_follow_the_header() {
    let f = Finding {
        id: "r-1".to_string(),
        resource_id: "1".to_string(),
        resource_name: "web".to_string(),
        resource_type: "virtual_machine".to_string(),
        rule_id: "gcp-vm-stopped".to_string(),
        rule_name: "Stopped VM".to_string(),
        severity: Severity::High,
        description: "d".to_string(),
        recommendation: "r".to_string(),
        estimated_monthly_savings: 7_300_000_000,
        region: "us".to_string(),
    };
    let row = finding_row(&f);
    assert_eq!(row, vec!["web", "virtual_machine", "Stopped VM", "high", "d", "r", "7.30", "us"]);
    assert_eq!(row.len(), findings_header().len());
}

#[test]
fn export_kinds_and_file_names() {
    assert_eq!(export_kind("csv", "resources"), Ok(ExportKind::ResourcesCsv));
    assert_eq!(export_kind("json", "all"), Ok(ExportKind::ReportJson));
    assert_eq!(
        export_kind("csv", "all"),
        Err("Invalid export format/type combination".to_string())
    );
    assert_eq!(export_file_name(ExportKind::FindingsCsv, "20240101_000000"), "r3x_findings_20240101_000000.csv");
    assert_eq!(export_file_name(ExportKind::ReportJson, "s"), "r3x_report_s.json");
}

#[test]
fn export_file_name_now_carries_a_utc_stamp() {
    let name = export_file_name_now(ExportKind::ResourcesCsv);
    assert!(name.starts_with("r3x_resources_"));
    assert!(name.ends_with(".csv"));
    let stamp = &name["r3x_resources_".len()..name.len() - 4];
    assert_eq!(stamp.len(), 15);
    assert_eq!(&stamp[8..9], "_");
    assert!(stamp.chars().enumerate().all(|(i, c)| i == 8 || c.is_ascii_digit()));
}

#[test]
fn price_list_is_in_billionths() {
    let p = get_pricing_data();
    assert_eq!(p.len(), 47);
    assert_eq!(p[0].resource_type, "virtual_machine");
    assert_eq!(p[0].sku, "e2-micro");
    assert_eq!(p[0].price_per_unit, 7_670_000_000);
    assert!(p.iter().all(|e| e.region == "us-central1"));
    let tiny = p.iter().find(|e| e.sku == "compute-128mb").unwrap();
    assert_eq!(tiny.price_per_unit, 231);
    let _ = JsonNumber::PosInt(0);
}

#[test]
fn money_ties_round_to_even_as_format_does() {
    for (nanos, dollars) in [
        (125_000_000u64, 0.125f64),
        (135_000_000, 0.135),
        (375_000_000, 0.375),
        (2_500_000_000, 2.5),
        (1_000_000, 0.001),
    ] {
        let row = resource_row(&resource("x", Some(nanos)));
        assert_eq!(row[5], format!("{:.2}", dollars));
    }
    assert_eq!(resource_row(&resource("x", Some(125_000_000)))[5], "0.12");
    assert_eq!(resource_row(&resource("x", Some(135_000_000)))[5], "0.14");
}
