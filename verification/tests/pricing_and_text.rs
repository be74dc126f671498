use r3x_cloud::gcp::pricing::{
    estimate_appengine_cost, estimate_artifact_cost, estimate_bigquery_cost, estimate_dataproc_cost,
    estimate_disk_cost, estimate_gke_cost, estimate_log_sink_cost, estimate_memorystore_cost,
    estimate_min_instances_cost, estimate_secret_cost, estimate_spanner_cost, estimate_sql_cost,
    estimate_storage_cost, estimate_vm_cost, vcpu_count, CLOUD_RUN_MIN_INSTANCE,
};
use r3x_cloud::gcp::parse::parse_decimal_nanos;
use r3x_cloud::json::Json;
use r3x_cloud::provider::{ProviderKind, ResourceType};
use r3x_cloud::text::{parse_u64, split_char, trim};

#[test]
fn vm_prices() {
    assert_eq!(estimate_vm_cost("e2-micro"), Some(7_670_000_000));
    assert_eq!(estimate_vm_cost("n2d-standard-4"), Some(124_380_000_000));
    assert_eq!(estimate_vm_cost("g1-small"), Some(15_330_000_000));
    assert_eq!(estimate_vm_cost("a2-highgpu-1g"), None);
}

#[test]
fn disk_prices_per_gb() {
    const GB: u64 = 1_000_000_000;
    assert_eq!(estimate_disk_cost("pd-standard", 100 * GB), Some(4_000_000_000));
    assert_eq!(estimate_disk_cost("pd-extreme", 8 * GB), Some(1_000_000_000));
    assert_eq!(estimate_disk_cost("pd-ssd", 10 * GB + GB / 2), Some(1_785_000_000));
    assert_eq!(estimate_disk_cost("hyperdisk-balanced", 0), Some(0));
    assert_eq!(estimate_disk_cost("pd-unknown", 10 * GB), None);
    assert_eq!(estimate_disk_cost("pd-ssd", u64::MAX), Some(3_135_946_492_530_623_774));
}

#[test]
fn sql_prices() {
    assert_eq!(estimate_sql_cost("db-f1-micro", 10_000_000_000, "ZONAL"), 9_370_000_000);
    assert_eq!(estimate_sql_cost("db-f1-micro", 10_500_000_000, "ZONAL"), 9_455_000_000);
    assert_eq!(estimate_sql_cost("db-custom-4-15360", 0, "REGIONAL"), 408_800_000_000);
    assert_eq!(estimate_sql_cost("db-unknown", 0, "ZONAL"), 51_100_000_000);
}

#[test]
fn dataproc_vcpus_and_prices() {
    assert_eq!(vcpu_count("n1-highmem-8"), 8_000_000_000);
    assert_eq!(vcpu_count("e2-medium"), 2_000_000_000);
    assert_eq!(vcpu_count("custom"), 2_000_000_000);
    assert_eq!(vcpu_count("custom-0.5"), 500_000_000);
    // 1 worker with half a vCPU: 50 + 0.5 * 7.30
    assert_eq!(estimate_dataproc_cost(0, "x", 1, "custom-0.5"), 53_650_000_000);
    // 2 workers of an unknown type: 2 * 50 + 2 * 2 vCPUs * 7.30
    assert_eq!(estimate_dataproc_cost(0, "x", 2, "weird-type"), 129_200_000_000);
    assert_eq!(estimate_dataproc_cost(0, "x", 0, "y"), 0);
}

#[test]
fn gke_spanner_memorystore_prices() {
    assert_eq!(estimate_gke_cost("e2-medium", 0), 72_000_000_000);
    assert_eq!(estimate_gke_cost("c2-standard-8", 2), 172_000_000_000);
    assert_eq!(estimate_spanner_cost(1, 0, false), 657_000_000_000);
    assert_eq!(estimate_spanner_cost(0, 1000, true), 1_971_000_000_000);
    assert_eq!(estimate_spanner_cost(0, 0, true), 0);
    assert_eq!(estimate_memorystore_cost("BASIC", 1_000_000_000), 35_280_000_000);
    assert_eq!(estimate_memorystore_cost("BASIC", 500_000_000), 17_640_000_000);
    assert_eq!(estimate_memorystore_cost("STANDARD_HA", -5), 0);
}

#[test]
fn storage_style_prices() {
    assert_eq!(estimate_bigquery_cost(0), 0);
    assert_eq!(estimate_bigquery_cost(1_073_741_824 * 50), 1_000_000_000);
    assert_eq!(estimate_artifact_cost(0), 0);
    assert_eq!(estimate_artifact_cost(1), 10_000_000);
    assert_eq!(estimate_storage_cost(0, 50_000_000), None);
    assert_eq!(estimate_storage_cost(1_073_741_824 * 3, 26_000_000), Some(78_000_000));
}

#[test]
fn flat_and_per_instance_prices() {
    assert_eq!(estimate_appengine_cost("B8"), 288_000_000_000);
    assert_eq!(estimate_appengine_cost("F4_1G"), 144_000_000_000);
    assert_eq!(estimate_appengine_cost("X9"), 36_000_000_000);
    assert_eq!(estimate_log_sink_cost("pubsub", ""), 5_400_000_000);
    assert_eq!(estimate_log_sink_cost("cloud_storage", "f"), 2_600_000_000);
    assert_eq!(estimate_log_sink_cost("logging_bucket", ""), 5_000_000_000);
    assert_eq!(estimate_secret_cost(0), 6_000_000);
    assert_eq!(estimate_secret_cost(10), 306_000_000);
    assert_eq!(estimate_min_instances_cost(3, CLOUD_RUN_MIN_INSTANCE), 45_000_000_000);
    assert_eq!(estimate_min_instances_cost(-1, CLOUD_RUN_MIN_INSTANCE), 0);
}

#[test]
fn text_helpers() {
    assert_eq!(trim("\t hello world \u{3000}\n"), "hello world");
    assert_eq!(trim("   "), "");
    assert_eq!(parse_u64("+42"), Some(42));
    assert_eq!(parse_u64("18446744073709551615"), Some(u64::MAX));
    assert_eq!(parse_u64("18446744073709551616"), None);
    assert_eq!(parse_u64("1.5"), None);
    assert_eq!(parse_u64(""), None);
    assert_eq!(split_char("a//b", '/'), vec!["a".to_string(), "".to_string(), "b".to_string()]);
}

#[test]
fn type_and_provider_names_round_trip() {
    let all = [
        ResourceType::VirtualMachine,
        ResourceType::BigQueryDataset,
        ResourceType::PubSubSubscription,
        ResourceType::SpannerInstance,
    ];
    for t in all {
        assert_eq!(ResourceType::from_name(t.name()), Some(t));
        assert_eq!(ResourceType::from_stored(&t.stored_name()), t);
    }
    assert_eq!(ResourceType::BigQueryDataset.name(), "big_query_dataset");
    assert_eq!(ResourceType::from_stored("\"nonsense\""), ResourceType::VirtualMachine);
    for p in [ProviderKind::Gcp, ProviderKind::Aws, ProviderKind::Azure] {
        assert_eq!(ProviderKind::from_name(p.as_str()), p);
    }
    assert_eq!(ProviderKind::from_name("oracle"), ProviderKind::Gcp);
    let _ = Json::Null;
}

#[test]
fn price_list_agrees_with_the_estimators() {
    let list = r3x_cloud::cost::get_pricing_data();
    let mut vms = 0;
    let mut disks = 0;
    for e in &list {
        assert_eq!(e.region, "us-central1");
        if e.resource_type == "virtual_machine" {
            assert_eq!(estimate_vm_cost(&e.sku), Some(e.price_per_unit));
            vms += 1;
        }
        if e.resource_type == "disk" {
            assert_eq!(estimate_disk_cost(&e.sku, 1_000_000_000), Some(e.price_per_unit));
            disks += 1;
        }
    }
    assert_eq!((vms, disks), (20, 5));
    let price = |t: &str, sku: &str| list.iter().find(|e| e.resource_type == t && e.sku == sku).unwrap().price_per_unit;
    assert_eq!(price("load_balancer", "forwarding-rule"), 18_260_000_000);
    assert_eq!(price("elastic_ip", "unused-ip"), 7_300_000_000);
}

#[test]
fn decimal_sizes_read_as_billionths() {
    assert_eq!(parse_decimal_nanos("200"), Some(200_000_000_000));
    assert_eq!(parse_decimal_nanos("10.5"), Some(10_500_000_000));
    assert_eq!(parse_decimal_nanos("+0.25"), Some(250_000_000));
    assert_eq!(parse_decimal_nanos(".5"), Some(500_000_000));
    assert_eq!(parse_decimal_nanos("7."), Some(7_000_000_000));
    assert_eq!(parse_decimal_nanos("1.1234567891"), Some(1_123_456_789));
    assert_eq!(parse_decimal_nanos("99999999999"), Some(u64::MAX));
    assert_eq!(parse_decimal_nanos(""), None);
    assert_eq!(parse_decimal_nanos("."), None);
    assert_eq!(parse_decimal_nanos("1.2.3"), None);
    assert_eq!(parse_decimal_nanos("12GB"), None);
}
