//! The embedded price list of common GCP resources (on-demand, us-central1).

use vstd::prelude::*;
use crate::gcp::pricing::{disk_cost, vm_cost};

verus! {

/// One price of the list: a SKU of a resource type, its unit, and its price per unit in
/// billionths of a US dollar.
#[derive(Debug)]
pub struct PricingEntry {
    pub resource_type: String,
    pub sku: String,
    pub unit: String,
    pub price_per_unit: u64,
    pub region: String,
}

/// The value of a price: resource type, SKU, unit, price per unit and region.
pub open spec fn entry_view(e: PricingEntry) -> (Seq<char>, Seq<char>, Seq<char>, u64, Seq<char>) {
    (e.resource_type@, e.sku@, e.unit@, e.price_per_unit, e.region@)
}

/// The price list: resource type, SKU, unit and price per unit, in list order. Every
/// price is for us-central1.
pub open spec fn price_list() -> Seq<(Seq<char>, Seq<char>, Seq<char>, u64)> {
    seq![
        ("virtual_machine"@, "e2-micro"@, "instance/month"@, 7670000000u64),
        ("virtual_machine"@, "e2-small"@, "instance/month"@, 15330000000u64),
        ("virtual_machine"@, "e2-medium"@, "instance/month"@, 30670000000u64),
        ("virtual_machine"@, "e2-standard-2"@, "instance/month"@, 61340000000u64),
        ("virtual_machine"@, "e2-standard-4"@, "instance/month"@, 122670000000u64),
        ("virtual_machine"@, "e2-standard-8"@, "instance/month"@, 245350000000u64),
        ("virtual_machine"@, "e2-standard-16"@, "instance/month"@, 490690000000u64),
        ("virtual_machine"@, "e2-highmem-2"@, "instance/month"@, 82770000000u64),
        ("virtual_machine"@, "e2-highmem-4"@, "instance/month"@, 165540000000u64),
        ("virtual_machine"@, "e2-highcpu-2"@, "instance/month"@, 45630000000u64),
        ("virtual_machine"@, "e2-highcpu-4"@, "instance/month"@, 91250000000u64),
        ("virtual_machine"@, "n1-standard-1"@, "instance/month"@, 34670000000u64),
        ("virtual_machine"@, "n1-standard-2"@, "instance/month"@, 69350000000u64),
        ("virtual_machine"@, "n1-standard-4"@, "instance/month"@, 138700000000u64),
        ("virtual_machine"@, "n1-standard-8"@, "instance/month"@, 277400000000u64),
        ("virtual_machine"@, "n2-standard-2"@, "instance/month"@, 71540000000u64),
        ("virtual_machine"@, "n2-standard-4"@, "instance/month"@, 143080000000u64),
        ("virtual_machine"@, "n2-standard-8"@, "instance/month"@, 286160000000u64),
        ("virtual_machine"@, "n2d-standard-2"@, "instance/month"@, 62190000000u64),
        ("virtual_machine"@, "n2d-standard-4"@, "instance/month"@, 124380000000u64),
        ("disk"@, "pd-standard"@, "GB/month"@, 40000000u64),
        ("disk"@, "pd-balanced"@, "GB/month"@, 100000000u64),
        ("disk"@, "pd-ssd"@, "GB/month"@, 170000000u64),
        ("disk"@, "pd-extreme"@, "GB/month"@, 125000000u64),
        ("disk"@, "hyperdisk-balanced"@, "GB/month"@, 60000000u64),
        ("snapshot"@, "snapshot-storage"@, "GB/month"@, 26000000u64),
        ("elastic_ip"@, "unused-ip"@, "IP/month"@, 7300000000u64),
        ("elastic_ip"@, "in-use-ip"@, "IP/month"@, 0u64),
        ("load_balancer"@, "forwarding-rule"@, "rule/month"@, 18260000000u64),
        ("cloud_sql_instance"@, "db-f1-micro"@, "instance/month"@, 7670000000u64),
        ("cloud_sql_instance"@, "db-g1-small"@, "instance/month"@, 25550000000u64),
        ("cloud_sql_instance"@, "db-n1-standard-1"@, "instance/month"@, 51100000000u64),
        ("cloud_sql_instance"@, "db-n1-standard-2"@, "instance/month"@, 102200000000u64),
        ("cloud_sql_instance"@, "db-n1-standard-4"@, "instance/month"@, 204400000000u64),
        ("cloud_sql_instance"@, "db-n1-standard-8"@, "instance/month"@, 408800000000u64),
        ("cloud_sql_instance"@, "ssd-storage"@, "GB/month"@, 170000000u64),
        ("cloud_sql_instance"@, "hdd-storage"@, "GB/month"@, 90000000u64),
        ("storage_bucket"@, "STANDARD"@, "GB/month"@, 20000000u64),
        ("storage_bucket"@, "NEARLINE"@, "GB/month"@, 10000000u64),
        ("storage_bucket"@, "COLDLINE"@, "GB/month"@, 4000000u64),
        ("storage_bucket"@, "ARCHIVE"@, "GB/month"@, 1200000u64),
        ("serverless_function"@, "invocations"@, "per million"@, 400000000u64),
        ("serverless_function"@, "compute-128mb"@, "GB-seconds/month"@, 231u64),
        ("serverless_function"@, "min-instance"@, "instance/month"@, 5400000000u64),
        ("cloud_run_service"@, "cpu"@, "vCPU-second"@, 24000u64),
        ("cloud_run_service"@, "memory"@, "GiB-second"@, 2500u64),
        ("cloud_run_service"@, "min-instance"@, "instance/month"@, 15000000000u64),
    ]
}

fn entry(resource_type: &str, sku: &str, unit: &str, price: u64) -> (r: PricingEntry)
    ensures
        entry_view(r) == (resource_type@, sku@, unit@, price, "us-central1"@),
{
    PricingEntry {
        resource_type: String::from_str(resource_type),
        sku: String::from_str(sku),
        unit: String::from_str(unit),
        price_per_unit: price,
        region: String::from_str("us-central1"),
    }
}

/// The embedded price list.
pub fn get_pricing_data() -> (r: Vec<PricingEntry>)
    ensures
        r@.len() == price_list().len(),
        forall|i: int|
            0 <= i < r@.len() ==> entry_view(#[trigger] r@[i]) == (
                price_list()[i].0,
                price_list()[i].1,
                price_list()[i].2,
                price_list()[i].3,
                "us-central1"@,
            ),
{
    let r = vec![
        entry("virtual_machine", "e2-micro", "instance/month", 7670000000),
        entry("virtual_machine", "e2-small", "instance/month", 15330000000),
        entry("virtual_machine", "e2-medium", "instance/month", 30670000000),
        entry("virtual_machine", "e2-standard-2", "instance/month", 61340000000),
        entry("virtual_machine", "e2-standard-4", "instance/month", 122670000000),
        entry("virtual_machine", "e2-standard-8", "instance/month", 245350000000),
        entry("virtual_machine", "e2-standard-16", "instance/month", 490690000000),
        entry("virtual_machine", "e2-highmem-2", "instance/month", 82770000000),
        entry("virtual_machine", "e2-highmem-4", "instance/month", 165540000000),
        entry("virtual_machine", "e2-highcpu-2", "instance/month", 45630000000),
        entry("virtual_machine", "e2-highcpu-4", "instance/month", 91250000000),
        entry("virtual_machine", "n1-standard-1", "instance/month", 34670000000),
        entry("virtual_machine", "n1-standard-2", "instance/month", 69350000000),
        entry("virtual_machine", "n1-standard-4", "instance/month", 138700000000),
        entry("virtual_machine", "n1-standard-8", "instance/month", 277400000000),
        entry("virtual_machine", "n2-standard-2", "instance/month", 71540000000),
        entry("virtual_machine", "n2-standard-4", "instance/month", 143080000000),
        entry("virtual_machine", "n2-standard-8", "instance/month", 286160000000),
        entry("virtual_machine", "n2d-standard-2", "instance/month", 62190000000),
        entry("virtual_machine", "n2d-standard-4", "instance/month", 124380000000),
        entry("disk", "pd-standard", "GB/month", 40000000),
        entry("disk", "pd-balanced", "GB/month", 100000000),
        entry("disk", "pd-ssd", "GB/month", 170000000),
        entry("disk", "pd-extreme", "GB/month", 125000000),
        entry("disk", "hyperdisk-balanced", "GB/month", 60000000),
        entry("snapshot", "snapshot-storage", "GB/month", 26000000),
        entry("elastic_ip", "unused-ip", "IP/month", 7300000000),
        entry("elastic_ip", "in-use-ip", "IP/month", 0),
        entry("load_balancer", "forwarding-rule", "rule/month", 18260000000),
        entry("cloud_sql_instance", "db-f1-micro", "instance/month", 7670000000),
        entry("cloud_sql_instance", "db-g1-small", "instance/month", 25550000000),
        entry("cloud_sql_instance", "db-n1-standard-1", "instance/month", 51100000000),
        entry("cloud_sql_instance", "db-n1-standard-2", "instance/month", 102200000000),
        entry("cloud_sql_instance", "db-n1-standard-4", "instance/month", 204400000000),
        entry("cloud_sql_instance", "db-n1-standard-8", "instance/month", 408800000000),
        entry("cloud_sql_instance", "ssd-storage", "GB/month", 170000000),
        entry("cloud_sql_instance", "hdd-storage", "GB/month", 90000000),
        entry("storage_bucket", "STANDARD", "GB/month", 20000000),
        entry("storage_bucket", "NEARLINE", "GB/month", 10000000),
        entry("storage_bucket", "COLDLINE", "GB/month", 4000000),
        entry("storage_bucket", "ARCHIVE", "GB/month", 1200000),
        entry("serverless_function", "invocations", "per million", 400000000),
        entry("serverless_function", "compute-128mb", "GB-seconds/month", 231),
        entry("serverless_function", "min-instance", "instance/month", 5400000000),
        entry("cloud_run_service", "cpu", "vCPU-second", 24000),
        entry("cloud_run_service", "memory", "GiB-second", 2500),
        entry("cloud_run_service", "min-instance", "instance/month", 15000000000),
    ];
    assert(r@.len() == price_list().len());
    r
}

/// A price of the list agrees with the estimators: a machine type costs its VM
/// estimate, and a disk type's price is the estimate for one GB of it.
pub open spec fn agrees_with_estimates(e: (Seq<char>, Seq<char>, Seq<char>, u64)) -> bool {
    &&& e.0 == "virtual_machine"@ ==> vm_cost(e.1) == Some(e.3)
    &&& e.0 == "disk"@ ==> disk_cost(e.1, 1_000_000_000) == Some(e.3)
}

/// What tells the machine types apart: length, first, second and eighth character,
/// and last character.
spec fn sku_key(s: Seq<char>) -> (nat, char, char, char, char) {
    (s.len(), s[0], s[1], s[7], s[s.len() - 1])
}

/// What tells the disk types apart: length and fourth character.
spec fn disk_key(s: Seq<char>) -> (nat, char) {
    (s.len(), s[3])
}

/// What tells the resource type labels of the list apart: their length.
spec fn label_len(s: Seq<char>) -> nat {
    s.len()
}

proof fn lemma_machine_type_keys()
    ensures
        sku_key("e2-micro"@) == (8nat, 'e', '2', 'o', 'o'),
        sku_key("e2-small"@) == (8nat, 'e', '2', 'l', 'l'),
        sku_key("e2-medium"@) == (9nat, 'e', '2', 'u', 'm'),
        sku_key("e2-standard-2"@) == (13nat, 'e', '2', 'd', '2'),
        sku_key("e2-standard-4"@) == (13nat, 'e', '2', 'd', '4'),
        sku_key("e2-standard-8"@) == (13nat, 'e', '2', 'd', '8'),
        sku_key("e2-standard-16"@) == (14nat, 'e', '2', 'd', '6'),
        sku_key("e2-standard-32"@) == (14nat, 'e', '2', 'd', '2'),
        sku_key("e2-highmem-2"@) == (12nat, 'e', '2', 'm', '2'),
        sku_key("e2-highmem-4"@) == (12nat, 'e', '2', 'm', '4'),
        sku_key("e2-highmem-8"@) == (12nat, 'e', '2', 'm', '8'),
        sku_key("e2-highcpu-2"@) == (12nat, 'e', '2', 'c', '2'),
        sku_key("e2-highcpu-4"@) == (12nat, 'e', '2', 'c', '4'),
        sku_key("e2-highcpu-8"@) == (12nat, 'e', '2', 'c', '8'),
        sku_key("n1-standard-1"@) == (13nat, 'n', '1', 'd', '1'),
        sku_key("n1-standard-2"@) == (13nat, 'n', '1', 'd', '2'),
        sku_key("n1-standard-4"@) == (13nat, 'n', '1', 'd', '4'),
        sku_key("n1-standard-8"@) == (13nat, 'n', '1', 'd', '8'),
        sku_key("n2-standard-2"@) == (13nat, 'n', '2', 'd', '2'),
        sku_key("n2-standard-4"@) == (13nat, 'n', '2', 'd', '4'),
        sku_key("n2-standard-8"@) == (13nat, 'n', '2', 'd', '8'),
        sku_key("n2d-standard-2"@) == (14nat, 'n', '2', 'n', '2'),
        sku_key("n2d-standard-4"@) == (14nat, 'n', '2', 'n', '4'),
        sku_key("f1-micro"@) == (8nat, 'f', '1', 'o', 'o'),
        sku_key("g1-small"@) == (8nat, 'g', '1', 'l', 'l'),
{
    reveal_strlit("e2-micro");
    reveal_strlit("e2-small");
    reveal_strlit("e2-medium");
    reveal_strlit("e2-standard-2");
    reveal_strlit("e2-standard-4");
    reveal_strlit("e2-standard-8");
    reveal_strlit("e2-standard-16");
    reveal_strlit("e2-standard-32");
    reveal_strlit("e2-highmem-2");
    reveal_strlit("e2-highmem-4");
    reveal_strlit("e2-highmem-8");
    reveal_strlit("e2-highcpu-2");
    reveal_strlit("e2-highcpu-4");
    reveal_strlit("e2-highcpu-8");
    reveal_strlit("n1-standard-1");
    reveal_strlit("n1-standard-2");
    reveal_strlit("n1-standard-4");
    reveal_strlit("n1-standard-8");
    reveal_strlit("n2-standard-2");
    reveal_strlit("n2-standard-4");
    reveal_strlit("n2-standard-8");
    reveal_strlit("n2d-standard-2");
    reveal_strlit("n2d-standard-4");
    reveal_strlit("f1-micro");
    reveal_strlit("g1-small");
}

/// The price list agrees with the cost estimators: every machine type listed is priced
/// as the VM estimate for it, and every disk type listed as the estimate for one GB of it.
pub proof fn law_price_list_matches_estimates()
    ensures
        forall|i: int|
            0 <= i < price_list().len() ==> agrees_with_estimates(#[trigger] price_list()[i]),
{
    lemma_machine_type_keys();
    reveal_strlit("virtual_machine");
    assert(label_len("virtual_machine"@) == 15nat);
    reveal_strlit("disk");
    assert(label_len("disk"@) == 4nat);
    reveal_strlit("snapshot");
    assert(label_len("snapshot"@) == 8nat);
    reveal_strlit("elastic_ip");
    assert(label_len("elastic_ip"@) == 10nat);
    reveal_strlit("load_balancer");
    assert(label_len("load_balancer"@) == 13nat);
    reveal_strlit("cloud_sql_instance");
    assert(label_len("cloud_sql_instance"@) == 18nat);
    reveal_strlit("storage_bucket");
    assert(label_len("storage_bucket"@) == 14nat);
    reveal_strlit("serverless_function");
    assert(label_len("serverless_function"@) == 19nat);
    reveal_strlit("cloud_run_service");
    assert(label_len("cloud_run_service"@) == 17nat);
    reveal_strlit("pd-standard");
    assert(disk_key("pd-standard"@) == (11nat, 's'));
    reveal_strlit("pd-balanced");
    assert(disk_key("pd-balanced"@) == (11nat, 'b'));
    reveal_strlit("pd-ssd");
    assert(disk_key("pd-ssd"@) == (6nat, 's'));
    reveal_strlit("pd-extreme");
    assert(disk_key("pd-extreme"@) == (10nat, 'e'));
    reveal_strlit("hyperdisk-balanced");
    assert(disk_key("hyperdisk-balanced"@) == (18nat, 'e'));
    assert forall|i: int| 0 <= i < price_list().len() implies agrees_with_estimates(
        #[trigger] price_list()[i],
    ) by {}
}

/// The monthly on-demand price of each machine type that the VM estimate knows, in
/// billionths of a US dollar.
pub open spec fn machine_type_prices() -> Seq<(Seq<char>, u64)> {
    seq![
        ("e2-micro"@, 7670000000u64),
        ("e2-small"@, 15330000000u64),
        ("e2-medium"@, 30670000000u64),
        ("e2-standard-2"@, 61340000000u64),
        ("e2-standard-4"@, 122670000000u64),
        ("e2-standard-8"@, 245350000000u64),
        ("e2-standard-16"@, 490690000000u64),
        ("e2-standard-32"@, 981380000000u64),
        ("e2-highmem-2"@, 82770000000u64),
        ("e2-highmem-4"@, 165540000000u64),
        ("e2-highmem-8"@, 331090000000u64),
        ("e2-highcpu-2"@, 45630000000u64),
        ("e2-highcpu-4"@, 91250000000u64),
        ("e2-highcpu-8"@, 182500000000u64),
        ("n1-standard-1"@, 34670000000u64),
        ("n1-standard-2"@, 69350000000u64),
        ("n1-standard-4"@, 138700000000u64),
        ("n1-standard-8"@, 277400000000u64),
        ("n2-standard-2"@, 71540000000u64),
        ("n2-standard-4"@, 143080000000u64),
        ("n2-standard-8"@, 286160000000u64),
        ("n2d-standard-2"@, 62190000000u64),
        ("n2d-standard-4"@, 124380000000u64),
        ("f1-micro"@, 4670000000u64),
        ("g1-small"@, 15330000000u64),
    ]
}

/// The VM estimate prices every machine type it knows at that type's monthly price
/// (e2-highcpu-8 at $182.50, twice e2-highcpu-4).
pub proof fn law_vm_estimate_prices_machine_types()
    ensures
        forall|i: int|
            0 <= i < machine_type_prices().len() ==> vm_cost(#[trigger] machine_type_prices()[i].0)
                == Some(machine_type_prices()[i].1),
{
    lemma_machine_type_keys();
    assert forall|i: int| 0 <= i < machine_type_prices().len() implies vm_cost(
        #[trigger] machine_type_prices()[i].0,
    ) == Some(machine_type_prices()[i].1) by {}
}

} // verus!
