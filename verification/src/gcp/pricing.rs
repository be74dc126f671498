//! Monthly cost estimates for GCP resources (on-demand list prices, us-central1).
//!
//! Every amount is in billionths of a US dollar. Rates are exact in that unit, so an
//! estimate is the exact product, rounded down where a division by 2^30 (bytes to GiB)
//! or by 100 is involved, and saturated at the largest `u64`.

use vstd::prelude::*;
use crate::gcp::parse::{decimal_nanos, parse_decimal_nanos};
use crate::text::{after_last, last_segment, str_eq};

verus! {

/// Bytes in a GiB.
pub const GIB: u64 = 1_073_741_824;

/// A non-negative amount, saturated at the largest `u64` (negative amounts become 0).
pub open spec fn cap(x: int) -> u64 {
    if x <= 0 {
        0
    } else if x <= u64::MAX {
        x as u64
    } else {
        u64::MAX
    }
}

/// `a * b`, saturated.
pub fn mul_cap(a: u64, b: u64) -> (r: u64)
    ensures
        r == cap(a * b),
{
    proof {
        assert(a * b >= 0) by (nonlinear_arith)
            requires
                a >= 0,
                b >= 0,
        ;
    }
    match a.checked_mul(b) {
        Some(p) => p,
        None => u64::MAX,
    }
}

/// `a + b`, saturated.
pub fn add_cap(a: u64, b: u64) -> (r: u64)
    ensures
        r == cap(a + b),
{
    a.saturating_add(b)
}

pub proof fn lemma_cap_add(x: int, y: int)
    requires
        x >= 0,
        y >= 0,
    ensures
        cap(cap(x) + cap(y)) == cap(x + y),
{
}

pub proof fn lemma_cap_mul(x: int, b: int)
    requires
        x >= 0,
        b >= 0,
    ensures
        cap(cap(x) * b) == cap(x * b),
{
    if x > u64::MAX && b >= 1 {
        assert(u64::MAX * b >= u64::MAX) by (nonlinear_arith)
            requires
                b >= 1,
        ;
        assert(x * b > u64::MAX) by (nonlinear_arith)
            requires
                b >= 1,
                x > u64::MAX,
        ;
    }
    if b == 0 {
        assert(x * b == 0);
        assert(cap(x) * b == 0);
    }
}

/// `bytes / 2^30 * rate`, for a rate per GiB, rounded down.
pub open spec fn per_gib(bytes: u64, rate: u64) -> u64 {
    (bytes * rate / (GIB as int)) as u64
}

/// The cost of `bytes` at `rate` per GiB.
pub fn cost_per_gib(bytes: u64, rate: u64) -> (r: u64)
    requires
        rate <= GIB,
    ensures
        r == per_gib(bytes, rate),
{
    proof {
        assert(bytes * rate <= u64::MAX * GIB) by (nonlinear_arith)
            requires
                rate <= GIB,
                bytes <= u64::MAX,
                bytes >= 0,
                rate >= 0,
        ;
    }
    let p: u128 = (bytes as u128) * (rate as u128);
    proof {
        assert(bytes * rate <= bytes * GIB) by (nonlinear_arith)
            requires
                rate <= GIB,
                bytes >= 0,
        ;
        assert(bytes * rate / (GIB as int) <= bytes) by (nonlinear_arith)
            requires
                bytes * rate <= bytes * GIB,
                bytes >= 0,
                rate >= 0,
        ;
        assert(bytes * rate / (GIB as int) >= 0) by (nonlinear_arith)
            requires
                bytes >= 0,
                rate >= 0,
        ;
    }
    (p / (GIB as u128)) as u64
}

/// Machine types with a known on-demand monthly price.
pub open spec fn vm_cost(t: Seq<char>) -> Option<u64> {
    if t == "e2-micro"@ {
        Some(7_670_000_000)
    } else if t == "e2-small"@ {
        Some(15_330_000_000)
    } else if t == "e2-medium"@ {
        Some(30_670_000_000)
    } else if t == "e2-standard-2"@ {
        Some(61_340_000_000)
    } else if t == "e2-standard-4"@ {
        Some(122_670_000_000)
    } else if t == "e2-standard-8"@ {
        Some(245_350_000_000)
    } else if t == "e2-standard-16"@ {
        Some(490_690_000_000)
    } else if t == "e2-standard-32"@ {
        Some(981_380_000_000)
    } else if t == "e2-highmem-2"@ {
        Some(82_770_000_000)
    } else if t == "e2-highmem-4"@ {
        Some(165_540_000_000)
    } else if t == "e2-highmem-8"@ {
        Some(331_090_000_000)
    } else if t == "e2-highcpu-2"@ {
        Some(45_630_000_000)
    } else if t == "e2-highcpu-4"@ {
        Some(91_250_000_000)
    } else if t == "e2-highcpu-8"@ {
        Some(182_500_000_000)
    } else if t == "n1-standard-1"@ {
        Some(34_670_000_000)
    } else if t == "n1-standard-2"@ {
        Some(69_350_000_000)
    } else if t == "n1-standard-4"@ {
        Some(138_700_000_000)
    } else if t == "n1-standard-8"@ {
        Some(277_400_000_000)
    } else if t == "n2-standard-2"@ {
        Some(71_540_000_000)
    } else if t == "n2-standard-4"@ {
        Some(143_080_000_000)
    } else if t == "n2-standard-8"@ {
        Some(286_160_000_000)
    } else if t == "n2d-standard-2"@ {
        Some(62_190_000_000)
    } else if t == "n2d-standard-4"@ {
        Some(124_380_000_000)
    } else if t == "f1-micro"@ {
        Some(4_670_000_000)
    } else if t == "g1-small"@ {
        Some(15_330_000_000)
    } else {
        None
    }
}

/// The monthly price of a machine type, when known.
pub fn estimate_vm_cost(t: &str) -> (r: Option<u64>)
    ensures
        r == vm_cost(t@),
{
    if str_eq(t, "e2-micro") {
        Some(7_670_000_000)
    } else if str_eq(t, "e2-small") {
        Some(15_330_000_000)
    } else if str_eq(t, "e2-medium") {
        Some(30_670_000_000)
    } else if str_eq(t, "e2-standard-2") {
        Some(61_340_000_000)
    } else if str_eq(t, "e2-standard-4") {
        Some(122_670_000_000)
    } else if str_eq(t, "e2-standard-8") {
        Some(245_350_000_000)
    } else if str_eq(t, "e2-standard-16") {
        Some(490_690_000_000)
    } else if str_eq(t, "e2-standard-32") {
        Some(981_380_000_000)
    } else if str_eq(t, "e2-highmem-2") {
        Some(82_770_000_000)
    } else if str_eq(t, "e2-highmem-4") {
        Some(165_540_000_000)
    } else if str_eq(t, "e2-highmem-8") {
        Some(331_090_000_000)
    } else if str_eq(t, "e2-highcpu-2") {
        Some(45_630_000_000)
    } else if str_eq(t, "e2-highcpu-4") {
        Some(91_250_000_000)
    } else if str_eq(t, "e2-highcpu-8") {
        Some(182_500_000_000)
    } else if str_eq(t, "n1-standard-1") {
        Some(34_670_000_000)
    } else if str_eq(t, "n1-standard-2") {
        Some(69_350_000_000)
    } else if str_eq(t, "n1-standard-4") {
        Some(138_700_000_000)
    } else if str_eq(t, "n1-standard-8") {
        Some(277_400_000_000)
    } else if str_eq(t, "n2-standard-2") {
        Some(71_540_000_000)
    } else if str_eq(t, "n2-standard-4") {
        Some(143_080_000_000)
    } else if str_eq(t, "n2-standard-8") {
        Some(286_160_000_000)
    } else if str_eq(t, "n2d-standard-2") {
        Some(62_190_000_000)
    } else if str_eq(t, "n2d-standard-4") {
        Some(124_380_000_000)
    } else if str_eq(t, "f1-micro") {
        Some(4_670_000_000)
    } else if str_eq(t, "g1-small") {
        Some(15_330_000_000)
    } else {
        None
    }
}

/// The monthly price per GB of a persistent disk type, when known.
pub open spec fn disk_rate(t: Seq<char>) -> Option<u64> {
    if t == "pd-standard"@ {
        Some(40_000_000)
    } else if t == "pd-balanced"@ {
        Some(100_000_000)
    } else if t == "pd-ssd"@ {
        Some(170_000_000)
    } else if t == "pd-extreme"@ {
        Some(125_000_000)
    } else if t == "hyperdisk-balanced"@ {
        Some(60_000_000)
    } else {
        None
    }
}

/// A disk of a known type costs its rate per GB (the size given in billionths of a GB,
/// the cost rounded down to a billionth of a dollar); other types have no estimate.
pub open spec fn disk_cost(t: Seq<char>, size: u64) -> Option<u64> {
    match disk_rate(t) {
        Some(rate) => Some(cap(rate * size / 1_000_000_000)),
        None => None,
    }
}

/// The monthly cost of a disk of `size` billionths of a GB.
pub fn estimate_disk_cost(t: &str, size: u64) -> (r: Option<u64>)
    ensures
        r == disk_cost(t@, size),
{
    let rate: u64 = if str_eq(t, "pd-standard") {
        40_000_000
    } else if str_eq(t, "pd-balanced") {
        100_000_000
    } else if str_eq(t, "pd-ssd") {
        170_000_000
    } else if str_eq(t, "pd-extreme") {
        125_000_000
    } else if str_eq(t, "hyperdisk-balanced") {
        60_000_000
    } else {
        return None;
    };
    proof {
        assert(rate * size <= 170_000_000 * u64::MAX) by (nonlinear_arith)
            requires
                rate <= 170_000_000,
        ;
    }
    let p: u128 = (rate as u128) * (size as u128) / 1_000_000_000;
    if p > u64::MAX as u128 {
        Some(u64::MAX)
    } else {
        Some(p as u64)
    }
}

/// The monthly compute price of a Cloud SQL tier (unknown tiers priced as a small one).
pub open spec fn sql_tier_rate(tier: Seq<char>) -> u64 {
    if tier == "db-f1-micro"@ {
        7_670_000_000
    } else if tier == "db-g1-small"@ {
        25_550_000_000
    } else if tier == "db-n1-standard-1"@ || tier == "db-custom-1-3840"@ {
        51_100_000_000
    } else if tier == "db-n1-standard-2"@ || tier == "db-custom-2-7680"@ {
        102_200_000_000
    } else if tier == "db-n1-standard-4"@ || tier == "db-custom-4-15360"@ {
        204_400_000_000
    } else if tier == "db-n1-standard-8"@ || tier == "db-custom-8-30720"@ {
        408_800_000_000
    } else if tier == "db-n1-standard-16"@ || tier == "db-custom-16-61440"@ {
        817_600_000_000
    } else if tier == "db-n1-highmem-2"@ {
        138_700_000_000
    } else if tier == "db-n1-highmem-4"@ {
        277_400_000_000
    } else if tier == "db-n1-highmem-8"@ {
        554_800_000_000
    } else {
        51_100_000_000
    }
}

/// Compute (doubled for a REGIONAL, highly available instance) plus SSD storage per GB.
pub open spec fn sql_cost(tier: Seq<char>, disk: u64, availability: Seq<char>) -> u64 {
    let ha: int = if availability == "REGIONAL"@ {
        2
    } else {
        1
    };
    cap(sql_tier_rate(tier) * ha + disk * 170_000_000 / 1_000_000_000)
}

fn sql_rate(tier: &str) -> (r: u64)
    ensures
        r == sql_tier_rate(tier@),
{
    if str_eq(tier, "db-f1-micro") {
        7_670_000_000
    } else if str_eq(tier, "db-g1-small") {
        25_550_000_000
    } else if str_eq(tier, "db-n1-standard-1") || str_eq(tier, "db-custom-1-3840") {
        51_100_000_000
    } else if str_eq(tier, "db-n1-standard-2") || str_eq(tier, "db-custom-2-7680") {
        102_200_000_000
    } else if str_eq(tier, "db-n1-standard-4") || str_eq(tier, "db-custom-4-15360") {
        204_400_000_000
    } else if str_eq(tier, "db-n1-standard-8") || str_eq(tier, "db-custom-8-30720") {
        408_800_000_000
    } else if str_eq(tier, "db-n1-standard-16") || str_eq(tier, "db-custom-16-61440") {
        817_600_000_000
    } else if str_eq(tier, "db-n1-highmem-2") {
        138_700_000_000
    } else if str_eq(tier, "db-n1-highmem-4") {
        277_400_000_000
    } else if str_eq(tier, "db-n1-highmem-8") {
        554_800_000_000
    } else {
        51_100_000_000
    }
}

/// The monthly cost of a Cloud SQL instance.
pub fn estimate_sql_cost(tier: &str, disk: u64, availability: &str) -> (r: u64)
    ensures
        r == sql_cost(tier@, disk, availability@),
{
    let rate = sql_rate(tier);
    let compute: u64 = if str_eq(availability, "REGIONAL") {
        rate * 2
    } else {
        rate
    };
    proof {
        assert(disk * 170_000_000 / 1_000_000_000 <= u64::MAX) by (nonlinear_arith)
            requires
                disk <= u64::MAX,
        ;
        assert(disk * 170_000_000 >= 0) by (nonlinear_arith)
            requires
                disk >= 0,
        ;
    }
    let storage: u64 = ((disk as u128) * 170_000_000 / 1_000_000_000) as u64;
    proof {
        lemma_cap_add(compute as int, disk * 170_000_000 / 1_000_000_000);
    }
    add_cap(compute, storage)
}

/// The monthly price per node of a Dataproc machine type (unknown types at a baseline).
pub open spec fn dataproc_node_rate(t: Seq<char>) -> u64 {
    if t == "e2-standard-2"@ || t == "n1-standard-2"@ {
        50_000_000_000
    } else if t == "e2-standard-4"@ || t == "n1-standard-4"@ {
        100_000_000_000
    } else if t == "e2-standard-8"@ || t == "n1-standard-8"@ {
        200_000_000_000
    } else if t == "e2-standard-16"@ || t == "n1-standard-16"@ {
        400_000_000_000
    } else if t == "e2-standard-32"@ || t == "n1-standard-32"@ {
        800_000_000_000
    } else if t == "e2-highmem-2"@ || t == "n1-highmem-2"@ {
        68_000_000_000
    } else if t == "e2-highmem-4"@ || t == "n1-highmem-4"@ {
        136_000_000_000
    } else if t == "e2-highmem-8"@ || t == "n1-highmem-8"@ {
        272_000_000_000
    } else if t == "e2-highcpu-2"@ || t == "n1-highcpu-2"@ {
        37_000_000_000
    } else if t == "e2-highcpu-4"@ || t == "n1-highcpu-4"@ {
        74_000_000_000
    } else if t == "e2-highcpu-8"@ || t == "n1-highcpu-8"@ {
        148_000_000_000
    } else {
        50_000_000_000
    }
}

fn dataproc_rate(t: &str) -> (r: u64)
    ensures
        r == dataproc_node_rate(t@),
{
    if str_eq(t, "e2-standard-2") || str_eq(t, "n1-standard-2") {
        50_000_000_000
    } else if str_eq(t, "e2-standard-4") || str_eq(t, "n1-standard-4") {
        100_000_000_000
    } else if str_eq(t, "e2-standard-8") || str_eq(t, "n1-standard-8") {
        200_000_000_000
    } else if str_eq(t, "e2-standard-16") || str_eq(t, "n1-standard-16") {
        400_000_000_000
    } else if str_eq(t, "e2-standard-32") || str_eq(t, "n1-standard-32") {
        800_000_000_000
    } else if str_eq(t, "e2-highmem-2") || str_eq(t, "n1-highmem-2") {
        68_000_000_000
    } else if str_eq(t, "e2-highmem-4") || str_eq(t, "n1-highmem-4") {
        136_000_000_000
    } else if str_eq(t, "e2-highmem-8") || str_eq(t, "n1-highmem-8") {
        272_000_000_000
    } else if str_eq(t, "e2-highcpu-2") || str_eq(t, "n1-highcpu-2") {
        37_000_000_000
    } else if str_eq(t, "e2-highcpu-4") || str_eq(t, "n1-highcpu-4") {
        74_000_000_000
    } else if str_eq(t, "e2-highcpu-8") || str_eq(t, "n1-highcpu-8") {
        148_000_000_000
    } else {
        50_000_000_000
    }
}

/// The vCPUs of a machine type, in billionths: the decimal number after its last `-`,
/// else 2.
pub open spec fn machine_vcpus(t: Seq<char>) -> u64 {
    match decimal_nanos(after_last(t, '-')) {
        Some(n) => cap(n),
        None => 2_000_000_000,
    }
}

/// The vCPUs of a machine type, in billionths.
pub fn vcpu_count(t: &str) -> (r: u64)
    ensures
        r == machine_vcpus(t@),
{
    let last = last_segment(t, '-');
    match parse_decimal_nanos(last.as_str()) {
        Some(n) => n,
        None => 2_000_000_000,
    }
}

/// The Dataproc premium per vCPU per month: $0.01 an hour for 730 hours.
pub const DATAPROC_VCPU_MONTH: u64 = 7_300_000_000;

/// Node prices of masters and workers, plus the Dataproc premium on all their vCPUs
/// (counted in billionths, the premium rounded down to a billionth of a dollar).
pub open spec fn dataproc_cost(masters: u64, master_type: Seq<char>, workers: u64, worker_type: Seq<
    char,
>) -> u64 {
    cap(
        masters * dataproc_node_rate(master_type) + workers * dataproc_node_rate(worker_type) + (
        masters * machine_vcpus(master_type) + workers * machine_vcpus(worker_type))
            * DATAPROC_VCPU_MONTH / 1_000_000_000,
    )
}

proof fn lemma_cap_premium(x: int)
    requires
        x >= 0,
    ensures
        cap(cap(x) * DATAPROC_VCPU_MONTH / 1_000_000_000) == cap(
            x * DATAPROC_VCPU_MONTH / 1_000_000_000,
        ),
        x * DATAPROC_VCPU_MONTH / 1_000_000_000 >= 0,
{
    assert(x * DATAPROC_VCPU_MONTH >= 0) by (nonlinear_arith)
        requires
            x >= 0,
    ;
    if x > u64::MAX {
        assert(x * DATAPROC_VCPU_MONTH / 1_000_000_000 >= u64::MAX) by (nonlinear_arith)
            requires
                x > u64::MAX,
        ;
        assert(u64::MAX * DATAPROC_VCPU_MONTH / 1_000_000_000 >= u64::MAX) by (nonlinear_arith);
    }
}

/// The monthly cost of a Dataproc cluster.
pub fn estimate_dataproc_cost(masters: u64, master_type: &str, workers: u64, worker_type: &str) -> (r:
    u64)
    ensures
        r == dataproc_cost(masters, master_type@, workers, worker_type@),
{
    let rm = dataproc_rate(master_type);
    let rw = dataproc_rate(worker_type);
    let vm = vcpu_count(master_type);
    let vw = vcpu_count(worker_type);
    let a = mul_cap(masters, rm);
    let b = mul_cap(workers, rw);
    let c = mul_cap(masters, vm);
    let d = mul_cap(workers, vw);
    let cd = add_cap(c, d);
    let wide: u128 = (cd as u128) * (DATAPROC_VCPU_MONTH as u128) / 1_000_000_000;
    let prem: u64 = if wide > u64::MAX as u128 {
        u64::MAX
    } else {
        wide as u64
    };
    let ab = add_cap(a, b);
    let total = add_cap(ab, prem);
    proof {
        let xa = masters * rm;
        let xb = workers * rw;
        let xc = masters * vm;
        let xd = workers * vw;
        assert(xa >= 0 && xb >= 0 && xc >= 0 && xd >= 0) by (nonlinear_arith)
            requires
                xa == masters * rm,
                xb == workers * rw,
                xc == masters * vm,
                xd == workers * vw,
                masters >= 0,
                rm >= 0,
                workers >= 0,
                rw >= 0,
                vm >= 0,
                vw >= 0,
        ;
        lemma_cap_add(xc, xd);
        lemma_cap_premium(xc + xd);
        assert(cd * DATAPROC_VCPU_MONTH >= 0) by (nonlinear_arith)
            requires
                cd >= 0,
        ;
        assert(prem == cap(cd * DATAPROC_VCPU_MONTH / 1_000_000_000));
        lemma_cap_add(xa, xb);
        lemma_cap_add(xa + xb, (xc + xd) * DATAPROC_VCPU_MONTH / 1_000_000_000);
    }
    total
}

/// The monthly price per node of a GKE machine type (unknown types at a default).
pub open spec fn gke_node_rate(t: Seq<char>) -> u64 {
    if t == "e2-medium"@ {
        25_000_000_000
    } else if t == "e2-standard-2"@ {
        50_000_000_000
    } else if t == "e2-standard-4"@ {
        100_000_000_000
    } else if t == "e2-standard-8"@ {
        200_000_000_000
    } else if t == "e2-standard-16"@ {
        400_000_000_000
    } else if t == "n1-standard-1"@ {
        25_000_000_000
    } else if t == "n1-standard-2"@ {
        50_000_000_000
    } else if t == "n1-standard-4"@ {
        100_000_000_000
    } else if t == "n1-standard-8"@ {
        200_000_000_000
    } else if t == "n1-standard-16"@ {
        400_000_000_000
    } else if t == "n2-standard-2"@ {
        50_000_000_000
    } else if t == "n2-standard-4"@ {
        100_000_000_000
    } else if t == "n2-standard-8"@ {
        200_000_000_000
    } else if t == "n2-standard-16"@ {
        400_000_000_000
    } else {
        50_000_000_000
    }
}

fn gke_rate(t: &str) -> (r: u64)
    ensures
        r == gke_node_rate(t@),
{
    if str_eq(t, "e2-medium") {
        25_000_000_000
    } else if str_eq(t, "e2-standard-2") {
        50_000_000_000
    } else if str_eq(t, "e2-standard-4") {
        100_000_000_000
    } else if str_eq(t, "e2-standard-8") {
        200_000_000_000
    } else if str_eq(t, "e2-standard-16") {
        400_000_000_000
    } else if str_eq(t, "n1-standard-1") {
        25_000_000_000
    } else if str_eq(t, "n1-standard-2") {
        50_000_000_000
    } else if str_eq(t, "n1-standard-4") {
        100_000_000_000
    } else if str_eq(t, "n1-standard-8") {
        200_000_000_000
    } else if str_eq(t, "n1-standard-16") {
        400_000_000_000
    } else if str_eq(t, "n2-standard-2") {
        50_000_000_000
    } else if str_eq(t, "n2-standard-4") {
        100_000_000_000
    } else if str_eq(t, "n2-standard-8") {
        200_000_000_000
    } else if str_eq(t, "n2-standard-16") {
        400_000_000_000
    } else {
        50_000_000_000
    }
}

/// The GKE cluster management fee per month.
pub const GKE_MANAGEMENT_FEE: u64 = 72_000_000_000;

/// Nodes at their machine type's price, plus the management fee.
pub open spec fn gke_cost(machine_type: Seq<char>, nodes: u64) -> u64 {
    cap(gke_node_rate(machine_type) * nodes + GKE_MANAGEMENT_FEE)
}

/// The monthly cost of a GKE cluster.
pub fn estimate_gke_cost(machine_type: &str, nodes: u64) -> (r: u64)
    ensures
        r == gke_cost(machine_type@, nodes),
{
    let rate = gke_rate(machine_type);
    let n = mul_cap(rate, nodes);
    proof {
        assert(rate * nodes >= 0) by (nonlinear_arith)
            requires
                rate >= 0,
                nodes >= 0,
        ;
        lemma_cap_add(rate * nodes, GKE_MANAGEMENT_FEE as int);
    }
    add_cap(n, GKE_MANAGEMENT_FEE)
}

/// The monthly price per GB of a Memorystore tier, in hundredths of its dollar price per
/// GB (`STANDARD_HA` doubles the basic rate).
pub open spec fn memorystore_rate_cents(tier: Seq<char>) -> u64 {
    if tier == "STANDARD_HA"@ {
        7056
    } else {
        3528
    }
}

/// Memory size (in billionths of a GB) times the tier's price per GB, rounded down.
pub open spec fn memorystore_cost(tier: Seq<char>, size_nanos: int) -> u64 {
    if size_nanos <= 0 {
        0
    } else {
        cap(size_nanos * memorystore_rate_cents(tier) / 100)
    }
}

/// The monthly cost of a Memorystore instance of `size_nanos` billionths of a GB.
pub fn estimate_memorystore_cost(tier: &str, size_nanos: i128) -> (r: u64)
    ensures
        r == memorystore_cost(tier@, size_nanos as int),
{
    if size_nanos <= 0 {
        return 0;
    }
    let rate: i128 = if str_eq(tier, "STANDARD_HA") {
        7056
    } else {
        3528
    };
    assert(size_nanos * rate <= i128::MAX * 7056);
    let scaled = size_nanos.checked_mul(rate);
    match scaled {
        Some(p) => {
            let q = p / 100;
            proof {
                assert(q == size_nanos * rate / 100);
            }
            if q > u64::MAX as i128 {
                u64::MAX
            } else {
                q as u64
            }
        },
        None => {
            proof {
                assert(size_nanos * rate / 100 > u64::MAX) by (nonlinear_arith)
                    requires
                        size_nanos * rate > i128::MAX,
                ;
            }
            u64::MAX
        },
    }
}

/// The price of one Spanner node per month: $2.70 an hour multi-region, $0.90 otherwise,
/// for 730 hours.
pub open spec fn spanner_node_rate(multi_region: bool) -> u64 {
    if multi_region {
        1_971_000_000_000
    } else {
        657_000_000_000
    }
}

/// Nodes at the node price; without nodes, processing units at a thousandth of it; else 0.
pub open spec fn spanner_cost(nodes: u64, processing_units: u64, multi_region: bool) -> u64 {
    if nodes > 0 {
        cap(nodes * spanner_node_rate(multi_region))
    } else if processing_units > 0 {
        cap(processing_units * (spanner_node_rate(multi_region) / 1000))
    } else {
        0
    }
}

/// The monthly cost of a Spanner instance.
pub fn estimate_spanner_cost(nodes: u64, processing_units: u64, multi_region: bool) -> (r: u64)
    ensures
        r == spanner_cost(nodes, processing_units, multi_region),
{
    let rate: u64 = if multi_region {
        1_971_000_000_000
    } else {
        657_000_000_000
    };
    if nodes > 0 {
        mul_cap(nodes, rate)
    } else if processing_units > 0 {
        mul_cap(processing_units, rate / 1000)
    } else {
        0
    }
}

/// Active BigQuery storage: $0.02 per GiB.
pub open spec fn bigquery_cost(total_bytes: u64) -> u64 {
    per_gib(total_bytes, 20_000_000)
}

/// The monthly storage cost of a dataset of `total_bytes`.
pub fn estimate_bigquery_cost(total_bytes: u64) -> (r: u64)
    ensures
        r == bigquery_cost(total_bytes),
{
    cost_per_gib(total_bytes, 20_000_000)
}

/// $0.10 per GiB with a $0.01 minimum when anything is stored; nothing for an empty one.
pub open spec fn artifact_cost(size_bytes: u64) -> u64 {
    if size_bytes == 0 {
        0
    } else if per_gib(size_bytes, 100_000_000) < 10_000_000 {
        10_000_000
    } else {
        per_gib(size_bytes, 100_000_000)
    }
}

/// The monthly cost of an Artifact Registry repository of `size_bytes`.
pub fn estimate_artifact_cost(size_bytes: u64) -> (r: u64)
    ensures
        r == artifact_cost(size_bytes),
{
    if size_bytes == 0 {
        return 0;
    }
    let c = cost_per_gib(size_bytes, 100_000_000);
    if c < 10_000_000 {
        10_000_000
    } else {
        c
    }
}

/// The monthly price of an App Engine instance class (unknown classes as the smallest).
pub open spec fn appengine_cost(class: Seq<char>) -> u64 {
    if class == "F1"@ || class == "B1"@ {
        36_000_000_000
    } else if class == "F2"@ || class == "B2"@ {
        72_000_000_000
    } else if class == "F4"@ || class == "B4"@ || class == "F4_1G"@ || class == "B4_1G"@ {
        144_000_000_000
    } else if class == "B8"@ {
        288_000_000_000
    } else {
        36_000_000_000
    }
}

/// The monthly cost of an App Engine version.
pub fn estimate_appengine_cost(class: &str) -> (r: u64)
    ensures
        r == appengine_cost(class@),
{
    if str_eq(class, "F1") || str_eq(class, "B1") {
        36_000_000_000
    } else if str_eq(class, "F2") || str_eq(class, "B2") {
        72_000_000_000
    } else if str_eq(class, "F4") || str_eq(class, "B4") || str_eq(class, "F4_1G") || str_eq(
        class,
        "B4_1G",
    ) {
        144_000_000_000
    } else if str_eq(class, "B8") {
        288_000_000_000
    } else {
        36_000_000_000
    }
}

/// The delivery cost of 10 GB a month to a sink destination type.
pub open spec fn sink_destination_rate(destination: Seq<char>) -> u64 {
    if destination == "bigquery"@ {
        500_000_000
    } else if destination == "cloud_storage"@ {
        200_000_000
    } else if destination == "pubsub"@ {
        400_000_000
    } else {
        0
    }
}

/// Ingestion of an assumed 10 GB a month ($5) plus delivery, halved for a filtered sink.
pub open spec fn log_sink_cost(destination: Seq<char>, filter: Seq<char>) -> u64 {
    let full = 5_000_000_000 + sink_destination_rate(destination);
    if filter.len() == 0 {
        full as u64
    } else {
        (full / 2) as u64
    }
}

/// The monthly cost of a log sink.
pub fn estimate_log_sink_cost(destination: &str, filter: &str) -> (r: u64)
    ensures
        r == log_sink_cost(destination@, filter@),
{
    let delivery: u64 = if str_eq(destination, "bigquery") {
        500_000_000
    } else if str_eq(destination, "cloud_storage") {
        200_000_000
    } else if str_eq(destination, "pubsub") {
        400_000_000
    } else {
        0
    };
    let full = 5_000_000_000 + delivery;
    if filter.unicode_len() == 0 {
        full
    } else {
        full / 2
    }
}

/// $0.03 per active secret version plus $0.006 for an assumed 1,000 accesses.
pub open spec fn secret_cost(active: u64) -> u64 {
    cap(active * 30_000_000 + 6_000_000)
}

/// The monthly cost of a secret with `active` active versions.
pub fn estimate_secret_cost(active: u64) -> (r: u64)
    ensures
        r == secret_cost(active),
{
    let v = mul_cap(active, 30_000_000);
    proof {
        lemma_cap_add(active * 30_000_000, 6_000_000);
    }
    add_cap(v, 6_000_000)
}

/// Idle instances kept warm: `per_instance` each when positive, else nothing.
pub open spec fn min_instances_cost(min_instances: i64, per_instance: u64) -> u64 {
    if min_instances > 0 {
        cap(min_instances * per_instance)
    } else {
        0
    }
}

/// The monthly cost of `min_instances` warm instances.
pub fn estimate_min_instances_cost(min_instances: i64, per_instance: u64) -> (r: u64)
    ensures
        r == min_instances_cost(min_instances, per_instance),
{
    if min_instances > 0 {
        mul_cap(min_instances as u64, per_instance)
    } else {
        0
    }
}

/// A Cloud Run service's idle cost per minimum instance.
pub const CLOUD_RUN_MIN_INSTANCE: u64 = 15_000_000_000;

/// A Cloud Function's idle cost per minimum instance (256 MB).
pub const FUNCTION_MIN_INSTANCE: u64 = 5_400_000_000;

/// A reserved static IP that is not in use.
pub const RESERVED_ADDRESS: u64 = 7_300_000_000;

/// A forwarding rule's base price.
pub const FORWARDING_RULE: u64 = 18_260_000_000;

/// A Cloud NAT gateway: $0.044 an hour for 720 hours.
pub const NAT_GATEWAY: u64 = 31_680_000_000;

/// A VPN tunnel: $0.075 an hour for 720 hours.
pub const VPN_TUNNEL: u64 = 54_000_000_000;

/// Image storage per GiB.
pub const IMAGE_PER_GIB: u64 = 50_000_000;

/// Snapshot storage per GiB.
pub const SNAPSHOT_PER_GIB: u64 = 26_000_000;

/// Stored bytes at a rate per GiB; no estimate when nothing is stored.
pub open spec fn storage_cost(bytes: u64, rate: u64) -> Option<u64> {
    if bytes > 0 {
        Some(per_gib(bytes, rate))
    } else {
        None
    }
}

/// The monthly cost of storing `bytes` at `rate` per GiB.
pub fn estimate_storage_cost(bytes: u64, rate: u64) -> (r: Option<u64>)
    requires
        rate <= GIB,
    ensures
        r == storage_cost(bytes, rate),
{
    if bytes > 0 {
        Some(cost_per_gib(bytes, rate))
    } else {
        None
    }
}


/// What tells the disk types apart.
spec fn disk_type_prices_key(s: Seq<char>) -> (nat, char) {
    (s.len(), s[3])
}

proof fn lemma_disk_type_prices_keys()
    ensures
        disk_type_prices_key("pd-standard"@) == (11nat, 's'),
        disk_type_prices_key("pd-balanced"@) == (11nat, 'b'),
        disk_type_prices_key("pd-ssd"@) == (6nat, 's'),
        disk_type_prices_key("pd-extreme"@) == (10nat, 'e'),
        disk_type_prices_key("hyperdisk-balanced"@) == (18nat, 'e'),
{
    reveal_strlit("pd-standard");
    reveal_strlit("pd-balanced");
    reveal_strlit("pd-ssd");
    reveal_strlit("pd-extreme");
    reveal_strlit("hyperdisk-balanced");
}

/// The monthly price of each disk type the estimate knows, in billionths of a US dollar.
pub open spec fn disk_type_prices() -> Seq<(Seq<char>, u64)> {
    seq![
        ("pd-standard"@, 40_000_000u64),
        ("pd-balanced"@, 100_000_000u64),
        ("pd-ssd"@, 170_000_000u64),
        ("pd-extreme"@, 125_000_000u64),
        ("hyperdisk-balanced"@, 60_000_000u64),
    ]
}

/// The disk estimate knows each persistent disk type at its monthly price per GB.
pub proof fn law_disk_rates()
    ensures
        forall|i: int|
            0 <= i < disk_type_prices().len() ==> disk_rate(#[trigger] disk_type_prices()[i].0) == Some(disk_type_prices()[i].1),
{
    lemma_disk_type_prices_keys();
    assert forall|i: int| 0 <= i < disk_type_prices().len() implies disk_rate(#[trigger] disk_type_prices()[i].0) == Some(disk_type_prices()[i].1) by {}
}

/// What tells the Cloud SQL tiers apart.
spec fn sql_tier_prices_key(s: Seq<char>) -> (nat, char, char) {
    (s.len(), s[10], s[s.len() - 1])
}

proof fn lemma_sql_tier_prices_keys()
    ensures
        sql_tier_prices_key("db-f1-micro"@) == (11nat, 'o', 'o'),
        sql_tier_prices_key("db-g1-small"@) == (11nat, 'l', 'l'),
        sql_tier_prices_key("db-n1-standard-1"@) == (16nat, 'd', '1'),
        sql_tier_prices_key("db-custom-1-3840"@) == (16nat, '1', '0'),
        sql_tier_prices_key("db-n1-standard-2"@) == (16nat, 'd', '2'),
        sql_tier_prices_key("db-custom-2-7680"@) == (16nat, '2', '0'),
        sql_tier_prices_key("db-n1-standard-4"@) == (16nat, 'd', '4'),
        sql_tier_prices_key("db-custom-4-15360"@) == (17nat, '4', '0'),
        sql_tier_prices_key("db-n1-standard-8"@) == (16nat, 'd', '8'),
        sql_tier_prices_key("db-custom-8-30720"@) == (17nat, '8', '0'),
        sql_tier_prices_key("db-n1-standard-16"@) == (17nat, 'd', '6'),
        sql_tier_prices_key("db-custom-16-61440"@) == (18nat, '1', '0'),
        sql_tier_prices_key("db-n1-highmem-2"@) == (15nat, 'm', '2'),
        sql_tier_prices_key("db-n1-highmem-4"@) == (15nat, 'm', '4'),
        sql_tier_prices_key("db-n1-highmem-8"@) == (15nat, 'm', '8'),
{
    reveal_strlit("db-f1-micro");
    reveal_strlit("db-g1-small");
    reveal_strlit("db-n1-standard-1");
    reveal_strlit("db-custom-1-3840");
    reveal_strlit("db-n1-standard-2");
    reveal_strlit("db-custom-2-7680");
    reveal_strlit("db-n1-standard-4");
    reveal_strlit("db-custom-4-15360");
    reveal_strlit("db-n1-standard-8");
    reveal_strlit("db-custom-8-30720");
    reveal_strlit("db-n1-standard-16");
    reveal_strlit("db-custom-16-61440");
    reveal_strlit("db-n1-highmem-2");
    reveal_strlit("db-n1-highmem-4");
    reveal_strlit("db-n1-highmem-8");
}

/// The monthly price of each Cloud SQL tier the estimate knows, in billionths of a US dollar.
pub open spec fn sql_tier_prices() -> Seq<(Seq<char>, u64)> {
    seq![
        ("db-f1-micro"@, 7_670_000_000u64),
        ("db-g1-small"@, 25_550_000_000u64),
        ("db-n1-standard-1"@, 51_100_000_000u64),
        ("db-custom-1-3840"@, 51_100_000_000u64),
        ("db-n1-standard-2"@, 102_200_000_000u64),
        ("db-custom-2-7680"@, 102_200_000_000u64),
        ("db-n1-standard-4"@, 204_400_000_000u64),
        ("db-custom-4-15360"@, 204_400_000_000u64),
        ("db-n1-standard-8"@, 408_800_000_000u64),
        ("db-custom-8-30720"@, 408_800_000_000u64),
        ("db-n1-standard-16"@, 817_600_000_000u64),
        ("db-custom-16-61440"@, 817_600_000_000u64),
        ("db-n1-highmem-2"@, 138_700_000_000u64),
        ("db-n1-highmem-4"@, 277_400_000_000u64),
        ("db-n1-highmem-8"@, 554_800_000_000u64),
    ]
}

/// The Cloud SQL estimate prices each tier it knows at its monthly compute price (a custom tier as the standard tier of the same size).
pub proof fn law_sql_tier_rates()
    ensures
        forall|i: int|
            0 <= i < sql_tier_prices().len() ==> sql_tier_rate(#[trigger] sql_tier_prices()[i].0) == sql_tier_prices()[i].1,
{
    lemma_sql_tier_prices_keys();
    assert forall|i: int| 0 <= i < sql_tier_prices().len() implies sql_tier_rate(#[trigger] sql_tier_prices()[i].0) == sql_tier_prices()[i].1 by {}
}

/// What tells the Dataproc machine types apart.
spec fn dataproc_node_prices_key(s: Seq<char>) -> (nat, char, char, char) {
    (s.len(), s[0], s[7], s[s.len() - 1])
}

proof fn lemma_dataproc_node_prices_keys()
    ensures
        dataproc_node_prices_key("e2-standard-2"@) == (13nat, 'e', 'd', '2'),
        dataproc_node_prices_key("n1-standard-2"@) == (13nat, 'n', 'd', '2'),
        dataproc_node_prices_key("e2-standard-4"@) == (13nat, 'e', 'd', '4'),
        dataproc_node_prices_key("n1-standard-4"@) == (13nat, 'n', 'd', '4'),
        dataproc_node_prices_key("e2-standard-8"@) == (13nat, 'e', 'd', '8'),
        dataproc_node_prices_key("n1-standard-8"@) == (13nat, 'n', 'd', '8'),
        dataproc_node_prices_key("e2-standard-16"@) == (14nat, 'e', 'd', '6'),
        dataproc_node_prices_key("n1-standard-16"@) == (14nat, 'n', 'd', '6'),
        dataproc_node_prices_key("e2-standard-32"@) == (14nat, 'e', 'd', '2'),
        dataproc_node_prices_key("n1-standard-32"@) == (14nat, 'n', 'd', '2'),
        dataproc_node_prices_key("e2-highmem-2"@) == (12nat, 'e', 'm', '2'),
        dataproc_node_prices_key("n1-highmem-2"@) == (12nat, 'n', 'm', '2'),
        dataproc_node_prices_key("e2-highmem-4"@) == (12nat, 'e', 'm', '4'),
        dataproc_node_prices_key("n1-highmem-4"@) == (12nat, 'n', 'm', '4'),
        dataproc_node_prices_key("e2-highmem-8"@) == (12nat, 'e', 'm', '8'),
        dataproc_node_prices_key("n1-highmem-8"@) == (12nat, 'n', 'm', '8'),
        dataproc_node_prices_key("e2-highcpu-2"@) == (12nat, 'e', 'c', '2'),
        dataproc_node_prices_key("n1-highcpu-2"@) == (12nat, 'n', 'c', '2'),
        dataproc_node_prices_key("e2-highcpu-4"@) == (12nat, 'e', 'c', '4'),
        dataproc_node_prices_key("n1-highcpu-4"@) == (12nat, 'n', 'c', '4'),
        dataproc_node_prices_key("e2-highcpu-8"@) == (12nat, 'e', 'c', '8'),
        dataproc_node_prices_key("n1-highcpu-8"@) == (12nat, 'n', 'c', '8'),
{
    reveal_strlit("e2-standard-2");
    reveal_strlit("n1-standard-2");
    reveal_strlit("e2-standard-4");
    reveal_strlit("n1-standard-4");
    reveal_strlit("e2-standard-8");
    reveal_strlit("n1-standard-8");
    reveal_strlit("e2-standard-16");
    reveal_strlit("n1-standard-16");
    reveal_strlit("e2-standard-32");
    reveal_strlit("n1-standard-32");
    reveal_strlit("e2-highmem-2");
    reveal_strlit("n1-highmem-2");
    reveal_strlit("e2-highmem-4");
    reveal_strlit("n1-highmem-4");
    reveal_strlit("e2-highmem-8");
    reveal_strlit("n1-highmem-8");
    reveal_strlit("e2-highcpu-2");
    reveal_strlit("n1-highcpu-2");
    reveal_strlit("e2-highcpu-4");
    reveal_strlit("n1-highcpu-4");
    reveal_strlit("e2-highcpu-8");
    reveal_strlit("n1-highcpu-8");
}

/// The monthly price of each Dataproc machine type the estimate knows, in billionths of a US dollar.
pub open spec fn dataproc_node_prices() -> Seq<(Seq<char>, u64)> {
    seq![
        ("e2-standard-2"@, 50_000_000_000u64),
        ("n1-standard-2"@, 50_000_000_000u64),
        ("e2-standard-4"@, 100_000_000_000u64),
        ("n1-standard-4"@, 100_000_000_000u64),
        ("e2-standard-8"@, 200_000_000_000u64),
        ("n1-standard-8"@, 200_000_000_000u64),
        ("e2-standard-16"@, 400_000_000_000u64),
        ("n1-standard-16"@, 400_000_000_000u64),
        ("e2-standard-32"@, 800_000_000_000u64),
        ("n1-standard-32"@, 800_000_000_000u64),
        ("e2-highmem-2"@, 68_000_000_000u64),
        ("n1-highmem-2"@, 68_000_000_000u64),
        ("e2-highmem-4"@, 136_000_000_000u64),
        ("n1-highmem-4"@, 136_000_000_000u64),
        ("e2-highmem-8"@, 272_000_000_000u64),
        ("n1-highmem-8"@, 272_000_000_000u64),
        ("e2-highcpu-2"@, 37_000_000_000u64),
        ("n1-highcpu-2"@, 37_000_000_000u64),
        ("e2-highcpu-4"@, 74_000_000_000u64),
        ("n1-highcpu-4"@, 74_000_000_000u64),
        ("e2-highcpu-8"@, 148_000_000_000u64),
        ("n1-highcpu-8"@, 148_000_000_000u64),
    ]
}

/// The Dataproc estimate prices each machine type it knows at its monthly price per node.
pub proof fn law_dataproc_node_rates()
    ensures
        forall|i: int|
            0 <= i < dataproc_node_prices().len() ==> dataproc_node_rate(#[trigger] dataproc_node_prices()[i].0) == dataproc_node_prices()[i].1,
{
    lemma_dataproc_node_prices_keys();
    assert forall|i: int| 0 <= i < dataproc_node_prices().len() implies dataproc_node_rate(#[trigger] dataproc_node_prices()[i].0) == dataproc_node_prices()[i].1 by {}
}

/// What tells the GKE machine types apart.
spec fn gke_node_prices_key(s: Seq<char>) -> (nat, char, char, char) {
    (s.len(), s[0], s[1], s[s.len() - 1])
}

proof fn lemma_gke_node_prices_keys()
    ensures
        gke_node_prices_key("e2-medium"@) == (9nat, 'e', '2', 'm'),
        gke_node_prices_key("e2-standard-2"@) == (13nat, 'e', '2', '2'),
        gke_node_prices_key("e2-standard-4"@) == (13nat, 'e', '2', '4'),
        gke_node_prices_key("e2-standard-8"@) == (13nat, 'e', '2', '8'),
        gke_node_prices_key("e2-standard-16"@) == (14nat, 'e', '2', '6'),
        gke_node_prices_key("n1-standard-1"@) == (13nat, 'n', '1', '1'),
        gke_node_prices_key("n1-standard-2"@) == (13nat, 'n', '1', '2'),
        gke_node_prices_key("n1-standard-4"@) == (13nat, 'n', '1', '4'),
        gke_node_prices_key("n1-standard-8"@) == (13nat, 'n', '1', '8'),
        gke_node_prices_key("n1-standard-16"@) == (14nat, 'n', '1', '6'),
        gke_node_prices_key("n2-standard-2"@) == (13nat, 'n', '2', '2'),
        gke_node_prices_key("n2-standard-4"@) == (13nat, 'n', '2', '4'),
        gke_node_prices_key("n2-standard-8"@) == (13nat, 'n', '2', '8'),
        gke_node_prices_key("n2-standard-16"@) == (14nat, 'n', '2', '6'),
{
    reveal_strlit("e2-medium");
    reveal_strlit("e2-standard-2");
    reveal_strlit("e2-standard-4");
    reveal_strlit("e2-standard-8");
    reveal_strlit("e2-standard-16");
    reveal_strlit("n1-standard-1");
    reveal_strlit("n1-standard-2");
    reveal_strlit("n1-standard-4");
    reveal_strlit("n1-standard-8");
    reveal_strlit("n1-standard-16");
    reveal_strlit("n2-standard-2");
    reveal_strlit("n2-standard-4");
    reveal_strlit("n2-standard-8");
    reveal_strlit("n2-standard-16");
}

/// The monthly price of each GKE machine type the estimate knows, in billionths of a US dollar.
pub open spec fn gke_node_prices() -> Seq<(Seq<char>, u64)> {
    seq![
        ("e2-medium"@, 25_000_000_000u64),
        ("e2-standard-2"@, 50_000_000_000u64),
        ("e2-standard-4"@, 100_000_000_000u64),
        ("e2-standard-8"@, 200_000_000_000u64),
        ("e2-standard-16"@, 400_000_000_000u64),
        ("n1-standard-1"@, 25_000_000_000u64),
        ("n1-standard-2"@, 50_000_000_000u64),
        ("n1-standard-4"@, 100_000_000_000u64),
        ("n1-standard-8"@, 200_000_000_000u64),
        ("n1-standard-16"@, 400_000_000_000u64),
        ("n2-standard-2"@, 50_000_000_000u64),
        ("n2-standard-4"@, 100_000_000_000u64),
        ("n2-standard-8"@, 200_000_000_000u64),
        ("n2-standard-16"@, 400_000_000_000u64),
    ]
}

/// The GKE estimate prices each machine type it knows at its monthly price per node.
pub proof fn law_gke_node_rates()
    ensures
        forall|i: int|
            0 <= i < gke_node_prices().len() ==> gke_node_rate(#[trigger] gke_node_prices()[i].0) == gke_node_prices()[i].1,
{
    lemma_gke_node_prices_keys();
    assert forall|i: int| 0 <= i < gke_node_prices().len() implies gke_node_rate(#[trigger] gke_node_prices()[i].0) == gke_node_prices()[i].1 by {}
}

/// What tells the App Engine instance classs apart.
spec fn appengine_class_prices_key(s: Seq<char>) -> (nat, char, char) {
    (s.len(), s[0], s[1])
}

proof fn lemma_appengine_class_prices_keys()
    ensures
        appengine_class_prices_key("F1"@) == (2nat, 'F', '1'),
        appengine_class_prices_key("B1"@) == (2nat, 'B', '1'),
        appengine_class_prices_key("F2"@) == (2nat, 'F', '2'),
        appengine_class_prices_key("B2"@) == (2nat, 'B', '2'),
        appengine_class_prices_key("F4"@) == (2nat, 'F', '4'),
        appengine_class_prices_key("B4"@) == (2nat, 'B', '4'),
        appengine_class_prices_key("F4_1G"@) == (5nat, 'F', '4'),
        appengine_class_prices_key("B4_1G"@) == (5nat, 'B', '4'),
        appengine_class_prices_key("B8"@) == (2nat, 'B', '8'),
{
    reveal_strlit("F1");
    reveal_strlit("B1");
    reveal_strlit("F2");
    reveal_strlit("B2");
    reveal_strlit("F4");
    reveal_strlit("B4");
    reveal_strlit("F4_1G");
    reveal_strlit("B4_1G");
    reveal_strlit("B8");
}

/// The monthly price of each App Engine instance class the estimate knows, in billionths of a US dollar.
pub open spec fn appengine_class_prices() -> Seq<(Seq<char>, u64)> {
    seq![
        ("F1"@, 36_000_000_000u64),
        ("B1"@, 36_000_000_000u64),
        ("F2"@, 72_000_000_000u64),
        ("B2"@, 72_000_000_000u64),
        ("F4"@, 144_000_000_000u64),
        ("B4"@, 144_000_000_000u64),
        ("F4_1G"@, 144_000_000_000u64),
        ("B4_1G"@, 144_000_000_000u64),
        ("B8"@, 288_000_000_000u64),
    ]
}

/// The App Engine estimate prices each instance class it knows at its monthly price.
pub proof fn law_appengine_class_prices()
    ensures
        forall|i: int|
            0 <= i < appengine_class_prices().len() ==> appengine_cost(#[trigger] appengine_class_prices()[i].0) == appengine_class_prices()[i].1,
{
    lemma_appengine_class_prices_keys();
    assert forall|i: int| 0 <= i < appengine_class_prices().len() implies appengine_cost(#[trigger] appengine_class_prices()[i].0) == appengine_class_prices()[i].1 by {}
}

/// What tells the log sink destinations apart.
spec fn sink_destination_prices_key(s: Seq<char>) -> nat {
    s.len()
}

proof fn lemma_sink_destination_prices_keys()
    ensures
        sink_destination_prices_key("bigquery"@) == 8nat,
        sink_destination_prices_key("cloud_storage"@) == 13nat,
        sink_destination_prices_key("pubsub"@) == 6nat,
{
    reveal_strlit("bigquery");
    reveal_strlit("cloud_storage");
    reveal_strlit("pubsub");
}

/// The monthly price of each log sink destination the estimate knows, in billionths of a US dollar.
pub open spec fn sink_destination_prices() -> Seq<(Seq<char>, u64)> {
    seq![
        ("bigquery"@, 500_000_000u64),
        ("cloud_storage"@, 200_000_000u64),
        ("pubsub"@, 400_000_000u64),
    ]
}

/// A log sink costs $5 a month plus its destination's monthly delivery price.
pub proof fn law_sink_destination_rates()
    ensures
        forall|i: int|
            0 <= i < sink_destination_prices().len() ==> sink_destination_rate(#[trigger] sink_destination_prices()[i].0) == sink_destination_prices()[i].1,
{
    lemma_sink_destination_prices_keys();
    assert forall|i: int| 0 <= i < sink_destination_prices().len() implies sink_destination_rate(#[trigger] sink_destination_prices()[i].0) == sink_destination_prices()[i].1 by {}
}


/// A disk of a known type costs its price per GB for every whole GB.
pub proof fn law_disk_cost_per_whole_gb(t: Seq<char>, gb: u64)
    requires
        gb <= 1_000_000_000,
    ensures
        disk_rate(t) is None ==> disk_cost(t, (gb * 1_000_000_000) as u64) is None,
        disk_rate(t) matches Some(rate) ==> disk_cost(t, (gb * 1_000_000_000) as u64) == Some(
            (rate * gb) as u64,
        ),
{
    if let Some(rate) = disk_rate(t) {
        assert(rate <= 170_000_000);
        assert(rate * (gb * 1_000_000_000) / 1_000_000_000 == rate * gb) by (nonlinear_arith);
        assert(rate * gb <= 170_000_000 * 1_000_000_000) by (nonlinear_arith)
            requires
                rate <= 170_000_000,
                gb <= 1_000_000_000,
        ;
    }
}

/// A Cloud SQL instance pays its tier's compute price, twice over when it is REGIONAL
/// (highly available), and $0.17 per GB of storage.
pub proof fn law_sql_cost_parts(t: Seq<char>, gb: u64, availability: Seq<char>)
    requires
        gb <= 1_000_000_000,
    ensures
        sql_cost(t, (gb * 1_000_000_000) as u64, availability) == sql_tier_rate(t) * (if availability
            == "REGIONAL"@ {
            2int
        } else {
            1int
        }) + gb * 170_000_000,
        sql_cost(t, (gb * 1_000_000_000) as u64, "REGIONAL"@) == sql_cost(
            t,
            (gb * 1_000_000_000) as u64,
            "ZONAL"@,
        ) + sql_tier_rate(t),
{
    reveal_strlit("REGIONAL");
    reveal_strlit("ZONAL");
    assert("REGIONAL"@.len() != "ZONAL"@.len());
    assert(gb * 1_000_000_000 * 170_000_000 / 1_000_000_000 == gb * 170_000_000) by (nonlinear_arith);
    assert(gb * 170_000_000 <= 170_000_000_000_000_000) by (nonlinear_arith)
        requires
            gb <= 1_000_000_000,
    ;
    assert(sql_tier_rate(t) <= 817_600_000_000);
}

/// An empty GKE cluster pays the $72 management fee, and each node adds its machine
/// type's price.
pub proof fn law_gke_cost_per_node(t: Seq<char>, nodes: u64)
    requires
        nodes < 1_000_000,
    ensures
        gke_cost(t, 0) == 72_000_000_000,
        gke_cost(t, (nodes + 1) as u64) == gke_cost(t, nodes) + gke_node_rate(t),
{
    assert(gke_node_rate(t) <= 400_000_000_000);
    assert(gke_node_rate(t) * (nodes + 1) == gke_node_rate(t) * nodes + gke_node_rate(t)) by (nonlinear_arith);
    assert(gke_node_rate(t) * (nodes + 1) <= 400_000_000_000 * 1_000_000) by (nonlinear_arith)
        requires
            gke_node_rate(t) <= 400_000_000_000,
            nodes < 1_000_000,
    ;
    assert(gke_node_rate(t) * nodes >= 0) by (nonlinear_arith);
}

/// The price of a Dataproc cluster does not depend on which node group is called the
/// masters and which the workers.
pub proof fn law_dataproc_groups_symmetric(m: u64, mt: Seq<char>, w: u64, wt: Seq<char>)
    ensures
        dataproc_cost(m, mt, w, wt) == dataproc_cost(w, wt, m, mt),
{
}

/// A Memorystore instance costs $35.28 per GB a month, twice that in the STANDARD_HA
/// tier; nothing for no memory.
pub proof fn law_memorystore_cost_per_gb(tier: Seq<char>, gb: u64)
    requires
        gb <= 1_000_000,
    ensures
        memorystore_cost(tier, 0) == 0,
        memorystore_cost(tier, gb * 1_000_000_000) == gb * if tier == "STANDARD_HA"@ {
            70_560_000_000int
        } else {
            35_280_000_000int
        },
{
    let r = memorystore_rate_cents(tier) as int;
    assert(gb * 1_000_000_000 * r / 100 == gb * (r * 10_000_000)) by (nonlinear_arith)
        requires
            r == 7056 || r == 3528,
    ;
    assert(gb * (r * 10_000_000) <= 1_000_000 * 70_560_000_000) by (nonlinear_arith)
        requires
            r == 7056 || r == 3528,
            gb <= 1_000_000,
    ;
}

/// Spanner: 1,000 processing units cost as much as one node, and a multi-region
/// configuration costs three times a regional one.
pub proof fn law_spanner_units_and_regions(nodes: u64, units: u64, multi: bool)
    requires
        nodes < 1_000_000,
        units < 1_000_000_000,
    ensures
        spanner_cost(0, (nodes * 1000) as u64, multi) == spanner_cost(nodes, 0, multi),
        spanner_cost(nodes, units, true) == 3 * spanner_cost(nodes, units, false),
        spanner_cost(1, 0, false) == 657_000_000_000,
{
    assert(nodes * 1000 * 657_000_000 == nodes * 657_000_000_000) by (nonlinear_arith);
    assert(nodes * 1000 * 1_971_000_000 == nodes * 1_971_000_000_000) by (nonlinear_arith);
    assert(nodes * 1_971_000_000_000 <= 1_971_000_000_000_000_000) by (nonlinear_arith)
        requires
            nodes < 1_000_000,
    ;
    assert(units * 1_971_000_000 <= 1_971_000_000_000_000_000) by (nonlinear_arith)
        requires
            units < 1_000_000_000,
    ;
    assert(nodes * 1_971_000_000_000 == 3 * (nodes * 657_000_000_000)) by (nonlinear_arith);
    assert(units * 1_971_000_000 == 3 * (units * 657_000_000)) by (nonlinear_arith);
}

/// BigQuery storage costs $0.02 per GiB, Artifact Registry storage $0.10 per GiB with
/// $0.01 as the least a non-empty repository costs.
pub proof fn law_storage_prices_per_gib(gib: u64)
    requires
        1 <= gib <= 1_000_000,
    ensures
        bigquery_cost((gib * GIB) as u64) == gib * 20_000_000,
        artifact_cost((gib * GIB) as u64) == gib * 100_000_000,
        artifact_cost(0) == 0,
        forall|b: u64| 0 < b ==> artifact_cost(b) >= 10_000_000,
{
    assert(gib * GIB * 20_000_000 / (GIB as int) == gib * 20_000_000) by (nonlinear_arith);
    assert(gib * GIB * 100_000_000 / (GIB as int) == gib * 100_000_000) by (nonlinear_arith);
    assert(gib * GIB <= 1_000_000 * GIB) by (nonlinear_arith)
        requires
            gib <= 1_000_000,
    ;
    assert(gib * 100_000_000 >= 100_000_000) by (nonlinear_arith)
        requires
            gib >= 1,
    ;
}

/// A log sink costs $5 a month plus its destination's delivery price; a filter halves
/// it.
pub proof fn law_log_sink_filter_halves(destination: Seq<char>, filter: Seq<char>)
    ensures
        log_sink_cost(destination, Seq::empty()) == 5_000_000_000 + sink_destination_rate(
            destination,
        ),
        filter.len() > 0 ==> log_sink_cost(destination, filter) == log_sink_cost(
            destination,
            Seq::empty(),
        ) / 2,
{
}

/// A secret costs $0.03 a month per active version plus $0.006 of access.
pub proof fn law_secret_cost_per_active_version(active: u64)
    requires
        active < 1_000_000_000,
    ensures
        secret_cost(0) == 6_000_000,
        secret_cost((active + 1) as u64) == secret_cost(active) + 30_000_000,
{
}

/// Minimum instances kept warm cost their price each; none, or a negative count, cost
/// nothing.
pub proof fn law_min_instances_cost(count: i64, price: u64)
    requires
        count <= 1_000_000,
        price <= 1_000_000_000_000,
    ensures
        count <= 0 ==> min_instances_cost(count, price) == 0,
        count > 0 ==> min_instances_cost((count + 1) as i64, price) == min_instances_cost(count, price)
            + price,
{
    if count > 0 {
        assert((count + 1) * price == count * price + price) by (nonlinear_arith);
        assert((count + 1) * price <= 1_000_001 * 1_000_000_000_000) by (nonlinear_arith)
            requires
                count <= 1_000_000,
                price <= 1_000_000_000_000,
                count > 0,
        ;
        assert(count * price >= 0) by (nonlinear_arith)
            requires
                count > 0,
        ;
    }
}


/// Snapshot and image storage is priced per GiB stored: whole GiBs cost the rate each,
/// and nothing stored has no estimate.
pub proof fn law_storage_cost_per_gib(gib: u64, rate: u64)
    requires
        1 <= gib <= 1_000_000,
        rate <= GIB,
    ensures
        storage_cost((gib * GIB) as u64, rate) == Some((gib * rate) as u64),
        storage_cost(0, rate) is None,
{
    assert(gib * GIB * rate / (GIB as int) == gib * rate) by (nonlinear_arith);
    assert(gib * GIB <= 1_000_000 * GIB) by (nonlinear_arith)
        requires
            gib <= 1_000_000,
    ;
    assert(gib * GIB >= 1) by (nonlinear_arith)
        requires
            gib >= 1,
    ;
    assert(gib * rate <= 1_000_000 * GIB) by (nonlinear_arith)
        requires
            gib <= 1_000_000,
            rate <= GIB,
    ;
}


/// A Dataproc node costs its machine type's price plus the Dataproc premium of $7.30 a
/// month per vCPU (a vCPU count in billionths: `$0.0000000073` per billionth); no nodes
/// cost nothing.
pub proof fn law_dataproc_node_price(master: Seq<char>, t: Seq<char>)
    requires
        machine_vcpus(t) <= 1_000_000_000_000,
    ensures
        dataproc_cost(0, master, 1, t) == dataproc_node_rate(t) + machine_vcpus(t) * 73 / 10,
        dataproc_cost(0, master, 0, t) == 0,
{
    let v = machine_vcpus(t) as int;
    assert(v * 7_300_000_000 / 1_000_000_000 == v * 73 / 10) by (nonlinear_arith)
        requires
            v >= 0,
    ;
    assert(dataproc_node_rate(t) <= 800_000_000_000);
    assert(0 * dataproc_node_rate(t) == 0);
}

} // verus!
