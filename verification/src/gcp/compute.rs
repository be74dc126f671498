//! Compute Engine resources: instances, disks, snapshots and images.

use vstd::prelude::*;
use crate::gcp::parse::{
    add_labels_at, add_labels_from, count_at, float_json, float_value, read_size, size_at, size_json,
    size_value, gcp_resource, id_and_name,
    insert_tag, labels_at, opt_str_at, read_count, read_id_name, str_at, str_at_or, str_or,
    tag_insert,
};
use crate::gcp::pricing::{
    disk_cost, estimate_disk_cost, estimate_storage_cost, estimate_vm_cost, storage_cost, vm_cost,
    IMAGE_PER_GIB, SNAPSHOT_PER_GIB,
};
use crate::json::{jarr, jget, jstr, jv_entries, put, Json, JsonV};
use crate::provider::{opt_resource_view, pairs_view, CloudResource, ProviderKind, ResourceType, ResourceV};
use crate::text::{
    after_last, before_first, find_from, find_str, first_segment, last_segment, lemma_find_from_found,
};

verus! {

/// The machine type of an instance: the last part of its `machineType` URL.
pub open spec fn instance_machine_type(v: JsonV) -> Seq<char> {
    after_last(str_or(v, "machineType"@, ""@), '/')
}

/// What is kept of an instance besides its common fields.
pub open spec fn instance_metadata(v: JsonV, zone: Seq<char>) -> JsonV {
    JsonV::Object(
        Seq::empty().push(("machine_type"@, JsonV::Str(instance_machine_type(v)))).push(
            ("zone"@, JsonV::Str(zone)),
        ).push(("self_link"@, jget(v, "selfLink"@))).push(
            ("network_interfaces"@, jget(v, "networkInterfaces"@)),
        ).push(("disks"@, jget(v, "disks"@))).push(("can_ip_forward"@, jget(v, "canIpForward"@))).push(
            ("scheduling"@, jget(v, "scheduling"@)),
        ),
    )
}

/// A VM instance of an aggregated list, found in `zone`; objects without an id or a
/// name are skipped.
pub open spec fn instance_resource(v: JsonV, zone: Seq<char>, project: Seq<char>) -> Option<
    ResourceV,
> {
    match id_and_name(v) {
        Some((id, name)) => Some(
            gcp_resource(
                id,
                name,
                ResourceType::VirtualMachine,
                zone,
                project,
                str_or(v, "status"@, "UNKNOWN"@),
                str_at(v, "creationTimestamp"@),
                None,
                add_labels_at(Seq::empty(), v, "labels"@),
                instance_metadata(v, zone),
                vm_cost(instance_machine_type(v)),
            ),
        ),
        None => None,
    }
}

/// Reads a VM instance.
pub fn parse_instance(v: &Json, zone: &str, project: &str) -> (r: Option<CloudResource>)
    ensures
        opt_resource_view(r) == instance_resource(v@, zone@, project@),
{
    let (id, name) = match read_id_name(v) {
        Some(p) => p,
        None => return None,
    };
    let machine_type = str_at_or(v, "machineType", "");
    let short = last_segment(machine_type.as_str(), '/');
    let mut m: Vec<(String, Json)> = Vec::new();
    assert(jv_entries(m@) =~= Seq::empty());
    put(&mut m, "machine_type", Json::string(short.as_str()));
    put(&mut m, "zone", Json::string(zone));
    put(&mut m, "self_link", v.field("selfLink"));
    put(&mut m, "network_interfaces", v.field("networkInterfaces"));
    put(&mut m, "disks", v.field("disks"));
    put(&mut m, "can_ip_forward", v.field("canIpForward"));
    put(&mut m, "scheduling", v.field("scheduling"));
    let cost = estimate_vm_cost(short.as_str());
    Some(
        CloudResource {
            id,
            name,
            resource_type: ResourceType::VirtualMachine,
            provider: ProviderKind::Gcp,
            region: String::from_str(zone),
            account_id: String::from_str(project),
            status: str_at_or(v, "status", "UNKNOWN"),
            created_at: opt_str_at(v, "creationTimestamp"),
            last_used: None,
            tags: labels_at(v, "labels"),
            metadata: Json::object(m),
            monthly_cost: cost,
        },
    )
}

/// The disk type: the last part of its `type` URL.
pub open spec fn disk_type(v: JsonV) -> Seq<char> {
    after_last(str_or(v, "type"@, ""@), '/')
}

/// A disk is attached when its `users` list is non-empty.
pub open spec fn disk_attached(v: JsonV) -> bool {
    match jarr(jget(v, "users"@)) {
        Some(u) => u.len() > 0,
        None => false,
    }
}

/// What is kept of a disk besides its common fields.
pub open spec fn disk_metadata(v: JsonV, zone: Seq<char>) -> JsonV {
    JsonV::Object(
        Seq::empty().push(("disk_type"@, JsonV::Str(disk_type(v)))).push(
            ("size_gb"@, size_json(size_at(v, "sizeGb"@))),
        ).push(("zone"@, JsonV::Str(zone))).push(("self_link"@, jget(v, "selfLink"@))).push(
            ("users"@, jget(v, "users"@)),
        ).push(("source_image"@, jget(v, "sourceImage"@))).push(
            ("source_snapshot"@, jget(v, "sourceSnapshot"@)),
        ).push(("physical_block_size_bytes"@, jget(v, "physicalBlockSizeBytes"@))),
    )
}

/// A persistent disk of an aggregated list, found in `zone`.
pub open spec fn disk_resource(v: JsonV, zone: Seq<char>, project: Seq<char>) -> Option<ResourceV> {
    match id_and_name(v) {
        Some((id, name)) => Some(
            gcp_resource(
                id,
                name,
                ResourceType::Disk,
                zone,
                project,
                if disk_attached(v) {
                    "ATTACHED"@
                } else {
                    "UNATTACHED"@
                },
                str_at(v, "creationTimestamp"@),
                None,
                add_labels_at(Seq::empty(), v, "labels"@),
                disk_metadata(v, zone),
                disk_cost(disk_type(v), size_at(v, "sizeGb"@)),
            ),
        ),
        None => None,
    }
}

/// Reads a persistent disk.
pub fn parse_disk(v: &Json, zone: &str, project: &str) -> (r: Option<CloudResource>)
    ensures
        opt_resource_view(r) == disk_resource(v@, zone@, project@),
{
    let (id, name) = match read_id_name(v) {
        Some(p) => p,
        None => return None,
    };
    let size_gb = read_size(v, "sizeGb");
    let full_type = str_at_or(v, "type", "");
    let short = last_segment(full_type.as_str(), '/');
    let attached = match v.get_array("users") {
        Some(u) => u.len() > 0,
        None => false,
    };
    let status = if attached {
        String::from_str("ATTACHED")
    } else {
        String::from_str("UNATTACHED")
    };
    let mut m: Vec<(String, Json)> = Vec::new();
    assert(jv_entries(m@) =~= Seq::empty());
    put(&mut m, "disk_type", Json::string(short.as_str()));
    put(&mut m, "size_gb", size_value(size_gb));
    put(&mut m, "zone", Json::string(zone));
    put(&mut m, "self_link", v.field("selfLink"));
    put(&mut m, "users", v.field("users"));
    put(&mut m, "source_image", v.field("sourceImage"));
    put(&mut m, "source_snapshot", v.field("sourceSnapshot"));
    put(&mut m, "physical_block_size_bytes", v.field("physicalBlockSizeBytes"));
    let cost = estimate_disk_cost(short.as_str(), size_gb);
    Some(
        CloudResource {
            id,
            name,
            resource_type: ResourceType::Disk,
            provider: ProviderKind::Gcp,
            region: String::from_str(zone),
            account_id: String::from_str(project),
            status,
            created_at: opt_str_at(v, "creationTimestamp"),
            last_used: None,
            tags: labels_at(v, "labels"),
            metadata: Json::object(m),
            monthly_cost: cost,
        },
    )
}

/// The zone of a snapshot's source disk: the path segment after `/zones/`, else `global`.
pub open spec fn snapshot_region(source_disk: Seq<char>) -> Seq<char> {
    match find_from(source_disk, "/zones/"@, 0) {
        Some(i) => before_first(source_disk.subrange(i + 7, source_disk.len() as int), '/'),
        None => "global"@,
    }
}

/// The zone of a snapshot's source disk.
pub fn source_disk_zone(source_disk: &str) -> (r: String)
    ensures
        r@ == snapshot_region(source_disk@),
{
    proof {
        reveal_strlit("/zones/");
        lemma_find_from_found(source_disk@, "/zones/"@, 0);
    }
    match find_str(source_disk, "/zones/") {
        Some(i) => {
            let n = source_disk.unicode_len();
            let rest = source_disk.substring_char(i + 7, n);
            first_segment(rest, '/')
        },
        None => String::from_str("global"),
    }
}

/// What is kept of a snapshot besides its common fields.
pub open spec fn snapshot_metadata(v: JsonV) -> JsonV {
    JsonV::Object(
        Seq::empty().push(("disk_size_gb"@, size_json(size_at(v, "diskSizeGb"@)))).push(
            ("storage_bytes"@, float_json(count_at(v, "storageBytes"@))),
        ).push(("source_disk"@, JsonV::Str(str_or(v, "sourceDisk"@, ""@)))).push(
            ("self_link"@, jget(v, "selfLink"@)),
        ).push(("storage_locations"@, jget(v, "storageLocations"@))),
    )
}

/// A disk snapshot, located in the zone of its source disk.
pub open spec fn snapshot_resource(v: JsonV, project: Seq<char>) -> Option<ResourceV> {
    match id_and_name(v) {
        Some((id, name)) => Some(
            gcp_resource(
                id,
                name,
                ResourceType::Snapshot,
                snapshot_region(str_or(v, "sourceDisk"@, ""@)),
                project,
                str_or(v, "status"@, "UNKNOWN"@),
                str_at(v, "creationTimestamp"@),
                None,
                add_labels_at(Seq::empty(), v, "labels"@),
                snapshot_metadata(v),
                storage_cost(count_at(v, "storageBytes"@), SNAPSHOT_PER_GIB),
            ),
        ),
        None => None,
    }
}

/// Reads a disk snapshot.
pub fn parse_snapshot(v: &Json, project: &str) -> (r: Option<CloudResource>)
    ensures
        opt_resource_view(r) == snapshot_resource(v@, project@),
{
    let (id, name) = match read_id_name(v) {
        Some(p) => p,
        None => return None,
    };
    let size_gb = read_size(v, "diskSizeGb");
    let storage_bytes = read_count(v, "storageBytes");
    let source_disk = str_at_or(v, "sourceDisk", "");
    let region = source_disk_zone(source_disk.as_str());
    let mut m: Vec<(String, Json)> = Vec::new();
    assert(jv_entries(m@) =~= Seq::empty());
    put(&mut m, "disk_size_gb", size_value(size_gb));
    put(&mut m, "storage_bytes", float_value(storage_bytes));
    put(&mut m, "source_disk", Json::string(source_disk.as_str()));
    put(&mut m, "self_link", v.field("selfLink"));
    put(&mut m, "storage_locations", v.field("storageLocations"));
    let cost = estimate_storage_cost(storage_bytes, SNAPSHOT_PER_GIB);
    Some(
        CloudResource {
            id,
            name,
            resource_type: ResourceType::Snapshot,
            provider: ProviderKind::Gcp,
            region,
            account_id: String::from_str(project),
            status: str_at_or(v, "status", "UNKNOWN"),
            created_at: opt_str_at(v, "creationTimestamp"),
            last_used: None,
            tags: labels_at(v, "labels"),
            metadata: Json::object(m),
            monthly_cost: cost,
        },
    )
}

/// The deprecation state of an image (`deprecated.state`), empty when there is none.
pub open spec fn image_deprecation(v: JsonV) -> Seq<char> {
    str_or(jget(v, "deprecated"@), "state"@, ""@)
}

/// An image's tags: its deprecation state when it has one, then its labels.
pub open spec fn image_tags(v: JsonV) -> Seq<(Seq<char>, Seq<char>)> {
    let first = if image_deprecation(v).len() > 0 {
        tag_insert(Seq::empty(), "deprecated"@, image_deprecation(v))
    } else {
        Seq::empty()
    };
    add_labels_at(first, v, "labels"@)
}

/// What is kept of an image besides its common fields.
pub open spec fn image_metadata(v: JsonV) -> JsonV {
    JsonV::Object(
        Seq::empty().push(("disk_size_gb"@, size_json(size_at(v, "diskSizeGb"@)))).push(
            ("archive_size_bytes"@, float_json(count_at(v, "archiveSizeBytes"@))),
        ).push(("self_link"@, jget(v, "selfLink"@))).push(("source_disk"@, jget(v, "sourceDisk"@))).push(
            ("source_type"@, jget(v, "sourceType"@)),
        ).push(("family"@, jget(v, "family"@))).push(("deprecated"@, jget(v, "deprecated"@))).push(
            ("storage_locations"@, jget(v, "storageLocations"@)),
        ),
    )
}

/// A machine image (global).
pub open spec fn image_resource(v: JsonV, project: Seq<char>) -> Option<ResourceV> {
    match id_and_name(v) {
        Some((id, name)) => Some(
            gcp_resource(
                id,
                name,
                ResourceType::MachineImage,
                "global"@,
                project,
                str_or(v, "status"@, "UNKNOWN"@),
                str_at(v, "creationTimestamp"@),
                None,
                image_tags(v),
                image_metadata(v),
                storage_cost(count_at(v, "archiveSizeBytes"@), IMAGE_PER_GIB),
            ),
        ),
        None => None,
    }
}

/// Reads a machine image.
pub fn parse_image(v: &Json, project: &str) -> (r: Option<CloudResource>)
    ensures
        opt_resource_view(r) == image_resource(v@, project@),
{
    let (id, name) = match read_id_name(v) {
        Some(p) => p,
        None => return None,
    };
    let disk_gb = read_size(v, "diskSizeGb");
    let archive_bytes = read_count(v, "archiveSizeBytes");
    let deprecated = match v.get("deprecated") {
        Some(d) => str_at_or(d, "state", ""),
        None => String::from_str(""),
    };
    proof {
        reveal_strlit("");
    }
    let mut tags: Vec<(String, String)> = Vec::new();
    assert(pairs_view(tags@) =~= Seq::<(Seq<char>, Seq<char>)>::empty());
    if deprecated.as_str().unicode_len() > 0 {
        insert_tag(&mut tags, "deprecated", deprecated.as_str());
    }
    add_labels_from(&mut tags, v, "labels");
    let mut m: Vec<(String, Json)> = Vec::new();
    assert(jv_entries(m@) =~= Seq::empty());
    put(&mut m, "disk_size_gb", size_value(disk_gb));
    put(&mut m, "archive_size_bytes", float_value(archive_bytes));
    put(&mut m, "self_link", v.field("selfLink"));
    put(&mut m, "source_disk", v.field("sourceDisk"));
    put(&mut m, "source_type", v.field("sourceType"));
    put(&mut m, "family", v.field("family"));
    put(&mut m, "deprecated", v.field("deprecated"));
    put(&mut m, "storage_locations", v.field("storageLocations"));
    let cost = estimate_storage_cost(archive_bytes, IMAGE_PER_GIB);
    Some(
        CloudResource {
            id,
            name,
            resource_type: ResourceType::MachineImage,
            provider: ProviderKind::Gcp,
            region: String::from_str("global"),
            account_id: String::from_str(project),
            status: str_at_or(v, "status", "UNKNOWN"),
            created_at: opt_str_at(v, "creationTimestamp"),
            last_used: None,
            tags,
            metadata: Json::object(m),
            monthly_cost: cost,
        },
    )
}


/// A VM instance with an id and a name is read in its zone with the status the API
/// reports (UNKNOWN without one), priced by its machine type (the last part of its
/// `machineType` URL).
pub proof fn law_instance_reading(v: JsonV, zone: Seq<char>, project: Seq<char>)
    ensures
        instance_resource(v, zone, project) is Some <==> id_and_name(v) is Some,
        instance_resource(v, zone, project) matches Some(r) ==> {
            &&& r.resource_type == ResourceType::VirtualMachine
            &&& r.region == zone
            &&& r.account_id == project
            &&& r.status == match jstr(jget(v, "status"@)) {
                Some(s) => s,
                None => "UNKNOWN"@,
            }
            &&& r.monthly_cost == vm_cost(after_last(str_or(v, "machineType"@, ""@), '/'))
        },
{
}

/// A disk is ATTACHED exactly when some instance uses it (its `users` list is not
/// empty) and UNATTACHED otherwise; it is priced by its type at its size in GB.
pub proof fn law_disk_attachment(v: JsonV, zone: Seq<char>, project: Seq<char>)
    ensures
        disk_resource(v, zone, project) is Some <==> id_and_name(v) is Some,
        disk_resource(v, zone, project) matches Some(r) ==> {
            &&& r.resource_type == ResourceType::Disk
            &&& r.region == zone
            &&& (r.status == "ATTACHED"@ <==> (jarr(jget(v, "users"@)) matches Some(u) && u.len() > 0))
            &&& (r.status == "UNATTACHED"@ <==> !(jarr(jget(v, "users"@)) matches Some(u) && u.len()
                > 0))
            &&& r.monthly_cost == disk_cost(
                after_last(str_or(v, "type"@, ""@), '/'),
                size_at(v, "sizeGb"@),
            )
        },
{
    reveal_strlit("ATTACHED");
    reveal_strlit("UNATTACHED");
    assert("ATTACHED"@.len() != "UNATTACHED"@.len());
}

/// A snapshot keeps the status the API reports and costs $0.026 per GiB it stores; an
/// image costs $0.05 per GiB of its archive; neither has a price when empty.
pub proof fn law_snapshot_and_image_storage(v: JsonV, project: Seq<char>)
    ensures
        snapshot_resource(v, project) matches Some(r) ==> r.resource_type == ResourceType::Snapshot
            && r.status == str_or(v, "status"@, "UNKNOWN"@) && r.monthly_cost == storage_cost(
            count_at(v, "storageBytes"@),
            26_000_000,
        ),
        image_resource(v, project) matches Some(r) ==> r.resource_type
            == ResourceType::MachineImage && r.region == "global"@ && r.status == str_or(
            v,
            "status"@,
            "UNKNOWN"@,
        ) && r.monthly_cost == storage_cost(count_at(v, "archiveSizeBytes"@), 50_000_000),
        storage_cost(0, 26_000_000) is None,
{
}

} // verus!
