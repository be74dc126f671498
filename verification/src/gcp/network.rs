//! Networking resources: static addresses, firewall rules, forwarding rules, VPC
//! networks, Cloud NAT gateways and VPN tunnels.

use vstd::prelude::*;
use crate::gcp::parse::{
    add_labels_at, array_fields, array_strings, fields_in, gcp_resource, id_and_name, insert_tag,
    join_strings, join_with, labels_at, opt_str_at, read_id_name, str_at, str_at_or, str_or,
    strings_in, strings_view, tag_insert,
};
use crate::gcp::pricing::{FORWARDING_RULE, NAT_GATEWAY, RESERVED_ADDRESS, VPN_TUNNEL};
use crate::json::{jarr, jbool, jget, ji64, jv_entries, jv_seq, num_from_i64, put, Json, JsonNumber, JsonV};
use crate::provider::{opt_resource_view, pairs_view, CloudResource, ProviderKind, ResourceType, ResourceV};
use crate::text::{after_last, last_segment, str_eq};

verus! {

/// What is kept of a static address besides its common fields.
pub open spec fn address_metadata(v: JsonV, region: Seq<char>) -> JsonV {
    JsonV::Object(
        Seq::empty().push(("address"@, JsonV::Str(str_or(v, "address"@, ""@)))).push(
            ("address_type"@, JsonV::Str(str_or(v, "addressType"@, "EXTERNAL"@))),
        ).push(("region"@, JsonV::Str(region))).push(("self_link"@, jget(v, "selfLink"@))).push(
            ("users"@, jget(v, "users"@)),
        ).push(("network_tier"@, jget(v, "networkTier"@))),
    )
}

/// A static IP of an aggregated list, found in `region`; a RESERVED (unused) one costs
/// the idle address price.
pub open spec fn address_resource(v: JsonV, region: Seq<char>, project: Seq<char>) -> Option<
    ResourceV,
> {
    match id_and_name(v) {
        Some((id, name)) => {
            let status = str_or(v, "status"@, "UNKNOWN"@);
            Some(
                gcp_resource(
                    id,
                    name,
                    ResourceType::ElasticIp,
                    region,
                    project,
                    status,
                    str_at(v, "creationTimestamp"@),
                    None,
                    add_labels_at(Seq::empty(), v, "labels"@),
                    address_metadata(v, region),
                    Some(
                        if status == "RESERVED"@ {
                            RESERVED_ADDRESS
                        } else {
                            0
                        },
                    ),
                ),
            )
        },
        None => None,
    }
}

/// Reads a static IP address.
pub fn parse_address(v: &Json, region: &str, project: &str) -> (r: Option<CloudResource>)
    ensures
        opt_resource_view(r) == address_resource(v@, region@, project@),
{
    let (id, name) = match read_id_name(v) {
        Some(p) => p,
        None => return None,
    };
    let status = str_at_or(v, "status", "UNKNOWN");
    let mut m: Vec<(String, Json)> = Vec::new();
    assert(jv_entries(m@) =~= Seq::empty());
    put(&mut m, "address", Json::string(str_at_or(v, "address", "").as_str()));
    put(&mut m, "address_type", Json::string(str_at_or(v, "addressType", "EXTERNAL").as_str()));
    put(&mut m, "region", Json::string(region));
    put(&mut m, "self_link", v.field("selfLink"));
    put(&mut m, "users", v.field("users"));
    put(&mut m, "network_tier", v.field("networkTier"));
    let cost: u64 = if str_eq(status.as_str(), "RESERVED") {
        RESERVED_ADDRESS
    } else {
        0
    };
    Some(
        CloudResource {
            id,
            name,
            resource_type: ResourceType::ElasticIp,
            provider: ProviderKind::Gcp,
            region: String::from_str(region),
            account_id: String::from_str(project),
            status,
            created_at: opt_str_at(v, "creationTimestamp"),
            last_used: None,
            tags: labels_at(v, "labels"),
            metadata: Json::object(m),
            monthly_cost: Some(cost),
        },
    )
}

/// The network of a firewall rule: the last part of its `network` URL.
pub open spec fn firewall_network(v: JsonV) -> Seq<char> {
    after_last(str_or(v, "network"@, ""@), '/')
}

/// The target tags of a firewall rule joined with `, ` (empty without any).
pub open spec fn firewall_target_tags(v: JsonV) -> Seq<char> {
    match jarr(jget(v, "targetTags"@)) {
        Some(a) => join_with(strings_in(a), ", "@),
        None => ""@,
    }
}

/// A firewall rule's tags: its direction and network, and its target tags when it has any.
pub open spec fn firewall_tags(v: JsonV) -> Seq<(Seq<char>, Seq<char>)> {
    let t = tag_insert(
        tag_insert(Seq::empty(), "direction"@, str_or(v, "direction"@, "INGRESS"@)),
        "network"@,
        firewall_network(v),
    );
    if firewall_target_tags(v).len() > 0 {
        tag_insert(t, "target_tags"@, firewall_target_tags(v))
    } else {
        t
    }
}

/// What is kept of a firewall rule besides its common fields.
pub open spec fn firewall_metadata(v: JsonV) -> JsonV {
    JsonV::Object(
        Seq::empty().push(("direction"@, JsonV::Str(str_or(v, "direction"@, "INGRESS"@)))).push(
            ("network"@, JsonV::Str(firewall_network(v))),
        ).push(("priority"@, jget(v, "priority"@))).push(("self_link"@, jget(v, "selfLink"@))).push(
            ("allowed"@, jget(v, "allowed"@)),
        ).push(("denied"@, jget(v, "denied"@))).push(("source_ranges"@, jget(v, "sourceRanges"@))).push(
            ("destination_ranges"@, jget(v, "destinationRanges"@)),
        ).push(("target_tags"@, jget(v, "targetTags"@))).push(
            ("target_service_accounts"@, jget(v, "targetServiceAccounts"@)),
        ),
    )
}

/// A firewall rule (global, free); its status is DISABLED or ENABLED.
pub open spec fn firewall_resource(v: JsonV, project: Seq<char>) -> Option<ResourceV> {
    match id_and_name(v) {
        Some((id, name)) => Some(
            gcp_resource(
                id,
                name,
                ResourceType::SecurityGroup,
                "global"@,
                project,
                if jbool(jget(v, "disabled"@)) == Some(true) {
                    "DISABLED"@
                } else {
                    "ENABLED"@
                },
                str_at(v, "creationTimestamp"@),
                None,
                firewall_tags(v),
                firewall_metadata(v),
                Some(0),
            ),
        ),
        None => None,
    }
}

/// Reads a firewall rule.
pub fn parse_firewall(v: &Json, project: &str) -> (r: Option<CloudResource>)
    ensures
        opt_resource_view(r) == firewall_resource(v@, project@),
{
    let (id, name) = match read_id_name(v) {
        Some(p) => p,
        None => return None,
    };
    let direction = str_at_or(v, "direction", "INGRESS");
    let disabled = match v.get_bool("disabled") {
        Some(b) => b,
        None => false,
    };
    let status = if disabled {
        String::from_str("DISABLED")
    } else {
        String::from_str("ENABLED")
    };
    let network = str_at_or(v, "network", "");
    let network_short = last_segment(network.as_str(), '/');
    let target_tags = match v.get_array("targetTags") {
        Some(a) => join_strings(&array_strings(a), ", "),
        None => String::from_str(""),
    };
    let mut tags: Vec<(String, String)> = Vec::new();
    assert(pairs_view(tags@) =~= Seq::<(Seq<char>, Seq<char>)>::empty());
    insert_tag(&mut tags, "direction", direction.as_str());
    insert_tag(&mut tags, "network", network_short.as_str());
    proof {
        reveal_strlit("");
    }
    if target_tags.as_str().unicode_len() > 0 {
        insert_tag(&mut tags, "target_tags", target_tags.as_str());
    }
    let mut m: Vec<(String, Json)> = Vec::new();
    assert(jv_entries(m@) =~= Seq::empty());
    put(&mut m, "direction", Json::string(direction.as_str()));
    put(&mut m, "network", Json::string(network_short.as_str()));
    put(&mut m, "priority", v.field("priority"));
    put(&mut m, "self_link", v.field("selfLink"));
    put(&mut m, "allowed", v.field("allowed"));
    put(&mut m, "denied", v.field("denied"));
    put(&mut m, "source_ranges", v.field("sourceRanges"));
    put(&mut m, "destination_ranges", v.field("destinationRanges"));
    put(&mut m, "target_tags", v.field("targetTags"));
    put(&mut m, "target_service_accounts", v.field("targetServiceAccounts"));
    Some(
        CloudResource {
            id,
            name,
            resource_type: ResourceType::SecurityGroup,
            provider: ProviderKind::Gcp,
            region: String::from_str("global"),
            account_id: String::from_str(project),
            status,
            created_at: opt_str_at(v, "creationTimestamp"),
            last_used: None,
            tags,
            metadata: Json::object(m),
            monthly_cost: Some(0),
        },
    )
}

/// What is kept of a forwarding rule besides its common fields.
pub open spec fn forwarding_metadata(v: JsonV) -> JsonV {
    JsonV::Object(
        Seq::empty().push(("ip_address"@, JsonV::Str(str_or(v, "IPAddress"@, ""@)))).push(
            ("protocol"@, JsonV::Str(str_or(v, "IPProtocol"@, ""@))),
        ).push(("port_range"@, JsonV::Str(str_or(v, "portRange"@, ""@)))).push(
            ("target"@, JsonV::Str(after_last(str_or(v, "target"@, ""@), '/'))),
        ).push(
            (
                "load_balancing_scheme"@,
                JsonV::Str(str_or(v, "loadBalancingScheme"@, "EXTERNAL"@)),
            ),
        ).push(("self_link"@, jget(v, "selfLink"@))).push(("network"@, jget(v, "network"@))).push(
            ("subnetwork"@, jget(v, "subnetwork"@)),
        ).push(("backend_service"@, jget(v, "backendService"@))),
    )
}

/// A forwarding rule's tags: protocol and scheme, then its labels.
pub open spec fn forwarding_tags(v: JsonV) -> Seq<(Seq<char>, Seq<char>)> {
    add_labels_at(
        tag_insert(
            tag_insert(Seq::empty(), "protocol"@, str_or(v, "IPProtocol"@, ""@)),
            "scheme"@,
            str_or(v, "loadBalancingScheme"@, "EXTERNAL"@),
        ),
        v,
        "labels"@,
    )
}

/// A forwarding rule (load balancer) of an aggregated list, found in `region`; it is
/// ACTIVE when it has a target, NO_TARGET otherwise.
pub open spec fn forwarding_rule_resource(v: JsonV, region: Seq<char>, project: Seq<char>) -> Option<
    ResourceV,
> {
    match id_and_name(v) {
        Some((id, name)) => Some(
            gcp_resource(
                id,
                name,
                ResourceType::LoadBalancer,
                region,
                project,
                if str_or(v, "target"@, ""@).len() > 0 {
                    "ACTIVE"@
                } else {
                    "NO_TARGET"@
                },
                str_at(v, "creationTimestamp"@),
                None,
                forwarding_tags(v),
                forwarding_metadata(v),
                Some(FORWARDING_RULE),
            ),
        ),
        None => None,
    }
}

/// Reads a forwarding rule.
pub fn parse_forwarding_rule(v: &Json, region: &str, project: &str) -> (r: Option<CloudResource>)
    ensures
        opt_resource_view(r) == forwarding_rule_resource(v@, region@, project@),
{
    let (id, name) = match read_id_name(v) {
        Some(p) => p,
        None => return None,
    };
    let protocol = str_at_or(v, "IPProtocol", "");
    let scheme = str_at_or(v, "loadBalancingScheme", "EXTERNAL");
    let target = str_at_or(v, "target", "");
    let target_short = last_segment(target.as_str(), '/');
    let status = if target.as_str().unicode_len() > 0 {
        String::from_str("ACTIVE")
    } else {
        String::from_str("NO_TARGET")
    };
    let mut tags: Vec<(String, String)> = Vec::new();
    assert(pairs_view(tags@) =~= Seq::<(Seq<char>, Seq<char>)>::empty());
    insert_tag(&mut tags, "protocol", protocol.as_str());
    insert_tag(&mut tags, "scheme", scheme.as_str());
    crate::gcp::parse::add_labels_from(&mut tags, v, "labels");
    let mut m: Vec<(String, Json)> = Vec::new();
    assert(jv_entries(m@) =~= Seq::empty());
    put(&mut m, "ip_address", Json::string(str_at_or(v, "IPAddress", "").as_str()));
    put(&mut m, "protocol", Json::string(protocol.as_str()));
    put(&mut m, "port_range", Json::string(str_at_or(v, "portRange", "").as_str()));
    put(&mut m, "target", Json::string(target_short.as_str()));
    put(&mut m, "load_balancing_scheme", Json::string(scheme.as_str()));
    put(&mut m, "self_link", v.field("selfLink"));
    put(&mut m, "network", v.field("network"));
    put(&mut m, "subnetwork", v.field("subnetwork"));
    put(&mut m, "backend_service", v.field("backendService"));
    Some(
        CloudResource {
            id,
            name,
            resource_type: ResourceType::LoadBalancer,
            provider: ProviderKind::Gcp,
            region: String::from_str(region),
            account_id: String::from_str(project),
            status,
            created_at: opt_str_at(v, "creationTimestamp"),
            last_used: None,
            tags,
            metadata: Json::object(m),
            monthly_cost: Some(FORWARDING_RULE),
        },
    )
}

/// The length of the array `v[key]`, 0 when it is not an array.
pub open spec fn array_len_at(v: JsonV, key: Seq<char>) -> nat {
    match jarr(jget(v, key)) {
        Some(a) => a.len(),
        None => 0,
    }
}

/// The length of the array `v[key]`.
pub fn array_len(v: &Json, key: &str) -> (r: usize)
    ensures
        r == array_len_at(v@, key@),
{
    match v.get_array(key) {
        Some(a) => a.len(),
        None => 0,
    }
}

/// The names of a network's peerings.
pub open spec fn network_peerings(v: JsonV) -> Seq<Seq<char>> {
    match jarr(jget(v, "peerings"@)) {
        Some(a) => fields_in(a, "name"@),
        None => Seq::empty(),
    }
}

/// What is kept of a VPC network besides its common fields.
pub open spec fn network_metadata(v: JsonV) -> JsonV {
    JsonV::Object(
        Seq::empty().push(
            (
                "auto_create_subnetworks"@,
                JsonV::Bool(jbool(jget(v, "autoCreateSubnetworks"@)) == Some(true)),
            ),
        ).push(
            (
                "routing_mode"@,
                JsonV::Str(str_or(jget(v, "routingConfig"@), "routingMode"@, "REGIONAL"@)),
            ),
        ).push(
            (
                "subnet_count"@,
                JsonV::Number(JsonNumber::PosInt(array_len_at(v, "subnetworks"@) as u64)),
            ),
        ).push(
            ("peering_count"@, JsonV::Number(JsonNumber::PosInt(array_len_at(v, "peerings"@) as u64))),
        ).push(("peerings"@, JsonV::Array(network_peerings(v).map_values(|s| JsonV::Str(s))))).push(
            ("self_link"@, jget(v, "selfLink"@)),
        ).push(("mtu"@, jget(v, "mtu"@))),
    )
}

/// A VPC network (global, free, always ACTIVE, without labels).
pub open spec fn network_resource(v: JsonV, project: Seq<char>) -> Option<ResourceV> {
    match id_and_name(v) {
        Some((id, name)) => Some(
            gcp_resource(
                id,
                name,
                ResourceType::Network,
                "global"@,
                project,
                "ACTIVE"@,
                str_at(v, "creationTimestamp"@),
                None,
                Seq::empty(),
                network_metadata(v),
                Some(0),
            ),
        ),
        None => None,
    }
}

/// Reads a VPC network.
pub fn parse_network(v: &Json, project: &str) -> (r: Option<CloudResource>)
    ensures
        opt_resource_view(r) == network_resource(v@, project@),
{
    let (id, name) = match read_id_name(v) {
        Some(p) => p,
        None => return None,
    };
    let auto_create = match v.get_bool("autoCreateSubnetworks") {
        Some(b) => b,
        None => false,
    };
    let routing_mode = match v.get("routingConfig") {
        Some(rc) => str_at_or(rc, "routingMode", "REGIONAL"),
        None => String::from_str("REGIONAL"),
    };
    let subnet_count = array_len(v, "subnetworks");
    let peering_count = array_len(v, "peerings");
    let peerings: Vec<String> = match v.get_array("peerings") {
        Some(a) => array_fields(a, "name"),
        None => Vec::new(),
    };
    let peerings_json = Json::strings(&peerings);
    assert(peerings@.map_values(|s: String| JsonV::Str(s@)) =~= network_peerings(v@).map_values(
        |s| JsonV::Str(s),
    ));
    let mut m: Vec<(String, Json)> = Vec::new();
    assert(jv_entries(m@) =~= Seq::empty());
    put(&mut m, "auto_create_subnetworks", Json::Bool(auto_create));
    put(&mut m, "routing_mode", Json::string(routing_mode.as_str()));
    put(&mut m, "subnet_count", Json::unsigned(subnet_count as u64));
    put(&mut m, "peering_count", Json::unsigned(peering_count as u64));
    put(&mut m, "peerings", peerings_json);
    put(&mut m, "self_link", v.field("selfLink"));
    put(&mut m, "mtu", v.field("mtu"));
    let tags: Vec<(String, String)> = Vec::new();
    assert(pairs_view(tags@) =~= Seq::<(Seq<char>, Seq<char>)>::empty());
    Some(
        CloudResource {
            id,
            name,
            resource_type: ResourceType::Network,
            provider: ProviderKind::Gcp,
            region: String::from_str("global"),
            account_id: String::from_str(project),
            status: String::from_str("ACTIVE"),
            created_at: opt_str_at(v, "creationTimestamp"),
            last_used: None,
            tags,
            metadata: Json::object(m),
            monthly_cost: Some(0),
        },
    )
}

/// What is kept of a NAT gateway besides its common fields.
pub open spec fn nat_metadata(v: JsonV, router: Seq<char>) -> JsonV {
    JsonV::Object(
        Seq::empty().push(("router_name"@, JsonV::Str(router))).push(
            (
                "nat_ip_allocate_option"@,
                JsonV::Str(str_or(v, "natIpAllocateOption"@, "unknown"@)),
            ),
        ).push(
            (
                "source_subnetwork_ip_ranges_to_nat"@,
                JsonV::Str(str_or(v, "sourceSubnetworkIpRangesToNat"@, "unknown"@)),
            ),
        ),
    )
}

/// A Cloud NAT gateway of router `router` in `region`, identified as `router/name`.
pub open spec fn nat_gateway_resource(
    v: JsonV,
    router: Seq<char>,
    region: Seq<char>,
    project: Seq<char>,
) -> Option<ResourceV> {
    match str_at(v, "name"@) {
        Some(name) => Some(
            gcp_resource(
                router + "/"@ + name,
                name,
                ResourceType::NatGateway,
                region,
                project,
                "ACTIVE"@,
                None,
                None,
                Seq::empty(),
                nat_metadata(v, router),
                Some(NAT_GATEWAY),
            ),
        ),
        None => None,
    }
}

/// Reads a Cloud NAT gateway of a router.
pub fn parse_nat_gateway(v: &Json, router: &str, region: &str, project: &str) -> (r: Option<
    CloudResource,
>)
    ensures
        opt_resource_view(r) == nat_gateway_resource(v@, router@, region@, project@),
{
    let name = match v.get_str("name") {
        Some(n) => n.clone(),
        None => return None,
    };
    let id = crate::text::cat3(router, "/", name.as_str());
    let mut m: Vec<(String, Json)> = Vec::new();
    assert(jv_entries(m@) =~= Seq::empty());
    put(&mut m, "router_name", Json::string(router));
    put(
        &mut m,
        "nat_ip_allocate_option",
        Json::string(str_at_or(v, "natIpAllocateOption", "unknown").as_str()),
    );
    put(
        &mut m,
        "source_subnetwork_ip_ranges_to_nat",
        Json::string(str_at_or(v, "sourceSubnetworkIpRangesToNat", "unknown").as_str()),
    );
    let tags: Vec<(String, String)> = Vec::new();
    assert(pairs_view(tags@) =~= Seq::<(Seq<char>, Seq<char>)>::empty());
    Some(
        CloudResource {
            id,
            name,
            resource_type: ResourceType::NatGateway,
            provider: ProviderKind::Gcp,
            region: String::from_str(region),
            account_id: String::from_str(project),
            status: String::from_str("ACTIVE"),
            created_at: None,
            last_used: None,
            tags,
            metadata: Json::object(m),
            monthly_cost: Some(NAT_GATEWAY),
        },
    )
}

/// The gateway of a VPN tunnel: `vpnGateway`, else `targetVpnGateway`, else `unknown`.
pub open spec fn vpn_gateway(v: JsonV) -> Seq<char> {
    match str_at(v, "vpnGateway"@) {
        Some(g) => g,
        None => str_or(v, "targetVpnGateway"@, "unknown"@),
    }
}

/// The IKE version of a VPN tunnel, 0 when absent.
pub open spec fn vpn_ike_version(v: JsonV) -> i64 {
    match ji64(jget(v, "ikeVersion"@)) {
        Some(n) => n,
        None => 0,
    }
}

/// What is kept of a VPN tunnel besides its common fields.
pub open spec fn vpn_metadata(v: JsonV) -> JsonV {
    JsonV::Object(
        Seq::empty().push(("peer_ip"@, JsonV::Str(str_or(v, "peerIp"@, "unknown"@)))).push(
            ("ike_version"@, JsonV::Number(num_from_i64(vpn_ike_version(v)))),
        ).push(("detailed_status"@, JsonV::Str(str_or(v, "detailedStatus"@, ""@)))).push(
            ("gateway"@, JsonV::Str(vpn_gateway(v))),
        ).push(("self_link"@, jget(v, "selfLink"@))),
    )
}

/// A VPN tunnel of an aggregated list, found in `region`; its name is its id.
pub open spec fn vpn_tunnel_resource(v: JsonV, region: Seq<char>, project: Seq<char>) -> Option<
    ResourceV,
> {
    match str_at(v, "name"@) {
        Some(name) => Some(
            gcp_resource(
                name,
                name,
                ResourceType::VpnTunnel,
                region,
                project,
                str_or(v, "status"@, "UNKNOWN"@),
                str_at(v, "creationTimestamp"@),
                None,
                add_labels_at(Seq::empty(), v, "labels"@),
                vpn_metadata(v),
                Some(VPN_TUNNEL),
            ),
        ),
        None => None,
    }
}

/// Reads a VPN tunnel.
pub fn parse_vpn_tunnel(v: &Json, region: &str, project: &str) -> (r: Option<CloudResource>)
    ensures
        opt_resource_view(r) == vpn_tunnel_resource(v@, region@, project@),
{
    let name = match v.get_str("name") {
        Some(n) => n.clone(),
        None => return None,
    };
    let ike: i64 = match v.get_i64("ikeVersion") {
        Some(n) => n,
        None => 0,
    };
    let gateway = match v.get_str("vpnGateway") {
        Some(g) => g.clone(),
        None => str_at_or(v, "targetVpnGateway", "unknown"),
    };
    let mut m: Vec<(String, Json)> = Vec::new();
    assert(jv_entries(m@) =~= Seq::empty());
    put(&mut m, "peer_ip", Json::string(str_at_or(v, "peerIp", "unknown").as_str()));
    put(&mut m, "ike_version", Json::signed(ike));
    put(&mut m, "detailed_status", Json::string(str_at_or(v, "detailedStatus", "").as_str()));
    put(&mut m, "gateway", Json::string(gateway.as_str()));
    put(&mut m, "self_link", v.field("selfLink"));
    Some(
        CloudResource {
            id: name.clone(),
            name,
            resource_type: ResourceType::VpnTunnel,
            provider: ProviderKind::Gcp,
            region: String::from_str(region),
            account_id: String::from_str(project),
            status: str_at_or(v, "status", "UNKNOWN"),
            created_at: opt_str_at(v, "creationTimestamp"),
            last_used: None,
            tags: labels_at(v, "labels"),
            metadata: Json::object(m),
            monthly_cost: Some(VPN_TUNNEL),
        },
    )
}


/// A static IP keeps the status the API reports; only a RESERVED (unused) address costs
/// $7.30 a month, one in use costs nothing.
pub proof fn law_address_price_follows_status(v: JsonV, region: Seq<char>, project: Seq<char>)
    ensures
        address_resource(v, region, project) is Some <==> id_and_name(v) is Some,
        address_resource(v, region, project) matches Some(r) ==> {
            &&& r.resource_type == ResourceType::ElasticIp
            &&& r.status == str_or(v, "status"@, "UNKNOWN"@)
            &&& r.monthly_cost == Some(if r.status == "RESERVED"@ {
                7_300_000_000u64
            } else {
                0u64
            })
        },
{
}

/// A firewall rule is DISABLED exactly when its `disabled` flag is true, ENABLED
/// otherwise; it costs nothing.
pub proof fn law_firewall_status_follows_flag(v: JsonV, project: Seq<char>)
    ensures
        firewall_resource(v, project) matches Some(r) ==> {
            &&& r.resource_type == ResourceType::SecurityGroup
            &&& (r.status == "DISABLED"@ <==> jbool(jget(v, "disabled"@)) == Some(true))
            &&& (r.status == "ENABLED"@ <==> jbool(jget(v, "disabled"@)) != Some(true))
        },
{
    reveal_strlit("DISABLED");
    reveal_strlit("ENABLED");
    assert("DISABLED"@.len() != "ENABLED"@.len());
}

/// A forwarding rule is ACTIVE exactly when it names a target and NO_TARGET otherwise;
/// either way it costs $18.26 a month.
pub proof fn law_forwarding_rule_target(v: JsonV, region: Seq<char>, project: Seq<char>)
    ensures
        forwarding_rule_resource(v, region, project) matches Some(r) ==> {
            &&& r.resource_type == ResourceType::LoadBalancer
            &&& r.region == region
            &&& (r.status == "ACTIVE"@ <==> str_or(v, "target"@, ""@).len() > 0)
            &&& (r.status == "NO_TARGET"@ <==> str_or(v, "target"@, ""@).len() == 0)
            &&& r.monthly_cost == Some(18_260_000_000u64)
        },
{
    reveal_strlit("ACTIVE");
    reveal_strlit("NO_TARGET");
    assert("ACTIVE"@.len() != "NO_TARGET"@.len());
}

/// A VPN tunnel keeps the status the API reports and costs $54 a month; a NAT gateway
/// costs $31.68 a month and a network nothing.
pub proof fn law_network_prices(v: JsonV, router: Seq<char>, region: Seq<char>, project: Seq<char>)
    ensures
        vpn_tunnel_resource(v, region, project) matches Some(r) ==> r.resource_type
            == ResourceType::VpnTunnel && r.status == str_or(v, "status"@, "UNKNOWN"@)
            && r.monthly_cost == Some(54_000_000_000u64),
        nat_gateway_resource(v, router, region, project) matches Some(r) ==> r.resource_type
            == ResourceType::NatGateway && r.monthly_cost == Some(31_680_000_000u64),
        network_resource(v, project) matches Some(r) ==> r.resource_type == ResourceType::Network
            && r.monthly_cost == Some(0u64),
{
}

} // verus!
