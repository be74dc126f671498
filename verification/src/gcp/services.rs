//! Managed services: Cloud Storage buckets, Artifact Registry repositories, log sinks,
//! Pub/Sub topics and subscriptions, and Secret Manager secrets.

use vstd::prelude::*;
use crate::gcp::data::gib_json;
use crate::gcp::parse::{
    add_labels_at, float_json, float_value, gcp_resource, labels_at, opt_str_at, str_at, str_at_or,
    str_or, whole_number, read_whole, get_in, field_in,
};
use crate::gcp::pricing::{artifact_cost, estimate_artifact_cost, estimate_log_sink_cost, estimate_secret_cost, log_sink_cost, secret_cost, GIB};
use crate::gcp::serverless::{first_with, location_of, name_location};
use crate::json::{
    jarr, jbool, jget, jis_object, jstr, ju64, jv_entries, jv_seq, opt_jv, opt_str_jv, put, Json,
    JsonNumber, JsonV,
};
use crate::provider::{opt_resource_view, pairs_view, CloudResource, ProviderKind, ResourceType, ResourceV};
use crate::text::{
    after_last, contains_str, find_from, is_prefix, last_segment, lowercase, parse_u64,
    spec_parse_u64, starts_with, str_eq, to_lower,
};

verus! {

/// What is kept of a bucket besides its common fields.
pub open spec fn bucket_metadata(v: JsonV) -> JsonV {
    JsonV::Object(
        Seq::empty().push(("storage_class"@, JsonV::Str(str_or(v, "storageClass"@, "STANDARD"@)))).push(
            ("location"@, JsonV::Str(str_or(v, "location"@, "unknown"@))),
        ).push(("location_type"@, jget(v, "locationType"@))).push(
            (
                "versioning"@,
                JsonV::Bool(jbool(jget(jget(v, "versioning"@), "enabled"@)) == Some(true)),
            ),
        ).push(("updated"@, JsonV::Str(str_or(v, "updated"@, ""@)))).push(
            ("default_event_based_hold"@, jget(v, "defaultEventBasedHold"@)),
        ).push(("self_link"@, jget(v, "selfLink"@))),
    )
}

/// A Cloud Storage bucket (its id defaults to its name), located in its lowercased
/// location; its size is unknown, so its estimate is 0.
pub open spec fn bucket_resource(v: JsonV, project: Seq<char>) -> Option<ResourceV> {
    match str_at(v, "name"@) {
        Some(name) => Some(
            gcp_resource(
                str_or(v, "id"@, name),
                name,
                ResourceType::StorageBucket,
                lowercase(str_or(v, "location"@, "unknown"@)),
                project,
                "ACTIVE"@,
                str_at(v, "timeCreated"@),
                None,
                add_labels_at(Seq::empty(), v, "labels"@),
                bucket_metadata(v),
                Some(0),
            ),
        ),
        None => None,
    }
}

/// Reads a Cloud Storage bucket.
pub fn parse_bucket(v: &Json, project: &str) -> (r: Option<CloudResource>)
    ensures
        opt_resource_view(r) == bucket_resource(v@, project@),
{
    let name = match v.get_str("name") {
        Some(n) => n.clone(),
        None => return None,
    };
    let location = str_at_or(v, "location", "unknown");
    let versioning = match v.get("versioning") {
        Some(x) => match x.get_bool("enabled") {
            Some(b) => b,
            None => false,
        },
        None => false,
    };
    let mut m: Vec<(String, Json)> = Vec::new();
    assert(jv_entries(m@) =~= Seq::empty());
    put(&mut m, "storage_class", Json::string(str_at_or(v, "storageClass", "STANDARD").as_str()));
    put(&mut m, "location", Json::string(location.as_str()));
    put(&mut m, "location_type", v.field("locationType"));
    put(&mut m, "versioning", Json::Bool(versioning));
    put(&mut m, "updated", Json::string(str_at_or(v, "updated", "").as_str()));
    put(&mut m, "default_event_based_hold", v.field("defaultEventBasedHold"));
    put(&mut m, "self_link", v.field("selfLink"));
    Some(
        CloudResource {
            id: str_at_or(v, "id", name.as_str()),
            name,
            resource_type: ResourceType::StorageBucket,
            provider: ProviderKind::Gcp,
            region: to_lower(location.as_str()),
            account_id: String::from_str(project),
            status: String::from_str("ACTIVE"),
            created_at: opt_str_at(v, "timeCreated"),
            last_used: None,
            tags: labels_at(v, "labels"),
            metadata: Json::object(m),
            monthly_cost: Some(0),
        },
    )
}

/// The size of a repository in bytes: a whole number written as text, else the number
/// `sizeBytes` as a whole count, else 0.
pub open spec fn repo_size(v: JsonV) -> u64 {
    match str_at(v, "sizeBytes"@) {
        Some(s) => match spec_parse_u64(s) {
            Some(n) => n,
            None => 0,
        },
        None => match whole_number(jget(v, "sizeBytes"@)) {
            Some(n) => n,
            None => 0,
        },
    }
}

/// What is kept of a repository besides its common fields.
pub open spec fn repo_metadata(v: JsonV, full: Seq<char>) -> JsonV {
    JsonV::Object(
        Seq::empty().push(("format"@, JsonV::Str(str_or(v, "format"@, "unknown"@)))).push(
            ("mode"@, JsonV::Str(str_or(v, "mode"@, "STANDARD_REPOSITORY"@))),
        ).push(("size_bytes"@, float_json(repo_size(v)))).push(("size_gb"@, gib_json(repo_size(v)))).push(
            ("update_time"@, JsonV::Str(str_or(v, "updateTime"@, ""@))),
        ).push(("full_name"@, JsonV::Str(full))),
    )
}

/// An Artifact Registry repository, identified and named by the last part of its name.
pub open spec fn repository_resource(v: JsonV, project: Seq<char>) -> Option<ResourceV> {
    match str_at(v, "name"@) {
        Some(full) => Some(
            gcp_resource(
                after_last(full, '/'),
                after_last(full, '/'),
                ResourceType::ArtifactRegistryRepo,
                name_location(full),
                project,
                "ACTIVE"@,
                str_at(v, "createTime"@),
                None,
                add_labels_at(Seq::empty(), v, "labels"@),
                repo_metadata(v, full),
                Some(artifact_cost(repo_size(v))),
            ),
        ),
        None => None,
    }
}

/// Reads an Artifact Registry repository.
pub fn parse_repository(v: &Json, project: &str) -> (r: Option<CloudResource>)
    ensures
        opt_resource_view(r) == repository_resource(v@, project@),
{
    let full = match v.get_str("name") {
        Some(n) => n.clone(),
        None => return None,
    };
    let size: u64 = match v.get_str("sizeBytes") {
        Some(s) => match parse_u64(s.as_str()) {
            Some(n) => n,
            None => 0,
        },
        None => match read_whole(v, "sizeBytes") {
            Some(n) => n,
            None => 0,
        },
    };
    let name = last_segment(full.as_str(), '/');
    let mut m: Vec<(String, Json)> = Vec::new();
    assert(jv_entries(m@) =~= Seq::empty());
    put(&mut m, "format", Json::string(str_at_or(v, "format", "unknown").as_str()));
    put(&mut m, "mode", Json::string(str_at_or(v, "mode", "STANDARD_REPOSITORY").as_str()));
    put(&mut m, "size_bytes", float_value(size));
    put(&mut m, "size_gb", crate::gcp::data::gib_value(size));
    put(&mut m, "update_time", Json::string(str_at_or(v, "updateTime", "").as_str()));
    put(&mut m, "full_name", Json::string(full.as_str()));
    Some(
        CloudResource {
            id: name.clone(),
            name,
            resource_type: ResourceType::ArtifactRegistryRepo,
            provider: ProviderKind::Gcp,
            region: location_of(full.as_str()),
            account_id: String::from_str(project),
            status: String::from_str("ACTIVE"),
            created_at: opt_str_at(v, "createTime"),
            last_used: None,
            tags: labels_at(v, "labels"),
            metadata: Json::object(m),
            monthly_cost: Some(estimate_artifact_cost(size)),
        },
    )
}

/// The kind of a sink destination, by its service prefix.
pub open spec fn destination_type(destination: Seq<char>) -> Seq<char> {
    if is_prefix("bigquery.googleapis.com/"@, destination) {
        "bigquery"@
    } else if is_prefix("storage.googleapis.com/"@, destination) {
        "cloud_storage"@
    } else if is_prefix("pubsub.googleapis.com/"@, destination) {
        "pubsub"@
    } else if is_prefix("logging.googleapis.com/"@, destination) {
        "logging_bucket"@
    } else {
        "other"@
    }
}

/// The kind of a sink destination.
pub fn classify_destination(destination: &str) -> (r: &'static str)
    ensures
        r@ == destination_type(destination@),
{
    if starts_with(destination, "bigquery.googleapis.com/") {
        "bigquery"
    } else if starts_with(destination, "storage.googleapis.com/") {
        "cloud_storage"
    } else if starts_with(destination, "pubsub.googleapis.com/") {
        "pubsub"
    } else if starts_with(destination, "logging.googleapis.com/") {
        "logging_bucket"
    } else {
        "other"
    }
}

/// What is kept of a log sink besides its common fields.
pub open spec fn sink_metadata(v: JsonV) -> JsonV {
    let destination = str_or(v, "destination"@, "unknown"@);
    JsonV::Object(
        Seq::empty().push(("destination"@, JsonV::Str(destination))).push(
            ("destination_type"@, JsonV::Str(destination_type(destination))),
        ).push(("filter"@, JsonV::Str(str_or(v, "filter"@, ""@)))).push(
            ("disabled"@, JsonV::Bool(jbool(jget(v, "disabled"@)) == Some(true))),
        ).push(("writer_identity"@, JsonV::Str(str_or(v, "writerIdentity"@, ""@)))).push(
            ("update_time"@, opt_str_jv(str_at(v, "updateTime"@))),
        ),
    )
}

/// A log sink (global, identified by its name), DISABLED or ACTIVE, priced by its
/// destination kind and filter.
pub open spec fn sink_resource(v: JsonV, project: Seq<char>) -> Option<ResourceV> {
    match str_at(v, "name"@) {
        Some(name) => Some(
            gcp_resource(
                name,
                name,
                ResourceType::LogSink,
                "global"@,
                project,
                if jbool(jget(v, "disabled"@)) == Some(true) {
                    "DISABLED"@
                } else {
                    "ACTIVE"@
                },
                str_at(v, "createTime"@),
                None,
                Seq::empty(),
                sink_metadata(v),
                Some(
                    log_sink_cost(
                        destination_type(str_or(v, "destination"@, "unknown"@)),
                        str_or(v, "filter"@, ""@),
                    ),
                ),
            ),
        ),
        None => None,
    }
}

/// Reads a log sink.
pub fn parse_log_sink(v: &Json, project: &str) -> (r: Option<CloudResource>)
    ensures
        opt_resource_view(r) == sink_resource(v@, project@),
{
    let name = match v.get_str("name") {
        Some(n) => n.clone(),
        None => return None,
    };
    let destination = str_at_or(v, "destination", "unknown");
    let filter = str_at_or(v, "filter", "");
    let disabled = match v.get_bool("disabled") {
        Some(b) => b,
        None => false,
    };
    let kind = classify_destination(destination.as_str());
    let update_time = opt_str_at(v, "updateTime");
    let mut m: Vec<(String, Json)> = Vec::new();
    assert(jv_entries(m@) =~= Seq::empty());
    put(&mut m, "destination", Json::string(destination.as_str()));
    put(&mut m, "destination_type", Json::string(kind));
    put(&mut m, "filter", Json::string(filter.as_str()));
    put(&mut m, "disabled", Json::Bool(disabled));
    put(&mut m, "writer_identity", Json::string(str_at_or(v, "writerIdentity", "").as_str()));
    put(&mut m, "update_time", Json::opt_string(&update_time));
    let status = if disabled {
        String::from_str("DISABLED")
    } else {
        String::from_str("ACTIVE")
    };
    let tags: Vec<(String, String)> = Vec::new();
    assert(pairs_view(tags@) =~= Seq::<(Seq<char>, Seq<char>)>::empty());
    let cost = estimate_log_sink_cost(kind, filter.as_str());
    Some(
        CloudResource {
            id: name.clone(),
            name,
            resource_type: ResourceType::LogSink,
            provider: ProviderKind::Gcp,
            region: String::from_str("global"),
            account_id: String::from_str(project),
            status,
            created_at: opt_str_at(v, "createTime"),
            last_used: None,
            tags,
            metadata: Json::object(m),
            monthly_cost: Some(cost),
        },
    )
}

/// What is kept of a topic besides its common fields.
pub open spec fn topic_metadata(v: JsonV, full: Seq<char>) -> JsonV {
    JsonV::Object(
        Seq::empty().push(("full_name"@, JsonV::Str(full))).push(
            ("kms_key_name"@, jget(v, "kmsKeyName"@)),
        ).push(("schema_settings"@, jget(v, "schemaSettings"@))).push(
            ("message_retention_duration"@, jget(v, "messageRetentionDuration"@)),
        ),
    )
}

/// A Pub/Sub topic (global, ACTIVE, free when idle), identified by its full name and
/// named by its last part.
pub open spec fn topic_resource(v: JsonV, project: Seq<char>) -> Option<ResourceV> {
    match str_at(v, "name"@) {
        Some(full) => Some(
            gcp_resource(
                full,
                after_last(full, '/'),
                ResourceType::PubSubTopic,
                "global"@,
                project,
                "ACTIVE"@,
                None,
                None,
                add_labels_at(Seq::empty(), v, "labels"@),
                topic_metadata(v, full),
                Some(0),
            ),
        ),
        None => None,
    }
}

/// Reads a Pub/Sub topic.
pub fn parse_topic(v: &Json, project: &str) -> (r: Option<CloudResource>)
    ensures
        opt_resource_view(r) == topic_resource(v@, project@),
{
    let full = match v.get_str("name") {
        Some(n) => n.clone(),
        None => return None,
    };
    let mut m: Vec<(String, Json)> = Vec::new();
    assert(jv_entries(m@) =~= Seq::empty());
    put(&mut m, "full_name", Json::string(full.as_str()));
    put(&mut m, "kms_key_name", v.field("kmsKeyName"));
    put(&mut m, "schema_settings", v.field("schemaSettings"));
    put(&mut m, "message_retention_duration", v.field("messageRetentionDuration"));
    Some(
        CloudResource {
            id: full.clone(),
            name: last_segment(full.as_str(), '/'),
            resource_type: ResourceType::PubSubTopic,
            provider: ProviderKind::Gcp,
            region: String::from_str("global"),
            account_id: String::from_str(project),
            status: String::from_str("ACTIVE"),
            created_at: None,
            last_used: None,
            tags: labels_at(v, "labels"),
            metadata: Json::object(m),
            monthly_cost: Some(0),
        },
    )
}

/// The push endpoint of a subscription, when it has a text one.
pub open spec fn push_endpoint(v: JsonV) -> Option<Seq<char>> {
    str_at(jget(v, "pushConfig"@), "pushEndpoint"@)
}

/// What is kept of a subscription besides its common fields.
pub open spec fn subscription_metadata(v: JsonV, full: Seq<char>) -> JsonV {
    JsonV::Object(
        Seq::empty().push(("full_name"@, JsonV::Str(full))).push(
            ("topic"@, JsonV::Str(str_or(v, "topic"@, "unknown"@))),
        ).push(
            (
                "ack_deadline_seconds"@,
                JsonV::Number(
                    JsonNumber::PosInt(
                        match ju64(jget(v, "ackDeadlineSeconds"@)) {
                            Some(n) => n,
                            None => 10,
                        },
                    ),
                ),
            ),
        ).push(
            (
                "message_retention_duration"@,
                JsonV::Str(str_or(v, "messageRetentionDuration"@, "604800s"@)),
            ),
        ).push(("push_endpoint"@, jget(jget(v, "pushConfig"@), "pushEndpoint"@))).push(
            (
                "has_push_config"@,
                JsonV::Bool(
                    match push_endpoint(v) {
                        Some(e) => e.len() > 0,
                        None => false,
                    },
                ),
            ),
        ).push(("filter"@, jget(v, "filter"@))).push(
            ("dead_letter_policy"@, jget(v, "deadLetterPolicy"@)),
        ).push(("retry_policy"@, jget(v, "retryPolicy"@))).push(
            ("expiration_policy"@, jget(v, "expirationPolicy"@)),
        ),
    )
}

/// A Pub/Sub subscription (global, free when idle): DETACHED when its topic was deleted,
/// ACTIVE otherwise.
pub open spec fn subscription_resource(v: JsonV, project: Seq<char>) -> Option<ResourceV> {
    match str_at(v, "name"@) {
        Some(full) => Some(
            gcp_resource(
                full,
                after_last(full, '/'),
                ResourceType::PubSubSubscription,
                "global"@,
                project,
                if find_from(str_or(v, "topic"@, "unknown"@), "_deleted-topic_"@, 0) is Some {
                    "DETACHED"@
                } else {
                    "ACTIVE"@
                },
                None,
                None,
                add_labels_at(Seq::empty(), v, "labels"@),
                subscription_metadata(v, full),
                Some(0),
            ),
        ),
        None => None,
    }
}

/// Reads a Pub/Sub subscription.
pub fn parse_subscription(v: &Json, project: &str) -> (r: Option<CloudResource>)
    ensures
        opt_resource_view(r) == subscription_resource(v@, project@),
{
    let full = match v.get_str("name") {
        Some(n) => n.clone(),
        None => return None,
    };
    let topic = str_at_or(v, "topic", "unknown");
    let ack: u64 = match v.get_u64("ackDeadlineSeconds") {
        Some(n) => n,
        None => 10,
    };
    let push = v.get("pushConfig");
    let has_push = match push {
        Some(p) => match p.get_str("pushEndpoint") {
            Some(e) => e.as_str().unicode_len() > 0,
            None => false,
        },
        None => false,
    };
    let mut m: Vec<(String, Json)> = Vec::new();
    assert(jv_entries(m@) =~= Seq::empty());
    put(&mut m, "full_name", Json::string(full.as_str()));
    put(&mut m, "topic", Json::string(topic.as_str()));
    put(&mut m, "ack_deadline_seconds", Json::unsigned(ack));
    put(
        &mut m,
        "message_retention_duration",
        Json::string(str_at_or(v, "messageRetentionDuration", "604800s").as_str()),
    );
    put(&mut m, "push_endpoint", field_in(push, "pushEndpoint"));
    put(&mut m, "has_push_config", Json::Bool(has_push));
    put(&mut m, "filter", v.field("filter"));
    put(&mut m, "dead_letter_policy", v.field("deadLetterPolicy"));
    put(&mut m, "retry_policy", v.field("retryPolicy"));
    put(&mut m, "expiration_policy", v.field("expirationPolicy"));
    let status = if contains_str(topic.as_str(), "_deleted-topic_") {
        String::from_str("DETACHED")
    } else {
        String::from_str("ACTIVE")
    };
    Some(
        CloudResource {
            id: full.clone(),
            name: last_segment(full.as_str(), '/'),
            resource_type: ResourceType::PubSubSubscription,
            provider: ProviderKind::Gcp,
            region: String::from_str("global"),
            account_id: String::from_str(project),
            status,
            created_at: None,
            last_used: None,
            tags: labels_at(v, "labels"),
            metadata: Json::object(m),
            monthly_cost: Some(0),
        },
    )
}

/// A listed version of a secret is ENABLED (an active version).
pub open spec fn is_enabled_version(v: JsonV) -> bool {
    jstr(jget(v, "state"@)) == Some("ENABLED"@)
}

/// How many of the listed versions are ENABLED.
pub open spec fn enabled_count(s: Seq<JsonV>) -> nat
    decreases s.len(),
{
    if s.len() == 0 {
        0
    } else {
        enabled_count(s.drop_last()) + if is_enabled_version(s.last()) {
            1nat
        } else {
            0nat
        }
    }
}

/// The state of a secret from its versions listing: ACTIVE with an enabled version,
/// DISABLED otherwise; its version count: `totalSize` (a number or a number written
/// as text), else the number of versions listed; and the number of its listed versions
/// that are ENABLED.
pub open spec fn versions_summary(listing: JsonV) -> (Seq<char>, u64, nat) {
    let versions = jarr(jget(listing, "versions"@));
    let t = jget(listing, "totalSize"@);
    let count: u64 = match ju64(t) {
        Some(n) => n,
        None => match jstr(t) {
            Some(s) => match spec_parse_u64(s) {
                Some(n) => n,
                None => match versions {
                    Some(a) => a.len() as u64,
                    None => 0,
                },
            },
            None => match versions {
                Some(a) => a.len() as u64,
                None => 0,
            },
        },
    };
    let active: nat = match versions {
        Some(a) => enabled_count(a),
        None => 0,
    };
    (
        if active > 0 {
            "ACTIVE"@
        } else {
            "DISABLED"@
        },
        count,
        active,
    )
}

/// The state, version count and number of ENABLED versions of a secret from its
/// versions listing.
pub fn secret_versions_status(listing: &Json) -> (r: (String, u64, u64))
    ensures
        (r.0@, r.1, r.2 as nat) == versions_summary(listing@),
{
    let versions = listing.get_array("versions");
    let listed: u64 = match versions {
        Some(a) => a.len() as u64,
        None => 0,
    };
    let total = listing.get("totalSize");
    let count: u64 = match total {
        Some(t) => match t.as_u64() {
            Some(n) => n,
            None => match t.as_str() {
                Some(s) => match parse_u64(s.as_str()) {
                    Some(n) => n,
                    None => listed,
                },
                None => listed,
            },
        },
        None => listed,
    };
    let mut active: u64 = 0;
    match versions {
        Some(a) => {
            let ghost s = jv_seq(a@);
            let n = a.len();
            let mut i: usize = 0;
            while i < n
                invariant
                    n == a@.len(),
                    s == jv_seq(a@),
                    s.len() == n,
                    i <= n,
                    active <= i,
                    active as nat == enabled_count(s.take(i as int)),
                decreases n - i,
            {
                let hit = match a[i].get_str("state") {
                    Some(st) => str_eq(st.as_str(), "ENABLED"),
                    None => false,
                };
                assert(s[i as int] == a@[i as int]@);
                assert(s.take(i as int + 1).drop_last() =~= s.take(i as int));
                assert(hit == is_enabled_version(s[i as int]));
                if hit {
                    active = active + 1;
                }
                i = i + 1;
            }
            assert(s.take(n as int) =~= s);
        },
        None => {},
    }
    let status = if active > 0 {
        String::from_str("ACTIVE")
    } else {
        String::from_str("DISABLED")
    };
    (status, count, active)
}

/// How a secret is replicated.
pub open spec fn replication_type(v: JsonV) -> Seq<char> {
    let r = jget(v, "replication"@);
    if jis_object(jget(r, "automatic"@)) {
        "automatic"@
    } else if jis_object(jget(r, "userManaged"@)) {
        "user_managed"@
    } else {
        "unknown"@
    }
}

/// What is kept of a secret besides its common fields.
pub open spec fn secret_metadata(v: JsonV, full: Seq<char>, versions: u64) -> JsonV {
    JsonV::Object(
        Seq::empty().push(("full_name"@, JsonV::Str(full))).push(
            ("replication_type"@, JsonV::Str(replication_type(v))),
        ).push(("replication"@, jget(v, "replication"@))).push(
            ("version_count"@, JsonV::Number(JsonNumber::PosInt(versions))),
        ),
    )
}

/// A secret (global), identified and named by the last part of its name, with the
/// state, version count and number of active versions read from its versions: each
/// active version is priced.
pub open spec fn secret_resource(
    v: JsonV,
    project: Seq<char>,
    status: Seq<char>,
    versions: u64,
    active: u64,
) -> Option<
    ResourceV,
> {
    match str_at(v, "name"@) {
        Some(full) => Some(
            gcp_resource(
                after_last(full, '/'),
                after_last(full, '/'),
                ResourceType::SecretManagerSecret,
                "global"@,
                project,
                status,
                str_at(v, "createTime"@),
                None,
                add_labels_at(Seq::empty(), v, "labels"@),
                secret_metadata(v, full, versions),
                Some(secret_cost(active)),
            ),
        ),
        None => None,
    }
}

/// Builds a secret from its listing entry and the state, version count and number of
/// active versions of its versions (`UNKNOWN`, 0 and 0 when they could not be listed).
pub fn parse_secret(v: &Json, project: &str, status: &str, versions: u64, active: u64) -> (r:
    Option<CloudResource>)
    ensures
        opt_resource_view(r) == secret_resource(v@, project@, status@, versions, active),
{
    let full = match v.get_str("name") {
        Some(n) => n.clone(),
        None => return None,
    };
    let name = last_segment(full.as_str(), '/');
    let replication = v.get("replication");
    let automatic = match get_in(replication, "automatic") {
        Some(a) => a.is_object(),
        None => false,
    };
    let user_managed = match get_in(replication, "userManaged") {
        Some(u) => u.is_object(),
        None => false,
    };
    let kind = if automatic {
        "automatic"
    } else if user_managed {
        "user_managed"
    } else {
        "unknown"
    };
    let mut m: Vec<(String, Json)> = Vec::new();
    assert(jv_entries(m@) =~= Seq::empty());
    put(&mut m, "full_name", Json::string(full.as_str()));
    put(&mut m, "replication_type", Json::string(kind));
    put(&mut m, "replication", v.field("replication"));
    put(&mut m, "version_count", Json::unsigned(versions));
    Some(
        CloudResource {
            id: name.clone(),
            name,
            resource_type: ResourceType::SecretManagerSecret,
            provider: ProviderKind::Gcp,
            region: String::from_str("global"),
            account_id: String::from_str(project),
            status: String::from_str(status),
            created_at: opt_str_at(v, "createTime"),
            last_used: None,
            tags: labels_at(v, "labels"),
            metadata: Json::object(m),
            monthly_cost: Some(estimate_secret_cost(active)),
        },
    )
}


/// A log sink is DISABLED exactly when its `disabled` flag is true and ACTIVE otherwise;
/// a subscription is DETACHED exactly when its topic was deleted (the topic name holds
/// `_deleted-topic_`) and ACTIVE otherwise.
pub proof fn law_sink_and_subscription_status(v: JsonV, project: Seq<char>)
    ensures
        sink_resource(v, project) matches Some(r) ==> r.resource_type == ResourceType::LogSink
            && (r.status == "DISABLED"@ <==> jbool(jget(v, "disabled"@)) == Some(true))
            && (r.status == "ACTIVE"@ <==> jbool(jget(v, "disabled"@)) != Some(true)),
        subscription_resource(v, project) matches Some(r) ==> r.resource_type
            == ResourceType::PubSubSubscription && (r.status == "DETACHED"@ <==> find_from(
            str_or(v, "topic"@, "unknown"@),
            "_deleted-topic_"@,
            0,
        ) is Some) && (r.status == "ACTIVE"@ <==> find_from(
            str_or(v, "topic"@, "unknown"@),
            "_deleted-topic_"@,
            0,
        ) is None),
{
    reveal_strlit("DISABLED");
    reveal_strlit("DETACHED");
    reveal_strlit("ACTIVE");
    assert("ACTIVE"@.len() != "DISABLED"@.len());
    assert("ACTIVE"@.len() != "DETACHED"@.len());
}

/// A secret is ACTIVE exactly when one of its listed versions is ENABLED, DISABLED
/// otherwise; the number of active versions counts the ENABLED ones and is at most the
/// number listed; and a secret costs $0.03 per active version plus $0.006.
pub proof fn law_secret_state_from_versions(listing: JsonV)
    ensures
        (versions_summary(listing).0 == "ACTIVE"@) <==> (jarr(jget(listing, "versions"@)) matches Some(
            a,
        ) && exists|i: int| 0 <= i < a.len() && is_enabled_version(#[trigger] a[i])),
        jarr(jget(listing, "versions"@)) matches Some(a) ==> versions_summary(listing).2 <= a.len(),
        jarr(jget(listing, "versions"@)) is None ==> versions_summary(listing).2 == 0,
{
    reveal_strlit("ACTIVE");
    reveal_strlit("DISABLED");
    assert("ACTIVE"@.len() != "DISABLED"@.len());
    if let Some(a) = jarr(jget(listing, "versions"@)) {
        lemma_enabled_count(a);
    }
}

proof fn lemma_enabled_count(s: Seq<JsonV>)
    ensures
        enabled_count(s) <= s.len(),
        enabled_count(s) > 0 <==> exists|i: int| 0 <= i < s.len() && is_enabled_version(#[trigger] s[i]),
    decreases s.len(),
{
    if s.len() > 0 {
        lemma_enabled_count(s.drop_last());
        let p = s.drop_last();
        if enabled_count(p) > 0 {
            let i = choose|i: int| 0 <= i < p.len() && is_enabled_version(#[trigger] p[i]);
            assert(s[i] == p[i]);
        }
        if is_enabled_version(s.last()) {
            assert(is_enabled_version(s[s.len() - 1]));
        }
        if exists|i: int| 0 <= i < s.len() && is_enabled_version(#[trigger] s[i]) {
            let i = choose|i: int| 0 <= i < s.len() && is_enabled_version(#[trigger] s[i]);
            if i < s.len() - 1 {
                assert(p[i] == s[i]);
            }
        }
    }
}


/// Storage and messaging resources: a bucket is ACTIVE, identified by its id (its name
/// when it has none), located in its lowercased location and has no estimate ($0); a
/// topic is ACTIVE and free; a repository is ACTIVE and priced by its size.
pub proof fn law_storage_and_messaging_reading(v: JsonV, project: Seq<char>)
    ensures
        bucket_resource(v, project) matches Some(r) ==> r.resource_type
            == ResourceType::StorageBucket && r.status == "ACTIVE"@ && r.id == str_or(
            v,
            "id"@,
            str_at(v, "name"@)->0,
        ) && r.region == lowercase(str_or(v, "location"@, "unknown"@)) && r.monthly_cost == Some(
            0u64,
        ),
        topic_resource(v, project) matches Some(r) ==> r.resource_type == ResourceType::PubSubTopic
            && r.status == "ACTIVE"@ && r.monthly_cost == Some(0u64),
        repository_resource(v, project) matches Some(r) ==> r.resource_type
            == ResourceType::ArtifactRegistryRepo && r.status == "ACTIVE"@ && r.monthly_cost
            == Some(artifact_cost(repo_size(v))),
{
}

} // verus!
