//! Serverless resources: Cloud Run services, Cloud Functions and App Engine versions.

use vstd::prelude::*;
use crate::gcp::parse::{
    add_labels_at, field_in, gcp_resource, labels_at, opt_str_at, str_at, str_at_or, str_or, text_in,
};
use crate::gcp::pricing::{
    appengine_cost, estimate_appengine_cost, estimate_min_instances_cost, min_instances_cost,
    CLOUD_RUN_MIN_INSTANCE, FUNCTION_MIN_INSTANCE,
};
use crate::json::{jarr, jget, ji64, jstr, jv_entries, jv_seq, num_from_i64, opt_jv, put, Json, JsonV};
use crate::provider::{opt_resource_view, pairs_view, CloudResource, ProviderKind, ResourceType, ResourceV};
use crate::text::{after_last, cat3, last_segment, split_char, split_on, str_eq};

verus! {

/// The location in a resource name `projects/{p}/locations/{location}/...`: its fourth
/// `/`-separated part, or `unknown`.
pub open spec fn name_location(full: Seq<char>) -> Seq<char> {
    if split_on(full, '/').len() > 3 {
        split_on(full, '/')[3]
    } else {
        "unknown"@
    }
}

/// The location in a resource name.
pub fn location_of(full: &str) -> (r: String)
    ensures
        r@ == name_location(full@),
{
    let parts = split_char(full, '/');
    assert(parts@.map_values(|x: String| x@).len() == parts@.len());
    if parts.len() > 3 {
        assert(parts@.map_values(|x: String| x@)[3] == parts@[3]@);
        parts[3].clone()
    } else {
        String::from_str("unknown")
    }
}

/// The first element whose `key` is the text `val`.
pub open spec fn first_with(s: Seq<JsonV>, key: Seq<char>, val: Seq<char>) -> Option<JsonV>
    decreases s.len(),
{
    if s.len() == 0 {
        None
    } else if jstr(jget(s[0], key)) == Some(val) {
        Some(s[0])
    } else {
        first_with(s.drop_first(), key, val)
    }
}

/// The first element whose `key` is the text `val`.
pub fn find_with<'a>(a: &'a Vec<Json>, key: &str, val: &str) -> (r: Option<&'a Json>)
    ensures
        r matches Some(x) ==> first_with(jv_seq(a@), key@, val@) == Some(x@),
        r is None ==> first_with(jv_seq(a@), key@, val@) is None,
{
    let ghost s = jv_seq(a@);
    let n = a.len();
    let mut i: usize = 0;
    assert(s.skip(0) =~= s);
    while i < n
        invariant
            n == a@.len(),
            s == jv_seq(a@),
            i <= n,
            first_with(s, key@, val@) == first_with(s.skip(i as int), key@, val@),
        decreases n - i,
    {
        assert(s.skip(i as int)[0] == a@[i as int]@);
        assert(s.skip(i as int).drop_first() =~= s.skip(i + 1));
        let hit = match a[i].get_str(key) {
            Some(t) => str_eq(t.as_str(), val),
            None => false,
        };
        if hit {
            return Some(&a[i]);
        }
        i = i + 1;
    }
    assert(s.skip(n as int).len() == 0);
    None
}

/// The state of a service's `Ready` condition, `UNKNOWN` without one.
pub open spec fn ready_state(v: JsonV) -> Seq<char> {
    match jarr(jget(v, "conditions"@)) {
        Some(c) => match first_with(c, "type"@, "Ready"@) {
            Some(cond) => str_or(cond, "state"@, "UNKNOWN"@),
            None => "UNKNOWN"@,
        },
        None => "UNKNOWN"@,
    }
}

/// A service is ACTIVE when ready, FAILED when its readiness failed, else UNKNOWN.
pub open spec fn service_status(ready: Seq<char>) -> Seq<char> {
    if ready == "CONDITION_SUCCEEDED"@ {
        "ACTIVE"@
    } else if ready == "CONDITION_FAILED"@ {
        "FAILED"@
    } else {
        "UNKNOWN"@
    }
}

/// The first container of a service template (null without one).
pub open spec fn first_container(template: JsonV) -> JsonV {
    match jarr(jget(template, "containers"@)) {
        Some(a) => if a.len() > 0 {
            a[0]
        } else {
            JsonV::Null
        },
        None => JsonV::Null,
    }
}

/// A resource limit of a container, with a default.
pub open spec fn container_limit(c: JsonV, key: Seq<char>, default: Seq<char>) -> Seq<char> {
    str_or(jget(jget(c, "resources"@), "limits"@), key, default)
}

/// An integer under `scaling` of a template, with a default.
pub open spec fn scaling_count(template: JsonV, key: Seq<char>, default: i64) -> i64 {
    match ji64(jget(jget(template, "scaling"@), key)) {
        Some(n) => n,
        None => default,
    }
}

/// What is kept of a Cloud Run service besides its common fields.
pub open spec fn service_metadata(v: JsonV) -> JsonV {
    let t = jget(v, "template"@);
    let c = first_container(t);
    JsonV::Object(
        Seq::empty().push(("image"@, JsonV::Str(str_or(c, "image"@, "unknown"@)))).push(
            ("memory"@, JsonV::Str(container_limit(c, "memory"@, "512Mi"@))),
        ).push(("cpu"@, JsonV::Str(container_limit(c, "cpu"@, "1"@)))).push(
            (
                "max_instances"@,
                JsonV::Number(num_from_i64(scaling_count(t, "maxInstanceCount"@, 100))),
            ),
        ).push(
            ("min_instances"@, JsonV::Number(num_from_i64(scaling_count(t, "minInstanceCount"@, 0)))),
        ).push(("url"@, JsonV::Str(str_or(v, "uri"@, ""@)))).push(
            ("ingress"@, JsonV::Str(str_or(v, "ingress"@, "INGRESS_TRAFFIC_ALL"@))),
        ).push(("latest_revision"@, jget(v, "latestReadyRevision"@))),
    )
}

/// A Cloud Run service, identified by its full name; warm minimum instances cost their
/// idle price.
pub open spec fn service_resource(v: JsonV, project: Seq<char>) -> Option<ResourceV> {
    match str_at(v, "name"@) {
        Some(full) => Some(
            gcp_resource(
                full,
                after_last(full, '/'),
                ResourceType::CloudRunService,
                name_location(full),
                project,
                service_status(ready_state(v)),
                str_at(v, "createTime"@),
                str_at(v, "updateTime"@),
                add_labels_at(Seq::empty(), v, "labels"@),
                service_metadata(v),
                Some(
                    min_instances_cost(
                        scaling_count(jget(v, "template"@), "minInstanceCount"@, 0),
                        CLOUD_RUN_MIN_INSTANCE,
                    ),
                ),
            ),
        ),
        None => None,
    }
}

/// An integer under `scaling` of a template.
fn scaling_value(template: Option<&Json>, key: &str, default: i64) -> (r: i64)
    ensures
        r == scaling_count(opt_jv(template), key@, default),
{
    let n = match template {
        Some(t) => match t.get("scaling") {
            Some(s) => s.get_i64(key),
            None => None,
        },
        None => None,
    };
    match n {
        Some(x) => x,
        None => default,
    }
}

/// A resource limit of a container.
fn limit_value(c: Option<&Json>, key: &str, default: &str) -> (r: String)
    ensures
        r@ == container_limit(opt_jv(c), key@, default@),
{
    let limits = match c {
        Some(x) => match x.get("resources") {
            Some(res) => res.get("limits"),
            None => None,
        },
        None => None,
    };
    match limits {
        Some(l) => str_at_or(l, key, default),
        None => String::from_str(default),
    }
}

/// Reads a Cloud Run service.
pub fn parse_service(v: &Json, project: &str) -> (r: Option<CloudResource>)
    ensures
        opt_resource_view(r) == service_resource(v@, project@),
{
    let full = match v.get_str("name") {
        Some(n) => n.clone(),
        None => return None,
    };
    let ready = match v.get_array("conditions") {
        Some(c) => match find_with(c, "type", "Ready") {
            Some(cond) => str_at_or(cond, "state", "UNKNOWN"),
            None => String::from_str("UNKNOWN"),
        },
        None => String::from_str("UNKNOWN"),
    };
    let status = if str_eq(ready.as_str(), "CONDITION_SUCCEEDED") {
        String::from_str("ACTIVE")
    } else if str_eq(ready.as_str(), "CONDITION_FAILED") {
        String::from_str("FAILED")
    } else {
        String::from_str("UNKNOWN")
    };
    let template = v.get("template");
    let container: Option<&Json> = match template {
        Some(t) => match t.get_array("containers") {
            Some(a) => if a.len() > 0 {
                Some(&a[0])
            } else {
                None
            },
            None => None,
        },
        None => None,
    };
    assert(opt_jv(container) == first_container(jget(v@, "template"@)));
    let image = match container {
        Some(c) => str_at_or(c, "image", "unknown"),
        None => String::from_str("unknown"),
    };
    let max_instances = scaling_value(template, "maxInstanceCount", 100);
    let min_instances = scaling_value(template, "minInstanceCount", 0);
    let mut m: Vec<(String, Json)> = Vec::new();
    assert(jv_entries(m@) =~= Seq::empty());
    put(&mut m, "image", Json::string(image.as_str()));
    put(&mut m, "memory", Json::string(limit_value(container, "memory", "512Mi").as_str()));
    put(&mut m, "cpu", Json::string(limit_value(container, "cpu", "1").as_str()));
    put(&mut m, "max_instances", Json::signed(max_instances));
    put(&mut m, "min_instances", Json::signed(min_instances));
    put(&mut m, "url", Json::string(str_at_or(v, "uri", "").as_str()));
    put(&mut m, "ingress", Json::string(str_at_or(v, "ingress", "INGRESS_TRAFFIC_ALL").as_str()));
    put(&mut m, "latest_revision", v.field("latestReadyRevision"));
    let cost = estimate_min_instances_cost(min_instances, CLOUD_RUN_MIN_INSTANCE);
    Some(
        CloudResource {
            id: full.clone(),
            name: last_segment(full.as_str(), '/'),
            resource_type: ResourceType::CloudRunService,
            provider: ProviderKind::Gcp,
            region: location_of(full.as_str()),
            account_id: String::from_str(project),
            status,
            created_at: opt_str_at(v, "createTime"),
            last_used: opt_str_at(v, "updateTime"),
            tags: labels_at(v, "labels"),
            metadata: Json::object(m),
            monthly_cost: Some(cost),
        },
    )
}

/// The timeout of a function: `timeoutSeconds` as text; an integer one reads as empty;
/// `60` without one.
pub open spec fn function_timeout(service_config: JsonV) -> Seq<char> {
    match str_at(service_config, "timeoutSeconds"@) {
        Some(s) => s,
        None => if ji64(jget(service_config, "timeoutSeconds"@)) is Some {
            ""@
        } else {
            "60"@
        },
    }
}

/// An integer field with a default.
pub open spec fn int_or(v: JsonV, key: Seq<char>, default: i64) -> i64 {
    match ji64(jget(v, key)) {
        Some(n) => n,
        None => default,
    }
}

/// What is kept of a Cloud Function besides its common fields.
pub open spec fn function_metadata(v: JsonV) -> JsonV {
    let b = jget(v, "buildConfig"@);
    let sc = jget(v, "serviceConfig"@);
    JsonV::Object(
        Seq::empty().push(("runtime"@, JsonV::Str(str_or(b, "runtime"@, "unknown"@)))).push(
            ("entry_point"@, JsonV::Str(str_or(b, "entryPoint"@, ""@))),
        ).push(("environment"@, JsonV::Str(str_or(v, "environment"@, "GEN_2"@)))).push(
            ("memory"@, JsonV::Str(str_or(sc, "availableMemory"@, "256Mi"@))),
        ).push(("timeout_seconds"@, JsonV::Str(function_timeout(sc)))).push(
            ("max_instances"@, JsonV::Number(num_from_i64(int_or(sc, "maxInstanceCount"@, 0)))),
        ).push(
            ("min_instances"@, JsonV::Number(num_from_i64(int_or(sc, "minInstanceCount"@, 0)))),
        ).push(("url"@, jget(sc, "uri"@))).push(("trigger"@, jget(v, "eventTrigger"@))),
    )
}

/// A Cloud Function (v2), identified by its full name; warm minimum instances cost
/// their idle price.
pub open spec fn function_resource(v: JsonV, project: Seq<char>) -> Option<ResourceV> {
    match str_at(v, "name"@) {
        Some(full) => Some(
            gcp_resource(
                full,
                after_last(full, '/'),
                ResourceType::ServerlessFunction,
                name_location(full),
                project,
                str_or(v, "state"@, "UNKNOWN"@),
                str_at(v, "createTime"@),
                str_at(v, "updateTime"@),
                add_labels_at(Seq::empty(), v, "labels"@),
                function_metadata(v),
                Some(
                    min_instances_cost(
                        int_or(jget(v, "serviceConfig"@), "minInstanceCount"@, 0),
                        FUNCTION_MIN_INSTANCE,
                    ),
                ),
            ),
        ),
        None => None,
    }
}


/// An integer field of an optional object, with a default.
fn int_in(v: Option<&Json>, key: &str, default: i64) -> (r: i64)
    ensures
        r == int_or(opt_jv(v), key@, default),
{
    let n = match v {
        Some(x) => x.get_i64(key),
        None => None,
    };
    match n {
        Some(k) => k,
        None => default,
    }
}


/// Reads a Cloud Function.
pub fn parse_function(v: &Json, project: &str) -> (r: Option<CloudResource>)
    ensures
        opt_resource_view(r) == function_resource(v@, project@),
{
    let full = match v.get_str("name") {
        Some(n) => n.clone(),
        None => return None,
    };
    let build = v.get("buildConfig");
    let sc = v.get("serviceConfig");
    let timeout = match sc {
        Some(x) => match x.get_str("timeoutSeconds") {
            Some(s) => s.clone(),
            None => if x.get_i64("timeoutSeconds").is_some() {
                String::from_str("")
            } else {
                String::from_str("60")
            },
        },
        None => String::from_str("60"),
    };
    assert(timeout@ == function_timeout(jget(v@, "serviceConfig"@)));
    let max_instances = int_in(sc, "maxInstanceCount", 0);
    let min_instances = int_in(sc, "minInstanceCount", 0);
    let mut m: Vec<(String, Json)> = Vec::new();
    assert(jv_entries(m@) =~= Seq::empty());
    put(&mut m, "runtime", Json::string(text_in(build, "runtime", "unknown").as_str()));
    put(&mut m, "entry_point", Json::string(text_in(build, "entryPoint", "").as_str()));
    put(&mut m, "environment", Json::string(str_at_or(v, "environment", "GEN_2").as_str()));
    put(&mut m, "memory", Json::string(text_in(sc, "availableMemory", "256Mi").as_str()));
    put(&mut m, "timeout_seconds", Json::string(timeout.as_str()));
    put(&mut m, "max_instances", Json::signed(max_instances));
    put(&mut m, "min_instances", Json::signed(min_instances));
    put(&mut m, "url", field_in(sc, "uri"));
    put(&mut m, "trigger", v.field("eventTrigger"));
    let cost = estimate_min_instances_cost(min_instances, FUNCTION_MIN_INSTANCE);
    Some(
        CloudResource {
            id: full.clone(),
            name: last_segment(full.as_str(), '/'),
            resource_type: ResourceType::ServerlessFunction,
            provider: ProviderKind::Gcp,
            region: location_of(full.as_str()),
            account_id: String::from_str(project),
            status: str_at_or(v, "state", "UNKNOWN"),
            created_at: opt_str_at(v, "createTime"),
            last_used: opt_str_at(v, "updateTime"),
            tags: labels_at(v, "labels"),
            metadata: Json::object(m),
            monthly_cost: Some(cost),
        },
    )
}

/// What is kept of an App Engine version besides its common fields.
pub open spec fn version_metadata(v: JsonV, service: Seq<char>, id: Seq<char>) -> JsonV {
    JsonV::Object(
        Seq::empty().push(("service"@, JsonV::Str(service))).push(("version_id"@, JsonV::Str(id))).push(
            ("runtime"@, JsonV::Str(str_or(v, "runtime"@, "unknown"@))),
        ).push(("serving_status"@, JsonV::Str(str_or(v, "servingStatus"@, "UNKNOWN"@)))).push(
            ("version_url"@, JsonV::Str(str_or(v, "versionUrl"@, "unknown"@))),
        ).push(("instance_class"@, JsonV::Str(str_or(v, "instanceClass"@, "F1"@)))),
    )
}

/// An App Engine version of `service`, named `service/id` and located in the project;
/// only a SERVING version costs its instance class's price.
pub open spec fn version_resource(v: JsonV, service: Seq<char>, project: Seq<char>) -> Option<
    ResourceV,
> {
    match str_at(v, "id"@) {
        Some(id) => {
            let serving = str_or(v, "servingStatus"@, "UNKNOWN"@);
            Some(
                gcp_resource(
                    service + "/"@ + id,
                    service + "/"@ + id,
                    ResourceType::AppEngineVersion,
                    project,
                    project,
                    serving,
                    str_at(v, "createTime"@),
                    None,
                    Seq::empty(),
                    version_metadata(v, service, id),
                    Some(
                        if serving == "SERVING"@ {
                            appengine_cost(str_or(v, "instanceClass"@, "F1"@))
                        } else {
                            0
                        },
                    ),
                ),
            )
        },
        None => None,
    }
}

/// Reads an App Engine version of a service.
pub fn parse_appengine_version(v: &Json, service: &str, project: &str) -> (r: Option<
    CloudResource,
>)
    ensures
        opt_resource_view(r) == version_resource(v@, service@, project@),
{
    let id = match v.get_str("id") {
        Some(x) => x.clone(),
        None => return None,
    };
    let serving = str_at_or(v, "servingStatus", "UNKNOWN");
    let class = str_at_or(v, "instanceClass", "F1");
    let name = cat3(service, "/", id.as_str());
    let mut m: Vec<(String, Json)> = Vec::new();
    assert(jv_entries(m@) =~= Seq::empty());
    put(&mut m, "service", Json::string(service));
    put(&mut m, "version_id", Json::string(id.as_str()));
    put(&mut m, "runtime", Json::string(str_at_or(v, "runtime", "unknown").as_str()));
    put(&mut m, "serving_status", Json::string(serving.as_str()));
    put(&mut m, "version_url", Json::string(str_at_or(v, "versionUrl", "unknown").as_str()));
    put(&mut m, "instance_class", Json::string(class.as_str()));
    let cost: u64 = if str_eq(serving.as_str(), "SERVING") {
        estimate_appengine_cost(class.as_str())
    } else {
        0
    };
    let tags: Vec<(String, String)> = Vec::new();
    assert(pairs_view(tags@) =~= Seq::<(Seq<char>, Seq<char>)>::empty());
    Some(
        CloudResource {
            id: name.clone(),
            name,
            resource_type: ResourceType::AppEngineVersion,
            provider: ProviderKind::Gcp,
            region: String::from_str(project),
            account_id: String::from_str(project),
            status: serving,
            created_at: opt_str_at(v, "createTime"),
            last_used: None,
            tags,
            metadata: Json::object(m),
            monthly_cost: Some(cost),
        },
    )
}

/// A Cloud Run service is read whenever it has a name. Its status is ACTIVE exactly when
/// its `Ready` condition succeeded and FAILED exactly when that condition failed; any
/// other state, or no `Ready` condition, reads as UNKNOWN.
pub proof fn law_service_status_follows_readiness(v: JsonV, project: Seq<char>)
    ensures
        service_resource(v, project) is Some <==> str_at(v, "name"@) is Some,
        service_resource(v, project) matches Some(r) ==> {
            &&& r.resource_type == ResourceType::CloudRunService
            &&& r.account_id == project
            &&& (r.status == "ACTIVE"@ <==> ready_state(v) == "CONDITION_SUCCEEDED"@)
            &&& (r.status == "FAILED"@ <==> ready_state(v) == "CONDITION_FAILED"@)
            &&& (r.status == "UNKNOWN"@ <==> ready_state(v) != "CONDITION_SUCCEEDED"@
                && ready_state(v) != "CONDITION_FAILED"@)
        },
{
    reveal_strlit("ACTIVE");
    reveal_strlit("FAILED");
    reveal_strlit("UNKNOWN");
    reveal_strlit("CONDITION_SUCCEEDED");
    reveal_strlit("CONDITION_FAILED");
    assert("ACTIVE"@[0] != "FAILED"@[0]);
    assert("UNKNOWN"@.len() != "FAILED"@.len() && "UNKNOWN"@.len() != "ACTIVE"@.len());
    assert("CONDITION_SUCCEEDED"@.len() != "CONDITION_FAILED"@.len());
}


/// A Cloud Function keeps the state the API reports (UNKNOWN without one) and costs $5.40
/// a month per minimum instance kept warm.
pub proof fn law_function_reading(v: JsonV, project: Seq<char>)
    ensures
        function_resource(v, project) is Some <==> str_at(v, "name"@) is Some,
        function_resource(v, project) matches Some(r) ==> {
            &&& r.resource_type == ResourceType::ServerlessFunction
            &&& r.status == str_or(v, "state"@, "UNKNOWN"@)
            &&& r.monthly_cost == Some(min_instances_cost(
                int_or(jget(v, "serviceConfig"@), "minInstanceCount"@, 0),
                5_400_000_000,
            ))
        },
{
}

/// An App Engine version is named `service/id`, keeps its serving status, and only a
/// SERVING version costs its instance class's price (F1 when none is given); a stopped
/// version costs nothing.
pub proof fn law_version_price_follows_serving(v: JsonV, service: Seq<char>, project: Seq<char>)
    ensures
        version_resource(v, service, project) is Some <==> str_at(v, "id"@) is Some,
        version_resource(v, service, project) matches Some(r) ==> {
            &&& r.resource_type == ResourceType::AppEngineVersion
            &&& r.status == str_or(v, "servingStatus"@, "UNKNOWN"@)
            &&& r.id == service + "/"@ + str_at(v, "id"@)->0
            &&& r.monthly_cost == Some(if r.status == "SERVING"@ {
                appengine_cost(str_or(v, "instanceClass"@, "F1"@))
            } else {
                0u64
            })
        },
{
}


/// `first_with` finds the first element whose `key` is the text `val`: every element
/// before it has another value there, and when it finds none, no element has it.
pub proof fn law_first_with_finds_the_first(s: Seq<JsonV>, key: Seq<char>, val: Seq<char>)
    ensures
        first_with(s, key, val) matches Some(x) ==> exists|i: int|
            0 <= i < s.len() && s[i] == x && jstr(jget(x, key)) == Some(val) && forall|j: int|
                0 <= j < i ==> jstr(jget(#[trigger] s[j], key)) != Some(val),
        first_with(s, key, val) is None ==> forall|i: int|
            0 <= i < s.len() ==> jstr(jget(#[trigger] s[i], key)) != Some(val),
    decreases s.len(),
{
    if s.len() > 0 && jstr(jget(s[0], key)) != Some(val) {
        law_first_with_finds_the_first(s.drop_first(), key, val);
        let t = s.drop_first();
        if let Some(x) = first_with(s, key, val) {
            let i = choose|i: int|
                0 <= i < t.len() && t[i] == x && jstr(jget(x, key)) == Some(val) && forall|j: int|
                    0 <= j < i ==> jstr(jget(#[trigger] t[j], key)) != Some(val);
            assert(s[i + 1] == x);
            assert forall|j: int| 0 <= j < i + 1 implies jstr(jget(#[trigger] s[j], key)) != Some(
                val,
            ) by {
                if j > 0 {
                    assert(s[j] == t[j - 1]);
                }
            }
        } else {
            assert forall|i: int| 0 <= i < s.len() implies jstr(jget(#[trigger] s[i], key)) != Some(
                val,
            ) by {
                if i > 0 {
                    assert(s[i] == t[i - 1]);
                }
            }
        }
    } else if s.len() > 0 {
        assert(s[0] == s[0]);
    }
}


/// A Cloud Run service is identified by its full name, named by its last part, located
/// in the location its name gives, and costs $15 a month per minimum instance its
/// template keeps warm (`template.scaling.minInstanceCount`, none by default).
pub proof fn law_service_identity_and_price(v: JsonV, project: Seq<char>)
    ensures
        service_resource(v, project) matches Some(r) ==> {
            &&& r.id == str_at(v, "name"@)->0
            &&& r.name == after_last(str_at(v, "name"@)->0, '/')
            &&& r.region == name_location(str_at(v, "name"@)->0)
            &&& r.monthly_cost == Some(min_instances_cost(
                match ji64(jget(jget(jget(v, "template"@), "scaling"@), "minInstanceCount"@)) {
                    Some(n) => n,
                    None => 0,
                },
                15_000_000_000,
            ))
        },
{
}

} // verus!
