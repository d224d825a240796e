//! The digest of everything that a certification attempt certifies.

use crate::certification::names::{self, SandboxPool, REQUIRED_POOL_ACK_RELEASE};
use crate::crd::sandbox::{
    SandboxContainerSpec, SandboxExecutionCanary, SandboxIsolation, SandboxPortSpec,
    SandboxResourceQuantity, SandboxTemplateSpec,
};
use crate::digest::{self, sha256_hex_of};
use crate::json::{self, Json, JsonNumber};
use crate::k8s::{self, DynamicObject};
use crate::text;
use vstd::prelude::*;
use vstd::string::*;
use vstd::utf8::*;

verus! {

/// A list of texts as JSON.
pub open spec fn texts_value(values: Seq<Seq<char>>) -> json::JsonView {
    json::JsonView::Array(json::text_views(values))
}

/// A canary as JSON.
pub open spec fn canary_value(canary: SandboxExecutionCanary) -> json::JsonView {
    json::JsonView::Object(
        seq![
            ("argv"@, texts_value(text::texts(canary.argv@))),
            ("timeout"@, json::JsonView::Text(canary.timeout@)),
        ],
    )
}

/// An isolation tier as JSON.
pub open spec fn isolation_value(isolation: SandboxIsolation) -> json::JsonView {
    match isolation {
        SandboxIsolation::TrustedRunc {  } => json::JsonView::Object(
            seq![("tier"@, json::JsonView::Text("trusted-runc"@))],
        ),
        SandboxIsolation::Gvisor { runtime_class_name } => json::JsonView::Object(
            seq![
                ("runtimeClassName"@, json::JsonView::Text(runtime_class_name@)),
                ("tier"@, json::JsonView::Text("gvisor"@)),
            ],
        ),
        SandboxIsolation::Kata { runtime_class_name } => json::JsonView::Object(
            seq![
                ("runtimeClassName"@, json::JsonView::Text(runtime_class_name@)),
                ("tier"@, json::JsonView::Text("kata"@)),
            ],
        ),
    }
}

/// A set of quantities as JSON.
pub open spec fn quantity_value(quantity: SandboxResourceQuantity) -> json::JsonView {
    json::JsonView::Object(
        seq![
            ("cpu"@, json::JsonView::Text(quantity.cpu@)),
            ("ephemeralStorage"@, json::JsonView::Text(quantity.ephemeral_storage@)),
            ("memory"@, json::JsonView::Text(quantity.memory@)),
        ],
    )
}

/// A container as JSON.
pub open spec fn container_value(container: SandboxContainerSpec) -> json::JsonView {
    json::JsonView::Object(
        seq![
            ("args"@, texts_value(text::texts(container.args@))),
            ("command"@, texts_value(text::texts(container.command@))),
            ("image"@, json::JsonView::Text(container.image@)),
            ("name"@, json::JsonView::Text(container.name@)),
            (
                "resources"@,
                json::JsonView::Object(
                    seq![
                        ("limits"@, quantity_value(container.resources.limits)),
                        ("requests"@, quantity_value(container.resources.requests)),
                    ],
                ),
            ),
        ],
    )
}

/// A port as JSON.
pub open spec fn port_value(port: SandboxPortSpec) -> json::JsonView {
    json::JsonView::Object(
        seq![
            ("container"@, json::JsonView::Text(port.container@)),
            ("name"@, json::JsonView::Text(port.name@)),
            ("port"@, json::JsonView::Number(json::NumberView::Integer(port.port as int))),
        ],
    )
}

/// A template as JSON; the runner's path only where there is one.
pub open spec fn template_value(template: SandboxTemplateSpec) -> json::JsonView {
    let members = seq![
        (
            "containers"@,
            json::JsonView::Array(
                template.containers@.map_values(
                    |container: SandboxContainerSpec| container_value(container),
                ),
            ),
        ),
        ("defaultContainer"@, json::JsonView::Text(template.default_container@)),
        (
            "exposedPorts"@,
            json::JsonView::Array(
                template.exposed_ports@.map_values(|port: SandboxPortSpec| port_value(port)),
            ),
        ),
    ];
    json::JsonView::Object(
        match template.runner_path {
            Some(path) => members.push(("runnerPath"@, json::JsonView::Text(path@))),
            None => members,
        },
    )
}

/// A UID as JSON.
pub open spec fn uid_value(uid: Option<Seq<char>>) -> json::JsonView {
    match uid {
        Some(uid) => json::JsonView::Text(uid),
        None => json::JsonView::Null,
    }
}

/// An upstream object's name and UID as JSON.
pub open spec fn named_value(object: k8s::MetaView) -> json::JsonView {
    json::JsonView::Object(
        seq![
            ("name"@, json::JsonView::Text(object.any_name())),
            ("uid"@, uid_value(object.uid)),
        ],
    )
}

/// Everything that an attempt certifies, as JSON.
pub open spec fn evidence(
    pool: SandboxPool,
    template: k8s::MetaView,
    warm_pool: k8s::MetaView,
    runtime_api_version: Seq<char>,
) -> json::JsonView {
    json::JsonView::Object(
        seq![
            ("isolation"@, isolation_value(pool.spec.isolation)),
            (
                "pool"@,
                json::JsonView::Object(
                    seq![
                        (
                            "generation"@,
                            json::JsonView::Number(
                                json::NumberView::Integer(pool.metadata.generation->0 as int),
                            ),
                        ),
                        ("uid"@, uid_value(pool.metadata@.uid)),
                    ],
                ),
            ),
            (
                "probe"@,
                json::JsonView::Object(seq![("canary"@, canary_value(pool.spec.readiness.canary))]),
            ),
            (
                "runtime"@,
                json::JsonView::Object(
                    seq![
                        ("apiVersion"@, json::JsonView::Text(runtime_api_version)),
                        ("release"@, json::JsonView::Text(REQUIRED_POOL_ACK_RELEASE@)),
                    ],
                ),
            ),
            ("template"@, named_value(template)),
            ("templateSpec"@, template_value(pool.spec.template)),
            ("warmPool"@, named_value(warm_pool)),
        ],
    )
}

/// The fingerprint of an attempt, or why there is none.
pub open spec fn fingerprint(
    pool: SandboxPool,
    template: k8s::MetaView,
    warm_pool: k8s::MetaView,
    runtime_api_version: Seq<char>,
) -> Result<Seq<char>, Seq<char>> {
    if k8s::nonempty(pool.metadata@.uid) is None {
        Err("SandboxPool UID is missing"@)
    } else if pool.metadata.generation is None {
        Err("SandboxPool generation is missing"@)
    } else {
        Ok(
            digest::sha256_hex(
                encode_utf8(
                    json::value_text(evidence(pool, template, warm_pool, runtime_api_version)),
                ),
            ),
        )
    }
}

fn canary_json(canary: &SandboxExecutionCanary) -> (value: Json)
    ensures
        value@ == canary_value(*canary),
{
    Json::object2(
        "argv",
        Json::strings(canary.argv.as_slice()),
        "timeout",
        Json::string(canary.timeout.as_str()),
    )
}

fn isolation_json(isolation: &SandboxIsolation) -> (value: Json)
    ensures
        value@ == isolation_value(*isolation),
{
    match isolation {
        SandboxIsolation::TrustedRunc {  } => Json::object1("tier", Json::string("trusted-runc")),
        SandboxIsolation::Gvisor { runtime_class_name } => Json::object2(
            "runtimeClassName",
            Json::string(runtime_class_name.as_str()),
            "tier",
            Json::string("gvisor"),
        ),
        SandboxIsolation::Kata { runtime_class_name } => Json::object2(
            "runtimeClassName",
            Json::string(runtime_class_name.as_str()),
            "tier",
            Json::string("kata"),
        ),
    }
}

fn quantity_json(quantity: &SandboxResourceQuantity) -> (value: Json)
    ensures
        value@ == quantity_value(*quantity),
{
    Json::object3(
        "cpu",
        Json::string(quantity.cpu.as_str()),
        "ephemeralStorage",
        Json::string(quantity.ephemeral_storage.as_str()),
        "memory",
        Json::string(quantity.memory.as_str()),
    )
}

fn container_json(container: &SandboxContainerSpec) -> (value: Json)
    ensures
        value@ == container_value(*container),
{
    let resources = Json::object2(
        "limits",
        quantity_json(&container.resources.limits),
        "requests",
        quantity_json(&container.resources.requests),
    );
    let value = Json::object3(
        "args",
        Json::strings(container.args.as_slice()),
        "command",
        Json::strings(container.command.as_slice()),
        "image",
        Json::string(container.image.as_str()),
    ).with_member("name", Json::string(container.name.as_str())).with_member(
        "resources",
        resources,
    );
    assert(value@->Object_0 =~= container_value(*container)->Object_0);
    value
}

fn port_json(port: &SandboxPortSpec) -> (value: Json)
    ensures
        value@ == port_value(*port),
{
    Json::object3(
        "container",
        Json::string(port.container.as_str()),
        "name",
        Json::string(port.name.as_str()),
        "port",
        Json::Number(JsonNumber::Unsigned(port.port as u64)),
    )
}

fn template_json(template: &SandboxTemplateSpec) -> (value: Json)
    ensures
        value@ == template_value(*template),
{
    let mut containers: Vec<Json> = Vec::new();
    let mut i: usize = 0;
    while i < template.containers.len()
        invariant
            i <= template.containers@.len(),
            containers@.len() == i,
            forall|k: int|
                0 <= k < i ==> (#[trigger] containers@[k])@ == container_value(
                    template.containers@[k],
                ),
        decreases template.containers@.len() - i,
    {
        containers.push(container_json(&template.containers[i]));
        i = i + 1;
    }
    let mut ports: Vec<Json> = Vec::new();
    let mut j: usize = 0;
    while j < template.exposed_ports.len()
        invariant
            j <= template.exposed_ports@.len(),
            ports@.len() == j,
            forall|k: int|
                0 <= k < j ==> (#[trigger] ports@[k])@ == port_value(template.exposed_ports@[k]),
        decreases template.exposed_ports@.len() - j,
    {
        ports.push(port_json(&template.exposed_ports[j]));
        j = j + 1;
    }
    assert(json::views(containers@) =~= template.containers@.map_values(
        |container: SandboxContainerSpec| container_value(container),
    ));
    assert(json::views(ports@) =~= template.exposed_ports@.map_values(
        |port: SandboxPortSpec| port_value(port),
    ));
    let value = Json::object3(
        "containers",
        Json::array(containers),
        "defaultContainer",
        Json::string(template.default_container.as_str()),
        "exposedPorts",
        Json::array(ports),
    );
    match &template.runner_path {
        Some(path) => value.with_member("runnerPath", Json::string(path.as_str())),
        None => value,
    }
}

fn uid_json(uid: &Option<String>) -> (value: Json)
    ensures
        value@ == uid_value(text::opt_text(*uid)),
{
    match uid {
        Some(uid) => Json::string(uid.as_str()),
        None => Json::Null,
    }
}

fn named_json(object: &DynamicObject) -> (value: Json)
    ensures
        value@ == named_value(object.metadata@),
{
    Json::object2(
        "name",
        Json::string(object.metadata.name_any().as_str()),
        "uid",
        uid_json(&object.metadata.uid),
    )
}

/// The fingerprint of an attempt: the digest of the pool's identity, its
/// template, isolation and canary, of the upstream objects' identities and of
/// the runtime. `runtime_api_version` is the upstream API that the build needs.
pub fn certification_fingerprint(
    pool: &SandboxPool,
    template: &DynamicObject,
    warm_pool: &DynamicObject,
    runtime_api_version: &str,
) -> (result: Result<String, String>)
    ensures
        text::outcome(result) == fingerprint(
            *pool,
            template.metadata@,
            warm_pool.metadata@,
            runtime_api_version@,
        ),
        result matches Ok(value) ==> value@.len() == 64 && digest::all_hex_digits(value@)
            && is_ascii_chars(value@) && names::names_a_fence(value@),
{
    if pool.metadata.present_uid().is_none() {
        return Err("SandboxPool UID is missing".to_owned());
    }
    let generation: i64 = match pool.metadata.generation {
        Some(generation) => generation,
        None => {
            return Err("SandboxPool generation is missing".to_owned());
        },
    };
    let runtime = Json::object2(
        "apiVersion",
        Json::string(runtime_api_version),
        "release",
        Json::string(REQUIRED_POOL_ACK_RELEASE),
    );
    let identity = Json::object2(
        "generation",
        Json::integer(generation),
        "uid",
        uid_json(&pool.metadata.uid),
    );
    let value = Json::object3(
        "isolation",
        isolation_json(&pool.spec.isolation),
        "pool",
        identity,
        "probe",
        Json::object1("canary", canary_json(&pool.spec.readiness.canary)),
    ).with_member("runtime", runtime).with_member("template", named_json(template)).with_member(
        "templateSpec",
        template_json(&pool.spec.template),
    ).with_member("warmPool", named_json(warm_pool));
    assert(value@->Object_0 =~= evidence(
        *pool,
        template.metadata@,
        warm_pool.metadata@,
        runtime_api_version@,
    )->Object_0);
    let encoded = value.to_text();
    let digest = sha256_hex_of(encoded.as_str().as_bytes());
    proof {
        names::law_digest_names_a_fence(digest@);
    }
    Ok(digest)
}

} // verus!
