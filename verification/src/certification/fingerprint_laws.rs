//! What is hashed for a fingerprint determines everything that is certified.

use crate::certification::fingerprint;
use crate::certification::names::SandboxPool;
use crate::crd::sandbox::{
    SandboxContainerSpec, SandboxExecutionCanary, SandboxIsolation, SandboxPortSpec,
    SandboxResourceQuantity, SandboxTemplateSpec,
};
use crate::json;
use crate::json_laws;
use crate::k8s;
use crate::text;
use vstd::prelude::*;
use vstd::utf8::*;

verus! {

/// Whether two tiers isolate in the same way.
pub open spec fn same_isolation(a: SandboxIsolation, b: SandboxIsolation) -> bool {
    match (a, b) {
        (SandboxIsolation::TrustedRunc {  }, SandboxIsolation::TrustedRunc {  }) => true,
        (
            SandboxIsolation::Gvisor { runtime_class_name: x },
            SandboxIsolation::Gvisor { runtime_class_name: y },
        ) => x@ == y@,
        (
            SandboxIsolation::Kata { runtime_class_name: x },
            SandboxIsolation::Kata { runtime_class_name: y },
        ) => x@ == y@,
        _ => false,
    }
}

/// Whether two canaries run the same command for the same time.
pub open spec fn same_canary(a: SandboxExecutionCanary, b: SandboxExecutionCanary) -> bool {
    text::texts(a.argv@) == text::texts(b.argv@) && a.timeout@ == b.timeout@
}

/// Whether two sets of quantities are the same.
pub open spec fn same_quantity(a: SandboxResourceQuantity, b: SandboxResourceQuantity) -> bool {
    a.cpu@ == b.cpu@ && a.memory@ == b.memory@ && a.ephemeral_storage@ == b.ephemeral_storage@
}

/// Whether two containers are the same.
pub open spec fn same_container(a: SandboxContainerSpec, b: SandboxContainerSpec) -> bool {
    &&& a.name@ == b.name@
    &&& a.image@ == b.image@
    &&& text::texts(a.command@) == text::texts(b.command@)
    &&& text::texts(a.args@) == text::texts(b.args@)
    &&& same_quantity(a.resources.requests, b.resources.requests)
    &&& same_quantity(a.resources.limits, b.resources.limits)
}

/// Whether two ports are the same.
pub open spec fn same_port(a: SandboxPortSpec, b: SandboxPortSpec) -> bool {
    a.name@ == b.name@ && a.container@ == b.container@ && a.port == b.port
}

/// Whether two templates are the same.
pub open spec fn same_template(a: SandboxTemplateSpec, b: SandboxTemplateSpec) -> bool {
    &&& a.default_container@ == b.default_container@
    &&& a.containers@.len() == b.containers@.len()
    &&& forall|i: int|
        0 <= i < a.containers@.len() ==> same_container(
            #[trigger] a.containers@[i],
            b.containers@[i],
        )
    &&& a.exposed_ports@.len() == b.exposed_ports@.len()
    &&& forall|i: int|
        0 <= i < a.exposed_ports@.len() ==> same_port(
            #[trigger] a.exposed_ports@[i],
            b.exposed_ports@[i],
        )
    &&& text::opt_text(a.runner_path) == text::opt_text(b.runner_path)
}

proof fn lemma_texts(a: Seq<Seq<char>>, b: Seq<Seq<char>>)
    ensures
        json_laws::integral(fingerprint::texts_value(a)),
        fingerprint::texts_value(a) == fingerprint::texts_value(b) ==> a == b,
{
    let p = json::text_views(a);
    let q = json::text_views(b);
    assert forall|i: int| 0 <= i < p.len() implies json_laws::integral(#[trigger] p[i]) by {
        assert(p[i] is Text);
    }
    if fingerprint::texts_value(a) == fingerprint::texts_value(b) {
        assert(p.len() == q.len());
        assert forall|i: int| 0 <= i < a.len() implies a[i] == b[i] by {
            assert(p[i]->Text_0 == q[i]->Text_0);
        }
        assert(a =~= b);
    }
}

proof fn lemma_canary(a: SandboxExecutionCanary, b: SandboxExecutionCanary)
    ensures
        json_laws::integral(fingerprint::canary_value(a)),
        fingerprint::canary_value(a) == fingerprint::canary_value(b) ==> same_canary(a, b),
{
    let p = fingerprint::canary_value(a)->Object_0;
    let q = fingerprint::canary_value(b)->Object_0;
    lemma_texts(text::texts(a.argv@), text::texts(b.argv@));
    assert forall|i: int| 0 <= i < p.len() implies json_laws::integral((#[trigger] p[i]).1) by {
        assert(i == 1 ==> p[i].1 is Text);
    }
    if fingerprint::canary_value(a) == fingerprint::canary_value(b) {
        assert(p[0].1 == q[0].1);
        assert(p[1].1->Text_0 == q[1].1->Text_0);
    }
}

proof fn lemma_isolation(a: SandboxIsolation, b: SandboxIsolation)
    ensures
        json_laws::integral(fingerprint::isolation_value(a)),
        fingerprint::isolation_value(a) == fingerprint::isolation_value(b) ==> same_isolation(a, b),
{
    let p = fingerprint::isolation_value(a)->Object_0;
    let q = fingerprint::isolation_value(b)->Object_0;
    assert forall|i: int| 0 <= i < p.len() implies json_laws::integral((#[trigger] p[i]).1) by {
        assert(p[i].1 is Text);
    }
    if fingerprint::isolation_value(a) == fingerprint::isolation_value(b) {
        reveal_strlit("gvisor");
        reveal_strlit("kata");
        assert("gvisor"@.len() == 6 && "kata"@.len() == 4);
        assert(p.len() == q.len());
        assert(p[0].1->Text_0 == q[0].1->Text_0);
        if p.len() == 2 {
            assert(p[1].1->Text_0 == q[1].1->Text_0);
        }
    }
}

proof fn lemma_quantity(a: SandboxResourceQuantity, b: SandboxResourceQuantity)
    ensures
        json_laws::integral(fingerprint::quantity_value(a)),
        fingerprint::quantity_value(a) == fingerprint::quantity_value(b) ==> same_quantity(a, b),
{
    let p = fingerprint::quantity_value(a)->Object_0;
    let q = fingerprint::quantity_value(b)->Object_0;
    assert forall|i: int| 0 <= i < p.len() implies json_laws::integral((#[trigger] p[i]).1) by {
        assert(p[i].1 is Text);
    }
    if fingerprint::quantity_value(a) == fingerprint::quantity_value(b) {
        assert(p[0].1->Text_0 == q[0].1->Text_0);
        assert(p[1].1->Text_0 == q[1].1->Text_0);
        assert(p[2].1->Text_0 == q[2].1->Text_0);
    }
}

proof fn lemma_container(a: SandboxContainerSpec, b: SandboxContainerSpec)
    ensures
        json_laws::integral(fingerprint::container_value(a)),
        fingerprint::container_value(a) == fingerprint::container_value(b) ==> same_container(a, b),
{
    let p = fingerprint::container_value(a)->Object_0;
    let q = fingerprint::container_value(b)->Object_0;
    lemma_texts(text::texts(a.args@), text::texts(b.args@));
    lemma_texts(text::texts(a.command@), text::texts(b.command@));
    lemma_quantity(a.resources.limits, b.resources.limits);
    lemma_quantity(a.resources.requests, b.resources.requests);
    let x = p[4].1->Object_0;
    let y = q[4].1->Object_0;
    assert forall|i: int| 0 <= i < x.len() implies json_laws::integral((#[trigger] x[i]).1) by {
        assert(i == 0 || i == 1);
    }
    assert forall|i: int| 0 <= i < p.len() implies json_laws::integral((#[trigger] p[i]).1) by {
        assert(i == 2 || i == 3 ==> p[i].1 is Text);
        assert(i == 4 ==> p[i].1 == json::JsonView::Object(x));
    }
    if fingerprint::container_value(a) == fingerprint::container_value(b) {
        assert(p[0].1 == q[0].1 && p[1].1 == q[1].1);
        assert(p[2].1->Text_0 == q[2].1->Text_0);
        assert(p[3].1->Text_0 == q[3].1->Text_0);
        assert(x[0].1 == y[0].1 && x[1].1 == y[1].1);
    }
}

proof fn lemma_port(a: SandboxPortSpec, b: SandboxPortSpec)
    ensures
        json_laws::integral(fingerprint::port_value(a)),
        fingerprint::port_value(a) == fingerprint::port_value(b) ==> same_port(a, b),
{
    let p = fingerprint::port_value(a)->Object_0;
    let q = fingerprint::port_value(b)->Object_0;
    assert forall|i: int| 0 <= i < p.len() implies json_laws::integral((#[trigger] p[i]).1) by {
        assert(i < 2 ==> p[i].1 is Text);
        assert(i == 2 ==> p[i].1->Number_0 is Integer);
    }
    if fingerprint::port_value(a) == fingerprint::port_value(b) {
        assert(p[0].1->Text_0 == q[0].1->Text_0);
        assert(p[1].1->Text_0 == q[1].1->Text_0);
        assert(p[2].1 == q[2].1);
    }
}

proof fn lemma_template(a: SandboxTemplateSpec, b: SandboxTemplateSpec)
    ensures
        json_laws::integral(fingerprint::template_value(a)),
        fingerprint::template_value(a) == fingerprint::template_value(b) ==> same_template(a, b),
{
    let p = fingerprint::template_value(a)->Object_0;
    let q = fingerprint::template_value(b)->Object_0;
    let containers_a = p[0].1->Array_0;
    let containers_b = q[0].1->Array_0;
    let ports_a = p[2].1->Array_0;
    let ports_b = q[2].1->Array_0;
    assert forall|i: int| 0 <= i < containers_a.len() implies json_laws::integral(
        #[trigger] containers_a[i],
    ) by {
        lemma_container(a.containers@[i], a.containers@[i]);
    }
    assert forall|i: int| 0 <= i < ports_a.len() implies json_laws::integral(
        #[trigger] ports_a[i],
    ) by {
        lemma_port(a.exposed_ports@[i], a.exposed_ports@[i]);
    }
    assert forall|i: int| 0 <= i < p.len() implies json_laws::integral((#[trigger] p[i]).1) by {
        assert(i == 0 ==> p[i].1 == json::JsonView::Array(containers_a));
        assert(i == 2 ==> p[i].1 == json::JsonView::Array(ports_a));
        assert(i == 1 || i == 3 ==> p[i].1 is Text);
    }
    if fingerprint::template_value(a) == fingerprint::template_value(b) {
        assert(p.len() == q.len());
        assert(containers_a.len() == containers_b.len() && ports_a.len() == ports_b.len());
        assert forall|i: int| 0 <= i < a.containers@.len() implies same_container(
            #[trigger] a.containers@[i],
            b.containers@[i],
        ) by {
            assert(containers_a[i] == containers_b[i]);
            lemma_container(a.containers@[i], b.containers@[i]);
        }
        assert forall|i: int| 0 <= i < a.exposed_ports@.len() implies same_port(
            #[trigger] a.exposed_ports@[i],
            b.exposed_ports@[i],
        ) by {
            assert(ports_a[i] == ports_b[i]);
            lemma_port(a.exposed_ports@[i], b.exposed_ports@[i]);
        }
        assert(p[1].1->Text_0 == q[1].1->Text_0);
        if p.len() == 4 {
            assert(p[3].1->Text_0 == q[3].1->Text_0);
        }
    }
}

proof fn lemma_named(a: k8s::MetaView, b: k8s::MetaView)
    ensures
        json_laws::integral(fingerprint::named_value(a)),
        fingerprint::named_value(a) == fingerprint::named_value(b) ==> a.any_name() == b.any_name()
            && a.uid == b.uid,
{
    let p = fingerprint::named_value(a)->Object_0;
    let q = fingerprint::named_value(b)->Object_0;
    assert forall|i: int| 0 <= i < p.len() implies json_laws::integral((#[trigger] p[i]).1) by {
        assert(p[i].1 is Text || p[i].1 is Null);
    }
    if fingerprint::named_value(a) == fingerprint::named_value(b) {
        assert(p[0].1->Text_0 == q[0].1->Text_0);
        assert(p[1].1 == q[1].1);
    }
}

proof fn lemma_evidence_is_integral(
    pool: SandboxPool,
    template: k8s::MetaView,
    warm_pool: k8s::MetaView,
    runtime_api_version: Seq<char>,
)
    ensures
        json_laws::integral(
            fingerprint::evidence(pool, template, warm_pool, runtime_api_version),
        ),
{
    let p = fingerprint::evidence(pool, template, warm_pool, runtime_api_version)->Object_0;
    lemma_isolation(pool.spec.isolation, pool.spec.isolation);
    lemma_canary(pool.spec.readiness.canary, pool.spec.readiness.canary);
    lemma_template(pool.spec.template, pool.spec.template);
    lemma_named(template, template);
    lemma_named(warm_pool, warm_pool);
    let identity = p[1].1->Object_0;
    assert forall|i: int| 0 <= i < identity.len() implies json_laws::integral(
        (#[trigger] identity[i]).1,
    ) by {
        assert(i == 0 ==> identity[i].1->Number_0 is Integer);
        assert(i == 1 ==> identity[i].1 is Text || identity[i].1 is Null);
    }
    let probe = p[2].1->Object_0;
    assert forall|i: int| 0 <= i < probe.len() implies json_laws::integral(
        (#[trigger] probe[i]).1,
    ) by {
        assert(i == 0);
    }
    let runtime = p[3].1->Object_0;
    assert forall|i: int| 0 <= i < runtime.len() implies json_laws::integral(
        (#[trigger] runtime[i]).1,
    ) by {
        assert(runtime[i].1 is Text);
    }
    assert forall|i: int| 0 <= i < p.len() implies json_laws::integral((#[trigger] p[i]).1) by {
        assert(i == 1 ==> p[i].1 == json::JsonView::Object(identity));
        assert(i == 2 ==> p[i].1 == json::JsonView::Object(probe));
        assert(i == 3 ==> p[i].1 == json::JsonView::Object(runtime));
    }
}

/// A fingerprint is taken of a text that determines what it certifies: the pool
/// and its generation, its template, isolation and canary, the upstream objects'
/// names and UIDs, and the runtime API. Where any of these differs, different
/// bytes are hashed.
pub proof fn law_fingerprint_text_is_unambiguous(
    pool: SandboxPool,
    template: k8s::MetaView,
    warm_pool: k8s::MetaView,
    runtime_api_version: Seq<char>,
    other_pool: SandboxPool,
    other_template: k8s::MetaView,
    other_warm_pool: k8s::MetaView,
    other_runtime_api_version: Seq<char>,
)
    requires
        pool.metadata.generation is Some,
        other_pool.metadata.generation is Some,
        encode_utf8(
            json::value_text(
                fingerprint::evidence(pool, template, warm_pool, runtime_api_version),
            ),
        ) == encode_utf8(
            json::value_text(
                fingerprint::evidence(
                    other_pool,
                    other_template,
                    other_warm_pool,
                    other_runtime_api_version,
                ),
            ),
        ),
    ensures
        pool.metadata@.uid == other_pool.metadata@.uid,
        pool.metadata.generation == other_pool.metadata.generation,
        same_isolation(pool.spec.isolation, other_pool.spec.isolation),
        same_canary(pool.spec.readiness.canary, other_pool.spec.readiness.canary),
        same_template(pool.spec.template, other_pool.spec.template),
        template.any_name() == other_template.any_name(),
        template.uid == other_template.uid,
        warm_pool.any_name() == other_warm_pool.any_name(),
        warm_pool.uid == other_warm_pool.uid,
        runtime_api_version == other_runtime_api_version,
{
    let a = fingerprint::evidence(pool, template, warm_pool, runtime_api_version);
    let b = fingerprint::evidence(
        other_pool,
        other_template,
        other_warm_pool,
        other_runtime_api_version,
    );
    encode_utf8_decode_utf8(json::value_text(a));
    encode_utf8_decode_utf8(json::value_text(b));
    lemma_evidence_is_integral(pool, template, warm_pool, runtime_api_version);
    lemma_evidence_is_integral(
        other_pool,
        other_template,
        other_warm_pool,
        other_runtime_api_version,
    );
    json_laws::law_json_text_is_unambiguous(a, b);
    let p = a->Object_0;
    let q = b->Object_0;
    assert(p[0].1 == q[0].1);
    lemma_isolation(pool.spec.isolation, other_pool.spec.isolation);
    let identity = p[1].1->Object_0;
    let other_identity = q[1].1->Object_0;
    assert(identity[0].1 == other_identity[0].1);
    assert(identity[1].1 == other_identity[1].1);
    let probe = p[2].1->Object_0;
    let other_probe = q[2].1->Object_0;
    assert(probe[0].1 == other_probe[0].1);
    lemma_canary(pool.spec.readiness.canary, other_pool.spec.readiness.canary);
    let runtime = p[3].1->Object_0;
    let other_runtime = q[3].1->Object_0;
    assert(runtime[0].1->Text_0 == other_runtime[0].1->Text_0);
    assert(p[4].1 == q[4].1);
    lemma_named(template, other_template);
    assert(p[5].1 == q[5].1);
    lemma_template(pool.spec.template, other_pool.spec.template);
    assert(p[6].1 == q[6].1);
    lemma_named(warm_pool, other_warm_pool);
}

} // verus!
