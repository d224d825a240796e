//! Diagnostic bundles: what is captured of a cluster, and where it is stored.

use crate::crd::profile::DiagnosticsConfig;
use crate::k8s::{self, Pod};
use crate::text::{self, chars_of, concat, concat3, strip_prefix};
use crate::time::now_rfc3339;
use vstd::prelude::*;
use vstd::string::*;

verus! {

/// How long a bundle can be downloaded, in seconds: a week.
pub const PRESIGNED_SECONDS: u64 = 604_800;

/// The logs of one container.
#[derive(Debug, Clone, PartialEq, Eq)]
pub struct PodLog {
    pub namespace: String,
    pub pod: String,
    pub container: String,
    pub logs: String,
}

/// Everything that was captured of a cluster.
#[derive(Debug, Clone, PartialEq, Eq)]
pub struct DiagnosticBundle {
    pub claim_id: String,
    pub cluster_name: String,
    pub captured_at: String,
    pub pod_logs: Vec<PodLog>,
    pub events: String,
    pub resource_dump: String,
    /// Only where secrets are to be captured at all.
    pub secrets_dump: Option<String>,
    pub node_info: String,
}

impl DiagnosticBundle {
    /// An empty bundle of this time.
    pub fn captured_at(claim_id: &str, cluster_name: &str, now: String) -> (bundle: Self)
        ensures
            bundle.claim_id@ == claim_id@,
            bundle.cluster_name@ == cluster_name@,
            bundle.captured_at == now,
            bundle.is_empty(),
    {
        DiagnosticBundle {
            claim_id: claim_id.to_owned(),
            cluster_name: cluster_name.to_owned(),
            captured_at: now,
            pod_logs: Vec::new(),
            events: String::new(),
            resource_dump: String::new(),
            secrets_dump: None,
            node_info: String::new(),
        }
    }

    /// Whether nothing has been captured yet.
    pub open spec fn is_empty(self) -> bool {
        &&& self.pod_logs@.len() == 0
        &&& self.events@.len() == 0
        &&& self.resource_dump@.len() == 0
        &&& self.secrets_dump is None
        &&& self.node_info@.len() == 0
    }

    /// An empty bundle of now.
    pub fn new(claim_id: &str, cluster_name: &str) -> (bundle: Self)
        ensures
            bundle.claim_id@ == claim_id@,
            bundle.cluster_name@ == cluster_name@,
            bundle.is_empty(),
    {
        DiagnosticBundle::captured_at(claim_id, cluster_name, now_rfc3339())
    }
}

/// A list of objects that was asked for.
#[derive(Debug, Clone, PartialEq, Eq)]
pub enum Listing {
    /// The list, as JSON.
    Listed(String),
    /// There is a list, but this kept it from becoming JSON.
    Unserializable(String),
    /// There is no list, because of this.
    Failed(String),
}

/// A list as it stands in a bundle.
pub open spec fn listing_text(what: Seq<char>, listing: Listing) -> Seq<char> {
    match listing {
        Listing::Listed(json) => json@,
        Listing::Unserializable(error) => "ERROR: Failed to serialize "@ + what + ": "@ + error@,
        Listing::Failed(error) => "CAPTURE FAILED: "@ + error@,
    }
}

fn capture(what: &str, listing: Listing) -> (captured: String)
    ensures
        captured@ == listing_text(what@, listing),
{
    match listing {
        Listing::Listed(json) => json,
        Listing::Unserializable(error) => {
            let head = concat3("ERROR: Failed to serialize ", what, ": ");
            concat(head.as_str(), error.as_str())
        },
        Listing::Failed(error) => concat("CAPTURE FAILED: ", error.as_str()),
    }
}

/// The events of a bundle.
pub fn capture_events(listing: Listing) -> (captured: String)
    ensures
        captured@ == listing_text("events"@, listing),
{
    capture("events", listing)
}

/// The secrets of a bundle.
pub fn capture_secrets(listing: Listing) -> (captured: String)
    ensures
        captured@ == listing_text("secrets"@, listing),
{
    capture("secrets", listing)
}

/// The nodes of a bundle.
pub fn capture_node_info(listing: Listing) -> (captured: String)
    ensures
        captured@ == listing_text("node info"@, listing),
{
    capture("node info", listing)
}

/// One section of a resource dump.
pub open spec fn section_text(title: Seq<char>, what: Seq<char>, listing: Listing) -> Seq<char> {
    match listing {
        Listing::Failed(error) => "--- "@ + title + " (CAPTURE FAILED: "@ + error@ + ") ---\n"@,
        _ => "--- "@ + title + " ---\n"@ + listing_text(what, listing) + "\n"@,
    }
}

fn section(title: &str, what: &str, listing: Listing) -> (section: String)
    ensures
        section@ == section_text(title@, what@, listing),
{
    match listing {
        Listing::Failed(error) => {
            let head = concat3("--- ", title, " (CAPTURE FAILED: ");
            concat3(head.as_str(), error.as_str(), ") ---\n")
        },
        listing => {
            let head = concat3("--- ", title, " ---\n");
            concat3(head.as_str(), capture(what, listing).as_str(), "\n")
        },
    }
}

/// The resource dump of a bundle.
pub open spec fn dump_text(pods: Listing, services: Listing, deployments: Listing) -> Seq<char> {
    section_text("Pods"@, "pod list"@, pods) + section_text(
        "Services"@,
        "service list"@,
        services,
    ) + section_text("Deployments"@, "deployment list"@, deployments)
}

/// The resource dump of a bundle: Pods, Services and Deployments. A list that
/// failed does not keep the others out.
pub fn capture_resource_dump(pods: Listing, services: Listing, deployments: Listing) -> (dump:
    String)
    ensures
        dump@ == dump_text(pods, services, deployments),
{
    concat3(
        section("Pods", "pod list", pods).as_str(),
        section("Services", "service list", services).as_str(),
        section("Deployments", "deployment list", deployments).as_str(),
    )
}

/// A container whose logs are captured.
#[derive(Debug, Clone, PartialEq, Eq)]
pub struct LogTarget {
    pub namespace: String,
    pub pod: String,
    pub container: String,
}

impl View for LogTarget {
    type V = (Seq<char>, Seq<char>, Seq<char>);

    open spec fn view(&self) -> (Seq<char>, Seq<char>, Seq<char>) {
        (self.namespace@, self.pod@, self.container@)
    }
}

/// What a list of targets names.
pub open spec fn target_views(targets: Seq<LogTarget>) -> Seq<(Seq<char>, Seq<char>, Seq<char>)> {
    targets.map_values(|target: LogTarget| target@)
}

/// The namespace of a Pod, empty where it has none.
pub open spec fn pod_namespace(pod: Pod) -> Seq<char> {
    match pod.metadata@.namespace {
        Some(namespace) => namespace,
        None => Seq::empty(),
    }
}

/// The containers of a Pod.
pub open spec fn pod_targets(pod: Pod) -> Seq<(Seq<char>, Seq<char>, Seq<char>)> {
    match pod.spec {
        Some(spec) => spec.containers@.map_values(
            |container: k8s::Container|
                (pod_namespace(pod), pod.metadata@.any_name(), container.name@),
        ),
        None => Seq::empty(),
    }
}

/// The containers of all Pods, in order.
pub open spec fn all_targets(pods: Seq<Pod>) -> Seq<(Seq<char>, Seq<char>, Seq<char>)>
    decreases pods.len(),
{
    if pods.len() == 0 {
        Seq::empty()
    } else {
        all_targets(pods.drop_last()) + pod_targets(pods.last())
    }
}

/// The containers whose logs are captured, in order; none where the Pods could
/// not be listed.
pub fn log_targets(list: Result<Vec<Pod>, String>) -> (targets: Vec<LogTarget>)
    ensures
        target_views(targets@) == (match list {
            Ok(pods) => all_targets(pods@),
            Err(_) => Seq::empty(),
        }),
{
    let mut targets: Vec<LogTarget> = Vec::new();
    assert(target_views(targets@) =~= Seq::empty());
    let pods = match list {
        Ok(pods) => pods,
        Err(_) => {
            return targets;
        },
    };
    assert(pods@.take(0) =~= Seq::empty());
    let mut i: usize = 0;
    while i < pods.len()
        invariant
            i <= pods@.len(),
            target_views(targets@) == all_targets(pods@.take(i as int)),
        decreases pods@.len() - i,
    {
        let pod = &pods[i];
        let ghost before = target_views(targets@);
        let namespace = match &pod.metadata.namespace {
            Some(namespace) => namespace.clone(),
            None => String::new(),
        };
        assert(namespace@ =~= pod_namespace(*pod));
        let name = pod.metadata.name_any();
        match &pod.spec {
            Some(spec) => {
                let ghost own = pod_targets(*pod);
                let mut j: usize = 0;
                assert(before + own.take(0) =~= before);
                while j < spec.containers.len()
                    invariant
                        pod.spec == Some(*spec),
                        own == pod_targets(*pod),
                        namespace@ == pod_namespace(*pod),
                        name@ == pod.metadata@.any_name(),
                        j <= spec.containers@.len(),
                        target_views(targets@) == before + own.take(j as int),
                    decreases spec.containers@.len() - j,
                {
                    let target = LogTarget {
                        namespace: namespace.clone(),
                        pod: name.clone(),
                        container: spec.containers[j].name.clone(),
                    };
                    let ghost so_far = target_views(targets@);
                    let ghost named = target@;
                    assert(own[j as int] == named);
                    targets.push(target);
                    assert(target_views(targets@) =~= so_far.push(named));
                    assert(so_far.push(named) =~= before + own.take(j + 1));
                    j = j + 1;
                }
                assert(own.take(spec.containers@.len() as int) =~= own);
            },
            None => {
                assert(before + pod_targets(*pod) =~= before);
            },
        }
        assert(pods@.take(i + 1).drop_last() =~= pods@.take(i as int));
        i = i + 1;
    }
    assert(pods@.take(pods@.len() as int) =~= pods@);
    targets
}

/// The logs of a bundle after one more container was asked for its own.
pub open spec fn logs_after(
    logs: Seq<PodLog>,
    target: LogTarget,
    answer: Result<String, String>,
) -> Seq<PodLog> {
    match answer {
        Ok(text) => logs.push(
            PodLog {
                namespace: target.namespace,
                pod: target.pod,
                container: target.container,
                logs: text,
            },
        ),
        Err(_) => logs,
    }
}

/// Adds a container's logs, where they could be had.
pub fn keep_log(logs: &mut Vec<PodLog>, target: LogTarget, answer: Result<String, String>)
    ensures
        final(logs)@ == logs_after(old(logs)@, target, answer),
        match answer {
            Ok(text) => final(logs)@ == old(logs)@.push(
                PodLog {
                    namespace: target.namespace,
                    pod: target.pod,
                    container: target.container,
                    logs: text,
                },
            ),
            Err(_) => final(logs)@ == old(logs)@,
        },
{
    match answer {
        Ok(text) => {
            logs.push(
                PodLog {
                    namespace: target.namespace,
                    pod: target.pod,
                    container: target.container,
                    logs: text,
                },
            );
        },
        Err(_) => {},
    }
}

/// How many of a container's last lines are asked for.
pub fn tail_lines(config: &DiagnosticsConfig) -> (lines: i64)
    ensures
        lines == config.log_lines,
{
    config.log_lines as i64
}

/// What was captured of a cluster.
#[derive(Debug, Clone, PartialEq, Eq)]
pub struct Captured {
    pub pod_logs: Vec<PodLog>,
    pub events: Listing,
    pub pods: Listing,
    pub services: Listing,
    pub deployments: Listing,
    /// Asked for only where the configuration asks for secrets.
    pub secrets: Option<Listing>,
    pub nodes: Listing,
}

/// The secrets that a bundle holds: those that were captured, where they are asked for.
pub open spec fn secrets_kept(secrets: Option<Listing>, asked_for: bool) -> Option<Seq<char>> {
    match secrets {
        Some(secrets) => if asked_for {
            Some(listing_text("secrets"@, secrets))
        } else {
            None
        },
        None => None,
    }
}

/// Puts a bundle together. Secrets are left out unless the configuration asks
/// for them.
pub fn capture_bundle(
    bundle: DiagnosticBundle,
    config: &DiagnosticsConfig,
    captured: Captured,
) -> (result: DiagnosticBundle)
    ensures
        result.claim_id == bundle.claim_id,
        result.cluster_name == bundle.cluster_name,
        result.captured_at == bundle.captured_at,
        result.pod_logs == captured.pod_logs,
        result.events@ == listing_text("events"@, captured.events),
        result.resource_dump@ == dump_text(
            captured.pods,
            captured.services,
            captured.deployments,
        ),
        text::opt_text(result.secrets_dump) == (match captured.secrets {
            Some(secrets) => if config.include_secrets {
                Some(listing_text("secrets"@, secrets))
            } else {
                None
            },
            None => None,
        }),
        text::opt_text(result.secrets_dump) == secrets_kept(
            captured.secrets,
            config.include_secrets,
        ),
        result.node_info@ == listing_text("node info"@, captured.nodes),
{
    let secrets_dump = match captured.secrets {
        Some(secrets) => {
            if config.include_secrets {
                Some(capture_secrets(secrets))
            } else {
                None
            }
        },
        None => None,
    };
    DiagnosticBundle {
        claim_id: bundle.claim_id,
        cluster_name: bundle.cluster_name,
        captured_at: bundle.captured_at,
        pod_logs: captured.pod_logs,
        events: capture_events(captured.events),
        resource_dump: capture_resource_dump(
            captured.pods,
            captured.services,
            captured.deployments,
        ),
        secrets_dump,
        node_info: capture_node_info(captured.nodes),
    }
}

/// Where a bundle is stored.
#[derive(Debug, Clone, PartialEq, Eq)]
pub struct StorageLocation {
    pub bucket: String,
    pub key: String,
}

/// The position of the first slash, or the length where there is none.
pub open spec fn first_slash(text: Seq<char>) -> int
    decreases text.len(),
{
    if text.len() == 0 || text[0] == '/' {
        0
    } else {
        1 + first_slash(text.skip(1))
    }
}

/// A text without the slashes at its end.
pub open spec fn without_trailing_slashes(text: Seq<char>) -> Seq<char>
    decreases text.len(),
{
    if text.len() > 0 && text.last() == '/' {
        without_trailing_slashes(text.drop_last())
    } else {
        text
    }
}

/// The bucket of a storage location without its scheme.
pub open spec fn bucket_text(location: Seq<char>) -> Seq<char> {
    location.take(first_slash(location))
}

/// What follows the bucket and its slash.
pub open spec fn prefix_text(location: Seq<char>) -> Seq<char> {
    let at = first_slash(location);
    if at < location.len() {
        location.skip(at + 1)
    } else {
        Seq::empty()
    }
}

/// The key under which a claim's bundle is stored.
pub open spec fn key_text(prefix: Seq<char>, claim_id: Seq<char>) -> Seq<char> {
    if prefix.len() == 0 {
        claim_id + "/diagnostics.json"@
    } else {
        without_trailing_slashes(prefix) + "/"@ + claim_id + "/diagnostics.json"@
    }
}

proof fn lemma_first_slash(text: Seq<char>, at: int)
    requires
        0 <= at <= text.len(),
        forall|k: int| 0 <= k < at ==> text[k] != '/',
        at < text.len() ==> text[at] == '/',
    ensures
        first_slash(text) == at,
    decreases text.len(),
{
    if at > 0 {
        let rest = text.skip(1);
        assert forall|k: int| 0 <= k < at - 1 implies rest[k] != '/' by {
            assert(rest[k] == text[k + 1]);
        }
        if at < text.len() {
            assert(rest[at - 1] == text[at]);
        }
        lemma_first_slash(rest, at - 1);
    }
}

proof fn lemma_trailing_slashes(text: Seq<char>, end: int)
    requires
        0 <= end <= text.len(),
        forall|k: int| end <= k < text.len() ==> text[k] == '/',
        end > 0 ==> text[end - 1] != '/',
    ensures
        without_trailing_slashes(text) == text.take(end),
    decreases text.len(),
{
    if end == text.len() {
        assert(text.take(end) =~= text);
    } else {
        assert(text.drop_last().take(end) =~= text.take(end));
        lemma_trailing_slashes(text.drop_last(), end);
    }
}

fn trimmed_prefix(prefix: &str) -> (trimmed: String)
    ensures
        trimmed@ == without_trailing_slashes(prefix@),
{
    let chars = chars_of(prefix);
    let mut end: usize = chars.len();
    while end > 0 && chars[end - 1] == '/'
        invariant
            chars@ == prefix@,
            end <= chars@.len(),
            forall|k: int| end <= k < chars@.len() ==> chars@[k] == '/',
        decreases end,
    {
        end = end - 1;
    }
    proof {
        lemma_trailing_slashes(prefix@, end as int);
    }
    let trimmed = prefix.substring_char(0, end);
    assert(trimmed@ =~= prefix@.take(end as int));
    trimmed.to_owned()
}

/// The bucket and the key of a claim's bundle under a location, or why there are none.
pub open spec fn located(storage_uri: Seq<char>, claim_id: Seq<char>) -> Result<
    (Seq<char>, Seq<char>),
    Seq<char>,
> {
    if text::starts_with(storage_uri, "s3://"@) {
        let rest = storage_uri.skip("s3://"@.len() as int);
        Ok((bucket_text(rest), key_text(prefix_text(rest), claim_id)))
    } else {
        Err("Storage URI must start with s3://"@)
    }
}

/// Where a claim's bundle is stored under an `s3://` location.
pub fn storage_location(storage_uri: &str, claim_id: &str) -> (result: Result<
    StorageLocation,
    String,
>)
    ensures
        match result {
            Ok(location) => {
                let rest = storage_uri@.skip("s3://"@.len() as int);
                &&& text::starts_with(storage_uri@, "s3://"@)
                &&& location.bucket@ == bucket_text(rest)
                &&& location.key@ == key_text(prefix_text(rest), claim_id@)
            },
            Err(error) => !text::starts_with(storage_uri@, "s3://"@) && error@
                == "Storage URI must start with s3://"@,
        },
        match result {
            Ok(location) => located(storage_uri@, claim_id@) == Ok::<
                (Seq<char>, Seq<char>),
                Seq<char>,
            >((location.bucket@, location.key@)),
            Err(error) => located(storage_uri@, claim_id@) == Err::<
                (Seq<char>, Seq<char>),
                Seq<char>,
            >(error@),
        },
{
    let uri = match strip_prefix(storage_uri, "s3://") {
        Some(uri) => uri,
        None => {
            return Err("Storage URI must start with s3://".to_owned());
        },
    };
    let chars = chars_of(uri);
    let length: usize = chars.len();
    let mut at: usize = 0;
    while at < length && chars[at] != '/'
        invariant
            chars@ == uri@,
            length == chars@.len(),
            at <= length,
            forall|k: int| 0 <= k < at ==> chars@[k] != '/',
        decreases length - at,
    {
        at = at + 1;
    }
    proof {
        lemma_first_slash(uri@, at as int);
    }
    let bucket = uri.substring_char(0, at);
    assert(bucket@ =~= bucket_text(uri@));
    let prefix = if at < length {
        let rest = uri.substring_char(at + 1, length);
        assert(rest@ =~= uri@.skip(at + 1));
        rest.to_owned()
    } else {
        String::new()
    };
    assert(prefix@ =~= prefix_text(uri@));
    let key = if prefix.as_str().is_empty() {
        concat(claim_id, "/diagnostics.json")
    } else {
        let head = concat3(trimmed_prefix(prefix.as_str()).as_str(), "/", claim_id);
        concat(head.as_str(), "/diagnostics.json")
    };
    Ok(StorageLocation { bucket: bucket.to_owned(), key })
}

/// A bucket never holds a slash, and a key always ends in the claim's own file.
pub proof fn law_bundle_is_stored_under_its_claim(location: Seq<char>, claim_id: Seq<char>)
    ensures
        !bucket_text(location).contains('/'),
        exists|head: Seq<char>|
            key_text(prefix_text(location), claim_id) == #[trigger] (head + claim_id)
                + "/diagnostics.json"@,
{
    lemma_no_slash_before(location);
    let prefix = prefix_text(location);
    if prefix.len() == 0 {
        assert(Seq::<char>::empty() + claim_id =~= claim_id);
        assert(key_text(prefix, claim_id) == (Seq::<char>::empty() + claim_id)
            + "/diagnostics.json"@);
    } else {
        let head = without_trailing_slashes(prefix) + "/"@;
        assert(key_text(prefix, claim_id) == (head + claim_id) + "/diagnostics.json"@);
    }
}

proof fn lemma_no_slash_before(text: Seq<char>)
    ensures
        0 <= first_slash(text) <= text.len(),
        !text.take(first_slash(text)).contains('/'),
    decreases text.len(),
{
    if text.len() > 0 && text[0] != '/' {
        let rest = text.skip(1);
        lemma_no_slash_before(rest);
        let at = first_slash(text);
        assert forall|k: int| 0 <= k < at implies text.take(at)[k] != '/' by {
            if k > 0 {
                assert(rest.take(at - 1)[k - 1] == text[k]);
                assert(rest.take(at - 1).contains(text[k]));
            }
        }
    }
}

/// A location is split at its first slash, if it has one: what stands before it is the
/// bucket, without any slash, and what stands behind it is the prefix.
pub proof fn law_location_is_split_at_its_first_slash(location: Seq<char>)
    ensures
        !bucket_text(location).contains('/'),
        location.contains('/') ==> location == bucket_text(location) + seq!['/'] + prefix_text(
            location,
        ),
        !location.contains('/') ==> bucket_text(location) == location && prefix_text(
            location,
        ).len() == 0,
{
    lemma_no_slash_before(location);
    lemma_slash_at(location);
    let at = first_slash(location);
    if at < location.len() {
        assert(location =~= location.take(at) + seq!['/'] + location.skip(at + 1));
        assert(location.contains('/'));
    } else {
        assert(location.take(at) =~= location);
    }
}

proof fn lemma_slash_at(text: Seq<char>)
    ensures
        first_slash(text) < text.len() ==> text[first_slash(text)] == '/',
    decreases text.len(),
{
    if text.len() > 0 && text[0] != '/' {
        let rest = text.skip(1);
        lemma_slash_at(rest);
        lemma_no_slash_before(rest);
        if first_slash(rest) < rest.len() {
            assert(rest[first_slash(rest)] == text[first_slash(rest) + 1]);
        }
    }
}

/// Only slashes are taken off the end of a prefix, and all of them.
pub proof fn law_only_trailing_slashes_are_taken_off(text: Seq<char>)
    ensures
        ({
            let kept = without_trailing_slashes(text);
            &&& kept.len() <= text.len()
            &&& kept == text.take(kept.len() as int)
            &&& kept.len() > 0 ==> kept.last() != '/'
            &&& forall|i: int| kept.len() <= i < text.len() ==> #[trigger] text[i] == '/'
        }),
    decreases text.len(),
{
    if text.len() > 0 && text.last() == '/' {
        let less = text.drop_last();
        law_only_trailing_slashes_are_taken_off(less);
        let kept = without_trailing_slashes(text);
        assert(text.take(kept.len() as int) =~= less.take(kept.len() as int));
        assert forall|i: int| kept.len() <= i < text.len() implies #[trigger] text[i] == '/' by {
            if i < less.len() {
                assert(less[i] == text[i]);
            }
        }
    } else {
        assert(text.take(text.len() as int) =~= text);
    }
}

/// A bundle's key is the claim's own file, under the prefix where there is one.
pub proof fn law_key_is_under_the_prefix(prefix: Seq<char>, claim_id: Seq<char>)
    ensures
        prefix.len() == 0 ==> key_text(prefix, claim_id) == claim_id + "/diagnostics.json"@,
        prefix.len() > 0 ==> key_text(prefix, claim_id) == without_trailing_slashes(prefix) + "/"@
            + claim_id + "/diagnostics.json"@,
{
}

/// The logs of every container of every Pod are asked for, Pod by Pod and container by
/// container, under the Pod's namespace and name; a Pod without a specification has
/// none.
pub proof fn law_every_container_is_a_target(pods: Seq<Pod>, pod: Pod)
    ensures
        all_targets(Seq::empty()).len() == 0,
        all_targets(pods.push(pod)) == all_targets(pods) + pod_targets(pod),
        pod.spec is None ==> pod_targets(pod).len() == 0,
        pod.spec matches Some(spec) ==> {
            &&& pod_targets(pod).len() == spec.containers@.len()
            &&& forall|i: int|
                0 <= i < spec.containers@.len() ==> {
                    let target = #[trigger] pod_targets(pod)[i];
                    &&& target.0 == (match pod.metadata.namespace {
                        Some(namespace) => namespace@,
                        None => Seq::empty(),
                    })
                    &&& target.1 == pod.metadata@.any_name()
                    &&& target.2 == spec.containers@[i].name@
                }
        },
{
    assert(pods.push(pod).drop_last() =~= pods);
}

/// What is kept of a list: the list itself, or in its place a word on why it is not
/// there. In a dump each list stands under its own heading, and one that failed leaves
/// the others as they are.
pub proof fn law_failed_lists_are_marked(
    what: Seq<char>,
    listing: Listing,
    pods: Listing,
    services: Listing,
    deployments: Listing,
)
    ensures
        listing matches Listing::Listed(json) ==> listing_text(what, listing) == json@,
        listing matches Listing::Unserializable(error) ==> listing_text(what, listing)
            == "ERROR: Failed to serialize "@ + what + ": "@ + error@,
        listing matches Listing::Failed(error) ==> listing_text(what, listing)
            == "CAPTURE FAILED: "@ + error@,
        listing matches Listing::Failed(error) ==> section_text("Pods"@, what, listing)
            == "--- "@ + "Pods"@ + " (CAPTURE FAILED: "@ + error@ + ") ---\n"@,
        !(listing is Failed) ==> section_text("Pods"@, what, listing) == "--- "@ + "Pods"@
            + " ---\n"@ + listing_text(what, listing) + "\n"@,
        dump_text(pods, services, deployments) == section_text("Pods"@, "pod list"@, pods)
            + section_text("Services"@, "service list"@, services) + section_text(
            "Deployments"@,
            "deployment list"@,
            deployments,
        ),
{
}

/// A log that was read is kept last, under its own container, Pod and namespace; one
/// that was not leaves nothing; and what was kept before stays as it was.
pub proof fn law_a_read_log_is_kept_last(
    logs: Seq<PodLog>,
    target: LogTarget,
    answer: Result<String, String>,
)
    ensures
        ({
            let after = logs_after(logs, target, answer);
            &&& after.len() == logs.len() + (if answer is Ok {
                1int
            } else {
                0
            })
            &&& forall|i: int| 0 <= i < logs.len() ==> #[trigger] after[i] == logs[i]
            &&& answer matches Ok(text) ==> {
                &&& after.last().logs@ == text@
                &&& after.last().namespace@ == target.namespace@
                &&& after.last().pod@ == target.pod@
                &&& after.last().container@ == target.container@
            }
        }),
{
}

/// Secrets stand in a bundle exactly where they are asked for and were captured.
pub proof fn law_secrets_are_kept_only_where_asked_for(
    secrets: Option<Listing>,
    asked_for: bool,
)
    ensures
        secrets_kept(secrets, asked_for) is Some <==> asked_for && secrets is Some,
        !asked_for ==> secrets_kept(secrets, asked_for) is None,
        secrets matches Some(listing) ==> secrets_kept(secrets, true) == Some(
            listing_text("secrets"@, listing),
        ),
{
}

/// A bundle is stored exactly under a location that begins with `s3://`: in the bucket
/// that follows, up to the next slash, and under what stands behind that slash without
/// the slashes at its end, then the claim and the file.
pub proof fn law_bundle_is_located_exactly(storage_uri: Seq<char>, claim_id: Seq<char>)
    ensures
        located(storage_uri, claim_id) is Ok <==> storage_uri.len() >= 5 && storage_uri.take(5)
            == seq!['s', '3', ':', '/', '/'],
        located(storage_uri, claim_id) matches Ok(place) ==> {
            let rest = storage_uri.skip(5);
            &&& !place.0.contains('/')
            &&& !rest.contains('/') ==> place.0 == rest && place.1 == claim_id
                + "/diagnostics.json"@
            &&& rest.contains('/') ==> exists|prefix: Seq<char>|
                rest == #[trigger] (place.0 + seq!['/'] + prefix) && place.1 == key_text(
                    prefix,
                    claim_id,
                )
        },
        located(storage_uri, claim_id) matches Err(words) ==> words
            == "Storage URI must start with s3://"@,
{
    reveal_strlit("s3://");
    assert("s3://"@ =~= seq!['s', '3', ':', '/', '/']);
    assert("s3://"@.len() == 5);
    crate::base_laws::law_prefix(storage_uri, "s3://"@);
    if text::starts_with(storage_uri, "s3://"@) {
        let rest = storage_uri.skip(5);
        law_location_is_split_at_its_first_slash(rest);
        law_key_is_under_the_prefix(prefix_text(rest), claim_id);
        if rest.contains('/') {
            assert(rest == bucket_text(rest) + seq!['/'] + prefix_text(rest));
        }
    }
}

} // verus!
