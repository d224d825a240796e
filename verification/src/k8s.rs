//! The parts of Kubernetes objects that decisions are made on. A map is a list
//! of pairs, which `is_keyed` asks to be in the order of their keys, each key
//! once.

use crate::json::{self, same_opt_list, Json};
use crate::keyed;
use crate::text::{self, contains_text, find_pair, same_opt_pairs, same_opt_texts, same_text};
use vstd::prelude::*;
use vstd::string::*;

verus! {

/// Reference to an owner.
#[derive(Debug, Clone, PartialEq, Eq)]
pub struct OwnerReference {
    pub api_version: String,
    pub kind: String,
    pub name: String,
    pub uid: String,
    pub controller: Option<bool>,
    pub block_owner_deletion: Option<bool>,
}

/// What a reference to an owner says.
#[verifier::ext_equal]
pub struct OwnerView {
    pub api_version: Seq<char>,
    pub kind: Seq<char>,
    pub name: Seq<char>,
    pub uid: Seq<char>,
    pub controller: Option<bool>,
    pub block_owner_deletion: Option<bool>,
}

impl View for OwnerReference {
    type V = OwnerView;

    open spec fn view(&self) -> OwnerView {
        OwnerView {
            api_version: self.api_version@,
            kind: self.kind@,
            name: self.name@,
            uid: self.uid@,
            controller: self.controller,
            block_owner_deletion: self.block_owner_deletion,
        }
    }
}

/// What a list of owners says.
pub open spec fn owner_views(owners: Seq<OwnerReference>) -> Seq<OwnerView> {
    owners.map_values(|owner: OwnerReference| owner@)
}

/// Metadata of an object.
#[derive(Debug, Clone, PartialEq, Eq)]
pub struct ObjectMeta {
    pub name: Option<String>,
    pub generate_name: Option<String>,
    pub namespace: Option<String>,
    pub uid: Option<String>,
    pub resource_version: Option<String>,
    pub generation: Option<i64>,
    pub deletion_timestamp: Option<String>,
    pub owner_references: Vec<OwnerReference>,
    pub labels: Vec<(String, String)>,
    pub finalizers: Vec<String>,
}

/// What an object's metadata says.
#[verifier::ext_equal]
pub struct MetaView {
    pub name: Option<Seq<char>>,
    pub generate_name: Option<Seq<char>>,
    pub namespace: Option<Seq<char>>,
    pub uid: Option<Seq<char>>,
    pub resource_version: Option<Seq<char>>,
    pub generation: Option<i64>,
    pub deletion_timestamp: Option<Seq<char>>,
    pub owner_references: Seq<OwnerView>,
    pub labels: Seq<(Seq<char>, Seq<char>)>,
    pub finalizers: Seq<Seq<char>>,
}

impl View for ObjectMeta {
    type V = MetaView;

    open spec fn view(&self) -> MetaView {
        MetaView {
            name: text::opt_text(self.name),
            generate_name: text::opt_text(self.generate_name),
            namespace: text::opt_text(self.namespace),
            uid: text::opt_text(self.uid),
            resource_version: text::opt_text(self.resource_version),
            generation: self.generation,
            deletion_timestamp: text::opt_text(self.deletion_timestamp),
            owner_references: owner_views(self.owner_references@),
            labels: text::pair_texts(self.labels@),
            finalizers: text::texts(self.finalizers@),
        }
    }
}

/// Metadata in which nothing is set.
pub open spec fn empty_meta() -> MetaView {
    MetaView {
        name: None,
        generate_name: None,
        namespace: None,
        uid: None,
        resource_version: None,
        generation: None,
        deletion_timestamp: None,
        owner_references: Seq::empty(),
        labels: Seq::empty(),
        finalizers: Seq::empty(),
    }
}

impl Default for ObjectMeta {
    fn default() -> (meta: Self)
        ensures
            meta@ == empty_meta(),
    {
        let meta = ObjectMeta {
            name: None,
            generate_name: None,
            namespace: None,
            uid: None,
            resource_version: None,
            generation: None,
            deletion_timestamp: None,
            owner_references: Vec::new(),
            labels: Vec::new(),
            finalizers: Vec::new(),
        };
        assert(meta@ =~= empty_meta());
        meta
    }
}

/// A text, unless it is empty.
pub open spec fn nonempty(value: Option<Seq<char>>) -> Option<Seq<char>> {
    match value {
        Some(text) => if text.len() == 0 {
            None
        } else {
            Some(text)
        },
        None => None,
    }
}

/// A copy of an optional text, unless it is empty.
pub fn nonempty_text(value: &Option<String>) -> (kept: Option<String>)
    ensures
        text::opt_text(kept) == nonempty(text::opt_text(*value)),
{
    match value {
        Some(text) => {
            if text.as_str().is_empty() {
                None
            } else {
                Some(text.clone())
            }
        },
        None => None,
    }
}

impl MetaView {
    /// Whether the labels are in key order.
    pub open spec fn is_keyed(self) -> bool {
        keyed::in_key_order(self.labels)
    }

    /// The name, else the prefix that it is generated from, else nothing.
    pub open spec fn any_name(self) -> Seq<char> {
        match self.name {
            Some(name) => name,
            None => match self.generate_name {
                Some(prefix) => prefix,
                None => Seq::empty(),
            },
        }
    }

    /// Whether deletion has begun.
    pub open spec fn deleting(self) -> bool {
        self.deletion_timestamp is Some
    }

    /// The value of a label.
    pub open spec fn label(self, key: Seq<char>) -> Option<Seq<char>> {
        text::pair_value(self.labels, key)
    }

    /// Whether exactly this object is a controlling owner.
    pub open spec fn controlled_by(
        self,
        api_version: Seq<char>,
        kind: Seq<char>,
        name: Seq<char>,
        uid: Seq<char>,
    ) -> bool {
        exists|i: int|
            0 <= i < self.owner_references.len() && {
                let owner = #[trigger] self.owner_references[i];
                owner.controller == Some(true) && owner.api_version == api_version && owner.kind
                    == kind && owner.name == name && owner.uid == uid
            }
    }

    /// Whether the controlling owner has this UID.
    pub open spec fn controlled_by_uid(self, uid: Seq<char>) -> bool {
        exists|i: int|
            0 <= i < self.owner_references.len() && {
                let owner = #[trigger] self.owner_references[i];
                owner.controller == Some(true) && owner.uid == uid
            }
    }
}

impl ObjectMeta {
    /// The name, else the prefix that it is generated from, else nothing.
    pub fn name_any(&self) -> (name: String)
        ensures
            name@ == self@.any_name(),
    {
        match &self.name {
            Some(name) => name.clone(),
            None => match &self.generate_name {
                Some(prefix) => prefix.clone(),
                None => {
                    let name = String::new();
                    assert(name@ =~= Seq::<char>::empty());
                    name
                },
            },
        }
    }

    /// The UID, unless it is missing or empty.
    pub fn present_uid(&self) -> (uid: Option<String>)
        ensures
            text::opt_text(uid) == nonempty(self@.uid),
    {
        nonempty_text(&self.uid)
    }

    /// Whether deletion has begun.
    pub fn is_deleting(&self) -> (deleting: bool)
        ensures
            deleting == self@.deleting(),
    {
        self.deletion_timestamp.is_some()
    }

    /// The value of a label.
    pub fn label(&self, key: &str) -> (value: Option<&str>)
        ensures
            text::opt_str(value) == self@.label(key@),
    {
        find_pair(self.labels.as_slice(), key)
    }

    /// Whether a label has this value.
    pub fn has_label(&self, key: &str, value: &str) -> (result: bool)
        ensures
            result == (self@.label(key@) == Some(value@)),
    {
        match self.label(key) {
            Some(found) => same_text(found, value),
            None => false,
        }
    }

    /// Whether there is this finalizer.
    pub fn has_finalizer(&self, finalizer: &str) -> (result: bool)
        ensures
            result == self@.finalizers.contains(finalizer@),
    {
        contains_text(self.finalizers.as_slice(), finalizer)
    }

    /// Whether exactly this object is a controlling owner.
    pub fn is_controlled_by(&self, api_version: &str, kind: &str, name: &str, uid: &str) -> (result:
        bool)
        ensures
            result == self@.controlled_by(api_version@, kind@, name@, uid@),
    {
        let ghost owners = self@.owner_references;
        let mut i: usize = 0;
        while i < self.owner_references.len()
            invariant
                owners == self@.owner_references,
                i <= self.owner_references@.len(),
                forall|k: int|
                    0 <= k < i ==> {
                        let owner = #[trigger] owners[k];
                        !(owner.controller == Some(true) && owner.api_version == api_version@
                            && owner.kind == kind@ && owner.name == name@ && owner.uid == uid@)
                    },
            decreases self.owner_references@.len() - i,
        {
            let owner = &self.owner_references[i];
            assert(owners[i as int] == owner@);
            let controls = match owner.controller {
                Some(value) => value,
                None => false,
            };
            if controls && same_text(owner.api_version.as_str(), api_version) && same_text(
                owner.kind.as_str(),
                kind,
            ) && same_text(owner.name.as_str(), name) && same_text(owner.uid.as_str(), uid) {
                return true;
            }
            i = i + 1;
        }
        false
    }

    /// Whether the controlling owner has this UID.
    pub fn is_controlled_by_uid(&self, uid: &str) -> (result: bool)
        ensures
            result == self@.controlled_by_uid(uid@),
    {
        let ghost owners = self@.owner_references;
        let mut i: usize = 0;
        while i < self.owner_references.len()
            invariant
                owners == self@.owner_references,
                i <= self.owner_references@.len(),
                forall|k: int|
                    0 <= k < i ==> {
                        let owner = #[trigger] owners[k];
                        !(owner.controller == Some(true) && owner.uid == uid@)
                    },
            decreases self.owner_references@.len() - i,
        {
            let owner = &self.owner_references[i];
            assert(owners[i as int] == owner@);
            let controls = match owner.controller {
                Some(value) => value,
                None => false,
            };
            if controls && same_text(owner.uid.as_str(), uid) {
                return true;
            }
            i = i + 1;
        }
        false
    }
}

/// API version and kind of an object.
#[derive(Debug, Clone, PartialEq, Eq)]
pub struct TypeMeta {
    pub api_version: String,
    pub kind: String,
}

/// An object whose payload is JSON.
#[derive(Debug, Clone, PartialEq, Eq)]
pub struct DynamicObject {
    pub types: Option<TypeMeta>,
    pub metadata: ObjectMeta,
    pub data: Json,
}

/// An answer of the API server other than the one that was asked for.
#[derive(Debug, Clone, PartialEq, Eq)]
pub struct ApiError {
    /// The status code, where the server answered at all.
    pub code: Option<u16>,
    /// The server's message.
    pub message: String,
    /// The server's answer in words.
    pub response: String,
    /// The whole error in words.
    pub error: String,
}

/// One condition.
#[derive(Debug, Clone, PartialEq, Eq)]
pub struct Condition {
    pub condition_type: String,
    pub status: String,
}

/// Whether a condition of this type has this status.
pub open spec fn condition_holds(
    conditions: Seq<Condition>,
    condition_type: Seq<char>,
    status: Seq<char>,
) -> bool {
    exists|i: int|
        0 <= i < conditions.len() && (#[trigger] conditions[i]).condition_type@ == condition_type
            && conditions[i].status@ == status
}

/// Whether a condition of this type has this status.
pub fn has_condition(conditions: &Vec<Condition>, condition_type: &str, status: &str) -> (result:
    bool)
    ensures
        result == condition_holds(conditions@, condition_type@, status@),
{
    let mut i: usize = 0;
    while i < conditions.len()
        invariant
            i <= conditions@.len(),
            forall|k: int|
                0 <= k < i ==> !((#[trigger] conditions@[k]).condition_type@ == condition_type@
                    && conditions@[k].status@ == status@),
        decreases conditions@.len() - i,
    {
        if same_text(conditions[i].condition_type.as_str(), condition_type) && same_text(
            conditions[i].status.as_str(),
            status,
        ) {
            assert(conditions@[i as int].condition_type@ == condition_type@);
            return true;
        }
        i = i + 1;
    }
    false
}

/// One container of a Pod. Structured values that are only compared are JSON.
#[derive(Debug, Clone, PartialEq, Eq)]
pub struct Container {
    pub name: String,
    pub image: Option<String>,
    pub command: Option<Vec<String>>,
    pub args: Option<Vec<String>>,
    pub ports: Option<Vec<Json>>,
    pub resources: Option<Json>,
    pub security_context: Option<Json>,
    pub env: Vec<Json>,
    pub env_from: Vec<Json>,
    pub volume_mounts: Vec<Json>,
    pub volume_devices: Vec<Json>,
}

/// Specification of a Pod.
#[derive(Debug, Clone, PartialEq, Eq)]
pub struct PodSpec {
    pub runtime_class_name: Option<String>,
    pub node_name: Option<String>,
    pub automount_service_account_token: Option<bool>,
    pub enable_service_links: Option<bool>,
    pub security_context: Option<Json>,
    pub host_users: Option<bool>,
    pub restart_policy: Option<String>,
    pub host_network: Option<bool>,
    pub host_pid: Option<bool>,
    pub host_ipc: Option<bool>,
    pub share_process_namespace: Option<bool>,
    pub volumes: Vec<Json>,
    pub init_containers: Vec<Json>,
    pub ephemeral_containers: Vec<Json>,
    pub containers: Vec<Container>,
}

/// A Pod.
#[derive(Debug, Clone, PartialEq, Eq)]
pub struct Pod {
    pub metadata: ObjectMeta,
    pub spec: Option<PodSpec>,
    pub conditions: Vec<Condition>,
}

/// A node.
#[derive(Debug, Clone, PartialEq, Eq)]
pub struct Node {
    pub metadata: ObjectMeta,
    pub unschedulable: Option<bool>,
    pub conditions: Vec<Condition>,
}

/// A port by number or by name.
#[derive(Debug, Clone, PartialEq, Eq)]
pub enum IntOrString {
    Int(i32),
    String(String),
}

/// One port of a Service.
#[derive(Debug, Clone, PartialEq, Eq)]
pub struct ServicePort {
    pub name: Option<String>,
    pub protocol: Option<String>,
    pub port: i32,
    pub target_port: Option<IntOrString>,
    pub node_port: Option<i32>,
    pub app_protocol: Option<String>,
}

/// Specification of a Service.
#[derive(Debug, Clone, PartialEq, Eq)]
pub struct ServiceSpec {
    pub cluster_ip: Option<String>,
    pub selector: Option<Vec<(String, String)>>,
    pub service_type: Option<String>,
    pub external_name: Option<String>,
    pub external_ips: Vec<String>,
    pub load_balancer_class: Option<String>,
    pub load_balancer_ip: Option<String>,
    pub load_balancer_source_ranges: Vec<String>,
    pub health_check_node_port: Option<i32>,
    pub allocate_load_balancer_node_ports: Option<bool>,
    pub publish_not_ready_addresses: Option<bool>,
    pub ports: Vec<ServicePort>,
}

/// A Service.
#[derive(Debug, Clone, PartialEq, Eq)]
pub struct Service {
    pub metadata: ObjectMeta,
    pub spec: Option<ServiceSpec>,
}

/// A ConfigMap.
#[derive(Debug, Clone, PartialEq, Eq)]
pub struct ConfigMap {
    pub metadata: ObjectMeta,
    pub immutable: Option<bool>,
    pub data: Option<Vec<(String, String)>>,
}

/// A volume and the claim that it is bound to.
#[derive(Debug, Clone, PartialEq, Eq)]
pub struct PersistentVolume {
    pub metadata: ObjectMeta,
    /// UID of the bound claim.
    pub claim_uid: Option<String>,
}

/// Selects objects by their labels.
#[derive(Debug, Clone, PartialEq, Eq)]
pub struct LabelSelector {
    pub match_labels: Option<Vec<(String, String)>>,
    pub match_expressions: Option<Vec<Json>>,
}

/// What a selector asks for.
#[verifier::ext_equal]
pub struct SelectorView {
    pub match_labels: Option<Seq<(Seq<char>, Seq<char>)>>,
    pub match_expressions: Option<Seq<json::JsonView>>,
}

impl View for LabelSelector {
    type V = SelectorView;

    open spec fn view(&self) -> SelectorView {
        SelectorView {
            match_labels: text::opt_pairs(self.match_labels),
            match_expressions: json::opt_compared(self.match_expressions),
        }
    }
}

impl SelectorView {
    /// Whether the labels are in key order.
    pub open spec fn is_keyed(self) -> bool {
        keyed::opt_in_key_order(self.match_labels)
    }
}

/// What an optional selector asks for.
pub open spec fn opt_selector(selector: Option<LabelSelector>) -> Option<SelectorView> {
    match selector {
        Some(selector) => Some(selector@),
        None => None,
    }
}

/// Whether two optional selectors ask for the same.
fn same_selector(a: &Option<LabelSelector>, b: &Option<LabelSelector>) -> (same: bool)
    ensures
        same == (opt_selector(*a) == opt_selector(*b)),
{
    match (a, b) {
        (Some(left), Some(right)) => same_opt_pairs(&left.match_labels, &right.match_labels)
            && same_opt_list(&left.match_expressions, &right.match_expressions),
        (None, None) => true,
        _ => false,
    }
}

/// A range of addresses without some others.
#[derive(Debug, Clone, PartialEq, Eq)]
pub struct IpBlock {
    pub cidr: String,
    pub except: Option<Vec<String>>,
}

/// What an address block covers.
#[verifier::ext_equal]
pub struct BlockView {
    pub cidr: Seq<char>,
    pub except: Option<Seq<Seq<char>>>,
}

impl View for IpBlock {
    type V = BlockView;

    open spec fn view(&self) -> BlockView {
        BlockView { cidr: self.cidr@, except: text::opt_texts(self.except) }
    }
}

/// What an optional address block covers.
pub open spec fn opt_block(block: Option<IpBlock>) -> Option<BlockView> {
    match block {
        Some(block) => Some(block@),
        None => None,
    }
}

/// One end of admitted traffic.
#[derive(Debug, Clone, PartialEq, Eq)]
pub struct NetworkPolicyPeer {
    pub ip_block: Option<IpBlock>,
    pub namespace_selector: Option<LabelSelector>,
    pub pod_selector: Option<LabelSelector>,
}

/// What one end of admitted traffic is.
#[verifier::ext_equal]
pub struct PeerView {
    pub ip_block: Option<BlockView>,
    pub namespace_selector: Option<SelectorView>,
    pub pod_selector: Option<SelectorView>,
}

impl View for NetworkPolicyPeer {
    type V = PeerView;

    open spec fn view(&self) -> PeerView {
        PeerView {
            ip_block: opt_block(self.ip_block),
            namespace_selector: opt_selector(self.namespace_selector),
            pod_selector: opt_selector(self.pod_selector),
        }
    }
}

impl PeerView {
    /// Whether the labels of its selectors are in key order.
    pub open spec fn is_keyed(self) -> bool {
        &&& self.namespace_selector matches Some(selector) ==> selector.is_keyed()
        &&& self.pod_selector matches Some(selector) ==> selector.is_keyed()
    }
}

impl NetworkPolicyPeer {
    /// Whether both are the same.
    pub fn same(&self, other: &NetworkPolicyPeer) -> (result: bool)
        ensures
            result == (self@ == other@),
    {
        let same_block = match (&self.ip_block, &other.ip_block) {
            (Some(left), Some(right)) => same_text(left.cidr.as_str(), right.cidr.as_str())
                && same_opt_texts(&left.except, &right.except),
            (None, None) => true,
            _ => false,
        };
        assert(same_block == (opt_block(self.ip_block) == opt_block(other.ip_block)));
        same_block && same_selector(&self.namespace_selector, &other.namespace_selector)
            && same_selector(&self.pod_selector, &other.pod_selector)
    }
}

/// What a list of peers is.
pub open spec fn peer_views(peers: Seq<NetworkPolicyPeer>) -> Seq<PeerView> {
    peers.map_values(|peer: NetworkPolicyPeer| peer@)
}

/// One rule of a policy, for either direction.
#[derive(Debug, Clone, PartialEq, Eq)]
pub struct NetworkPolicyRule {
    pub peers: Option<Vec<NetworkPolicyPeer>>,
    pub ports: Option<Vec<Json>>,
}

/// What a rule admits.
#[verifier::ext_equal]
pub struct RuleView {
    pub peers: Option<Seq<PeerView>>,
    pub ports: Option<Seq<json::JsonView>>,
}

/// What an optional list of peers is.
pub open spec fn opt_peers(peers: Option<Vec<NetworkPolicyPeer>>) -> Option<Seq<PeerView>> {
    match peers {
        Some(peers) => Some(peer_views(peers@)),
        None => None,
    }
}

impl View for NetworkPolicyRule {
    type V = RuleView;

    open spec fn view(&self) -> RuleView {
        RuleView { peers: opt_peers(self.peers), ports: json::opt_compared(self.ports) }
    }
}

impl RuleView {
    /// Whether the labels of its peers' selectors are in key order.
    pub open spec fn is_keyed(self) -> bool {
        self.peers matches Some(peers) ==> forall|i: int|
            0 <= i < peers.len() ==> (#[trigger] peers[i]).is_keyed()
    }
}

impl NetworkPolicyRule {
    /// Whether both admit the same.
    pub fn same(&self, other: &NetworkPolicyRule) -> (result: bool)
        ensures
            result == (self@ == other@),
    {
        let same_peers = match (&self.peers, &other.peers) {
            (Some(left), Some(right)) => {
                if left.len() != right.len() {
                    assert(peer_views(left@).len() != peer_views(right@).len());
                    return false;
                }
                let mut i: usize = 0;
                while i < left.len()
                    invariant
                        self.peers == Some(*left),
                        other.peers == Some(*right),
                        left@.len() == right@.len(),
                        i <= left@.len(),
                        forall|k: int| 0 <= k < i ==> peer_views(left@)[k] == peer_views(right@)[k],
                    decreases left@.len() - i,
                {
                    if !left[i].same(&right[i]) {
                        assert(peer_views(left@)[i as int] != peer_views(right@)[i as int]);
                        return false;
                    }
                    i = i + 1;
                }
                assert(peer_views(left@) =~= peer_views(right@));
                true
            },
            (None, None) => true,
            _ => false,
        };
        same_peers && same_opt_list(&self.ports, &other.ports)
    }
}

/// What a list of rules admits.
pub open spec fn rule_views(rules: Seq<NetworkPolicyRule>) -> Seq<RuleView> {
    rules.map_values(|rule: NetworkPolicyRule| rule@)
}

/// What an optional list of rules admits.
pub open spec fn opt_rules(rules: Option<Vec<NetworkPolicyRule>>) -> Option<Seq<RuleView>> {
    match rules {
        Some(rules) => Some(rule_views(rules@)),
        None => None,
    }
}

/// Whether two optional lists of rules admit the same.
fn same_rules(
    a: &Option<Vec<NetworkPolicyRule>>,
    b: &Option<Vec<NetworkPolicyRule>>,
) -> (same: bool)
    ensures
        same == (opt_rules(*a) == opt_rules(*b)),
{
    match (a, b) {
        (Some(left), Some(right)) => {
            if left.len() != right.len() {
                assert(rule_views(left@).len() != rule_views(right@).len());
                return false;
            }
            let mut i: usize = 0;
            while i < left.len()
                invariant
                    *a == Some(*left),
                    *b == Some(*right),
                    left@.len() == right@.len(),
                    i <= left@.len(),
                    forall|k: int| 0 <= k < i ==> rule_views(left@)[k] == rule_views(right@)[k],
                decreases left@.len() - i,
            {
                if !left[i].same(&right[i]) {
                    assert(rule_views(left@)[i as int] != rule_views(right@)[i as int]);
                    return false;
                }
                i = i + 1;
            }
            assert(rule_views(left@) =~= rule_views(right@));
            true
        },
        (None, None) => true,
        _ => false,
    }
}

/// Specification of a network policy.
#[derive(Debug, Clone, PartialEq, Eq)]
pub struct NetworkPolicySpec {
    pub pod_selector: Option<LabelSelector>,
    pub policy_types: Option<Vec<String>>,
    pub ingress: Option<Vec<NetworkPolicyRule>>,
    pub egress: Option<Vec<NetworkPolicyRule>>,
}

/// What a network policy asks for.
#[verifier::ext_equal]
pub struct PolicyView {
    pub pod_selector: Option<SelectorView>,
    pub policy_types: Option<Seq<Seq<char>>>,
    pub ingress: Option<Seq<RuleView>>,
    pub egress: Option<Seq<RuleView>>,
}

impl View for NetworkPolicySpec {
    type V = PolicyView;

    open spec fn view(&self) -> PolicyView {
        PolicyView {
            pod_selector: opt_selector(self.pod_selector),
            policy_types: text::opt_texts(self.policy_types),
            ingress: opt_rules(self.ingress),
            egress: opt_rules(self.egress),
        }
    }
}

impl PolicyView {
    /// Whether the labels of all its selectors are in key order.
    pub open spec fn is_keyed(self) -> bool {
        &&& self.pod_selector matches Some(selector) ==> selector.is_keyed()
        &&& self.ingress matches Some(rules) ==> forall|i: int|
            0 <= i < rules.len() ==> (#[trigger] rules[i]).is_keyed()
        &&& self.egress matches Some(rules) ==> forall|i: int|
            0 <= i < rules.len() ==> (#[trigger] rules[i]).is_keyed()
    }
}

impl NetworkPolicySpec {
    /// Whether both ask for the same.
    pub fn same(&self, other: &NetworkPolicySpec) -> (result: bool)
        ensures
            result == (self@ == other@),
    {
        same_selector(&self.pod_selector, &other.pod_selector) && same_opt_texts(
            &self.policy_types,
            &other.policy_types,
        ) && same_rules(&self.ingress, &other.ingress) && same_rules(&self.egress, &other.egress)
    }
}

/// A network policy.
#[derive(Debug, Clone, PartialEq, Eq)]
pub struct NetworkPolicy {
    pub metadata: ObjectMeta,
    pub spec: Option<NetworkPolicySpec>,
}

} // verus!
