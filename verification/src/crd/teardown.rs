//! Verified teardown: what evidence of destruction looks like, which
//! configurations can produce it, and when it releases capacity.
//!
//! An accepted delete request is no proof of destruction. A receipt replaces
//! the inference with evidence, and uncertainty is never success: what could not
//! be observed quarantines the capacity.

use crate::crd::instance::ResourceRef;
use crate::crd::profile::{BackendType, ClusterConfig, DiagnosticsConfig, PersistenceConfig};
use crate::digest::{self, sha256_hex_of};
use crate::json::{self, Json};
use crate::number::{self, parse_unsigned};
use crate::text::{
    self, blank, concat, concat3, contains_text, digest_shaped, eq_ignore_ascii_case, holds_text,
    same_opt_text, same_text, strip_prefix,
};
use crate::time::{self, is_strictly_after, parse_rfc3339};
use vstd::prelude::*;
use vstd::string::*;
use vstd::utf8::*;

verus! {

/// How thoroughly capacity must be torn down before it can be reused.
#[derive(Debug, Clone, Copy, PartialEq, Eq, Structural)]
pub enum CleanupMode {
    /// Issue the deletes and trust an accepted request.
    Standard,
    /// Reuse requires a receipt that proves the exact footprint absent.
    VerifiedDestroy,
}

impl Default for CleanupMode {
    fn default() -> (mode: Self)
        ensures
            mode == CleanupMode::Standard,
    {
        CleanupMode::Standard
    }
}

impl CleanupMode {
    /// The name under which the mode is stored.
    pub open spec fn wire_text(self) -> Seq<char> {
        match self {
            CleanupMode::Standard => "Standard"@,
            CleanupMode::VerifiedDestroy => "VerifiedDestroy"@,
        }
    }

    /// Whether capacity may only be reused with evidence under this mode.
    pub open spec fn needs_receipt(self) -> bool {
        self is VerifiedDestroy
    }

    /// Whether this mode requires evidence before capacity may be reused.
    pub fn requires_receipt(self) -> (required: bool)
        ensures
            required == (self is VerifiedDestroy),
            required == self.needs_receipt(),
    {
        match self {
            CleanupMode::Standard => false,
            CleanupMode::VerifiedDestroy => true,
        }
    }

    fn wire_name(self) -> (name: &'static str)
        ensures
            name@ == self.wire_text(),
    {
        match self {
            CleanupMode::Standard => "Standard",
            CleanupMode::VerifiedDestroy => "VerifiedDestroy",
        }
    }
}

/// One thing whose absence must be proven.
#[derive(Debug, Clone, Copy, PartialEq, Eq, PartialOrd, Ord, Structural)]
pub enum TeardownSubject {
    AgentDeployment,
    ServerStatefulSet,
    ServerPods,
    Service,
    PodDisruptionBudget,
    PublisherConfigMap,
    RegistriesConfigMap,
    TokenSecret,
    KubeconfigSecret,
    /// The lease's connect-token Secret.
    ConnectTokenSecret,
    /// The Secret with the datastore role's password.
    DatastoreCredentialSecret,
    CidrClaim,
    /// Every server's volume claim.
    ServerDataPvcs,
    /// The volumes that those claims were bound to.
    ServerDataVolumes,
    /// The instance's database.
    Database,
    /// The role that owns that database.
    DatabaseRole,
}

impl TeardownSubject {
    /// The name under which the subject is stored.
    pub open spec fn wire_text(self) -> Seq<char> {
        match self {
            TeardownSubject::AgentDeployment => "agentDeployment"@,
            TeardownSubject::ServerStatefulSet => "serverStatefulSet"@,
            TeardownSubject::ServerPods => "serverPods"@,
            TeardownSubject::Service => "service"@,
            TeardownSubject::PodDisruptionBudget => "podDisruptionBudget"@,
            TeardownSubject::PublisherConfigMap => "publisherConfigMap"@,
            TeardownSubject::RegistriesConfigMap => "registriesConfigMap"@,
            TeardownSubject::TokenSecret => "tokenSecret"@,
            TeardownSubject::KubeconfigSecret => "kubeconfigSecret"@,
            TeardownSubject::ConnectTokenSecret => "connectTokenSecret"@,
            TeardownSubject::DatastoreCredentialSecret => "datastoreCredentialSecret"@,
            TeardownSubject::CidrClaim => "cidrClaim"@,
            TeardownSubject::ServerDataPvcs => "serverDataPvcs"@,
            TeardownSubject::ServerDataVolumes => "serverDataVolumes"@,
            TeardownSubject::Database => "database"@,
            TeardownSubject::DatabaseRole => "databaseRole"@,
        }
    }

    fn wire_name(self) -> (name: &'static str)
        ensures
            name@ == self.wire_text(),
    {
        match self {
            TeardownSubject::AgentDeployment => "agentDeployment",
            TeardownSubject::ServerStatefulSet => "serverStatefulSet",
            TeardownSubject::ServerPods => "serverPods",
            TeardownSubject::Service => "service",
            TeardownSubject::PodDisruptionBudget => "podDisruptionBudget",
            TeardownSubject::PublisherConfigMap => "publisherConfigMap",
            TeardownSubject::RegistriesConfigMap => "registriesConfigMap",
            TeardownSubject::TokenSecret => "tokenSecret",
            TeardownSubject::KubeconfigSecret => "kubeconfigSecret",
            TeardownSubject::ConnectTokenSecret => "connectTokenSecret",
            TeardownSubject::DatastoreCredentialSecret => "datastoreCredentialSecret",
            TeardownSubject::CidrClaim => "cidrClaim",
            TeardownSubject::ServerDataPvcs => "serverDataPvcs",
            TeardownSubject::ServerDataVolumes => "serverDataVolumes",
            TeardownSubject::Database => "database",
            TeardownSubject::DatabaseRole => "databaseRole",
        }
    }
}

/// Schema version of creation manifests.
pub const TEARDOWN_CREATION_MANIFEST_SCHEMA_VERSION: u32 = 1;

/// Exact identity of one Kubernetes object. A name alone is no identity: an
/// object can be deleted and created again under it.
#[derive(Debug, Clone, PartialEq, Eq)]
pub struct KubernetesResourceIdentity {
    pub api_version: String,
    pub kind: String,
    pub namespace: Option<String>,
    pub name: String,
    pub uid: String,
}

/// What identifies a Kubernetes object.
#[verifier::ext_equal]
pub struct IdentityView {
    pub api_version: Seq<char>,
    pub kind: Seq<char>,
    pub namespace: Option<Seq<char>>,
    pub name: Seq<char>,
    pub uid: Seq<char>,
}

impl View for KubernetesResourceIdentity {
    type V = IdentityView;

    open spec fn view(&self) -> IdentityView {
        IdentityView {
            api_version: self.api_version@,
            kind: self.kind@,
            namespace: text::opt_text(self.namespace),
            name: self.name@,
            uid: self.uid@,
        }
    }
}

impl IdentityView {
    /// The namespace as it stands in an address.
    pub open spec fn scope_text(self) -> Seq<char> {
        match self.namespace {
            Some(namespace) => namespace,
            None => "_cluster"@,
        }
    }

    /// The object's address, without its UID.
    pub open spec fn object_key(self) -> Seq<char> {
        "k8s:"@ + self.api_version + ":"@ + self.kind + ":"@ + self.scope_text() + ":"@ + self.name
    }

    /// The object's address with its UID.
    pub open spec fn canonical_id(self) -> Seq<char> {
        self.object_key() + ":"@ + self.uid
    }

    /// Whether no part of the identity is blank.
    pub open spec fn complete(self) -> bool {
        &&& !text::is_blank(self.api_version)
        &&& !text::is_blank(self.kind)
        &&& !text::is_blank(self.name)
        &&& !text::is_blank(self.uid)
        &&& self.namespace matches Some(namespace) ==> !text::is_blank(namespace)
    }

    /// The identity as JSON.
    pub open spec fn value(self) -> json::JsonView {
        json::JsonView::Object(
            seq![
                ("apiVersion"@, json::JsonView::Text(self.api_version)),
                ("kind"@, json::JsonView::Text(self.kind)),
            ] + json::optional_member("namespace"@, self.namespace) + seq![
                ("name"@, json::JsonView::Text(self.name)),
                ("uid"@, json::JsonView::Text(self.uid)),
            ],
        )
    }
}

impl KubernetesResourceIdentity {
    /// Stable receipt identity, with the UID.
    pub fn canonical_id(&self) -> (id: String)
        ensures
            id@ == self@.canonical_id(),
    {
        let mut id = self.object_key();
        id.append(":");
        id.append(self.uid.as_str());
        id
    }

    /// The object's address, without the UID.
    pub fn object_key(&self) -> (key: String)
        ensures
            key@ == self@.object_key(),
    {
        let scope = match &self.namespace {
            Some(namespace) => namespace.as_str(),
            None => "_cluster",
        };
        let mut key = "k8s:".to_owned();
        key.append(self.api_version.as_str());
        key.append(":");
        key.append(self.kind.as_str());
        key.append(":");
        key.append(scope);
        key.append(":");
        key.append(self.name.as_str());
        key
    }

    /// Whether no part of the identity is blank.
    pub fn is_complete(&self) -> (complete: bool)
        ensures
            complete == self@.complete(),
    {
        let scoped = match &self.namespace {
            Some(namespace) => !blank(namespace.as_str()),
            None => true,
        };
        !blank(self.api_version.as_str()) && !blank(self.kind.as_str()) && !blank(
            self.name.as_str(),
        ) && !blank(self.uid.as_str()) && scoped
    }

    /// Whether both identify the same object.
    pub fn same(&self, other: &KubernetesResourceIdentity) -> (result: bool)
        ensures
            result == (self@ == other@),
    {
        same_text(self.api_version.as_str(), other.api_version.as_str()) && same_text(
            self.kind.as_str(),
            other.kind.as_str(),
        ) && same_opt_text(&self.namespace, &other.namespace) && same_text(
            self.name.as_str(),
            other.name.as_str(),
        ) && same_text(self.uid.as_str(), other.uid.as_str())
    }

    fn to_json(&self) -> (value: Json)
        ensures
            value@ == self@.value(),
    {
        let value = Json::object2(
            "apiVersion",
            Json::string(self.api_version.as_str()),
            "kind",
            Json::string(self.kind.as_str()),
        ).with_optional("namespace", &self.namespace).with_member(
            "name",
            Json::string(self.name.as_str()),
        ).with_member("uid", Json::string(self.uid.as_str()));
        assert(value@->Object_0 =~= self@.value()->Object_0);
        value
    }
}

/// One concrete Kubernetes resource created for the instance.
#[derive(Debug, Clone, PartialEq, Eq)]
pub struct CreationManifestResource {
    pub subject: TeardownSubject,
    pub resource: KubernetesResourceIdentity,
    /// Identity that controlled the creation of the object.
    pub controller: KubernetesResourceIdentity,
    /// How the live object proves that.
    pub control_relation: CreationControlRelation,
}

impl CreationManifestResource {
    /// The resource as JSON.
    pub open spec fn value(self) -> json::JsonView {
        json::JsonView::Object(
            seq![
                ("subject"@, json::JsonView::Text(self.subject.wire_text())),
                ("resource"@, self.resource@.value()),
                ("controller"@, self.controller@.value()),
                ("controlRelation"@, json::JsonView::Text(self.control_relation.wire_text())),
            ],
        )
    }

    fn to_json(&self) -> (value: Json)
        ensures
            value@ == self.value(),
    {
        let value = Json::object3(
            "subject",
            Json::string(self.subject.wire_name()),
            "resource",
            self.resource.to_json(),
            "controller",
            self.controller.to_json(),
        ).with_member("controlRelation", Json::string(self.control_relation.wire_name()));
        assert(value@->Object_0 =~= self.value()->Object_0);
        value
    }
}

/// How an object is tied to what created it.
#[derive(Debug, Clone, Copy, PartialEq, Eq, Structural)]
pub enum CreationControlRelation {
    /// An owner reference with the controller's UID.
    ControllerOwner,
    /// A label with the instance's UID.
    InstanceUidLabel,
    /// A volume's claim reference.
    ClaimRef,
}

impl CreationControlRelation {
    /// The name under which the relation is stored.
    pub open spec fn wire_text(self) -> Seq<char> {
        match self {
            CreationControlRelation::ControllerOwner => "controllerOwner"@,
            CreationControlRelation::InstanceUidLabel => "instanceUidLabel"@,
            CreationControlRelation::ClaimRef => "claimRef"@,
        }
    }

    fn wire_name(self) -> (name: &'static str)
        ensures
            name@ == self.wire_text(),
    {
        match self {
            CreationControlRelation::ControllerOwner => "controllerOwner",
            CreationControlRelation::InstanceUidLabel => "instanceUidLabel",
            CreationControlRelation::ClaimRef => "claimRef",
        }
    }
}

/// Storage facts captured while claim and volume were both bound.
#[derive(Debug, Clone, PartialEq, Eq)]
pub struct StorageVolumeProvenance {
    pub pvc: KubernetesResourceIdentity,
    pub pv: KubernetesResourceIdentity,
    pub storage_class: KubernetesResourceIdentity,
    /// Reclaim policy of the storage class.
    pub reclaim_policy: String,
    /// Reclaim policy of the volume, which decides what becomes of its data.
    pub pv_reclaim_policy: String,
}

impl StorageVolumeProvenance {
    /// The volume as JSON.
    pub open spec fn value(self) -> json::JsonView {
        json::JsonView::Object(
            seq![
                ("pvc"@, self.pvc@.value()),
                ("pv"@, self.pv@.value()),
                ("storageClass"@, self.storage_class@.value()),
                ("reclaimPolicy"@, json::JsonView::Text(self.reclaim_policy@)),
                ("pvReclaimPolicy"@, json::JsonView::Text(self.pv_reclaim_policy@)),
            ],
        )
    }

    fn to_json(&self) -> (value: Json)
        ensures
            value@ == self.value(),
    {
        let value = Json::object3(
            "pvc",
            self.pvc.to_json(),
            "pv",
            self.pv.to_json(),
            "storageClass",
            self.storage_class.to_json(),
        ).with_member("reclaimPolicy", Json::string(self.reclaim_policy.as_str())).with_member(
            "pvReclaimPolicy",
            Json::string(self.pv_reclaim_policy.as_str()),
        );
        assert(value@->Object_0 =~= self.value()->Object_0);
        value
    }
}

/// The datastore that was selected at creation time.
#[derive(Debug, Clone, PartialEq, Eq)]
pub enum DatastoreProvenance {
    EmbeddedSqlite,
    ExternalPostgres {
        /// Digest of the server's location.
        endpoint_digest: String,
        /// System identifier of the live PostgreSQL cluster.
        system_identifier: String,
        database: String,
        database_oid: String,
        role: String,
        role_oid: String,
    },
}

impl DatastoreProvenance {
    /// The datastore as JSON.
    pub open spec fn value(self) -> json::JsonView {
        json::JsonView::Object(
            match self {
                DatastoreProvenance::EmbeddedSqlite => seq![
                    ("mode"@, json::JsonView::Text("embeddedSqlite"@)),
                ],
                DatastoreProvenance::ExternalPostgres {
                    endpoint_digest,
                    system_identifier,
                    database,
                    database_oid,
                    role,
                    role_oid,
                } => seq![
                    ("mode"@, json::JsonView::Text("externalPostgres"@)),
                    ("endpoint_digest"@, json::JsonView::Text(endpoint_digest@)),
                    ("system_identifier"@, json::JsonView::Text(system_identifier@)),
                    ("database"@, json::JsonView::Text(database@)),
                    ("database_oid"@, json::JsonView::Text(database_oid@)),
                    ("role"@, json::JsonView::Text(role@)),
                    ("role_oid"@, json::JsonView::Text(role_oid@)),
                ],
            },
        )
    }

    fn to_json(&self) -> (value: Json)
        ensures
            value@ == self.value(),
    {
        let value = match self {
            DatastoreProvenance::EmbeddedSqlite => Json::object1(
                "mode",
                Json::string("embeddedSqlite"),
            ),
            DatastoreProvenance::ExternalPostgres {
                endpoint_digest,
                system_identifier,
                database,
                database_oid,
                role,
                role_oid,
            } => Json::object3(
                "mode",
                Json::string("externalPostgres"),
                "endpoint_digest",
                Json::string(endpoint_digest.as_str()),
                "system_identifier",
                Json::string(system_identifier.as_str()),
            ).with_member("database", Json::string(database.as_str())).with_member(
                "database_oid",
                Json::string(database_oid.as_str()),
            ).with_member("role", Json::string(role.as_str())).with_member(
                "role_oid",
                Json::string(role_oid.as_str()),
            ),
        };
        assert(value@->Object_0 =~= self.value()->Object_0);
        value
    }

    /// The receipt identity of the external database, where there is one.
    pub open spec fn database_identity(self) -> Seq<char> {
        match self {
            DatastoreProvenance::EmbeddedSqlite => Seq::empty(),
            DatastoreProvenance::ExternalPostgres {
                endpoint_digest,
                system_identifier,
                database,
                database_oid,
                ..
            } => "postgres:"@ + system_identifier@ + ":"@ + endpoint_digest@ + ":database:"@
                + database@ + ":"@ + database_oid@,
        }
    }

    /// The receipt identity of the external database's role, where there is one.
    pub open spec fn role_identity(self) -> Seq<char> {
        match self {
            DatastoreProvenance::EmbeddedSqlite => Seq::empty(),
            DatastoreProvenance::ExternalPostgres {
                endpoint_digest,
                system_identifier,
                role,
                role_oid,
                ..
            } => "postgres:"@ + system_identifier@ + ":"@ + endpoint_digest@ + ":role:"@ + role@
                + ":"@ + role_oid@,
        }
    }
}

/// `postgres:system:endpoint` + `label` + `name:oid`.
fn postgres_identity(
    system_identifier: &str,
    endpoint_digest: &str,
    label: &str,
    name: &str,
    oid: &str,
) -> (identity: String)
    ensures
        identity@ == "postgres:"@ + system_identifier@ + ":"@ + endpoint_digest@ + label@ + name@
            + ":"@ + oid@,
{
    let mut identity = "postgres:".to_owned();
    identity.append(system_identifier);
    identity.append(":");
    identity.append(endpoint_digest);
    identity.append(label);
    identity.append(name);
    identity.append(":");
    identity.append(oid);
    identity
}

/// Inventory of what one instance created, written once while it was healthy.
#[derive(Debug, Clone, PartialEq, Eq)]
pub struct TeardownCreationManifest {
    pub schema_version: u32,
    pub instance: ResourceRef,
    pub namespace: String,
    pub backend_type: BackendType,
    pub config_digest: String,
    pub service_cidr: String,
    pub cluster_cidr: String,
    pub server_replicas: u32,
    pub agent_replicas: u32,
    pub resources: Vec<CreationManifestResource>,
    pub storage: Vec<StorageVolumeProvenance>,
    pub datastore: DatastoreProvenance,
    pub sealed_at: String,
}

/// Why a creation manifest cannot authorize verified teardown.
#[derive(Debug, Clone, Copy, PartialEq, Eq, Structural)]
pub enum CreationManifestInvalid {
    UnsupportedSchema,
    IncompleteIdentity,
    DuplicateResource,
    MultiplicityMismatch,
    StorageUnverifiable,
    DatastoreUnverifiable,
}

impl CreationManifestInvalid {
    /// The text that `message` returns.
    pub open spec fn message_text(self) -> Seq<char> {
        match self {
            CreationManifestInvalid::UnsupportedSchema => "unsupported creation manifest schema"@,
            CreationManifestInvalid::IncompleteIdentity =>
                "creation manifest identity or timestamp is incomplete"@,
            CreationManifestInvalid::DuplicateResource =>
                "creation manifest contains a duplicate concrete resource"@,
            CreationManifestInvalid::MultiplicityMismatch =>
                "creation manifest does not match its declared multiplicity"@,
            CreationManifestInvalid::StorageUnverifiable =>
                "dynamic storage provenance is incomplete or not reclaimable"@,
            CreationManifestInvalid::DatastoreUnverifiable =>
                "external datastore provenance is incomplete"@,
        }
    }

    /// The refusal in words.
    pub fn message(&self) -> (message: &'static str)
        ensures
            message@ == self.message_text(),
    {
        match self {
            CreationManifestInvalid::UnsupportedSchema => "unsupported creation manifest schema",
            CreationManifestInvalid::IncompleteIdentity => {
                "creation manifest identity or timestamp is incomplete"
            },
            CreationManifestInvalid::DuplicateResource => {
                "creation manifest contains a duplicate concrete resource"
            },
            CreationManifestInvalid::MultiplicityMismatch => {
                "creation manifest does not match its declared multiplicity"
            },
            CreationManifestInvalid::StorageUnverifiable => {
                "dynamic storage provenance is incomplete or not reclaimable"
            },
            CreationManifestInvalid::DatastoreUnverifiable => {
                "external datastore provenance is incomplete"
            },
        }
    }
}

/// `prefix` and then the ordinal of one of `replicas` replicas.
pub open spec fn is_ordinal_name(name: Seq<char>, prefix: Seq<char>, replicas: u32) -> bool {
    &&& text::starts_with(name, prefix)
    &&& number::unsigned_value(name.skip(prefix.len() as int), u32::MAX as nat) matches Some(ordinal)
    &&& ordinal < replicas
}

/// A reference that a UID tells from its namesakes.
pub open spec fn fenced(reference: ResourceRef) -> bool {
    reference.uid matches Some(uid) && !text::is_blank(uid@)
}

fn is_fenced(reference: &ResourceRef) -> (result: bool)
    ensures
        result == fenced(*reference),
{
    match &reference.uid {
        Some(uid) => !blank(uid.as_str()),
        None => false,
    }
}

/// How many resources are recorded under a subject.
pub open spec fn count_of(
    resources: Seq<CreationManifestResource>,
    subject: TeardownSubject,
) -> nat
    decreases resources.len(),
{
    if resources.len() == 0 {
        0
    } else {
        count_of(resources.drop_last(), subject) + if resources.last().subject == subject {
            1nat
        } else {
            0nat
        }
    }
}

/// The canonical identities recorded under a subject, in order.
pub open spec fn ids_of(
    resources: Seq<CreationManifestResource>,
    subject: TeardownSubject,
) -> Seq<Seq<char>>
    decreases resources.len(),
{
    if resources.len() == 0 {
        Seq::empty()
    } else {
        let rest = ids_of(resources.drop_last(), subject);
        if resources.last().subject == subject {
            rest.push(resources.last().resource@.canonical_id())
        } else {
            rest
        }
    }
}

/// Whether two lists of texts have the same members.
pub open spec fn same_members(a: Seq<Seq<char>>, b: Seq<Seq<char>>) -> bool {
    &&& forall|i: int| 0 <= i < a.len() ==> b.contains(#[trigger] a[i])
    &&& forall|i: int| 0 <= i < b.len() ==> a.contains(#[trigger] b[i])
}

impl TeardownCreationManifest {
    /// The identity of the instance itself.
    pub open spec fn instance_view(self) -> IdentityView {
        IdentityView {
            api_version: "kobe.kunobi.ninja/v1alpha1"@,
            kind: "ClusterInstance"@,
            namespace: Some(self.namespace@),
            name: self.instance.name@,
            uid: match self.instance.uid {
                Some(uid) => uid@,
                None => Seq::empty(),
            },
        }
    }

    /// A namespaced object of this kind and name.
    pub open spec fn is_object(
        self,
        identity: IdentityView,
        api_version: Seq<char>,
        kind: Seq<char>,
        name: Seq<char>,
    ) -> bool {
        &&& identity.namespace == Some(self.namespace@)
        &&& identity.api_version == api_version
        &&& identity.kind == kind
        &&& identity.name == name
    }

    /// Whether a resource bears the name that its subject expects, in the
    /// manifest's namespace. Only volumes are outside it. Pods and volume claims
    /// are named after the ordinal of a server, and the subjects that no creation
    /// manifest holds have no resource.
    pub open spec fn bears_its_name(self, entry: CreationManifestResource) -> bool {
        let identity = entry.resource@;
        let instance = self.instance.name@;
        &&& !(entry.subject is ConnectTokenSecret)
        &&& !(entry.subject is Database)
        &&& !(entry.subject is DatabaseRole)
        &&& expected_name(entry.subject, instance) matches Some(name) ==> identity.name == name
        &&& identity.namespace == (if entry.subject is ServerDataVolumes {
            None
        } else {
            Some(self.namespace@)
        })
        &&& entry.subject is ServerPods ==> is_ordinal_name(
            identity.name,
            instance + "-server-"@,
            self.server_replicas,
        )
        &&& entry.subject is ServerDataPvcs ==> is_ordinal_name(
            identity.name,
            "data-"@ + instance + "-server-"@,
            self.server_replicas,
        )
    }

    /// Whether a resource has the API, kind, namespace and name that the
    /// backend gives to its subject.
    pub open spec fn shape_matches(self, entry: CreationManifestResource) -> bool {
        let identity = entry.resource@;
        let instance = self.instance.name@;
        match entry.subject {
            TeardownSubject::AgentDeployment => self.is_object(
                identity,
                "apps/v1"@,
                "Deployment"@,
                instance + "-agent"@,
            ),
            TeardownSubject::ServerStatefulSet => self.is_object(
                identity,
                "apps/v1"@,
                "StatefulSet"@,
                instance + "-server"@,
            ),
            TeardownSubject::Service => self.is_object(
                identity,
                "v1"@,
                "Service"@,
                instance + "-server"@,
            ),
            TeardownSubject::PodDisruptionBudget => self.is_object(
                identity,
                "policy/v1"@,
                "PodDisruptionBudget"@,
                instance + "-server"@,
            ),
            TeardownSubject::PublisherConfigMap => self.is_object(
                identity,
                "v1"@,
                "ConfigMap"@,
                instance + "-kubeconfig-publisher"@,
            ),
            TeardownSubject::RegistriesConfigMap => self.is_object(
                identity,
                "v1"@,
                "ConfigMap"@,
                instance + "-registries"@,
            ),
            TeardownSubject::TokenSecret => self.is_object(
                identity,
                "v1"@,
                "Secret"@,
                instance + "-token"@,
            ),
            TeardownSubject::KubeconfigSecret => self.is_object(
                identity,
                "v1"@,
                "Secret"@,
                instance + "-kubeconfig"@,
            ),
            TeardownSubject::ConnectTokenSecret => false,
            TeardownSubject::DatastoreCredentialSecret => self.is_object(
                identity,
                "v1"@,
                "Secret"@,
                instance + "-datastore"@,
            ),
            TeardownSubject::CidrClaim => self.is_object(
                identity,
                "kobe.kunobi.ninja/v1alpha1"@,
                "CIDRClaim"@,
                instance,
            ),
            TeardownSubject::ServerDataPvcs => {
                &&& identity.namespace == Some(self.namespace@)
                &&& identity.api_version == "v1"@
                &&& identity.kind == "PersistentVolumeClaim"@
                &&& is_ordinal_name(
                    identity.name,
                    "data-"@ + instance + "-server-"@,
                    self.server_replicas,
                )
            },
            TeardownSubject::ServerDataVolumes => {
                &&& identity.namespace is None
                &&& identity.api_version == "v1"@
                &&& identity.kind == "PersistentVolume"@
            },
            TeardownSubject::ServerPods => {
                &&& identity.namespace == Some(self.namespace@)
                &&& identity.api_version == "v1"@
                &&& identity.kind == "Pod"@
                &&& is_ordinal_name(identity.name, instance + "-server-"@, self.server_replicas)
            },
            TeardownSubject::Database | TeardownSubject::DatabaseRole => false,
        }
    }

    /// Whether resource `i` is the first StatefulSet recorded.
    pub open spec fn is_statefulset(self, i: int) -> bool {
        &&& 0 <= i < self.resources@.len()
        &&& self.resources@[i].subject is ServerStatefulSet
        &&& forall|k: int|
            0 <= k < i ==> !((#[trigger] self.resources@[k]).subject is ServerStatefulSet)
    }

    /// Whether a resource is tied to what must have created it.
    pub open spec fn control_matches(self, entry: CreationManifestResource) -> bool {
        match entry.subject {
            TeardownSubject::ServerPods => {
                &&& entry.control_relation is ControllerOwner
                &&& exists|i: int|
                    #[trigger] self.is_statefulset(i) && entry.controller@
                        == self.resources@[i].resource@
            },
            TeardownSubject::ServerDataPvcs => {
                &&& entry.control_relation is InstanceUidLabel
                &&& entry.controller@ == self.instance_view()
            },
            TeardownSubject::ServerDataVolumes => {
                &&& entry.control_relation is ClaimRef
                &&& exists|i: int|
                    0 <= i < self.storage@.len() && (#[trigger] self.storage@[i]).pv@
                        == entry.resource@ && self.storage@[i].pvc@ == entry.controller@
            },
            TeardownSubject::Database | TeardownSubject::DatabaseRole => false,
            _ => {
                &&& entry.control_relation is ControllerOwner
                &&& entry.controller@ == self.instance_view()
            },
        }
    }

    /// Whether one recorded resource is complete, shaped and tied as it must be.
    pub open spec fn entry_valid(self, entry: CreationManifestResource) -> bool {
        &&& entry.resource@.complete()
        &&& entry.controller@.complete()
        &&& self.shape_matches(entry)
        &&& self.control_matches(entry)
    }

    /// Whether every identity in the manifest is complete. `sealed` is the
    /// instant that its timestamp names.
    pub open spec fn identities_complete(self, sealed: Option<(i64, u32)>) -> bool {
        &&& self.backend_type is K3s
        &&& fenced(self.instance)
        &&& !text::is_blank(self.instance.name@)
        &&& !text::is_blank(self.namespace@)
        &&& text::is_digest_text(self.config_digest@)
        &&& !text::is_blank(self.service_cidr@)
        &&& !text::is_blank(self.cluster_cidr@)
        &&& self.server_replicas != 0
        &&& sealed is Some
        &&& forall|i: int|
            0 <= i < self.resources@.len() ==> self.entry_valid(#[trigger] self.resources@[i])
    }

    /// Whether no object is recorded twice, under one UID or under two.
    pub open spec fn resources_distinct(self) -> bool {
        forall|i: int, j: int|
            0 <= i < j < self.resources@.len() ==> {
                &&& (#[trigger] self.resources@[i]).resource@.canonical_id() != (
                #[trigger] self.resources@[j]).resource@.canonical_id()
                &&& self.resources@[i].resource@.object_key()
                    != self.resources@[j].resource@.object_key()
            }
    }

    /// How many resources are recorded under a subject.
    pub open spec fn count(self, subject: TeardownSubject) -> nat {
        count_of(self.resources@, subject)
    }

    /// Whether every subject is recorded as often as the replica counts say.
    pub open spec fn multiplicity_matches(self) -> bool {
        &&& self.count(TeardownSubject::ServerStatefulSet) == 1
        &&& self.count(TeardownSubject::Service) == 1
        &&& self.count(TeardownSubject::PublisherConfigMap) == 1
        &&& self.count(TeardownSubject::TokenSecret) == 1
        &&& self.count(TeardownSubject::KubeconfigSecret) == 1
        &&& self.count(TeardownSubject::CidrClaim) == 1
        &&& self.count(TeardownSubject::ServerPods) == self.server_replicas
        &&& self.count(TeardownSubject::AgentDeployment) == (if self.agent_replicas > 0 {
            1nat
        } else {
            0nat
        })
        &&& self.count(TeardownSubject::PodDisruptionBudget) == (if self.server_replicas > 1 {
            1nat
        } else {
            0nat
        })
        &&& self.count(TeardownSubject::RegistriesConfigMap) <= 1
        &&& self.count(TeardownSubject::ConnectTokenSecret) == 0
    }

    /// The canonical identities of the recorded claims.
    pub open spec fn storage_claims(self) -> Seq<Seq<char>> {
        self.storage@.map_values(|volume: StorageVolumeProvenance| volume.pvc@.canonical_id())
    }

    /// The canonical identities of the recorded volumes.
    pub open spec fn storage_volumes(self) -> Seq<Seq<char>> {
        self.storage@.map_values(|volume: StorageVolumeProvenance| volume.pv@.canonical_id())
    }

    /// Whether deleting a claim provably destroys its data.
    pub open spec fn volume_reclaimable(self, volume: StorageVolumeProvenance) -> bool {
        &&& volume.pvc@.complete()
        &&& volume.pv@.complete()
        &&& volume.storage_class@.complete()
        &&& volume.pvc@.namespace == Some(self.namespace@)
        &&& volume.pvc@.api_version == "v1"@
        &&& volume.pvc@.kind == "PersistentVolumeClaim"@
        &&& volume.pv@.namespace is None
        &&& volume.pv@.api_version == "v1"@
        &&& volume.pv@.kind == "PersistentVolume"@
        &&& volume.storage_class@.namespace is None
        &&& volume.storage_class@.api_version == "storage.k8s.io/v1"@
        &&& volume.storage_class@.kind == "StorageClass"@
        &&& volume.reclaim_policy@ == "Delete"@
        &&& volume.pv_reclaim_policy@ == "Delete"@
    }

    /// Whether the storage facts account for exactly the recorded claims and
    /// volumes, one pair for each server, all of them reclaimable.
    pub open spec fn storage_verifiable(self) -> bool {
        if self.storage@.len() == 0 {
            &&& self.count(TeardownSubject::ServerDataPvcs) == 0
            &&& self.count(TeardownSubject::ServerDataVolumes) == 0
        } else {
            &&& self.storage@.len() == self.server_replicas
            &&& self.count(TeardownSubject::ServerDataPvcs) == self.storage@.len()
            &&& self.count(TeardownSubject::ServerDataVolumes) == self.storage@.len()
            &&& self.storage_claims().no_duplicates()
            &&& self.storage_volumes().no_duplicates()
            &&& same_members(
                ids_of(self.resources@, TeardownSubject::ServerDataPvcs),
                self.storage_claims(),
            )
            &&& same_members(
                ids_of(self.resources@, TeardownSubject::ServerDataVolumes),
                self.storage_volumes(),
            )
            &&& forall|i: int|
                0 <= i < self.storage@.len() ==> self.volume_reclaimable(
                    #[trigger] self.storage@[i],
                )
        }
    }

    /// Whether the datastore's identity is recorded as its mode requires.
    pub open spec fn datastore_verifiable(self) -> bool {
        match self.datastore {
            DatastoreProvenance::EmbeddedSqlite => self.count(
                TeardownSubject::DatastoreCredentialSecret,
            ) == 0,
            DatastoreProvenance::ExternalPostgres {
                endpoint_digest,
                system_identifier,
                database,
                database_oid,
                role,
                role_oid,
            } => {
                &&& text::is_digest_text(endpoint_digest@)
                &&& is_positive_numeral(system_identifier@, u64::MAX as nat)
                &&& !text::is_blank(database@)
                &&& is_positive_numeral(database_oid@, u32::MAX as nat)
                &&& !text::is_blank(role@)
                &&& is_positive_numeral(role_oid@, u32::MAX as nat)
                &&& self.count(TeardownSubject::DatastoreCredentialSecret) == 1
            },
        }
    }

    /// What validation finds. `sealed` is the instant that the manifest's
    /// timestamp names.
    pub open spec fn verdict(self, sealed: Option<(i64, u32)>) -> Result<
        (),
        CreationManifestInvalid,
    > {
        if self.schema_version != TEARDOWN_CREATION_MANIFEST_SCHEMA_VERSION {
            Err(CreationManifestInvalid::UnsupportedSchema)
        } else if !self.identities_complete(sealed) {
            Err(CreationManifestInvalid::IncompleteIdentity)
        } else if !self.resources_distinct() {
            Err(CreationManifestInvalid::DuplicateResource)
        } else if !self.multiplicity_matches() {
            Err(CreationManifestInvalid::MultiplicityMismatch)
        } else if !self.storage_verifiable() {
            Err(CreationManifestInvalid::StorageUnverifiable)
        } else if !self.datastore_verifiable() {
            Err(CreationManifestInvalid::DatastoreUnverifiable)
        } else {
            Ok(())
        }
    }
}

/// A numeral for a number from one to `max`.
pub open spec fn is_positive_numeral(text: Seq<char>, max: nat) -> bool {
    number::unsigned_value(text, max) matches Some(value) && value != 0
}

fn positive_numeral(text: &str, max: u64) -> (result: bool)
    ensures
        result == is_positive_numeral(text@, max as nat),
{
    match parse_unsigned(text, max) {
        Some(value) => value != 0,
        None => false,
    }
}

impl TeardownCreationManifest {
    fn ordinal_name(name: &str, prefix: &str, replicas: u32) -> (result: bool)
        ensures
            result == is_ordinal_name(name@, prefix@, replicas),
    {
        match strip_prefix(name, prefix) {
            Some(rest) => match parse_unsigned(rest, 0xffff_ffff) {
                Some(ordinal) => ordinal < replicas as u64,
                None => false,
            },
            None => false,
        }
    }

    fn is_object_exec(
        &self,
        identity: &KubernetesResourceIdentity,
        api_version: &str,
        kind: &str,
        suffix: &str,
    ) -> (result: bool)
        ensures
            result == self.is_object(
                identity@,
                api_version@,
                kind@,
                self.instance.name@ + suffix@,
            ),
    {
        let name = concat(self.instance.name.as_str(), suffix);
        holds_text(&identity.namespace, self.namespace.as_str()) && same_text(
            identity.api_version.as_str(),
            api_version,
        ) && same_text(identity.kind.as_str(), kind) && same_text(
            identity.name.as_str(),
            name.as_str(),
        )
    }

    /// Whether a resource has the shape that the backend gives to its subject. The
    /// shape fixes the resource's name and namespace.
    pub fn resource_shape_matches(&self, entry: &CreationManifestResource) -> (result: bool)
        ensures
            result == self.shape_matches(*entry),
            result ==> self.bears_its_name(*entry),
    {
        let identity = &entry.resource;
        match entry.subject {
            TeardownSubject::AgentDeployment => {
                self.is_object_exec(identity, "apps/v1", "Deployment", "-agent")
            },
            TeardownSubject::ServerStatefulSet => {
                self.is_object_exec(identity, "apps/v1", "StatefulSet", "-server")
            },
            TeardownSubject::Service => {
                self.is_object_exec(identity, "v1", "Service", "-server")
            },
            TeardownSubject::PodDisruptionBudget => {
                self.is_object_exec(identity, "policy/v1", "PodDisruptionBudget", "-server")
            },
            TeardownSubject::PublisherConfigMap => {
                self.is_object_exec(identity, "v1", "ConfigMap", "-kubeconfig-publisher")
            },
            TeardownSubject::RegistriesConfigMap => {
                self.is_object_exec(identity, "v1", "ConfigMap", "-registries")
            },
            TeardownSubject::TokenSecret => {
                self.is_object_exec(identity, "v1", "Secret", "-token")
            },
            TeardownSubject::KubeconfigSecret => {
                self.is_object_exec(identity, "v1", "Secret", "-kubeconfig")
            },
            TeardownSubject::ConnectTokenSecret => false,
            TeardownSubject::DatastoreCredentialSecret => {
                self.is_object_exec(identity, "v1", "Secret", "-datastore")
            },
            TeardownSubject::CidrClaim => {
                holds_text(&identity.namespace, self.namespace.as_str()) && same_text(
                    identity.api_version.as_str(),
                    "kobe.kunobi.ninja/v1alpha1",
                ) && same_text(identity.kind.as_str(), "CIDRClaim") && same_text(
                    identity.name.as_str(),
                    self.instance.name.as_str(),
                )
            },
            TeardownSubject::ServerDataPvcs => {
                let prefix = concat3("data-", self.instance.name.as_str(), "-server-");
                holds_text(&identity.namespace, self.namespace.as_str()) && same_text(
                    identity.api_version.as_str(),
                    "v1",
                ) && same_text(identity.kind.as_str(), "PersistentVolumeClaim")
                    && Self::ordinal_name(
                    identity.name.as_str(),
                    prefix.as_str(),
                    self.server_replicas,
                )
            },
            TeardownSubject::ServerDataVolumes => {
                identity.namespace.is_none() && same_text(identity.api_version.as_str(), "v1")
                    && same_text(identity.kind.as_str(), "PersistentVolume")
            },
            TeardownSubject::ServerPods => {
                let prefix = concat(self.instance.name.as_str(), "-server-");
                holds_text(&identity.namespace, self.namespace.as_str()) && same_text(
                    identity.api_version.as_str(),
                    "v1",
                ) && same_text(identity.kind.as_str(), "Pod") && Self::ordinal_name(
                    identity.name.as_str(),
                    prefix.as_str(),
                    self.server_replicas,
                )
            },
            TeardownSubject::Database | TeardownSubject::DatabaseRole => false,
        }
    }

    /// The identity of the instance itself.
    fn instance_identity(&self) -> (identity: KubernetesResourceIdentity)
        ensures
            identity@ == self.instance_view(),
    {
        let uid = match &self.instance.uid {
            Some(uid) => uid.clone(),
            None => String::new(),
        };
        KubernetesResourceIdentity {
            api_version: "kobe.kunobi.ninja/v1alpha1".to_owned(),
            kind: "ClusterInstance".to_owned(),
            namespace: Some(self.namespace.clone()),
            name: self.instance.name.clone(),
            uid,
        }
    }

    /// Whether `controller` is the first StatefulSet recorded.
    fn controlled_by_statefulset(&self, controller: &KubernetesResourceIdentity) -> (result: bool)
        ensures
            result == exists|i: int|
                #[trigger] self.is_statefulset(i) && controller@ == self.resources@[i].resource@,
    {
        let mut i: usize = 0;
        while i < self.resources.len()
            invariant
                i <= self.resources@.len(),
                forall|k: int|
                    0 <= k < i ==> !((#[trigger] self.resources@[k]).subject is ServerStatefulSet),
            decreases self.resources@.len() - i,
        {
            if self.resources[i].subject == TeardownSubject::ServerStatefulSet {
                let result = controller.same(&self.resources[i].resource);
                proof {
                    assert(self.is_statefulset(i as int));
                    if !result {
                        assert forall|j: int|
                            self.is_statefulset(j) && controller@
                                == self.resources@[j].resource@ implies false by {
                            if j < i {
                                assert(!(self.resources@[j].subject is ServerStatefulSet));
                            } else if j > i {
                                assert(!(self.resources@[i as int].subject is ServerStatefulSet));
                            }
                        }
                    }
                }
                return result;
            }
            i = i + 1;
        }
        false
    }

    /// Whether the storage facts pair this volume with this claim.
    fn storage_pairs(
        &self,
        volume: &KubernetesResourceIdentity,
        claim: &KubernetesResourceIdentity,
    ) -> (result: bool)
        ensures
            result == exists|i: int|
                0 <= i < self.storage@.len() && (#[trigger] self.storage@[i]).pv@ == volume@
                    && self.storage@[i].pvc@ == claim@,
    {
        let mut i: usize = 0;
        while i < self.storage.len()
            invariant
                i <= self.storage@.len(),
                forall|k: int|
                    0 <= k < i ==> !((#[trigger] self.storage@[k]).pv@ == volume@
                        && self.storage@[k].pvc@ == claim@),
            decreases self.storage@.len() - i,
        {
            if self.storage[i].pv.same(volume) && self.storage[i].pvc.same(claim) {
                assert(self.storage@[i as int].pv@ == volume@);
                return true;
            }
            i = i + 1;
        }
        false
    }

    /// Whether a resource is tied to what must have created it.
    fn control_shape_matches(&self, entry: &CreationManifestResource) -> (result: bool)
        ensures
            result == self.control_matches(*entry),
    {
        match entry.subject {
            TeardownSubject::ServerPods => {
                entry.control_relation == CreationControlRelation::ControllerOwner
                    && self.controlled_by_statefulset(&entry.controller)
            },
            TeardownSubject::ServerDataPvcs => {
                entry.control_relation == CreationControlRelation::InstanceUidLabel
                    && entry.controller.same(&self.instance_identity())
            },
            TeardownSubject::ServerDataVolumes => {
                entry.control_relation == CreationControlRelation::ClaimRef && self.storage_pairs(
                    &entry.resource,
                    &entry.controller,
                )
            },
            TeardownSubject::Database | TeardownSubject::DatabaseRole => false,
            _ => {
                entry.control_relation == CreationControlRelation::ControllerOwner
                    && entry.controller.same(&self.instance_identity())
            },
        }
    }

    fn identities_are_complete(&self, sealed: Option<(i64, u32)>) -> (result: bool)
        ensures
            result == self.identities_complete(sealed),
    {
        if self.backend_type != BackendType::K3s || !is_fenced(&self.instance) || blank(
            self.instance.name.as_str(),
        ) || blank(self.namespace.as_str()) || !digest_shaped(self.config_digest.as_str()) || blank(
            self.service_cidr.as_str(),
        ) || blank(self.cluster_cidr.as_str()) || self.server_replicas == 0 || sealed.is_none() {
            return false;
        }
        let mut i: usize = 0;
        while i < self.resources.len()
            invariant
                i <= self.resources@.len(),
                forall|k: int|
                    0 <= k < i ==> self.entry_valid(#[trigger] self.resources@[k]),
            decreases self.resources@.len() - i,
        {
            let entry = &self.resources[i];
            if !entry.resource.is_complete() || !entry.controller.is_complete()
                || !self.resource_shape_matches(entry) || !self.control_shape_matches(entry) {
                assert(!self.entry_valid(self.resources@[i as int]));
                return false;
            }
            i = i + 1;
        }
        true
    }

    fn resources_are_distinct(&self) -> (result: bool)
        ensures
            result == self.resources_distinct(),
    {
        let mut j: usize = 0;
        while j < self.resources.len()
            invariant
                j <= self.resources@.len(),
                forall|a: int, b: int|
                    0 <= a < b < j ==> {
                        &&& (#[trigger] self.resources@[a]).resource@.canonical_id() != (
                        #[trigger] self.resources@[b]).resource@.canonical_id()
                        &&& self.resources@[a].resource@.object_key()
                            != self.resources@[b].resource@.object_key()
                    },
            decreases self.resources@.len() - j,
        {
            let id = self.resources[j].resource.canonical_id();
            let key = self.resources[j].resource.object_key();
            let mut i: usize = 0;
            while i < j
                invariant
                    i <= j < self.resources@.len(),
                    id@ == self.resources@[j as int].resource@.canonical_id(),
                    key@ == self.resources@[j as int].resource@.object_key(),
                    forall|a: int|
                        0 <= a < i ==> {
                            &&& (#[trigger] self.resources@[a]).resource@.canonical_id() != id@
                            &&& self.resources@[a].resource@.object_key() != key@
                        },
                decreases j - i,
            {
                let other_id = self.resources[i].resource.canonical_id();
                let other_key = self.resources[i].resource.object_key();
                if same_text(other_id.as_str(), id.as_str()) || same_text(
                    other_key.as_str(),
                    key.as_str(),
                ) {
                    assert(self.resources@[i as int].resource@.canonical_id()
                        == self.resources@[j as int].resource@.canonical_id()
                        || self.resources@[i as int].resource@.object_key()
                        == self.resources@[j as int].resource@.object_key());
                    return false;
                }
                i = i + 1;
            }
            j = j + 1;
        }
        true
    }

    fn count_subject(&self, subject: TeardownSubject) -> (count: usize)
        ensures
            count == self.count(subject),
    {
        let mut count: usize = 0;
        let mut i: usize = 0;
        while i < self.resources.len()
            invariant
                count <= i <= self.resources@.len(),
                count == count_of(self.resources@.take(i as int), subject),
            decreases self.resources@.len() - i,
        {
            assert(self.resources@.take(i + 1).drop_last() =~= self.resources@.take(i as int));
            if self.resources[i].subject == subject {
                count = count + 1;
            }
            i = i + 1;
        }
        assert(self.resources@.take(self.resources@.len() as int) =~= self.resources@);
        count
    }

    fn multiplicity_is_as_declared(&self) -> (result: bool)
        ensures
            result == self.multiplicity_matches(),
    {
        let agents: usize = if self.agent_replicas > 0 {
            1
        } else {
            0
        };
        let budgets: usize = if self.server_replicas > 1 {
            1
        } else {
            0
        };
        self.count_subject(TeardownSubject::ServerStatefulSet) == 1 && self.count_subject(
            TeardownSubject::Service,
        ) == 1 && self.count_subject(TeardownSubject::PublisherConfigMap) == 1
            && self.count_subject(TeardownSubject::TokenSecret) == 1 && self.count_subject(
            TeardownSubject::KubeconfigSecret,
        ) == 1 && self.count_subject(TeardownSubject::CidrClaim) == 1 && self.count_subject(
            TeardownSubject::ServerPods,
        ) as u64 == self.server_replicas as u64 && self.count_subject(
            TeardownSubject::AgentDeployment,
        ) == agents && self.count_subject(TeardownSubject::PodDisruptionBudget) == budgets
            && self.count_subject(TeardownSubject::RegistriesConfigMap) <= 1
            && self.count_subject(TeardownSubject::ConnectTokenSecret) == 0
    }
}

/// Whether every text of `a` is among those of `b`.
fn all_among(a: &Vec<String>, b: &Vec<String>) -> (result: bool)
    ensures
        result == forall|i: int|
            0 <= i < text::texts(a@).len() ==> text::texts(b@).contains(
                #[trigger] text::texts(a@)[i],
            ),
{
    let mut i: usize = 0;
    while i < a.len()
        invariant
            i <= a@.len(),
            forall|k: int|
                0 <= k < i ==> text::texts(b@).contains(#[trigger] text::texts(a@)[k]),
        decreases a@.len() - i,
    {
        if !contains_text(b.as_slice(), a[i].as_str()) {
            assert(!text::texts(b@).contains(text::texts(a@)[i as int]));
            return false;
        }
        i = i + 1;
    }
    true
}

/// Whether no two texts are the same.
fn all_distinct(values: &Vec<String>) -> (result: bool)
    ensures
        result == text::texts(values@).no_duplicates(),
{
    let ghost all = text::texts(values@);
    let mut j: usize = 0;
    while j < values.len()
        invariant
            all == text::texts(values@),
            j <= values@.len(),
            forall|a: int, b: int| 0 <= a < b < j ==> all[a] != all[b],
        decreases values@.len() - j,
    {
        let mut i: usize = 0;
        while i < j
            invariant
                all == text::texts(values@),
                i <= j < values@.len(),
                forall|a: int| 0 <= a < i ==> all[a] != all[j as int],
            decreases j - i,
        {
            if same_text(values[i].as_str(), values[j].as_str()) {
                assert(all[i as int] == all[j as int]);
                return false;
            }
            i = i + 1;
        }
        j = j + 1;
    }
    true
}

impl TeardownCreationManifest {
    fn collect_ids(&self, subject: TeardownSubject) -> (ids: Vec<String>)
        ensures
            text::texts(ids@) == ids_of(self.resources@, subject),
    {
        let mut ids: Vec<String> = Vec::new();
        let mut i: usize = 0;
        assert(text::texts(ids@) =~= ids_of(self.resources@.take(0), subject));
        while i < self.resources.len()
            invariant
                i <= self.resources@.len(),
                text::texts(ids@) == ids_of(self.resources@.take(i as int), subject),
            decreases self.resources@.len() - i,
        {
            let ghost before = text::texts(ids@);
            assert(self.resources@.take(i + 1).drop_last() =~= self.resources@.take(i as int));
            if self.resources[i].subject == subject {
                let id = self.resources[i].resource.canonical_id();
                ids.push(id);
                assert(text::texts(ids@) =~= before.push(id@));
            }
            i = i + 1;
        }
        assert(self.resources@.take(self.resources@.len() as int) =~= self.resources@);
        ids
    }

    fn collect_storage(&self, claims: bool) -> (ids: Vec<String>)
        ensures
            text::texts(ids@) == (if claims {
                self.storage_claims()
            } else {
                self.storage_volumes()
            }),
    {
        let mut ids: Vec<String> = Vec::new();
        let mut i: usize = 0;
        while i < self.storage.len()
            invariant
                i <= self.storage@.len(),
                ids@.len() == i,
                forall|k: int|
                    0 <= k < i ==> (#[trigger] ids@[k])@ == (if claims {
                        self.storage@[k].pvc@.canonical_id()
                    } else {
                        self.storage@[k].pv@.canonical_id()
                    }),
            decreases self.storage@.len() - i,
        {
            let id = if claims {
                self.storage[i].pvc.canonical_id()
            } else {
                self.storage[i].pv.canonical_id()
            };
            ids.push(id);
            i = i + 1;
        }
        if claims {
            assert(text::texts(ids@) =~= self.storage_claims());
        } else {
            assert(text::texts(ids@) =~= self.storage_volumes());
        }
        ids
    }

    fn is_volume_reclaimable(&self, volume: &StorageVolumeProvenance) -> (result: bool)
        ensures
            result == self.volume_reclaimable(*volume),
    {
        volume.pvc.is_complete() && volume.pv.is_complete() && volume.storage_class.is_complete()
            && holds_text(&volume.pvc.namespace, self.namespace.as_str()) && same_text(
            volume.pvc.api_version.as_str(),
            "v1",
        ) && same_text(volume.pvc.kind.as_str(), "PersistentVolumeClaim")
            && volume.pv.namespace.is_none() && same_text(volume.pv.api_version.as_str(), "v1")
            && same_text(volume.pv.kind.as_str(), "PersistentVolume")
            && volume.storage_class.namespace.is_none() && same_text(
            volume.storage_class.api_version.as_str(),
            "storage.k8s.io/v1",
        ) && same_text(volume.storage_class.kind.as_str(), "StorageClass") && same_text(
            volume.reclaim_policy.as_str(),
            "Delete",
        ) && same_text(volume.pv_reclaim_policy.as_str(), "Delete")
    }

    fn storage_is_verifiable(&self) -> (result: bool)
        ensures
            result == self.storage_verifiable(),
    {
        let claim_count = self.count_subject(TeardownSubject::ServerDataPvcs);
        let volume_count = self.count_subject(TeardownSubject::ServerDataVolumes);
        if self.storage.len() == 0 {
            return claim_count == 0 && volume_count == 0;
        }
        if self.storage.len() as u64 != self.server_replicas as u64 || claim_count
            != self.storage.len() || volume_count != self.storage.len() {
            return false;
        }
        let manifest_claims = self.collect_ids(TeardownSubject::ServerDataPvcs);
        let manifest_volumes = self.collect_ids(TeardownSubject::ServerDataVolumes);
        let claims = self.collect_storage(true);
        let volumes = self.collect_storage(false);
        if !all_distinct(&claims) || !all_distinct(&volumes) || !all_among(
            &manifest_claims,
            &claims,
        ) || !all_among(&claims, &manifest_claims) || !all_among(&manifest_volumes, &volumes)
            || !all_among(&volumes, &manifest_volumes) {
            return false;
        }
        let mut i: usize = 0;
        while i < self.storage.len()
            invariant
                i <= self.storage@.len(),
                forall|k: int|
                    0 <= k < i ==> self.volume_reclaimable(#[trigger] self.storage@[k]),
            decreases self.storage@.len() - i,
        {
            if !self.is_volume_reclaimable(&self.storage[i]) {
                assert(!self.volume_reclaimable(self.storage@[i as int]));
                return false;
            }
            i = i + 1;
        }
        true
    }

    fn datastore_is_verifiable(&self) -> (result: bool)
        ensures
            result == self.datastore_verifiable(),
    {
        let secrets = self.count_subject(TeardownSubject::DatastoreCredentialSecret);
        match &self.datastore {
            DatastoreProvenance::EmbeddedSqlite => secrets == 0,
            DatastoreProvenance::ExternalPostgres {
                endpoint_digest,
                system_identifier,
                database,
                database_oid,
                role,
                role_oid,
            } => {
                digest_shaped(endpoint_digest.as_str()) && positive_numeral(
                    system_identifier.as_str(),
                    0xffff_ffff_ffff_ffff,
                ) && !blank(database.as_str()) && positive_numeral(
                    database_oid.as_str(),
                    0xffff_ffff,
                ) && !blank(role.as_str()) && positive_numeral(role_oid.as_str(), 0xffff_ffff)
                    && secrets == 1
            },
        }
    }

    /// Validates the manifest, given the instant that its timestamp names.
    pub fn validate_sealed(&self, sealed: Option<(i64, u32)>) -> (result: Result<
        (),
        CreationManifestInvalid,
    >)
        ensures
            result == self.verdict(sealed),
    {
        if self.schema_version != TEARDOWN_CREATION_MANIFEST_SCHEMA_VERSION {
            return Err(CreationManifestInvalid::UnsupportedSchema);
        }
        if !self.identities_are_complete(sealed) {
            return Err(CreationManifestInvalid::IncompleteIdentity);
        }
        if !self.resources_are_distinct() {
            return Err(CreationManifestInvalid::DuplicateResource);
        }
        if !self.multiplicity_is_as_declared() {
            return Err(CreationManifestInvalid::MultiplicityMismatch);
        }
        if !self.storage_is_verifiable() {
            return Err(CreationManifestInvalid::StorageUnverifiable);
        }
        if !self.datastore_is_verifiable() {
            return Err(CreationManifestInvalid::DatastoreUnverifiable);
        }
        Ok(())
    }

    /// Validates the sealed manifest before it becomes an authorization input.
    pub fn validate(&self) -> (result: Result<(), CreationManifestInvalid>)
        ensures
            result == self.verdict(time::rfc3339_instant(self.sealed_at@)),
    {
        self.validate_sealed(parse_rfc3339(self.sealed_at.as_str()))
    }
}

/// A reference as JSON.
pub open spec fn reference_value(reference: (Seq<char>, Option<Seq<char>>)) -> json::JsonView {
    json::JsonView::Object(
        seq![("name"@, json::JsonView::Text(reference.0))] + json::optional_member(
            "uid"@,
            reference.1,
        ),
    )
}

fn reference_to_json(reference: &ResourceRef) -> (value: Json)
    ensures
        value@ == reference_value(reference@),
{
    let value = Json::object1("name", Json::string(reference.name.as_str())).with_optional(
        "uid",
        &reference.uid,
    );
    assert(value@->Object_0 =~= reference_value(reference@)->Object_0);
    value
}

/// The recorded resources as JSON.
pub open spec fn resource_values(resources: Seq<CreationManifestResource>) -> Seq<json::JsonView> {
    resources.map_values(|entry: CreationManifestResource| entry.value())
}

/// The recorded volumes as JSON.
pub open spec fn volume_values(storage: Seq<StorageVolumeProvenance>) -> Seq<json::JsonView> {
    storage.map_values(|volume: StorageVolumeProvenance| volume.value())
}

/// The storage member, left out where nothing is stored.
pub open spec fn storage_member(storage: Seq<StorageVolumeProvenance>) -> Seq<
    (Seq<char>, json::JsonView),
> {
    if storage.len() == 0 {
        Seq::empty()
    } else {
        seq![("storage"@, json::JsonView::Array(volume_values(storage)))]
    }
}

impl TeardownCreationManifest {
    /// The manifest as JSON.
    pub open spec fn value(self) -> json::JsonView {
        json::JsonView::Object(
            seq![
                ("schemaVersion"@, json::integer(self.schema_version as int)),
                ("instance"@, reference_value(self.instance@)),
                ("namespace"@, json::JsonView::Text(self.namespace@)),
                ("backendType"@, json::JsonView::Text(self.backend_type.wire_text())),
                ("configDigest"@, json::JsonView::Text(self.config_digest@)),
                ("serviceCidr"@, json::JsonView::Text(self.service_cidr@)),
                ("clusterCidr"@, json::JsonView::Text(self.cluster_cidr@)),
                ("serverReplicas"@, json::integer(self.server_replicas as int)),
                ("agentReplicas"@, json::integer(self.agent_replicas as int)),
                ("resources"@, json::JsonView::Array(resource_values(self.resources@))),
            ] + storage_member(self.storage@) + seq![
                ("datastore"@, self.datastore.value()),
                ("sealedAt"@, json::JsonView::Text(self.sealed_at@)),
            ],
        )
    }

    /// The manifest in JSON form.
    pub open spec fn json(self) -> Seq<char> {
        json::value_text(self.value())
    }

    fn resources_to_json(&self) -> (value: Json)
        ensures
            value@ == json::JsonView::Array(resource_values(self.resources@)),
    {
        let mut items: Vec<Json> = Vec::new();
        let mut i: usize = 0;
        while i < self.resources.len()
            invariant
                i <= self.resources@.len(),
                items@.len() == i,
                forall|k: int|
                    0 <= k < i ==> (#[trigger] items@[k])@ == self.resources@[k].value(),
            decreases self.resources@.len() - i,
        {
            items.push(self.resources[i].to_json());
            i = i + 1;
        }
        assert(json::views(items@) =~= resource_values(self.resources@));
        Json::array(items)
    }

    fn storage_to_json(&self) -> (value: Json)
        ensures
            value@ == json::JsonView::Array(volume_values(self.storage@)),
    {
        let mut items: Vec<Json> = Vec::new();
        let mut i: usize = 0;
        while i < self.storage.len()
            invariant
                i <= self.storage@.len(),
                items@.len() == i,
                forall|k: int|
                    0 <= k < i ==> (#[trigger] items@[k])@ == self.storage@[k].value(),
            decreases self.storage@.len() - i,
        {
            items.push(self.storage[i].to_json());
            i = i + 1;
        }
        assert(json::views(items@) =~= volume_values(self.storage@));
        Json::array(items)
    }

    /// The manifest as compact JSON.
    pub fn to_json(&self) -> (result: String)
        ensures
            result@ == self.json(),
    {
        let head = Json::object3(
            "schemaVersion",
            Json::integer(self.schema_version as i64),
            "instance",
            reference_to_json(&self.instance),
            "namespace",
            Json::string(self.namespace.as_str()),
        ).with_member("backendType", Json::string(self.backend_type.wire_name())).with_member(
            "configDigest",
            Json::string(self.config_digest.as_str()),
        ).with_member("serviceCidr", Json::string(self.service_cidr.as_str())).with_member(
            "clusterCidr",
            Json::string(self.cluster_cidr.as_str()),
        ).with_member("serverReplicas", Json::integer(self.server_replicas as i64)).with_member(
            "agentReplicas",
            Json::integer(self.agent_replicas as i64),
        ).with_member("resources", self.resources_to_json());
        let stored = if self.storage.len() == 0 {
            head
        } else {
            head.with_member("storage", self.storage_to_json())
        };
        let value = stored.with_member("datastore", self.datastore.to_json()).with_member(
            "sealedAt",
            Json::string(self.sealed_at.as_str()),
        );
        assert(value@->Object_0 =~= self.value()->Object_0);
        value.to_text()
    }

    /// Canonical SHA-256 that binds a receipt to this manifest.
    pub fn digest(&self) -> (result: Result<String, serde_json::Error>)
        ensures
            result is Ok,
            result->Ok_0@ == digest::sha256_hex(encode_utf8(self.json())),
            result->Ok_0@.len() == 64,
            digest::all_hex_digits(result->Ok_0@),
    {
        let encoded = self.to_json();
        Ok(sha256_hex_of(encoded.as_str().as_bytes()))
    }

    /// Whether the datastore is an external one.
    pub open spec fn external_datastore(self) -> bool {
        self.datastore is ExternalPostgres
    }

    /// The subjects that a receipt must cover: each recorded one once, in the
    /// order in which they are first recorded, and then the external datastore's.
    pub open spec fn subjects(self) -> Seq<TeardownSubject> {
        if self.external_datastore() {
            first_subjects(self.resources@).push(TeardownSubject::Database).push(
                TeardownSubject::DatabaseRole,
            )
        } else {
            first_subjects(self.resources@)
        }
    }

    /// Every identity that a successful receipt must account for.
    pub open spec fn identities(self) -> Seq<Seq<char>> {
        let recorded = self.resources@.map_values(
            |entry: CreationManifestResource| entry.resource@.canonical_id(),
        );
        if self.external_datastore() {
            recorded.push(self.datastore.database_identity()).push(self.datastore.role_identity())
        } else {
            recorded
        }
    }

    /// The identities that belong to one subject.
    pub open spec fn subject_identities(self, subject: TeardownSubject) -> Seq<Seq<char>> {
        let recorded = ids_of(self.resources@, subject);
        if self.external_datastore() && subject is Database {
            recorded.push(self.datastore.database_identity())
        } else if self.external_datastore() && subject is DatabaseRole {
            recorded.push(self.datastore.role_identity())
        } else {
            recorded
        }
    }

    /// Unique subjects that a receipt must cover.
    pub fn required_subjects(&self) -> (subjects: Vec<TeardownSubject>)
        ensures
            subjects@ == self.subjects(),
    {
        let mut subjects: Vec<TeardownSubject> = Vec::new();
        let mut i: usize = 0;
        assert(subjects@ =~= first_subjects(self.resources@.take(0)));
        while i < self.resources.len()
            invariant
                i <= self.resources@.len(),
                subjects@ == first_subjects(self.resources@.take(i as int)),
            decreases self.resources@.len() - i,
        {
            let subject = self.resources[i].subject;
            assert(self.resources@.take(i + 1).drop_last() =~= self.resources@.take(i as int));
            if !contains_subject(&subjects, subject) {
                subjects.push(subject);
            }
            i = i + 1;
        }
        assert(self.resources@.take(self.resources@.len() as int) =~= self.resources@);
        match &self.datastore {
            DatastoreProvenance::ExternalPostgres { .. } => {
                subjects.push(TeardownSubject::Database);
                subjects.push(TeardownSubject::DatabaseRole);
            },
            DatastoreProvenance::EmbeddedSqlite => {},
        }
        subjects
    }

    /// Every exact creation identity that a successful receipt must account for.
    pub fn recorded_identities(&self) -> (identities: Vec<String>)
        ensures
            text::texts(identities@) == self.identities(),
    {
        let mut identities: Vec<String> = Vec::new();
        let ghost recorded = self.resources@.map_values(
            |entry: CreationManifestResource| entry.resource@.canonical_id(),
        );
        let mut i: usize = 0;
        while i < self.resources.len()
            invariant
                i <= self.resources@.len(),
                recorded == self.resources@.map_values(
                    |entry: CreationManifestResource| entry.resource@.canonical_id(),
                ),
                identities@.len() == i,
                forall|k: int| 0 <= k < i ==> (#[trigger] identities@[k])@ == recorded[k],
            decreases self.resources@.len() - i,
        {
            identities.push(self.resources[i].resource.canonical_id());
            i = i + 1;
        }
        assert(text::texts(identities@) =~= recorded);
        match &self.datastore {
            DatastoreProvenance::ExternalPostgres {
                endpoint_digest,
                system_identifier,
                database,
                database_oid,
                role,
                role_oid,
            } => {
                identities.push(
                    postgres_identity(
                        system_identifier.as_str(),
                        endpoint_digest.as_str(),
                        ":database:",
                        database.as_str(),
                        database_oid.as_str(),
                    ),
                );
                identities.push(
                    postgres_identity(
                        system_identifier.as_str(),
                        endpoint_digest.as_str(),
                        ":role:",
                        role.as_str(),
                        role_oid.as_str(),
                    ),
                );
                assert(text::texts(identities@) =~= self.identities());
            },
            DatastoreProvenance::EmbeddedSqlite => {},
        }
        identities
    }

    /// Exact identities that belong to one teardown subject.
    pub fn identities_for_subject(&self, subject: TeardownSubject) -> (identities: Vec<String>)
        ensures
            text::texts(identities@) == self.subject_identities(subject),
    {
        let mut identities = self.collect_ids(subject);
        let ghost recorded = text::texts(identities@);
        match &self.datastore {
            DatastoreProvenance::ExternalPostgres {
                endpoint_digest,
                system_identifier,
                database,
                database_oid,
                role,
                role_oid,
            } => match subject {
                TeardownSubject::Database => {
                    let identity = postgres_identity(
                        system_identifier.as_str(),
                        endpoint_digest.as_str(),
                        ":database:",
                        database.as_str(),
                        database_oid.as_str(),
                    );
                    identities.push(identity);
                    assert(text::texts(identities@) =~= recorded.push(identity@));
                },
                TeardownSubject::DatabaseRole => {
                    let identity = postgres_identity(
                        system_identifier.as_str(),
                        endpoint_digest.as_str(),
                        ":role:",
                        role.as_str(),
                        role_oid.as_str(),
                    );
                    identities.push(identity);
                    assert(text::texts(identities@) =~= recorded.push(identity@));
                },
                _ => {},
            },
            DatastoreProvenance::EmbeddedSqlite => {},
        }
        identities
    }
}

/// Each subject once, in the order in which they first occur.
pub open spec fn first_subjects(resources: Seq<CreationManifestResource>) -> Seq<TeardownSubject>
    decreases resources.len(),
{
    if resources.len() == 0 {
        Seq::empty()
    } else {
        let rest = first_subjects(resources.drop_last());
        if rest.contains(resources.last().subject) {
            rest
        } else {
            rest.push(resources.last().subject)
        }
    }
}

fn contains_subject(subjects: &Vec<TeardownSubject>, subject: TeardownSubject) -> (found: bool)
    ensures
        found == subjects@.contains(subject),
{
    let mut i: usize = 0;
    while i < subjects.len()
        invariant
            i <= subjects@.len(),
            forall|k: int| 0 <= k < i ==> subjects@[k] != subject,
        decreases subjects@.len() - i,
    {
        if subjects[i] == subject {
            return true;
        }
        i = i + 1;
    }
    false
}

/// Outcome of proving one subject absent.
#[derive(Debug, Clone, Copy, PartialEq, Eq, Structural)]
pub enum CheckResult {
    /// Observed absent.
    Verified,
    /// Recorded at creation time as never built.
    NotApplicable,
    /// Could not be determined.
    Unknown,
}

impl CheckResult {
    /// The name under which the result is stored.
    pub open spec fn wire_text(self) -> Seq<char> {
        match self {
            CheckResult::Verified => "verified"@,
            CheckResult::NotApplicable => "notApplicable"@,
            CheckResult::Unknown => "unknown"@,
        }
    }

    fn wire_name(self) -> (name: &'static str)
        ensures
            name@ == self.wire_text(),
    {
        match self {
            CheckResult::Verified => "verified",
            CheckResult::NotApplicable => "notApplicable",
            CheckResult::Unknown => "unknown",
        }
    }
}

/// Aggregate verdict of one teardown attempt.
#[derive(Debug, Clone, Copy, PartialEq, Eq, Structural)]
pub enum TeardownOutcome {
    /// Begun and not ended.
    InProgress,
    /// No subject is unknown.
    Verified,
    /// A subject is unknown; the capacity is not reusable.
    Quarantined,
}

impl TeardownOutcome {
    /// The name under which the outcome is stored.
    pub open spec fn wire_text(self) -> Seq<char> {
        match self {
            TeardownOutcome::InProgress => "inProgress"@,
            TeardownOutcome::Verified => "verified"@,
            TeardownOutcome::Quarantined => "quarantined"@,
        }
    }

    fn wire_name(self) -> (name: &'static str)
        ensures
            name@ == self.wire_text(),
    {
        match self {
            TeardownOutcome::InProgress => "inProgress",
            TeardownOutcome::Verified => "verified",
            TeardownOutcome::Quarantined => "quarantined",
        }
    }
}

/// Evidence for one subject.
#[derive(Debug, Clone, PartialEq, Eq)]
pub struct TeardownCheck {
    pub subject: TeardownSubject,
    pub result: CheckResult,
    /// Bounded reason code.
    pub reason: Option<String>,
    /// The concrete resources that the check looked at.
    pub verified: Vec<String>,
}

/// The verified member of a check, left out where it names nothing.
pub open spec fn verified_member(verified: Seq<Seq<char>>) -> Seq<(Seq<char>, json::JsonView)> {
    if verified.len() == 0 {
        Seq::empty()
    } else {
        seq![("verified"@, json::JsonView::Array(json::text_views(verified)))]
    }
}

impl TeardownCheck {
    /// The check as JSON.
    pub open spec fn value(self) -> json::JsonView {
        json::JsonView::Object(
            seq![
                ("subject"@, json::JsonView::Text(self.subject.wire_text())),
                ("result"@, json::JsonView::Text(self.result.wire_text())),
            ] + json::optional_member("reason"@, text::opt_text(self.reason)) + verified_member(
                text::texts(self.verified@),
            ),
        )
    }

    fn to_json(&self) -> (value: Json)
        ensures
            value@ == self.value(),
    {
        let head = Json::object2(
            "subject",
            Json::string(self.subject.wire_name()),
            "result",
            Json::string(self.result.wire_name()),
        ).with_optional("reason", &self.reason);
        let value = if self.verified.len() == 0 {
            head
        } else {
            head.with_member("verified", Json::strings(self.verified.as_slice()))
        };
        assert(value@->Object_0 =~= self.value()->Object_0);
        value
    }
}

/// Durable proof that one exact lease-owned footprint is gone.
#[derive(Debug, Clone, PartialEq, Eq)]
pub struct TeardownReceipt {
    pub schema_version: u32,
    /// Unique to one attempt.
    pub attempt_id: String,
    pub lease: ResourceRef,
    pub instance: ResourceRef,
    pub pool: ResourceRef,
    pub backend_type: String,
    pub config_digest: String,
    pub instance_spec_digest: String,
    /// Digest of the creation manifest.
    pub creation_manifest_digest: String,
    pub cleanup_mode: CleanupMode,
    pub started_at: String,
    pub completed_at: Option<String>,
    pub checks: Vec<TeardownCheck>,
    pub retry_count: u32,
    pub outcome: TeardownOutcome,
}

/// Annotation that a consumer sets once it acted on a receipt.
pub const TEARDOWN_RECEIPT_ACKNOWLEDGED_ANNOTATION: &'static str =
    "kobe.kunobi.ninja/teardown-receipt-acknowledged";

/// Annotation that acknowledges the proof of a release that never bound.
pub const UNBOUND_RELEASE_PROOF_ACKNOWLEDGED_ANNOTATION: &'static str =
    "kobe.kunobi.ninja/unbound-release-proof-acknowledged";

/// Finalizer that keeps a lease until its receipt is acknowledged.
pub const TEARDOWN_RECEIPT_RETENTION_FINALIZER: &'static str =
    "kobe.kunobi.ninja/teardown-receipt-retention";

/// Schema version of receipts.
pub const TEARDOWN_RECEIPT_SCHEMA_VERSION: u32 = 1;

/// Whether a check could not be determined.
pub open spec fn any_unknown(checks: Seq<TeardownCheck>) -> bool {
    exists|i: int| 0 <= i < checks.len() && (#[trigger] checks[i]).result is Unknown
}

/// The outcome that evidence amounts to.
pub open spec fn aggregate(checks: Seq<TeardownCheck>) -> TeardownOutcome {
    if any_unknown(checks) {
        TeardownOutcome::Quarantined
    } else {
        TeardownOutcome::Verified
    }
}

/// The checks as JSON.
pub open spec fn check_values(checks: Seq<TeardownCheck>) -> Seq<json::JsonView> {
    checks.map_values(|check: TeardownCheck| check.value())
}

impl TeardownReceipt {
    /// The receipt as JSON.
    pub open spec fn value(self) -> json::JsonView {
        json::JsonView::Object(
            seq![
                ("schemaVersion"@, json::integer(self.schema_version as int)),
                ("attemptId"@, json::JsonView::Text(self.attempt_id@)),
                ("lease"@, reference_value(self.lease@)),
                ("instance"@, reference_value(self.instance@)),
                ("pool"@, reference_value(self.pool@)),
                ("backendType"@, json::JsonView::Text(self.backend_type@)),
                ("configDigest"@, json::JsonView::Text(self.config_digest@)),
                ("instanceSpecDigest"@, json::JsonView::Text(self.instance_spec_digest@)),
                ("creationManifestDigest"@, json::JsonView::Text(self.creation_manifest_digest@)),
                ("cleanupMode"@, json::JsonView::Text(self.cleanup_mode.wire_text())),
                ("startedAt"@, json::JsonView::Text(self.started_at@)),
            ] + json::optional_member("completedAt"@, text::opt_text(self.completed_at)) + seq![
                ("checks"@, json::JsonView::Array(check_values(self.checks@))),
                ("retryCount"@, json::integer(self.retry_count as int)),
                ("outcome"@, json::JsonView::Text(self.outcome.wire_text())),
            ],
        )
    }

    /// The receipt in JSON form.
    pub open spec fn json(self) -> Seq<char> {
        json::value_text(self.value())
    }

    fn checks_to_json(&self) -> (value: Json)
        ensures
            value@ == json::JsonView::Array(check_values(self.checks@)),
    {
        let mut items: Vec<Json> = Vec::new();
        let mut i: usize = 0;
        while i < self.checks.len()
            invariant
                i <= self.checks@.len(),
                items@.len() == i,
                forall|k: int| 0 <= k < i ==> (#[trigger] items@[k])@ == self.checks@[k].value(),
            decreases self.checks@.len() - i,
        {
            items.push(self.checks[i].to_json());
            i = i + 1;
        }
        assert(json::views(items@) =~= check_values(self.checks@));
        Json::array(items)
    }

    /// The receipt as compact JSON.
    pub fn to_json(&self) -> (result: String)
        ensures
            result@ == self.json(),
    {
        let value = Json::object3(
            "schemaVersion",
            Json::integer(self.schema_version as i64),
            "attemptId",
            Json::string(self.attempt_id.as_str()),
            "lease",
            reference_to_json(&self.lease),
        ).with_member("instance", reference_to_json(&self.instance)).with_member(
            "pool",
            reference_to_json(&self.pool),
        ).with_member("backendType", Json::string(self.backend_type.as_str())).with_member(
            "configDigest",
            Json::string(self.config_digest.as_str()),
        ).with_member(
            "instanceSpecDigest",
            Json::string(self.instance_spec_digest.as_str()),
        ).with_member(
            "creationManifestDigest",
            Json::string(self.creation_manifest_digest.as_str()),
        ).with_member("cleanupMode", Json::string(self.cleanup_mode.wire_name())).with_member(
            "startedAt",
            Json::string(self.started_at.as_str()),
        ).with_optional("completedAt", &self.completed_at).with_member(
            "checks",
            self.checks_to_json(),
        ).with_member("retryCount", Json::integer(self.retry_count as i64)).with_member(
            "outcome",
            Json::string(self.outcome.wire_name()),
        );
        assert(value@->Object_0 =~= self.value()->Object_0);
        value.to_text()
    }

    /// The outcome that the evidence amounts to: one unknown subject quarantines
    /// the whole attempt.
    pub fn outcome_for(checks: &[TeardownCheck]) -> (outcome: TeardownOutcome)
        ensures
            outcome == aggregate(checks@),
    {
        let mut i: usize = 0;
        while i < checks.len()
            invariant
                i <= checks@.len(),
                forall|k: int| 0 <= k < i ==> !((#[trigger] checks@[k]).result is Unknown),
            decreases checks@.len() - i,
        {
            if checks[i].result == CheckResult::Unknown {
                assert(checks@[i as int].result is Unknown);
                return TeardownOutcome::Quarantined;
            }
            i = i + 1;
        }
        TeardownOutcome::Verified
    }

    /// The instant at which the attempt started.
    pub open spec fn started(self) -> Option<(i64, u32)> {
        time::rfc3339_instant(self.started_at@)
    }

    /// The instant at which the attempt was completed.
    pub open spec fn completed(self) -> Option<(i64, u32)> {
        match self.completed_at {
            Some(completed_at) => time::rfc3339_instant(completed_at@),
            None => None,
        }
    }

    /// Whether both timestamps are RFC 3339 and completion came strictly after
    /// the start.
    pub fn completed_after_start(&self) -> (result: bool)
        ensures
            result == time::strictly_after(self.completed(), self.started()),
    {
        let started = parse_rfc3339(self.started_at.as_str());
        let completed = match &self.completed_at {
            Some(completed_at) => parse_rfc3339(completed_at.as_str()),
            None => None,
        };
        is_strictly_after(completed, started)
    }

    /// Whether this is a terminal receipt that a consumer may acknowledge, given
    /// whether it was completed after it started.
    pub open spec fn acknowledgeable(self, completed_after_start: bool) -> bool {
        &&& self.schema_version == TEARDOWN_RECEIPT_SCHEMA_VERSION
        &&& self.outcome is Verified
        &&& self.checks@.len() > 0
        &&& !any_unknown(self.checks@)
        &&& completed_after_start
        &&& !text::is_blank(self.attempt_id@)
        &&& !text::is_blank(self.creation_manifest_digest@)
        &&& self.cleanup_mode is VerifiedDestroy
        &&& fenced(self.lease)
        &&& fenced(self.instance)
        &&& fenced(self.pool)
    }

    /// The token that acknowledges this exact receipt.
    pub open spec fn token(self) -> Seq<char> {
        "sha256:"@ + digest::sha256_hex(encode_utf8(self.json()))
    }

    /// Whether a text has the form of a token: the name of the digest, then its
    /// sixty-four lower-case hexadecimal digits.
    pub open spec fn has_token_form(text: Seq<char>) -> bool {
        &&& text.len() == 71
        &&& text.take(7) == "sha256:"@
        &&& digest::all_hex_digits(text.skip(7))
    }

    /// The acknowledgement token, given whether the receipt was completed after
    /// it started.
    pub fn acknowledgement_token_if(&self, completed_after_start: bool) -> (token: Option<String>)
        ensures
            token is Some <==> self.acknowledgeable(completed_after_start),
            token matches Some(token) ==> token@ == self.token() && Self::has_token_form(token@),
    {
        if self.schema_version != TEARDOWN_RECEIPT_SCHEMA_VERSION || self.outcome
            != TeardownOutcome::Verified || self.checks.len() == 0 || Self::outcome_for(
            self.checks.as_slice(),
        ) != TeardownOutcome::Verified || !completed_after_start || blank(self.attempt_id.as_str())
            || blank(self.creation_manifest_digest.as_str()) || self.cleanup_mode
            != CleanupMode::VerifiedDestroy || !is_fenced(&self.lease) || !is_fenced(
            &self.instance,
        ) || !is_fenced(&self.pool) {
            return None;
        }
        let encoded = self.to_json();
        let digest = sha256_hex_of(encoded.as_str().as_bytes());
        let token = concat("sha256:", digest.as_str());
        proof {
            reveal_strlit("sha256:");
            assert("sha256:"@.len() == 7);
            assert(token@.take(7) =~= "sha256:"@);
            assert(token@.skip(7) =~= digest@);
        }
        Some(token)
    }

    /// Stable acknowledgement token for this exact terminal receipt.
    pub fn acknowledgement_token(&self) -> (token: Option<String>)
        ensures
            token is Some <==> self.acknowledgeable(
                time::strictly_after(self.completed(), self.started()),
            ),
            token matches Some(token) ==> token@ == self.token() && Self::has_token_form(token@),
    {
        self.acknowledgement_token_if(self.completed_after_start())
    }
}

/// The exact footprint that a receipt must account for, from state that the
/// controller owned before teardown began. A receipt never defines its own scope.
#[derive(Debug, Clone, Copy)]
pub struct TeardownScope<'a> {
    pub lease: &'a ResourceRef,
    pub instance: &'a ResourceRef,
    pub pool: &'a ResourceRef,
    pub backend_type: &'a str,
    pub config_digest: &'a str,
    pub instance_spec_digest: &'a str,
    pub creation_manifest_digest: &'a str,
    pub cleanup_mode: CleanupMode,
    /// Nonce that was stored before the first destructive request.
    pub attempt_id: &'a str,
    /// Creation record that ties each identity to its subject.
    pub creation_manifest: Option<&'a TeardownCreationManifest>,
    /// The lease's own footprint, which no creation manifest can hold.
    pub connect_token_identity: Option<&'a KubernetesResourceIdentity>,
    /// Every subject that the instance created.
    pub required_subjects: &'a [TeardownSubject],
    /// The instance's name, from which names are derived.
    pub instance_name: &'a str,
    /// Identities recorded while the instance was healthy.
    pub recorded_identities: &'a [String],
}

/// The name that a subject's resource must have, where naming is deterministic.
pub open spec fn expected_name(subject: TeardownSubject, instance: Seq<char>) -> Option<Seq<char>> {
    match subject {
        TeardownSubject::AgentDeployment => Some(instance + "-agent"@),
        TeardownSubject::ServerStatefulSet => Some(instance + "-server"@),
        TeardownSubject::Service => Some(instance + "-server"@),
        TeardownSubject::PodDisruptionBudget => Some(instance + "-server"@),
        TeardownSubject::PublisherConfigMap => Some(instance + "-kubeconfig-publisher"@),
        TeardownSubject::RegistriesConfigMap => Some(instance + "-registries"@),
        TeardownSubject::TokenSecret => Some(instance + "-token"@),
        TeardownSubject::KubeconfigSecret => Some(instance + "-kubeconfig"@),
        TeardownSubject::ConnectTokenSecret => Some(instance + "-connect-token"@),
        TeardownSubject::DatastoreCredentialSecret => Some(instance + "-datastore"@),
        TeardownSubject::CidrClaim => Some(instance),
        TeardownSubject::Database => Some("database:k3s_"@ + instance),
        TeardownSubject::DatabaseRole => Some("role:k3s_"@ + instance),
        TeardownSubject::ServerPods
        | TeardownSubject::ServerDataPvcs
        | TeardownSubject::ServerDataVolumes => None,
    }
}

/// The name that a subject's resource must have; nothing for subjects whose
/// names are assigned or selected.
pub fn expected_identity_for(subject: TeardownSubject, instance: &str) -> (name: Option<String>)
    ensures
        text::opt_text(name) == expected_name(subject, instance@),
{
    let name = match subject {
        TeardownSubject::AgentDeployment => concat(instance, "-agent"),
        TeardownSubject::ServerStatefulSet => concat(instance, "-server"),
        TeardownSubject::Service => concat(instance, "-server"),
        TeardownSubject::PodDisruptionBudget => concat(instance, "-server"),
        TeardownSubject::PublisherConfigMap => concat(instance, "-kubeconfig-publisher"),
        TeardownSubject::RegistriesConfigMap => concat(instance, "-registries"),
        TeardownSubject::TokenSecret => concat(instance, "-token"),
        TeardownSubject::KubeconfigSecret => concat(instance, "-kubeconfig"),
        TeardownSubject::ConnectTokenSecret => concat(instance, "-connect-token"),
        TeardownSubject::DatastoreCredentialSecret => concat(instance, "-datastore"),
        TeardownSubject::CidrClaim => instance.to_owned(),
        TeardownSubject::Database => concat("database:k3s_", instance),
        TeardownSubject::DatabaseRole => concat("role:k3s_", instance),
        TeardownSubject::ServerPods
        | TeardownSubject::ServerDataPvcs
        | TeardownSubject::ServerDataVolumes => return None,
    };
    Some(name)
}

impl<'a> TeardownScope<'a> {
    /// The identities that the check of a subject must name, where a creation
    /// manifest says so.
    pub open spec fn manifest_identities(
        self,
        manifest: TeardownCreationManifest,
        subject: TeardownSubject,
    ) -> Seq<Seq<char>> {
        if subject is ConnectTokenSecret {
            match self.connect_token_identity {
                Some(identity) => seq![identity@.canonical_id()],
                None => Seq::empty(),
            }
        } else {
            manifest.subject_identities(subject)
        }
    }

    /// Whether a check names what the scope says belongs to its subject.
    pub open spec fn names_subject(self, check: TeardownCheck) -> bool {
        let verified = text::texts(check.verified@);
        match self.creation_manifest {
            Some(manifest) => {
                let identities = self.manifest_identities(*manifest, check.subject);
                &&& verified.len() == identities.len()
                &&& forall|i: int|
                    0 <= i < identities.len() ==> verified.contains(#[trigger] identities[i])
            },
            None => if self.recorded_identities@.len() == 0 {
                match expected_name(check.subject, self.instance_name@) {
                    Some(name) => verified.contains(name),
                    None => true,
                }
            } else {
                true
            },
        }
    }

    fn check_names_subject(&self, check: &TeardownCheck) -> (result: bool)
        ensures
            result == self.names_subject(*check),
    {
        match self.creation_manifest {
            Some(manifest) => {
                let identities = if check.subject == TeardownSubject::ConnectTokenSecret {
                    match self.connect_token_identity {
                        Some(identity) => {
                            let id = identity.canonical_id();
                            let ids = vec![id];
                            assert(text::texts(ids@) =~= seq![identity@.canonical_id()]);
                            ids
                        },
                        None => {
                            let ids: Vec<String> = Vec::new();
                            assert(text::texts(ids@) =~= Seq::empty());
                            ids
                        },
                    }
                } else {
                    manifest.identities_for_subject(check.subject)
                };
                check.verified.len() == identities.len() && all_among(
                    &identities,
                    &check.verified,
                )
            },
            None => {
                if self.recorded_identities.len() == 0 {
                    match expected_identity_for(check.subject, self.instance_name) {
                        Some(name) => contains_text(check.verified.as_slice(), name.as_str()),
                        None => true,
                    }
                } else {
                    true
                }
            },
        }
    }
}

impl TeardownReceipt {
    /// Whether a verified check names this identity.
    pub open spec fn proves(self, identity: Seq<char>) -> bool {
        exists|i: int|
            0 <= i < self.checks@.len() && (#[trigger] self.checks@[i]).result is Verified
                && text::texts(self.checks@[i].verified@).contains(identity)
    }

    /// Whether check `i` is the only one of its subject, verified, and names
    /// what the scope says belongs to it.
    pub open spec fn sole_verified_check(self, expected: TeardownScope<'_>, i: int) -> bool {
        &&& 0 <= i < self.checks@.len()
        &&& self.checks@[i].result is Verified
        &&& forall|j: int|
            0 <= j < self.checks@.len() && j != i ==> (#[trigger] self.checks@[j]).subject
                != self.checks@[i].subject
        &&& expected.names_subject(self.checks@[i])
    }

    /// Whether exactly one check covers this subject, and it is verified.
    pub open spec fn covers(self, expected: TeardownScope<'_>, subject: TeardownSubject) -> bool {
        exists|i: int|
            #[trigger] self.sole_verified_check(expected, i) && self.checks@[i].subject == subject
    }

    /// Whether the receipt is about exactly the scope's lease, instance, pool,
    /// attempt and provenance.
    pub open spec fn identifies(self, expected: TeardownScope<'_>) -> bool {
        &&& self.attempt_id@ == expected.attempt_id@
        &&& self.lease@ == expected.lease@
        &&& self.instance@ == expected.instance@
        &&& self.pool@ == expected.pool@
        &&& self.backend_type@ == expected.backend_type@
        &&& self.config_digest@ == expected.config_digest@
        &&& self.instance_spec_digest@ == expected.instance_spec_digest@
        &&& self.creation_manifest_digest@ == expected.creation_manifest_digest@
        &&& self.cleanup_mode == expected.cleanup_mode
    }

    /// Whether the receipt releases the footprint of `expected`, given whether
    /// it was completed after it started.
    pub open spec fn releases(
        self,
        expected: TeardownScope<'_>,
        completed_after_start: bool,
    ) -> bool {
        &&& self.schema_version == TEARDOWN_RECEIPT_SCHEMA_VERSION
        &&& !text::is_blank(self.attempt_id@)
        &&& completed_after_start
        &&& self.outcome is Verified
        &&& !any_unknown(self.checks@)
        &&& fenced(self.lease)
        &&& fenced(self.instance)
        &&& fenced(self.pool)
        &&& self.identifies(expected)
        &&& expected.required_subjects@.len() > 0
        &&& self.checks@.len() == expected.required_subjects@.len()
        &&& forall|i: int|
            0 <= i < expected.recorded_identities@.len() ==> self.proves(
                (#[trigger] expected.recorded_identities@[i])@,
            )
        &&& forall|i: int|
            0 <= i < expected.required_subjects@.len() ==> self.covers(
                expected,
                #[trigger] expected.required_subjects@[i],
            )
        &&& forall|i: int|
            0 <= i < self.checks@.len() ==> expected.required_subjects@.contains(
                (#[trigger] self.checks@[i]).subject,
            )
    }

    fn proves_identity(&self, identity: &str) -> (result: bool)
        ensures
            result == self.proves(identity@),
    {
        let mut i: usize = 0;
        while i < self.checks.len()
            invariant
                i <= self.checks@.len(),
                forall|k: int|
                    0 <= k < i ==> !((#[trigger] self.checks@[k]).result is Verified
                        && text::texts(self.checks@[k].verified@).contains(identity@)),
            decreases self.checks@.len() - i,
        {
            if self.checks[i].result == CheckResult::Verified && contains_text(
                self.checks[i].verified.as_slice(),
                identity,
            ) {
                assert(self.checks@[i as int].result is Verified);
                return true;
            }
            i = i + 1;
        }
        false
    }

    fn covers_subject(&self, expected: &TeardownScope<'_>, subject: TeardownSubject) -> (result:
        bool)
        ensures
            result == self.covers(*expected, subject),
    {
        let mut found: Option<usize> = None;
        let mut i: usize = 0;
        while i < self.checks.len()
            invariant
                i <= self.checks@.len(),
                match found {
                    Some(at) => {
                        &&& at < i
                        &&& self.checks@[at as int].subject == subject
                        &&& forall|k: int|
                            0 <= k < i && k != at ==> (#[trigger] self.checks@[k]).subject
                                != subject
                    },
                    None => forall|k: int|
                        0 <= k < i ==> (#[trigger] self.checks@[k]).subject != subject,
                },
            decreases self.checks@.len() - i,
        {
            if self.checks[i].subject == subject {
                match found {
                    Some(at) => {
                        assert(self.checks@[at as int].subject == self.checks@[i as int].subject);
                        assert forall|j: int|
                            self.sole_verified_check(*expected, j) && self.checks@[j].subject
                                == subject implies false by {
                            if j == at {
                                assert(self.checks@[i as int].subject
                                    != self.checks@[j].subject);
                            } else {
                                assert(self.checks@[at as int].subject
                                    != self.checks@[j].subject);
                            }
                        }
                        return false;
                    },
                    None => {
                        found = Some(i);
                    },
                }
            }
            i = i + 1;
        }
        match found {
            Some(at) => {
                let check = &self.checks[at];
                let result = check.result == CheckResult::Verified && expected.check_names_subject(
                    check,
                );
                proof {
                    if result {
                        assert(self.sole_verified_check(*expected, at as int));
                    } else {
                        assert forall|j: int|
                            self.sole_verified_check(*expected, j) && self.checks@[j].subject
                                == subject implies false by {
                            if j != at {
                                assert(self.checks@[j].subject != subject);
                            }
                        }
                    }
                }
                result
            },
            None => false,
        }
    }

    fn identifies_scope(&self, expected: &TeardownScope<'_>) -> (result: bool)
        ensures
            result == self.identifies(*expected),
    {
        same_text(self.attempt_id.as_str(), expected.attempt_id) && self.lease.same(expected.lease)
            && self.instance.same(expected.instance) && self.pool.same(expected.pool) && same_text(
            self.backend_type.as_str(),
            expected.backend_type,
        ) && same_text(self.config_digest.as_str(), expected.config_digest) && same_text(
            self.instance_spec_digest.as_str(),
            expected.instance_spec_digest,
        ) && same_text(
            self.creation_manifest_digest.as_str(),
            expected.creation_manifest_digest,
        ) && self.cleanup_mode == expected.cleanup_mode
    }

    /// Whether the receipt releases the footprint of `expected`, given whether
    /// it was completed after it started.
    pub fn permits_release_if(
        &self,
        expected: &TeardownScope<'_>,
        completed_after_start: bool,
    ) -> (result: bool)
        ensures
            result == self.releases(*expected, completed_after_start),
    {
        if self.schema_version != TEARDOWN_RECEIPT_SCHEMA_VERSION || blank(self.attempt_id.as_str())
            || !completed_after_start || self.outcome != TeardownOutcome::Verified
            || Self::outcome_for(self.checks.as_slice()) != TeardownOutcome::Verified {
            return false;
        }
        // Two absent or empty UIDs compare equal, so they fence nothing.
        if !is_fenced(&self.lease) || !is_fenced(&self.instance) || !is_fenced(&self.pool) {
            return false;
        }
        if !self.identifies_scope(expected) {
            return false;
        }
        // Nothing to prove means nothing was proven.
        if expected.required_subjects.len() == 0 || self.checks.len()
            != expected.required_subjects.len() {
            return false;
        }
        let mut i: usize = 0;
        while i < expected.recorded_identities.len()
            invariant
                i <= expected.recorded_identities@.len(),
                forall|k: int|
                    0 <= k < i ==> self.proves((#[trigger] expected.recorded_identities@[k])@),
            decreases expected.recorded_identities@.len() - i,
        {
            if !self.proves_identity(expected.recorded_identities[i].as_str()) {
                assert(!self.proves(expected.recorded_identities@[i as int]@));
                return false;
            }
            i = i + 1;
        }
        let mut j: usize = 0;
        while j < expected.required_subjects.len()
            invariant
                j <= expected.required_subjects@.len(),
                forall|k: int|
                    0 <= k < j ==> self.covers(*expected, #[trigger] expected.required_subjects@[k]),
            decreases expected.required_subjects@.len() - j,
        {
            if !self.covers_subject(expected, expected.required_subjects[j]) {
                assert(!self.covers(*expected, expected.required_subjects@[j as int]));
                return false;
            }
            j = j + 1;
        }
        let mut k: usize = 0;
        while k < self.checks.len()
            invariant
                k <= self.checks@.len(),
                forall|c: int|
                    0 <= c < k ==> expected.required_subjects@.contains(
                        (#[trigger] self.checks@[c]).subject,
                    ),
            decreases self.checks@.len() - k,
        {
            if !lists_subject(expected.required_subjects, self.checks[k].subject) {
                assert(!expected.required_subjects@.contains(self.checks@[k as int].subject));
                return false;
            }
            k = k + 1;
        }
        true
    }

    /// Whether this receipt releases the exact footprint described by
    /// `expected`: exactly one verified check for each required subject, with no
    /// subject missing, repeated or added, about exactly this lease, instance,
    /// pool and attempt.
    pub fn permits_release_for(&self, expected: &TeardownScope<'_>) -> (result: bool)
        ensures
            result == self.releases(
                *expected,
                time::strictly_after(self.completed(), self.started()),
            ),
    {
        self.permits_release_if(expected, self.completed_after_start())
    }
}

fn lists_subject(subjects: &[TeardownSubject], subject: TeardownSubject) -> (found: bool)
    ensures
        found == subjects@.contains(subject),
{
    let mut i: usize = 0;
    while i < subjects.len()
        invariant
            i <= subjects@.len(),
            forall|k: int| 0 <= k < i ==> subjects@[k] != subject,
        decreases subjects@.len() - i,
    {
        if subjects[i] == subject {
            return true;
        }
        i = i + 1;
    }
    false
}

/// The text of a storage type, which is `emptyDir` where none is named.
pub open spec fn storage_type_text(persistence: PersistenceConfig) -> Seq<char> {
    match persistence.storage_type {
        Some(storage_type) => storage_type@,
        None => "emptyDir"@,
    }
}

/// Storage that allocates no durable volume.
pub open spec fn ephemeral_storage(persistence: PersistenceConfig) -> bool {
    text::same_ignoring_ascii_case(storage_type_text(persistence), "emptydir"@)
}

/// Storage whose volumes are provisioned and can be observed.
pub open spec fn dynamic_storage(persistence: PersistenceConfig) -> bool {
    text::same_ignoring_ascii_case(storage_type_text(persistence), "dynamic"@)
}

fn storage_type_of<'a>(persistence: &'a PersistenceConfig) -> (storage_type: &'a str)
    ensures
        storage_type@ == storage_type_text(*persistence),
{
    match &persistence.storage_type {
        Some(storage_type) => storage_type.as_str(),
        None => "emptyDir",
    }
}

/// Whether a persistence config allocates no durable volume.
pub fn storage_is_ephemeral(persistence: &PersistenceConfig) -> (result: bool)
    ensures
        result == ephemeral_storage(*persistence),
{
    eq_ignore_ascii_case(storage_type_of(persistence), "emptydir")
}

/// Whether a cluster has agents of its own.
pub open spec fn has_agents(cluster: ClusterConfig) -> bool {
    cluster.agents matches Some(agents) && agents > 0
}

/// Whether a cluster has registry mirrors.
pub open spec fn has_mirrors(cluster: ClusterConfig) -> bool {
    cluster.registry_mirrors matches Some(mirrors) && mirrors@.len() > 0
}

/// Whether a cluster keeps data on durable volumes.
pub open spec fn has_volumes(cluster: ClusterConfig) -> bool {
    cluster.persistence matches Some(persistence) && !ephemeral_storage(persistence)
}

/// The subjects in `tail` where they are built.
pub open spec fn built(condition: bool, tail: Seq<TeardownSubject>) -> Seq<TeardownSubject> {
    if condition {
        tail
    } else {
        Seq::empty()
    }
}

/// The footprints that a k3s instance of this config creates.
pub open spec fn k3s_plan(cluster: ClusterConfig, has_external_datastore: bool) -> Seq<
    TeardownSubject,
> {
    seq![
        TeardownSubject::ServerStatefulSet,
        TeardownSubject::ServerPods,
        TeardownSubject::Service,
        TeardownSubject::PublisherConfigMap,
        TeardownSubject::TokenSecret,
        TeardownSubject::KubeconfigSecret,
        TeardownSubject::CidrClaim,
        TeardownSubject::ConnectTokenSecret,
    ] + built(has_agents(cluster), seq![TeardownSubject::AgentDeployment]) + built(
        cluster.servers > 1,
        seq![TeardownSubject::PodDisruptionBudget],
    ) + built(has_mirrors(cluster), seq![TeardownSubject::RegistriesConfigMap]) + built(
        has_volumes(cluster),
        seq![TeardownSubject::ServerDataPvcs, TeardownSubject::ServerDataVolumes],
    ) + built(
        has_external_datastore,
        seq![
            TeardownSubject::DatastoreCredentialSecret,
            TeardownSubject::Database,
            TeardownSubject::DatabaseRole,
        ],
    )
}

/// The exact set of footprints that a k3s instance creates from the config it
/// is created with. It is recorded then and never derived again.
pub fn k3s_teardown_plan(cluster: &ClusterConfig, has_external_datastore: bool) -> (plan: Vec<
    TeardownSubject,
>)
    ensures
        plan@ == k3s_plan(*cluster, has_external_datastore),
{
    let mut plan = vec![
        TeardownSubject::ServerStatefulSet,
        TeardownSubject::ServerPods,
        TeardownSubject::Service,
        TeardownSubject::PublisherConfigMap,
        TeardownSubject::TokenSecret,
        TeardownSubject::KubeconfigSecret,
        TeardownSubject::CidrClaim,
        TeardownSubject::ConnectTokenSecret,
    ];
    let agents = match cluster.agents {
        Some(agents) => agents > 0,
        None => false,
    };
    if agents {
        plan.push(TeardownSubject::AgentDeployment);
    }
    if cluster.servers > 1 {
        plan.push(TeardownSubject::PodDisruptionBudget);
    }
    let mirrors = match &cluster.registry_mirrors {
        Some(mirrors) => mirrors.len() > 0,
        None => false,
    };
    if mirrors {
        plan.push(TeardownSubject::RegistriesConfigMap);
    }
    let volumes = match &cluster.persistence {
        Some(persistence) => !storage_is_ephemeral(persistence),
        None => false,
    };
    if volumes {
        plan.push(TeardownSubject::ServerDataPvcs);
        plan.push(TeardownSubject::ServerDataVolumes);
    }
    if has_external_datastore {
        plan.push(TeardownSubject::DatastoreCredentialSecret);
        plan.push(TeardownSubject::Database);
        plan.push(TeardownSubject::DatabaseRole);
    }
    assert(plan@ =~= k3s_plan(*cluster, has_external_datastore));
    plan
}

/// Why a pool's footprint cannot support verified destruction.
#[derive(Debug, Clone, Copy, PartialEq, Eq, Structural)]
pub enum VerifiedDestroyIneligible {
    UnsupportedBackend,
    KubeletSharedMount,
    DiagnosticsEnabled,
    UnverifiableStorage,
    DatastoreProvenanceMissing,
}

impl VerifiedDestroyIneligible {
    /// The text that `reason_code` returns.
    pub open spec fn code_text(self) -> Seq<char> {
        match self {
            VerifiedDestroyIneligible::UnsupportedBackend => "unsupported_backend"@,
            VerifiedDestroyIneligible::KubeletSharedMount => "kubelet_shared_mount"@,
            VerifiedDestroyIneligible::DiagnosticsEnabled => "diagnostics_enabled"@,
            VerifiedDestroyIneligible::UnverifiableStorage => "unverifiable_storage"@,
            VerifiedDestroyIneligible::DatastoreProvenanceMissing =>
                "datastore_provenance_missing"@,
        }
    }

    /// The text that `message` returns.
    pub open spec fn message_text(self) -> Seq<char> {
        match self {
            VerifiedDestroyIneligible::UnsupportedBackend =>
                "backend does not implement verified teardown"@,
            VerifiedDestroyIneligible::KubeletSharedMount =>
                "kubeletSharedMount leaves host state this receipt cannot account for"@,
            VerifiedDestroyIneligible::DiagnosticsEnabled =>
                "diagnostics capture writes objects whose deletion is not receipt-verifiable"@,
            VerifiedDestroyIneligible::UnverifiableStorage =>
                "storage is neither ephemeral nor dynamically provisioned with an observable volume"@,
            VerifiedDestroyIneligible::DatastoreProvenanceMissing =>
                "external datastore identity was not recorded, so its absence cannot be proven"@,
        }
    }

    /// Bounded reason code for status, events and metrics.
    pub fn reason_code(&self) -> (code: &'static str)
        ensures
            code@ == self.code_text(),
    {
        match self {
            VerifiedDestroyIneligible::UnsupportedBackend => "unsupported_backend",
            VerifiedDestroyIneligible::KubeletSharedMount => "kubelet_shared_mount",
            VerifiedDestroyIneligible::DiagnosticsEnabled => "diagnostics_enabled",
            VerifiedDestroyIneligible::UnverifiableStorage => "unverifiable_storage",
            VerifiedDestroyIneligible::DatastoreProvenanceMissing => {
                "datastore_provenance_missing"
            },
        }
    }

    /// The refusal in words.
    pub fn message(&self) -> (message: &'static str)
        ensures
            message@ == self.message_text(),
    {
        match self {
            VerifiedDestroyIneligible::UnsupportedBackend => {
                "backend does not implement verified teardown"
            },
            VerifiedDestroyIneligible::KubeletSharedMount => {
                "kubeletSharedMount leaves host state this receipt cannot account for"
            },
            VerifiedDestroyIneligible::DiagnosticsEnabled => {
                "diagnostics capture writes objects whose deletion is not receipt-verifiable"
            },
            VerifiedDestroyIneligible::UnverifiableStorage => {
                "storage is neither ephemeral nor dynamically provisioned with an observable volume"
            },
            VerifiedDestroyIneligible::DatastoreProvenanceMissing => {
                "external datastore identity was not recorded, so its absence cannot be proven"
            },
        }
    }
}

/// Whether a configuration can produce a verifiable receipt.
pub open spec fn eligibility(
    backend: BackendType,
    cluster: ClusterConfig,
    diagnostics: Option<&DiagnosticsConfig>,
    external_datastore_identity_recorded: bool,
) -> Result<(), VerifiedDestroyIneligible> {
    if !(backend is K3s) {
        Err(VerifiedDestroyIneligible::UnsupportedBackend)
    } else if cluster.kubelet_shared_mount is Some {
        Err(VerifiedDestroyIneligible::KubeletSharedMount)
    } else if diagnostics matches Some(diagnostics) && diagnostics.enabled {
        Err(VerifiedDestroyIneligible::DiagnosticsEnabled)
    } else if cluster.persistence matches Some(persistence) && !ephemeral_storage(persistence)
        && !dynamic_storage(persistence) {
        Err(VerifiedDestroyIneligible::UnverifiableStorage)
    } else if !external_datastore_identity_recorded {
        Err(VerifiedDestroyIneligible::DatastoreProvenanceMissing)
    } else {
        Ok(())
    }
}

/// Whether a k3s cluster configuration can produce a verifiable receipt. Every
/// refusal follows from recorded configuration, so that it can be given before
/// a lease is bound.
pub fn verified_destroy_eligibility(
    backend: &BackendType,
    cluster: &ClusterConfig,
    diagnostics: Option<&DiagnosticsConfig>,
    external_datastore_identity_recorded: bool,
) -> (result: Result<(), VerifiedDestroyIneligible>)
    ensures
        result == eligibility(
            *backend,
            *cluster,
            diagnostics,
            external_datastore_identity_recorded,
        ),
{
    if *backend != BackendType::K3s {
        return Err(VerifiedDestroyIneligible::UnsupportedBackend);
    }
    if cluster.kubelet_shared_mount.is_some() {
        return Err(VerifiedDestroyIneligible::KubeletSharedMount);
    }
    match diagnostics {
        Some(diagnostics) => {
            if diagnostics.enabled {
                return Err(VerifiedDestroyIneligible::DiagnosticsEnabled);
            }
        },
        None => {},
    }
    match &cluster.persistence {
        Some(persistence) => {
            let storage_type = storage_type_of(persistence);
            if !eq_ignore_ascii_case(storage_type, "emptydir") && !eq_ignore_ascii_case(
                storage_type,
                "dynamic",
            ) {
                return Err(VerifiedDestroyIneligible::UnverifiableStorage);
            }
        },
        None => {},
    }
    if !external_datastore_identity_recorded {
        return Err(VerifiedDestroyIneligible::DatastoreProvenanceMissing);
    }
    Ok(())
}

} // verus!
