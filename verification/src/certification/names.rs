//! Names, labels and hashes.

use crate::digest::{self, sha256_hex_of};
use crate::k8s::{self, ObjectMeta, OwnerReference};
use crate::number::{self, hex_digits_text};
use crate::text::concat;
use crate::crd::sandbox::{SandboxPoolSpec, SandboxPoolStatus};
use vstd::prelude::*;
use vstd::string::*;
use vstd::utf8::*;

verus! {

/// API version of templates, warm pools and claims.
pub const AGENT_SANDBOX_API_VERSION: &'static str = "extensions.agents.x-k8s.io/v1beta1";

/// Kind of a template.
pub const SANDBOX_TEMPLATE_KIND: &'static str = "SandboxTemplate";

/// Kind of a warm pool.
pub const SANDBOX_WARM_POOL_KIND: &'static str = "SandboxWarmPool";

/// Kind of a claim.
pub const SANDBOX_CLAIM_KIND: &'static str = "SandboxClaim";

/// API version of sandboxes.
pub const SANDBOX_API_VERSION: &'static str = "agents.x-k8s.io/v1beta1";

/// Kind of a sandbox.
pub const SANDBOX_KIND: &'static str = "Sandbox";

/// API version of pools.
pub const POOL_API_VERSION: &'static str = "kobe.kunobi.ninja/v1alpha1";

/// Kind of a pool.
pub const POOL_KIND: &'static str = "SandboxPool";

/// Label that ties a sandbox to its warm pool.
pub const WARM_POOL_LABEL: &'static str = "agents.x-k8s.io/warm-pool-sandbox";

/// Label that ties a sandbox and its Pod to their template.
pub const TEMPLATE_REF_HASH_LABEL: &'static str = "agents.x-k8s.io/sandbox-template-ref-hash";

/// Label that ties Pods and Services to their sandbox.
pub const SANDBOX_HASH_LABEL: &'static str = "agents.x-k8s.io/sandbox-name-hash";

/// Label of a certification claim with the pool's UID.
pub const CERTIFICATION_POOL_UID_LABEL: &'static str = "kobe.kunobi.ninja/sandbox-pool-uid";

/// Label of a certification claim with the pool's generation.
pub const CERTIFICATION_POOL_GENERATION_LABEL: &'static str =
    "kobe.kunobi.ninja/sandbox-pool-generation";

/// Label of the managing operator.
pub const MANAGED_BY_LABEL: &'static str = "app.kubernetes.io/managed-by";

/// Label of a teardown fence.
pub const TEARDOWN_FENCE_LABEL: &'static str = "kobe.kunobi.ninja/sandbox-teardown-fence";

/// Finalizer of a teardown fence.
pub const TEARDOWN_FENCE_FINALIZER: &'static str = "kobe.kunobi.ninja/sandbox-teardown-fence";

/// What the admission policy says where a fence holds.
pub const TEARDOWN_FENCE_DENIAL_MESSAGE: &'static str =
    "Sandbox teardown has fenced descendant creation for this controller owner UID";

/// The release whose warm pools acknowledge the generation that they observed.
pub const REQUIRED_POOL_ACK_RELEASE: &'static str = "v0.5.6";

/// A sandbox pool as the cluster holds it.
#[derive(Debug, Clone, PartialEq, Eq)]
pub struct SandboxPool {
    pub metadata: ObjectMeta,
    pub spec: SandboxPoolSpec,
    pub status: Option<SandboxPoolStatus>,
}

/// The reference by which a pool owns an object.
pub open spec fn pool_owner(pool: k8s::MetaView) -> Option<k8s::OwnerView> {
    match (pool.name, pool.uid) {
        (Some(name), Some(uid)) => Some(
            k8s::OwnerView {
                api_version: POOL_API_VERSION@,
                kind: POOL_KIND@,
                name,
                uid,
                controller: Some(true),
                block_owner_deletion: None,
            },
        ),
        _ => None,
    }
}

/// What an optional owner says.
pub open spec fn opt_owner(owner: Option<OwnerReference>) -> Option<k8s::OwnerView> {
    match owner {
        Some(owner) => Some(owner@),
        None => None,
    }
}

impl SandboxPool {
    /// The reference by which the pool owns an object; nothing where it has no
    /// name or no UID yet.
    pub fn controller_owner_ref(&self) -> (owner: Option<OwnerReference>)
        ensures
            opt_owner(owner) == pool_owner(self.metadata@),
    {
        match (&self.metadata.name, &self.metadata.uid) {
            (Some(name), Some(uid)) => Some(
                OwnerReference {
                    api_version: POOL_API_VERSION.to_owned(),
                    kind: POOL_KIND.to_owned(),
                    name: name.clone(),
                    uid: uid.clone(),
                    controller: Some(true),
                    block_owner_deletion: None,
                },
            ),
            _ => None,
        }
    }
}

/// The 32-bit FNV-1a hash of some bytes.
pub open spec fn fnv1a(bytes: Seq<u8>) -> u32
    decreases bytes.len(),
{
    if bytes.len() == 0 {
        2_166_136_261
    } else {
        (fnv1a(bytes.drop_last()) ^ (bytes.last() as u32)).wrapping_mul(16_777_619)
    }
}

/// The hash by which upstream labels refer to a name.
pub open spec fn name_hash(value: Seq<char>) -> Seq<char> {
    number::hex_digits(fnv1a(encode_utf8(value)) as nat, 8)
}

/// The hash by which upstream labels refer to a name: FNV-1a as eight
/// lower-case hexadecimal digits.
pub fn upstream_name_hash(value: &str) -> (hash: String)
    ensures
        hash@ == name_hash(value@),
        hash@.len() == 8,
{
    let bytes = value.as_bytes();
    let mut hash: u32 = 2_166_136_261;
    let mut i: usize = 0;
    assert(bytes@.take(0) =~= Seq::<u8>::empty());
    while i < bytes.len()
        invariant
            i <= bytes@.len(),
            hash == fnv1a(bytes@.take(i as int)),
        decreases bytes@.len() - i,
    {
        assert(bytes@.take(i + 1).drop_last() =~= bytes@.take(i as int));
        hash = (hash ^ (bytes[i] as u32)).wrapping_mul(16_777_619);
        i = i + 1;
    }
    assert(bytes@.take(bytes@.len() as int) =~= bytes@);
    proof {
        number::lemma_hex_digits_len(hash as nat, 8);
    }
    hex_digits_text(hash, 8)
}

/// The name of a pool's upstream objects.
pub open spec fn object_name(pool: k8s::MetaView) -> Seq<char> {
    "kobe-"@ + pool.any_name()
}

/// The name of a pool's upstream objects.
pub fn management_object_name(pool: &SandboxPool) -> (name: String)
    ensures
        name@ == object_name(pool.metadata@),
{
    concat("kobe-", pool.metadata.name_any().as_str())
}

/// The name of the sacrificial claim of the pool with this UID.
pub open spec fn claim_name(pool_uid: Seq<char>) -> Seq<char> {
    "kobe-cert-"@ + digest::sha256_hex(encode_utf8(pool_uid)).take(48)
}

/// The name of the sacrificial claim of the pool with this UID. It is short
/// enough for a label value.
pub fn certification_claim_name(pool_uid: &str) -> (name: String)
    ensures
        name@ == claim_name(pool_uid@),
        name@.len() == 58,
        digest::all_hex_digits(name@.skip(10)),
{
    let encoded = sha256_hex_of(pool_uid.as_bytes());
    let short = encoded.as_str().substring_ascii(0, 48);
    proof {
        reveal_strlit("kobe-cert-");
    }
    let name = concat("kobe-cert-", short);
    assert(name@.skip(10) =~= encoded@.take(48));
    name
}

/// The first position at or after `from` before which the text takes forty
/// bytes.
pub open spec fn forty_bytes(text: Seq<char>, from: int) -> Option<int>
    decreases text.len() - from + 1,
{
    if from < 0 || from > text.len() {
        None
    } else if encode_utf8(text.take(from)).len() == 40 {
        Some(from)
    } else {
        forty_bytes(text, from + 1)
    }
}

/// Whether a fingerprint can be cut after forty bytes.
pub open spec fn names_a_fence(fingerprint: Seq<char>) -> bool {
    forty_bytes(fingerprint, 0) is Some
}

/// The name of the teardown fence of the attempt with this fingerprint.
pub open spec fn fence_name_text(fingerprint: Seq<char>) -> Seq<char> {
    "kobe-cert-fence-"@ + fingerprint.take(forty_bytes(fingerprint, 0)->0)
}

fn cut_forty_bytes(text: &str) -> (cut: Option<usize>)
    ensures
        match cut {
            Some(cut) => forty_bytes(text@, 0) == Some(cut as int) && cut <= text@.len(),
            None => forty_bytes(text@, 0) is None,
        },
{
    let length: usize = text.unicode_len();
    let mut i: usize = 0;
    while i < length
        invariant
            length == text@.len(),
            i <= length,
            forty_bytes(text@, 0) == forty_bytes(text@, i as int),
        decreases length - i,
    {
        let head = text.substring_char(0, i);
        assert(head@ =~= text@.take(i as int));
        if head.as_bytes().len() == 40 {
            return Some(i);
        }
        i = i + 1;
    }
    assert(text@.take(length as int) =~= text@);
    if text.as_bytes().len() == 40 {
        return Some(length);
    }
    assert(forty_bytes(text@, length + 1) is None);
    None
}

/// Whether a fingerprint can be cut after forty bytes.
pub fn has_fence_name(fingerprint: &str) -> (result: bool)
    ensures
        result == names_a_fence(fingerprint@),
{
    cut_forty_bytes(fingerprint).is_some()
}

/// The name of the teardown fence of the attempt with this fingerprint.
pub fn fence_name(fingerprint: &str) -> (name: String)
    requires
        names_a_fence(fingerprint@),
    ensures
        name@ == fence_name_text(fingerprint@),
{
    match cut_forty_bytes(fingerprint) {
        Some(cut) => {
            let head = fingerprint.substring_char(0, cut);
            assert(head@ =~= fingerprint@.take(cut as int));
            concat("kobe-cert-fence-", head)
        },
        None => String::new(),
    }
}

proof fn lemma_forty_bytes(text: Seq<char>, from: int)
    requires
        is_ascii_chars(text),
        0 <= from <= 40 <= text.len(),
    ensures
        forty_bytes(text, from) == Some(40int),
    decreases 40 - from,
{
    is_ascii_chars_encode_utf8(text.take(from));
    if from < 40 {
        lemma_forty_bytes(text, from + 1);
    }
}

/// Every digest names a fence, by its first forty digits.
pub proof fn law_digest_names_a_fence(fingerprint: Seq<char>)
    requires
        is_ascii_chars(fingerprint),
        fingerprint.len() == 64,
    ensures
        names_a_fence(fingerprint),
        fence_name_text(fingerprint) == "kobe-cert-fence-"@ + fingerprint.take(40),
{
    lemma_forty_bytes(fingerprint, 0);
}

} // verus!
