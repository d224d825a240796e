//! Immutable teardown evidence, owned by the authority that may write it.

use crate::crd::instance::ResourceRef;
use crate::crd::teardown::{KubernetesResourceIdentity, TeardownReceipt};
use crate::digest::{self, sha256_hex_of};
use crate::keyed;
use crate::text::{self, concat, concat3};
use vstd::prelude::*;
use vstd::string::*;
use vstd::utf8::*;

verus! {

/// Label with the digest of the lease UID.
pub const TEARDOWN_EVIDENCE_LEASE_DIGEST_LABEL: &'static str =
    "kobe.kunobi.ninja/teardown-lease-digest";

/// Label with the digest of the attempt.
pub const TEARDOWN_EVIDENCE_ATTEMPT_DIGEST_LABEL: &'static str =
    "kobe.kunobi.ninja/teardown-attempt-digest";

/// Label that names the producer.
pub const TEARDOWN_EVIDENCE_PRODUCER_LABEL: &'static str =
    "kobe.kunobi.ninja/teardown-evidence-producer";

/// Two texts with a NUL between them.
pub open spec fn nul_joined(first: Seq<char>, second: Seq<char>) -> Seq<char> {
    first + "\0"@ + second
}

/// The first forty digits of the digest of two texts with a NUL between them.
pub open spec fn short_digest(first: Seq<char>, second: Seq<char>) -> Seq<char> {
    digest::sha256_hex(encode_utf8(nul_joined(first, second))).take(40)
}

fn short_digest_of(first: &str, second: &str) -> (result: String)
    ensures
        result@ == short_digest(first@, second@),
        result@.len() == 40,
        digest::all_hex_digits(result@),
{
    let joined = concat3(first, "\0", second);
    let encoded = sha256_hex_of(joined.as_str().as_bytes());
    encoded.as_str().substring_ascii(0, 40).to_owned()
}

/// Identity labels of one evidence object, in the order of their keys.
pub open spec fn evidence_labels(lease_uid: Seq<char>, attempt_id: Seq<char>) -> Seq<
    (Seq<char>, Seq<char>),
> {
    seq![
        ("kobe.kunobi.ninja/teardown-attempt-digest"@, short_digest("attempt"@, attempt_id)),
        ("kobe.kunobi.ninja/teardown-evidence-producer"@, "teardown-authority"@),
        ("kobe.kunobi.ninja/teardown-lease-digest"@, short_digest("lease"@, lease_uid)),
    ]
}

proof fn lemma_labels_are_keyed(lease_uid: Seq<char>, attempt_id: Seq<char>)
    ensures
        keyed::in_key_order(evidence_labels(lease_uid, attempt_id)),
{
    let labels = evidence_labels(lease_uid, attempt_id);
    reveal_strlit("kobe.kunobi.ninja/teardown-attempt-digest");
    reveal_strlit("kobe.kunobi.ninja/teardown-evidence-producer");
    reveal_strlit("kobe.kunobi.ninja/teardown-lease-digest");
    text::lemma_text_less_at(labels[0].0, labels[1].0, 27);
    text::lemma_text_less_at(labels[0].0, labels[2].0, 27);
    text::lemma_text_less_at(labels[1].0, labels[2].0, 27);
}

/// Identity labels of one evidence object, in the order of their keys. They tie
/// the object to the exact lease UID and attempt without holding either: of both
/// there are forty digits of a digest. Each is short enough for a label value.
pub fn verified_teardown_evidence_labels(lease_uid: &str, attempt_id: &str) -> (labels: Vec<
    (String, String),
>)
    ensures
        text::pair_texts(labels@) == evidence_labels(lease_uid@, attempt_id@),
        keyed::in_key_order(text::pair_texts(labels@)),
        labels@.len() == 3,
        labels@[0].1@.len() == 40 && digest::all_hex_digits(labels@[0].1@),
        labels@[2].1@.len() == 40 && digest::all_hex_digits(labels@[2].1@),
        forall|i: int| 0 <= i < labels@.len() ==> (#[trigger] labels@[i]).1@.len() <= 63,
{
    proof {
        reveal_strlit("teardown-authority");
        lemma_labels_are_keyed(lease_uid@, attempt_id@);
    }
    let labels = vec![
        (
            "kobe.kunobi.ninja/teardown-attempt-digest".to_owned(),
            short_digest_of("attempt", attempt_id),
        ),
        (
            "kobe.kunobi.ninja/teardown-evidence-producer".to_owned(),
            "teardown-authority".to_owned(),
        ),
        (
            "kobe.kunobi.ninja/teardown-lease-digest".to_owned(),
            short_digest_of("lease", lease_uid),
        ),
    ];
    assert(text::pair_texts(labels@) =~= evidence_labels(lease_uid@, attempt_id@));
    labels
}

/// Immutable record of one verified teardown.
#[derive(Debug, Clone, PartialEq, Eq)]
pub struct VerifiedTeardownEvidenceSpec {
    /// The lease that the record certifies.
    pub lease: ResourceRef,
    /// The attempt that it certifies.
    pub attempt_id: String,
    /// The terminal receipt.
    pub receipt: TeardownReceipt,
}

/// Reference to an exact evidence object.
#[derive(Debug, Clone, PartialEq, Eq)]
pub struct TeardownEvidenceReference {
    pub name: String,
    pub uid: String,
    pub generation: i64,
    pub resource_version: String,
}

/// Acknowledgement that a consumer stored a teardown proof.
#[derive(Debug, Clone, PartialEq, Eq)]
pub struct TeardownAcknowledgement {
    pub attempt_id: String,
    pub consumer: KubernetesResourceIdentity,
    pub proof: TeardownAcknowledgedProof,
    pub acknowledged_at: String,
}

/// The proof that was acknowledged.
#[derive(Debug, Clone, PartialEq, Eq)]
pub struct TeardownAcknowledgedProof {
    pub kind: TeardownAcknowledgedProofKind,
    pub receipt_token: Option<String>,
    pub evidence: Option<TeardownEvidenceReference>,
    pub unbound_release_verified_at: Option<String>,
}

/// Which proof was acknowledged.
#[derive(Debug, Clone, Copy, PartialEq, Eq, Structural)]
pub enum TeardownAcknowledgedProofKind {
    Receipt,
    NeverBound,
}

impl TeardownAcknowledgedProof {
    /// Whether the payload is the one that the kind asks for, and no other.
    pub open spec fn payload_matches_kind(self) -> bool {
        match self.kind {
            TeardownAcknowledgedProofKind::Receipt => self.receipt_token is Some
                && self.evidence is Some && self.unbound_release_verified_at is None,
            TeardownAcknowledgedProofKind::NeverBound => self.receipt_token is None
                && self.evidence is None && self.unbound_release_verified_at is Some,
        }
    }

    /// The proof of a receipt and its evidence object.
    pub fn receipt(receipt_token: String, evidence: TeardownEvidenceReference) -> (proof: Self)
        ensures
            proof == (TeardownAcknowledgedProof {
                kind: TeardownAcknowledgedProofKind::Receipt,
                receipt_token: Some(receipt_token),
                evidence: Some(evidence),
                unbound_release_verified_at: None,
            }),
            proof.payload_matches_kind(),
    {
        TeardownAcknowledgedProof {
            kind: TeardownAcknowledgedProofKind::Receipt,
            receipt_token: Some(receipt_token),
            evidence: Some(evidence),
            unbound_release_verified_at: None,
        }
    }

    /// The proof of a release that never bound.
    pub fn never_bound(unbound_release_verified_at: String) -> (proof: Self)
        ensures
            proof == (TeardownAcknowledgedProof {
                kind: TeardownAcknowledgedProofKind::NeverBound,
                receipt_token: None,
                evidence: None,
                unbound_release_verified_at: Some(unbound_release_verified_at),
            }),
            proof.payload_matches_kind(),
    {
        TeardownAcknowledgedProof {
            kind: TeardownAcknowledgedProofKind::NeverBound,
            receipt_token: None,
            evidence: None,
            unbound_release_verified_at: Some(unbound_release_verified_at),
        }
    }
}

/// The name of an evidence object.
pub open spec fn evidence_name(lease_uid: Seq<char>, attempt_id: Seq<char>) -> Seq<char> {
    "vte-"@ + short_digest(lease_uid, attempt_id)
}

/// Deterministic name of one lease teardown attempt's evidence.
pub fn verified_teardown_evidence_name(lease_uid: &str, attempt_id: &str) -> (name: String)
    ensures
        name@ == evidence_name(lease_uid@, attempt_id@),
        name@.len() == 44,
        digest::all_hex_digits(name@.skip(4)),
{
    let digest = short_digest_of(lease_uid, attempt_id);
    proof {
        reveal_strlit("vte-");
    }
    let name = concat("vte-", digest.as_str());
    assert(name@.skip(4) =~= digest@);
    name
}

/// A text without a NUL in it.
pub open spec fn nul_free(text: Seq<char>) -> bool {
    forall|i: int| 0 <= i < text.len() ==> text[i] != '\0'
}

/// What is hashed for an evidence name determines the lease UID and the
/// attempt: as long as no lease UID holds a NUL, two different pairs are never
/// hashed as the same text.
pub proof fn law_evidence_name_input_is_unambiguous(
    lease_uid: Seq<char>,
    attempt_id: Seq<char>,
    other_lease_uid: Seq<char>,
    other_attempt_id: Seq<char>,
)
    requires
        nul_free(lease_uid),
        nul_free(other_lease_uid),
        encode_utf8(nul_joined(lease_uid, attempt_id)) == encode_utf8(
            nul_joined(other_lease_uid, other_attempt_id),
        ),
    ensures
        lease_uid == other_lease_uid,
        attempt_id == other_attempt_id,
{
    reveal_strlit("\0");
    let a = nul_joined(lease_uid, attempt_id);
    let b = nul_joined(other_lease_uid, other_attempt_id);
    encode_utf8_decode_utf8(a);
    encode_utf8_decode_utf8(b);
    assert(a == b);
    let n = lease_uid.len() as int;
    let m = other_lease_uid.len() as int;
    assert(a[n] == '\0');
    assert(b[m] == '\0');
    assert(forall|i: int| 0 <= i < n ==> a[i] == lease_uid[i]);
    assert(forall|i: int| 0 <= i < m ==> b[i] == other_lease_uid[i]);
    assert(n == m) by {
        if n < m {
            assert(b[n] == other_lease_uid[n]);
        } else if m < n {
            assert(a[m] == lease_uid[m]);
        }
    }
    assert(lease_uid =~= a.take(n));
    assert(other_lease_uid =~= b.take(n));
    assert(attempt_id =~= a.skip(n + 1));
    assert(other_attempt_id =~= b.skip(n + 1));
}

/// What is hashed for the lease label is never what is hashed for the attempt
/// label, whatever the lease and the attempt are.
pub proof fn law_label_inputs_are_separated(lease_uid: Seq<char>, attempt_id: Seq<char>)
    ensures
        encode_utf8(nul_joined("lease"@, lease_uid)) != encode_utf8(
            nul_joined("attempt"@, attempt_id),
        ),
{
    reveal_strlit("lease");
    reveal_strlit("attempt");
    let lease = nul_joined("lease"@, lease_uid);
    let attempt = nul_joined("attempt"@, attempt_id);
    encode_utf8_decode_utf8(lease);
    encode_utf8_decode_utf8(attempt);
    assert(lease[0] == 'l');
    assert(attempt[0] == 'a');
}

} // verus!
