//! The storage that belongs to a captured workload.

use crate::certification::identity::{self, typed_reference};
use crate::crd::sandbox::{self, SandboxObjectReference};
use crate::k8s::{self, ApiError, ObjectMeta, PersistentVolume};
use crate::text::{self, comes_before, concat, same_text};
use vstd::prelude::*;
use vstd::string::*;

verus! {

/// Whether one of these UIDs is a controlling owner's.
pub open spec fn has_controller(object: k8s::MetaView, owner_uids: Seq<Seq<char>>) -> bool {
    exists|i: int| 0 <= i < owner_uids.len() && object.controlled_by_uid(#[trigger] owner_uids[i])
}

/// Whether one of these UIDs is a controlling owner's.
pub fn object_has_controller_uid(meta: &ObjectMeta, owner_uids: &[String]) -> (result: bool)
    ensures
        result == has_controller(meta@, text::texts(owner_uids@)),
{
    let ghost uids = text::texts(owner_uids@);
    let mut i: usize = 0;
    while i < owner_uids.len()
        invariant
            uids == text::texts(owner_uids@),
            i <= owner_uids@.len(),
            forall|k: int| 0 <= k < i ==> !meta@.controlled_by_uid(#[trigger] uids[k]),
        decreases owner_uids@.len() - i,
    {
        assert(uids[i as int] == owner_uids@[i as int]@);
        if meta.is_controlled_by_uid(owner_uids[i].as_str()) {
            return true;
        }
        i = i + 1;
    }
    false
}

/// References in the order of their UIDs with one more, behind those that it
/// does not come before.
pub open spec fn with_reference(
    references: Seq<sandbox::ReferenceView>,
    reference: sandbox::ReferenceView,
) -> Seq<sandbox::ReferenceView>
    decreases references.len(),
{
    if references.len() == 0 {
        seq![reference]
    } else if text::text_less(reference.uid, references.last().uid) {
        with_reference(references.drop_last(), reference).push(references.last())
    } else {
        references.push(reference)
    }
}

proof fn lemma_with_reference_inserts(
    references: Seq<sandbox::ReferenceView>,
    reference: sandbox::ReferenceView,
    at: int,
)
    requires
        0 <= at <= references.len(),
        forall|k: int|
            at <= k < references.len() ==> text::text_less(
                reference.uid,
                (#[trigger] references[k]).uid,
            ),
        at > 0 ==> !text::text_less(reference.uid, references[at - 1].uid),
    ensures
        with_reference(references, reference) == references.insert(at, reference),
    decreases references.len(),
{
    if references.len() == 0 {
        assert(references.insert(at, reference) =~= seq![reference]);
    } else if at == references.len() {
        assert(references.insert(at, reference) =~= references.push(reference));
    } else {
        let less = references.drop_last();
        assert forall|k: int| at <= k < less.len() implies text::text_less(
            reference.uid,
            (#[trigger] less[k]).uid,
        ) by {
            assert(less[k] == references[k]);
        }
        lemma_with_reference_inserts(less, reference, at);
        assert(less.insert(at, reference).push(references.last()) =~= references.insert(
            at,
            reference,
        ));
    }
}

fn insert_reference(
    references: &mut Vec<SandboxObjectReference>,
    reference: SandboxObjectReference,
)
    ensures
        sandbox::reference_views(final(references)@) == with_reference(
            sandbox::reference_views(old(references)@),
            reference@,
        ),
{
    let ghost model = sandbox::reference_views(references@);
    let mut i: usize = references.len();
    while i > 0 && comes_before(reference.uid.as_str(), references[i - 1].uid.as_str())
        invariant
            references@ == old(references)@,
            model == sandbox::reference_views(references@),
            i <= references@.len(),
            forall|k: int|
                i <= k < references@.len() ==> text::text_less(
                    reference@.uid,
                    (#[trigger] model[k]).uid,
                ),
        decreases i,
    {
        assert(model[i - 1].uid == references@[i - 1].uid@);
        i = i - 1;
    }
    proof {
        if i > 0 {
            assert(model[i - 1].uid == references@[i - 1].uid@);
        }
        lemma_with_reference_inserts(model, reference@, i as int);
    }
    let ghost view = reference@;
    references.insert(i, reference);
    assert(sandbox::reference_views(references@) =~= model.insert(i as int, view));
}

/// The references to those of the first objects that belong to the workload, in
/// the order of their UIDs; or the first error.
pub open spec fn manifest(
    objects: Seq<k8s::MetaView>,
    belongs: spec_fn(int) -> bool,
    kind: Seq<char>,
) -> Result<Seq<sandbox::ReferenceView>, Seq<char>>
    decreases objects.len(),
{
    if objects.len() == 0 {
        Ok(Seq::empty())
    } else {
        match manifest(objects.drop_last(), belongs, kind) {
            Err(error) => Err(error),
            Ok(references) => if belongs(objects.len() - 1) {
                match identity::reference_to(objects.last(), "v1"@, kind) {
                    Ok(reference) => Ok(with_reference(references, reference)),
                    Err(error) => Err(error),
                }
            } else {
                Ok(references)
            },
        }
    }
}

/// What a list of metadata says.
pub open spec fn meta_views(objects: Seq<ObjectMeta>) -> Seq<k8s::MetaView> {
    objects.map_values(|object: ObjectMeta| object@)
}

/// What the metadata of a list of volumes says.
pub open spec fn volume_views(volumes: Seq<PersistentVolume>) -> Seq<k8s::MetaView> {
    volumes.map_values(|volume: PersistentVolume| volume.metadata@)
}

/// The volume claims that the sandbox controls.
pub open spec fn claim_manifest(
    list: Result<Vec<ObjectMeta>, ApiError>,
    sandbox_uid: Seq<char>,
) -> Result<Seq<sandbox::ReferenceView>, Seq<char>> {
    match list {
        Err(error) => Err("certification PVC manifest list failed: "@ + error.error@),
        Ok(claims) => manifest(
            meta_views(claims@),
            |i: int| claims@[i]@.controlled_by_uid(sandbox_uid),
            "PersistentVolumeClaim"@,
        ),
    }
}

/// What a result that holds references says.
pub open spec fn manifest_outcome(result: Result<Vec<SandboxObjectReference>, String>) -> Result<
    Seq<sandbox::ReferenceView>,
    Seq<char>,
> {
    match result {
        Ok(references) => Ok(sandbox::reference_views(references@)),
        Err(error) => Err(error@),
    }
}

proof fn lemma_manifest_error_stays(
    objects: Seq<k8s::MetaView>,
    belongs: spec_fn(int) -> bool,
    kind: Seq<char>,
    at: int,
)
    requires
        0 <= at <= objects.len(),
        manifest(objects.take(at), belongs, kind) is Err,
    ensures
        manifest(objects, belongs, kind) == manifest(objects.take(at), belongs, kind),
    decreases objects.len(),
{
    if at == objects.len() {
        assert(objects.take(at) =~= objects);
    } else {
        assert(objects.drop_last().take(at) =~= objects.take(at));
        lemma_manifest_error_stays(objects.drop_last(), belongs, kind, at);
    }
}

/// References to the volume claims that the sandbox controls, in the order of
/// their UIDs.
pub fn capture_volume_claims(
    list: Result<Vec<ObjectMeta>, ApiError>,
    sandbox_uid: &str,
) -> (result: Result<Vec<SandboxObjectReference>, String>)
    ensures
        manifest_outcome(result) == claim_manifest(list, sandbox_uid@),
{
    let claims = match list {
        Ok(claims) => claims,
        Err(error) => {
            return Err(concat("certification PVC manifest list failed: ", error.error.as_str()));
        },
    };
    let owners = vec![sandbox_uid.to_owned()];
    let ghost objects = meta_views(claims@);
    let ghost belongs = |i: int| claims@[i]@.controlled_by_uid(sandbox_uid@);
    let ghost kind = "PersistentVolumeClaim"@;
    let mut references: Vec<SandboxObjectReference> = Vec::new();
    assert(objects.take(0) =~= Seq::empty());
    assert(sandbox::reference_views(references@) =~= Seq::empty());
    let mut i: usize = 0;
    while i < claims.len()
        invariant
            objects == meta_views(claims@),
            belongs == (|i: int| claims@[i]@.controlled_by_uid(sandbox_uid@)),
            kind == "PersistentVolumeClaim"@,
            list == Ok::<Vec<ObjectMeta>, ApiError>(claims),
            owners@.len() == 1,
            owners@[0]@ == sandbox_uid@,
            i <= claims@.len(),
            manifest(objects.take(i as int), belongs, kind) == Ok::<
                Seq<sandbox::ReferenceView>,
                Seq<char>,
            >(sandbox::reference_views(references@)),
        decreases claims@.len() - i,
    {
        let claim = &claims[i];
        assert(objects.take(i + 1).drop_last() =~= objects.take(i as int));
        assert(objects.take(i + 1).last() == claim@);
        assert(text::texts(owners@)[0] == sandbox_uid@);
        assert(has_controller(claim@, text::texts(owners@)) == claim@.controlled_by_uid(
            sandbox_uid@,
        ));
        if object_has_controller_uid(claim, owners.as_slice()) {
            match typed_reference(claim, "v1", "PersistentVolumeClaim") {
                Ok(reference) => {
                    insert_reference(&mut references, reference);
                },
                Err(error) => {
                    proof {
                        lemma_manifest_error_stays(objects, belongs, kind, i + 1);
                    }
                    return Err(error);
                },
            }
        }
        i = i + 1;
    }
    assert(objects.take(claims@.len() as int) =~= objects);
    Ok(references)
}

/// Whether a volume is bound to one of the captured claims.
pub open spec fn bound_to(volume: PersistentVolume, claims: Seq<sandbox::ReferenceView>) -> bool {
    match text::opt_text(volume.claim_uid) {
        Some(uid) => exists|i: int| 0 <= i < claims.len() && (#[trigger] claims[i]).uid == uid,
        None => false,
    }
}

/// The volumes that are bound to the captured claims.
pub open spec fn volume_manifest(
    list: Result<Vec<PersistentVolume>, ApiError>,
    claims: Seq<sandbox::ReferenceView>,
) -> Result<Seq<sandbox::ReferenceView>, Seq<char>> {
    match list {
        Err(error) => Err("certification PV manifest list failed: "@ + error.error@),
        Ok(volumes) => manifest(
            volume_views(volumes@),
            |i: int| bound_to(volumes@[i], claims),
            "PersistentVolume"@,
        ),
    }
}

fn is_bound_to(volume: &PersistentVolume, claims: &Vec<SandboxObjectReference>) -> (result: bool)
    ensures
        result == bound_to(*volume, sandbox::reference_views(claims@)),
{
    let uid = match &volume.claim_uid {
        Some(uid) => uid,
        None => {
            return false;
        },
    };
    let ghost model = sandbox::reference_views(claims@);
    let mut i: usize = 0;
    while i < claims.len()
        invariant
            model == sandbox::reference_views(claims@),
            volume.claim_uid == Some(*uid),
            i <= claims@.len(),
            forall|k: int| 0 <= k < i ==> (#[trigger] model[k]).uid != uid@,
        decreases claims@.len() - i,
    {
        assert(model[i as int].uid == claims@[i as int].uid@);
        if same_text(claims[i].uid.as_str(), uid.as_str()) {
            return true;
        }
        i = i + 1;
    }
    false
}

/// References to the volumes that are bound to the captured claims, in the
/// order of their UIDs.
pub fn capture_volumes(
    list: Result<Vec<PersistentVolume>, ApiError>,
    claims: &Vec<SandboxObjectReference>,
) -> (result: Result<Vec<SandboxObjectReference>, String>)
    ensures
        manifest_outcome(result) == volume_manifest(list, sandbox::reference_views(claims@)),
{
    let volumes = match list {
        Ok(volumes) => volumes,
        Err(error) => {
            return Err(concat("certification PV manifest list failed: ", error.error.as_str()));
        },
    };
    let ghost objects = volume_views(volumes@);
    let ghost captured = sandbox::reference_views(claims@);
    let ghost belongs = |i: int| bound_to(volumes@[i], captured);
    let ghost kind = "PersistentVolume"@;
    let mut references: Vec<SandboxObjectReference> = Vec::new();
    assert(objects.take(0) =~= Seq::empty());
    assert(sandbox::reference_views(references@) =~= Seq::empty());
    let mut i: usize = 0;
    while i < volumes.len()
        invariant
            objects == volume_views(volumes@),
            captured == sandbox::reference_views(claims@),
            belongs == (|i: int| bound_to(volumes@[i], captured)),
            kind == "PersistentVolume"@,
            list == Ok::<Vec<PersistentVolume>, ApiError>(volumes),
            i <= volumes@.len(),
            manifest(objects.take(i as int), belongs, kind) == Ok::<
                Seq<sandbox::ReferenceView>,
                Seq<char>,
            >(sandbox::reference_views(references@)),
        decreases volumes@.len() - i,
    {
        let volume = &volumes[i];
        assert(objects.take(i + 1).drop_last() =~= objects.take(i as int));
        assert(objects.take(i + 1).last() == volume.metadata@);
        if is_bound_to(volume, claims) {
            match typed_reference(&volume.metadata, "v1", "PersistentVolume") {
                Ok(reference) => {
                    insert_reference(&mut references, reference);
                },
                Err(error) => {
                    proof {
                        lemma_manifest_error_stays(objects, belongs, kind, i + 1);
                    }
                    return Err(error);
                },
            }
        }
        i = i + 1;
    }
    assert(objects.take(volumes@.len() as int) =~= objects);
    Ok(references)
}

} // verus!
