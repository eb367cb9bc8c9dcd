//! What holds of the catalog whatever is done to it.

use crate::bundle::{
    auto_activation, described, lemma_active_is_registered, lemma_with_bundle_wf,
    lemma_without_wf, scanned, startup_choice, BundleError, CatalogView, ManifestRead,
    PackCandidate,
};
use crate::data::bundle::Bundle;
use vstd::prelude::*;

verus! {

/// Registration keeps the catalog's invariant, whatever is offered.
pub proof fn lemma_registered_wf(v: CatalogView, root: String, manifest: ManifestRead)
    requires
        v.wf(),
    ensures
        v.registered(root, manifest).wf(),
{
    if v.registration(root, manifest) is Ok {
        lemma_with_bundle_wf(v, described(root, manifest)->Ok_0);
    }
}

/// Activation keeps the catalog's invariant, whatever loading gave.
pub proof fn lemma_activated_wf(v: CatalogView, id: Seq<char>, loaded: Option<Bundle>)
    requires
        v.wf(),
    ensures
        v.activated(id, loaded).wf(),
{
    if v.activation(id, loaded) is Ok {
        let i = choose|i: int| v.registered_at(loaded->0.descriptor, i);
        assert(v.activated(id, loaded).registered_at(loaded->0.descriptor, i));
    }
}

/// Removal keeps the catalog's invariant, whatever is named.
pub proof fn lemma_removed_wf(v: CatalogView, id: Seq<char>)
    requires
        v.wf(),
    ensures
        v.removed(id).wf(),
{
    if v.contains(id) {
        lemma_without_wf(v, id);
    }
}

/// Two packs with the same identifier: once the first is registered, the
/// second is refused as a duplicate, the catalog stays as it was, and it
/// holds the identifier exactly once.
pub proof fn lemma_duplicate_is_refused(
    v: CatalogView,
    first_root: String,
    first: ManifestRead,
    second_root: String,
    second: ManifestRead,
)
    requires
        v.wf(),
        first matches ManifestRead::Parsed(a) && second matches ManifestRead::Parsed(b)
            && a.server_id@ == b.server_id@,
        v.registration(first_root, first) is Ok,
    ensures
        ({
            let id = first->Parsed_0.server_id@;
            let after = v.registered(first_root, first);
            &&& after.registration(second_root, second) == Err::<bool, BundleError>(
                BundleError::DuplicateIdentifier,
            )
            &&& after.registered(second_root, second) == after
            &&& after.contains(id)
            &&& forall|i: int, j: int| after.id_at(id, i) && after.id_at(id, j) ==> i == j
        }),
{
    let descriptor = described(first_root, first)->Ok_0;
    lemma_with_bundle_wf(v, descriptor);
}

/// The first pack that an empty catalog takes is to be activated at once;
/// once it is loaded from its directory and active, a second pack is
/// registered without a change of the active pack and without being
/// activated.
pub proof fn lemma_first_pack_is_activated(
    v: CatalogView,
    first_root: String,
    first: ManifestRead,
    loaded: Bundle,
    second_root: String,
    second: ManifestRead,
)
    requires
        v.bundles.len() == 0,
        v.active is None,
        first is Parsed,
        loaded.descriptor.same(described(first_root, first)->Ok_0),
        second matches ManifestRead::Parsed(b) && b.server_id@ != loaded.id(),
    ensures
        v.registration(first_root, first) == Ok::<bool, BundleError>(true),
        auto_activation(v.registered(first_root, first)) == Some(loaded.id()),
        ({
            let active = v.registered(first_root, first).activated(loaded.id(), Some(loaded));
            &&& active.active == Some(loaded)
            &&& active.registration(second_root, second) == Ok::<bool, BundleError>(false)
            &&& active.registered(second_root, second).active == Some(loaded)
            &&& auto_activation(active.registered(second_root, second)) is None
        }),
{
    let one = v.registered(first_root, first);
    let descriptor = described(first_root, first)->Ok_0;
    assert(!v.contains(descriptor.id())) by {
        if v.contains(descriptor.id()) {
            let i = choose|i: int| v.id_at(descriptor.id(), i);
        }
    }
    assert(one.id_at(loaded.id(), 0));
    assert(one.registered_at(loaded.descriptor, 0));
    let active = one.activated(loaded.id(), Some(loaded));
    let other = described(second_root, second)->Ok_0;
    assert(!active.contains(other.id())) by {
        if active.contains(other.id()) {
            let i = choose|i: int| active.id_at(other.id(), i);
        }
    }
}

/// Removing the active pack leaves no pack active; removing another pack
/// leaves the active pack as it is; removing an unknown identifier leaves
/// the whole catalog as it is.
pub proof fn lemma_removal_and_activation(v: CatalogView, id: Seq<char>)
    requires
        v.wf(),
    ensures
        v.active_id() == Some(id) ==> v.removed(id).active is None && !v.removed(id).contains(id),
        v.active_id() != Some(id) ==> v.removed(id).active == v.active,
        !v.contains(id) ==> v.removed(id) == v,
        v.contains(id) ==> !v.removed(id).contains(id) && v.removed(id).bundles.len()
            == v.bundles.len() - 1,
{
    if v.active is Some {
        lemma_active_is_registered(v);
    }
    if v.contains(id) {
        lemma_without_wf(v, id);
        assert(v.id_at(id, v.position(id)));
    }
}

/// Activating the same pack twice in a row, each time loaded from its
/// registered directory, succeeds both times, and the catalog then holds
/// the services of the second load alone.
pub proof fn lemma_reactivation(v: CatalogView, id: Seq<char>, first: Bundle, second: Bundle)
    requires
        v.wf(),
        first.id() == id,
        second.id() == id,
        v.holds(first.descriptor),
        v.holds(second.descriptor),
    ensures
        v.contains(id),
        v.activation(id, Some(first)) == Ok::<(), BundleError>(()),
        v.activated(id, Some(first)).activation(id, Some(second)) == Ok::<(), BundleError>(()),
        v.activated(id, Some(first)).activated(id, Some(second)).active == Some(second),
        v.activated(id, Some(first)).activated(id, Some(second)).bundles == v.bundles,
{
    let once = v.activated(id, Some(first));
    let i = choose|i: int| v.registered_at(first.descriptor, i);
    assert(v.id_at(id, i));
    assert(once.id_at(id, i));
    let k = choose|k: int| v.registered_at(second.descriptor, k);
    assert(once.registered_at(second.descriptor, k));
}

/// A failed activation leaves the catalog as it was: the pack that was
/// active stays active. Activation fails for an unknown identifier, for a
/// failed load, and for a loaded pack that is not the registered one: a
/// pack of this identifier loaded from another directory or manifest is
/// not taken.
pub proof fn lemma_failed_activation_changes_nothing(
    v: CatalogView,
    id: Seq<char>,
    loaded: Option<Bundle>,
)
    requires
        v.wf(),
    ensures
        v.activation(id, loaded) is Err ==> v.activated(id, loaded) == v,
        !v.contains(id) ==> v.activation(id, loaded) == Err::<(), BundleError>(
            BundleError::NotFound,
        ),
        v.contains(id) && loaded is None ==> v.activation(id, loaded) == Err::<(), BundleError>(
            BundleError::IndexLoadError,
        ),
        v.contains(id) && loaded is Some && !v.bundles[v.position(id)].same(loaded->0.descriptor)
            ==> v.activation(id, loaded) == Err::<(), BundleError>(BundleError::IndexLoadError),
        v.contains(id) && loaded is Some && v.bundles[v.position(id)].same(loaded->0.descriptor)
            ==> v.activation(id, loaded) == Ok::<(), BundleError>(()),
{
    if v.contains(id) && loaded is Some {
        let p = v.position(id);
        let descriptor = loaded->0.descriptor;
        assert(v.id_at(id, p));
        if v.bundles[p].same(descriptor) {
            assert(v.registered_at(descriptor, p));
        } else if loaded->0.id() == id && v.holds(descriptor) {
            let k = choose|k: int| v.registered_at(descriptor, k);
            assert(v.bundles[k].id() == v.bundles[p].id());
            assert(k == p);
        }
    }
}

/// Two packs with different identifiers that the catalog does not hold yet
/// are both registered, in whichever order they arrive, and both are then
/// in the catalog.
pub proof fn lemma_two_packs_both_register(
    v: CatalogView,
    a_root: String,
    a: ManifestRead,
    b_root: String,
    b: ManifestRead,
)
    requires
        v.wf(),
        a is Parsed,
        b is Parsed,
        a->Parsed_0.server_id@ != b->Parsed_0.server_id@,
        !v.contains(a->Parsed_0.server_id@),
        !v.contains(b->Parsed_0.server_id@),
    ensures
        v.registration(a_root, a) is Ok,
        v.registered(a_root, a).registration(b_root, b) is Ok,
        v.registration(b_root, b) is Ok,
        v.registered(b_root, b).registration(a_root, a) is Ok,
        v.registered(a_root, a).registered(b_root, b).contains(a->Parsed_0.server_id@),
        v.registered(a_root, a).registered(b_root, b).contains(b->Parsed_0.server_id@),
        v.registered(b_root, b).registered(a_root, a).contains(a->Parsed_0.server_id@),
        v.registered(b_root, b).registered(a_root, a).contains(b->Parsed_0.server_id@),
{
    let da = described(a_root, a)->Ok_0;
    let db = described(b_root, b)->Ok_0;
    lemma_with_bundle_wf(v, da);
    lemma_with_bundle_wf(v, db);
    let va = v.with_bundle(da);
    let vb = v.with_bundle(db);
    assert(!va.contains(db.id())) by {
        if va.contains(db.id()) {
            let i = choose|i: int| va.id_at(db.id(), i);
            if i < v.bundles.len() {
                assert(v.id_at(db.id(), i));
            }
        }
    }
    assert(!vb.contains(da.id())) by {
        if vb.contains(da.id()) {
            let i = choose|i: int| vb.id_at(da.id(), i);
            if i < v.bundles.len() {
                assert(v.id_at(da.id(), i));
            }
        }
    }
    lemma_with_bundle_wf(va, db);
    lemma_with_bundle_wf(vb, da);
}

/// At startup only the remembered pack is activated: where the settings
/// remember nothing, or a pack that is gone, nothing is activated, however
/// many packs the scan has found; a remembered pack that the scan has
/// found is the one to activate.
pub proof fn lemma_startup_activates_only_the_remembered_pack(
    v: CatalogView,
    candidates: Seq<PackCandidate>,
    remembered: Option<Seq<char>>,
)
    requires
        v.wf(),
    ensures
        scanned(v, candidates).wf(),
        remembered is None ==> startup_choice(scanned(v, candidates), remembered) is None,
        remembered is Some && !scanned(v, candidates).contains(remembered->0) ==> startup_choice(
            scanned(v, candidates),
            remembered,
        ) is None,
        remembered is Some && scanned(v, candidates).contains(remembered->0) ==> startup_choice(
            scanned(v, candidates),
            remembered,
        ) == remembered,
        scanned(v, candidates).active == v.active,
    decreases candidates.len(),
{
    if candidates.len() > 0 {
        lemma_startup_activates_only_the_remembered_pack(v, candidates.drop_last(), remembered);
        lemma_registered_wf(
            scanned(v, candidates.drop_last()),
            candidates.last().root,
            candidates.last().manifest,
        );
    }
}

} // verus!
