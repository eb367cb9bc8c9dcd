//! The pack catalog: which packs are known, and which one is active.

pub mod import;
pub mod import_laws;
pub mod laws;

use crate::data::bundle::Bundle;
use crate::utils::path::{join, joined};
use vstd::prelude::*;

verus! {

/// Display name of a pack's server, per language.
#[derive(Debug)]
pub struct BundleServerName {
    /// English name.
    pub en: String,
    /// Chinese name.
    pub zh: String,
}

/// The game build that a pack was made from.
#[derive(Debug)]
pub struct BundleGameInfo {
    /// Version tag of the game.
    pub version: String,
    /// Build number of the game.
    pub build: String,
}

/// What a pack's manifest says.
#[derive(Debug)]
pub struct BundleMetadata {
    /// Identifier of the pack; the key of the catalog.
    pub server_id: String,
    /// Display names of the pack.
    pub server_name: BundleServerName,
    /// When the pack was made, in milliseconds since the Unix epoch.
    pub created: i64,
    /// The game build that the pack was made from.
    pub game_info: BundleGameInfo,
}

/// A pack on disk: its manifest and the directory that holds it.
#[derive(Debug)]
pub struct BundleDescriptor {
    /// What the manifest says.
    pub metadata: BundleMetadata,
    /// The directory of the pack, which holds the manifest and the data files.
    pub root: String,
}

/// What reading the manifest of a directory gave.
#[derive(Debug)]
pub enum ManifestRead {
    /// The directory has no manifest that could be opened.
    Missing,
    /// The manifest is there and could not be understood.
    Malformed,
    /// The manifest's content.
    Parsed(BundleMetadata),
}

/// Why a catalog operation failed.
#[derive(Clone, Copy, Debug, PartialEq, Eq, Structural)]
pub enum BundleError {
    /// The directory holds no manifest.
    ManifestMissing,
    /// The manifest could not be understood.
    ManifestParseError,
    /// The catalog already holds a pack with this identifier.
    DuplicateIdentifier,
    /// The catalog holds no pack with this identifier.
    NotFound,
    /// The services of the pack could not be loaded.
    IndexLoadError,
}

impl Clone for BundleServerName {
    fn clone(&self) -> (copy: Self)
        ensures
            copy == *self,
    {
        BundleServerName { en: self.en.clone(), zh: self.zh.clone() }
    }
}

impl Clone for BundleGameInfo {
    fn clone(&self) -> (copy: Self)
        ensures
            copy == *self,
    {
        BundleGameInfo { version: self.version.clone(), build: self.build.clone() }
    }
}

impl Clone for BundleMetadata {
    fn clone(&self) -> (copy: Self)
        ensures
            copy == *self,
    {
        BundleMetadata {
            server_id: self.server_id.clone(),
            server_name: self.server_name.clone(),
            created: self.created,
            game_info: self.game_info.clone(),
        }
    }
}

impl Clone for BundleDescriptor {
    fn clone(&self) -> (copy: Self)
        ensures
            copy == *self,
    {
        BundleDescriptor { metadata: self.metadata.clone(), root: self.root.clone() }
    }
}

/// What `BundleDescriptor::init` makes of a directory and its manifest.
pub open spec fn described(root: String, manifest: ManifestRead) -> Result<
    BundleDescriptor,
    BundleError,
> {
    match manifest {
        ManifestRead::Missing => Err(BundleError::ManifestMissing),
        ManifestRead::Malformed => Err(BundleError::ManifestParseError),
        ManifestRead::Parsed(metadata) => Ok(BundleDescriptor { metadata, root }),
    }
}

impl BundleDescriptor {
    /// The identifier of the pack.
    pub open spec fn id(&self) -> Seq<char> {
        self.metadata.server_id@
    }

    /// Both describe the same pack: the same directory and the same manifest.
    pub open spec fn same(&self, other: BundleDescriptor) -> bool {
        &&& self.root@ == other.root@
        &&& self.metadata.server_id@ == other.metadata.server_id@
        &&& self.metadata.server_name.en@ == other.metadata.server_name.en@
        &&& self.metadata.server_name.zh@ == other.metadata.server_name.zh@
        &&& self.metadata.created == other.metadata.created
        &&& self.metadata.game_info.version@ == other.metadata.game_info.version@
        &&& self.metadata.game_info.build@ == other.metadata.game_info.build@
    }

    /// Whether both describe the same pack: the same directory and the same
    /// manifest.
    pub fn same_as(&self, other: &BundleDescriptor) -> (same: bool)
        ensures
            same == self.same(*other),
    {
        self.root == other.root && self.metadata.server_id == other.metadata.server_id
            && self.metadata.server_name.en == other.metadata.server_name.en
            && self.metadata.server_name.zh == other.metadata.server_name.zh
            && self.metadata.created == other.metadata.created
            && self.metadata.game_info.version == other.metadata.game_info.version
            && self.metadata.game_info.build == other.metadata.game_info.build
    }

    /// The manifest file of the pack in `root`.
    pub fn manifest_path(root: &str) -> (path: String)
        ensures
            path@ == joined(root@, "bundle.descriptor"@),
    {
        join(root, "bundle.descriptor")
    }

    /// Describes the pack in `root` from what reading its manifest gave.
    pub fn init(root: String, manifest: ManifestRead) -> (descriptor: Result<Self, BundleError>)
        ensures
            descriptor == described(root, manifest),
    {
        match manifest {
            ManifestRead::Missing => Err(BundleError::ManifestMissing),
            ManifestRead::Malformed => Err(BundleError::ManifestParseError),
            ManifestRead::Parsed(metadata) => Ok(BundleDescriptor { metadata, root }),
        }
    }
}

/// The directory below the data directory that holds the packs, one
/// directory each.
pub open spec fn packs_root(data_dir: Seq<char>) -> Seq<char> {
    joined(data_dir, "bundle"@)
}

/// The directory below the data directory that holds the packs.
pub fn bundles_root(data_dir: &str) -> (path: String)
    ensures
        path@ == packs_root(data_dir@),
{
    join(data_dir, "bundle")
}

/// The directory of the pack that is called `name`.
pub fn bundle_directory(data_dir: &str, name: &str) -> (path: String)
    ensures
        path@ == joined(packs_root(data_dir@), name@),
{
    let root = bundles_root(data_dir);
    join(root.as_str(), name)
}

/// The catalog as a value: the known packs in the order of their
/// registration, and the active pack.
pub struct CatalogView {
    /// The registered packs.
    pub bundles: Seq<BundleDescriptor>,
    /// The active pack with its loaded services.
    pub active: Option<Bundle>,
}

impl CatalogView {
    /// The pack at position `i` has the identifier `id`.
    pub open spec fn id_at(self, id: Seq<char>, i: int) -> bool {
        0 <= i < self.bundles.len() && self.bundles[i].id() == id
    }

    /// A pack with the identifier `id` is registered.
    pub open spec fn contains(self, id: Seq<char>) -> bool {
        exists|i: int| self.id_at(id, i)
    }

    /// The pack at position `i` is the one that `descriptor` describes.
    pub open spec fn registered_at(self, descriptor: BundleDescriptor, i: int) -> bool {
        0 <= i < self.bundles.len() && self.bundles[i].same(descriptor)
    }

    /// The pack that `descriptor` describes is registered: the catalog
    /// holds this identifier with this directory and this manifest.
    pub open spec fn holds(self, descriptor: BundleDescriptor) -> bool {
        exists|i: int| self.registered_at(descriptor, i)
    }

    /// The position of the pack `id` in the catalog.
    pub open spec fn position(self, id: Seq<char>) -> int {
        choose|i: int| self.id_at(id, i)
    }

    /// The identifier of the active pack.
    pub open spec fn active_id(self) -> Option<Seq<char>> {
        match self.active {
            Some(bundle) => Some(bundle.id()),
            None => None,
        }
    }

    /// The catalog's invariant: no identifier is registered twice, and the
    /// active pack is a registered one, loaded from the directory and the
    /// manifest that the catalog holds for it.
    pub open spec fn wf(self) -> bool {
        &&& forall|i: int, j: int|
            0 <= i < j < self.bundles.len() ==> self.bundles[i].id() != self.bundles[j].id()
        &&& self.active matches Some(bundle) ==> self.holds(bundle.descriptor)
    }

    /// The catalog with `descriptor` registered.
    pub open spec fn with_bundle(self, descriptor: BundleDescriptor) -> CatalogView {
        CatalogView { bundles: self.bundles.push(descriptor), active: self.active }
    }

    /// The catalog with `bundle` as the active pack.
    pub open spec fn with_active(self, bundle: Bundle) -> CatalogView {
        CatalogView { bundles: self.bundles, active: Some(bundle) }
    }

    /// The catalog without the pack `id`; where that was the active pack,
    /// no pack is active.
    pub open spec fn without(self, id: Seq<char>) -> CatalogView {
        CatalogView {
            bundles: self.bundles.remove(self.position(id)),
            active: if self.active_id() == Some(id) {
                None
            } else {
                self.active
            },
        }
    }

    /// What registering the directory `root` with the manifest `manifest`
    /// answers: an error, or whether the new pack is to be activated at
    /// once, being the first and only pack with none active.
    pub open spec fn registration(self, root: String, manifest: ManifestRead) -> Result<
        bool,
        BundleError,
    > {
        match described(root, manifest) {
            Err(e) => Err(e),
            Ok(descriptor) => if self.contains(descriptor.id()) {
                Err(BundleError::DuplicateIdentifier)
            } else {
                Ok(self.bundles.len() == 0 && self.active is None)
            },
        }
    }

    /// The catalog after the directory `root` was offered for registration.
    pub open spec fn registered(self, root: String, manifest: ManifestRead) -> CatalogView {
        match self.registration(root, manifest) {
            Ok(_) => self.with_bundle(described(root, manifest)->Ok_0),
            Err(_) => self,
        }
    }

    /// What activating `id` with the outcome `loaded` of loading it
    /// answers. A loaded pack is taken only where it is the pack that the
    /// catalog holds under `id`: loaded from its directory, with its manifest.
    pub open spec fn activation(self, id: Seq<char>, loaded: Option<Bundle>) -> Result<
        (),
        BundleError,
    > {
        if !self.contains(id) {
            Err(BundleError::NotFound)
        } else {
            match loaded {
                Some(bundle) => if bundle.id() == id && self.holds(bundle.descriptor) {
                    Ok(())
                } else {
                    Err(BundleError::IndexLoadError)
                },
                None => Err(BundleError::IndexLoadError),
            }
        }
    }

    /// The catalog after `id` was to be activated with the outcome `loaded`
    /// of loading it: on any failure nothing changes.
    pub open spec fn activated(self, id: Seq<char>, loaded: Option<Bundle>) -> CatalogView {
        match self.activation(id, loaded) {
            Ok(_) => self.with_active(loaded->0),
            Err(_) => self,
        }
    }

    /// The catalog after `id` was to be removed: an unknown identifier
    /// changes nothing.
    pub open spec fn removed(self, id: Seq<char>) -> CatalogView {
        if self.contains(id) {
            self.without(id)
        } else {
            self
        }
    }
}

/// A directory that is offered to the catalog, with what reading its
/// manifest gave.
#[derive(Debug)]
pub struct PackCandidate {
    /// The directory.
    pub root: String,
    /// What reading its manifest gave.
    pub manifest: ManifestRead,
}

/// A directory that the catalog did not take, and why.
#[derive(Debug)]
pub struct ScanFailure {
    /// The directory.
    pub root: String,
    /// Why it was not registered.
    pub error: BundleError,
}

/// What is to be done about activation when the application starts.
#[derive(Debug)]
pub struct StartupPlan {
    /// The pack to activate, if any.
    pub activate: Option<String>,
    /// Whether the remembered identifier is to be forgotten: it names no
    /// registered pack.
    pub clear_remembered: bool,
}

/// The catalog after every directory of `candidates` was offered in turn.
pub open spec fn scanned(v: CatalogView, candidates: Seq<PackCandidate>) -> CatalogView
    decreases candidates.len(),
{
    if candidates.len() == 0 {
        v
    } else {
        scanned(v, candidates.drop_last()).registered(
            candidates.last().root,
            candidates.last().manifest,
        )
    }
}

/// The directories of `candidates` that the catalog did not take, in their
/// order, each with the reason.
pub open spec fn scan_failures(v: CatalogView, candidates: Seq<PackCandidate>) -> Seq<ScanFailure>
    decreases candidates.len(),
{
    if candidates.len() == 0 {
        Seq::empty()
    } else {
        let earlier = scan_failures(v, candidates.drop_last());
        match scanned(v, candidates.drop_last()).registration(
            candidates.last().root,
            candidates.last().manifest,
        ) {
            Ok(_) => earlier,
            Err(error) => earlier.push(ScanFailure { root: candidates.last().root, error }),
        }
    }
}

/// The pack whose registration asks for its activation: the only pack of
/// a catalog in which none is active.
pub open spec fn auto_activation(v: CatalogView) -> Option<Seq<char>> {
    if v.bundles.len() == 1 && v.active is None {
        Some(v.bundles[0].id())
    } else {
        None
    }
}

/// The pack to activate at startup: the remembered one where it is still
/// registered, and no other.
pub open spec fn startup_choice(v: CatalogView, remembered: Option<Seq<char>>) -> Option<
    Seq<char>,
> {
    if remembered is Some && v.contains(remembered->0) {
        remembered
    } else {
        None
    }
}

/// An optional text as a sequence of characters.
pub open spec fn text_of(text: Option<String>) -> Option<Seq<char>> {
    match text {
        Some(t) => Some(t@),
        None => None,
    }
}

/// An optional text slice as a sequence of characters.
pub open spec fn text_of_str(text: Option<&str>) -> Option<Seq<char>> {
    match text {
        Some(t) => Some(t@),
        None => None,
    }
}

/// The registry of packs, with the one that is active.
pub struct BundleState {
    bundles: Vec<BundleDescriptor>,
    activated_bundle: Option<Bundle>,
}

impl View for BundleState {
    type V = CatalogView;

    closed spec fn view(&self) -> CatalogView {
        CatalogView { bundles: self.bundles@, active: self.activated_bundle }
    }
}

impl BundleState {
    #[verifier::type_invariant]
    spec fn valid(self) -> bool {
        self@.wf()
    }

    /// An empty catalog with no active pack.
    pub fn new() -> (state: Self)
        ensures
            state@.bundles.len() == 0,
            state@.active is None,
            state@.wf(),
    {
        BundleState { bundles: Vec::new(), activated_bundle: None }
    }

    /// The position of the pack `id` in the catalog.
    fn find(&self, id: &str) -> (found: Option<usize>)
        ensures
            match found {
                Some(i) => self@.id_at(id@, i as int),
                None => !self@.contains(id@),
            },
    {
        let wanted = id.to_owned();
        let mut i: usize = 0;
        while i < self.bundles.len()
            invariant
                i <= self.bundles.len(),
                wanted@ == id@,
                forall|k: int| 0 <= k < i ==> !self@.id_at(id@, k),
            decreases self.bundles.len() - i,
        {
            if self.bundles[i].metadata.server_id == wanted {
                return Some(i);
            }
            i += 1;
        }
        None
    }

    /// Registers the pack in the directory `root`, given what reading its
    /// manifest gave. The answer `Ok(true)` asks the caller to activate the
    /// new pack: it is the first and only pack, and none is active.
    pub fn add_bundle(&mut self, root: String, manifest: ManifestRead) -> (added: Result<
        bool,
        BundleError,
    >)
        ensures
            added == old(self)@.registration(root, manifest),
            final(self)@ == old(self)@.registered(root, manifest),
            final(self)@.wf(),
    {
        proof {
            use_type_invariant(&*self);
        }
        let descriptor = match BundleDescriptor::init(root, manifest) {
            Ok(descriptor) => descriptor,
            Err(e) => {
                return Err(e);
            },
        };
        if self.find(descriptor.metadata.server_id.as_str()).is_some() {
            return Err(BundleError::DuplicateIdentifier);
        }
        let first = self.bundles.len() == 0 && self.activated_bundle.is_none();
        let ghost before = self@;
        proof {
            lemma_with_bundle_wf(before, descriptor);
        }
        let mut taken = BundleState::new();
        core::mem::swap(self, &mut taken);
        let BundleState { bundles, activated_bundle } = taken;
        let mut bundles = bundles;
        bundles.push(descriptor);
        *self = BundleState { bundles, activated_bundle };
        Ok(first)
    }

    /// Makes `server_id` the active pack, given the outcome of loading it:
    /// `None` where loading failed. An unknown identifier fails with
    /// `NotFound`. A failed load fails with `IndexLoadError`, and so does a
    /// loaded pack that is not the registered one: one of another
    /// identifier, or one loaded from another directory or manifest than
    /// the catalog holds under `server_id`. On any failure the pack that
    /// was active stays active.
    pub fn activate_bundle(&mut self, server_id: &str, loaded: Option<Bundle>) -> (activated:
        Result<(), BundleError>)
        ensures
            activated == old(self)@.activation(server_id@, loaded),
            final(self)@ == old(self)@.activated(server_id@, loaded),
            final(self)@.wf(),
    {
        proof {
            use_type_invariant(&*self);
        }
        let i = match self.find(server_id) {
            Some(i) => i,
            None => {
                return Err(BundleError::NotFound);
            },
        };
        match loaded {
            Some(bundle) => {
                if self.bundles[i].same_as(&bundle.descriptor) {
                    proof {
                        assert(self@.registered_at(bundle.descriptor, i as int));
                        assert(self@.with_active(bundle).registered_at(bundle.descriptor, i as int));
                    }
                    self.activated_bundle = Some(bundle);
                    Ok(())
                } else {
                    proof {
                        if bundle.id() == server_id@ && self@.holds(bundle.descriptor) {
                            let k = choose|k: int| self@.registered_at(bundle.descriptor, k);
                            assert(self@.bundles[k].id() == self@.bundles[i as int].id());
                            assert(k == i);
                        }
                    }
                    Err(BundleError::IndexLoadError)
                }
            },
            None => Err(BundleError::IndexLoadError),
        }
    }

    /// Takes the pack `server_id` out of the catalog and hands back its
    /// descriptor, whose directory is to be deleted. Where it was the
    /// active pack, no pack is active afterwards. An unknown identifier
    /// fails with `NotFound` and changes nothing.
    pub fn remove_bundle(&mut self, server_id: &str) -> (removed: Result<
        BundleDescriptor,
        BundleError,
    >)
        ensures
            match removed {
                Ok(descriptor) => old(self)@.contains(server_id@) && descriptor == old(
                    self,
                )@.bundles[old(self)@.position(server_id@)],
                Err(e) => e == BundleError::NotFound && !old(self)@.contains(server_id@),
            },
            final(self)@ == old(self)@.removed(server_id@),
            final(self)@.wf(),
    {
        proof {
            use_type_invariant(&*self);
        }
        let ghost before = self@;
        match self.find(server_id) {
            Some(i) => {
                proof {
                    assert(before.id_at(server_id@, before.position(server_id@)));
                    lemma_without_wf(before, server_id@);
                }
                let wanted = server_id.to_owned();
                let mut taken = BundleState::new();
                core::mem::swap(self, &mut taken);
                let BundleState { bundles, activated_bundle } = taken;
                let mut bundles = bundles;
                let was_active = match &activated_bundle {
                    Some(bundle) => bundle.descriptor.metadata.server_id == wanted,
                    None => false,
                };
                let descriptor = bundles.remove(i);
                let activated_bundle = if was_active {
                    None
                } else {
                    activated_bundle
                };
                *self = BundleState { bundles, activated_bundle };
                Ok(descriptor)
            },
            None => Err(BundleError::NotFound),
        }
    }

    /// The registered packs, in the order of their registration.
    pub fn bundles(&self) -> (all: &Vec<BundleDescriptor>)
        ensures
            all@ == self@.bundles,
    {
        &self.bundles
    }

    /// The active pack.
    pub fn activated_bundle(&self) -> (active: Option<&Bundle>)
        ensures
            match active {
                Some(bundle) => self@.active == Some(*bundle),
                None => self@.active is None,
            },
    {
        self.activated_bundle.as_ref()
    }

    /// The identifier of the active pack.
    pub fn enabled_bundle_id(&self) -> (id: Option<String>)
        ensures
            match id {
                Some(id) => self@.active_id() == Some(id@),
                None => self@.active_id() is None,
            },
    {
        match &self.activated_bundle {
            Some(bundle) => Some(bundle.descriptor.metadata.server_id.clone()),
            None => None,
        }
    }

    /// The descriptor of the pack `server_id`, by which its services are loaded.
    pub fn descriptor(&self, server_id: &str) -> (found: Option<&BundleDescriptor>)
        ensures
            match found {
                Some(descriptor) => exists|i: int|
                    self@.id_at(server_id@, i) && *descriptor == self@.bundles[i],
                None => !self@.contains(server_id@),
            },
    {
        match self.find(server_id) {
            Some(i) => Some(&self.bundles[i]),
            None => None,
        }
    }

    /// Offers every directory of `candidates` to the catalog in turn. A
    /// directory that is not taken does not stop the scan; it is reported
    /// with the reason.
    pub fn scan(&mut self, candidates: Vec<PackCandidate>) -> (failures: Vec<ScanFailure>)
        ensures
            final(self)@ == scanned(old(self)@, candidates@),
            failures@ == scan_failures(old(self)@, candidates@),
            final(self)@.wf(),
    {
        let mut failures: Vec<ScanFailure> = Vec::new();
        let ghost start = self@;
        for candidate in it: candidates
            invariant
                it.seq() == candidates@,
                self@ == scanned(start, candidates@.take(it.index() as int)),
                failures@ == scan_failures(start, candidates@.take(it.index() as int)),
        {
            proof {
                assert(candidates@.take(it.index() + 1).drop_last() =~= candidates@.take(
                    it.index() as int,
                ));
            }
            let root = candidate.root.clone();
            if let Err(error) = self.add_bundle(candidate.root, candidate.manifest) {
                failures.push(ScanFailure { root, error });
            }
        }
        proof {
            use_type_invariant(&*self);
            assert(candidates@.take(candidates@.len() as int) =~= candidates@);
        }
        failures
    }

    /// Decides what to activate when the application starts, given the
    /// identifier that the settings remember. A remembered pack that is
    /// still registered is activated again; one that is gone is to be
    /// forgotten. No other pack is activated at startup.
    pub fn startup_plan(&self, remembered: Option<&str>) -> (plan: StartupPlan)
        ensures
            match plan.activate {
                Some(id) => remembered matches Some(r) && r@ == id@ && self@.contains(r@),
                None => remembered matches Some(r) ==> !self@.contains(r@),
            },
            text_of(plan.activate) == startup_choice(self@, text_of_str(remembered)),
            plan.clear_remembered == (remembered matches Some(r) && !self@.contains(r@)),
    {
        match remembered {
            Some(id) => {
                if self.find(id).is_some() {
                    StartupPlan { activate: Some(id.to_owned()), clear_remembered: false }
                } else {
                    StartupPlan { activate: None, clear_remembered: true }
                }
            },
            None => StartupPlan { activate: None, clear_remembered: false },
        }
    }
}

/// Taking a registered pack out keeps the catalog's invariant, and takes
/// out nothing else.
pub proof fn lemma_without_wf(v: CatalogView, id: Seq<char>)
    requires
        v.wf(),
        v.contains(id),
    ensures
        v.without(id).wf(),
        !v.without(id).contains(id),
        forall|other: Seq<char>| other != id ==> (v.without(id).contains(other) <==> v.contains(other)),
        forall|i: int| v.id_at(id, i) ==> v.position(id) == i,
{
    let p = v.position(id);
    let next = v.without(id);
    assert(v.id_at(id, p));
    assert forall|other: Seq<char>| other != id implies (next.contains(other) <==> v.contains(
        other,
    )) by {
        if next.contains(other) {
            let i = choose|i: int| next.id_at(other, i);
            if i < p {
                assert(v.id_at(other, i));
            } else {
                assert(v.id_at(other, i + 1));
            }
        }
        if v.contains(other) {
            let i = choose|i: int| v.id_at(other, i);
            if i < p {
                assert(next.id_at(other, i));
            } else {
                assert(next.id_at(other, i - 1));
            }
        }
    }
    assert(!next.contains(id)) by {
        if next.contains(id) {
            let i = choose|i: int| next.id_at(id, i);
            if i < p {
                assert(v.id_at(id, i));
            } else {
                assert(v.id_at(id, i + 1));
            }
        }
    }
    if next.active is Some {
        // The pack that stays active is another one than the pack taken out.
        let descriptor = next.active->0.descriptor;
        let k = choose|k: int| v.registered_at(descriptor, k);
        assert(v.registered_at(descriptor, k));
        assert(v.bundles[k].id() != id);
        if k < p {
            assert(next.registered_at(descriptor, k));
        } else {
            assert(next.registered_at(descriptor, k - 1));
        }
    }
}

/// Registering a pack under a new identifier keeps the catalog's invariant.
pub proof fn lemma_with_bundle_wf(v: CatalogView, descriptor: BundleDescriptor)
    requires
        v.wf(),
        !v.contains(descriptor.id()),
    ensures
        v.with_bundle(descriptor).wf(),
        v.with_bundle(descriptor).contains(descriptor.id()),
        v.with_bundle(descriptor).holds(descriptor),
        forall|id: Seq<char>| v.contains(id) ==> v.with_bundle(descriptor).contains(id),
{
    let next = v.with_bundle(descriptor);
    assert(next.id_at(descriptor.id(), v.bundles.len() as int));
    assert(next.registered_at(descriptor, v.bundles.len() as int));
    assert forall|id: Seq<char>| v.contains(id) implies next.contains(id) by {
        let i = choose|i: int| v.id_at(id, i);
        assert(next.id_at(id, i));
    }
    assert forall|i: int, j: int| 0 <= i < j < next.bundles.len() implies next.bundles[i].id()
        != next.bundles[j].id() by {
        if j == v.bundles.len() {
            assert(!v.id_at(descriptor.id(), i));
        }
    }
    if v.active is Some {
        let k = choose|k: int| v.registered_at(v.active->0.descriptor, k);
        assert(next.registered_at(v.active->0.descriptor, k));
    }
}

/// The pack that a sound catalog has active is one of its registered
/// packs: the catalog holds its identifier, and under it the directory and
/// the manifest that the pack was loaded from.
pub proof fn lemma_active_is_registered(v: CatalogView)
    requires
        v.wf(),
        v.active is Some,
    ensures
        v.contains(v.active->0.id()),
        v.bundles[v.position(v.active->0.id())].same(v.active->0.descriptor),
{
    let descriptor = v.active->0.descriptor;
    let k = choose|k: int| v.registered_at(descriptor, k);
    assert(v.id_at(descriptor.id(), k));
    let p = v.position(descriptor.id());
    assert(v.id_at(descriptor.id(), p));
    assert(p == k);
}

} // verus!
