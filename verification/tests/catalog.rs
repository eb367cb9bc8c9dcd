use eve_multitools::bundle::import::{ImportAction, ImportOutcome, ImportStage, ImportTask};
use eve_multitools::bundle::{
    bundle_directory, bundles_root, BundleDescriptor, BundleError, BundleGameInfo, BundleMetadata,
    BundleServerName, BundleState, ManifestRead, PackCandidate,
};
use eve_multitools::config::ConfigState;
use eve_multitools::data::bundle::{Bundle, LoadedServices};
use eve_multitools::data::esi::EsiService;
use eve_multitools::data::image::{ImageFolders, ImageService};
use eve_multitools::data::links::LinkService;
use eve_multitools::data::localization::npc_corporation_lookup::NpcCorporationLookup;
use eve_multitools::data::localization::type_lookup::TypeLookup;
use eve_multitools::data::localization::universe_lookup::UniverseLookup;
use eve_multitools::data::localization::{
    LocLanguage, LocString, LocalizationEntry, LocalizationService,
};
use eve_multitools::data::statics::categories::CategoriesService;
use eve_multitools::data::statics::groups::GroupsService;
use eve_multitools::data::statics::market_group::MarketGroupService;
use eve_multitools::data::statics::meta_groups::MetaGroupsService;
use eve_multitools::data::statics::StaticsService;

fn metadata(id: &str) -> BundleMetadata {
    BundleMetadata {
        server_id: id.to_string(),
        server_name: BundleServerName { en: format!("{id} server"), zh: format!("{id} 服务器") },
        created: 1_700_000_000_000,
        game_info: BundleGameInfo { version: "22.01".to_string(), build: "2564511".to_string() },
    }
}

fn manifest(id: &str) -> ManifestRead {
    ManifestRead::Parsed(metadata(id))
}

fn descriptor(id: &str, root: &str) -> BundleDescriptor {
    BundleDescriptor { metadata: metadata(id), root: root.to_string() }
}

fn localization(marker: &str) -> LocalizationService {
    LocalizationService::init(
        vec![LocalizationEntry {
            key: 1,
            text: LocString { en: marker.to_string(), zh: marker.to_string() },
        }],
        vec![],
        TypeLookup::new(vec![]),
        UniverseLookup::new(vec![], vec![], vec![]),
        NpcCorporationLookup::new(vec![]),
    )
}

fn services(root: &str, marker: &str) -> LoadedServices {
    let folders = ImageFolders { graphics: true, icons: true, skins: true, factions: true };
    LoadedServices {
        images: ImageService::init(root, folders).ok(),
        localization: Some(localization(marker)),
        statics: StaticsService::init(
            Some(CategoriesService::init(vec![])),
            Some(GroupsService::init(vec![])),
            Some(MarketGroupService::init(root, vec![])),
            Some(MetaGroupsService::init(vec![])),
        ),
        links: Some(LinkService::new(vec![])),
        esi: Some(EsiService::new(vec![])),
    }
}

fn loaded_from(id: &str, root: &str, marker: &str) -> Option<Bundle> {
    Bundle::load(descriptor(id, root), services(root, marker)).ok()
}

fn loaded(id: &str, marker: &str) -> Option<Bundle> {
    loaded_from(id, &format!("/packs/{id}"), marker)
}

fn ids(state: &BundleState) -> Vec<String> {
    state.bundles().iter().map(|d| d.metadata.server_id.clone()).collect()
}

fn marker(state: &BundleState) -> Option<String> {
    state
        .activated_bundle()
        .and_then(|b| b.localization.get_localization_by_language(1, LocLanguage::English))
}

#[test]
fn new_catalog_is_empty() {
    let state = BundleState::new();
    assert!(state.bundles().is_empty());
    assert!(state.activated_bundle().is_none());
    assert_eq!(state.enabled_bundle_id(), None);
}

#[test]
fn descriptor_from_manifest() {
    let d = BundleDescriptor::init("/packs/tq".to_string(), manifest("tq")).unwrap();
    assert_eq!(d.root, "/packs/tq");
    assert_eq!(d.metadata.server_id, "tq");
    assert_eq!(d.metadata.server_name.en, "tq server");
    assert_eq!(d.metadata.created, 1_700_000_000_000);
    assert_eq!(d.metadata.game_info.build, "2564511");
    assert_eq!(
        BundleDescriptor::init("/x".to_string(), ManifestRead::Missing).unwrap_err(),
        BundleError::ManifestMissing
    );
    assert_eq!(
        BundleDescriptor::init("/x".to_string(), ManifestRead::Malformed).unwrap_err(),
        BundleError::ManifestParseError
    );
    let copy = d.clone();
    assert_eq!(copy.root, d.root);
    assert_eq!(copy.metadata.server_name.zh, d.metadata.server_name.zh);
    assert_eq!(copy.metadata.game_info.version, "22.01");
}

#[test]
fn duplicate_identifier_is_refused() {
    let mut state = BundleState::new();
    assert_eq!(state.add_bundle("/packs/a".to_string(), manifest("tq")), Ok(true));
    assert_eq!(
        state.add_bundle("/packs/b".to_string(), manifest("tq")),
        Err(BundleError::DuplicateIdentifier)
    );
    assert_eq!(ids(&state), vec!["tq".to_string()]);
    assert_eq!(state.bundles()[0].root, "/packs/a");
}

#[test]
fn directory_without_manifest_is_refused() {
    let mut state = BundleState::new();
    assert_eq!(
        state.add_bundle("/packs/a".to_string(), ManifestRead::Missing),
        Err(BundleError::ManifestMissing)
    );
    assert_eq!(
        state.add_bundle("/packs/a".to_string(), ManifestRead::Malformed),
        Err(BundleError::ManifestParseError)
    );
    assert!(state.bundles().is_empty());
}

#[test]
fn first_pack_is_activated_and_second_is_not() {
    let mut state = BundleState::new();
    let first = state.add_bundle("/packs/tq".to_string(), manifest("tq"));
    assert_eq!(first, Ok(true));
    assert_eq!(state.activate_bundle("tq", loaded("tq", "first")), Ok(()));
    assert_eq!(state.enabled_bundle_id(), Some("tq".to_string()));
    let second = state.add_bundle("/packs/sr".to_string(), manifest("sr"));
    assert_eq!(second, Ok(false));
    assert_eq!(state.enabled_bundle_id(), Some("tq".to_string()));
    assert_eq!(ids(&state), vec!["tq".to_string(), "sr".to_string()]);
}

#[test]
fn pack_registered_while_none_is_active_but_others_exist_is_not_activated() {
    let mut state = BundleState::new();
    assert_eq!(state.add_bundle("/packs/tq".to_string(), manifest("tq")), Ok(true));
    assert_eq!(state.add_bundle("/packs/sr".to_string(), manifest("sr")), Ok(false));
    assert_eq!(state.enabled_bundle_id(), None);
}

#[test]
fn activation_of_unknown_pack_fails() {
    let mut state = BundleState::new();
    assert_eq!(state.activate_bundle("tq", loaded("tq", "x")), Err(BundleError::NotFound));
    assert_eq!(state.enabled_bundle_id(), None);
    assert_eq!(state.activate_bundle("tq", None), Err(BundleError::NotFound));
}

#[test]
fn failed_load_keeps_the_active_pack() {
    let mut state = BundleState::new();
    state.add_bundle("/packs/tq".to_string(), manifest("tq")).unwrap();
    state.add_bundle("/packs/sr".to_string(), manifest("sr")).unwrap();
    assert_eq!(state.activate_bundle("tq", loaded("tq", "tq data")), Ok(()));
    assert_eq!(state.activate_bundle("sr", None), Err(BundleError::IndexLoadError));
    assert_eq!(state.enabled_bundle_id(), Some("tq".to_string()));
    assert_eq!(marker(&state), Some("tq data".to_string()));
    // A loaded pack of another identifier is not what was asked for.
    assert_eq!(
        state.activate_bundle("sr", loaded("tq", "other")),
        Err(BundleError::IndexLoadError)
    );
    assert_eq!(marker(&state), Some("tq data".to_string()));
    assert_eq!(state.activate_bundle("sr", loaded("sr", "sr data")), Ok(()));
    assert_eq!(state.enabled_bundle_id(), Some("sr".to_string()));
    assert_eq!(marker(&state), Some("sr data".to_string()));
}

#[test]
fn reactivation_replaces_the_loaded_services() {
    let mut state = BundleState::new();
    state.add_bundle("/packs/tq".to_string(), manifest("tq")).unwrap();
    assert_eq!(state.activate_bundle("tq", loaded("tq", "first load")), Ok(()));
    assert_eq!(marker(&state), Some("first load".to_string()));
    assert_eq!(state.activate_bundle("tq", loaded("tq", "second load")), Ok(()));
    assert_eq!(state.enabled_bundle_id(), Some("tq".to_string()));
    assert_eq!(marker(&state), Some("second load".to_string()));
    assert_eq!(ids(&state), vec!["tq".to_string()]);
}

#[test]
fn removing_the_active_pack_clears_activation() {
    let mut state = BundleState::new();
    state.add_bundle("/packs/tq".to_string(), manifest("tq")).unwrap();
    state.add_bundle("/packs/sr".to_string(), manifest("sr")).unwrap();
    state.activate_bundle("tq", loaded("tq", "x")).unwrap();
    let removed = state.remove_bundle("tq").unwrap();
    assert_eq!(removed.root, "/packs/tq");
    assert_eq!(removed.metadata.server_id, "tq");
    assert_eq!(state.enabled_bundle_id(), None);
    assert!(state.activated_bundle().is_none());
    assert_eq!(ids(&state), vec!["sr".to_string()]);
}

#[test]
fn removing_another_pack_keeps_activation() {
    let mut state = BundleState::new();
    state.add_bundle("/packs/tq".to_string(), manifest("tq")).unwrap();
    state.add_bundle("/packs/sr".to_string(), manifest("sr")).unwrap();
    state.add_bundle("/packs/dev".to_string(), manifest("dev")).unwrap();
    state.activate_bundle("tq", loaded("tq", "kept")).unwrap();
    let removed = state.remove_bundle("sr").unwrap();
    assert_eq!(removed.root, "/packs/sr");
    assert_eq!(state.enabled_bundle_id(), Some("tq".to_string()));
    assert_eq!(marker(&state), Some("kept".to_string()));
    assert_eq!(ids(&state), vec!["tq".to_string(), "dev".to_string()]);
}

#[test]
fn removing_an_unknown_pack_changes_nothing() {
    let mut state = BundleState::new();
    state.add_bundle("/packs/tq".to_string(), manifest("tq")).unwrap();
    state.activate_bundle("tq", loaded("tq", "x")).unwrap();
    assert_eq!(state.remove_bundle("nope").unwrap_err(), BundleError::NotFound);
    assert_eq!(state.remove_bundle("").unwrap_err(), BundleError::NotFound);
    assert_eq!(ids(&state), vec!["tq".to_string()]);
    assert_eq!(state.enabled_bundle_id(), Some("tq".to_string()));
}

#[test]
fn removed_identifier_can_be_registered_again() {
    let mut state = BundleState::new();
    state.add_bundle("/packs/tq".to_string(), manifest("tq")).unwrap();
    state.remove_bundle("tq").unwrap();
    assert_eq!(state.add_bundle("/packs/tq2".to_string(), manifest("tq")), Ok(true));
    assert_eq!(state.bundles()[0].root, "/packs/tq2");
}

#[test]
fn two_distinct_packs_both_register_in_either_order() {
    let mut one = BundleState::new();
    assert!(one.add_bundle("/packs/a".to_string(), manifest("tq")).is_ok());
    assert!(one.add_bundle("/packs/b".to_string(), manifest("sr")).is_ok());
    let mut other = BundleState::new();
    assert!(other.add_bundle("/packs/b".to_string(), manifest("sr")).is_ok());
    assert!(other.add_bundle("/packs/a".to_string(), manifest("tq")).is_ok());
    let mut listed = ids(&one);
    listed.sort();
    let mut listed_other = ids(&other);
    listed_other.sort();
    assert_eq!(listed, vec!["sr".to_string(), "tq".to_string()]);
    assert_eq!(listed, listed_other);
}

#[test]
fn descriptor_lookup() {
    let mut state = BundleState::new();
    state.add_bundle("/packs/tq".to_string(), manifest("tq")).unwrap();
    assert_eq!(state.descriptor("tq").map(|d| d.root.clone()), Some("/packs/tq".to_string()));
    assert!(state.descriptor("sr").is_none());
}

#[test]
fn scan_skips_what_cannot_be_registered() {
    let mut state = BundleState::new();
    let failures = state.scan(vec![
        PackCandidate { root: "/packs/a".to_string(), manifest: manifest("tq") },
        PackCandidate { root: "/packs/broken".to_string(), manifest: ManifestRead::Malformed },
        PackCandidate { root: "/packs/b".to_string(), manifest: manifest("sr") },
        PackCandidate { root: "/packs/empty".to_string(), manifest: ManifestRead::Missing },
        PackCandidate { root: "/packs/copy".to_string(), manifest: manifest("tq") },
    ]);
    assert_eq!(ids(&state), vec!["tq".to_string(), "sr".to_string()]);
    let report: Vec<(String, BundleError)> =
        failures.into_iter().map(|f| (f.root, f.error)).collect();
    assert_eq!(
        report,
        vec![
            ("/packs/broken".to_string(), BundleError::ManifestParseError),
            ("/packs/empty".to_string(), BundleError::ManifestMissing),
            ("/packs/copy".to_string(), BundleError::DuplicateIdentifier),
        ]
    );
    assert_eq!(state.enabled_bundle_id(), None);
    assert!(BundleState::new().scan(vec![]).is_empty());
}

#[test]
fn startup_reactivates_the_remembered_pack() {
    let mut state = BundleState::new();
    state.add_bundle("/packs/tq".to_string(), manifest("tq")).unwrap();
    state.add_bundle("/packs/sr".to_string(), manifest("sr")).unwrap();
    let plan = state.startup_plan(Some("sr"));
    assert_eq!(plan.activate, Some("sr".to_string()));
    assert!(!plan.clear_remembered);
}

#[test]
fn startup_forgets_a_pack_that_is_gone() {
    let mut state = BundleState::new();
    state.add_bundle("/packs/tq".to_string(), manifest("tq")).unwrap();
    state.add_bundle("/packs/sr".to_string(), manifest("sr")).unwrap();
    let plan = state.startup_plan(Some("gone"));
    assert_eq!(plan.activate, None);
    assert!(plan.clear_remembered);
    let plan = BundleState::new().startup_plan(Some("gone"));
    assert_eq!(plan.activate, None);
    assert!(plan.clear_remembered);
}

#[test]
fn startup_activates_nothing_that_is_not_remembered() {
    let mut state = BundleState::new();
    state.add_bundle("/packs/tq".to_string(), manifest("tq")).unwrap();
    let plan = state.startup_plan(None);
    assert_eq!(plan.activate, None);
    assert!(!plan.clear_remembered);
    let plan = state.startup_plan(Some("gone"));
    assert_eq!(plan.activate, None);
    assert!(plan.clear_remembered);
    state.add_bundle("/packs/sr".to_string(), manifest("sr")).unwrap();
    assert_eq!(state.startup_plan(None).activate, None);
    assert_eq!(BundleState::new().startup_plan(None).activate, None);
    assert!(!BundleState::new().startup_plan(None).clear_remembered);
}

#[test]
fn startup_with_one_pack_and_a_remembered_pack_that_is_gone() {
    // One directory with a valid manifest, one without; the settings remember a third pack.
    let mut state = BundleState::new();
    let mut config = ConfigState::new();
    config.set_enabled_bundle_id(Some("z".to_string()));
    let failures = state.scan(vec![
        PackCandidate { root: "/data/bundle/a".to_string(), manifest: manifest("x") },
        PackCandidate { root: "/data/bundle/b".to_string(), manifest: ManifestRead::Missing },
    ]);
    assert_eq!(failures.len(), 1);
    assert_eq!(failures[0].root, "/data/bundle/b");
    assert_eq!(failures[0].error, BundleError::ManifestMissing);
    let plan = state.startup_plan(config.global_settings.enabled_bundle_id.as_deref());
    assert_eq!(plan.activate, None);
    assert!(plan.clear_remembered);
    config.set_enabled_bundle_id(state.enabled_bundle_id());
    assert_eq!(ids(&state), vec!["x".to_string()]);
    assert!(state.activated_bundle().is_none());
    assert_eq!(config.global_settings.enabled_bundle_id, None);

    // Had the settings remembered the pack that is there, it would be activated and kept.
    config.set_enabled_bundle_id(Some("x".to_string()));
    let plan = state.startup_plan(config.global_settings.enabled_bundle_id.as_deref());
    assert_eq!(plan.activate, Some("x".to_string()));
    assert!(!plan.clear_remembered);
    assert_eq!(state.activate_bundle("x", loaded_from("x", "/data/bundle/a", "x texts")), Ok(()));
    config.set_enabled_bundle_id(state.enabled_bundle_id());
    assert_eq!(config.global_settings.enabled_bundle_id, Some("x".to_string()));
}

#[test]
fn loading_is_all_or_nothing() {
    let root = "/packs/tq";
    assert!(Bundle::load(descriptor("tq", root), services(root, "x")).is_ok());
    let mut without_localization = services(root, "x");
    without_localization.localization = None;
    assert_eq!(
        Bundle::load(descriptor("tq", root), without_localization).err(),
        Some(BundleError::IndexLoadError)
    );
    let mut without_images = services(root, "x");
    without_images.images = None;
    assert_eq!(
        Bundle::load(descriptor("tq", root), without_images).err(),
        Some(BundleError::IndexLoadError)
    );
    let mut without_statics = services(root, "x");
    without_statics.statics = None;
    assert!(Bundle::load(descriptor("tq", root), without_statics).is_err());
    let mut without_links = services(root, "x");
    without_links.links = None;
    assert!(Bundle::load(descriptor("tq", root), without_links).is_err());
    let mut without_esi = services(root, "x");
    without_esi.esi = None;
    assert!(Bundle::load(descriptor("tq", root), without_esi).is_err());
    let bundle = Bundle::load(descriptor("tq", root), services(root, "x")).unwrap();
    assert_eq!(bundle.descriptor.root, root);
    assert_eq!(bundle.images.icon.get_path(7), "/packs/tq/images/icons/7.png");
}

#[test]
fn directories_of_the_packs() {
    assert_eq!(bundles_root("/data"), "/data/bundle");
    assert_eq!(bundle_directory("/data", "tranquility"), "/data/bundle/tranquility");
    assert_eq!(BundleDescriptor::manifest_path("/data/bundle/tq"), "/data/bundle/tq/bundle.descriptor");
    assert_eq!(ConfigState::file_in("/data"), "/data/config.json");
}

#[test]
fn life_of_a_pack() {
    // Startup on an empty data directory: nothing to activate, nothing to forget.
    let mut catalog = BundleState::new();
    let mut config = ConfigState::new();
    assert!(catalog.scan(vec![]).is_empty());
    let plan = catalog.startup_plan(config.global_settings.enabled_bundle_id.as_deref());
    assert_eq!(plan.activate, None);
    assert!(!plan.clear_remembered);

    // The first import registers the pack and asks for its activation.
    let (mut task, _) = ImportTask::start(Some("tq".to_string()));
    let root = bundle_directory("/data", task.bundle_name());
    let mut activate = false;
    while let Some(action) = task.pending() {
        match action {
            ImportAction::CheckTarget => {
                task.step(ImportOutcome::TargetChecked { exists: false });
            }
            ImportAction::OpenArchive => {
                task.step(ImportOutcome::ArchiveOpened { entries: 4 });
            }
            ImportAction::CreateDirectory => {
                task.step(ImportOutcome::DirectoryCreated);
            }
            ImportAction::ExtractEntry(_) => {
                task.step(ImportOutcome::EntryExtracted);
            }
            ImportAction::Register => {
                activate = task.register(&mut catalog, root.clone(), manifest("tq")).1;
            }
        }
    }
    assert_eq!(task.stage(), ImportStage::Complete);
    assert!(activate);
    assert_eq!(catalog.activate_bundle("tq", loaded_from("tq", &root, "tq texts")), Ok(()));
    config.set_enabled_bundle_id(catalog.enabled_bundle_id());
    assert_eq!(config.global_settings.enabled_bundle_id, Some("tq".to_string()));

    // The next startup finds the pack and activates it again.
    let mut restarted = BundleState::new();
    let failures = restarted
        .scan(vec![PackCandidate { root: root.clone(), manifest: manifest("tq") }]);
    assert!(failures.is_empty());
    let plan = restarted.startup_plan(config.global_settings.enabled_bundle_id.as_deref());
    assert_eq!(plan.activate, Some("tq".to_string()));
    assert!(!plan.clear_remembered);
    assert_eq!(restarted.activate_bundle("tq", loaded_from("tq", &root, "tq texts")), Ok(()));
    assert_eq!(marker(&restarted), Some("tq texts".to_string()));

    // Removing it leaves nothing active and nothing to remember.
    let removed = restarted.remove_bundle("tq").unwrap();
    assert_eq!(removed.root, "/data/bundle/tq");
    config.set_enabled_bundle_id(restarted.enabled_bundle_id());
    assert_eq!(config.global_settings.enabled_bundle_id, None);
    assert!(restarted.bundles().is_empty());
}

#[test]
fn pack_loaded_from_another_directory_is_not_activated() {
    let mut state = BundleState::new();
    state.add_bundle("/packs/tq".to_string(), manifest("tq")).unwrap();
    state.add_bundle("/packs/sr".to_string(), manifest("sr")).unwrap();
    assert_eq!(state.activate_bundle("tq", loaded("tq", "registered")), Ok(()));
    // The same identifier, loaded from a directory that the catalog does not hold.
    assert_eq!(
        state.activate_bundle("tq", loaded_from("tq", "/elsewhere/tq", "stray")),
        Err(BundleError::IndexLoadError)
    );
    assert_eq!(
        state.activate_bundle("sr", loaded_from("sr", "/packs/tq", "stray")),
        Err(BundleError::IndexLoadError)
    );
    assert_eq!(marker(&state), Some("registered".to_string()));
    // The registered directory with another manifest than the catalog holds.
    let mut other = descriptor("tq", "/packs/tq");
    other.metadata.game_info.build = "1".to_string();
    let stray = Bundle::load(other, services("/packs/tq", "stray")).ok();
    assert_eq!(state.activate_bundle("tq", stray), Err(BundleError::IndexLoadError));
    assert_eq!(marker(&state), Some("registered".to_string()));
    assert_eq!(state.enabled_bundle_id(), Some("tq".to_string()));
    let active = state.activated_bundle().unwrap();
    assert!(active.descriptor.same_as(&state.bundles()[0]));
}

#[test]
fn descriptors_of_the_same_pack() {
    let a = descriptor("tq", "/packs/tq");
    assert!(a.same_as(&descriptor("tq", "/packs/tq")));
    assert!(a.same_as(&a.clone()));
    assert!(!a.same_as(&descriptor("tq", "/packs/other")));
    assert!(!a.same_as(&descriptor("sr", "/packs/tq")));
    for change in 0..5 {
        let mut b = descriptor("tq", "/packs/tq");
        match change {
            0 => b.metadata.server_name.en.push('x'),
            1 => b.metadata.server_name.zh.push('x'),
            2 => b.metadata.created += 1,
            3 => b.metadata.game_info.version.push('x'),
            _ => b.metadata.game_info.build.push('x'),
        }
        assert!(!a.same_as(&b));
        assert!(!b.same_as(&a));
    }
}
