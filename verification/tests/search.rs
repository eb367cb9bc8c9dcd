use eve_multitools::data::localization::index::{LookupEntry, LookupIndex};
use eve_multitools::data::localization::npc_corporation_lookup::NpcCorporationLookup;
use eve_multitools::data::localization::search::{
    collect_candidates, identifiers, rank_all, rank_top, score, search_located, search_ranked,
    Scoring, SearchField,
};
use eve_multitools::data::localization::type_lookup::TypeLookup;
use eve_multitools::data::localization::universe_lookup::UniverseLookup;
use eve_multitools::data::localization::{
    EntityKind, LocLanguage, LocString, LocalizationEntry, LocalizationService,
    UiLocalizationEntry,
};
use std::collections::HashMap;

fn loc(en: &str, zh: &str) -> LocString {
    LocString { en: en.to_string(), zh: zh.to_string() }
}

fn entry(id: i32, name_id: u32, description_id: Option<u32>) -> LookupEntry {
    LookupEntry { id, name_id, description_id }
}

fn text(key: u32, en: &str, zh: &str) -> LocalizationEntry {
    LocalizationEntry { key, text: loc(en, zh) }
}

/// Types 1 Tritanium, 2 Megacyte, 3 Pyerite (with descriptions), regions,
/// constellations, systems and corporations of a small universe.
fn minerals() -> LocalizationService {
    let localizations = vec![
        text(101, "Tritanium", "三钛合金"),
        text(102, "Megacyte", "超噬矿"),
        text(103, "Pyerite", "类晶体胶矿"),
        text(201, "The most common ore type", "最常见的矿石"),
        text(203, "A soft crystal-like mineral", "柔软的晶体矿物"),
        text(301, "The Forge", "伏尔戈"),
        text(302, "Forgotten Reach", "遗忘之域"),
        text(401, "Kimotoro", "基摩托罗"),
        text(501, "Jita", "吉他"),
        text(502, "New Jita Outpost", "新吉他前哨"),
        text(601, "Caldari Navy", "加达里海军"),
        text(602, "Navy of Caldari Prime", "加达里首星海军"),
    ];
    let ui = vec![
        UiLocalizationEntry { key: "ui.title".to_string(), message_id: 101 },
        UiLocalizationEntry { key: "ui.missing".to_string(), message_id: 999 },
        UiLocalizationEntry { key: "ui.title".to_string(), message_id: 103 },
    ];
    let types = TypeLookup::new(vec![
        entry(1, 101, Some(201)),
        entry(2, 102, None),
        entry(3, 103, Some(203)),
        entry(4, 777, Some(778)),
    ]);
    let universe = UniverseLookup::new(
        vec![entry(10000002, 301, None), entry(10000003, 302, None)],
        vec![entry(20000020, 401, None)],
        vec![entry(30000142, 501, None), entry(30000143, 502, None)],
    );
    let corporations = NpcCorporationLookup::new(vec![
        entry(1000035, 602, None),
        entry(1000036, 601, None),
    ]);
    LocalizationService::init(localizations, ui, types, universe, corporations)
}

#[test]
fn empty_query_finds_nothing_for_any_kind() {
    let service = minerals();
    assert_eq!(service.search_type_by_name("", LocLanguage::English, 10), Vec::<i32>::new());
    assert_eq!(service.search_type_by_description("", LocLanguage::English, 10), Vec::<i32>::new());
    assert_eq!(
        service.search_npc_corporation_by_name("", LocLanguage::English, 10),
        Vec::<i32>::new()
    );
    assert_eq!(service.search_region_by_name("", LocLanguage::English), vec![]);
    assert_eq!(service.search_constellation_by_name("", LocLanguage::Chinese), vec![]);
    assert_eq!(service.search_system_by_name("", LocLanguage::English), vec![]);
    for kind in [
        EntityKind::Type,
        EntityKind::Region,
        EntityKind::Constellation,
        EntityKind::System,
        EntityKind::NpcCorporation,
    ] {
        assert_eq!(
            service.search(kind, SearchField::Name, "", LocLanguage::English, 10),
            Vec::<i32>::new()
        );
        assert_eq!(
            service.search(kind, SearchField::Description, "", LocLanguage::Chinese, 10),
            Vec::<i32>::new()
        );
    }
}

#[test]
fn blank_query_finds_nothing() {
    let service = minerals();
    assert_eq!(service.search_type_by_name("   ", LocLanguage::English, 10), Vec::<i32>::new());
    assert_eq!(service.search_type_by_name(" \t\n", LocLanguage::English, 10), Vec::<i32>::new());
    assert_eq!(service.search_region_by_name("\u{3000}", LocLanguage::English), vec![]);
}

#[test]
fn search_ite_finds_pyerite_only() {
    let service = minerals();
    let found = service.search_type_by_name("ite", LocLanguage::English, 10);
    assert!(found.contains(&3));
    assert!(!found.contains(&2));
    assert_eq!(found, vec![3]);
}

#[test]
fn exact_match_ranks_first() {
    let localizations = vec![
        text(1, "Megacyte Ore", ""),
        text(2, "Compressed Megacyte", ""),
        text(3, "Megacyte", ""),
        text(4, "Pyerite", ""),
    ];
    let types = TypeLookup::new(vec![
        entry(11, 1, None),
        entry(12, 2, None),
        entry(13, 3, None),
        entry(14, 4, None),
    ]);
    let service = LocalizationService::init(
        localizations,
        vec![],
        types,
        UniverseLookup::new(vec![], vec![], vec![]),
        NpcCorporationLookup::new(vec![]),
    );
    // Distances to "megacyte": 4 ("megacyte ore"), 11 ("compressed megacyte"), 0.
    let found = service.search_type_by_name("megacyte", LocLanguage::English, 10);
    assert_eq!(found, vec![13, 11, 12]);
    assert_eq!(service.search_type_by_name("megacyte", LocLanguage::English, 1), vec![13]);
}

#[test]
fn search_ignores_case_and_surrounding_whitespace() {
    let service = minerals();
    assert_eq!(service.search_type_by_name("  PYERITE \n", LocLanguage::English, 5), vec![3]);
    assert_eq!(service.search_type_by_name("tRiTaN", LocLanguage::English, 5), vec![1]);
    assert_eq!(service.search_type_by_name("Ａ", LocLanguage::English, 5), Vec::<i32>::new());
}

#[test]
fn search_uses_the_requested_language() {
    let service = minerals();
    assert_eq!(service.search_type_by_name("矿", LocLanguage::Chinese, 5), vec![2, 3]);
    assert_eq!(service.search_type_by_name("矿", LocLanguage::English, 5), Vec::<i32>::new());
    assert_eq!(service.search_type_by_name("pyerite", LocLanguage::Chinese, 5), Vec::<i32>::new());
}

#[test]
fn search_ranks_by_edit_distance() {
    let service = minerals();
    // "caldari navy" is the query itself; "navy of caldari prime" is 15 edits away from "navy".
    let found = service.search_npc_corporation_by_name("navy", LocLanguage::English, 10);
    assert_eq!(found, vec![1000036, 1000035]);
    let found = service.search_npc_corporation_by_name("Caldari Navy", LocLanguage::English, 10);
    assert_eq!(found, vec![1000036]);
}

#[test]
fn search_keeps_index_order_among_equal_scores() {
    let localizations = vec![text(1, "ab1", ""), text(2, "ab2", ""), text(3, "ab", ""), text(4, "ab3", "")];
    let types = TypeLookup::new(vec![
        entry(40, 4, None),
        entry(10, 1, None),
        entry(30, 3, None),
        entry(20, 2, None),
    ]);
    let service = LocalizationService::init(
        localizations,
        vec![],
        types,
        UniverseLookup::new(vec![], vec![], vec![]),
        NpcCorporationLookup::new(vec![]),
    );
    assert_eq!(service.search_type_by_name("ab", LocLanguage::English, 10), vec![30, 40, 10, 20]);
    assert_eq!(service.search_type_by_name("ab", LocLanguage::English, 3), vec![30, 40, 10]);
    assert_eq!(service.search_type_by_name("ab", LocLanguage::English, 2), vec![30, 40]);
}

#[test]
fn search_truncates_to_limit() {
    let service = minerals();
    assert_eq!(service.search_type_by_name("e", LocLanguage::English, 0), Vec::<i32>::new());
    assert_eq!(service.search_type_by_name("e", LocLanguage::English, 1).len(), 1);
    // "megacyte" (8) and "pyerite" (7) contain "e"; "pyerite" is nearer.
    assert_eq!(service.search_type_by_name("e", LocLanguage::English, 1), vec![3]);
    assert_eq!(service.search_type_by_name("e", LocLanguage::English, 2), vec![3, 2]);
    assert_eq!(service.search_type_by_name("e", LocLanguage::English, 200), vec![3, 2]);
}

#[test]
fn search_by_description_skips_types_without_one() {
    let service = minerals();
    assert_eq!(service.search_type_by_description("mineral", LocLanguage::English, 10), vec![3]);
    assert_eq!(service.search_type_by_description("e", LocLanguage::English, 10), vec![1, 3]);
    assert_eq!(service.search_type_by_description("矿", LocLanguage::Chinese, 10), vec![1, 3]);
}

#[test]
fn search_skips_entities_without_localization() {
    let service = minerals();
    // Type 4 names the keys 777 and 778, which the store does not hold.
    let all = service.search_type_by_name("t", LocLanguage::English, 10);
    assert!(!all.contains(&4));
    assert_eq!(service.get_localization(777).map(|l| l.en), None);
}

#[test]
fn search_by_position_reports_byte_offsets() {
    let service = minerals();
    // "forgotten reach" begins with the query; "the forge" holds it at byte 4.
    assert_eq!(
        service.search_region_by_name("for", LocLanguage::English),
        vec![(10000003, 0), (10000002, 4)]
    );
    assert_eq!(
        service.search_system_by_name(" JITA ", LocLanguage::English),
        vec![(30000142, 0), (30000143, 4)]
    );
    assert_eq!(
        service.search_constellation_by_name("moto", LocLanguage::English),
        vec![(20000020, 2)]
    );
    assert_eq!(service.search_constellation_by_name("jita", LocLanguage::English), vec![]);
    // Each Chinese character takes three bytes.
    assert_eq!(service.search_system_by_name("他", LocLanguage::Chinese), vec![(30000142, 3), (30000143, 6)]);
}

#[test]
fn search_by_position_puts_the_earliest_occurrence_first() {
    let names = ["Outer Ring", "Ring of Fire", "The Ring", "Ringworld", "Syndicate", "A Ring"];
    let localizations =
        names.iter().enumerate().map(|(i, name)| text(i as u32, name, name)).collect();
    let entries: Vec<LookupEntry> =
        (0..names.len()).map(|i| entry(100 + i as i32, i as u32, None)).collect();
    let service = LocalizationService::init(
        localizations,
        vec![],
        TypeLookup::new(vec![]),
        UniverseLookup::new(entries.clone(), entries.clone(), entries),
        NpcCorporationLookup::new(vec![]),
    );
    // Positions of "ring": 6, 0, 4, 0, none, 2. Equal positions keep the order of the index.
    let expected = vec![(101, 0), (103, 0), (105, 2), (102, 4), (100, 6)];
    assert_eq!(service.search_region_by_name("ring", LocLanguage::English), expected);
    assert_eq!(service.search_constellation_by_name("RING", LocLanguage::Chinese), expected);
    assert_eq!(service.search_system_by_name(" Ring ", LocLanguage::English), expected);
    let found = service.search_region_by_name("i", LocLanguage::English);
    assert_eq!(found.len(), 6);
    assert!(found.windows(2).all(|pair| pair[0].1 <= pair[1].1));
}

#[test]
fn rank_all_is_a_stable_sort() {
    assert_eq!(rank_all(&vec![(1, 5), (2, 0)]), vec![(2, 0), (1, 5)]);
    assert_eq!(rank_all(&vec![(1, 3), (2, 1), (3, 3), (4, 1)]), vec![(2, 1), (4, 1), (1, 3), (3, 3)]);
    assert_eq!(rank_all(&vec![]), vec![]);
    let mut found: Vec<(i32, usize)> = Vec::new();
    let mut seed: u64 = 99;
    for id in 0..300 {
        seed = seed.wrapping_mul(6364136223846793005).wrapping_add(1442695040888963407);
        found.push((id, ((seed >> 33) % 11) as usize));
    }
    let mut expected = found.clone();
    expected.sort_by_key(|c| c.1);
    assert_eq!(rank_all(&found), expected);
}

#[test]
fn generic_search_agrees_with_the_named_ones() {
    let service = minerals();
    assert_eq!(
        service.search(EntityKind::Type, SearchField::Name, "ite", LocLanguage::English, 10),
        service.search_type_by_name("ite", LocLanguage::English, 10)
    );
    assert_eq!(
        service.search(EntityKind::Type, SearchField::Description, "ore", LocLanguage::English, 10),
        service.search_type_by_description("ore", LocLanguage::English, 10)
    );
    assert_eq!(
        service.search(
            EntityKind::NpcCorporation,
            SearchField::Name,
            "navy",
            LocLanguage::English,
            10
        ),
        service.search_npc_corporation_by_name("navy", LocLanguage::English, 10)
    );
    assert_eq!(
        service.search(EntityKind::Region, SearchField::Name, "for", LocLanguage::English, 10),
        vec![10000002, 10000003]
    );
    assert_eq!(
        service.search(EntityKind::System, SearchField::Name, "jita", LocLanguage::English, 10),
        vec![30000142, 30000143]
    );
    assert_eq!(
        service.search(
            EntityKind::Constellation,
            SearchField::Name,
            "kimotoro",
            LocLanguage::English,
            10
        ),
        vec![20000020]
    );
    assert_eq!(
        service.search(
            EntityKind::Constellation,
            SearchField::Description,
            "kimotoro",
            LocLanguage::English,
            10
        ),
        Vec::<i32>::new()
    );
}

#[test]
fn rank_top_is_a_stable_sort_cut_to_the_limit() {
    let found = vec![(1, 5), (2, 3), (3, 5), (4, 0), (5, 3), (6, 9)];
    assert_eq!(rank_top(&found, 10), vec![(4, 0), (2, 3), (5, 3), (1, 5), (3, 5), (6, 9)]);
    assert_eq!(rank_top(&found, 6), vec![(4, 0), (2, 3), (5, 3), (1, 5), (3, 5), (6, 9)]);
    assert_eq!(rank_top(&found, 4), vec![(4, 0), (2, 3), (5, 3), (1, 5)]);
    assert_eq!(rank_top(&found, 1), vec![(4, 0)]);
    assert_eq!(rank_top(&found, 0), vec![]);
    assert_eq!(rank_top(&vec![], 3), vec![]);
}

#[test]
fn rank_top_agrees_with_a_stable_sort() {
    let mut found: Vec<(i32, usize)> = Vec::new();
    let mut seed: u64 = 12345;
    for id in 0..500 {
        seed = seed.wrapping_mul(6364136223846793005).wrapping_add(1442695040888963407);
        found.push((id, ((seed >> 33) % 17) as usize));
    }
    let mut expected = found.clone();
    expected.sort_by_key(|c| c.1);
    for limit in [0usize, 1, 2, 16, 17, 100, 499, 500, 501, 10000] {
        let mut cut = expected.clone();
        cut.truncate(limit);
        assert_eq!(rank_top(&found, limit), cut);
    }
}

#[test]
fn identifiers_keeps_the_order() {
    assert_eq!(identifiers(&vec![(7, 1), (3, 2), (7, 9)]), vec![7, 3, 7]);
    assert_eq!(identifiers(&vec![]), Vec::<i32>::new());
}

#[test]
fn collect_candidates_scores_by_distance_or_position() {
    let index = LookupIndex::new(vec![entry(1, 1, Some(2)), entry(2, 3, None), entry(3, 9, None)]);
    let mut store: HashMap<u32, LocString> = HashMap::new();
    store.insert(1, loc("Kitten", "小猫"));
    store.insert(2, loc("Sitting kitten", ""));
    store.insert(3, loc("Smitten", ""));
    let by_distance = collect_candidates(
        &index,
        &store,
        SearchField::Name,
        LocLanguage::English,
        "itten",
        Scoring::Distance,
    );
    assert_eq!(by_distance, vec![(1, 1), (2, 2)]);
    let by_position = collect_candidates(
        &index,
        &store,
        SearchField::Name,
        LocLanguage::English,
        "itten",
        Scoring::Position,
    );
    assert_eq!(by_position, vec![(1, 1), (2, 2)]);
    let descriptions = collect_candidates(
        &index,
        &store,
        SearchField::Description,
        LocLanguage::English,
        "kitten",
        Scoring::Distance,
    );
    // "sitting kitten" needs eight insertions before "kitten".
    assert_eq!(descriptions, vec![(1, 8)]);
    let positions = collect_candidates(
        &index,
        &store,
        SearchField::Description,
        LocLanguage::English,
        "kitten",
        Scoring::Position,
    );
    assert_eq!(positions, vec![(1, 8)]);
    let chinese = collect_candidates(
        &index,
        &store,
        SearchField::Name,
        LocLanguage::Chinese,
        "猫",
        Scoring::Position,
    );
    assert_eq!(chinese, vec![(1, 3)]);
}

#[test]
fn edit_distance_of_known_pairs() {
    // The classic pair: kitten -> sitting takes three edits.
    let index = LookupIndex::new(vec![entry(1, 1, None)]);
    let mut store: HashMap<u32, LocString> = HashMap::new();
    store.insert(1, loc("sitting", ""));
    let found = collect_candidates(
        &index,
        &store,
        SearchField::Name,
        LocLanguage::English,
        "sitting",
        Scoring::Distance,
    );
    assert_eq!(found, vec![(1, 0)]);
    let found = collect_candidates(
        &index,
        &store,
        SearchField::Name,
        LocLanguage::English,
        "itt",
        Scoring::Distance,
    );
    assert_eq!(found, vec![(1, 4)]);
}

#[test]
fn search_functions_on_an_index() {
    let index = LookupIndex::new(vec![entry(5, 1, None), entry(6, 2, None), entry(7, 3, None)]);
    let mut store: HashMap<u32, LocString> = HashMap::new();
    store.insert(1, loc("Alpha Station", ""));
    store.insert(2, loc("Station", ""));
    store.insert(3, loc("Beta", ""));
    assert_eq!(
        search_ranked(&index, &store, SearchField::Name, LocLanguage::English, "station", 5),
        vec![6, 5]
    );
    assert_eq!(
        search_located(&index, &store, LocLanguage::English, "STATION"),
        vec![(6, 0), (5, 6)]
    );
    assert_eq!(
        search_ranked(&index, &store, SearchField::Name, LocLanguage::English, "  ", 5),
        Vec::<i32>::new()
    );
}

#[test]
fn lookup_index_keeps_first_place_and_last_data() {
    let index = LookupIndex::new(vec![
        entry(1, 10, None),
        entry(2, 20, Some(21)),
        entry(1, 11, Some(12)),
        entry(3, 30, None),
        entry(2, 22, None),
    ]);
    assert_eq!(index.len(), 3);
    let ids: Vec<i32> = index.entries().iter().map(|e| e.id).collect();
    assert_eq!(ids, vec![1, 2, 3]);
    assert_eq!(index.entry(0).name_id, 11);
    assert_eq!(index.entry(0).description_id, Some(12));
    assert_eq!(index.entry(1).name_id, 22);
    assert_eq!(index.entry(1).description_id, None);
    assert_eq!(index.entry(2).name_id, 30);
    assert_eq!(LookupIndex::new(vec![]).len(), 0);
}

#[test]
fn lookups_expose_their_indexes() {
    let types = TypeLookup::new(vec![entry(1, 1, None), entry(1, 2, None)]);
    assert_eq!(types.index().len(), 1);
    assert_eq!(types.index().entry(0).name_id, 2);
    let corporations = NpcCorporationLookup::new(vec![entry(9, 1, None)]);
    assert_eq!(corporations.index().len(), 1);
    let universe = UniverseLookup::new(
        vec![entry(1, 1, None)],
        vec![entry(2, 2, None), entry(3, 3, None)],
        vec![],
    );
    assert_eq!(universe.region_index().len(), 1);
    assert_eq!(universe.constellation_index().len(), 2);
    assert_eq!(universe.system_index().len(), 0);
}

#[test]
fn localization_store_lookups() {
    let service = minerals();
    let tritanium = service.get_localization(101).expect("the store holds key 101");
    assert_eq!(tritanium.en, "Tritanium");
    assert_eq!(tritanium.zh, "三钛合金");
    assert!(service.get_localization(9999).is_none());
    assert_eq!(
        service.get_localization_by_language(102, LocLanguage::English),
        Some("Megacyte".to_string())
    );
    assert_eq!(
        service.get_localization_by_language(102, LocLanguage::Chinese),
        Some("超噬矿".to_string())
    );
    assert_eq!(service.get_localization_by_language(9999, LocLanguage::Chinese), None);
}

#[test]
fn localization_store_keeps_the_last_text_of_a_key() {
    let service = LocalizationService::init(
        vec![text(1, "first", "一"), text(2, "other", "二"), text(1, "last", "三")],
        vec![],
        TypeLookup::new(vec![]),
        UniverseLookup::new(vec![], vec![], vec![]),
        NpcCorporationLookup::new(vec![]),
    );
    assert_eq!(service.get_localization_by_language(1, LocLanguage::English), Some("last".to_string()));
    assert_eq!(service.get_localization_by_language(2, LocLanguage::Chinese), Some("二".to_string()));
    assert_eq!(service.localizations().len(), 2);
}

#[test]
fn interface_messages_resolve_through_the_store() {
    let service = minerals();
    // The last entry named "ui.title" counts.
    assert_eq!(service.ui_message_id("ui.title"), Some(103));
    assert_eq!(service.ui_message_id("ui.none"), None);
    assert_eq!(
        service.get_ui_localization_by_language("ui.title", LocLanguage::English),
        Some("Pyerite".to_string())
    );
    assert_eq!(service.get_ui_localization_by_language("ui.missing", LocLanguage::English), None);
    assert_eq!(service.get_ui_localization_by_language("ui.none", LocLanguage::English), None);
}

#[test]
fn service_exposes_its_lookups() {
    let service = minerals();
    assert_eq!(service.type_lookup().index().len(), 4);
    assert_eq!(service.universe_lookup().region_index().len(), 2);
    assert_eq!(service.npc_corporation_lookup().index().len(), 2);
    assert_eq!(service.index_of(EntityKind::System).len(), 2);
    assert_eq!(service.index_of(EntityKind::Constellation).len(), 1);
    assert_eq!(loc("a", "b").clone().zh, "b");
}

#[test]
fn score_by_distance_and_by_position() {
    assert_eq!(score("pyerite", "ite", Scoring::Distance), Some(4));
    assert_eq!(score("pyerite", "ite", Scoring::Position), Some(4));
    assert_eq!(score("megacyte", "megacyte", Scoring::Distance), Some(0));
    assert_eq!(score("megacyte", "megacyte", Scoring::Position), Some(0));
    assert_eq!(score("megacyte", "ite", Scoring::Distance), None);
    assert_eq!(score("megacyte", "ite", Scoring::Position), None);
    assert_eq!(score("tritanium", "i", Scoring::Distance), Some(8));
    assert_eq!(score("tritanium", "i", Scoring::Position), Some(2));
    assert_eq!(score("超噬矿", "矿", Scoring::Distance), Some(2));
    assert_eq!(score("超噬矿", "矿", Scoring::Position), Some(6));
    assert_eq!(score("", "a", Scoring::Distance), None);
    assert_eq!(score("abc", "", Scoring::Distance), Some(3));
    assert_eq!(score("abc", "", Scoring::Position), Some(0));
    // The text is taken as it is: case counts here.
    assert_eq!(score("Pyerite", "pye", Scoring::Distance), None);
}

#[test]
fn search_never_returns_an_entity_twice() {
    let service = minerals();
    for query in ["e", "t", "i", "a", "矿"] {
        for language in [LocLanguage::English, LocLanguage::Chinese] {
            let mut found = service.search_type_by_name(query, language, 100);
            let all = found.len();
            found.sort();
            found.dedup();
            assert_eq!(found.len(), all);
        }
    }
}

#[test]
fn search_by_position_never_returns_an_entity_twice() {
    let service = minerals();
    for query in ["a", "e", "i", "o", "t", "for", "他"] {
        for language in [LocLanguage::English, LocLanguage::Chinese] {
            for found in [
                service.search_region_by_name(query, language),
                service.search_constellation_by_name(query, language),
                service.search_system_by_name(query, language),
            ] {
                let mut ids: Vec<i32> = found.iter().map(|c| c.0).collect();
                let all = ids.len();
                ids.sort();
                ids.dedup();
                assert_eq!(ids.len(), all);
            }
        }
    }
}
