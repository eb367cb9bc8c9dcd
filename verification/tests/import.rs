use eve_multitools::bundle::import::{
    extraction_progress_of, BundleImportEvent, ImportAction, ImportErrorType, ImportOutcome,
    ImportProgress, ImportResult, ImportStage, ImportTask, MessageParam, ParamValue,
};
use eve_multitools::bundle::{
    BundleError, BundleGameInfo, BundleMetadata, BundleServerName, BundleState, ManifestRead,
};

fn manifest(id: &str) -> ManifestRead {
    ManifestRead::Parsed(BundleMetadata {
        server_id: id.to_string(),
        server_name: BundleServerName { en: id.to_string(), zh: id.to_string() },
        created: 0,
        game_info: BundleGameInfo { version: "1".to_string(), build: "2".to_string() },
    })
}

fn param(p: &MessageParam) -> (String, String) {
    let value = match &p.value {
        ParamValue::Text(t) => format!("text:{t}"),
        ParamValue::Number(n) => format!("number:{n}"),
    };
    (p.name.clone(), value)
}

fn params(list: &Option<Vec<MessageParam>>) -> Option<Vec<(String, String)>> {
    list.as_ref().map(|l| l.iter().map(param).collect())
}

/// A progress event as (stage, current, total, key, params).
fn progress(
    event: &BundleImportEvent,
) -> (ImportStage, u64, u64, Option<String>, Option<Vec<(String, String)>>) {
    match event {
        BundleImportEvent::Progress { stage, current, total, message_key, message_params } => {
            (*stage, *current, *total, message_key.clone(), params(message_params))
        }
        BundleImportEvent::Result { .. } => panic!("a progress event was expected"),
    }
}

/// A result event as (success, name, error, params).
fn result(
    event: &BundleImportEvent,
) -> (bool, Option<String>, Option<ImportErrorType>, Option<Vec<(String, String)>>) {
    match event {
        BundleImportEvent::Result { success, bundle_name, error_type, error_params } => {
            (*success, bundle_name.clone(), *error_type, params(error_params))
        }
        BundleImportEvent::Progress { .. } => panic!("a result event was expected"),
    }
}

fn key(k: &str) -> Option<String> {
    Some(k.to_string())
}

fn pair(name: &str, value: &str) -> (String, String) {
    (name.to_string(), value.to_string())
}

fn is_terminal(event: &BundleImportEvent) -> bool {
    matches!(
        event,
        BundleImportEvent::Progress { stage: ImportStage::Complete | ImportStage::Error, .. }
    )
}

fn is_result(event: &BundleImportEvent) -> bool {
    matches!(event, BundleImportEvent::Result { .. })
}

#[test]
fn import_begins_with_a_start_event() {
    let (task, events) = ImportTask::start(Some("tranquility".to_string()));
    assert_eq!(events.len(), 1);
    assert_eq!(progress(&events[0]), (ImportStage::Start, 0, 100, key("bundle.progress.start"), None));
    assert_eq!(task.pending(), Some(ImportAction::CheckTarget));
    assert_eq!(task.stage(), ImportStage::Start);
    assert_eq!(task.bundle_name(), "tranquility");
}

#[test]
fn import_without_a_file_name_fails_at_once() {
    let (task, events) = ImportTask::start(None);
    assert_eq!(events.len(), 3);
    assert_eq!(progress(&events[0]).0, ImportStage::Start);
    assert_eq!(
        progress(&events[1]),
        (
            ImportStage::Error,
            0,
            100,
            key("bundle.progress.failed"),
            Some(vec![pair("error", "text:Invalid bundle file name")])
        )
    );
    assert_eq!(
        result(&events[2]),
        (
            false,
            None,
            Some(ImportErrorType::InvalidFileName),
            Some(vec![pair("error", "text:Invalid bundle file name")])
        )
    );
    assert_eq!(task.pending(), None);
    assert_eq!(task.stage(), ImportStage::Error);
}

#[test]
fn import_into_an_existing_directory_fails_and_leaves_the_catalog() {
    let mut catalog = BundleState::new();
    catalog.add_bundle("/data/bundle/tq".to_string(), manifest("tq")).unwrap();
    let (mut task, _) = ImportTask::start(Some("tq".to_string()));
    let events = task.step(ImportOutcome::TargetChecked { exists: true });
    assert_eq!(events.len(), 2);
    assert_eq!(
        progress(&events[0]),
        (
            ImportStage::Error,
            0,
            100,
            key("bundle.progress.directory_exists"),
            Some(vec![pair("name", "text:tq")])
        )
    );
    assert_eq!(
        result(&events[1]),
        (false, None, Some(ImportErrorType::DirectoryExists), Some(vec![pair("name", "text:tq")]))
    );
    assert_eq!(task.pending(), None);
    assert_eq!(task.stage(), ImportStage::Error);
    // A task that has failed does not reach the catalog any more.
    let (late, activate) = task.register(&mut catalog, "/data/bundle/tq".to_string(), manifest("sr"));
    assert!(late.is_empty());
    assert!(!activate);
    assert_eq!(catalog.bundles().len(), 1);
    assert_eq!(catalog.bundles()[0].metadata.server_id, "tq");
}

#[test]
fn directory_found_on_creation_fails_the_same_way() {
    let (mut task, _) = ImportTask::start(Some("tq".to_string()));
    task.step(ImportOutcome::TargetChecked { exists: false });
    task.step(ImportOutcome::ArchiveOpened { entries: 2 });
    assert_eq!(task.pending(), Some(ImportAction::CreateDirectory));
    let events = task.step(ImportOutcome::Failed {
        error: ImportErrorType::DirectoryExists,
        message: "File exists (os error 17)".to_string(),
    });
    assert_eq!(progress(&events[0]).3, key("bundle.progress.directory_exists"));
    assert_eq!(result(&events[1]).2, Some(ImportErrorType::DirectoryExists));
    assert_eq!(result(&events[1]).3, Some(vec![pair("name", "text:tq")]));
    assert_eq!(task.pending(), None);
}

#[test]
fn successful_import_reports_every_step() {
    let mut catalog = BundleState::new();
    let mut all: Vec<BundleImportEvent> = Vec::new();
    let (mut task, events) = ImportTask::start(Some("tq".to_string()));
    all.extend(events);

    let events = task.step(ImportOutcome::TargetChecked { exists: false });
    assert_eq!(events.len(), 1);
    assert_eq!(
        progress(&events[0]),
        (ImportStage::Extracting, 10, 100, key("bundle.progress.opening_file"), None)
    );
    assert_eq!(task.pending(), Some(ImportAction::OpenArchive));
    assert_eq!(task.stage(), ImportStage::Extracting);
    all.extend(events);

    let events = task.step(ImportOutcome::ArchiveOpened { entries: 3 });
    assert_eq!(
        progress(&events[0]),
        (ImportStage::Extracting, 20, 100, key("bundle.progress.creating_directory"), None)
    );
    assert_eq!(task.pending(), Some(ImportAction::CreateDirectory));
    all.extend(events);

    let events = task.step(ImportOutcome::DirectoryCreated);
    assert_eq!(
        progress(&events[0]),
        (
            ImportStage::Extracting,
            30,
            100,
            key("bundle.progress.extracting_files"),
            Some(vec![pair("total", "number:3")])
        )
    );
    assert_eq!(task.pending(), Some(ImportAction::ExtractEntry(0)));
    all.extend(events);

    let expected = [(30u64, 1u64), (46, 2), (63, 3)];
    for (i, (current, done)) in expected.iter().enumerate() {
        assert_eq!(task.pending(), Some(ImportAction::ExtractEntry(i as u64)));
        let events = task.step(ImportOutcome::EntryExtracted);
        assert_eq!(events.len(), 1);
        assert_eq!(
            progress(&events[0]),
            (
                ImportStage::Extracting,
                *current,
                100,
                key("bundle.progress.extracting_file"),
                Some(vec![pair("current", &format!("number:{done}")), pair("total", "number:3")])
            )
        );
        all.extend(events);
    }
    assert_eq!(task.pending(), Some(ImportAction::Register));
    assert_eq!(task.stage(), ImportStage::Extracting);

    let (events, activate) = task.register(&mut catalog, "/data/bundle/tq".to_string(), manifest("tq"));
    assert!(activate);
    assert_eq!(events.len(), 2);
    assert_eq!(
        progress(&events[0]),
        (ImportStage::Complete, 100, 100, key("bundle.progress.complete"), None)
    );
    assert_eq!(result(&events[1]), (true, Some("tq".to_string()), None, None));
    all.extend(events);
    assert_eq!(task.pending(), None);
    assert_eq!(task.stage(), ImportStage::Complete);
    assert_eq!(catalog.bundles().len(), 1);
    assert_eq!(catalog.bundles()[0].root, "/data/bundle/tq");

    assert_eq!(all.iter().filter(|e| is_terminal(e)).count(), 1);
    assert_eq!(all.iter().filter(|e| is_result(e)).count(), 1);
    assert!(is_result(all.last().unwrap()));
    let currents: Vec<u64> =
        all.iter().filter(|e| !is_result(e)).map(|e| progress(e).1).collect();
    assert_eq!(currents, vec![0, 10, 20, 30, 30, 46, 63, 100]);
}

#[test]
fn empty_archive_goes_straight_to_registration() {
    let (mut task, _) = ImportTask::start(Some("empty".to_string()));
    task.step(ImportOutcome::TargetChecked { exists: false });
    task.step(ImportOutcome::ArchiveOpened { entries: 0 });
    let events = task.step(ImportOutcome::DirectoryCreated);
    assert_eq!(progress(&events[0]).4, Some(vec![pair("total", "number:0")]));
    assert_eq!(task.pending(), Some(ImportAction::Register));
    let mut catalog = BundleState::new();
    let (events, activate) =
        task.register(&mut catalog, "/data/bundle/empty".to_string(), ManifestRead::Missing);
    assert!(!activate);
    assert_eq!(
        progress(&events[0]),
        (
            ImportStage::Error,
            0,
            100,
            key("bundle.progress.failed"),
            Some(vec![pair("error", "text:Bundle manifest is missing")])
        )
    );
    assert_eq!(
        result(&events[1]),
        (
            false,
            None,
            Some(ImportErrorType::RegistrationError),
            Some(vec![pair("error", "text:Bundle manifest is missing")])
        )
    );
    assert!(catalog.bundles().is_empty());
    assert_eq!(task.stage(), ImportStage::Error);
}

#[test]
fn registration_of_a_duplicate_fails_the_import() {
    let mut catalog = BundleState::new();
    catalog.add_bundle("/data/bundle/old".to_string(), manifest("tq")).unwrap();
    let (mut task, _) = ImportTask::start(Some("new".to_string()));
    task.step(ImportOutcome::TargetChecked { exists: false });
    task.step(ImportOutcome::ArchiveOpened { entries: 1 });
    task.step(ImportOutcome::DirectoryCreated);
    task.step(ImportOutcome::EntryExtracted);
    let (events, activate) = task.register(&mut catalog, "/data/bundle/new".to_string(), manifest("tq"));
    assert!(!activate);
    assert_eq!(events.len(), 2);
    assert_eq!(progress(&events[0]).0, ImportStage::Error);
    assert_eq!(
        result(&events[1]),
        (
            false,
            None,
            Some(ImportErrorType::RegistrationError),
            Some(vec![pair("error", "text:Bundle with this server ID already exists")])
        )
    );
    assert_eq!(catalog.bundles().len(), 1);
    assert_eq!(catalog.bundles()[0].root, "/data/bundle/old");
}

#[test]
fn second_import_is_registered_without_activation() {
    let mut catalog = BundleState::new();
    catalog.add_bundle("/data/bundle/tq".to_string(), manifest("tq")).unwrap();
    let (mut task, _) = ImportTask::start(Some("sr".to_string()));
    task.step(ImportOutcome::TargetChecked { exists: false });
    task.step(ImportOutcome::ArchiveOpened { entries: 0 });
    task.step(ImportOutcome::DirectoryCreated);
    let (events, activate) = task.register(&mut catalog, "/data/bundle/sr".to_string(), manifest("sr"));
    assert!(!activate);
    assert_eq!(result(&events[1]).0, true);
    assert_eq!(catalog.bundles().len(), 2);
}

#[test]
fn failures_carry_their_kind_and_message() {
    let cases = [
        (0usize, ImportErrorType::IoError, "No such file or directory"),
        (0, ImportErrorType::ZipError, "invalid Zip archive"),
        (1, ImportErrorType::IoError, "Permission denied"),
        (2, ImportErrorType::ZipError, "corrupt entry"),
        (2, ImportErrorType::IoError, "No space left on device"),
    ];
    for (steps, error, message) in cases {
        let (mut task, _) = ImportTask::start(Some("tq".to_string()));
        task.step(ImportOutcome::TargetChecked { exists: false });
        if steps >= 1 {
            task.step(ImportOutcome::ArchiveOpened { entries: 5 });
        }
        if steps >= 2 {
            task.step(ImportOutcome::DirectoryCreated);
            task.step(ImportOutcome::EntryExtracted);
        }
        let events = task.step(ImportOutcome::Failed { error, message: message.to_string() });
        assert_eq!(events.len(), 2);
        assert_eq!(
            progress(&events[0]),
            (
                ImportStage::Error,
                0,
                100,
                key("bundle.progress.failed"),
                Some(vec![pair("error", &format!("text:{message}"))])
            )
        );
        assert_eq!(
            result(&events[1]),
            (false, None, Some(error), Some(vec![pair("error", &format!("text:{message}"))]))
        );
        assert_eq!(task.pending(), None);
        assert_eq!(task.stage(), ImportStage::Error);
    }
}

#[test]
fn nothing_is_emitted_after_the_end() {
    let (mut task, _) = ImportTask::start(Some("tq".to_string()));
    task.step(ImportOutcome::TargetChecked { exists: true });
    assert!(task.step(ImportOutcome::TargetChecked { exists: false }).is_empty());
    assert!(task.step(ImportOutcome::ArchiveOpened { entries: 1 }).is_empty());
    assert!(task.step(ImportOutcome::DirectoryCreated).is_empty());
    assert!(task.step(ImportOutcome::EntryExtracted).is_empty());
    assert!(task
        .step(ImportOutcome::Failed { error: ImportErrorType::IoError, message: "late".to_string() })
        .is_empty());
    assert_eq!(task.stage(), ImportStage::Error);
    assert_eq!(task.pending(), None);
}

#[test]
fn unexpected_reports_are_ignored() {
    let (mut task, _) = ImportTask::start(Some("tq".to_string()));
    assert!(task.step(ImportOutcome::EntryExtracted).is_empty());
    assert!(task.step(ImportOutcome::DirectoryCreated).is_empty());
    assert!(task.step(ImportOutcome::ArchiveOpened { entries: 9 }).is_empty());
    assert_eq!(task.pending(), Some(ImportAction::CheckTarget));
    let mut catalog = BundleState::new();
    let (events, activate) = task.register(&mut catalog, "/x".to_string(), manifest("tq"));
    assert!(events.is_empty());
    assert!(!activate);
    assert!(catalog.bundles().is_empty());
    task.step(ImportOutcome::TargetChecked { exists: false });
    assert!(task.step(ImportOutcome::TargetChecked { exists: true }).is_empty());
    assert_eq!(task.pending(), Some(ImportAction::OpenArchive));
    task.step(ImportOutcome::ArchiveOpened { entries: 1 });
    task.step(ImportOutcome::DirectoryCreated);
    task.step(ImportOutcome::EntryExtracted);
    assert_eq!(task.pending(), Some(ImportAction::Register));
    // A failure report is not what a task waits for while it registers.
    assert!(task
        .step(ImportOutcome::Failed { error: ImportErrorType::IoError, message: "x".to_string() })
        .is_empty());
    assert_eq!(task.pending(), Some(ImportAction::Register));
}

#[test]
fn extraction_progress_formula() {
    assert_eq!(extraction_progress_of(0, 1), 30);
    assert_eq!(extraction_progress_of(0, 3), 30);
    assert_eq!(extraction_progress_of(1, 3), 46);
    assert_eq!(extraction_progress_of(2, 3), 63);
    assert_eq!(extraction_progress_of(49, 100), 54);
    assert_eq!(extraction_progress_of(99, 100), 79);
    assert_eq!(extraction_progress_of(u64::MAX - 1, u64::MAX), 79);
    assert_eq!(extraction_progress_of(u64::MAX / 2, u64::MAX), 54);
}

#[test]
fn events_from_progress_and_result() {
    let event = BundleImportEvent::from_progress(ImportProgress {
        stage: ImportStage::Extracting,
        current: 42,
        total: 100,
        message_key: Some("k".to_string()),
        message_params: Some(vec![MessageParam {
            name: "n".to_string(),
            value: ParamValue::Number(7),
        }]),
    });
    assert_eq!(
        progress(&event),
        (ImportStage::Extracting, 42, 100, key("k"), Some(vec![pair("n", "number:7")]))
    );
    let event = BundleImportEvent::from_result(ImportResult {
        success: true,
        bundle_name: Some("tq".to_string()),
        error_type: None,
        error_params: None,
    });
    assert_eq!(result(&event), (true, Some("tq".to_string()), None, None));
}

#[test]
fn refusal_messages() {
    assert_eq!(BundleError::ManifestMissing.message(), "Bundle manifest is missing");
    assert_eq!(BundleError::ManifestParseError.message(), "Bundle manifest cannot be read");
    assert_eq!(
        BundleError::DuplicateIdentifier.message(),
        "Bundle with this server ID already exists"
    );
    assert_eq!(BundleError::NotFound.message(), "Bundle not found");
    assert_eq!(BundleError::IndexLoadError.message(), "Bundle data cannot be loaded");
}
