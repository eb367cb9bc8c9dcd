//! The import pipeline: the steps of bringing an archive into the catalog,
//! and the events that report them.
//!
//! The pipeline is a state machine. The application performs the action
//! that the task is waiting for (`ImportTask::pending`), hands back what
//! came of it (`ImportTask::step`), and delivers the events it is given.

use crate::bundle::{BundleError, BundleState, CatalogView, ManifestRead};
use vstd::prelude::*;

verus! {

/// The stage of an import that a progress event reports.
#[derive(Clone, Copy, Debug, PartialEq, Eq, Structural)]
pub enum ImportStage {
    /// The import has begun.
    Start,
    /// The archive is being unpacked.
    Extracting,
    /// The pack is unpacked and registered.
    Complete,
    /// The import has failed.
    Error,
}

/// Why an import failed.
#[derive(Clone, Copy, Debug, PartialEq, Eq, Structural)]
pub enum ImportErrorType {
    /// The directory that the pack would go to is already there.
    DirectoryExists,
    /// The archive's path has no file name to call the pack by.
    InvalidFileName,
    /// The file system refused an operation.
    IoError,
    /// The archive could not be opened or read as an archive.
    ZipError,
    /// The unpacked pack was not accepted by the catalog.
    RegistrationError,
}

/// The value of a message parameter.
#[derive(Debug)]
pub enum ParamValue {
    /// A text.
    Text(String),
    /// A count.
    Number(u64),
}

/// A named parameter of a message.
#[derive(Debug)]
pub struct MessageParam {
    /// Name of the parameter.
    pub name: String,
    /// Its value.
    pub value: ParamValue,
}

/// A report on how far an import has come.
#[derive(Debug)]
pub struct ImportProgress {
    /// The stage of the import.
    pub stage: ImportStage,
    /// How much is done, out of `total`.
    pub current: u64,
    /// The measure of the whole import.
    pub total: u64,
    /// Key of the message to show.
    pub message_key: Option<String>,
    /// Parameters of that message.
    pub message_params: Option<Vec<MessageParam>>,
}

/// The final report of an import.
#[derive(Debug)]
pub struct ImportResult {
    /// Whether the pack is now in the catalog.
    pub success: bool,
    /// Name of the imported pack's directory, on success.
    pub bundle_name: Option<String>,
    /// Why the import failed, on failure.
    pub error_type: Option<ImportErrorType>,
    /// Details of the failure.
    pub error_params: Option<Vec<MessageParam>>,
}

/// An event of an import, as it is delivered to the subscriber.
#[derive(Debug)]
pub enum BundleImportEvent {
    /// How far the import has come.
    Progress {
        /// The stage of the import.
        stage: ImportStage,
        /// How much is done, out of `total`.
        current: u64,
        /// The measure of the whole import.
        total: u64,
        /// Key of the message to show.
        message_key: Option<String>,
        /// Parameters of that message.
        message_params: Option<Vec<MessageParam>>,
    },
    /// How the import ended.
    Result {
        /// Whether the pack is now in the catalog.
        success: bool,
        /// Name of the imported pack's directory, on success.
        bundle_name: Option<String>,
        /// Why the import failed, on failure.
        error_type: Option<ImportErrorType>,
        /// Details of the failure.
        error_params: Option<Vec<MessageParam>>,
    },
}

/// The value of a message parameter, as a mathematical value.
pub enum ParamValueView {
    /// A text.
    Text(Seq<char>),
    /// A count.
    Number(u64),
}

/// A named parameter of a message, as a mathematical value.
pub struct ParamView {
    /// Name of the parameter.
    pub name: Seq<char>,
    /// Its value.
    pub value: ParamValueView,
}

/// An event of an import, as a mathematical value.
pub enum EventView {
    /// How far the import has come.
    Progress {
        /// The stage of the import.
        stage: ImportStage,
        /// How much is done, out of `total`.
        current: u64,
        /// The measure of the whole import.
        total: u64,
        /// Key of the message to show.
        message_key: Option<Seq<char>>,
        /// Parameters of that message.
        message_params: Option<Seq<ParamView>>,
    },
    /// How the import ended.
    Result {
        /// Whether the pack is now in the catalog.
        success: bool,
        /// Name of the imported pack's directory, on success.
        bundle_name: Option<Seq<char>>,
        /// Why the import failed, on failure.
        error_type: Option<ImportErrorType>,
        /// Details of the failure.
        error_params: Option<Seq<ParamView>>,
    },
}

impl View for ParamValue {
    type V = ParamValueView;

    open spec fn view(&self) -> ParamValueView {
        match self {
            ParamValue::Text(text) => ParamValueView::Text(text@),
            ParamValue::Number(n) => ParamValueView::Number(*n),
        }
    }
}

impl View for MessageParam {
    type V = ParamView;

    open spec fn view(&self) -> ParamView {
        ParamView { name: self.name@, value: self.value@ }
    }
}

/// The parameters of a message as mathematical values.
pub open spec fn params_view(params: Option<Vec<MessageParam>>) -> Option<Seq<ParamView>> {
    match params {
        Some(list) => Some(Seq::new(list@.len(), |i: int| list@[i]@)),
        None => None,
    }
}

/// An optional text as a mathematical value.
pub open spec fn text_view(text: Option<String>) -> Option<Seq<char>> {
    match text {
        Some(t) => Some(t@),
        None => None,
    }
}

impl View for ImportProgress {
    type V = EventView;

    open spec fn view(&self) -> EventView {
        EventView::Progress {
            stage: self.stage,
            current: self.current,
            total: self.total,
            message_key: text_view(self.message_key),
            message_params: params_view(self.message_params),
        }
    }
}

impl View for ImportResult {
    type V = EventView;

    open spec fn view(&self) -> EventView {
        EventView::Result {
            success: self.success,
            bundle_name: text_view(self.bundle_name),
            error_type: self.error_type,
            error_params: params_view(self.error_params),
        }
    }
}

impl View for BundleImportEvent {
    type V = EventView;

    open spec fn view(&self) -> EventView {
        match self {
            BundleImportEvent::Progress { stage, current, total, message_key, message_params } => {
                EventView::Progress {
                    stage: *stage,
                    current: *current,
                    total: *total,
                    message_key: text_view(*message_key),
                    message_params: params_view(*message_params),
                }
            },
            BundleImportEvent::Result { success, bundle_name, error_type, error_params } => {
                EventView::Result {
                    success: *success,
                    bundle_name: text_view(*bundle_name),
                    error_type: *error_type,
                    error_params: params_view(*error_params),
                }
            },
        }
    }
}

impl BundleImportEvent {
    /// The event that delivers a progress report.
    pub fn from_progress(progress: ImportProgress) -> (event: Self)
        ensures
            event@ == progress@,
    {
        BundleImportEvent::Progress {
            stage: progress.stage,
            current: progress.current,
            total: progress.total,
            message_key: progress.message_key,
            message_params: progress.message_params,
        }
    }

    /// The event that delivers a final report.
    pub fn from_result(result: ImportResult) -> (event: Self)
        ensures
            event@ == result@,
    {
        BundleImportEvent::Result {
            success: result.success,
            bundle_name: result.bundle_name,
            error_type: result.error_type,
            error_params: result.error_params,
        }
    }
}

/// The events of a list as mathematical values.
pub open spec fn events_view(events: Seq<BundleImportEvent>) -> Seq<EventView> {
    Seq::new(events.len(), |i: int| events[i]@)
}

/// Where an import task stands.
#[derive(Clone, Copy, Debug, PartialEq, Eq, Structural)]
pub enum ImportPhase {
    /// Waiting to learn whether the target directory is already there.
    CheckingTarget,
    /// Waiting for the archive to be opened.
    OpeningArchive,
    /// Waiting for the target directory to be created.
    CreatingDirectory,
    /// Waiting for the next entry to be unpacked.
    Extracting,
    /// Waiting for the unpacked pack to be registered.
    Registering,
    /// Ended: the pack is registered.
    Completed,
    /// Ended: the import has failed.
    Failed,
}

/// What the application is to do next for an import task.
#[derive(Clone, Copy, Debug, PartialEq, Eq, Structural)]
pub enum ImportAction {
    /// Look whether the target directory is already there.
    CheckTarget,
    /// Open the archive and count its entries.
    OpenArchive,
    /// Create the target directory; it must not be there yet.
    CreateDirectory,
    /// Unpack the entry with this index into the target directory.
    ExtractEntry(u64),
    /// Read the manifest of the target directory and register the pack.
    Register,
}

/// What came of the action that an import task was waiting for.
#[derive(Debug)]
pub enum ImportOutcome {
    /// The target directory was looked for.
    TargetChecked {
        /// Whether it is already there.
        exists: bool,
    },
    /// The archive was opened.
    ArchiveOpened {
        /// The number of its entries.
        entries: u64,
    },
    /// The target directory was created.
    DirectoryCreated,
    /// The entry that was asked for was unpacked.
    EntryExtracted,
    /// The action failed.
    Failed {
        /// The kind of failure.
        error: ImportErrorType,
        /// What went wrong, in words.
        message: String,
    },
}

/// What an import task is told, as a mathematical value: what came of an
/// action, or what the catalog answered to the registration.
pub enum InputView {
    /// The target directory was looked for.
    TargetChecked {
        /// Whether it is already there.
        exists: bool,
    },
    /// The archive was opened.
    ArchiveOpened {
        /// The number of its entries.
        entries: u64,
    },
    /// The target directory was created.
    DirectoryCreated,
    /// The entry that was asked for was unpacked.
    EntryExtracted,
    /// The action failed.
    Failed {
        /// The kind of failure.
        error: ImportErrorType,
        /// What went wrong, in words.
        message: Seq<char>,
    },
    /// The catalog answered the registration.
    Registration {
        /// The catalog's answer.
        answer: Result<bool, BundleError>,
    },
}

impl View for ImportOutcome {
    type V = InputView;

    open spec fn view(&self) -> InputView {
        match self {
            ImportOutcome::TargetChecked { exists } => InputView::TargetChecked { exists: *exists },
            ImportOutcome::ArchiveOpened { entries } => InputView::ArchiveOpened {
                entries: *entries,
            },
            ImportOutcome::DirectoryCreated => InputView::DirectoryCreated,
            ImportOutcome::EntryExtracted => InputView::EntryExtracted,
            ImportOutcome::Failed { error, message } => InputView::Failed {
                error: *error,
                message: message@,
            },
        }
    }
}

/// An import task as a mathematical value.
pub struct TaskView {
    /// Where the task stands.
    pub phase: ImportPhase,
    /// The name of the pack's directory.
    pub name: Seq<char>,
    /// The number of entries of the archive.
    pub total: u64,
    /// The number of entries unpacked so far.
    pub done: u64,
}

/// The stage that a task in `phase` reports.
pub open spec fn stage_of(phase: ImportPhase) -> ImportStage {
    match phase {
        ImportPhase::CheckingTarget => ImportStage::Start,
        ImportPhase::OpeningArchive => ImportStage::Extracting,
        ImportPhase::CreatingDirectory => ImportStage::Extracting,
        ImportPhase::Extracting => ImportStage::Extracting,
        ImportPhase::Registering => ImportStage::Extracting,
        ImportPhase::Completed => ImportStage::Complete,
        ImportPhase::Failed => ImportStage::Error,
    }
}

/// The task has ended.
pub open spec fn is_terminal(phase: ImportPhase) -> bool {
    phase == ImportPhase::Completed || phase == ImportPhase::Failed
}

/// How far the import is once the entry with index `index` of `total`
/// entries is unpacked: unpacking takes the range from 30 to 80 of 100.
pub open spec fn extraction_progress(index: u64, total: u64) -> u64 {
    (30 + (index as int * 50) / (total as int)) as u64
}

/// A progress event of the pipeline; the whole import measures 100.
pub open spec fn progress_event(
    stage: ImportStage,
    current: u64,
    key: Seq<char>,
    params: Option<Seq<ParamView>>,
) -> EventView {
    EventView::Progress {
        stage,
        current,
        total: 100,
        message_key: Some(key),
        message_params: params,
    }
}

/// A message parameter that holds a text.
pub open spec fn text_param(name: Seq<char>, text: Seq<char>) -> ParamView {
    ParamView { name, value: ParamValueView::Text(text) }
}

/// A message parameter that holds a count.
pub open spec fn number_param(name: Seq<char>, n: u64) -> ParamView {
    ParamView { name, value: ParamValueView::Number(n) }
}

/// The two events that end a failed import: the last progress event, then
/// the result.
pub open spec fn failure_events(error: ImportErrorType, key: Seq<char>, params: Seq<ParamView>) -> Seq<
    EventView,
> {
    seq![
        progress_event(ImportStage::Error, 0, key, Some(params)),
        EventView::Result {
            success: false,
            bundle_name: None,
            error_type: Some(error),
            error_params: Some(params),
        },
    ]
}

/// The events that end an import whose target directory is already there.
pub open spec fn directory_exists_events(name: Seq<char>) -> Seq<EventView> {
    failure_events(
        ImportErrorType::DirectoryExists,
        "bundle.progress.directory_exists"@,
        seq![text_param("name"@, name)],
    )
}

/// The events that end an import that failed with `error`.
pub open spec fn failed_events(error: ImportErrorType, name: Seq<char>, message: Seq<char>) -> Seq<
    EventView,
> {
    if error == ImportErrorType::DirectoryExists {
        directory_exists_events(name)
    } else {
        failure_events(error, "bundle.progress.failed"@, seq![text_param("error"@, message)])
    }
}

/// The two events that end a successful import.
pub open spec fn completion_events(name: Seq<char>) -> Seq<EventView> {
    seq![
        progress_event(ImportStage::Complete, 100, "bundle.progress.complete"@, None),
        EventView::Result {
            success: true,
            bundle_name: Some(name),
            error_type: None,
            error_params: None,
        },
    ]
}

/// Why the catalog refused a pack, in words.
pub open spec fn refusal_message(error: BundleError) -> Seq<char> {
    match error {
        BundleError::ManifestMissing => "Bundle manifest is missing"@,
        BundleError::ManifestParseError => "Bundle manifest cannot be read"@,
        BundleError::DuplicateIdentifier => "Bundle with this server ID already exists"@,
        BundleError::NotFound => "Bundle not found"@,
        BundleError::IndexLoadError => "Bundle data cannot be loaded"@,
    }
}

impl TaskView {
    /// The counts of a task fit its phase.
    pub open spec fn wf(self) -> bool {
        &&& self.done <= self.total
        &&& self.phase == ImportPhase::Extracting ==> self.done < self.total
        &&& self.phase == ImportPhase::Registering ==> self.done == self.total
        &&& self.phase == ImportPhase::CheckingTarget || self.phase == ImportPhase::OpeningArchive
            ==> self.total == 0
        &&& self.phase == ImportPhase::CreatingDirectory ==> self.done == 0
    }

    /// What the application is to do next; nothing once the task has ended.
    pub open spec fn pending(self) -> Option<ImportAction> {
        match self.phase {
            ImportPhase::CheckingTarget => Some(ImportAction::CheckTarget),
            ImportPhase::OpeningArchive => Some(ImportAction::OpenArchive),
            ImportPhase::CreatingDirectory => Some(ImportAction::CreateDirectory),
            ImportPhase::Extracting => Some(ImportAction::ExtractEntry(self.done)),
            ImportPhase::Registering => Some(ImportAction::Register),
            ImportPhase::Completed => None,
            ImportPhase::Failed => None,
        }
    }

    /// Whether the task, as it stands, is waiting for `input`.
    pub open spec fn expects(self, input: InputView) -> bool {
        match input {
            InputView::TargetChecked { .. } => self.phase == ImportPhase::CheckingTarget,
            InputView::ArchiveOpened { .. } => self.phase == ImportPhase::OpeningArchive,
            InputView::DirectoryCreated => self.phase == ImportPhase::CreatingDirectory,
            InputView::EntryExtracted => self.phase == ImportPhase::Extracting,
            InputView::Failed { .. } => !is_terminal(self.phase) && self.phase
                != ImportPhase::Registering,
            InputView::Registration { .. } => self.phase == ImportPhase::Registering,
        }
    }

    /// The task in another phase.
    pub open spec fn at(self, phase: ImportPhase) -> TaskView {
        TaskView { phase, name: self.name, total: self.total, done: self.done }
    }

    /// The task after it was told `input`. What it is not waiting for is
    /// ignored.
    pub open spec fn after(self, input: InputView) -> TaskView {
        if !self.expects(input) {
            self
        } else {
            match input {
                InputView::TargetChecked { exists } => if exists {
                    self.at(ImportPhase::Failed)
                } else {
                    self.at(ImportPhase::OpeningArchive)
                },
                InputView::ArchiveOpened { entries } => TaskView {
                    phase: ImportPhase::CreatingDirectory,
                    name: self.name,
                    total: entries,
                    done: 0,
                },
                InputView::DirectoryCreated => if self.total == 0 {
                    self.at(ImportPhase::Registering)
                } else {
                    self.at(ImportPhase::Extracting)
                },
                InputView::EntryExtracted => TaskView {
                    phase: if self.done + 1 == self.total {
                        ImportPhase::Registering
                    } else {
                        ImportPhase::Extracting
                    },
                    name: self.name,
                    total: self.total,
                    done: (self.done + 1) as u64,
                },
                InputView::Failed { .. } => self.at(ImportPhase::Failed),
                InputView::Registration { answer } => match answer {
                    Ok(_) => self.at(ImportPhase::Completed),
                    Err(_) => self.at(ImportPhase::Failed),
                },
            }
        }
    }

    /// The events that the task emits when it is told `input`.
    pub open spec fn emits(self, input: InputView) -> Seq<EventView> {
        if !self.expects(input) {
            Seq::empty()
        } else {
            match input {
                InputView::TargetChecked { exists } => if exists {
                    directory_exists_events(self.name)
                } else {
                    seq![
                        progress_event(
                            ImportStage::Extracting,
                            10,
                            "bundle.progress.opening_file"@,
                            None,
                        ),
                    ]
                },
                InputView::ArchiveOpened { .. } => seq![
                    progress_event(
                        ImportStage::Extracting,
                        20,
                        "bundle.progress.creating_directory"@,
                        None,
                    ),
                ],
                InputView::DirectoryCreated => seq![
                    progress_event(
                        ImportStage::Extracting,
                        30,
                        "bundle.progress.extracting_files"@,
                        Some(seq![number_param("total"@, self.total)]),
                    ),
                ],
                InputView::EntryExtracted => seq![
                    progress_event(
                        ImportStage::Extracting,
                        extraction_progress(self.done, self.total),
                        "bundle.progress.extracting_file"@,
                        Some(
                            seq![
                                number_param("current"@, (self.done + 1) as u64),
                                number_param("total"@, self.total),
                            ],
                        ),
                    ),
                ],
                InputView::Failed { error, message } => failed_events(error, self.name, message),
                InputView::Registration { answer } => match answer {
                    Ok(_) => completion_events(self.name),
                    Err(e) => failed_events(
                        ImportErrorType::RegistrationError,
                        self.name,
                        refusal_message(e),
                    ),
                },
            }
        }
    }
}

/// The task that `ImportTask::start` makes of the archive's base file name.
pub open spec fn started(file_stem: Option<Seq<char>>) -> TaskView {
    match file_stem {
        Some(name) => TaskView { phase: ImportPhase::CheckingTarget, name, total: 0, done: 0 },
        None => TaskView { phase: ImportPhase::Failed, name: Seq::empty(), total: 0, done: 0 },
    }
}

/// The events with which an import begins: the first progress event, and
/// the end at once where the archive's path has no file name.
pub open spec fn start_events(file_stem: Option<Seq<char>>) -> Seq<EventView> {
    let begin = seq![progress_event(ImportStage::Start, 0, "bundle.progress.start"@, None)];
    match file_stem {
        Some(_) => begin,
        None => begin + failed_events(
            ImportErrorType::InvalidFileName,
            Seq::empty(),
            "Invalid bundle file name"@,
        ),
    }
}

impl BundleError {
    /// Why the catalog refused a pack, in words.
    pub fn message(&self) -> (text: String)
        ensures
            text@ == refusal_message(*self),
    {
        match self {
            BundleError::ManifestMissing => "Bundle manifest is missing".to_owned(),
            BundleError::ManifestParseError => "Bundle manifest cannot be read".to_owned(),
            BundleError::DuplicateIdentifier => "Bundle with this server ID already exists".to_owned(),
            BundleError::NotFound => "Bundle not found".to_owned(),
            BundleError::IndexLoadError => "Bundle data cannot be loaded".to_owned(),
        }
    }
}

/// A progress event of the pipeline.
fn progress(stage: ImportStage, current: u64, key: &str, params: Option<Vec<MessageParam>>) -> (event:
    BundleImportEvent)
    ensures
        event@ == progress_event(stage, current, key@, params_view(params)),
{
    BundleImportEvent::from_progress(
        ImportProgress {
            stage,
            current,
            total: 100,
            message_key: Some(key.to_owned()),
            message_params: params,
        },
    )
}

/// A parameter list with one text.
fn text_params(name: &str, text: &str) -> (params: Vec<MessageParam>)
    ensures
        params_view(Some(params)) == Some(seq![text_param(name@, text@)]),
{
    let mut params: Vec<MessageParam> = Vec::new();
    params.push(MessageParam { name: name.to_owned(), value: ParamValue::Text(text.to_owned()) });
    proof {
        assert(params_view(Some(params))->0 =~= seq![text_param(name@, text@)]);
    }
    params
}

/// A parameter list with one count.
fn number_params(name: &str, n: u64) -> (params: Vec<MessageParam>)
    ensures
        params_view(Some(params)) == Some(seq![number_param(name@, n)]),
{
    let mut params: Vec<MessageParam> = Vec::new();
    params.push(MessageParam { name: name.to_owned(), value: ParamValue::Number(n) });
    proof {
        assert(params_view(Some(params))->0 =~= seq![number_param(name@, n)]);
    }
    params
}

/// Appends the two events that end a failed import.
fn push_failure(events: &mut Vec<BundleImportEvent>, error: ImportErrorType, name: &str, message: &str)
    ensures
        events_view(final(events)@) == events_view(old(events)@) + failed_events(
            error,
            name@,
            message@,
        ),
{
    let ghost before = events_view(events@);
    match error {
        ImportErrorType::DirectoryExists => {
            events.push(
                progress(
                    ImportStage::Error,
                    0,
                    "bundle.progress.directory_exists",
                    Some(text_params("name", name)),
                ),
            );
            events.push(
                BundleImportEvent::from_result(
                    ImportResult {
                        success: false,
                        bundle_name: None,
                        error_type: Some(error),
                        error_params: Some(text_params("name", name)),
                    },
                ),
            );
        },
        _ => {
            events.push(
                progress(
                    ImportStage::Error,
                    0,
                    "bundle.progress.failed",
                    Some(text_params("error", message)),
                ),
            );
            events.push(
                BundleImportEvent::from_result(
                    ImportResult {
                        success: false,
                        bundle_name: None,
                        error_type: Some(error),
                        error_params: Some(text_params("error", message)),
                    },
                ),
            );
        },
    }
    proof {
        assert(events_view(events@) =~= before + failed_events(error, name@, message@));
    }
}

/// An import of one archive: where it stands, and what it is called.
#[derive(Debug)]
pub struct ImportTask {
    phase: ImportPhase,
    name: String,
    total: u64,
    done: u64,
}

impl View for ImportTask {
    type V = TaskView;

    closed spec fn view(&self) -> TaskView {
        TaskView { phase: self.phase, name: self.name@, total: self.total, done: self.done }
    }
}

impl ImportTask {
    #[verifier::type_invariant]
    spec fn valid(self) -> bool {
        self@.wf()
    }

    /// Puts the task into `phase` with the given counts.
    fn set(&mut self, phase: ImportPhase, total: u64, done: u64)
        requires
            (TaskView { phase, name: old(self)@.name, total, done }).wf(),
        ensures
            final(self)@ == (TaskView { phase, name: old(self)@.name, total, done }),
    {
        let mut taken = ImportTask { phase: ImportPhase::Failed, name: String::new(), total: 0, done: 0 };
        core::mem::swap(self, &mut taken);
        let ImportTask { phase: _, name, total: _, done: _ } = taken;
        *self = ImportTask { phase, name, total, done };
    }

    /// Begins the import of an archive, given the base name of its file,
    /// by which the pack's directory is called; `None` where the path has
    /// no file name, which ends the import at once. Returns the task and
    /// the first events.
    pub fn start(file_stem: Option<String>) -> (begun: (Self, Vec<BundleImportEvent>))
        ensures
            begun.0@ == started(text_view(file_stem)),
            events_view(begun.1@) == start_events(text_view(file_stem)),
            begun.0@.wf(),
    {
        let mut events: Vec<BundleImportEvent> = Vec::new();
        events.push(progress(ImportStage::Start, 0, "bundle.progress.start", None));
        proof {
            assert(events_view(events@) =~= seq![
                progress_event(ImportStage::Start, 0, "bundle.progress.start"@, None),
            ]);
        }
        match file_stem {
            Some(name) => (
                ImportTask { phase: ImportPhase::CheckingTarget, name, total: 0, done: 0 },
                events,
            ),
            None => {
                push_failure(
                    &mut events,
                    ImportErrorType::InvalidFileName,
                    "",
                    "Invalid bundle file name",
                );
                let name = String::new();
                proof {
                    reveal_strlit("");
                    assert(""@ =~= Seq::<char>::empty());
                }
                (ImportTask { phase: ImportPhase::Failed, name, total: 0, done: 0 }, events)
            },
        }
    }

    /// What the application is to do next; nothing once the task has ended.
    pub fn pending(&self) -> (action: Option<ImportAction>)
        ensures
            action == self@.pending(),
    {
        match self.phase {
            ImportPhase::CheckingTarget => Some(ImportAction::CheckTarget),
            ImportPhase::OpeningArchive => Some(ImportAction::OpenArchive),
            ImportPhase::CreatingDirectory => Some(ImportAction::CreateDirectory),
            ImportPhase::Extracting => Some(ImportAction::ExtractEntry(self.done)),
            ImportPhase::Registering => Some(ImportAction::Register),
            ImportPhase::Completed => None,
            ImportPhase::Failed => None,
        }
    }

    /// The stage of the import.
    pub fn stage(&self) -> (stage: ImportStage)
        ensures
            stage == stage_of(self@.phase),
    {
        match self.phase {
            ImportPhase::CheckingTarget => ImportStage::Start,
            ImportPhase::OpeningArchive => ImportStage::Extracting,
            ImportPhase::CreatingDirectory => ImportStage::Extracting,
            ImportPhase::Extracting => ImportStage::Extracting,
            ImportPhase::Registering => ImportStage::Extracting,
            ImportPhase::Completed => ImportStage::Complete,
            ImportPhase::Failed => ImportStage::Error,
        }
    }

    /// The name of the pack's directory under the packs root.
    pub fn bundle_name(&self) -> (name: &String)
        ensures
            name@ == self@.name,
    {
        &self.name
    }

    /// Tells the task what came of the action it was waiting for, and
    /// returns the events to deliver. What the task is not waiting for is
    /// ignored: the task stays as it is and nothing is emitted.
    pub fn step(&mut self, outcome: ImportOutcome) -> (events: Vec<BundleImportEvent>)
        ensures
            final(self)@ == old(self)@.after(outcome@),
            events_view(events@) == old(self)@.emits(outcome@),
            final(self)@.wf(),
    {
        let mut events: Vec<BundleImportEvent> = Vec::new();
        proof {
            use_type_invariant(&*self);
            assert(events_view(events@) =~= Seq::<EventView>::empty());
        }
        match outcome {
            ImportOutcome::TargetChecked { exists } => {
                if let ImportPhase::CheckingTarget = self.phase {
                    if exists {
                        push_failure(
                            &mut events,
                            ImportErrorType::DirectoryExists,
                            self.name.as_str(),
                            "",
                        );
                        self.set(ImportPhase::Failed, self.total, self.done);
                    } else {
                        events.push(
                            progress(
                                ImportStage::Extracting,
                                10,
                                "bundle.progress.opening_file",
                                None,
                            ),
                        );
                        self.set(ImportPhase::OpeningArchive, self.total, self.done);
                    }
                }
            },
            ImportOutcome::ArchiveOpened { entries } => {
                if let ImportPhase::OpeningArchive = self.phase {
                    events.push(
                        progress(
                            ImportStage::Extracting,
                            20,
                            "bundle.progress.creating_directory",
                            None,
                        ),
                    );
                    self.set(ImportPhase::CreatingDirectory, entries, 0);
                }
            },
            ImportOutcome::DirectoryCreated => {
                if let ImportPhase::CreatingDirectory = self.phase {
                    events.push(
                        progress(
                            ImportStage::Extracting,
                            30,
                            "bundle.progress.extracting_files",
                            Some(number_params("total", self.total)),
                        ),
                    );
                    if self.total == 0 {
                        self.set(ImportPhase::Registering, self.total, self.done);
                    } else {
                        self.set(ImportPhase::Extracting, self.total, self.done);
                    }
                }
            },
            ImportOutcome::EntryExtracted => {
                if let ImportPhase::Extracting = self.phase {
                    let current = extraction_progress_of(self.done, self.total);
                    let mut params: Vec<MessageParam> = Vec::new();
                    params.push(
                        MessageParam {
                            name: "current".to_owned(),
                            value: ParamValue::Number(self.done + 1),
                        },
                    );
                    params.push(
                        MessageParam {
                            name: "total".to_owned(),
                            value: ParamValue::Number(self.total),
                        },
                    );
                    proof {
                        assert(params_view(Some(params))->0 =~= seq![
                            number_param("current"@, (self.done + 1) as u64),
                            number_param("total"@, self.total),
                        ]);
                    }
                    events.push(
                        progress(
                            ImportStage::Extracting,
                            current,
                            "bundle.progress.extracting_file",
                            Some(params),
                        ),
                    );
                    if self.done + 1 == self.total {
                        self.set(ImportPhase::Registering, self.total, self.done + 1);
                    } else {
                        self.set(ImportPhase::Extracting, self.total, self.done + 1);
                    }
                }
            },
            ImportOutcome::Failed { error, message } => {
                match self.phase {
                    ImportPhase::Registering => {},
                    ImportPhase::Completed => {},
                    ImportPhase::Failed => {},
                    _ => {
                        push_failure(&mut events, error, self.name.as_str(), message.as_str());
                        self.set(ImportPhase::Failed, self.total, self.done);
                    },
                }
            },
        }
        proof {
            assert(events_view(events@) =~= old(self)@.emits(outcome@));
        }
        events
    }

    /// Registers the unpacked pack in `catalog`, given its directory and
    /// what reading its manifest gave, and ends the import with the events
    /// to deliver. The flag asks the caller to activate the new pack. A
    /// task that is not waiting for the registration is left as it is, and
    /// so is the catalog.
    pub fn register(
        &mut self,
        catalog: &mut BundleState,
        root: String,
        manifest: ManifestRead,
    ) -> (report: (Vec<BundleImportEvent>, bool))
        ensures
            final(self)@.wf(),
            final(catalog)@.wf(),
            old(self)@.phase != ImportPhase::Registering ==> {
                &&& final(self)@ == old(self)@
                &&& final(catalog)@ == old(catalog)@
                &&& report.0@.len() == 0
                &&& !report.1
            },
            old(self)@.phase == ImportPhase::Registering ==> {
                let answer = old(catalog)@.registration(root, manifest);
                &&& final(catalog)@ == old(catalog)@.registered(root, manifest)
                &&& final(self)@ == old(self)@.after(InputView::Registration { answer })
                &&& events_view(report.0@) == old(self)@.emits(InputView::Registration { answer })
                &&& report.1 == (answer == Ok::<bool, BundleError>(true))
            },
    {
        let mut events: Vec<BundleImportEvent> = Vec::new();
        proof {
            use_type_invariant(&*self);
            use_type_invariant(&*catalog);
            assert(events_view(events@) =~= Seq::<EventView>::empty());
        }
        if let ImportPhase::Registering = self.phase {
            match catalog.add_bundle(root, manifest) {
                Ok(first) => {
                    events.push(
                        progress(ImportStage::Complete, 100, "bundle.progress.complete", None),
                    );
                    events.push(
                        BundleImportEvent::from_result(
                            ImportResult {
                                success: true,
                                bundle_name: Some(self.name.clone()),
                                error_type: None,
                                error_params: None,
                            },
                        ),
                    );
                    self.set(ImportPhase::Completed, self.total, self.done);
                    proof {
                        assert(events_view(events@) =~= completion_events(self@.name));
                    }
                    (events, first)
                },
                Err(e) => {
                    let message = e.message();
                    push_failure(
                        &mut events,
                        ImportErrorType::RegistrationError,
                        self.name.as_str(),
                        message.as_str(),
                    );
                    self.set(ImportPhase::Failed, self.total, self.done);
                    (events, false)
                },
            }
        } else {
            (events, false)
        }
    }
}

/// How far the import is once the entry with index `index` of `total`
/// entries is unpacked.
pub fn extraction_progress_of(index: u64, total: u64) -> (current: u64)
    requires
        index < total,
    ensures
        current == extraction_progress(index, total),
        30 <= current < 80,
{
    let scaled: u128 = (index as u128) * 50;
    let share: u128 = scaled / (total as u128);
    proof {
        assert(index as int * 50 < total as int * 50);
        assert((index as int * 50) / (total as int) < 50) by (nonlinear_arith)
            requires
                0 <= index as int * 50 < total as int * 50,
                total as int > 0,
        ;
        assert((index as int * 50) / (total as int) >= 0) by (nonlinear_arith)
            requires
                0 <= index as int * 50,
                total as int > 0,
        ;
    }
    30 + (share as u64)
}

} // verus!
