use vstd::prelude::*;

verus! {

use crate::archive::{
    clone_file_entries, clone_paths, extract_model, views_of_files, views_of_paths,
    zip_entry_list, ExtractionModel, ExtractionResult, FileEntry,
};
use crate::download::{
    infer_extension, infer_extension_spec, is_supported_container, staging_file_name,
    staging_file_name_spec, supported_container,
};
use crate::errors::ModManagerError;
use crate::install::{plan_install, plan_spec, unzip_mod, InstallPlan, InstallPlanModel,
    InstallTarget, UnzipOutcome};
use crate::paths::RelPath;
use crate::resolver::{detail_download_url, resolve_download_url};
use crate::text::{dec_str, u32_to_string};

/// Ordered lifecycle notifications for the event collaborator, keyed by
/// mod id. Delivery is fire-and-forget; a failed notification never fails
/// the pipeline.
#[derive(Clone, Copy, PartialEq, Eq, Structural, Debug)]
pub enum Notification {
    /// A download URL was resolved and fetching begins.
    Started,
    /// The archive bytes arrived and are being written to staging.
    Writing,
    /// The staged archive is about to be expanded.
    FinishingUp,
    /// The staged file is not a supported container format.
    UnzipUnsupported,
    /// The run failed; the error travels in the pipeline state.
    ErrorSignal,
    /// The run reached a non-error end.
    Done,
}

/// The abstract failure carried by a failed run.
pub ghost enum ErrorModel {
    Network(Seq<char>),
    FileSystem(Seq<char>),
    Parse(Seq<char>),
}

impl ModManagerError {
    /// The abstract value of this error.
    pub open spec fn model(&self) -> ErrorModel {
        match self {
            ModManagerError::NetworkError(m) => ErrorModel::Network(m@),
            ModManagerError::FileSystemError(m) => ErrorModel::FileSystem(m@),
            ModManagerError::ParseError(m) => ErrorModel::Parse(m@),
        }
    }
}

/// The state of one pipeline run. Transitions are strictly forward; a
/// failure from any state ends the run, and three non-error terminal
/// states mark legitimate early ends.
pub enum PipelineState {
    /// Waiting for the catalog's mod-detail response.
    Resolving { mod_id: u32 },
    /// Waiting for the archive bytes at the resolved URL.
    Fetching { mod_id: u32, url: String, ext: String },
    /// Waiting for the staging-file write to be confirmed.
    Staged { mod_id: u32, ext: String, bytes: Vec<u8> },
    /// Waiting for the scratch tree to be materialized on disk.
    Extracting { mod_id: u32, extraction: ExtractionResult, plan: Option<InstallPlan> },
    /// The scratch tree exists; the classification decision is next.
    Classifying { mod_id: u32, extraction: ExtractionResult, plan: Option<InstallPlan> },
    /// Waiting for the copy into the destination root and then for the
    /// removal of the scratch subtree.
    Installing { mod_id: u32, plan: InstallPlan, copied: bool },
    /// The mod is installed and the scratch subtree is gone.
    Completed { mod_id: u32 },
    /// The catalog offered no download URL; nothing was written.
    NoDownloadAvailable { mod_id: u32 },
    /// The staged archive is not a supported container.
    UnsupportedFormat { mod_id: u32, ext: String },
    /// The archive held neither marker; nothing is installed.
    UnrecognizedLayout { mod_id: u32 },
    /// The run failed with the recorded error.
    Failed { mod_id: u32, error: ModManagerError },
}

/// The abstract pipeline state.
pub ghost enum StateModel {
    Resolving { mod_id: nat },
    Fetching { mod_id: nat, url: Seq<char>, ext: Seq<char> },
    Staged { mod_id: nat, ext: Seq<char>, bytes: Seq<u8> },
    Extracting { mod_id: nat, extraction: ExtractionModel, plan: Option<InstallPlanModel> },
    Classifying { mod_id: nat, extraction: ExtractionModel, plan: Option<InstallPlanModel> },
    Installing { mod_id: nat, plan: InstallPlanModel, copied: bool },
    Completed { mod_id: nat },
    NoDownloadAvailable { mod_id: nat },
    UnsupportedFormat { mod_id: nat, ext: Seq<char> },
    UnrecognizedLayout { mod_id: nat },
    Failed { mod_id: nat, error: ErrorModel },
}

/// The view of an optional install plan.
pub open spec fn opt_plan_model(o: Option<InstallPlan>) -> Option<InstallPlanModel> {
    match o {
        Some(p) => Some(p.model()),
        None => None,
    }
}

impl PipelineState {
    /// The abstract value of this state.
    pub open spec fn model(&self) -> StateModel {
        match self {
            PipelineState::Resolving { mod_id } => StateModel::Resolving { mod_id: *mod_id as nat },
            PipelineState::Fetching { mod_id, url, ext } => StateModel::Fetching {
                mod_id: *mod_id as nat,
                url: url@,
                ext: ext@,
            },
            PipelineState::Staged { mod_id, ext, bytes } => StateModel::Staged {
                mod_id: *mod_id as nat,
                ext: ext@,
                bytes: bytes@,
            },
            PipelineState::Extracting { mod_id, extraction, plan } => StateModel::Extracting {
                mod_id: *mod_id as nat,
                extraction: extraction.model(),
                plan: opt_plan_model(*plan),
            },
            PipelineState::Classifying { mod_id, extraction, plan } => StateModel::Classifying {
                mod_id: *mod_id as nat,
                extraction: extraction.model(),
                plan: opt_plan_model(*plan),
            },
            PipelineState::Installing { mod_id, plan, copied } => StateModel::Installing {
                mod_id: *mod_id as nat,
                plan: plan.model(),
                copied: *copied,
            },
            PipelineState::Completed { mod_id } => StateModel::Completed { mod_id: *mod_id as nat },
            PipelineState::NoDownloadAvailable { mod_id } => StateModel::NoDownloadAvailable {
                mod_id: *mod_id as nat,
            },
            PipelineState::UnsupportedFormat { mod_id, ext } => StateModel::UnsupportedFormat {
                mod_id: *mod_id as nat,
                ext: ext@,
            },
            PipelineState::UnrecognizedLayout { mod_id } => StateModel::UnrecognizedLayout {
                mod_id: *mod_id as nat,
            },
            PipelineState::Failed { mod_id, error } => StateModel::Failed {
                mod_id: *mod_id as nat,
                error: error.model(),
            },
        }
    }
}

/// One outside answer handed back to the pipeline by the shell that
/// performs its actions: network responses and filesystem confirmations.
pub enum PipelineEvent {
    /// The mod-detail response body, or a transport failure.
    DetailResponse(Result<String, String>),
    /// The fetched archive bytes, or a transport failure.
    FetchResponse(Result<Vec<u8>, String>),
    /// Whether the staging file was written.
    StagingWritten(Result<(), String>),
    /// Whether the scratch tree was materialized.
    ScratchWritten(Result<(), String>),
    /// Drives the classification decision; carries nothing.
    Proceed,
    /// Whether the copy into the destination root fully succeeded.
    CopyFinished(Result<(), String>),
    /// Whether the scratch subtree was removed.
    ScratchRemoved(Result<(), String>),
}

/// The abstract pipeline event.
pub ghost enum EventModel {
    DetailResponse(Result<Seq<char>, Seq<char>>),
    FetchResponse(Result<Seq<u8>, Seq<char>>),
    StagingWritten(Result<(), Seq<char>>),
    ScratchWritten(Result<(), Seq<char>>),
    Proceed,
    CopyFinished(Result<(), Seq<char>>),
    ScratchRemoved(Result<(), Seq<char>>),
}

impl PipelineEvent {
    /// The abstract value of this event.
    pub open spec fn model(&self) -> EventModel {
        match self {
            PipelineEvent::DetailResponse(r) => EventModel::DetailResponse(
                match r {
                    Ok(s) => Ok(s@),
                    Err(s) => Err(s@),
                },
            ),
            PipelineEvent::FetchResponse(r) => EventModel::FetchResponse(
                match r {
                    Ok(b) => Ok(b@),
                    Err(s) => Err(s@),
                },
            ),
            PipelineEvent::StagingWritten(r) => EventModel::StagingWritten(
                match r {
                    Ok(_) => Ok(()),
                    Err(s) => Err(s@),
                },
            ),
            PipelineEvent::ScratchWritten(r) => EventModel::ScratchWritten(
                match r {
                    Ok(_) => Ok(()),
                    Err(s) => Err(s@),
                },
            ),
            PipelineEvent::Proceed => EventModel::Proceed,
            PipelineEvent::CopyFinished(r) => EventModel::CopyFinished(
                match r {
                    Ok(_) => Ok(()),
                    Err(s) => Err(s@),
                },
            ),
            PipelineEvent::ScratchRemoved(r) => EventModel::ScratchRemoved(
                match r {
                    Ok(_) => Ok(()),
                    Err(s) => Err(s@),
                },
            ),
        }
    }
}

/// One piece of outside work the shell must perform for the pipeline. All
/// paths are relative to a named root, so the shell alone decides where
/// the staging, scratch and installation roots live on disk.
pub enum PipelineAction {
    /// Ask the catalog for the mod-detail document.
    ResolveDetail { mod_id: u32 },
    /// Fetch the archive bytes with a single, non-resumable GET.
    FetchUrl { url: String },
    /// Write the archive bytes to `<staging root>/<file_name>`, creating
    /// the staging directory if it is missing.
    WriteStaging { file_name: String, bytes: Vec<u8> },
    /// Create these directories and write these files under
    /// `<scratch root>/<mod_dir>`.
    WriteScratch { mod_dir: String, files: Vec<FileEntry>, dirs: Vec<RelPath> },
    /// Create the destination directory if missing and write these files
    /// and directories under the chosen installation root.
    CopyTree { target: InstallTarget, dest_name: String, files: Vec<FileEntry>, dirs: Vec<RelPath> },
    /// Remove the subtree `<scratch root>/<mod_dir>/<path>`.
    RemoveScratchDir { mod_dir: String, path: RelPath },
}

/// The abstract pipeline action.
pub ghost enum ActionModel {
    ResolveDetail { mod_id: nat },
    FetchUrl { url: Seq<char> },
    WriteStaging { file_name: Seq<char>, bytes: Seq<u8> },
    WriteScratch {
        mod_dir: Seq<char>,
        files: Seq<(Seq<Seq<char>>, Seq<u8>)>,
        dirs: Seq<Seq<Seq<char>>>,
    },
    CopyTree {
        target: InstallTarget,
        dest_name: Seq<char>,
        files: Seq<(Seq<Seq<char>>, Seq<u8>)>,
        dirs: Seq<Seq<Seq<char>>>,
    },
    RemoveScratchDir { mod_dir: Seq<char>, path: Seq<Seq<char>> },
}

impl PipelineAction {
    /// The abstract value of this action.
    pub open spec fn model(&self) -> ActionModel {
        match self {
            PipelineAction::ResolveDetail { mod_id } => ActionModel::ResolveDetail {
                mod_id: *mod_id as nat,
            },
            PipelineAction::FetchUrl { url } => ActionModel::FetchUrl { url: url@ },
            PipelineAction::WriteStaging { file_name, bytes } => ActionModel::WriteStaging {
                file_name: file_name@,
                bytes: bytes@,
            },
            PipelineAction::WriteScratch { mod_dir, files, dirs } => ActionModel::WriteScratch {
                mod_dir: mod_dir@,
                files: views_of_files(files@),
                dirs: views_of_paths(dirs@),
            },
            PipelineAction::CopyTree { target, dest_name, files, dirs } => ActionModel::CopyTree {
                target: *target,
                dest_name: dest_name@,
                files: views_of_files(files@),
                dirs: views_of_paths(dirs@),
            },
            PipelineAction::RemoveScratchDir { mod_dir, path } => ActionModel::RemoveScratchDir {
                mod_dir: mod_dir@,
                path: path@,
            },
        }
    }
}

/// What one transition yields: the next state, at most one action for the
/// shell, and the lifecycle notifications to deliver, in order.
pub struct StepResult {
    pub state: PipelineState,
    pub action: Option<PipelineAction>,
    pub notes: Vec<Notification>,
}

/// The abstract value of a transition.
pub ghost struct StepModel {
    pub state: StateModel,
    pub action: Option<ActionModel>,
    pub notes: Seq<Notification>,
}

/// The view of an optional action.
pub open spec fn opt_action_model(o: Option<PipelineAction>) -> Option<ActionModel> {
    match o {
        Some(a) => Some(a.model()),
        None => None,
    }
}

impl StepResult {
    /// The abstract value of this transition result.
    pub open spec fn model(&self) -> StepModel {
        StepModel {
            state: self.state.model(),
            action: opt_action_model(self.action),
            notes: self.notes@,
        }
    }
}

/// A transition into the failed state, announcing the failure.
pub open spec fn fail_step(mod_id: nat, error: ErrorModel) -> StepModel {
    StepModel {
        state: StateModel::Failed { mod_id, error },
        action: None,
        notes: seq![Notification::ErrorSignal],
    }
}

/// A transition that changes nothing: the event does not belong to the
/// current state.
pub open spec fn ignore_step(s: StateModel) -> StepModel {
    StepModel { state: s, action: None, notes: Seq::empty() }
}

/// The error recorded when the staged bytes cannot be read as an archive.
pub open spec fn archive_error_text() -> Seq<char> {
    "failed to read the zip archive"@
}

/// The error recorded when a detail response cannot be parsed.
pub open spec fn parse_error_text() -> Seq<char> {
    "malformed mod-detail response"@
}

/// The complete transition relation of the pipeline, one forward step per
/// outside answer. Every component decision — resolving, extension
/// inference, format support, extraction, classification, install
/// planning — is a function of the state and event alone.
pub open spec fn step_spec(s: StateModel, e: EventModel) -> StepModel {
    match (s, e) {
        (StateModel::Resolving { mod_id }, EventModel::DetailResponse(res)) => match res {
            Err(msg) => fail_step(mod_id, ErrorModel::Network(msg)),
            Ok(body) => match detail_download_url(body) {
                Err(_) => fail_step(mod_id, ErrorModel::Parse(parse_error_text())),
                Ok(None) => StepModel {
                    state: StateModel::NoDownloadAvailable { mod_id },
                    action: None,
                    notes: Seq::empty(),
                },
                Ok(Some(url)) => StepModel {
                    state: StateModel::Fetching { mod_id, url, ext: infer_extension_spec(url) },
                    action: Some(ActionModel::FetchUrl { url }),
                    notes: seq![Notification::Started],
                },
            },
        },
        (StateModel::Fetching { mod_id, url, ext }, EventModel::FetchResponse(res)) => match res {
            Err(msg) => fail_step(mod_id, ErrorModel::Network(msg)),
            Ok(bytes) => StepModel {
                state: StateModel::Staged { mod_id, ext, bytes },
                action: Some(
                    ActionModel::WriteStaging {
                        file_name: staging_file_name_spec(mod_id, ext),
                        bytes,
                    },
                ),
                notes: seq![Notification::Writing],
            },
        },
        (StateModel::Staged { mod_id, ext, bytes }, EventModel::StagingWritten(res)) => match res {
            Err(msg) => fail_step(mod_id, ErrorModel::FileSystem(msg)),
            Ok(_) => {
                if !supported_container(ext) {
                    StepModel {
                        state: StateModel::UnsupportedFormat { mod_id, ext },
                        action: None,
                        notes: seq![
                            Notification::FinishingUp,
                            Notification::UnzipUnsupported,
                            Notification::Done,
                        ],
                    }
                } else {
                    match zip_entry_list(bytes) {
                        None => StepModel {
                            state: StateModel::Failed {
                                mod_id,
                                error: ErrorModel::FileSystem(archive_error_text()),
                            },
                            action: None,
                            notes: seq![Notification::FinishingUp, Notification::ErrorSignal],
                        },
                        Some(entries) => {
                            let m = extract_model(entries);
                            StepModel {
                                state: StateModel::Extracting {
                                    mod_id,
                                    extraction: m,
                                    plan: plan_spec(m, mod_id),
                                },
                                action: Some(
                                    ActionModel::WriteScratch {
                                        mod_dir: dec_str(mod_id),
                                        files: m.files,
                                        dirs: m.dirs,
                                    },
                                ),
                                notes: seq![Notification::FinishingUp],
                            }
                        },
                    }
                }
            },
        },
        (
            StateModel::Extracting { mod_id, extraction, plan },
            EventModel::ScratchWritten(res),
        ) => match res {
            Err(msg) => fail_step(mod_id, ErrorModel::FileSystem(msg)),
            Ok(_) => StepModel {
                state: StateModel::Classifying { mod_id, extraction, plan },
                action: None,
                notes: Seq::empty(),
            },
        },
        (StateModel::Classifying { mod_id, extraction, plan }, EventModel::Proceed) => match plan {
            None => StepModel {
                state: StateModel::UnrecognizedLayout { mod_id },
                action: None,
                notes: seq![Notification::Done],
            },
            Some(p) => StepModel {
                state: StateModel::Installing { mod_id, plan: p, copied: false },
                action: Some(
                    ActionModel::CopyTree {
                        target: p.target,
                        dest_name: p.dest_name,
                        files: p.files,
                        dirs: p.dirs,
                    },
                ),
                notes: Seq::empty(),
            },
        },
        (StateModel::Installing { mod_id, plan, copied }, EventModel::CopyFinished(res)) => {
            if copied {
                ignore_step(s)
            } else {
                match res {
                    Err(msg) => fail_step(mod_id, ErrorModel::FileSystem(msg)),
                    Ok(_) => StepModel {
                        state: StateModel::Installing { mod_id, plan, copied: true },
                        action: Some(
                            ActionModel::RemoveScratchDir {
                                mod_dir: dec_str(mod_id),
                                path: plan.source_dir,
                            },
                        ),
                        notes: Seq::empty(),
                    },
                }
            }
        },
        (StateModel::Installing { mod_id, plan, copied }, EventModel::ScratchRemoved(res)) => {
            if !copied {
                ignore_step(s)
            } else {
                match res {
                    Err(msg) => fail_step(mod_id, ErrorModel::FileSystem(msg)),
                    Ok(_) => StepModel {
                        state: StateModel::Completed { mod_id },
                        action: None,
                        notes: seq![Notification::Done],
                    },
                }
            }
        },
        _ => ignore_step(s),
    }
}

/// The abstract trace of one whole run: the state reached after a
/// sequence of outside answers, with every action requested and every
/// notification delivered along the way, in order.
pub ghost struct RunModel {
    pub state: StateModel,
    pub actions: Seq<ActionModel>,
    pub notes: Seq<Notification>,
}

/// The run for `mod_id` after consuming `events`, starting as `start`
/// does and stepping as `step_spec` does.
pub open spec fn run_model(mod_id: nat, events: Seq<EventModel>) -> RunModel
    decreases events.len(),
{
    if events.len() == 0 {
        RunModel {
            state: StateModel::Resolving { mod_id },
            actions: seq![ActionModel::ResolveDetail { mod_id }],
            notes: Seq::empty(),
        }
    } else {
        let prev = run_model(mod_id, events.drop_last());
        let st = step_spec(prev.state, events.last());
        RunModel {
            state: st.state,
            actions: prev.actions + (match st.action {
                Some(a) => seq![a],
                None => Seq::empty(),
            }),
            notes: prev.notes + st.notes,
        }
    }
}

/// An action that writes to or deletes from the filesystem.
pub open spec fn is_write_action(a: ActionModel) -> bool {
    ||| a is WriteStaging
    ||| a is WriteScratch
    ||| a is CopyTree
    ||| a is RemoveScratchDir
}

/// An action that touches the scratch space or an installation root.
pub open spec fn is_scratch_action(a: ActionModel) -> bool {
    ||| a is WriteScratch
    ||| a is CopyTree
    ||| a is RemoveScratchDir
}

/// An action that writes into an installation root or removes scratch.
pub open spec fn is_install_action(a: ActionModel) -> bool {
    ||| a is CopyTree
    ||| a is RemoveScratchDir
}

/// A state that ends the run: no event changes it.
pub open spec fn is_terminal(s: StateModel) -> bool {
    ||| s is Completed
    ||| s is NoDownloadAvailable
    ||| s is UnsupportedFormat
    ||| s is UnrecognizedLayout
    ||| s is Failed
}

proof fn lemma_run_classes(mod_id: nat, events: Seq<EventModel>)
    ensures
        ({
            let run = run_model(mod_id, events);
            &&& (run.state is Resolving || run.state is NoDownloadAvailable) ==> (forall|i: int|
                0 <= i < run.actions.len() ==> !is_write_action(#[trigger] run.actions[i]))
                && run.notes == Seq::<Notification>::empty()
            &&& (run.state is Fetching || run.state is Staged || run.state
                is UnsupportedFormat) ==> (forall|i: int|
                0 <= i < run.actions.len() ==> !is_scratch_action(#[trigger] run.actions[i]))
            &&& (run.state is Extracting || run.state is Classifying || run.state
                is UnrecognizedLayout) ==> (forall|i: int|
                0 <= i < run.actions.len() ==> !is_install_action(#[trigger] run.actions[i]))
            &&& (run.state matches StateModel::Installing { copied, .. } && !copied) ==> (forall|
                i: int,
            |
                0 <= i < run.actions.len() ==> !((#[trigger] run.actions[i])
                    is RemoveScratchDir))
            &&& (is_terminal(run.state) && !(run.state is NoDownloadAvailable))
                ==> run.notes.len() > 0 && (run.notes.last() == Notification::Done
                || run.notes.last() == Notification::ErrorSignal)
        }),
    decreases events.len(),
{
    if events.len() > 0 {
        lemma_run_classes(mod_id, events.drop_last());
        let prev = run_model(mod_id, events.drop_last());
        let st = step_spec(prev.state, events.last());
        let run = run_model(mod_id, events);
        let added: Seq<ActionModel> = match st.action {
            Some(a) => seq![a],
            None => Seq::empty(),
        };
        assert(run.actions == prev.actions + added);
        assert forall|i: int|
            0 <= i < prev.actions.len() implies run.actions[i] == prev.actions[i] by {}
        assert(st.action matches Some(a) ==> run.actions.last() == a);
        if st.notes.len() > 0 {
            assert(run.notes.last() == st.notes.last());
        } else {
            assert(run.notes == prev.notes);
        }
    }
}

/// For every mod id with no resolvable download URL, the run ends in
/// `NoDownloadAvailable` having requested no filesystem write of any
/// kind, and without a single notification: nothing was started.
pub proof fn lemma_no_download_no_writes(mod_id: nat, events: Seq<EventModel>)
    requires
        run_model(mod_id, events).state is NoDownloadAvailable,
    ensures
        forall|i: int|
            0 <= i < run_model(mod_id, events).actions.len() ==> !is_write_action(
                #[trigger] run_model(mod_id, events).actions[i],
            ),
        run_model(mod_id, events).notes == Seq::<Notification>::empty(),
{
    lemma_run_classes(mod_id, events);
}

/// A fetched archive whose extension is not a supported container ends
/// the run in `UnsupportedFormat`, and no scratch write was ever
/// requested: the run leaves no scratch directory behind.
pub proof fn lemma_unsupported_leaves_no_scratch(mod_id: nat, events: Seq<EventModel>)
    requires
        run_model(mod_id, events).state is UnsupportedFormat,
    ensures
        forall|i: int|
            0 <= i < run_model(mod_id, events).actions.len() ==> !is_scratch_action(
                #[trigger] run_model(mod_id, events).actions[i],
            ),
{
    lemma_run_classes(mod_id, events);
}

/// An archive with neither marker ends the run in `UnrecognizedLayout`
/// and nothing is installed: no copy into an installation root and no
/// scratch removal was ever requested.
pub proof fn lemma_unrecognized_installs_nothing(mod_id: nat, events: Seq<EventModel>)
    requires
        run_model(mod_id, events).state is UnrecognizedLayout,
    ensures
        forall|i: int|
            0 <= i < run_model(mod_id, events).actions.len() ==> !is_install_action(
                #[trigger] run_model(mod_id, events).actions[i],
            ),
{
    lemma_run_classes(mod_id, events);
}

/// The scratch subtree is removed only after the destination copy fully
/// succeeded: a removal action arises only from the `Installing` state
/// consuming a successful copy confirmation. A failed copy therefore
/// never deletes the only copy of the extracted data.
pub proof fn lemma_removal_only_after_successful_copy(s: StateModel, e: EventModel)
    ensures
        (step_spec(s, e).action matches Some(a) && a is RemoveScratchDir) ==> ({
            &&& s matches StateModel::Installing { copied, .. }
            &&& !copied
            &&& e matches EventModel::CopyFinished(res)
            &&& res is Ok
        }),
{
}

/// Every run that reaches a terminal state other than
/// `NoDownloadAvailable` ends its notification stream loudly, with `Done`
/// or an error signal: a started run never goes silent.
pub proof fn lemma_terminal_run_is_loud(mod_id: nat, events: Seq<EventModel>)
    requires
        is_terminal(run_model(mod_id, events).state),
        !(run_model(mod_id, events).state is NoDownloadAvailable),
    ensures
        run_model(mod_id, events).notes.len() > 0,
        run_model(mod_id, events).notes.last() == Notification::Done || run_model(
            mod_id,
            events,
        ).notes.last() == Notification::ErrorSignal,
{
    lemma_run_classes(mod_id, events);
}

fn no_notes() -> (r: Vec<Notification>)
    ensures
        r@ =~= Seq::<Notification>::empty(),
{
    Vec::new()
}

fn one_note(a: Notification) -> (r: Vec<Notification>)
    ensures
        r@ =~= seq![a],
{
    let mut v: Vec<Notification> = Vec::new();
    v.push(a);
    v
}

fn two_notes(a: Notification, b: Notification) -> (r: Vec<Notification>)
    ensures
        r@ =~= seq![a, b],
{
    let mut v: Vec<Notification> = Vec::new();
    v.push(a);
    v.push(b);
    v
}

fn three_notes(a: Notification, b: Notification, c: Notification) -> (r: Vec<Notification>)
    ensures
        r@ =~= seq![a, b, c],
{
    let mut v: Vec<Notification> = Vec::new();
    v.push(a);
    v.push(b);
    v.push(c);
    v
}

fn fail_result(mod_id: u32, error: ModManagerError) -> (r: StepResult)
    ensures
        r.model() == fail_step(mod_id as nat, error.model()),
{
    StepResult {
        state: PipelineState::Failed { mod_id, error },
        action: None,
        notes: one_note(Notification::ErrorSignal),
    }
}

fn ignore_result(state: PipelineState) -> (r: StepResult)
    ensures
        r.model() == ignore_step(state.model()),
{
    StepResult { state, action: None, notes: no_notes() }
}

/// Starts a pipeline run for one mod id: the run waits in `Resolving`
/// while the shell asks the catalog for the mod's detail document.
pub fn start(mod_id: u32) -> (r: (PipelineState, PipelineAction))
    ensures
        r.0.model() == (StateModel::Resolving { mod_id: mod_id as nat }),
        r.1.model() == (ActionModel::ResolveDetail { mod_id: mod_id as nat }),
{
    (PipelineState::Resolving { mod_id }, PipelineAction::ResolveDetail { mod_id })
}

/// Advances a pipeline run by one outside answer, exactly as `step_spec`
/// prescribes: the next state, at most one action for the shell, and the
/// lifecycle notifications to deliver. An event that does not belong to
/// the current state changes nothing.
pub fn step(state: PipelineState, event: PipelineEvent) -> (r: StepResult)
    ensures
        r.model() == step_spec(state.model(), event.model()),
{
    match (state, event) {
        (PipelineState::Resolving { mod_id }, PipelineEvent::DetailResponse(res)) => match res {
            Err(msg) => fail_result(mod_id, ModManagerError::NetworkError(msg)),
            Ok(body) => match resolve_download_url(body.as_str()) {
                Err(e) => fail_result(mod_id, e),
                Ok(None) => StepResult {
                    state: PipelineState::NoDownloadAvailable { mod_id },
                    action: None,
                    notes: no_notes(),
                },
                Ok(Some(url)) => {
                    let ext = infer_extension(url.as_str());
                    let action_url = crate::paths::clone_string(&url);
                    StepResult {
                        state: PipelineState::Fetching { mod_id, url, ext },
                        action: Some(PipelineAction::FetchUrl { url: action_url }),
                        notes: one_note(Notification::Started),
                    }
                },
            },
        },
        (PipelineState::Fetching { mod_id, url: _, ext }, PipelineEvent::FetchResponse(res)) => {
            match res {
                Err(msg) => fail_result(mod_id, ModManagerError::NetworkError(msg)),
                Ok(bytes) => {
                    let file_name = staging_file_name(mod_id, &ext);
                    let action_bytes = crate::archive::clone_bytes(&bytes);
                    StepResult {
                        state: PipelineState::Staged { mod_id, ext, bytes },
                        action: Some(
                            PipelineAction::WriteStaging { file_name, bytes: action_bytes },
                        ),
                        notes: one_note(Notification::Writing),
                    }
                },
            }
        },
        (PipelineState::Staged { mod_id, ext, bytes }, PipelineEvent::StagingWritten(res)) => {
            match res {
                Err(msg) => fail_result(mod_id, ModManagerError::FileSystemError(msg)),
                Ok(_) => {
                    if !is_supported_container(&ext) {
                        StepResult {
                            state: PipelineState::UnsupportedFormat { mod_id, ext },
                            action: None,
                            notes: three_notes(
                                Notification::FinishingUp,
                                Notification::UnzipUnsupported,
                                Notification::Done,
                            ),
                        }
                    } else {
                        match unzip_mod(&bytes, mod_id) {
                            Err(_) => StepResult {
                                state: PipelineState::Failed {
                                    mod_id,
                                    error: ModManagerError::FileSystemError(
                                        String::from_str("failed to read the zip archive"),
                                    ),
                                },
                                action: None,
                                notes: two_notes(
                                    Notification::FinishingUp,
                                    Notification::ErrorSignal,
                                ),
                            },
                            Ok(outcome) => {
                                let (extraction, plan) = match outcome {
                                    UnzipOutcome::Installed { extraction, plan } => (
                                        extraction,
                                        Some(plan),
                                    ),
                                    UnzipOutcome::UnrecognizedLayout { extraction } => (
                                        extraction,
                                        None,
                                    ),
                                };
                                let files = clone_file_entries(&extraction.files);
                                let dirs = clone_paths(&extraction.dirs);
                                let mod_dir = u32_to_string(mod_id);
                                StepResult {
                                    state: PipelineState::Extracting { mod_id, extraction, plan },
                                    action: Some(
                                        PipelineAction::WriteScratch { mod_dir, files, dirs },
                                    ),
                                    notes: one_note(Notification::FinishingUp),
                                }
                            },
                        }
                    }
                },
            }
        },
        (
            PipelineState::Extracting { mod_id, extraction, plan },
            PipelineEvent::ScratchWritten(res),
        ) => match res {
            Err(msg) => fail_result(mod_id, ModManagerError::FileSystemError(msg)),
            Ok(_) => StepResult {
                state: PipelineState::Classifying { mod_id, extraction, plan },
                action: None,
                notes: no_notes(),
            },
        },
        (
            PipelineState::Classifying { mod_id, extraction: _, plan },
            PipelineEvent::Proceed,
        ) => match plan {
            None => StepResult {
                state: PipelineState::UnrecognizedLayout { mod_id },
                action: None,
                notes: one_note(Notification::Done),
            },
            Some(p) => {
                let dest_name = crate::paths::clone_string(&p.dest_name);
                let files = clone_file_entries(&p.files);
                let dirs = clone_paths(&p.dirs);
                let target = p.target;
                StepResult {
                    state: PipelineState::Installing { mod_id, plan: p, copied: false },
                    action: Some(PipelineAction::CopyTree { target, dest_name, files, dirs }),
                    notes: no_notes(),
                }
            },
        },
        (
            PipelineState::Installing { mod_id, plan, copied },
            PipelineEvent::CopyFinished(res),
        ) => {
            if copied {
                ignore_result(PipelineState::Installing { mod_id, plan, copied })
            } else {
                match res {
                    Err(msg) => fail_result(mod_id, ModManagerError::FileSystemError(msg)),
                    Ok(_) => {
                        let mod_dir = u32_to_string(mod_id);
                        let path = plan.source_dir.duplicate();
                        StepResult {
                            state: PipelineState::Installing { mod_id, plan, copied: true },
                            action: Some(PipelineAction::RemoveScratchDir { mod_dir, path }),
                            notes: no_notes(),
                        }
                    },
                }
            }
        },
        (
            PipelineState::Installing { mod_id, plan, copied },
            PipelineEvent::ScratchRemoved(res),
        ) => {
            if !copied {
                ignore_result(PipelineState::Installing { mod_id, plan, copied })
            } else {
                match res {
                    Err(msg) => fail_result(mod_id, ModManagerError::FileSystemError(msg)),
                    Ok(_) => StepResult {
                        state: PipelineState::Completed { mod_id },
                        action: None,
                        notes: one_note(Notification::Done),
                    },
                }
            }
        },
        (s, _) => ignore_result(s),
    }
}

} // verus!
