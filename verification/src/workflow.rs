//! The workflow dispatcher and executor as an explicit state machine.
//!
//! All decisions of a rename run live here, verified: which metadata source
//! to use, the pre-flight path checks, discovery filtering, sorting, the
//! count check, the container-exists guard, the confirmation gate, and the
//! order of the filesystem mutations.  The surrounding binary performs one
//! [`Action`] at a time and feeds the observed result back as an [`Event`];
//! it makes no decision of its own.

use vstd::prelude::*;
use vstd::string::StringExecFns;
use crate::cli::InputType;
use crate::cli::MetadataInputType;
use crate::cli::RenameArgs;
use crate::dirs::ProcessingDir;
use crate::dirs::RipsSessionRenamesDir;
use crate::dirs::EncodesDir;
use crate::dirs::SessionNumberDir;
use crate::dirs::join_path;
use crate::dirs::path_join;
use crate::dirs::session_dir_name;
use crate::discovery::WalkEntry;
use crate::discovery::get_ripped_filenames;
use crate::discovery::spec_discover;
use crate::models::MetadataPayload;
use crate::models::Output;
use crate::models::Rename;
use crate::models::RenamerError;
use crate::models::RenamesResult;
use crate::naming::movie_folder_name;
use crate::naming::series_folder_name;
use crate::plan::RenamePlan;
use crate::plan::build_movie_plan;
use crate::plan::build_series_plan;
use crate::plan::spec_movie_renames;
use crate::plan::spec_series_renames;
use crate::sort::sorted_files;
use crate::strutil::str_eq;

verus! {

/// The metadata source a run was configured with.
#[derive(Debug, Clone)]
pub enum ConfigMetadataInputType {
    Url(String),
    File(String),
    Invalid,
}

/// Classifies the supplied metadata options.  Exactly one of URL and file
/// must be given; both or neither is an invalid configuration.
pub fn get_metadata_type(input_type: &MetadataInputType) -> (r: ConfigMetadataInputType)
    ensures
        r is Url <==> (input_type.url_metadata is Some && input_type.file_metadata is None),
        r is File <==> (input_type.url_metadata is None && input_type.file_metadata is Some),
        r matches ConfigMetadataInputType::Url(u) ==> (input_type.url_metadata matches Some(u0)
            && u@ == u0@),
        r matches ConfigMetadataInputType::File(f) ==> (input_type.file_metadata matches Some(f0)
            && f@ == f0@),
{
    match (&input_type.url_metadata, &input_type.file_metadata) {
        (Some(url), None) => ConfigMetadataInputType::Url(url.clone()),
        (None, Some(file)) => ConfigMetadataInputType::File(file.clone()),
        _ => ConfigMetadataInputType::Invalid,
    }
}

/// The confirmation gate's decision: exactly the literal line `y` proceeds;
/// anything else aborts.
pub fn confirm_decision(line: &str) -> (r: RenamesResult)
    ensures
        r is Correct <==> line@ == "y"@,
{
    proof {
        reveal_strlit("y");
    }
    if str_eq(line, "y") {
        RenamesResult::Correct
    } else {
        RenamesResult::Wrong
    }
}

/// What the surrounding binary observed after performing the last action.
#[derive(Debug, PartialEq)]
pub enum Event {
    PathsChecked { processing_exists: bool, metadata_exists: bool },
    MetadataFetched { payload: MetadataPayload },
    MetadataFetchFailed { message: String },
    MetadataDecodeFailed { message: String },
    ProcessingDirChecked { exists: bool },
    MetadataFileRead { payload: MetadataPayload },
    MetadataFileAccessFailed { message: String },
    MetadataFileDecodeFailed { message: String },
    SessionFilesListed { entries: Vec<WalkEntry> },
    ContainerDirChecked { exists: bool },
    ConfirmationAnswered { line: String },
    FilesRenamed,
    FileRenameFailed { from: String, to: String, message: String },
    ContainerDirCreated,
    ContainerDirCreateFailed { message: String },
    MarkerFileWritten,
    MarkerFileOpenFailed { message: String },
    MarkerFileWriteFailed { message: String },
}

/// What the surrounding binary must do next.
#[derive(Debug, PartialEq)]
pub enum Action {
    CheckPaths { processing_dir: String, metadata_path: String },
    FetchMetadata { url: String, kind: InputType },
    CheckProcessingDir { processing_dir: String },
    ReadMetadataFile { path: String, kind: InputType },
    ListSessionFiles { dir: String },
    CheckContainerDir { dir: String },
    AskConfirmation { renames: Vec<Rename>, encoded_dir: String },
    RenameFiles { renames: Vec<Rename> },
    CreateContainerDir { dir: String },
    WriteMarkerFile { path: String, content: String },
    Finish,
}

/// Where a run stands.
#[derive(Debug, PartialEq)]
pub enum Phase {
    CheckingPaths { file: String },
    FetchingMetadata { url: String },
    CheckingProcessingDir { payload: MetadataPayload },
    ReadingMetadata { file: String },
    Listing { payload: MetadataPayload },
    CheckingContainer { plan: RenamePlan },
    CheckingContainerSkip { encoded_dir: String },
    Confirming { plan: RenamePlan },
    Renaming { plan: RenamePlan },
    CreatingContainer { encoded_dir: String },
    WritingMarker { encoded_dir: String },
    Finished { outcome: Result<Output, RenamerError> },
}

/// One rename run: its fixed configuration and its current phase.
#[derive(Debug, PartialEq)]
pub struct RenameWorkflow {
    pub kind: InputType,
    pub skip_files: bool,
    pub processing_dir: String,
    pub rips_session_dir: String,
    pub renames_dir: String,
    pub encodes_dir: String,
    pub phase: Phase,
}

/// An action that changes the filesystem.
pub open spec fn is_mutating_action(a: Action) -> bool {
    ||| a matches Action::RenameFiles { .. }
    ||| a matches Action::CreateContainerDir { .. }
    ||| a matches Action::WriteMarkerFile { .. }
}

/// The phases a run only reaches once mutation has been authorised: after
/// an affirmative confirmation, or, in skip-files mode, after the
/// container-exists guard passed.
pub open spec fn in_mutation_zone(p: Phase) -> bool {
    ||| p matches Phase::Renaming { .. }
    ||| p matches Phase::CreatingContainer { .. }
    ||| p matches Phase::WritingMarker { .. }
}

/// A step never changes the run's configuration.
pub open spec fn same_config(pre: RenameWorkflow, post: RenameWorkflow) -> bool {
    &&& post.kind == pre.kind
    &&& post.skip_files == pre.skip_files
    &&& post.processing_dir@ == pre.processing_dir@
    &&& post.rips_session_dir@ == pre.rips_session_dir@
    &&& post.renames_dir@ == pre.renames_dir@
    &&& post.encodes_dir@ == pre.encodes_dir@
}

/// The destination container directory a metadata payload maps to.
pub open spec fn spec_container(payload: MetadataPayload, encodes_dir: Seq<char>) -> Seq<char> {
    match payload {
        MetadataPayload::Series(ed) => path_join(
            encodes_dir,
            series_folder_name(ed@.metadata.name, ed@.metadata.tvdb_id, ed@.metadata.season_number),
        ),
        MetadataPayload::Movie(md) => path_join(
            encodes_dir,
            movie_folder_name(md@.name, md@.tvdb_id),
        ),
    }
}

/// Entering the pipeline proper once metadata is at hand and the processing
/// directory is known to exist: skip-files mode goes straight to the
/// container guard, otherwise discovery starts.
pub open spec fn program_entry(
    pre: RenameWorkflow,
    payload: MetadataPayload,
    post: RenameWorkflow,
    a: Action,
) -> bool {
    if pre.skip_files {
        &&& post.phase matches Phase::CheckingContainerSkip { encoded_dir } && encoded_dir@
            == spec_container(payload, pre.encodes_dir@)
        &&& a matches Action::CheckContainerDir { dir } && dir@ == spec_container(
            payload,
            pre.encodes_dir@,
        )
    } else {
        &&& post.phase matches Phase::Listing { payload: p } && p == payload
        &&& a matches Action::ListSessionFiles { dir } && dir@ == pre.rips_session_dir@
    }
}

/// Which event answers which phase.
pub open spec fn event_fits(m: RenameWorkflow, e: Event) -> bool {
    match (m.phase, e) {
        (Phase::CheckingPaths { .. }, Event::PathsChecked { .. }) => true,
        (Phase::FetchingMetadata { .. }, Event::MetadataFetched { .. }) => true,
        (Phase::FetchingMetadata { .. }, Event::MetadataFetchFailed { .. }) => true,
        (Phase::FetchingMetadata { .. }, Event::MetadataDecodeFailed { .. }) => true,
        (Phase::CheckingProcessingDir { .. }, Event::ProcessingDirChecked { .. }) => true,
        (Phase::ReadingMetadata { .. }, Event::MetadataFileRead { .. }) => true,
        (Phase::ReadingMetadata { .. }, Event::MetadataFileAccessFailed { .. }) => true,
        (Phase::ReadingMetadata { .. }, Event::MetadataFileDecodeFailed { .. }) => true,
        (Phase::Listing { .. }, Event::SessionFilesListed { .. }) => true,
        (Phase::CheckingContainer { .. }, Event::ContainerDirChecked { .. }) => true,
        (Phase::CheckingContainerSkip { .. }, Event::ContainerDirChecked { .. }) => true,
        (Phase::Confirming { .. }, Event::ConfirmationAnswered { .. }) => true,
        (Phase::Renaming { .. }, Event::FilesRenamed) => true,
        (Phase::Renaming { .. }, Event::FileRenameFailed { .. }) => true,
        (Phase::CreatingContainer { .. }, Event::ContainerDirCreated) => true,
        (Phase::CreatingContainer { .. }, Event::ContainerDirCreateFailed { .. }) => true,
        (Phase::WritingMarker { .. }, Event::MarkerFileWritten) => true,
        (Phase::WritingMarker { .. }, Event::MarkerFileOpenFailed { .. }) => true,
        (Phase::WritingMarker { .. }, Event::MarkerFileWriteFailed { .. }) => true,
        _ => false,
    }
}

/// The transition relation of the workflow: what one step does, for every
/// phase and event.
pub open spec fn step_rel(pre: RenameWorkflow, e: Event, post: RenameWorkflow, a: Action) -> bool {
    &&& same_config(pre, post)
    &&& match (pre.phase, e) {
        (
            Phase::CheckingPaths { file },
            Event::PathsChecked { processing_exists, metadata_exists },
        ) => {
            if metadata_exists && processing_exists {
                &&& post.phase matches Phase::ReadingMetadata { file: f2 } && f2@ == file@
                &&& a matches Action::ReadMetadataFile { path, kind } && path@ == file@ && kind
                    == pre.kind
            } else if !metadata_exists && !processing_exists {
                &&& post.phase matches Phase::Finished { outcome: Err(err) } && err
                    matches RenamerError::ProcessingDirAndMetadaPathDoesNotExit(p, m) && p@
                    == pre.processing_dir@ && m@ == file@
                &&& a matches Action::Finish
            } else if !processing_exists {
                &&& post.phase matches Phase::Finished { outcome: Err(err) } && err
                    matches RenamerError::ProcessingDirectoryDoesNotExist(p) && p@
                    == pre.processing_dir@
                &&& a matches Action::Finish
            } else {
                &&& post.phase matches Phase::Finished { outcome: Err(err) } && err
                    matches RenamerError::MetadataDirectoryDoesNotExist(m) && m@ == file@
                &&& a matches Action::Finish
            }
        },
        (Phase::FetchingMetadata { url }, Event::MetadataFetched { payload }) => {
            &&& post.phase matches Phase::CheckingProcessingDir { payload: p } && p == payload
            &&& a matches Action::CheckProcessingDir { processing_dir } && processing_dir@
                == pre.processing_dir@
        },
        (Phase::FetchingMetadata { url }, Event::MetadataFetchFailed { message }) => {
            &&& post.phase matches Phase::Finished { outcome: Err(err) } && err
                matches RenamerError::CouldNotAccessMetadataURL(u, m) && u@ == url@ && m@
                == message@
            &&& a matches Action::Finish
        },
        (Phase::FetchingMetadata { url }, Event::MetadataDecodeFailed { message }) => {
            &&& post.phase matches Phase::Finished { outcome: Err(err) } && err
                matches RenamerError::CouldNotDecodeMetadataBody(u, m) && u@ == url@ && m@
                == message@
            &&& a matches Action::Finish
        },
        (Phase::CheckingProcessingDir { payload }, Event::ProcessingDirChecked { exists }) => {
            if exists {
                program_entry(pre, payload, post, a)
            } else {
                &&& post.phase matches Phase::Finished { outcome: Err(err) } && err
                    matches RenamerError::ProcessingDirectoryDoesNotExist(p) && p@
                    == pre.processing_dir@
                &&& a matches Action::Finish
            }
        },
        (Phase::ReadingMetadata { file }, Event::MetadataFileRead { payload }) => {
            program_entry(pre, payload, post, a)
        },
        (Phase::ReadingMetadata { file }, Event::MetadataFileAccessFailed { message }) => {
            &&& post.phase matches Phase::Finished { outcome: Err(err) } && err
                matches RenamerError::CouldNotAccessMetadataFile(f, m) && f@ == file@ && m@
                == message@
            &&& a matches Action::Finish
        },
        (Phase::ReadingMetadata { file }, Event::MetadataFileDecodeFailed { message }) => {
            &&& post.phase matches Phase::Finished { outcome: Err(err) } && err
                matches RenamerError::CouldNotDecodeEpisodeJson(f, m) && f@ == file@ && m@
                == message@
            &&& a matches Action::Finish
        },
        (Phase::Listing { payload }, Event::SessionFilesListed { entries }) => {
            let sorted = sorted_files(spec_discover(entries.deep_view()));
            match payload {
                MetadataPayload::Series(ed) => {
                    if sorted.len() > ed@.episodes.len() {
                        &&& post.phase matches Phase::Finished { outcome: Err(err) } && err
                            matches RenamerError::NotEnoughMetadataForEpisodes(m, f) && m as int
                            == ed@.episodes.len() && f as int == sorted.len()
                        &&& a matches Action::Finish
                    } else {
                        &&& post.phase matches Phase::CheckingContainer { plan }
                            && plan.renames.deep_view() == spec_series_renames(
                            sorted,
                            ed@.episodes,
                            pre.renames_dir@,
                        ) && plan.encoded_dir@ == spec_container(payload, pre.encodes_dir@)
                        &&& a matches Action::CheckContainerDir { dir } && dir@ == spec_container(
                            payload,
                            pre.encodes_dir@,
                        )
                    }
                },
                MetadataPayload::Movie(md) => {
                    &&& post.phase matches Phase::CheckingContainer { plan }
                        && plan.renames.deep_view() == spec_movie_renames(
                        sorted,
                        md@,
                        pre.renames_dir@,
                    ) && plan.encoded_dir@ == spec_container(payload, pre.encodes_dir@)
                    &&& a matches Action::CheckContainerDir { dir } && dir@ == spec_container(
                        payload,
                        pre.encodes_dir@,
                    )
                },
            }
        },
        (Phase::CheckingContainer { plan }, Event::ContainerDirChecked { exists }) => {
            if exists {
                &&& post.phase matches Phase::Finished { outcome: Err(err) } && err
                    matches RenamerError::SeriesDirectoryAlreadyExists(p) && p@
                    == plan.encoded_dir@
                &&& a matches Action::Finish
            } else if plan.renames.deep_view().len() == 0 {
                &&& post.phase matches Phase::Finished {
                    outcome: Err(RenamerError::NoFilesToRename),
                }
                &&& a matches Action::Finish
            } else {
                &&& post.phase matches Phase::Confirming { plan: p2 }
                    && p2.renames.deep_view() == plan.renames.deep_view() && p2.encoded_dir@
                    == plan.encoded_dir@
                &&& a matches Action::AskConfirmation { renames, encoded_dir }
                    && renames.deep_view() == plan.renames.deep_view() && encoded_dir@
                    == plan.encoded_dir@
            }
        },
        (Phase::CheckingContainerSkip { encoded_dir }, Event::ContainerDirChecked { exists }) => {
            if exists {
                &&& post.phase matches Phase::Finished { outcome: Err(err) } && err
                    matches RenamerError::SeriesDirectoryAlreadyExists(p) && p@ == encoded_dir@
                &&& a matches Action::Finish
            } else {
                &&& post.phase matches Phase::CreatingContainer { encoded_dir: d2 } && d2@
                    == encoded_dir@
                &&& a matches Action::CreateContainerDir { dir } && dir@ == encoded_dir@
            }
        },
        (Phase::Confirming { plan }, Event::ConfirmationAnswered { line }) => {
            if line@ == "y"@ {
                &&& post.phase matches Phase::Renaming { plan: p2 }
                    && p2.renames.deep_view() == plan.renames.deep_view() && p2.encoded_dir@
                    == plan.encoded_dir@
                &&& a matches Action::RenameFiles { renames } && renames.deep_view()
                    == plan.renames.deep_view()
            } else {
                &&& post.phase matches Phase::Finished { outcome: Ok(o) } && o is UserCanceled
                &&& a matches Action::Finish
            }
        },
        (Phase::Renaming { plan }, Event::FilesRenamed) => {
            &&& post.phase matches Phase::CreatingContainer { encoded_dir } && encoded_dir@
                == plan.encoded_dir@
            &&& a matches Action::CreateContainerDir { dir } && dir@ == plan.encoded_dir@
        },
        (Phase::Renaming { plan }, Event::FileRenameFailed { from, to, message }) => {
            &&& post.phase matches Phase::Finished { outcome: Err(err) } && err
                matches RenamerError::CouldNotRenameFile(f, t, m) && f@ == from@ && t@ == to@
                && m@ == message@
            &&& a matches Action::Finish
        },
        (Phase::CreatingContainer { encoded_dir }, Event::ContainerDirCreated) => {
            &&& post.phase matches Phase::WritingMarker { encoded_dir: d2 } && d2@ == encoded_dir@
            &&& a matches Action::WriteMarkerFile { path, content } && path@ == path_join(
                pre.renames_dir@,
                "encode_dir.txt"@,
            ) && content@ == encoded_dir@
        },
        (Phase::CreatingContainer { encoded_dir }, Event::ContainerDirCreateFailed { message }) => {
            &&& post.phase matches Phase::Finished { outcome: Err(err) } && err
                matches RenamerError::CouldNotCreatedSeriesDirectory(d, m) && d@ == encoded_dir@
                && m@ == message@
            &&& a matches Action::Finish
        },
        (Phase::WritingMarker { encoded_dir }, Event::MarkerFileWritten) => {
            &&& post.phase matches Phase::Finished { outcome: Ok(o) } && o is Success
            &&& a matches Action::Finish
        },
        (Phase::WritingMarker { encoded_dir }, Event::MarkerFileOpenFailed { message }) => {
            &&& post.phase matches Phase::Finished { outcome: Err(err) } && err
                matches RenamerError::CouldNotOpenEncodesFile(p, m) && p@ == path_join(
                pre.renames_dir@,
                "encode_dir.txt"@,
            ) && m@ == message@
            &&& a matches Action::Finish
        },
        (Phase::WritingMarker { encoded_dir }, Event::MarkerFileWriteFailed { message }) => {
            &&& post.phase matches Phase::Finished { outcome: Err(err) } && err
                matches RenamerError::CouldNotWriteEncodesFile(p, m) && p@ == path_join(
                pre.renames_dir@,
                "encode_dir.txt"@,
            ) && m@ == message@
            &&& a matches Action::Finish
        },
        _ => false,
    }
}

/// What starting a run establishes: the directory layout is derived from
/// the arguments, and the metadata source decides the first phase.
pub open spec fn start_rel(
    kind: InputType,
    args: RenameArgs,
    m: RenameWorkflow,
    a: Action,
) -> bool {
    &&& m.kind == kind
    &&& m.skip_files == args.skip_files
    &&& m.processing_dir@ == args.processing_dir@
    &&& m.rips_session_dir@ == path_join(
        path_join(args.processing_dir@, "Rips"@),
        session_dir_name(args.session_number as int),
    )
    &&& m.renames_dir@ == path_join(
        path_join(args.processing_dir@, "Rips"@),
        path_join(session_dir_name(args.session_number as int), "renames"@),
    )
    &&& m.encodes_dir@ == (if kind is Series {
        path_join(path_join(args.processing_dir@, "Encodes"@), "tv"@)
    } else {
        path_join(path_join(args.processing_dir@, "Encodes"@), "movies"@)
    })
    &&& match (args.metadata_input_type.url_metadata, args.metadata_input_type.file_metadata) {
        (Some(url), None) => {
            &&& m.phase matches Phase::FetchingMetadata { url: u } && u@ == url@
            &&& a matches Action::FetchMetadata { url: u2, kind: k } && u2@ == url@ && k == kind
        },
        (None, Some(file)) => {
            &&& m.phase matches Phase::CheckingPaths { file: f } && f@ == file@
            &&& a matches Action::CheckPaths { processing_dir, metadata_path } && processing_dir@
                == args.processing_dir@ && metadata_path@ == file@
        },
        (Some(url), Some(file)) => {
            &&& m.phase matches Phase::Finished { outcome: Err(err) } && err
                matches RenamerError::InvalidMetadataConfiguration(msg) && msg@
                == "both url and file metadata were supplied"@
            &&& a matches Action::Finish
        },
        (None, None) => {
            &&& m.phase matches Phase::Finished { outcome: Err(err) } && err
                matches RenamerError::InvalidMetadataConfiguration(msg) && msg@
                == "neither url nor file metadata was supplied"@
            &&& a matches Action::Finish
        },
    }
}

/// A verified copy of a rename list (the derived `Clone` carries no
/// specification).
fn clone_renames(renames: &Vec<Rename>) -> (r: Vec<Rename>)
    ensures
        r.deep_view() == renames.deep_view(),
{
    let mut r: Vec<Rename> = Vec::new();
    let mut i: usize = 0;
    proof {
        assert(r.deep_view() =~= renames.deep_view().subrange(0, 0));
    }
    while i < renames.len()
        invariant
            i <= renames@.len(),
            r.deep_view() == renames.deep_view().subrange(0, i as int),
        decreases renames@.len() - i,
    {
        let x = &renames[i];
        let ghost r_pre = r.deep_view();
        r.push(
            Rename {
                from_file_name: x.from_file_name.clone(),
                to_file_name: x.to_file_name.clone(),
            },
        );
        proof {
            assert(r.deep_view() =~= r_pre.push(renames.deep_view()[i as int]));
            assert(r.deep_view() =~= renames.deep_view().subrange(0, i + 1 as int));
        }
        i = i + 1;
    }
    proof {
        assert(renames.deep_view().subrange(0, renames.deep_view().len() as int)
            =~= renames.deep_view());
    }
    r
}

impl RenameWorkflow {
    /// Starts a rename run from the command-line arguments.  Returns the
    /// initial machine and the first action to perform.
    pub fn start(kind: InputType, rename_args: RenameArgs) -> (r: (RenameWorkflow, Action))
        ensures
            start_rel(kind, rename_args, r.0, r.1),
    {
        let RenameArgs {
            metadata_input_type,
            processing_dir,
            session_number,
            verbose: _,
            skip_files,
        } = rename_args;
        let processing = ProcessingDir(processing_dir.clone());
        let session = SessionNumberDir::new(session_number);
        let rips_session_dir = processing.rips_session_number(&session).0;
        let renames_dir = processing.rips_session_renames_dir(&session).0;
        let encodes_dir = match kind {
            InputType::Series => processing.tv_encodes_dir().0,
            InputType::Movie => processing.movies_encodes_dir().0,
        };
        match get_metadata_type(&metadata_input_type) {
            ConfigMetadataInputType::Url(url) => {
                let action_url = url.clone();
                (
                    RenameWorkflow {
                        kind,
                        skip_files,
                        processing_dir,
                        rips_session_dir,
                        renames_dir,
                        encodes_dir,
                        phase: Phase::FetchingMetadata { url },
                    },
                    Action::FetchMetadata { url: action_url, kind },
                )
            },
            ConfigMetadataInputType::File(file) => {
                let metadata_path = file.clone();
                let check_dir = processing_dir.clone();
                (
                    RenameWorkflow {
                        kind,
                        skip_files,
                        processing_dir,
                        rips_session_dir,
                        renames_dir,
                        encodes_dir,
                        phase: Phase::CheckingPaths { file },
                    },
                    Action::CheckPaths { processing_dir: check_dir, metadata_path },
                )
            },
            ConfigMetadataInputType::Invalid => {
                proof {
                    reveal_strlit("both url and file metadata were supplied");
                    reveal_strlit("neither url nor file metadata was supplied");
                }
                let message = if metadata_input_type.url_metadata.is_some() {
                    "both url and file metadata were supplied".to_owned()
                } else {
                    "neither url nor file metadata was supplied".to_owned()
                };
                (
                    RenameWorkflow {
                        kind,
                        skip_files,
                        processing_dir,
                        rips_session_dir,
                        renames_dir,
                        encodes_dir,
                        phase: Phase::Finished {
                            outcome: Err(RenamerError::InvalidMetadataConfiguration(message)),
                        },
                    },
                    Action::Finish,
                )
            },
        }
    }

    /// Performs one transition: consumes the observed event, returns the
    /// next machine and the next action.
    pub fn step(self, event: Event) -> (r: (RenameWorkflow, Action))
        requires
            event_fits(self, event),
        ensures
            step_rel(self, event, r.0, r.1),
    {
        let ghost pre = self;
        let RenameWorkflow {
            kind,
            skip_files,
            processing_dir,
            rips_session_dir,
            renames_dir,
            encodes_dir,
            phase,
        } = self;
        match (phase, event) {
            (
                Phase::CheckingPaths { file },
                Event::PathsChecked { processing_exists, metadata_exists },
            ) => {
                if metadata_exists && processing_exists {
                    let path = file.clone();
                    (
                        RenameWorkflow {
                            kind,
                            skip_files,
                            processing_dir,
                            rips_session_dir,
                            renames_dir,
                            encodes_dir,
                            phase: Phase::ReadingMetadata { file },
                        },
                        Action::ReadMetadataFile { path, kind },
                    )
                } else if !metadata_exists && !processing_exists {
                    let err = RenamerError::ProcessingDirAndMetadaPathDoesNotExit(
                        processing_dir.clone(),
                        file,
                    );
                    (
                        RenameWorkflow {
                            kind,
                            skip_files,
                            processing_dir,
                            rips_session_dir,
                            renames_dir,
                            encodes_dir,
                            phase: Phase::Finished { outcome: Err(err) },
                        },
                        Action::Finish,
                    )
                } else if !processing_exists {
                    let err = RenamerError::ProcessingDirectoryDoesNotExist(
                        processing_dir.clone(),
                    );
                    (
                        RenameWorkflow {
                            kind,
                            skip_files,
                            processing_dir,
                            rips_session_dir,
                            renames_dir,
                            encodes_dir,
                            phase: Phase::Finished { outcome: Err(err) },
                        },
                        Action::Finish,
                    )
                } else {
                    let err = RenamerError::MetadataDirectoryDoesNotExist(file);
                    (
                        RenameWorkflow {
                            kind,
                            skip_files,
                            processing_dir,
                            rips_session_dir,
                            renames_dir,
                            encodes_dir,
                            phase: Phase::Finished { outcome: Err(err) },
                        },
                        Action::Finish,
                    )
                }
            },
            (Phase::FetchingMetadata { url: _ }, Event::MetadataFetched { payload }) => {
                let check_dir = processing_dir.clone();
                (
                    RenameWorkflow {
                        kind,
                        skip_files,
                        processing_dir,
                        rips_session_dir,
                        renames_dir,
                        encodes_dir,
                        phase: Phase::CheckingProcessingDir { payload },
                    },
                    Action::CheckProcessingDir { processing_dir: check_dir },
                )
            },
            (Phase::FetchingMetadata { url }, Event::MetadataFetchFailed { message }) => {
                let err = RenamerError::CouldNotAccessMetadataURL(url, message);
                (
                    RenameWorkflow {
                        kind,
                        skip_files,
                        processing_dir,
                        rips_session_dir,
                        renames_dir,
                        encodes_dir,
                        phase: Phase::Finished { outcome: Err(err) },
                    },
                    Action::Finish,
                )
            },
            (Phase::FetchingMetadata { url }, Event::MetadataDecodeFailed { message }) => {
                let err = RenamerError::CouldNotDecodeMetadataBody(url, message);
                (
                    RenameWorkflow {
                        kind,
                        skip_files,
                        processing_dir,
                        rips_session_dir,
                        renames_dir,
                        encodes_dir,
                        phase: Phase::Finished { outcome: Err(err) },
                    },
                    Action::Finish,
                )
            },
            (
                Phase::CheckingProcessingDir { payload },
                Event::ProcessingDirChecked { exists },
            ) => {
                if exists {
                    Self::enter_program(
                        kind,
                        skip_files,
                        processing_dir,
                        rips_session_dir,
                        renames_dir,
                        encodes_dir,
                        payload,
                    )
                } else {
                    let err = RenamerError::ProcessingDirectoryDoesNotExist(
                        processing_dir.clone(),
                    );
                    (
                        RenameWorkflow {
                            kind,
                            skip_files,
                            processing_dir,
                            rips_session_dir,
                            renames_dir,
                            encodes_dir,
                            phase: Phase::Finished { outcome: Err(err) },
                        },
                        Action::Finish,
                    )
                }
            },
            (Phase::ReadingMetadata { file: _ }, Event::MetadataFileRead { payload }) => {
                Self::enter_program(
                    kind,
                    skip_files,
                    processing_dir,
                    rips_session_dir,
                    renames_dir,
                    encodes_dir,
                    payload,
                )
            },
            (Phase::ReadingMetadata { file }, Event::MetadataFileAccessFailed { message }) => {
                let err = RenamerError::CouldNotAccessMetadataFile(file, message);
                (
                    RenameWorkflow {
                        kind,
                        skip_files,
                        processing_dir,
                        rips_session_dir,
                        renames_dir,
                        encodes_dir,
                        phase: Phase::Finished { outcome: Err(err) },
                    },
                    Action::Finish,
                )
            },
            (Phase::ReadingMetadata { file }, Event::MetadataFileDecodeFailed { message }) => {
                let err = RenamerError::CouldNotDecodeEpisodeJson(file, message);
                (
                    RenameWorkflow {
                        kind,
                        skip_files,
                        processing_dir,
                        rips_session_dir,
                        renames_dir,
                        encodes_dir,
                        phase: Phase::Finished { outcome: Err(err) },
                    },
                    Action::Finish,
                )
            },
            (Phase::Listing { payload }, Event::SessionFilesListed { entries }) => {
                let files = get_ripped_filenames(&entries);
                let ghost fv = files.deep_view();
                proof {
                    crate::sort::lemma_fne_total_ordering();
                    fv.lemma_sort_by_ensures(crate::sort::fne_leq());
                    sorted_files(fv).to_multiset_ensures();
                    fv.to_multiset_ensures();
                    assert(sorted_files(fv).len() == fv.len());
                }
                match payload {
                    MetadataPayload::Series(ed) => {
                        match build_series_plan(
                            files,
                            &ed,
                            &RipsSessionRenamesDir(renames_dir.clone()),
                            &EncodesDir(encodes_dir.clone()),
                        ) {
                            Err(err) => (
                                RenameWorkflow {
                                    kind,
                                    skip_files,
                                    processing_dir,
                                    rips_session_dir,
                                    renames_dir,
                                    encodes_dir,
                                    phase: Phase::Finished { outcome: Err(err) },
                                },
                                Action::Finish,
                            ),
                            Ok(plan) => {
                                let dir = plan.encoded_dir.clone();
                                (
                                    RenameWorkflow {
                                        kind,
                                        skip_files,
                                        processing_dir,
                                        rips_session_dir,
                                        renames_dir,
                                        encodes_dir,
                                        phase: Phase::CheckingContainer { plan },
                                    },
                                    Action::CheckContainerDir { dir },
                                )
                            },
                        }
                    },
                    MetadataPayload::Movie(md) => {
                        let plan = build_movie_plan(
                            files,
                            &md,
                            &RipsSessionRenamesDir(renames_dir.clone()),
                            &EncodesDir(encodes_dir.clone()),
                        );
                        let dir = plan.encoded_dir.clone();
                        (
                            RenameWorkflow {
                                kind,
                                skip_files,
                                processing_dir,
                                rips_session_dir,
                                renames_dir,
                                encodes_dir,
                                phase: Phase::CheckingContainer { plan },
                            },
                            Action::CheckContainerDir { dir },
                        )
                    },
                }
            },
            (Phase::CheckingContainer { plan }, Event::ContainerDirChecked { exists }) => {
                if exists {
                    let err = RenamerError::SeriesDirectoryAlreadyExists(plan.encoded_dir);
                    (
                        RenameWorkflow {
                            kind,
                            skip_files,
                            processing_dir,
                            rips_session_dir,
                            renames_dir,
                            encodes_dir,
                            phase: Phase::Finished { outcome: Err(err) },
                        },
                        Action::Finish,
                    )
                } else if plan.renames.len() == 0 {
                    (
                        RenameWorkflow {
                            kind,
                            skip_files,
                            processing_dir,
                            rips_session_dir,
                            renames_dir,
                            encodes_dir,
                            phase: Phase::Finished {
                                outcome: Err(RenamerError::NoFilesToRename),
                            },
                        },
                        Action::Finish,
                    )
                } else {
                    let renames = clone_renames(&plan.renames);
                    let encoded_dir_copy = plan.encoded_dir.clone();
                    (
                        RenameWorkflow {
                            kind,
                            skip_files,
                            processing_dir,
                            rips_session_dir,
                            renames_dir,
                            encodes_dir,
                            phase: Phase::Confirming { plan },
                        },
                        Action::AskConfirmation { renames, encoded_dir: encoded_dir_copy },
                    )
                }
            },
            (
                Phase::CheckingContainerSkip { encoded_dir: container },
                Event::ContainerDirChecked { exists },
            ) => {
                if exists {
                    let err = RenamerError::SeriesDirectoryAlreadyExists(container);
                    (
                        RenameWorkflow {
                            kind,
                            skip_files,
                            processing_dir,
                            rips_session_dir,
                            renames_dir,
                            encodes_dir,
                            phase: Phase::Finished { outcome: Err(err) },
                        },
                        Action::Finish,
                    )
                } else {
                    let dir = container.clone();
                    (
                        RenameWorkflow {
                            kind,
                            skip_files,
                            processing_dir,
                            rips_session_dir,
                            renames_dir,
                            encodes_dir,
                            phase: Phase::CreatingContainer { encoded_dir: container },
                        },
                        Action::CreateContainerDir { dir },
                    )
                }
            },
            (Phase::Confirming { plan }, Event::ConfirmationAnswered { line }) => {
                match confirm_decision(line.as_str()) {
                    RenamesResult::Correct => {
                        let renames = clone_renames(&plan.renames);
                        (
                            RenameWorkflow {
                                kind,
                                skip_files,
                                processing_dir,
                                rips_session_dir,
                                renames_dir,
                                encodes_dir,
                                phase: Phase::Renaming { plan },
                            },
                            Action::RenameFiles { renames },
                        )
                    },
                    RenamesResult::Wrong => (
                        RenameWorkflow {
                            kind,
                            skip_files,
                            processing_dir,
                            rips_session_dir,
                            renames_dir,
                            encodes_dir,
                            phase: Phase::Finished { outcome: Ok(Output::UserCanceled) },
                        },
                        Action::Finish,
                    ),
                }
            },
            (Phase::Renaming { plan }, Event::FilesRenamed) => {
                let dir = plan.encoded_dir.clone();
                (
                    RenameWorkflow {
                        kind,
                        skip_files,
                        processing_dir,
                        rips_session_dir,
                        renames_dir,
                        encodes_dir,
                        phase: Phase::CreatingContainer { encoded_dir: plan.encoded_dir },
                    },
                    Action::CreateContainerDir { dir },
                )
            },
            (Phase::Renaming { plan: _ }, Event::FileRenameFailed { from, to, message }) => {
                let err = RenamerError::CouldNotRenameFile(from, to, message);
                (
                    RenameWorkflow {
                        kind,
                        skip_files,
                        processing_dir,
                        rips_session_dir,
                        renames_dir,
                        encodes_dir,
                        phase: Phase::Finished { outcome: Err(err) },
                    },
                    Action::Finish,
                )
            },
            (Phase::CreatingContainer { encoded_dir: container }, Event::ContainerDirCreated) => {
                let path = join_path(renames_dir.as_str(), crate::dirs::ENCODES_FILE);
                let content = container.clone();
                (
                    RenameWorkflow {
                        kind,
                        skip_files,
                        processing_dir,
                        rips_session_dir,
                        renames_dir,
                        encodes_dir,
                        phase: Phase::WritingMarker { encoded_dir: container },
                    },
                    Action::WriteMarkerFile { path, content },
                )
            },
            (
                Phase::CreatingContainer { encoded_dir: container },
                Event::ContainerDirCreateFailed { message },
            ) => {
                let err = RenamerError::CouldNotCreatedSeriesDirectory(container, message);
                (
                    RenameWorkflow {
                        kind,
                        skip_files,
                        processing_dir,
                        rips_session_dir,
                        renames_dir,
                        encodes_dir,
                        phase: Phase::Finished { outcome: Err(err) },
                    },
                    Action::Finish,
                )
            },
            (Phase::WritingMarker { encoded_dir: _ }, Event::MarkerFileWritten) => (
                RenameWorkflow {
                    kind,
                    skip_files,
                    processing_dir,
                    rips_session_dir,
                    renames_dir,
                    encodes_dir,
                    phase: Phase::Finished { outcome: Ok(Output::Success) },
                },
                Action::Finish,
            ),
            (
                Phase::WritingMarker { encoded_dir: _ },
                Event::MarkerFileOpenFailed { message },
            ) => {
                let path = join_path(renames_dir.as_str(), crate::dirs::ENCODES_FILE);
                let err = RenamerError::CouldNotOpenEncodesFile(path, message);
                (
                    RenameWorkflow {
                        kind,
                        skip_files,
                        processing_dir,
                        rips_session_dir,
                        renames_dir,
                        encodes_dir,
                        phase: Phase::Finished { outcome: Err(err) },
                    },
                    Action::Finish,
                )
            },
            (
                Phase::WritingMarker { encoded_dir: _ },
                Event::MarkerFileWriteFailed { message },
            ) => {
                let path = join_path(renames_dir.as_str(), crate::dirs::ENCODES_FILE);
                let err = RenamerError::CouldNotWriteEncodesFile(path, message);
                (
                    RenameWorkflow {
                        kind,
                        skip_files,
                        processing_dir,
                        rips_session_dir,
                        renames_dir,
                        encodes_dir,
                        phase: Phase::Finished { outcome: Err(err) },
                    },
                    Action::Finish,
                )
            },
            _ => {
                proof {
                    assert(false);
                }
                unreached()
            },
        }
    }

    /// Enters the pipeline proper once metadata is at hand and the
    /// processing directory is known to exist.
    fn enter_program(
        kind: InputType,
        skip_files: bool,
        processing_dir: String,
        rips_session_dir: String,
        renames_dir: String,
        encodes_dir: String,
        payload: MetadataPayload,
    ) -> (r: (RenameWorkflow, Action))
        ensures
            r.0.kind == kind,
            r.0.skip_files == skip_files,
            r.0.processing_dir@ == processing_dir@,
            r.0.rips_session_dir@ == rips_session_dir@,
            r.0.renames_dir@ == renames_dir@,
            r.0.encodes_dir@ == encodes_dir@,
            skip_files ==> (r.0.phase matches Phase::CheckingContainerSkip { encoded_dir }
                && encoded_dir@ == spec_container(payload, encodes_dir@)) && (r.1
                matches Action::CheckContainerDir { dir } && dir@ == spec_container(
                payload,
                encodes_dir@,
            )),
            !skip_files ==> (r.0.phase matches Phase::Listing { payload: p } && p == payload) && (
            r.1 matches Action::ListSessionFiles { dir } && dir@ == rips_session_dir@),
    {
        if skip_files {
            let container = match &payload {
                MetadataPayload::Series(ed) => crate::naming::get_series_directory(
                    &EncodesDir(encodes_dir.clone()),
                    &ed.metadata,
                ),
                MetadataPayload::Movie(md) => crate::naming::get_movie_directory(
                    &EncodesDir(encodes_dir.clone()),
                    md,
                ),
            };
            let dir = container.clone();
            (
                RenameWorkflow {
                    kind,
                    skip_files,
                    processing_dir,
                    rips_session_dir,
                    renames_dir,
                    encodes_dir,
                    phase: Phase::CheckingContainerSkip { encoded_dir: container },
                },
                Action::CheckContainerDir { dir },
            )
        } else {
            let dir = rips_session_dir.clone();
            (
                RenameWorkflow {
                    kind,
                    skip_files,
                    processing_dir,
                    rips_session_dir,
                    renames_dir,
                    encodes_dir,
                    phase: Phase::Listing { payload },
                },
                Action::ListSessionFiles { dir },
            )
        }
    }
}

/// An affirmative confirmation answer.
pub open spec fn answered_yes(e: Event) -> bool {
    e matches Event::ConfirmationAnswered { line } && line@ == "y"@
}

/// The confirmation gate: exactly the answer `y` moves the run on to the
/// renames; any other answer ends it as user-canceled, with no mutating
/// action.
pub proof fn lemma_confirmation_gate(
    pre: RenameWorkflow,
    e: Event,
    post: RenameWorkflow,
    a: Action,
)
    requires
        step_rel(pre, e, post, a),
        pre.phase matches Phase::Confirming { .. },
        e matches Event::ConfirmationAnswered { .. },
    ensures
        e->ConfirmationAnswered_line@ == "y"@ ==> (post.phase matches Phase::Renaming { plan: p2 }
            && p2.renames.deep_view() == pre.phase->Confirming_plan.renames.deep_view()) && (a
            matches Action::RenameFiles { renames } && renames.deep_view()
            == pre.phase->Confirming_plan.renames.deep_view()),
        e->ConfirmationAnswered_line@ != "y"@ ==> (post.phase matches Phase::Finished {
            outcome: Ok(o),
        } && o is UserCanceled) && (a matches Action::Finish) && !is_mutating_action(a),
{
}

/// The container-exists guard: a container directory that already exists
/// ends the run with the already-exists error, and the step performs no
/// mutation.
pub proof fn lemma_container_exists_aborts(
    pre: RenameWorkflow,
    e: Event,
    post: RenameWorkflow,
    a: Action,
)
    requires
        step_rel(pre, e, post, a),
        pre.phase matches Phase::CheckingContainer { .. } || pre.phase
            matches Phase::CheckingContainerSkip { .. },
        e matches Event::ContainerDirChecked { exists: true },
    ensures
        !is_mutating_action(a),
        pre.phase matches Phase::CheckingContainer { plan } ==> (post.phase
            matches Phase::Finished { outcome: Err(err) } && err
            matches RenamerError::SeriesDirectoryAlreadyExists(p) && p@ == plan.encoded_dir@),
        pre.phase matches Phase::CheckingContainerSkip { encoded_dir } ==> (post.phase
            matches Phase::Finished { outcome: Err(err) } && err
            matches RenamerError::SeriesDirectoryAlreadyExists(p) && p@ == encoded_dir@),
{
}

/// The marker file records exactly the container directory path, inside
/// the renames directory.
pub proof fn lemma_marker_records_container(
    pre: RenameWorkflow,
    e: Event,
    post: RenameWorkflow,
    a: Action,
)
    requires
        step_rel(pre, e, post, a),
        pre.phase matches Phase::CreatingContainer { .. },
        e matches Event::ContainerDirCreated,
    ensures
        pre.phase matches Phase::CreatingContainer { encoded_dir } ==> (a
            matches Action::WriteMarkerFile { path, content } && content@ == encoded_dir@ && path@
            == path_join(pre.renames_dir@, "encode_dir.txt"@)) && (post.phase
            matches Phase::WritingMarker { encoded_dir: d2 } && d2@ == encoded_dir@),
{
}

/// In a run that has not yet passed the confirmation gate (and is not in
/// skip-files mode), a step mutates the filesystem, or enters the phases
/// that do, only on an affirmative answer.
pub proof fn lemma_mutation_needs_confirmation(
    pre: RenameWorkflow,
    e: Event,
    post: RenameWorkflow,
    a: Action,
)
    requires
        step_rel(pre, e, post, a),
        !pre.skip_files,
        !in_mutation_zone(pre.phase),
        !(pre.phase matches Phase::CheckingContainerSkip { .. }),
    ensures
        post.skip_files == pre.skip_files,
        !(post.phase matches Phase::CheckingContainerSkip { .. }),
        is_mutating_action(a) ==> (pre.phase matches Phase::Confirming { .. } && answered_yes(e)),
        in_mutation_zone(post.phase) ==> (pre.phase matches Phase::Confirming { .. }
            && answered_yes(e)),
{
}

/// A run: a chain of machines linked by the transition relation, with the
/// action emitted at each step.
pub open spec fn is_run(
    start_state: RenameWorkflow,
    events: Seq<Event>,
    machines: Seq<RenameWorkflow>,
    actions: Seq<Action>,
) -> bool {
    &&& machines.len() == events.len() + 1
    &&& actions.len() == events.len()
    &&& machines[0] == start_state
    &&& forall|i: int|
        0 <= i < events.len() ==> #[trigger] step_rel(
            machines[i],
            events[i],
            machines[i + 1],
            actions[i],
        )
}

/// A finished machine is terminal: it begins no run with steps in it.
pub proof fn lemma_finished_run_is_empty(
    start_state: RenameWorkflow,
    events: Seq<Event>,
    machines: Seq<RenameWorkflow>,
    actions: Seq<Action>,
)
    requires
        is_run(start_state, events, machines, actions),
        start_state.phase matches Phase::Finished { .. },
    ensures
        events.len() == 0,
{
    if events.len() > 0 {
        let z: int = 0;
        assert(step_rel(machines[z], events[z], machines[z + 1], actions[z]));
        assert(false);
    }
}

proof fn lemma_run_stays_unconfirmed(
    start_state: RenameWorkflow,
    events: Seq<Event>,
    machines: Seq<RenameWorkflow>,
    actions: Seq<Action>,
    j: int,
)
    requires
        is_run(start_state, events, machines, actions),
        !start_state.skip_files,
        !in_mutation_zone(start_state.phase),
        !(start_state.phase matches Phase::CheckingContainerSkip { .. }),
        forall|i: int| 0 <= i < events.len() ==> !answered_yes(#[trigger] events[i]),
        0 <= j < machines.len(),
    ensures
        !machines[j].skip_files,
        !in_mutation_zone(machines[j].phase),
        !(machines[j].phase matches Phase::CheckingContainerSkip { .. }),
    decreases j,
{
    if j > 0 {
        lemma_run_stays_unconfirmed(start_state, events, machines, actions, j - 1);
        assert(step_rel(machines[j - 1], events[j - 1], machines[j - 1 + 1], actions[j - 1]));
        assert(machines[j - 1 + 1] == machines[j]);
        lemma_mutation_needs_confirmation(
            machines[j - 1],
            events[j - 1],
            machines[j],
            actions[j - 1],
        );
    }
}

/// Idempotence of aborted runs: a run that is never answered `y` (and is
/// not in skip-files mode) emits no mutating action at all, so the
/// filesystem is left exactly as it was.
pub proof fn lemma_aborted_run_mutates_nothing(
    start_state: RenameWorkflow,
    events: Seq<Event>,
    machines: Seq<RenameWorkflow>,
    actions: Seq<Action>,
)
    requires
        is_run(start_state, events, machines, actions),
        !start_state.skip_files,
        !in_mutation_zone(start_state.phase),
        !(start_state.phase matches Phase::CheckingContainerSkip { .. }),
        forall|i: int| 0 <= i < events.len() ==> !answered_yes(#[trigger] events[i]),
    ensures
        forall|i: int| 0 <= i < actions.len() ==> !is_mutating_action(#[trigger] actions[i]),
{
    assert forall|i: int|
        0 <= i < actions.len() implies !is_mutating_action(#[trigger] actions[i]) by {
        lemma_run_stays_unconfirmed(start_state, events, machines, actions, i);
        assert(step_rel(machines[i], events[i], machines[i + 1], actions[i]));
        lemma_mutation_needs_confirmation(machines[i], events[i], machines[i + 1], actions[i]);
    }
}

/// The metadata payload an event delivered, if any.
pub open spec fn payload_of(e: Event) -> Option<MetadataPayload> {
    match e {
        Event::MetadataFetched { payload } => Some(payload),
        Event::MetadataFileRead { payload } => Some(payload),
        _ => None,
    }
}

/// Some event among the first `k` delivered exactly this payload.
pub open spec fn metadata_was_delivered(
    events: Seq<Event>,
    k: int,
    payload: MetadataPayload,
) -> bool {
    exists|j: int| 0 <= j < k && payload_of(#[trigger] events[j]) == Some(payload)
}

/// `c` is the container directory computed from a payload that some event
/// among the first `k` delivered.
pub open spec fn container_from_delivered_metadata(
    start_state: RenameWorkflow,
    events: Seq<Event>,
    k: int,
    c: Seq<char>,
) -> bool {
    exists|j: int|
        0 <= j < k && (payload_of(#[trigger] events[j]) matches Some(p) && c == spec_container(
            p,
            start_state.encodes_dir@,
        ))
}

/// The phases a freshly started run can be in.
pub open spec fn initial_phase(p: Phase) -> bool {
    ||| p matches Phase::CheckingPaths { .. }
    ||| p matches Phase::FetchingMetadata { .. }
    ||| p matches Phase::Finished { .. }
}

/// What every reachable machine of a run satisfies: its configuration is
/// the starting one, any payload it holds was delivered by an earlier
/// event, and any container directory it carries was computed from such a
/// payload.
pub open spec fn run_tracks_metadata(
    start_state: RenameWorkflow,
    events: Seq<Event>,
    m: RenameWorkflow,
    k: int,
) -> bool {
    &&& m.encodes_dir@ == start_state.encodes_dir@
    &&& m.renames_dir@ == start_state.renames_dir@
    &&& m.phase matches Phase::CheckingProcessingDir { payload } ==> metadata_was_delivered(
        events,
        k,
        payload,
    )
    &&& m.phase matches Phase::Listing { payload } ==> metadata_was_delivered(events, k, payload)
    &&& m.phase matches Phase::CheckingContainerSkip { encoded_dir }
        ==> container_from_delivered_metadata(start_state, events, k, encoded_dir@)
    &&& m.phase matches Phase::CheckingContainer { plan } ==> container_from_delivered_metadata(
        start_state,
        events,
        k,
        plan.encoded_dir@,
    )
    &&& m.phase matches Phase::Confirming { plan } ==> container_from_delivered_metadata(
        start_state,
        events,
        k,
        plan.encoded_dir@,
    )
    &&& m.phase matches Phase::Renaming { plan } ==> container_from_delivered_metadata(
        start_state,
        events,
        k,
        plan.encoded_dir@,
    )
    &&& m.phase matches Phase::CreatingContainer { encoded_dir }
        ==> container_from_delivered_metadata(start_state, events, k, encoded_dir@)
    &&& m.phase matches Phase::WritingMarker { encoded_dir }
        ==> container_from_delivered_metadata(start_state, events, k, encoded_dir@)
}

proof fn lemma_delivered_monotone(
    events: Seq<Event>,
    k1: int,
    k2: int,
    payload: MetadataPayload,
)
    requires
        k1 <= k2,
        metadata_was_delivered(events, k1, payload),
    ensures
        metadata_was_delivered(events, k2, payload),
{
    let j = choose|j: int| 0 <= j < k1 && payload_of(#[trigger] events[j]) == Some(payload);
    assert(payload_of(events[j]) == Some(payload));
}

proof fn lemma_container_monotone(
    start_state: RenameWorkflow,
    events: Seq<Event>,
    k1: int,
    k2: int,
    c: Seq<char>,
)
    requires
        k1 <= k2,
        container_from_delivered_metadata(start_state, events, k1, c),
    ensures
        container_from_delivered_metadata(start_state, events, k2, c),
{
    let j = choose|j: int|
        0 <= j < k1 && (payload_of(#[trigger] events[j]) matches Some(p) && c == spec_container(
            p,
            start_state.encodes_dir@,
        ));
    assert(0 <= j < k2 && (payload_of(events[j]) matches Some(p) && c == spec_container(
        p,
        start_state.encodes_dir@,
    )));
}

proof fn lemma_metadata_tracking(
    start_state: RenameWorkflow,
    events: Seq<Event>,
    machines: Seq<RenameWorkflow>,
    actions: Seq<Action>,
    k: int,
)
    requires
        is_run(start_state, events, machines, actions),
        initial_phase(start_state.phase),
        0 <= k < machines.len(),
    ensures
        run_tracks_metadata(start_state, events, machines[k], k),
    decreases k,
{
    if k > 0 {
        lemma_metadata_tracking(start_state, events, machines, actions, k - 1);
        assert(step_rel(machines[k - 1], events[k - 1], machines[k - 1 + 1], actions[k - 1]));
        assert(machines[k - 1 + 1] == machines[k]);
        let pre = machines[k - 1];
        let e = events[k - 1];
        let post = machines[k];
        match pre.phase {
            Phase::FetchingMetadata { url: _ } => {
                match e {
                    Event::MetadataFetched { payload } => {
                        assert(payload_of(events[k - 1]) == Some(payload));
                        assert(metadata_was_delivered(events, k, payload));
                    },
                    _ => {},
                }
            },
            Phase::CheckingProcessingDir { payload } => {
                lemma_delivered_monotone(events, k - 1, k, payload);
                match e {
                    Event::ProcessingDirChecked { exists } => {
                        if exists && pre.skip_files {
                            let j = choose|j: int|
                                0 <= j < k && payload_of(#[trigger] events[j]) == Some(payload);
                            assert(payload_of(events[j]) matches Some(p) && spec_container(
                                payload,
                                start_state.encodes_dir@,
                            ) == spec_container(p, start_state.encodes_dir@));
                        }
                    },
                    _ => {},
                }
            },
            Phase::ReadingMetadata { file: _ } => {
                match e {
                    Event::MetadataFileRead { payload } => {
                        assert(payload_of(events[k - 1]) == Some(payload));
                        assert(metadata_was_delivered(events, k, payload));
                        if pre.skip_files {
                            assert(payload_of(events[k - 1]) matches Some(p) && spec_container(
                                payload,
                                start_state.encodes_dir@,
                            ) == spec_container(p, start_state.encodes_dir@));
                        }
                    },
                    _ => {},
                }
            },
            Phase::Listing { payload } => {
                lemma_delivered_monotone(events, k - 1, k, payload);
                let j = choose|j: int|
                    0 <= j < k && payload_of(#[trigger] events[j]) == Some(payload);
                assert(payload_of(events[j]) matches Some(p) && spec_container(
                    payload,
                    start_state.encodes_dir@,
                ) == spec_container(p, start_state.encodes_dir@));
            },
            Phase::CheckingContainer { plan } => {
                lemma_container_monotone(start_state, events, k - 1, k, plan.encoded_dir@);
            },
            Phase::CheckingContainerSkip { encoded_dir } => {
                lemma_container_monotone(start_state, events, k - 1, k, encoded_dir@);
            },
            Phase::Confirming { plan } => {
                lemma_container_monotone(start_state, events, k - 1, k, plan.encoded_dir@);
            },
            Phase::Renaming { plan } => {
                lemma_container_monotone(start_state, events, k - 1, k, plan.encoded_dir@);
            },
            Phase::CreatingContainer { encoded_dir } => {
                lemma_container_monotone(start_state, events, k - 1, k, encoded_dir@);
            },
            Phase::WritingMarker { encoded_dir } => {
                lemma_container_monotone(start_state, events, k - 1, k, encoded_dir@);
            },
            _ => {},
        }
    }
}

/// The marker file round trip, on the model side: every marker write of a
/// run targets `renames/encode_dir.txt` and records exactly the container
/// directory computed from metadata that the run was actually given.
pub proof fn lemma_marker_written_from_delivered_metadata(
    start_state: RenameWorkflow,
    events: Seq<Event>,
    machines: Seq<RenameWorkflow>,
    actions: Seq<Action>,
)
    requires
        is_run(start_state, events, machines, actions),
        initial_phase(start_state.phase),
    ensures
        forall|i: int|
            0 <= i < actions.len() ==> (#[trigger] actions[i] matches Action::WriteMarkerFile {
                path,
                content,
            } ==> path@ == path_join(start_state.renames_dir@, "encode_dir.txt"@)
                && container_from_delivered_metadata(start_state, events, i, content@)),
{
    assert forall|i: int|
        0 <= i < actions.len() implies (#[trigger] actions[i] matches Action::WriteMarkerFile {
        path,
        content,
    } ==> path@ == path_join(start_state.renames_dir@, "encode_dir.txt"@)
        && container_from_delivered_metadata(start_state, events, i, content@)) by {
        lemma_metadata_tracking(start_state, events, machines, actions, i);
        assert(step_rel(machines[i], events[i], machines[i + 1], actions[i]));
    }
}

} // verus!
