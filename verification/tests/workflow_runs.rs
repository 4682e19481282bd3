use mkv_renamer::cli::InputType;
use mkv_renamer::cli::MetadataInputType;
use mkv_renamer::cli::RenameArgs;
use mkv_renamer::discovery::WalkEntry;
use mkv_renamer::models::EpisodeDefinition;
use mkv_renamer::models::EpisodesDefinition;
use mkv_renamer::models::MetadataPayload;
use mkv_renamer::models::MovieDefinition;
use mkv_renamer::models::Output;
use mkv_renamer::models::RenamerError;
use mkv_renamer::models::RenamesResult;
use mkv_renamer::models::SeriesMetaData;
use mkv_renamer::workflow::Action;
use mkv_renamer::workflow::ConfigMetadataInputType;
use mkv_renamer::workflow::Event;
use mkv_renamer::workflow::Phase;
use mkv_renamer::workflow::RenameWorkflow;
use mkv_renamer::workflow::confirm_decision;
use mkv_renamer::workflow::get_metadata_type;
use mkv_renamer::discovery::get_ripped_filenames;

fn ep(number: &str, name: &str) -> EpisodeDefinition {
    EpisodeDefinition { number: number.to_string(), name: name.to_string() }
}

fn thundercats() -> MetadataPayload {
    MetadataPayload::Series(EpisodesDefinition {
        metadata: SeriesMetaData {
            name: "Thundercats".to_string(),
            tvdb_id: "70355".to_string(),
            season_number: "1".to_string(),
        },
        episodes: vec![
            ep("S01E01", "Exodus"),
            ep("S01E02", "The Unholy Alliance"),
            ep("S01E03", "Berbils"),
        ],
    })
}

fn file_args(skip_files: bool) -> RenameArgs {
    RenameArgs {
        metadata_input_type: MetadataInputType {
            url_metadata: None,
            file_metadata: Some("/conf/tv_series.conf".to_string()),
        },
        processing_dir: "/pd".to_string(),
        session_number: 3,
        verbose: false,
        skip_files,
    }
}

fn session3_entries() -> Vec<WalkEntry> {
    vec![
        WalkEntry { path: "/pd/Rips/session3/disc1".to_string(), is_file: false },
        WalkEntry { path: "/pd/Rips/session3/disc1/a.mkv".to_string(), is_file: true },
        WalkEntry { path: "/pd/Rips/session3/disc2/b.mkv".to_string(), is_file: true },
        WalkEntry { path: "/pd/Rips/session3/disc3/c.mkv".to_string(), is_file: true },
        WalkEntry { path: "/pd/Rips/session3/renames".to_string(), is_file: false },
    ]
}

/// Drives a file-metadata run up to the confirmation question.
fn run_to_confirmation(payload: MetadataPayload, entries: Vec<WalkEntry>) -> (RenameWorkflow, Action) {
    let (m, a) = RenameWorkflow::start(InputType::Series, file_args(false));
    assert!(matches!(a, Action::CheckPaths { .. }));
    let (m, a) = m.step(Event::PathsChecked { processing_exists: true, metadata_exists: true });
    assert!(matches!(a, Action::ReadMetadataFile { .. }));
    let (m, a) = m.step(Event::MetadataFileRead { payload });
    match &a {
        Action::ListSessionFiles { dir } => assert_eq!(dir, "/pd/Rips/session3"),
        other => panic!("expected ListSessionFiles, got {:?}", other),
    }
    let (m, a) = m.step(Event::SessionFilesListed { entries });
    match &a {
        Action::CheckContainerDir { dir } => assert_eq!(
            dir,
            "/pd/Encodes/tv/Thundercats {tvdb-70355} [tvdbid-70355]/Season 01"
        ),
        other => panic!("expected CheckContainerDir, got {:?}", other),
    }
    m.step(Event::ContainerDirChecked { exists: false })
}

#[test]
fn series_run_renames_thundercats() {
    let (m, a) = run_to_confirmation(thundercats(), session3_entries());
    let expected = vec![
        ("/pd/Rips/session3/disc1/a.mkv", "/pd/Rips/session3/renames/S01E01 - Exodus.mkv"),
        (
            "/pd/Rips/session3/disc2/b.mkv",
            "/pd/Rips/session3/renames/S01E02 - The Unholy Alliance.mkv",
        ),
        ("/pd/Rips/session3/disc3/c.mkv", "/pd/Rips/session3/renames/S01E03 - Berbils.mkv"),
    ];
    match &a {
        Action::AskConfirmation { renames, encoded_dir } => {
            assert_eq!(renames.len(), 3);
            for (r, (from, to)) in renames.iter().zip(expected.iter()) {
                assert_eq!(&r.from_file_name, from);
                assert_eq!(&r.to_file_name, to);
            }
            assert_eq!(
                encoded_dir,
                "/pd/Encodes/tv/Thundercats {tvdb-70355} [tvdbid-70355]/Season 01"
            );
        },
        other => panic!("expected AskConfirmation, got {:?}", other),
    }
    let (m, a) = m.step(Event::ConfirmationAnswered { line: "y".to_string() });
    match &a {
        Action::RenameFiles { renames } => assert_eq!(renames.len(), 3),
        other => panic!("expected RenameFiles, got {:?}", other),
    }
    let (m, a) = m.step(Event::FilesRenamed);
    match &a {
        Action::CreateContainerDir { dir } => assert_eq!(
            dir,
            "/pd/Encodes/tv/Thundercats {tvdb-70355} [tvdbid-70355]/Season 01"
        ),
        other => panic!("expected CreateContainerDir, got {:?}", other),
    }
    let (m, a) = m.step(Event::ContainerDirCreated);
    match &a {
        Action::WriteMarkerFile { path, content } => {
            assert_eq!(path, "/pd/Rips/session3/renames/encode_dir.txt");
            assert_eq!(
                content,
                "/pd/Encodes/tv/Thundercats {tvdb-70355} [tvdbid-70355]/Season 01"
            );
        },
        other => panic!("expected WriteMarkerFile, got {:?}", other),
    }
    let (m, a) = m.step(Event::MarkerFileWritten);
    assert!(matches!(a, Action::Finish));
    assert!(matches!(m.phase, Phase::Finished { outcome: Ok(Output::Success) }));
}

#[test]
fn movie_run_renames_the_big_lebowski() {
    let args = RenameArgs {
        metadata_input_type: MetadataInputType {
            url_metadata: None,
            file_metadata: Some("/conf/movie.conf".to_string()),
        },
        processing_dir: "/pd".to_string(),
        session_number: 1,
        verbose: false,
        skip_files: false,
    };
    let payload = MetadataPayload::Movie(MovieDefinition::new(
        "The Big Lebowski".to_string(),
        "659".to_string(),
    ));
    let (m, _) = RenameWorkflow::start(InputType::Movie, args);
    let (m, _) = m.step(Event::PathsChecked { processing_exists: true, metadata_exists: true });
    let (m, a) = m.step(Event::MetadataFileRead { payload });
    match &a {
        Action::ListSessionFiles { dir } => assert_eq!(dir, "/pd/Rips/session1"),
        other => panic!("expected ListSessionFiles, got {:?}", other),
    }
    let entries = vec![WalkEntry {
        path: "/pd/Rips/session1/disc1/DVD_TS_01.mkv".to_string(),
        is_file: true,
    }];
    let (m, a) = m.step(Event::SessionFilesListed { entries });
    match &a {
        Action::CheckContainerDir { dir } => assert_eq!(
            dir,
            "/pd/Encodes/movies/The Big Lebowski - {tvdb-659} [tvdbid-659]"
        ),
        other => panic!("expected CheckContainerDir, got {:?}", other),
    }
    let (m, a) = m.step(Event::ContainerDirChecked { exists: false });
    match &a {
        Action::AskConfirmation { renames, .. } => {
            assert_eq!(renames.len(), 1);
            assert_eq!(renames[0].from_file_name, "/pd/Rips/session1/disc1/DVD_TS_01.mkv");
            assert_eq!(
                renames[0].to_file_name,
                "/pd/Rips/session1/renames/The Big Lebowski - {tvdb-659} [tvdbid-659].mkv"
            );
        },
        other => panic!("expected AskConfirmation, got {:?}", other),
    }
    let (m, a) = m.step(Event::ConfirmationAnswered { line: "y".to_string() });
    assert!(matches!(a, Action::RenameFiles { .. }));
    let (m, _) = m.step(Event::FilesRenamed);
    let (m, a) = m.step(Event::ContainerDirCreated);
    match &a {
        Action::WriteMarkerFile { path, content } => {
            assert_eq!(path, "/pd/Rips/session1/renames/encode_dir.txt");
            assert_eq!(content, "/pd/Encodes/movies/The Big Lebowski - {tvdb-659} [tvdbid-659]");
        },
        other => panic!("expected WriteMarkerFile, got {:?}", other),
    }
    let (m, _) = m.step(Event::MarkerFileWritten);
    assert!(matches!(m.phase, Phase::Finished { outcome: Ok(Output::Success) }));
}

#[test]
fn confirmation_gate_accepts_only_lowercase_y() {
    assert!(matches!(confirm_decision("y"), RenamesResult::Correct));
    assert!(matches!(confirm_decision(""), RenamesResult::Wrong));
    assert!(matches!(confirm_decision("Y"), RenamesResult::Wrong));
    assert!(matches!(confirm_decision("yes"), RenamesResult::Wrong));
    assert!(matches!(confirm_decision("n"), RenamesResult::Wrong));
    assert!(matches!(confirm_decision("y "), RenamesResult::Wrong));
}

#[test]
fn declined_confirmation_cancels_without_renames() {
    for answer in ["", "Y", "yes", "n"] {
        let (m, _) = run_to_confirmation(thundercats(), session3_entries());
        let (m, a) = m.step(Event::ConfirmationAnswered { line: answer.to_string() });
        assert!(matches!(a, Action::Finish), "answer {:?}", answer);
        assert!(
            matches!(m.phase, Phase::Finished { outcome: Ok(Output::UserCanceled) }),
            "answer {:?}",
            answer
        );
    }
}

#[test]
fn existing_container_aborts_before_any_rename() {
    let (m, _) = RenameWorkflow::start(InputType::Series, file_args(false));
    let (m, _) = m.step(Event::PathsChecked { processing_exists: true, metadata_exists: true });
    let (m, _) = m.step(Event::MetadataFileRead { payload: thundercats() });
    let (m, _) = m.step(Event::SessionFilesListed { entries: session3_entries() });
    let (m, a) = m.step(Event::ContainerDirChecked { exists: true });
    assert!(matches!(a, Action::Finish));
    match m.phase {
        Phase::Finished { outcome: Err(RenamerError::SeriesDirectoryAlreadyExists(p)) } => {
            assert_eq!(p, "/pd/Encodes/tv/Thundercats {tvdb-70355} [tvdbid-70355]/Season 01");
        },
        other => panic!("expected SeriesDirectoryAlreadyExists, got {:?}", other),
    }
}

#[test]
fn more_files_than_episodes_aborts() {
    let mut entries = session3_entries();
    entries.push(WalkEntry { path: "/pd/Rips/session3/disc4/d.mkv".to_string(), is_file: true });
    let (m, _) = RenameWorkflow::start(InputType::Series, file_args(false));
    let (m, _) = m.step(Event::PathsChecked { processing_exists: true, metadata_exists: true });
    let (m, _) = m.step(Event::MetadataFileRead { payload: thundercats() });
    let (m, a) = m.step(Event::SessionFilesListed { entries });
    assert!(matches!(a, Action::Finish));
    match m.phase {
        Phase::Finished { outcome: Err(RenamerError::NotEnoughMetadataForEpisodes(meta, files)) } => {
            assert_eq!(meta, 3);
            assert_eq!(files, 4);
        },
        other => panic!("expected NotEnoughMetadataForEpisodes, got {:?}", other),
    }
}

#[test]
fn no_candidate_files_aborts_after_container_check() {
    let entries = vec![WalkEntry { path: "/pd/Rips/session3/renames".to_string(), is_file: false }];
    let (m, _) = RenameWorkflow::start(InputType::Series, file_args(false));
    let (m, _) = m.step(Event::PathsChecked { processing_exists: true, metadata_exists: true });
    let (m, _) = m.step(Event::MetadataFileRead { payload: thundercats() });
    let (m, _) = m.step(Event::SessionFilesListed { entries });
    let (m, a) = m.step(Event::ContainerDirChecked { exists: false });
    assert!(matches!(a, Action::Finish));
    assert!(matches!(m.phase, Phase::Finished { outcome: Err(RenamerError::NoFilesToRename) }));
}

#[test]
fn skip_files_mode_creates_container_without_confirmation() {
    let (m, a) = RenameWorkflow::start(InputType::Series, file_args(true));
    assert!(matches!(a, Action::CheckPaths { .. }));
    let (m, _) = m.step(Event::PathsChecked { processing_exists: true, metadata_exists: true });
    let (m, a) = m.step(Event::MetadataFileRead { payload: thundercats() });
    match &a {
        Action::CheckContainerDir { dir } => assert_eq!(
            dir,
            "/pd/Encodes/tv/Thundercats {tvdb-70355} [tvdbid-70355]/Season 01"
        ),
        other => panic!("expected CheckContainerDir, got {:?}", other),
    }
    let (m, a) = m.step(Event::ContainerDirChecked { exists: false });
    assert!(matches!(a, Action::CreateContainerDir { .. }));
    let (m, a) = m.step(Event::ContainerDirCreated);
    match &a {
        Action::WriteMarkerFile { path, content } => {
            assert_eq!(path, "/pd/Rips/session3/renames/encode_dir.txt");
            assert_eq!(
                content,
                "/pd/Encodes/tv/Thundercats {tvdb-70355} [tvdbid-70355]/Season 01"
            );
        },
        other => panic!("expected WriteMarkerFile, got {:?}", other),
    }
    let (m, _) = m.step(Event::MarkerFileWritten);
    assert!(matches!(m.phase, Phase::Finished { outcome: Ok(Output::Success) }));
}

#[test]
fn both_metadata_sources_is_invalid() {
    let args = RenameArgs {
        metadata_input_type: MetadataInputType {
            url_metadata: Some("http://example/series".to_string()),
            file_metadata: Some("/conf/series.conf".to_string()),
        },
        processing_dir: "/pd".to_string(),
        session_number: 1,
        verbose: false,
        skip_files: false,
    };
    let (m, a) = RenameWorkflow::start(InputType::Series, args);
    assert!(matches!(a, Action::Finish));
    assert!(matches!(
        m.phase,
        Phase::Finished { outcome: Err(RenamerError::InvalidMetadataConfiguration(_)) }
    ));
}

#[test]
fn neither_metadata_source_is_invalid() {
    let args = RenameArgs {
        metadata_input_type: MetadataInputType { url_metadata: None, file_metadata: None },
        processing_dir: "/pd".to_string(),
        session_number: 1,
        verbose: false,
        skip_files: false,
    };
    let (m, a) = RenameWorkflow::start(InputType::Series, args);
    assert!(matches!(a, Action::Finish));
    assert!(matches!(
        m.phase,
        Phase::Finished { outcome: Err(RenamerError::InvalidMetadataConfiguration(_)) }
    ));
}

#[test]
fn metadata_type_classification() {
    let both = MetadataInputType {
        url_metadata: Some("u".to_string()),
        file_metadata: Some("f".to_string()),
    };
    assert!(matches!(get_metadata_type(&both), ConfigMetadataInputType::Invalid));
    let neither = MetadataInputType { url_metadata: None, file_metadata: None };
    assert!(matches!(get_metadata_type(&neither), ConfigMetadataInputType::Invalid));
    let url = MetadataInputType { url_metadata: Some("u".to_string()), file_metadata: None };
    match get_metadata_type(&url) {
        ConfigMetadataInputType::Url(u) => assert_eq!(u, "u"),
        other => panic!("expected Url, got {:?}", other),
    }
    let file = MetadataInputType { url_metadata: None, file_metadata: Some("f".to_string()) };
    match get_metadata_type(&file) {
        ConfigMetadataInputType::File(f) => assert_eq!(f, "f"),
        other => panic!("expected File, got {:?}", other),
    }
}

#[test]
fn missing_paths_fail_before_any_io() {
    let (m, _) = RenameWorkflow::start(InputType::Series, file_args(false));
    let (m, a) = m.step(Event::PathsChecked { processing_exists: false, metadata_exists: false });
    assert!(matches!(a, Action::Finish));
    match m.phase {
        Phase::Finished {
            outcome: Err(RenamerError::ProcessingDirAndMetadaPathDoesNotExit(p, f)),
        } => {
            assert_eq!(p, "/pd");
            assert_eq!(f, "/conf/tv_series.conf");
        },
        other => panic!("expected ProcessingDirAndMetadaPathDoesNotExit, got {:?}", other),
    }

    let (m, _) = RenameWorkflow::start(InputType::Series, file_args(false));
    let (m, _) = m.step(Event::PathsChecked { processing_exists: false, metadata_exists: true });
    assert!(matches!(
        m.phase,
        Phase::Finished { outcome: Err(RenamerError::ProcessingDirectoryDoesNotExist(_)) }
    ));

    let (m, _) = RenameWorkflow::start(InputType::Series, file_args(false));
    let (m, _) = m.step(Event::PathsChecked { processing_exists: true, metadata_exists: false });
    assert!(matches!(
        m.phase,
        Phase::Finished { outcome: Err(RenamerError::MetadataDirectoryDoesNotExist(_)) }
    ));
}

#[test]
fn url_metadata_failures_surface_as_typed_errors() {
    let args = RenameArgs {
        metadata_input_type: MetadataInputType {
            url_metadata: Some("http://example/series".to_string()),
            file_metadata: None,
        },
        processing_dir: "/pd".to_string(),
        session_number: 2,
        verbose: false,
        skip_files: false,
    };
    let (m, a) = RenameWorkflow::start(InputType::Series, args.clone());
    match &a {
        Action::FetchMetadata { url, kind } => {
            assert_eq!(url, "http://example/series");
            assert_eq!(*kind, InputType::Series);
        },
        other => panic!("expected FetchMetadata, got {:?}", other),
    }
    let (m, _) = m.step(Event::MetadataFetchFailed { message: "timed out".to_string() });
    match m.phase {
        Phase::Finished { outcome: Err(RenamerError::CouldNotAccessMetadataURL(u, msg)) } => {
            assert_eq!(u, "http://example/series");
            assert_eq!(msg, "timed out");
        },
        other => panic!("expected CouldNotAccessMetadataURL, got {:?}", other),
    }

    let (m, _) = RenameWorkflow::start(InputType::Series, args);
    let (m, _) = m.step(Event::MetadataDecodeFailed { message: "bad body".to_string() });
    assert!(matches!(
        m.phase,
        Phase::Finished { outcome: Err(RenamerError::CouldNotDecodeMetadataBody(_, _)) }
    ));
}

#[test]
fn url_metadata_checks_processing_dir_after_fetch() {
    let args = RenameArgs {
        metadata_input_type: MetadataInputType {
            url_metadata: Some("http://example/series".to_string()),
            file_metadata: None,
        },
        processing_dir: "/pd".to_string(),
        session_number: 3,
        verbose: false,
        skip_files: false,
    };
    let (m, _) = RenameWorkflow::start(InputType::Series, args);
    let (m, a) = m.step(Event::MetadataFetched { payload: thundercats() });
    match &a {
        Action::CheckProcessingDir { processing_dir } => assert_eq!(processing_dir, "/pd"),
        other => panic!("expected CheckProcessingDir, got {:?}", other),
    }
    let (m, a) = m.step(Event::ProcessingDirChecked { exists: true });
    assert!(matches!(a, Action::ListSessionFiles { .. }));
    assert!(matches!(m.phase, Phase::Listing { .. }));
}

#[test]
fn file_read_failures_surface_as_typed_errors() {
    let (m, _) = RenameWorkflow::start(InputType::Series, file_args(false));
    let (m, _) = m.step(Event::PathsChecked { processing_exists: true, metadata_exists: true });
    let (m, _) = m.step(Event::MetadataFileAccessFailed { message: "denied".to_string() });
    match m.phase {
        Phase::Finished { outcome: Err(RenamerError::CouldNotAccessMetadataFile(f, msg)) } => {
            assert_eq!(f, "/conf/tv_series.conf");
            assert_eq!(msg, "denied");
        },
        other => panic!("expected CouldNotAccessMetadataFile, got {:?}", other),
    }

    let (m, _) = RenameWorkflow::start(InputType::Series, file_args(false));
    let (m, _) = m.step(Event::PathsChecked { processing_exists: true, metadata_exists: true });
    let (m, _) = m.step(Event::MetadataFileDecodeFailed { message: "bad json".to_string() });
    assert!(matches!(
        m.phase,
        Phase::Finished { outcome: Err(RenamerError::CouldNotDecodeEpisodeJson(_, _)) }
    ));
}

#[test]
fn rename_and_marker_failures_surface_as_typed_errors() {
    let (m, _) = run_to_confirmation(thundercats(), session3_entries());
    let (m, _) = m.step(Event::ConfirmationAnswered { line: "y".to_string() });
    let (m, _) = m.step(Event::FileRenameFailed {
        from: "/pd/Rips/session3/disc1/a.mkv".to_string(),
        to: "/pd/Rips/session3/renames/S01E01 - Exodus.mkv".to_string(),
        message: "source vanished".to_string(),
    });
    assert!(matches!(
        m.phase,
        Phase::Finished { outcome: Err(RenamerError::CouldNotRenameFile(_, _, _)) }
    ));

    let (m, _) = run_to_confirmation(thundercats(), session3_entries());
    let (m, _) = m.step(Event::ConfirmationAnswered { line: "y".to_string() });
    let (m, _) = m.step(Event::FilesRenamed);
    let (m, _) = m.step(Event::ContainerDirCreateFailed { message: "read-only".to_string() });
    assert!(matches!(
        m.phase,
        Phase::Finished { outcome: Err(RenamerError::CouldNotCreatedSeriesDirectory(_, _)) }
    ));

    let (m, _) = run_to_confirmation(thundercats(), session3_entries());
    let (m, _) = m.step(Event::ConfirmationAnswered { line: "y".to_string() });
    let (m, _) = m.step(Event::FilesRenamed);
    let (m, _) = m.step(Event::ContainerDirCreated);
    let (m, _) = m.step(Event::MarkerFileOpenFailed { message: "no space".to_string() });
    assert!(matches!(
        m.phase,
        Phase::Finished { outcome: Err(RenamerError::CouldNotOpenEncodesFile(_, _)) }
    ));

    let (m, _) = run_to_confirmation(thundercats(), session3_entries());
    let (m, _) = m.step(Event::ConfirmationAnswered { line: "y".to_string() });
    let (m, _) = m.step(Event::FilesRenamed);
    let (m, _) = m.step(Event::ContainerDirCreated);
    let (m, _) = m.step(Event::MarkerFileWriteFailed { message: "disk full".to_string() });
    assert!(matches!(
        m.phase,
        Phase::Finished { outcome: Err(RenamerError::CouldNotWriteEncodesFile(_, _)) }
    ));
}

#[test]
fn discovery_order_does_not_change_the_asked_plan() {
    let forward = session3_entries();
    let mut backward = session3_entries();
    backward.reverse();
    let (_, a1) = run_to_confirmation(thundercats(), forward);
    let (_, a2) = run_to_confirmation(thundercats(), backward);
    match (a1, a2) {
        (
            Action::AskConfirmation { renames: r1, encoded_dir: d1 },
            Action::AskConfirmation { renames: r2, encoded_dir: d2 },
        ) => {
            assert_eq!(r1, r2);
            assert_eq!(d1, d2);
        },
        _ => panic!("expected two AskConfirmation actions"),
    }
}

#[test]
fn aborted_runs_emit_no_filesystem_actions() {
    // Two declined runs in a row observe the same filesystem and emit the
    // same, purely read-only, actions: nothing is mutated either time.
    let mut traces: Vec<Vec<Action>> = Vec::new();
    for _ in 0..2 {
        let mut trace: Vec<Action> = Vec::new();
        let (m, a) = RenameWorkflow::start(InputType::Series, file_args(false));
        let mut machine = m;
        let mut action = a;
        let mut events = vec![
            Event::PathsChecked { processing_exists: true, metadata_exists: true },
            Event::MetadataFileRead { payload: thundercats() },
            Event::SessionFilesListed { entries: session3_entries() },
            Event::ContainerDirChecked { exists: false },
            Event::ConfirmationAnswered { line: "n".to_string() },
        ]
        .into_iter();
        loop {
            let mutating = matches!(
                action,
                Action::RenameFiles { .. }
                    | Action::CreateContainerDir { .. }
                    | Action::WriteMarkerFile { .. }
            );
            assert!(!mutating, "declined run asked for a mutation: {:?}", action);
            if matches!(action, Action::Finish) {
                trace.push(action);
                break;
            }
            trace.push(action);
            let (next, next_action) = machine.step(events.next().expect("ran out of events"));
            machine = next;
            action = next_action;
        }
        assert!(matches!(machine.phase, Phase::Finished { outcome: Ok(Output::UserCanceled) }));
        traces.push(trace);
    }
    assert_eq!(traces[0], traces[1]);
}

#[test]
fn disc_marker_is_matched_as_a_path_substring() {
    // The convention matches the substring "/disc" anywhere in the path, so
    // a file directly named "/discussion.mkv" inside the session also
    // qualifies, while "xdisc/" does not.
    let entries = vec![
        WalkEntry { path: "/s/discussion.mkv".to_string(), is_file: true },
        WalkEntry { path: "/s/xdisc/a.mkv".to_string(), is_file: true },
    ];
    let files = get_ripped_filenames(&entries);
    assert_eq!(files.len(), 1);
    assert_eq!(files[0].path, "/s/discussion.mkv");
}

#[test]
fn skip_files_mode_for_a_movie_uses_the_movies_encodes_dir() {
    let args = RenameArgs {
        metadata_input_type: MetadataInputType {
            url_metadata: None,
            file_metadata: Some("/conf/movie.conf".to_string()),
        },
        processing_dir: "/pd".to_string(),
        session_number: 2,
        verbose: false,
        skip_files: true,
    };
    let payload = MetadataPayload::Movie(MovieDefinition::new(
        "Heat".to_string(),
        "231".to_string(),
    ));
    let (m, _) = RenameWorkflow::start(InputType::Movie, args);
    let (m, _) = m.step(Event::PathsChecked { processing_exists: true, metadata_exists: true });
    let (m, a) = m.step(Event::MetadataFileRead { payload });
    match &a {
        Action::CheckContainerDir { dir } => {
            assert_eq!(dir, "/pd/Encodes/movies/Heat - {tvdb-231} [tvdbid-231]")
        },
        other => panic!("expected CheckContainerDir, got {:?}", other),
    }
    let (m, a) = m.step(Event::ContainerDirChecked { exists: true });
    assert!(matches!(a, Action::Finish));
    match m.phase {
        Phase::Finished { outcome: Err(RenamerError::SeriesDirectoryAlreadyExists(p)) } => {
            assert_eq!(p, "/pd/Encodes/movies/Heat - {tvdb-231} [tvdbid-231]")
        },
        other => panic!("expected SeriesDirectoryAlreadyExists, got {:?}", other),
    }
}
