//! Data model: discovered files, planned renames, metadata shapes, outcomes
//! and the error taxonomy.

use vstd::prelude::*;

verus! {

/// Successful terminal outcomes of a workflow run.
#[derive(Debug, PartialEq)]
pub enum Output {
    Success,
    UserCanceled,
}

pub type R = Result<(), RenamerError>;

pub type ROutput = Result<Output, RenamerError>;

/// A single planned rename: a source file is moved to a destination path
/// inside the session's renames directory.
#[derive(Debug, Clone, PartialEq)]
pub struct Rename {
    pub from_file_name: String,
    pub to_file_name: String,
}

/// Mathematical image of a [`Rename`].
#[verifier::ext_equal]
pub struct RenameModel {
    pub from_file_name: Seq<char>,
    pub to_file_name: Seq<char>,
}

impl View for Rename {
    type V = RenameModel;

    open spec fn view(&self) -> RenameModel {
        RenameModel { from_file_name: self.from_file_name@, to_file_name: self.to_file_name@ }
    }
}

impl DeepView for Rename {
    type V = RenameModel;

    open spec fn deep_view(&self) -> RenameModel {
        self.view()
    }
}

impl Rename {
    pub fn new(from: String, to: String) -> (r: Self)
        ensures
            r@ == (RenameModel { from_file_name: from@, to_file_name: to@ }),
    {
        Self { from_file_name: from, to_file_name: to }
    }
}

/// A discovered ripped file: its full path, its file name, and its
/// extension without the leading dot.
#[derive(Debug, Clone, PartialEq)]
pub struct FileNameAndExt {
    pub path: String,
    pub file_name: String,
    pub ext: String,
}

/// Mathematical image of a [`FileNameAndExt`].
#[verifier::ext_equal]
pub struct FileNameAndExtModel {
    pub path: Seq<char>,
    pub file_name: Seq<char>,
    pub ext: Seq<char>,
}

impl View for FileNameAndExt {
    type V = FileNameAndExtModel;

    open spec fn view(&self) -> FileNameAndExtModel {
        FileNameAndExtModel {
            path: self.path@,
            file_name: self.file_name@,
            ext: self.ext@,
        }
    }
}

impl DeepView for FileNameAndExt {
    type V = FileNameAndExtModel;

    open spec fn deep_view(&self) -> FileNameAndExtModel {
        self.view()
    }
}

impl FileNameAndExt {
    pub fn new(path: &str, file_name: &str, ext: &str) -> (r: Self)
        ensures
            r@ == (FileNameAndExtModel { path: path@, file_name: file_name@, ext: ext@ }),
    {
        Self { path: path.to_owned(), file_name: file_name.to_owned(), ext: ext.to_owned() }
    }
}

/// The confirmation gate's two-state decision.
#[derive(Debug, PartialEq)]
pub enum RenamesResult {
    Correct,
    Wrong,
}

/// Shared metadata of a series invocation.
#[derive(Debug, Clone, PartialEq)]
pub struct SeriesMetaData {
    pub name: String,
    pub tvdb_id: String,
    pub season_number: String,
}

/// Mathematical image of a [`SeriesMetaData`].
#[verifier::ext_equal]
pub struct SeriesMetaDataModel {
    pub name: Seq<char>,
    pub tvdb_id: Seq<char>,
    pub season_number: Seq<char>,
}

impl View for SeriesMetaData {
    type V = SeriesMetaDataModel;

    open spec fn view(&self) -> SeriesMetaDataModel {
        SeriesMetaDataModel {
            name: self.name@,
            tvdb_id: self.tvdb_id@,
            season_number: self.season_number@,
        }
    }
}

impl DeepView for SeriesMetaData {
    type V = SeriesMetaDataModel;

    open spec fn deep_view(&self) -> SeriesMetaDataModel {
        self.view()
    }
}

/// One episode: its number string (`S01E01`) and its title.
#[derive(Debug, Clone, PartialEq)]
pub struct EpisodeDefinition {
    pub number: String,
    pub name: String,
}

/// Mathematical image of an [`EpisodeDefinition`].
#[verifier::ext_equal]
pub struct EpisodeDefinitionModel {
    pub number: Seq<char>,
    pub name: Seq<char>,
}

impl View for EpisodeDefinition {
    type V = EpisodeDefinitionModel;

    open spec fn view(&self) -> EpisodeDefinitionModel {
        EpisodeDefinitionModel { number: self.number@, name: self.name@ }
    }
}

impl DeepView for EpisodeDefinition {
    type V = EpisodeDefinitionModel;

    open spec fn deep_view(&self) -> EpisodeDefinitionModel {
        self.view()
    }
}

/// An ordered series metadata list together with its shared metadata.
#[derive(Debug, Clone, PartialEq)]
pub struct EpisodesDefinition {
    pub metadata: SeriesMetaData,
    pub episodes: Vec<EpisodeDefinition>,
}

/// Mathematical image of an [`EpisodesDefinition`].
#[verifier::ext_equal]
pub struct EpisodesDefinitionModel {
    pub metadata: SeriesMetaDataModel,
    pub episodes: Seq<EpisodeDefinitionModel>,
}

impl View for EpisodesDefinition {
    type V = EpisodesDefinitionModel;

    open spec fn view(&self) -> EpisodesDefinitionModel {
        EpisodesDefinitionModel {
            metadata: self.metadata@,
            episodes: self.episodes.deep_view(),
        }
    }
}

impl DeepView for EpisodesDefinition {
    type V = EpisodesDefinitionModel;

    open spec fn deep_view(&self) -> EpisodesDefinitionModel {
        self.view()
    }
}

/// A movie: its title and its database identifier.
#[derive(Debug, Clone, PartialEq)]
pub struct MovieDefinition {
    name: String,
    tvdb_id: String,
}

/// Mathematical image of a [`MovieDefinition`].
#[verifier::ext_equal]
pub struct MovieDefinitionModel {
    pub name: Seq<char>,
    pub tvdb_id: Seq<char>,
}

impl View for MovieDefinition {
    type V = MovieDefinitionModel;

    closed spec fn view(&self) -> MovieDefinitionModel {
        MovieDefinitionModel { name: self.name@, tvdb_id: self.tvdb_id@ }
    }
}

impl DeepView for MovieDefinition {
    type V = MovieDefinitionModel;

    open spec fn deep_view(&self) -> MovieDefinitionModel {
        self.view()
    }
}

impl MovieDefinition {
    pub fn new(name: String, tvdb_id: String) -> (r: Self)
        ensures
            r@ == (MovieDefinitionModel { name: name@, tvdb_id: tvdb_id@ }),
    {
        Self { name, tvdb_id }
    }

    pub fn name(&self) -> (r: &str)
        ensures
            r@ == self@.name,
    {
        self.name.as_str()
    }

    pub fn tvdb_id(&self) -> (r: &str)
        ensures
            r@ == self@.tvdb_id,
    {
        self.tvdb_id.as_str()
    }
}

/// The metadata a run works from: an ordered episode list or a single movie.
#[derive(Debug, Clone, PartialEq)]
pub enum MetadataPayload {
    Series(EpisodesDefinition),
    Movie(MovieDefinition),
}

/// Everything that can go wrong in a run, as typed error values.
#[derive(Debug, Clone, PartialEq)]
pub enum RenamerError {
    InvalidMetadataConfiguration(String),
    CouldNotAccessMetadataFile(String, String),
    CouldNotAccessMetadataURL(String, String),
    CouldNotDecodeMetadataBody(String, String),
    CouldNotExportEpisodeMetadata(String, String, String),
    ProcessingDirectoryDoesNotExist(String),
    ProcessingDirAndMetadaPathDoesNotExit(String, String),
    MetadataDirectoryDoesNotExist(String),
    CouldNotDecodeEpisodeJson(String, String),
    NotEnoughMetadataForEpisodes(usize, usize),
    NoFilesToRename,
    CouldNotCreatedSeriesDirectory(String, String),
    SeriesDirectoryAlreadyExists(String),
    CouldNotOpenEncodesFile(String, String),
    CouldNotWriteEncodesFile(String, String),
    CouldNotRenameFile(String, String, String),
}

} // verus!
