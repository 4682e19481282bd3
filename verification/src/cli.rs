//! The command-line surface as plain data.  Argument parsing itself happens
//! outside the library; these types carry the parsed values into the
//! workflow dispatcher.

use vstd::prelude::*;

verus! {

/// Top-level invocation: which kind of media to process.
#[derive(Debug, Clone)]
pub struct MkvRenamerArgs {
    pub commands: MkvInputType,
}

/// Process a series or a movie.
#[derive(Debug, Clone)]
pub enum MkvInputType {
    Series(MkvCommands),
    Movie(MkvCommands),
}

/// Rename ripped files from a metadata source, or export metadata to a
/// file.
#[derive(Debug, Clone)]
pub enum MkvCommands {
    Rename(RenameArgs),
    Export(ExportArgs),
}

/// Arguments of a rename run.
#[derive(Debug, Clone)]
pub struct RenameArgs {
    pub metadata_input_type: MetadataInputType,
    pub processing_dir: String,
    pub session_number: u8,
    pub verbose: bool,
    pub skip_files: bool,
}

/// Arguments of a metadata export.
#[derive(Debug, Clone)]
pub struct ExportArgs {
    pub url_metadata: String,
    pub export_path: String,
}

/// The two kinds of media the tool processes.
#[derive(Debug, Clone, Copy, PartialEq, Eq, Structural)]
pub enum InputType {
    Series,
    Movie,
}

/// Where the metadata comes from: a URL or a local file.  Exactly one must
/// be supplied.
#[derive(Debug, Clone)]
pub struct MetadataInputType {
    pub url_metadata: Option<String>,
    pub file_metadata: Option<String>,
}

} // verus!
