//! The command surface and the verified orchestration rules behind it.
//!
//! The data types here mirror the command line 1:1; the batch and merge
//! submodules hold the orchestration logic those commands run on.

use vstd::prelude::*;

pub mod batch;
pub mod merge;

verus! {

/// The parsed command line.
#[derive(Debug, Clone)]
pub struct Cli {
    pub command: Commands,
}

/// One subcommand, each mapping 1:1 to an orchestrator entry point.
#[derive(Debug, Clone)]
pub enum Commands {
    Download { url: String, output: Option<String>, quality: String, format: String },
    Info { url: String },
    Config { action: Option<ConfigAction> },
    Batch {
        url: Vec<String>,
        file: Option<String>,
        output_dir: Option<String>,
        quality: String,
        format: String,
        parallel: bool,
    },
    Merge { files: Vec<String>, file_list: Option<String>, output: String },
    DownloadMerge {
        url: Vec<String>,
        file: Option<String>,
        output: String,
        quality: String,
        format: String,
        parallel: bool,
    },
}

/// Configuration subcommand actions. (`Assign` is the `set` subcommand; the
/// verifier reserves that word.)
#[derive(Debug, Clone)]
pub enum ConfigAction {
    Assign { key: String, value: String },
    Get { key: Option<String> },
    Reset,
}

} // verus!
