//! The values that other parts of the application hand to the translator.
use vstd::prelude::*;

verus! {

/// A file-system path, carried with its canonical textual form.
#[derive(Debug, Clone)]
pub struct StrictPath {
    raw: String,
}

impl StrictPath {
    /// The canonical textual form of the path.
    pub closed spec fn view(&self) -> Seq<char> {
        self.raw@
    }

    pub fn new(raw: &str) -> (r: StrictPath)
        ensures
            r.view() == raw@,
    {
        StrictPath { raw: String::from_str(raw) }
    }

    /// The canonical textual form of the path.
    pub fn render(&self) -> (r: String)
        ensures
            r@ == self.view(),
    {
        self.raw.clone()
    }
}

/// Progress counters of a backup or restore operation.
#[derive(Debug, Clone, Copy, Default)]
pub struct OperationStatus {
    pub total_games: usize,
    pub total_bytes: u64,
    pub processed_games: usize,
    pub processed_bytes: u64,
}

impl OperationStatus {
    pub fn processed_all_games(&self) -> (r: bool)
        ensures
            r == (self.processed_games == self.total_games),
    {
        self.processed_games == self.total_games
    }

    pub fn processed_all_bytes(&self) -> (r: bool)
        ensures
            r == (self.processed_bytes == self.total_bytes),
    {
        self.processed_bytes == self.total_bytes
    }

    pub fn processed_all(&self) -> (r: bool)
        ensures
            r == (self.processed_games == self.total_games && self.processed_bytes
                == self.total_bytes),
    {
        self.processed_all_games() && self.processed_all_bytes()
    }
}

/// What happened to one game in an operation.
#[derive(Debug, Clone, Copy, PartialEq, Eq, Structural)]
pub enum OperationStepDecision {
    Processed,
    Cancelled,
    Ignored,
}

/// Where a root's games come from.
#[derive(Debug, Clone, Copy, PartialEq, Eq, Structural)]
pub enum Store {
    Epic,
    Gog,
    GogGalaxy,
    Microsoft,
    Origin,
    Prime,
    Steam,
    Uplay,
    OtherHome,
    OtherWine,
    Other,
}

/// How the game list is sorted.
#[derive(Debug, Clone, Copy, PartialEq, Eq, Structural)]
pub enum SortKey {
    Name,
    Size,
}

/// A configured root folder and its store.
#[derive(Debug, Clone)]
pub struct RootsConfig {
    pub path: StrictPath,
    pub store: Store,
}

/// The errors that the application reports to its user.
#[derive(Debug, Clone)]
pub enum Error {
    ConfigInvalid { why: String },
    ManifestInvalid { why: String },
    ManifestCannotBeUpdated,
    CliBackupTargetExists { path: StrictPath },
    CliUnrecognizedGames { games: Vec<String> },
    CliUnableToRequestConfirmation,
    SomeEntriesFailed,
    CannotPrepareBackupTarget { path: StrictPath },
    RestorationSourceInvalid { path: StrictPath },
    RegistryIssue,
    UnableToBrowseFileSystem,
    UnableToOpenDir(StrictPath),
    UnableToOpenUrl(String),
}

} // verus!
