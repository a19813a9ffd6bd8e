//! The commands of the tool, as the user gives them.

use vstd::prelude::*;

verus! {

/// A command line.
#[derive(Debug, Clone, PartialEq, Eq)]
pub struct Cli {
    /// The command, if one was given.
    pub command: Option<Commands>,
}

/// A command with its arguments.
#[derive(Debug, Clone, PartialEq, Eq)]
pub enum Commands {
    /// Download a model from the hub.
    Download { model: String, quant: Option<String> },
    /// Run a model.
    Run {
        model: String,
        runtime: Option<String>,
        quant: Option<String>,
        preset: Option<String>,
        resume: bool,
        template: Option<String>,
    },
    /// List models.
    List { target: ListTarget },
    /// Show what is known of a model.
    Info { model: String, variants: bool },
    /// Remove a model from the store.
    Remove { model: String },
    /// Manage the runtimes.
    Runtime { action: RuntimeAction },
    /// Look the host over.
    Doctor,
    /// Set the tool up.
    Setup,
}

/// What is to be listed.
#[derive(Debug, Clone, Copy, PartialEq, Eq, Structural)]
pub enum ListTarget {
    /// The models: those on the hub where `remote` is set, else those in the
    /// store.
    Models { remote: bool },
}

/// What is to be done with the runtimes.
#[derive(Debug, Clone, PartialEq, Eq)]
pub enum RuntimeAction {
    /// Say which are installed.
    Check,
    /// Install one: the one named, or the one that the user then picks.
    Install { runtime: Option<String> },
    /// Describe those that exist.
    List,
}

/// The part of the tool that serves a command line.
#[derive(Debug, Clone, Copy, PartialEq, Eq, Structural)]
pub enum Handler {
    /// No command was given: the banner is shown.
    Banner,
    Download,
    Run,
    List,
    Info,
    Remove,
    Runtime,
    Doctor,
    Setup,
}

/// The handler of a command.
pub open spec fn handler_of(command: Option<Commands>) -> Handler {
    match command {
        None => Handler::Banner,
        Some(Commands::Download { .. }) => Handler::Download,
        Some(Commands::Run { .. }) => Handler::Run,
        Some(Commands::List { .. }) => Handler::List,
        Some(Commands::Info { .. }) => Handler::Info,
        Some(Commands::Remove { .. }) => Handler::Remove,
        Some(Commands::Runtime { .. }) => Handler::Runtime,
        Some(Commands::Doctor) => Handler::Doctor,
        Some(Commands::Setup) => Handler::Setup,
    }
}

impl Cli {
    /// The part of the tool that serves this command line.
    pub fn handler(&self) -> (handler: Handler)
        ensures
            handler == handler_of(self.command),
    {
        match &self.command {
            None => Handler::Banner,
            Some(Commands::Download { .. }) => Handler::Download,
            Some(Commands::Run { .. }) => Handler::Run,
            Some(Commands::List { .. }) => Handler::List,
            Some(Commands::Info { .. }) => Handler::Info,
            Some(Commands::Remove { .. }) => Handler::Remove,
            Some(Commands::Runtime { .. }) => Handler::Runtime,
            Some(Commands::Doctor) => Handler::Doctor,
            Some(Commands::Setup) => Handler::Setup,
        }
    }
}

} // verus!
