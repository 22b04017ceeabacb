use vstd::prelude::*;

verus! {

/// What the command line asked of the project-initialization step. Every
/// field is optional; a missing one is asked for interactively.
#[derive(Debug, Clone)]
pub struct Init {
    /// Path of the source package's manifest, or its directory.
    pub path: Option<String>,
    /// Target directory for the generated project.
    pub target: Option<String>,
    /// Git remote of the template repository.
    pub origin: Option<String>,
    /// Branch of the template repository.
    pub branch: Option<String>,
}

/// What the command line asked of the build step.
#[derive(Debug, Clone)]
pub struct Build {
    /// Path of a project generated by the initialization step.
    pub path: Option<String>,
}

/// The operations this tool offers.
#[derive(Debug, Clone)]
pub enum Subcommands {
    /// Initializes the project from the provided path.
    Init(Init),
    /// Builds a project initialized via `Init`.
    Build(Build),
}

/// The cargo-style wrapper level: the tool is invoked as a cargo
/// subcommand, whose own subcommand carries the operation.
#[derive(Debug, Clone)]
pub enum Commands {
    SovSnapGenerator { command: Subcommands },
}

/// The flags that shape interaction, apart from any one operation.
#[derive(Debug, Clone)]
pub struct InterfaceArgs {
    /// Verbosity level: each step up silences one kind of output.
    pub quiet: u8,
    /// Defaults all inputs.
    pub defaults: bool,
    /// Skips all confirmations.
    pub force: bool,
}

/// The parsed command line.
#[derive(Debug, Clone)]
pub struct Cli {
    pub command: Commands,
    pub quiet: u8,
    pub defaults: bool,
    pub force: bool,
}

impl Cli {
    /// Splits the command line into the operation to run and the flags
    /// the interaction layer keeps.
    pub fn split_interface(self) -> (r: (Subcommands, InterfaceArgs))
        ensures
            (match self.command {
                Commands::SovSnapGenerator { command } => r.0 == command,
            }),
            r.1.quiet == self.quiet,
            r.1.defaults == self.defaults,
            r.1.force == self.force,
    {
        let command = match self.command {
            Commands::SovSnapGenerator { command } => command,
        };
        (
            command,
            InterfaceArgs { quiet: self.quiet, defaults: self.defaults, force: self.force },
        )
    }
}

} // verus!
