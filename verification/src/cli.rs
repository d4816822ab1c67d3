//! The command surface: argument records and output formats.
//!
//! Argument parsing itself happens outside the library; these are the plain
//! values the commands run on.

use vstd::prelude::*;

verus! {

/// The archive format of a produced package.
#[derive(Debug, Clone, Copy, PartialEq, Eq, Structural)]
pub enum OutputFormat {
    /// `.pkg.tar.zst`: the default, high compression ratio.
    PkgTarZst,
    /// `.pkg.tar.xz`: the balanced legacy format.
    PkgTarXz,
    /// `.pkg.tar.gz`: fast, for compatibility.
    PkgTarGz,
}

impl OutputFormat {
    /// What `extension` returns.
    pub open spec fn spec_extension(self) -> Seq<char> {
        match self {
            Self::PkgTarZst => "pkg.tar.zst"@,
            Self::PkgTarXz => "pkg.tar.xz"@,
            Self::PkgTarGz => "pkg.tar.gz"@,
        }
    }

    /// The file extension of this format.
    pub fn extension(&self) -> (r: &'static str)
        ensures
            r@ == self.spec_extension(),
    {
        match self {
            Self::PkgTarZst => "pkg.tar.zst",
            Self::PkgTarXz => "pkg.tar.xz",
            Self::PkgTarGz => "pkg.tar.gz",
        }
    }
}

/// How package information is printed.
#[derive(Debug, Clone, Copy, PartialEq, Eq, Structural)]
pub enum InfoFormat {
    /// Human-readable output.
    Pretty,
    /// JSON output.
    Json,
    /// TOML output.
    Toml,
}

/// Arguments of the convert command.
#[derive(Debug)]
pub struct ConvertArgs {
    /// Input package files.
    pub input: Vec<String>,
    /// Output directory.
    pub output: Option<String>,
    /// Skip dependency resolution.
    pub skip_deps: bool,
    /// Convert despite warnings.
    pub force: bool,
    /// Generate a PKGBUILD instead of a binary package.
    pub pkgbuild: bool,
    /// Skip interactive prompts.
    pub yes: bool,
    /// Treat the package as 64-bit.
    pub pseudo64: bool,
    /// Keep temporary files.
    pub keep_temp: bool,
    /// Package name override.
    pub name: Option<String>,
    /// Version override.
    pub version_override: Option<String>,
    /// Release number override.
    pub release: Option<String>,
    /// Output format.
    pub format: OutputFormat,
}

/// Arguments of the update command.
#[derive(Debug)]
pub struct UpdateArgs {
    /// Update the virtual-capability table.
    pub virtual_packages: bool,
    /// Update the name mappings.
    pub mappings: bool,
    /// Update the user-repository cache.
    pub aur: bool,
    /// Update everything.
    pub all: bool,
    /// Update even when recently updated.
    pub force: bool,
}

/// Arguments of the info command.
#[derive(Debug)]
pub struct InfoArgs {
    /// The package file to describe.
    pub package: String,
    /// Output format.
    pub format: InfoFormat,
    /// Show extended information.
    pub extended: bool,
}

/// Arguments of the search command.
#[derive(Debug)]
pub struct SearchArgs {
    /// The name to search for.
    pub query: String,
    /// Search the target repositories.
    pub arch: bool,
    /// Search the user repository.
    pub aur: bool,
    /// Maximum number of results.
    pub limit: u64,
    /// Include fuzzy matches.
    pub fuzzy: bool,
}

/// Arguments of the analyze command.
#[derive(Debug)]
pub struct AnalyzeArgs {
    /// The package file to analyze.
    pub input: String,
    /// Check for conflicts with installed packages.
    pub conflicts: bool,
    /// Verify file integrity.
    pub verify: bool,
    /// Output format.
    pub format: InfoFormat,
}

/// Arguments of the install command.
#[derive(Debug)]
pub struct InstallArgs {
    /// The package files to install.
    pub input: Vec<String>,
    /// Skip confirmation prompts.
    pub yes: bool,
    /// Install as a dependency.
    pub asdeps: bool,
    /// Install as explicitly requested.
    pub asexplicit: bool,
    /// Extra flags passed through to the package manager.
    pub pacman_args: Vec<String>,
}

/// Arguments of the configuration command.
#[derive(Debug)]
pub struct ConfigArgs {
    /// The configuration action.
    pub command: ConfigCommands,
}

/// The configuration actions.
#[derive(Debug)]
pub enum ConfigCommands {
    /// Show the current configuration.
    Show,
    /// Edit the configuration file.
    Edit,
    /// Reset the configuration to its defaults.
    Reset,
    /// Store one value.
    SetValue {
        /// The configuration key.
        key: String,
        /// The value to store.
        value: String,
    },
    /// Read one value.
    Get {
        /// The configuration key.
        key: String,
    },
    /// Create the configuration file.
    Init {
        /// Overwrite an existing file.
        force: bool,
    },
}

/// Arguments of the clean command.
#[derive(Debug)]
pub struct CleanArgs {
    /// Clean the package cache.
    pub cache: bool,
    /// Clean temporary files.
    pub temp: bool,
    /// Clean everything.
    pub all: bool,
    /// Only show what would be deleted.
    pub dry_run: bool,
}

/// The commands the tool offers.
#[derive(Debug)]
pub enum Commands {
    /// Convert a package to the target format.
    Convert(ConvertArgs),
    /// Update databases and mappings.
    Update(UpdateArgs),
    /// Show information about a package.
    Info(InfoArgs),
    /// Search for package mappings.
    Search(SearchArgs),
    /// Analyze a package without converting it.
    Analyze(AnalyzeArgs),
    /// Convert and install in one step.
    Install(InstallArgs),
    /// Manage the configuration.
    Config(ConfigArgs),
    /// Clean caches and temporary files.
    Clean(CleanArgs),
}

/// The parsed command line.
#[derive(Debug)]
pub struct Cli {
    /// The command to run.
    pub command: Commands,
    /// Verbose output.
    pub verbose: bool,
    /// Suppress non-essential output.
    pub quiet: bool,
    /// Configuration file path.
    pub config: Option<String>,
    /// Number of parallel jobs.
    pub jobs: Option<u64>,
    /// Run the terminal dashboard.
    pub tui: bool,
}

} // verus!
