//! Configuration values the conversion consumes.
//!
//! Loading and saving the configuration file is the caller's business; the
//! library only holds and interprets the values.

use vstd::prelude::*;

verus! {

/// General settings.
#[derive(Debug)]
pub struct GeneralConfig {
    /// Cache directory.
    pub cache_dir: Option<String>,
    /// Data directory.
    pub data_dir: Option<String>,
    /// Default output directory.
    pub output_dir: Option<String>,
    /// Number of parallel jobs.
    pub jobs: Option<u64>,
    /// Automatically accept prompts.
    pub auto_yes: bool,
}

impl Default for GeneralConfig {
    /// All directories unset, no job count, prompts not auto-accepted.
    fn default() -> (r: GeneralConfig)
        ensures
            r.cache_dir is None,
            r.data_dir is None,
            r.output_dir is None,
            r.jobs is None,
            !r.auto_yes,
    {
        GeneralConfig {
            cache_dir: None,
            data_dir: None,
            output_dir: None,
            jobs: None,
            auto_yes: false,
        }
    }
}

/// Conversion settings.
#[derive(Debug)]
pub struct ConversionConfig {
    /// Default output format name.
    pub default_format: String,
    /// Skip dependency resolution.
    pub skip_deps: bool,
    /// Generate a PKGBUILD instead of a binary package.
    pub generate_pkgbuild: bool,
    /// Keep temporary files.
    pub keep_temp: bool,
    /// Per-mille minimum confidence for fuzzy matching.
    pub min_match_confidence: u32,
    /// Strip binaries.
    pub strip_binaries: bool,
}

impl Default for ConversionConfig {
    /// The zstd package format, resolution on, fuzzy threshold 600
    /// per-mille, binaries stripped.
    fn default() -> (r: ConversionConfig)
        ensures
            r.default_format@ == "pkg.tar.zst"@,
            !r.skip_deps,
            !r.generate_pkgbuild,
            !r.keep_temp,
            r.min_match_confidence == 600,
            r.strip_binaries,
    {
        ConversionConfig {
            default_format: "pkg.tar.zst".to_owned(),
            skip_deps: false,
            generate_pkgbuild: false,
            keep_temp: false,
            min_match_confidence: 600,
            strip_binaries: true,
        }
    }
}

/// Network settings.
#[derive(Debug)]
pub struct NetworkConfig {
    /// HTTP timeout in seconds.
    pub timeout: u64,
    /// Proxy URL.
    pub proxy: Option<String>,
    /// Remote repository RPC URL.
    pub aur_url: String,
    /// Work offline.
    pub offline: bool,
}

impl Default for NetworkConfig {
    /// A 30-second timeout against the public repository endpoint.
    fn default() -> (r: NetworkConfig)
        ensures
            r.timeout == 30,
            r.proxy is None,
            r.aur_url@ == "https://aur.archlinux.org/rpc"@,
            !r.offline,
    {
        NetworkConfig {
            timeout: 30,
            proxy: None,
            aur_url: "https://aur.archlinux.org/rpc".to_owned(),
            offline: false,
        }
    }
}

/// Logging settings.
#[derive(Debug)]
pub struct LoggingConfig {
    /// Log level name.
    pub level: String,
    /// Log file path.
    pub file: Option<String>,
    /// Colored output.
    pub color: bool,
}

impl Default for LoggingConfig {
    /// Informational colored logging to the terminal.
    fn default() -> (r: LoggingConfig)
        ensures
            r.level@ == "info"@,
            r.file is None,
            r.color,
    {
        LoggingConfig { level: "info".to_owned(), file: None, color: true }
    }
}

/// Java-specific settings.
#[derive(Debug)]
pub struct JavaConfig {
    /// How competing Java runtime and development packages are resolved:
    /// `jre`, `jdk`, `prefer-jdk`, `prefer-jre` or `prompt`.
    pub conflict_strategy: String,
    /// Whether dropped variants are declared as conflicts.
    pub add_java_conflicts: bool,
    /// Preferred Java version when several are available.
    pub default_version: String,
}

impl Default for JavaConfig {
    /// Prefer the development variant and declare conflicts.
    fn default() -> (r: JavaConfig)
        ensures
            r.conflict_strategy@ == "prefer-jdk"@,
            r.add_java_conflicts,
            r.default_version@ == "latest"@,
    {
        JavaConfig {
            conflict_strategy: "prefer-jdk".to_owned(),
            add_java_conflicts: true,
            default_version: "latest".to_owned(),
        }
    }
}

/// The application configuration.
#[derive(Debug)]
pub struct Config {
    /// General settings.
    pub general: GeneralConfig,
    /// Conversion settings.
    pub conversion: ConversionConfig,
    /// Network settings.
    pub network: NetworkConfig,
    /// Logging settings.
    pub logging: LoggingConfig,
    /// Java-specific settings.
    pub java: JavaConfig,
}

impl Default for Config {
    /// Every section at its default.
    fn default() -> (r: Config)
        ensures
            r.conversion.default_format@ == "pkg.tar.zst"@,
            !r.conversion.skip_deps,
            r.network.timeout == 30,
            r.java.conflict_strategy@ == "prefer-jdk"@,
            r.java.add_java_conflicts,
            !r.general.auto_yes,
            r.logging.level@ == "info"@,
    {
        Config {
            general: GeneralConfig::default(),
            conversion: ConversionConfig::default(),
            network: NetworkConfig::default(),
            logging: LoggingConfig::default(),
            java: JavaConfig::default(),
        }
    }
}

} // verus!
