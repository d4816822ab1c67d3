//! Converts Debian package metadata into Arch Linux packages: dependency-name
//! translation (exact table lookup, fuzzy matching, rewrite rules, remote
//! repository search) and assembly of the target package's manifests and
//! archive layout.

pub mod arch;
pub mod assemble;
pub mod aur;

pub mod cli;
pub mod config;
pub mod database;
pub mod dep;
pub mod error;
pub mod fmtnum;
pub mod fuzzy;
pub mod mapper;
pub mod package;
pub mod resolver;
pub mod strutil;

mod meta;

pub use arch::Architecture;
pub use meta::{BANNER, NAME, VERSION};
pub use assemble::MtreeEntry;
pub use aur::AurPackage;
pub use cli::{Cli, Commands, OutputFormat};
pub use config::{Config, ConversionConfig, GeneralConfig, JavaConfig, LoggingConfig, NetworkConfig};
pub use dep::{Dependency, DependencyType, VersionOp};
pub use database::{ArchPackageInfo, AurPackageInfo, MappingSource, PackageDatabase, PackageMapping, SearchResult};
pub use error::{Result, RexebError};
pub use mapper::{MappingRule, PackageMapper, RuleKind};
pub use package::{License, MaintainerScript, PackageFormat, PackageMetadata};
pub use resolver::{DependencyResolver, ResolutionStats};
