//! Tests of the data model: architectures, dependencies, versions, formats.

use rexeb::dep::{Dependency, DependencyType, VersionOp};
use rexeb::package::{License, MaintainerScript, PackageFormat, PackageMetadata};
use rexeb::Architecture;

#[test]
fn test_version() {
    assert!(!rexeb::VERSION.is_empty());
}

#[test]
fn test_name() {
    assert_eq!(rexeb::NAME, "rexeb");
}

#[test]
fn test_banner() {
    assert!(!rexeb::BANNER.trim().is_empty());
    assert!(rexeb::BANNER.lines().count() >= 6);
}

#[test]
fn test_debian_to_arch() {
    assert_eq!(
        Architecture::from_debian("amd64").unwrap(),
        Architecture::X86_64
    );
    assert_eq!(
        Architecture::from_debian("i386").unwrap(),
        Architecture::I686
    );
    assert_eq!(
        Architecture::from_debian("arm64").unwrap(),
        Architecture::Aarch64
    );
    assert_eq!(
        Architecture::from_debian("all").unwrap(),
        Architecture::Any
    );
}

#[test]
fn test_arch_names() {
    assert_eq!(Architecture::X86_64.to_arch_name(), "x86_64");
    assert_eq!(Architecture::I686.to_arch_name(), "i686");
    assert_eq!(Architecture::Aarch64.to_arch_name(), "aarch64");
    assert_eq!(Architecture::Armv7h.to_arch_name(), "armv7h");
    assert_eq!(Architecture::Any.to_arch_name(), "any");
}

#[test]
fn unknown_architecture_is_an_error() {
    let err = Architecture::from_debian("mips").unwrap_err();
    assert_eq!(err.message(), "Invalid architecture: Unknown Debian architecture: mips");
}

#[test]
fn test_parse_simple_dep() {
    let dep = Dependency::parse("libc6").unwrap();
    assert_eq!(dep.debian_name, "libc6");
    assert!(dep.version_op.is_none());
    assert!(dep.version.is_none());
}

#[test]
fn test_parse_versioned_dep() {
    let dep = Dependency::parse("libc6 (>= 2.17)").unwrap();
    assert_eq!(dep.debian_name, "libc6");
    assert_eq!(dep.version_op, Some(VersionOp::Ge));
    assert_eq!(dep.version.as_deref(), Some("2.17"));
}

#[test]
fn test_parse_alternatives() {
    let dep = Dependency::parse("python3 | python").unwrap();
    assert_eq!(dep.debian_name, "python3");
    assert_eq!(dep.alternatives.len(), 1);
    assert_eq!(dep.alternatives[0].debian_name, "python");
}

#[test]
fn test_parse_dep_list() {
    let deps = Dependency::parse_list("libc6 (>= 2.17), libssl1.1, zlib1g").unwrap();
    assert_eq!(deps.len(), 3);
    assert_eq!(deps[0].debian_name, "libc6");
    assert_eq!(deps[1].debian_name, "libssl1.1");
    assert_eq!(deps[2].debian_name, "zlib1g");
}

#[test]
fn empty_dependency_is_an_error() {
    assert!(Dependency::parse("   ").is_err());
    assert!(Dependency::parse_list("a, |x").is_err());
}

#[test]
fn unreadable_token_falls_back_to_bare_name() {
    let dep = Dependency::parse("libfoo (1.0)").unwrap();
    assert_eq!(dep.debian_name, "libfoo");
    assert!(dep.version.is_none());
}

#[test]
fn architecture_restriction_is_ignored() {
    let dep = Dependency::parse("libnuma1 (>= 2.0) [amd64 arm64]").unwrap();
    assert_eq!(dep.debian_name, "libnuma1");
    assert_eq!(dep.version.as_deref(), Some("2.0"));
}

#[test]
fn unknown_operator_drops_the_constraint() {
    assert_eq!(VersionOp::from_debian("~>"), None);
    assert_eq!(VersionOp::from_debian(">>"), Some(VersionOp::Gt));
    assert_eq!(VersionOp::Gt.to_arch_format(), ">");
}

#[test]
fn arch_string_normalizes_the_version() {
    let dep = Dependency::with_version("libc6", VersionOp::Ge, "2:2.17-3ubuntu1");
    assert_eq!(dep.to_arch_string(), "libc6>=2.17");
    let plain = Dependency::new("zlib1g");
    assert_eq!(plain.to_arch_string(), "zlib1g");
}

#[test]
fn normalize_version_splits_epoch_and_release() {
    let mut m = PackageMetadata::new("demo", "2:1.8.0-1ubuntu1");
    m.normalize_version();
    assert_eq!(m.epoch, Some(2));
    assert_eq!(m.version, "1.8.0");
    assert_eq!(m.release, "1");
    assert_eq!(m.full_version(), "2:1.8.0-1");
}

#[test]
fn normalize_version_cuts_packaging_markers() {
    let mut m = PackageMetadata::new("demo", "1.2.3+dfsg-4");
    m.normalize_version();
    assert_eq!(m.version, "1.2.3");
    assert_eq!(m.release, "4");
}

#[test]
fn format_extensions() {
    assert_eq!(PackageFormat::Deb.extension(), "deb");
    assert_eq!(PackageFormat::ArchPkg.extension(), "pkg.tar.zst");
    assert_eq!(PackageFormat::from_path("a/b/pkg.deb"), Some(PackageFormat::Deb));
    assert_eq!(
        PackageFormat::from_path("x-1.0.pkg.tar.zst"),
        Some(PackageFormat::ArchPkg)
    );
    assert_eq!(PackageFormat::from_path("archive.tar.zst"), None);
    assert_eq!(PackageFormat::from_path("noext"), None);
}

#[test]
fn maintainer_script_names() {
    assert_eq!(MaintainerScript::PreInst.debian_name(), "preinst");
    assert_eq!(MaintainerScript::PostInst.install_function(), "post_install");
    assert_eq!(MaintainerScript::Config.install_function(), "post_install");
    assert_eq!(MaintainerScript::PreRm.upgrade_function(), "pre_upgrade");
}

#[test]
fn license_classification() {
    assert_eq!(License::from_str("GPL-3.0+"), License::GPL3);
    assert_eq!(License::from_str("Expat/MIT"), License::MIT);
    assert_eq!(License::from_str(""), License::Unknown);
    assert_eq!(
        License::from_str("Proprietary EULA"),
        License::Custom("Proprietary EULA".to_owned())
    );
    assert_eq!(License::MPL.to_pkgbuild(), "MPL");
    assert_eq!(
        License::Custom("EULA".to_owned()).to_pkgbuild(),
        "custom:EULA"
    );
}

#[test]
fn pkginfo_lists_mapped_dependencies_only() {
    let mut m = PackageMetadata::new("demo", "1.0");
    m.description = "a demo".to_owned();
    m.arch = rexeb::Architecture::X86_64;
    let mut mapped = Dependency::new("libc6");
    mapped.set_arch_name("glibc", 1000);
    m.add_dep(DependencyType::Depends, mapped);
    m.add_dep(DependencyType::Depends, Dependency::new("libweird9"));
    let text = m.to_pkginfo(42);
    assert!(text.contains("pkgname = demo"));
    assert!(text.contains("pkgver = 1.0-1"));
    assert!(text.contains("builddate = 42"));
    assert!(text.contains("depend = glibc"));
    assert!(!text.contains("libweird9"));
}

#[test]
fn pkgbuild_quotes_and_filters() {
    let mut m = PackageMetadata::new("demo", "1.0");
    m.description = "say \"hi\"".to_owned();
    m.arch = rexeb::Architecture::Any;
    let mut mapped = Dependency::new("libssl3");
    mapped.set_arch_name("openssl", 1000);
    m.add_dep(DependencyType::Depends, mapped);
    m.add_dep(DependencyType::Provides, Dependency::new("unmapped-thing"));
    let text = m.to_pkgbuild();
    assert!(text.contains("pkgname=demo"));
    assert!(text.contains("pkgdesc=\"say \\\"hi\\\"\""));
    assert!(text.contains("depends=('openssl')"));
    assert!(!text.contains("provides=("));
    assert!(text.ends_with("package() {\n    cp -a \"$srcdir\"/* \"$pkgdir\"/\n}"));
}
