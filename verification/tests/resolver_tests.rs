//! Tests of the resolution pipeline: lookups, fuzzy matching, rules, the
//! conflict policy and the statistics.

use rexeb::aur::{filter_providers, info_url, AurPackage};
use rexeb::config::{Config, JavaConfig};
use rexeb::dep::{Dependency, DependencyType};
use rexeb::fuzzy::FuzzyMatcher;
use rexeb::mapper::PackageMapper;
use rexeb::package::PackageMetadata;
use rexeb::resolver::DependencyResolver;
use rexeb::{ArchPackageInfo, PackageDatabase, RexebError};

#[test]
fn test_normalize_name() {
    let matcher = FuzzyMatcher::new();

    assert_eq!(matcher.normalize_name("libfoo6"), "foo");
    assert_eq!(matcher.normalize_name("python3-bar"), "bar");
    assert_eq!(matcher.normalize_name("baz-dev"), "baz");
}

#[test]
fn normalize_name_twice_changes_nothing_without_stripped_edges() {
    let matcher = FuzzyMatcher::new();
    let once = matcher.normalize_name("python3-NumPy");
    assert_eq!(matcher.normalize_name(&once), once);
}

#[test]
fn test_heuristic_match() {
    let matcher = FuzzyMatcher::new();

    let result = matcher.heuristic_match("python3-numpy");
    assert!(result.is_some());
    let (name, _) = result.unwrap();
    assert_eq!(name, "python-numpy");
}

#[test]
fn heuristic_strips_library_digits() {
    let matcher = FuzzyMatcher::new();
    assert_eq!(
        matcher.heuristic_match("libpng16"),
        Some(("libpng".to_owned(), 700))
    );
    assert_eq!(
        matcher.heuristic_match("default-jre"),
        Some(("jre-openjdk".to_owned(), 900))
    );
    assert_eq!(matcher.heuristic_match("firefox"), None);
}

#[test]
fn test_score_calculation() {
    let matcher = FuzzyMatcher::new();

    // Identical after normalization scores high.
    let score = matcher.calculate_score("libfoo6", "libfoo");
    assert!(score > 800);

    // Unrelated names score low.
    let score = matcher.calculate_score("firefox", "chromium");
    assert!(score < 500);
}

#[test]
fn test_lib_version_rule() {
    let mut mapper = PackageMapper::new();

    let result = mapper.apply_rules("libpng16");
    assert!(result.is_some());
    let (name, _) = result.unwrap();
    assert_eq!(name, "libpng");
}

#[test]
fn test_python3_rule() {
    let mut mapper = PackageMapper::new();

    let result = mapper.apply_rules("python3-numpy");
    assert!(result.is_some());
    let (name, _) = result.unwrap();
    assert_eq!(name, "python-numpy");
}

#[test]
fn python3_rule_carries_its_confidence() {
    let mut mapper = PackageMapper::new();
    assert_eq!(
        mapper.apply_rules("python3-numpy"),
        Some(("python-numpy".to_owned(), 900))
    );
}

#[test]
fn test_dev_files_rule() {
    let mut mapper = PackageMapper::new();

    let result = mapper.apply_rules("libssl-dev");
    assert!(result.is_some());
    let (name, _) = result.unwrap();
    assert_eq!(name, "ssl");
}

#[test]
fn test_caching() {
    let mut mapper = PackageMapper::new();

    let result1 = mapper.apply_rules("python3-test");
    assert!(result1.is_some());

    let result2 = mapper.apply_rules("python3-test");
    assert_eq!(result1, result2);
}

#[test]
fn custom_rule_rewrites_through_the_pattern() {
    let mut mapper = PackageMapper::new();
    mapper.add_rule("custom", "^foo-(.+)$", "bar-$1", 700).unwrap();
    assert_eq!(
        mapper.apply_rules("foo-tool"),
        Some(("bar-tool".to_owned(), 700))
    );
    assert!(mapper.add_rule("broken", "(", "x", 700).is_err());
}

#[test]
fn suggest_falls_back_to_the_lowercased_name() {
    let mut mapper = PackageMapper::new();
    let dep = Dependency::new("Firefox");
    assert_eq!(
        mapper.suggest_arch_name(&dep),
        Some(("firefox".to_owned(), 500))
    );
}

#[test]
fn builtin_lookup_translates_core_libraries() {
    let db = PackageDatabase::new();
    assert_eq!(
        db.lookup("libc6").unwrap(),
        Some(("glibc".to_owned(), 1000))
    );
    assert_eq!(
        db.lookup("libssl3").unwrap(),
        Some(("openssl".to_owned(), 1000))
    );
    assert_eq!(db.lookup("no-such-package-zzz").unwrap(), None);
}

#[test]
fn virtual_capabilities_are_known() {
    let db = PackageDatabase::new();
    assert!(db.is_virtual("editor").unwrap());
    assert!(!db.is_virtual("libc6").unwrap());
    let providers = db.get_virtual_providers("c-compiler").unwrap();
    assert_eq!(providers[0], "gcc");
}

#[test]
fn resolve_local_uses_the_store() {
    let resolver = DependencyResolver::new().unwrap();
    let mut dep = Dependency::new("libc6");
    assert!(resolver.resolve_local(&mut dep));
    assert_eq!(dep.arch_name.as_deref(), Some("glibc"));
    assert_eq!(dep.confidence, 1000);
}

#[test]
fn remote_answers_map_at_the_stated_confidence() {
    let pkg = sample_pkg("tool", 5000, None);
    let mut dep = Dependency::new("tool-foreign");
    assert!(DependencyResolver::apply_info_results(&mut dep, &vec![pkg]));
    assert_eq!(dep.arch_name.as_deref(), Some("tool"));
    assert_eq!(dep.confidence, 1000);

    let provider = sample_pkg("helper", 5000, None);
    let mut other = Dependency::new("capability-x");
    assert!(DependencyResolver::apply_provider_results(
        &mut other,
        &vec![provider]
    ));
    assert_eq!(other.arch_name.as_deref(), Some("helper"));
    assert_eq!(other.confidence, 800);
}

#[test]
fn unresolved_known_capability_becomes_virtual() {
    let resolver = DependencyResolver::new().unwrap();
    let mut dep = Dependency::new("x-terminal-emulator");
    resolver.finalize_unresolved(&mut dep);
    assert!(dep.is_virtual);
}

fn java_metadata() -> PackageMetadata {
    let mut metadata = PackageMetadata::new("test-java-app", "1.0");
    let mut jre_dep = Dependency::new("default-jre");
    jre_dep.set_arch_name("jre-openjdk", 1000);
    metadata.add_dep(DependencyType::Depends, jre_dep);
    let mut jdk_dep = Dependency::new("default-jdk");
    jdk_dep.set_arch_name("jdk-openjdk", 1000);
    metadata.add_dep(DependencyType::Depends, jdk_dep);
    metadata
}

#[test]
fn test_java_conflict_resolution() {
    let resolver = DependencyResolver::new().unwrap();
    let mut metadata = java_metadata();

    resolver
        .handle_java_conflicts(&mut metadata, &JavaConfig::default())
        .unwrap();

    let deps = metadata.get_deps(DependencyType::Depends);
    let jre_exists = deps.iter().any(|dep| dep.effective_name() == "jre-openjdk");
    let jdk_exists = deps.iter().any(|dep| dep.effective_name() == "jdk-openjdk");

    assert!(!jre_exists, "JRE dependency should be removed when JDK is present");
    assert!(jdk_exists, "JDK dependency should be preserved");
}

#[test]
fn test_java_conflict_resolution_prefer_jre() {
    let resolver = DependencyResolver::new().unwrap();
    let mut metadata = java_metadata();

    let mut java = JavaConfig::default();
    java.conflict_strategy = "prefer-jre".to_owned();
    resolver.handle_java_conflicts(&mut metadata, &java).unwrap();

    let deps = metadata.get_deps(DependencyType::Depends);
    let jre_exists = deps.iter().any(|dep| dep.effective_name() == "jre-openjdk");
    let jdk_exists = deps.iter().any(|dep| dep.effective_name() == "jdk-openjdk");

    assert!(jre_exists, "JRE dependency should be preserved under prefer-jre");
    assert!(!jdk_exists, "JDK dependency should be removed under prefer-jre");
}

#[test]
fn conflict_pass_declares_each_dropped_variant_once() {
    let resolver = DependencyResolver::new().unwrap();
    let mut metadata = java_metadata();
    let java = JavaConfig::default();

    resolver.handle_java_conflicts(&mut metadata, &java).unwrap();
    resolver.handle_java_conflicts(&mut metadata, &java).unwrap();

    let conflicts = metadata.get_deps(DependencyType::Conflicts);
    let declared: Vec<&str> = conflicts
        .iter()
        .filter(|d| d.effective_name() == "jre-openjdk")
        .map(|d| d.effective_name())
        .collect();
    assert_eq!(declared.len(), 1);
}

#[test]
fn test_default_config() {
    let config = Config::default();
    assert_eq!(config.conversion.default_format, "pkg.tar.zst");
    assert!(!config.conversion.skip_deps);
    assert_eq!(config.network.timeout, 30);
}

#[test]
fn stats_count_every_outcome() {
    let resolver = DependencyResolver::new().unwrap();
    let mut metadata = PackageMetadata::new("demo", "1.0");
    let mut mapped = Dependency::new("libc6");
    mapped.set_arch_name("glibc", 1000);
    metadata.add_dep(DependencyType::Depends, mapped);
    let mut virt = Dependency::new("editor");
    virt.is_virtual = true;
    metadata.add_dep(DependencyType::Recommends, virt);
    metadata.add_dep(DependencyType::Suggests, Dependency::new("mystery"));

    let stats = resolver.stats(&metadata);
    assert_eq!(stats.total, 3);
    assert_eq!(stats.mapped, 1);
    assert_eq!(stats.virtual_packages, 1);
    assert_eq!(stats.unmapped, 1);
    assert_eq!(stats.avg_confidence, 1000);
    assert_eq!(stats.unmapped_names, vec!["mystery".to_owned()]);
    assert_eq!(stats.success_rate_milli(), 666);
}

#[test]
fn success_is_full_without_dependencies() {
    let resolver = DependencyResolver::new().unwrap();
    let metadata = PackageMetadata::new("empty", "1.0");
    let stats = resolver.stats(&metadata);
    assert_eq!(stats.total, 0);
    assert_eq!(stats.success_rate_milli(), 1000);
}

fn sample_pkg(name: &str, popularity_milli: u64, provides: Option<Vec<String>>) -> AurPackage {
    AurPackage {
        name: name.to_owned(),
        version: "1.0".to_owned(),
        description: None,
        url: None,
        package_base: name.to_owned(),
        num_votes: 1,
        popularity_milli,
        out_of_date: None,
        maintainer: None,
        first_submitted: 0,
        last_modified: 0,
        provides,
        replaces: None,
        conflicts: None,
    }
}

#[test]
fn empty_info_request_needs_no_network_call() {
    let names: Vec<String> = Vec::new();
    assert_eq!(info_url("https://example.invalid/rpc/v5", &names), None);
}

#[test]
fn info_request_lists_every_name() {
    let names = vec!["a".to_owned(), "b".to_owned()];
    assert_eq!(
        info_url("https://example.invalid/rpc/v5", &names).as_deref(),
        Some("https://example.invalid/rpc/v5/info?arg[]=a&arg[]=b")
    );
}

#[test]
fn providers_are_filtered_and_ordered_by_popularity() {
    let results = vec![
        sample_pkg("other", 9000, None),
        sample_pkg("low", 100, Some(vec!["cap".to_owned()])),
        sample_pkg("cap", 500, None),
        sample_pkg("high", 800, Some(vec!["cap".to_owned()])),
    ];
    let providers = filter_providers(results, "cap");
    let names: Vec<&str> = providers.iter().map(|p| p.name.as_str()).collect();
    assert_eq!(names, vec!["high", "cap", "low"]);
}

#[test]
fn find_matches_ranks_by_score() {
    let resolver = DependencyResolver::new().unwrap();
    let matches = resolver
        .fuzzy
        .find_matches("python3-numpy", &resolver.db, 5)
        .unwrap();
    assert!(!matches.is_empty());
    assert_eq!(matches[0].0, "python-numpy");
    for w in matches.windows(2) {
        assert!(w[0].1 >= w[1].1);
    }
    assert!(matches.len() <= 5);
}

#[test]
fn cache_search_puts_whole_name_matches_first() {
    let mut db = PackageDatabase::new();
    db.add_arch_package(ArchPackageInfo {
        name: "zlib-tools".to_owned(),
        version: "1".to_owned(),
        description: "tools around zlib".to_owned(),
        provides: vec![],
        replaces: vec![],
    });
    db.add_arch_package(ArchPackageInfo {
        name: "zlib".to_owned(),
        version: "2".to_owned(),
        description: "compression library".to_owned(),
        provides: vec![],
        replaces: vec![],
    });
    db.add_arch_package(ArchPackageInfo {
        name: "unrelated".to_owned(),
        version: "3".to_owned(),
        description: "nothing here".to_owned(),
        provides: vec![],
        replaces: vec![],
    });
    let hits = db.search_arch("Zlib", false, 10).unwrap();
    let names: Vec<&str> = hits.iter().map(|h| h.name.as_str()).collect();
    assert_eq!(names, vec!["zlib", "zlib-tools"]);
    assert_eq!(hits[0].score, 1000);
    assert_eq!(hits[1].score, 800);
    let capped = db.search_arch("zlib", false, 1).unwrap();
    assert_eq!(capped.len(), 1);
    assert_eq!(capped[0].name, "zlib-tools");
}

#[test]
fn remote_answers_are_classified_by_kind() {
    assert!(rexeb::aur::classify_response(200, None).is_ok());
    let transport = rexeb::aur::classify_response(500, None).unwrap_err();
    assert!(matches!(transport, RexebError::Network(_)));
    assert_eq!(transport.message(), "Network error: AUR API error: 500");
    let service = rexeb::aur::classify_response(200, Some("bad query".to_owned())).unwrap_err();
    assert!(matches!(service, RexebError::AurApi(_)));
}

#[test]
fn user_mapping_overrides_the_builtin_entry() {
    let mut db = PackageDatabase::new();
    db.add_mapping("libc6", "musl", 700);
    assert_eq!(db.lookup("libc6").unwrap(), Some(("musl".to_owned(), 700)));
}
