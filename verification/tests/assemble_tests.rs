//! Tests of package assembly: file names, manifests and the file tree.

use rexeb::assemble::{generate_buildinfo, mtree_content, package_file_name, MtreeEntry};
use rexeb::cli::OutputFormat;
use rexeb::package::PackageMetadata;

#[test]
fn output_file_name_is_deterministic() {
    let mut m = PackageMetadata::new("foo", "1.2");
    m.release = "3".to_owned();
    m.arch = rexeb::Architecture::X86_64;
    assert_eq!(
        package_file_name(&m, OutputFormat::PkgTarZst),
        "foo-1.2-3.x86_64.pkg.tar.zst"
    );
    assert_eq!(
        package_file_name(&m, OutputFormat::PkgTarGz),
        "foo-1.2-3.x86_64.pkg.tar.gz"
    );
}

#[test]
fn buildinfo_carries_the_synthetic_checksum() {
    let mut m = PackageMetadata::new("foo", "1.2");
    m.release = "3".to_owned();
    m.arch = rexeb::Architecture::X86_64;
    let text = generate_buildinfo(&m, 7);
    assert!(text.starts_with("format = 2\npkgname = foo\npkgbase = foo\npkgver = 1.2-3\n"));
    assert!(text.contains("pkgbuild_sha256sum = bb5268a768158b195444b2a090780d5c"));
    assert!(text.contains("builddate = 7"));
    assert!(text.contains("packager = Unknown (converted by rexeb)"));
    assert!(text.ends_with("options = !staticlibs"));
}

#[test]
fn mtree_lists_manifests_before_payload_and_never_itself() {
    let specials = vec![
        (".BUILDINFO".to_owned(), 10u64, "aa".repeat(32)),
        (".PKGINFO".to_owned(), 20u64, "bb".repeat(32)),
        (".INSTALL".to_owned(), 5u64, "cc".repeat(32)),
    ];
    let payload = vec![
        MtreeEntry::Dir {
            path: "usr".to_owned(),
            mode: 0o755,
        },
        MtreeEntry::File {
            path: "usr/bin/foo".to_owned(),
            mode: 0o755,
            size: 9,
            sha256: "dd".repeat(32),
        },
        MtreeEntry::Symlink {
            path: "usr/bin/foo-link".to_owned(),
            mode: 0o777,
            target: "foo".to_owned(),
        },
        MtreeEntry::File {
            path: ".MTREE".to_owned(),
            mode: 0o644,
            size: 1,
            sha256: "ee".repeat(32),
        },
    ];
    let text = mtree_content(&specials, &payload);
    assert!(text.starts_with("#mtree\n/set type=file uid=0 gid=0 mode=644\n"));
    assert!(!text.contains("./.MTREE"));
    let b = text.find("./.BUILDINFO").unwrap();
    let p = text.find("./.PKGINFO").unwrap();
    let i = text.find("./.INSTALL").unwrap();
    let payload_start = text.find("./usr").unwrap();
    assert!(b < p && p < i && i < payload_start);
    assert!(text.contains("./usr time=0 mode=755 type=dir\n"));
    assert!(text.contains(
        "./usr/bin/foo time=0 size=9 mode=755 type=file sha256digest="
    ));
    assert!(text.contains("./usr/bin/foo-link time=0 mode=777 type=link link=foo\n"));
}

#[test]
fn archive_headers_normalize_ownership() {
    let file = MtreeEntry::File {
        path: "usr/bin/foo".to_owned(),
        mode: 0o750,
        size: 1,
        sha256: String::new(),
    };
    let link = MtreeEntry::Symlink {
        path: "l".to_owned(),
        mode: 0o644,
        target: "t".to_owned(),
    };
    assert_eq!(
        rexeb::assemble::archive_header_fields(&file, 1234),
        (0, 0, 0o750, 1234)
    );
    assert_eq!(
        rexeb::assemble::archive_header_fields(&link, 1234),
        (0, 0, 0o777, 0)
    );
}
