//! Package assembly: the output file name, the build-provenance manifest,
//! the hashed file-tree manifest, and the archive header rules.
//!
//! Staging, compression and archive writing happen outside the library;
//! these functions produce the exact texts and header values to write.

use vstd::prelude::*;

use sha2::Digest;

use crate::cli::OutputFormat;
use crate::fmtnum::{dec_chars, oct_chars, spec_dec, spec_oct};
use crate::package::PackageMetadata;
use crate::strutil::{chars_to_string, push_lit, str_chars};

verus! {

/// The hex digest a SHA-256 run over the text leaves, a function of the text
/// alone.
pub uninterp spec fn sha256_hex_of(data: Seq<char>) -> Seq<char>;

/// Relies on `sha2::Sha256` and `hex::encode`: the hex spelling of the
/// 32-byte SHA-256 digest of the text, 64 characters long.
#[verifier::external_body]
fn sha256_hex(data: &str) -> (r: String)
    ensures
        r@ == sha256_hex_of(data@),
        r@.len() == 64,
{
    hex::encode(sha2::Sha256::new().chain_update(data.as_bytes()).finalize())
}

/// What `package_file_name` returns:
/// `<name>-<version>-<release>.<arch>.<extension>`.
pub open spec fn spec_package_file_name(m: PackageMetadata, format: OutputFormat) -> Seq<char> {
    m.spec_effective_name() + "-"@ + m.version@ + "-"@ + m.release@ + "."@
        + m.arch.spec_arch_name() + "."@ + format.spec_extension()
}

/// The deterministic output file name of the converted package.
pub fn package_file_name(metadata: &PackageMetadata, format: OutputFormat) -> (r: String)
    ensures
        r@ == spec_package_file_name(*metadata, format),
{
    let mut out = str_chars(metadata.effective_name());
    push_lit(&mut out, "-");
    push_lit(&mut out, metadata.version.as_str());
    push_lit(&mut out, "-");
    push_lit(&mut out, metadata.release.as_str());
    push_lit(&mut out, ".");
    push_lit(&mut out, metadata.arch.to_arch_name());
    push_lit(&mut out, ".");
    push_lit(&mut out, format.extension());
    proof {
        assert(out@ =~= spec_package_file_name(*metadata, format));
    }
    chars_to_string(&out)
}

/// The synthetic checksum recorded in the provenance manifest: the first 32
/// hex characters of the digest of `<name>:<full version>`. This is a
/// placeholder derived from the metadata, not a hash of any build input.
pub open spec fn spec_synth_checksum(m: PackageMetadata) -> Seq<char> {
    sha256_hex_of(m.spec_effective_name() + ":"@ + m.spec_full_version()).subrange(0, 32)
}

/// What `generate_buildinfo` returns: the provenance manifest, one
/// `key = value` line per field.
pub open spec fn spec_buildinfo(m: PackageMetadata, build_date: u64) -> Seq<char> {
    "format = 2"@ + seq!['\n'] + "pkgname = "@ + m.spec_effective_name() + seq!['\n']
        + "pkgbase = "@ + m.spec_effective_name() + seq!['\n'] + "pkgver = "@
        + m.spec_full_version() + seq!['\n'] + "pkgarch = "@ + m.arch.spec_arch_name() + seq![
        '\n',
    ] + "pkgbuild_sha256sum = "@ + spec_synth_checksum(m) + seq!['\n'] + "packager = "@ + (
    match m.maintainer {
        Some(p) => p@,
        None => "Unknown"@,
    }) + " (converted by rexeb)"@ + seq!['\n'] + "builddate = "@ + spec_dec(build_date as nat)
        + seq!['\n'] + "builddir = /tmp/rexeb"@ + seq!['\n'] + "startdir = /tmp/rexeb"@ + seq![
        '\n',
    ] + "buildtool = rexeb"@ + seq!['\n'] + "buildtoolver = 0.1.0"@ + seq!['\n']
        + "buildenv = !distcc"@ + seq!['\n'] + "buildenv = !ccache"@ + seq!['\n']
        + "buildenv = !check"@ + seq!['\n'] + "buildenv = !sign"@ + seq!['\n']
        + "options = !strip"@ + seq!['\n'] + "options = !docs"@ + seq!['\n']
        + "options = !libtool"@ + seq!['\n'] + "options = !staticlibs"@
}

/// Renders the build-provenance manifest; `build_date` is the build time as
/// seconds since the epoch.
#[verifier::spinoff_prover]
#[verifier::rlimit(100)]
pub fn generate_buildinfo(metadata: &PackageMetadata, build_date: u64) -> (r: String)
    ensures
        r@ == spec_buildinfo(*metadata, build_date),
{
    let mut out: Vec<char> = Vec::new();
    proof {
        reveal_strlit("\n");
    }
    push_lit(&mut out, "format = 2");
    push_lit(&mut out, "\n");
    push_lit(&mut out, "pkgname = ");
    push_lit(&mut out, metadata.effective_name());
    push_lit(&mut out, "\n");
    push_lit(&mut out, "pkgbase = ");
    push_lit(&mut out, metadata.effective_name());
    push_lit(&mut out, "\n");
    push_lit(&mut out, "pkgver = ");
    let fv = metadata.full_version();
    push_lit(&mut out, fv.as_str());
    push_lit(&mut out, "\n");
    push_lit(&mut out, "pkgarch = ");
    push_lit(&mut out, metadata.arch.to_arch_name());
    push_lit(&mut out, "\n");
    push_lit(&mut out, "pkgbuild_sha256sum = ");
    let mut hash_input = str_chars(metadata.effective_name());
    push_lit(&mut hash_input, ":");
    push_lit(&mut hash_input, fv.as_str());
    let hi = chars_to_string(&hash_input);
    let digest = sha256_hex(hi.as_str());
    let digest_chars = str_chars(digest.as_str());
    let head = crate::strutil::slice_chars(&digest_chars, 0, 32);
    let head_s = chars_to_string(&head);
    push_lit(&mut out, head_s.as_str());
    proof {
        assert(hash_input@ =~= metadata.spec_effective_name() + ":"@
            + metadata.spec_full_version());
    }
    push_lit(&mut out, "\n");
    push_lit(&mut out, "packager = ");
    match &metadata.maintainer {
        Some(p) => push_lit(&mut out, p.as_str()),
        None => push_lit(&mut out, "Unknown"),
    }
    push_lit(&mut out, " (converted by rexeb)");
    push_lit(&mut out, "\n");
    push_lit(&mut out, "builddate = ");
    let bd = chars_to_string(&dec_chars(build_date));
    push_lit(&mut out, bd.as_str());
    push_lit(&mut out, "\n");
    push_lit(&mut out, "builddir = /tmp/rexeb");
    push_lit(&mut out, "\n");
    push_lit(&mut out, "startdir = /tmp/rexeb");
    push_lit(&mut out, "\n");
    push_lit(&mut out, "buildtool = rexeb");
    push_lit(&mut out, "\n");
    push_lit(&mut out, "buildtoolver = 0.1.0");
    push_lit(&mut out, "\n");
    push_lit(&mut out, "buildenv = !distcc");
    push_lit(&mut out, "\n");
    push_lit(&mut out, "buildenv = !ccache");
    push_lit(&mut out, "\n");
    push_lit(&mut out, "buildenv = !check");
    push_lit(&mut out, "\n");
    push_lit(&mut out, "buildenv = !sign");
    push_lit(&mut out, "\n");
    push_lit(&mut out, "options = !strip");
    push_lit(&mut out, "\n");
    push_lit(&mut out, "options = !docs");
    push_lit(&mut out, "\n");
    push_lit(&mut out, "options = !libtool");
    push_lit(&mut out, "\n");
    push_lit(&mut out, "options = !staticlibs");
    proof {
        assert(out@ =~= spec_buildinfo(*metadata, build_date));
    }
    chars_to_string(&out)
}

/// One staged entry of the file-tree manifest.
#[derive(Debug)]
pub enum MtreeEntry {
    /// A directory with its staged permission bits.
    Dir {
        /// Path relative to the package root, without a leading `./`.
        path: String,
        /// Staged permission bits.
        mode: u32,
    },
    /// A regular file with its size, staged permission bits and content
    /// digest.
    File {
        /// Path relative to the package root, without a leading `./`.
        path: String,
        /// Staged permission bits.
        mode: u32,
        /// File size in bytes.
        size: u64,
        /// Hex SHA-256 digest of the content.
        sha256: String,
    },
    /// A symbolic link with its staged permission bits and target.
    Symlink {
        /// Path relative to the package root, without a leading `./`.
        path: String,
        /// Staged permission bits.
        mode: u32,
        /// The link target.
        target: String,
    },
}

impl MtreeEntry {
    /// The entry's path.
    pub open spec fn spec_path(self) -> Seq<char> {
        match self {
            MtreeEntry::Dir { path, .. } => path@,
            MtreeEntry::File { path, .. } => path@,
            MtreeEntry::Symlink { path, .. } => path@,
        }
    }
}

/// One manifest line for a special file: `./<name> time=0 size=<n>
/// sha256digest=<hex>`.
pub open spec fn special_line(name: Seq<char>, size: u64, sha256: Seq<char>) -> Seq<char> {
    "./"@ + name + " time=0 size="@ + spec_dec(size as nat) + " sha256digest="@ + sha256 + seq![
        '\n',
    ]
}

/// One manifest line for a payload entry: the directory, file and link
/// shapes, digests only on regular files, `link=` only on symlinks.
pub open spec fn payload_line(e: MtreeEntry) -> Seq<char> {
    match e {
        MtreeEntry::Dir { path, mode } => "./"@ + path@ + " time=0 mode="@ + spec_oct(
            mode as nat,
        ) + " type=dir"@ + seq!['\n'],
        MtreeEntry::File { path, mode, size, sha256 } => "./"@ + path@ + " time=0 size="@
            + spec_dec(size as nat) + " mode="@ + spec_oct(mode as nat) + " type=file"@
            + " sha256digest="@ + sha256@ + seq!['\n'],
        MtreeEntry::Symlink { path, mode, target } => "./"@ + path@ + " time=0 mode="@ + spec_oct(
            mode as nat,
        ) + " type=link link="@ + target@ + seq!['\n'],
    }
}

/// The lines of the special manifests, in the given order.
pub open spec fn special_lines(specials: Seq<(String, u64, String)>) -> Seq<char>
    decreases specials.len(),
{
    if specials.len() == 0 {
        Seq::empty()
    } else {
        special_lines(specials.drop_last()) + special_line(
            specials.last().0@,
            specials.last().1,
            specials.last().2@,
        )
    }
}

/// Whether a path names one of the manifest files themselves; such entries
/// never appear in the payload section (the manifest cannot hash itself).
pub open spec fn is_manifest_path(p: Seq<char>) -> bool {
    p == ".BUILDINFO"@ || p == ".PKGINFO"@ || p == ".MTREE"@ || p == ".INSTALL"@
}

/// The payload lines, in traversal order, with manifest names left out.
pub open spec fn payload_lines(entries: Seq<MtreeEntry>) -> Seq<char>
    decreases entries.len(),
{
    if entries.len() == 0 {
        Seq::empty()
    } else {
        payload_lines(entries.drop_last()) + (if is_manifest_path(entries.last().spec_path()) {
            Seq::empty()
        } else {
            payload_line(entries.last())
        })
    }
}

/// What `mtree_content` returns: the fixed header, a default-mode directive,
/// the manifest lines in the given order, a second mode directive, then the
/// payload lines. The manifest section stands wholly before the payload
/// section, and no line describes the file-tree manifest itself.
pub open spec fn spec_mtree(
    specials: Seq<(String, u64, String)>,
    payload: Seq<MtreeEntry>,
) -> Seq<char> {
    "#mtree"@ + seq!['\n'] + "/set type=file uid=0 gid=0 mode=644"@ + seq!['\n'] + special_lines(
        specials,
    ) + "/set mode=755"@ + seq!['\n'] + payload_lines(payload)
}

/// Renders the file-tree manifest text. `specials` carries the manifest
/// files already staged (name, size, content digest), in archive order;
/// `payload` carries the staged tree in traversal order.
#[verifier::loop_isolation(false)]
pub fn mtree_content(specials: &Vec<(String, u64, String)>, payload: &Vec<MtreeEntry>) -> (r:
    String)
    ensures
        r@ == spec_mtree(specials@, payload@),
{
    let mut out: Vec<char> = Vec::new();
    proof {
        reveal_strlit("\n");
    }
    push_lit(&mut out, "#mtree");
    push_lit(&mut out, "\n");
    push_lit(&mut out, "/set type=file uid=0 gid=0 mode=644");
    push_lit(&mut out, "\n");
    let ghost head = out@;
    let mut i: usize = 0;
    proof {
        assert(specials@.subrange(0, 0) =~= Seq::<(String, u64, String)>::empty());
        assert(out@ =~= head + special_lines(specials@.subrange(0, 0)));
    }
    while i < specials.len()
        invariant
            i <= specials@.len(),
            out@ == head + special_lines(specials@.subrange(0, i as int)),
        decreases specials@.len() - i,
    {
        let ghost pre = specials@.subrange(0, i as int);
        let ghost pre1 = specials@.subrange(0, i + 1 as int);
        proof {
            assert(pre1.drop_last() =~= pre);
        }
        push_lit(&mut out, "./");
        push_lit(&mut out, specials[i].0.as_str());
        push_lit(&mut out, " time=0 size=");
        let sz = chars_to_string(&dec_chars(specials[i].1));
        push_lit(&mut out, sz.as_str());
        push_lit(&mut out, " sha256digest=");
        push_lit(&mut out, specials[i].2.as_str());
        push_lit(&mut out, "\n");
        proof {
            assert(out@ =~= head + special_lines(pre1));
        }
        i += 1;
    }
    proof {
        assert(specials@.subrange(0, specials@.len() as int) =~= specials@);
    }
    push_lit(&mut out, "/set mode=755");
    push_lit(&mut out, "\n");
    let ghost mid = out@;
    let mut j: usize = 0;
    proof {
        assert(payload@.subrange(0, 0) =~= Seq::<MtreeEntry>::empty());
        assert(out@ =~= mid + payload_lines(payload@.subrange(0, 0)));
    }
    while j < payload.len()
        invariant
            j <= payload@.len(),
            out@ == mid + payload_lines(payload@.subrange(0, j as int)),
        decreases payload@.len() - j,
    {
        let ghost pre = payload@.subrange(0, j as int);
        let ghost pre1 = payload@.subrange(0, j + 1 as int);
        proof {
            assert(pre1.drop_last() =~= pre);
        }
        push_payload_line(&mut out, &payload[j]);
        j += 1;
    }
    proof {
        assert(payload@.subrange(0, payload@.len() as int) =~= payload@);
    }
    chars_to_string(&out)
}

/// Whether a path names one of the manifest files.
fn is_manifest_name(p: &str) -> (r: bool)
    ensures
        r == is_manifest_path(p@),
{
    let chars = str_chars(p);
    crate::strutil::chars_eq_str(&chars, ".BUILDINFO") || crate::strutil::chars_eq_str(
        &chars,
        ".PKGINFO",
    ) || crate::strutil::chars_eq_str(&chars, ".MTREE") || crate::strutil::chars_eq_str(
        &chars,
        ".INSTALL",
    )
}

/// The owner, group, permission bits and modification time an archive member
/// is written with: ownership is always the superuser's, regular files and
/// directories keep their staged bits and time, and symbolic links always
/// carry fully permissive bits and a zero time.
pub fn archive_header_fields(entry: &MtreeEntry, staged_mtime: u64) -> (r: (u64, u64, u32, u64))
    ensures
        r.0 == 0 && r.1 == 0,
        entry matches MtreeEntry::File { mode, .. } ==> r.2 == mode && r.3 == staged_mtime,
        entry matches MtreeEntry::Dir { mode, .. } ==> r.2 == mode && r.3 == staged_mtime,
        entry matches MtreeEntry::Symlink { .. } ==> r.2 == 0o777 && r.3 == 0,
{
    match entry {
        MtreeEntry::File { mode, .. } => (0, 0, *mode, staged_mtime),
        MtreeEntry::Dir { mode, .. } => (0, 0, *mode, staged_mtime),
        MtreeEntry::Symlink { .. } => (0, 0, 0o777, 0),
    }
}

/// Appends one payload entry's manifest line; manifest names are left out.
fn push_payload_line(out: &mut Vec<char>, e: &MtreeEntry)
    ensures
        final(out)@ == old(out)@ + (if is_manifest_path(e.spec_path()) {
            Seq::<char>::empty()
        } else {
            payload_line(*e)
        }),
{
    proof {
        reveal_strlit("\n");
    }
    let skip = match e {
        MtreeEntry::Dir { path, .. } => is_manifest_name(path.as_str()),
        MtreeEntry::File { path, .. } => is_manifest_name(path.as_str()),
        MtreeEntry::Symlink { path, .. } => is_manifest_name(path.as_str()),
    };
    if skip {
        proof {
            assert(out@ =~= old(out)@ + Seq::<char>::empty());
        }
        return ;
    }
    match e {
        MtreeEntry::Dir { path, mode } => {
            push_lit(out, "./");
            push_lit(out, path.as_str());
            push_lit(out, " time=0 mode=");
            let md = chars_to_string(&oct_chars(*mode));
            push_lit(out, md.as_str());
            push_lit(out, " type=dir");
            push_lit(out, "\n");
        },
        MtreeEntry::File { path, mode, size, sha256 } => {
            push_lit(out, "./");
            push_lit(out, path.as_str());
            push_lit(out, " time=0 size=");
            let sz = chars_to_string(&dec_chars(*size));
            push_lit(out, sz.as_str());
            push_lit(out, " mode=");
            let md = chars_to_string(&oct_chars(*mode));
            push_lit(out, md.as_str());
            push_lit(out, " type=file");
            push_lit(out, " sha256digest=");
            push_lit(out, sha256.as_str());
            push_lit(out, "\n");
        },
        MtreeEntry::Symlink { path, mode, target } => {
            push_lit(out, "./");
            push_lit(out, path.as_str());
            push_lit(out, " time=0 mode=");
            let md = chars_to_string(&oct_chars(*mode));
            push_lit(out, md.as_str());
            push_lit(out, " type=link link=");
            push_lit(out, target.as_str());
            push_lit(out, "\n");
        },
    }
    proof {
        assert(out@ =~= old(out)@ + payload_line(*e));
    }
}

} // verus!
