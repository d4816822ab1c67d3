//! Package metadata: formats, maintainer scripts, licenses, and the
//! aggregate record one conversion works on.

use vstd::prelude::*;

use crate::arch::Architecture;
use crate::dep::{Dependency, DependencyType};
use crate::strutil::{
    chars_to_string, contains_lit, digit_prefix, digit_prefix_end, find_from, find_from_exec,
    find_lit, is_digit, lemma_rfind_before, push_lit, rfind_before, rfind_char, slice_chars,
    spec_contains, spec_find_sub, spec_lower, str_chars, strip_trailing, strip_trailing_exec,
    to_lower,
};
use crate::fmtnum::{all_digits, parse_u64, spec_dec_val};

verus! {

/// A source package format.
#[derive(Debug, Clone, Copy, PartialEq, Eq, Structural)]
pub enum PackageFormat {
    /// Debian package (.deb)
    Deb,
    /// RPM package (.rpm)
    Rpm,
    /// Alpine package (.apk)
    Apk,
    /// AppImage
    AppImage,
    /// Arch Linux package
    ArchPkg,
}

impl PackageFormat {
    /// What `extension` returns.
    pub open spec fn spec_extension(self) -> Seq<char> {
        match self {
            Self::Deb => "deb"@,
            Self::Rpm => "rpm"@,
            Self::Apk => "apk"@,
            Self::AppImage => "AppImage"@,
            Self::ArchPkg => "pkg.tar.zst"@,
        }
    }

    /// The file extension of this format.
    pub fn extension(&self) -> (r: &'static str)
        ensures
            r@ == self.spec_extension(),
    {
        match self {
            Self::Deb => "deb",
            Self::Rpm => "rpm",
            Self::Apk => "apk",
            Self::AppImage => "AppImage",
            Self::ArchPkg => "pkg.tar.zst",
        }
    }

    /// The extension of a path: what follows the last `.` of its last `/`
    /// piece, when that piece has a `.` that neither starts nor ends it.
    pub open spec fn spec_path_extension(path: Seq<char>) -> Option<Seq<char>> {
        let base = Self::spec_basename(path);
        if exists|i: int| 0 <= i < base.len() && base[i] == '.' {
            let p = choose|i: int|
                0 <= i < base.len() && base[i] == '.' && forall|j: int|
                    i < j < base.len() ==> base[j] != '.';
            if p > 0 && p + 1 < base.len() {
                Some(base.subrange(p + 1, base.len() as int))
            } else {
                None
            }
        } else {
            None
        }
    }

    /// The last `/`-separated piece of a path.
    pub open spec fn spec_basename(path: Seq<char>) -> Seq<char> {
        if exists|i: int| 0 <= i < path.len() && path[i] == '/' {
            let p = choose|i: int|
                0 <= i < path.len() && path[i] == '/' && (forall|j: int| p_after(path, i, j));
            path.subrange(p + 1, path.len() as int)
        } else {
            path
        }
    }

    /// What `from_path` returns: the format the lowercased extension of the
    /// path's last piece names; `.zst`, `.xz` and `.gz` count as Arch
    /// packages only on a `.pkg.tar` or `.pkg` stem.
    pub open spec fn spec_from_path(path: Seq<char>) -> Option<PackageFormat> {
        let base = Self::spec_basename(path);
        if exists|i: int| 0 <= i < base.len() && base[i] == '.' {
            let p = choose|i: int|
                0 <= i < base.len() && base[i] == '.' && (forall|j: int|
                    i < j < base.len() ==> base[j] != '.');
            if p > 0 && p + 1 < base.len() {
                let ext = spec_lower(base.subrange(p + 1, base.len() as int));
                if ext == "deb"@ {
                    Some(PackageFormat::Deb)
                } else if ext == "rpm"@ {
                    Some(PackageFormat::Rpm)
                } else if ext == "apk"@ {
                    Some(PackageFormat::Apk)
                } else if ext == "appimage"@ {
                    Some(PackageFormat::AppImage)
                } else if ext == "zst"@ || ext == "xz"@ || ext == "gz"@ {
                    let stem = base.subrange(0, p);
                    if crate::strutil::spec_ends_with(stem, ".pkg.tar"@)
                        || crate::strutil::spec_ends_with(stem, ".pkg"@) {
                        Some(PackageFormat::ArchPkg)
                    } else {
                        None
                    }
                } else {
                    None
                }
            } else {
                None
            }
        } else {
            None
        }
    }

    /// Detects the format from a file path, by its extension; `.zst`, `.xz`
    /// and `.gz` count as Arch packages only on a `.pkg.tar` or `.pkg` stem.
    #[verifier::rlimit(60)]
    pub fn from_path(path: &str) -> (r: Option<PackageFormat>)
        ensures
            r == Self::spec_from_path(path@),
    {
        let chars = str_chars(path);
        let n = chars.len();
        let base = match rfind_char(&chars, '/') {
            Some(p) => {
                proof {
                    let q = choose|i: int|
                        0 <= i < chars@.len() && chars@[i] == '/' && (forall|j: int|
                            p_after(chars@, i, j));
                    assert(chars@[q] == '/');
                    assert(p_after(chars@, q, p as int));
                    assert(q == p);
                }
                slice_chars(&chars, p + 1, n)
            },
            None => chars,
        };
        proof {
            assert(base@ == Self::spec_basename(path@));
        }
        let bn = base.len();
        let dot = match rfind_char(&base, '.') {
            Some(p) => {
                proof {
                    let q = choose|i: int|
                        0 <= i < base@.len() && base@[i] == '.' && (forall|j: int|
                            i < j < base@.len() ==> base@[j] != '.');
                    assert(base@[q] == '.');
                    assert(q == p);
                }
                p
            },
            None => {
                return None;
            },
        };
        if dot == 0 || dot + 1 >= bn {
            return None;
        }
        let ext_raw = slice_chars(&base, dot + 1, bn);
        let ext = to_lower(&ext_raw);
        proof {
            let base_s = Self::spec_basename(path@);
            assert(ext@ == spec_lower(base_s.subrange(dot + 1, base_s.len() as int)));
        }
        if crate::strutil::chars_eq_str(&ext, "deb") {
            Some(PackageFormat::Deb)
        } else if crate::strutil::chars_eq_str(&ext, "rpm") {
            Some(PackageFormat::Rpm)
        } else if crate::strutil::chars_eq_str(&ext, "apk") {
            Some(PackageFormat::Apk)
        } else if crate::strutil::chars_eq_str(&ext, "appimage") {
            Some(PackageFormat::AppImage)
        } else if crate::strutil::chars_eq_str(&ext, "zst") || crate::strutil::chars_eq_str(
            &ext,
            "xz",
        ) || crate::strutil::chars_eq_str(&ext, "gz") {
            let stem = slice_chars(&base, 0, dot);
            proof {
                assert(stem@ == Self::spec_basename(path@).subrange(0, dot as int));
            }
            if crate::strutil::ends_with_lit(&stem, ".pkg.tar") || crate::strutil::ends_with_lit(
                &stem,
                ".pkg",
            ) {
                Some(PackageFormat::ArchPkg)
            } else {
                None
            }
        } else {
            None
        }
    }
}

/// Helper predicate for [`PackageFormat::spec_basename`]: position `j` after
/// `i` holds no separator.
pub open spec fn p_after(path: Seq<char>, i: int, j: int) -> bool {
    i < j < path.len() ==> path[j] != '/'
}

/// A maintainer script slot of the source package.
#[derive(Debug, Clone, Copy, PartialEq, Eq, Structural)]
pub enum MaintainerScript {
    /// Pre-installation script
    PreInst,
    /// Post-installation script
    PostInst,
    /// Pre-removal script
    PreRm,
    /// Post-removal script
    PostRm,
    /// Configuration script (debconf)
    Config,
}

impl MaintainerScript {
    /// What `debian_name` returns.
    pub open spec fn spec_debian_name(self) -> Seq<char> {
        match self {
            Self::PreInst => "preinst"@,
            Self::PostInst => "postinst"@,
            Self::PreRm => "prerm"@,
            Self::PostRm => "postrm"@,
            Self::Config => "config"@,
        }
    }

    /// The script's file name in a Debian control archive.
    pub fn debian_name(&self) -> (r: &'static str)
        ensures
            r@ == self.spec_debian_name(),
    {
        match self {
            Self::PreInst => "preinst",
            Self::PostInst => "postinst",
            Self::PreRm => "prerm",
            Self::PostRm => "postrm",
            Self::Config => "config",
        }
    }

    /// What `install_function` returns.
    pub open spec fn spec_install_function(self) -> Seq<char> {
        match self {
            Self::PreInst => "pre_install"@,
            Self::PostInst => "post_install"@,
            Self::PreRm => "pre_remove"@,
            Self::PostRm => "post_remove"@,
            Self::Config => "post_install"@,
        }
    }

    /// The matching lifecycle function in an Arch `.install` script; the
    /// configuration script runs at post-install time.
    pub fn install_function(&self) -> (r: &'static str)
        ensures
            r@ == self.spec_install_function(),
    {
        match self {
            Self::PreInst => "pre_install",
            Self::PostInst => "post_install",
            Self::PreRm => "pre_remove",
            Self::PostRm => "post_remove",
            Self::Config => "post_install",
        }
    }

    /// What `upgrade_function` returns.
    pub open spec fn spec_upgrade_function(self) -> Seq<char> {
        match self {
            Self::PreInst | Self::PreRm => "pre_upgrade"@,
            Self::PostInst | Self::PostRm | Self::Config => "post_upgrade"@,
        }
    }

    /// The matching lifecycle function when the package is upgraded.
    pub fn upgrade_function(&self) -> (r: &'static str)
        ensures
            r@ == self.spec_upgrade_function(),
    {
        match self {
            Self::PreInst | Self::PreRm => "pre_upgrade",
            Self::PostInst | Self::PostRm | Self::Config => "post_upgrade",
        }
    }
}

/// A detected license.
#[derive(Debug, Clone, PartialEq, Eq)]
pub enum License {
    /// GPL version 2
    GPL2,
    /// GPL version 3
    GPL3,
    /// LGPL
    LGPL,
    /// MIT license
    MIT,
    /// Apache 2.0
    Apache2,
    /// BSD license
    BSD,
    /// Mozilla Public License
    MPL,
    /// Custom or proprietary license, by its original text
    Custom(String),
    /// Unknown license
    Unknown,
}

impl License {
    /// Classifies a license string by well-known markers; anything else
    /// nonempty is carried as a custom license.
    pub fn from_str(s: &str) -> (r: License)
        ensures
            license_from_matches(r, s@),
    {
        let chars = str_chars(s);
        let l = to_lower(&chars);
        if contains_lit(&l, "gpl-3") || contains_lit(&l, "gplv3") || contains_lit(&l, "gpl3") {
            License::GPL3
        } else if contains_lit(&l, "gpl-2") || contains_lit(&l, "gplv2") || contains_lit(
            &l,
            "gpl2",
        ) {
            License::GPL2
        } else if contains_lit(&l, "lgpl") {
            License::LGPL
        } else if contains_lit(&l, "mit") {
            License::MIT
        } else if contains_lit(&l, "apache") {
            License::Apache2
        } else if contains_lit(&l, "bsd") {
            License::BSD
        } else if contains_lit(&l, "mpl") || contains_lit(&l, "mozilla") {
            License::MPL
        } else if chars.len() == 0 {
            License::Unknown
        } else {
            License::Custom(s.to_owned())
        }
    }
}

/// How the classified license relates to the text it was read from.
pub open spec fn license_from_matches(r: License, s: Seq<char>) -> bool {
    let l = spec_lower(s);
    if spec_contains(l, "gpl-3"@) || spec_contains(l, "gplv3"@) || spec_contains(l, "gpl3"@) {
        r == License::GPL3
    } else if spec_contains(l, "gpl-2"@) || spec_contains(l, "gplv2"@) || spec_contains(
        l,
        "gpl2"@,
    ) {
        r == License::GPL2
    } else if spec_contains(l, "lgpl"@) {
        r == License::LGPL
    } else if spec_contains(l, "mit"@) {
        r == License::MIT
    } else if spec_contains(l, "apache"@) {
        r == License::Apache2
    } else if spec_contains(l, "bsd"@) {
        r == License::BSD
    } else if spec_contains(l, "mpl"@) || spec_contains(l, "mozilla"@) {
        r == License::MPL
    } else if s.len() == 0 {
        r == License::Unknown
    } else {
        r matches License::Custom(t) && t@ == s
    }
}

impl License {
    /// What `to_pkgbuild` returns.
    pub open spec fn spec_pkgbuild(self) -> Seq<char> {
        match self {
            Self::GPL2 => "GPL2"@,
            Self::GPL3 => "GPL3"@,
            Self::LGPL => "LGPL"@,
            Self::MIT => "MIT"@,
            Self::Apache2 => "Apache"@,
            Self::BSD => "BSD"@,
            Self::MPL => "MPL"@,
            Self::Custom(s) => "custom:"@ + s@,
            Self::Unknown => "unknown"@,
        }
    }

    /// The PKGBUILD spelling of this license.
    pub fn to_pkgbuild(&self) -> (r: String)
        ensures
            r@ == self.spec_pkgbuild(),
    {
        match self {
            Self::GPL2 => "GPL2".to_owned(),
            Self::GPL3 => "GPL3".to_owned(),
            Self::LGPL => "LGPL".to_owned(),
            Self::MIT => "MIT".to_owned(),
            Self::Apache2 => "Apache".to_owned(),
            Self::BSD => "BSD".to_owned(),
            Self::MPL => "MPL".to_owned(),
            Self::Custom(s) => {
                let mut out = str_chars("custom:");
                crate::strutil::push_lit(&mut out, s.as_str());
                chars_to_string(&out)
            },
            Self::Unknown => "unknown".to_owned(),
        }
    }
}

/// The maintainer scripts of a package, one optional text per slot.
#[derive(Debug)]
pub struct ScriptSet {
    /// Pre-installation script content.
    pub preinst: Option<String>,
    /// Post-installation script content.
    pub postinst: Option<String>,
    /// Pre-removal script content.
    pub prerm: Option<String>,
    /// Post-removal script content.
    pub postrm: Option<String>,
    /// Configuration script content.
    pub config: Option<String>,
}

impl ScriptSet {
    /// An empty script set.
    pub fn new() -> (r: ScriptSet)
        ensures
            r.preinst is None,
            r.postinst is None,
            r.prerm is None,
            r.postrm is None,
            r.config is None,
    {
        ScriptSet { preinst: None, postinst: None, prerm: None, postrm: None, config: None }
    }

    /// The slot for one script kind.
    pub open spec fn spec_get(self, k: MaintainerScript) -> Option<String> {
        match k {
            MaintainerScript::PreInst => self.preinst,
            MaintainerScript::PostInst => self.postinst,
            MaintainerScript::PreRm => self.prerm,
            MaintainerScript::PostRm => self.postrm,
            MaintainerScript::Config => self.config,
        }
    }
}

/// Metadata of one package under conversion.
#[derive(Debug)]
pub struct PackageMetadata {
    /// Package name in the source namespace.
    pub name: String,
    /// Overriding target package name, once chosen.
    pub arch_name: Option<String>,
    /// Package version.
    pub version: String,
    /// Package release / revision number.
    pub release: String,
    /// Package epoch.
    pub epoch: Option<u32>,
    /// Target architecture.
    pub arch: Architecture,
    /// One-line description.
    pub description: String,
    /// Extended description.
    pub long_description: Option<String>,
    /// Homepage URL.
    pub url: Option<String>,
    /// License.
    pub license: License,
    /// Maintainer / packager.
    pub maintainer: Option<String>,
    /// Installed size in bytes.
    pub installed_size: u64,
    /// The format the package came from.
    pub source_format: PackageFormat,
    /// Section / category.
    pub section: Option<String>,
    /// Priority.
    pub priority: Option<String>,
    /// Dependency lists, one per class, indexed by
    /// [`DependencyType::spec_index`].
    pub dependencies: Vec<Vec<Dependency>>,
    /// Maintainer scripts.
    pub scripts: ScriptSet,
    /// Configuration file paths.
    pub conffiles: Vec<String>,
    /// Paths of the files the package installs.
    pub files: Vec<String>,
    /// Recorded MD5 sums, as (path, hex digest) in declaration order.
    pub md5sums: Vec<(String, String)>,
    /// Extra metadata fields, as (key, value).
    pub extra: Vec<(String, String)>,
}

/// The two records agree on every field but the dependency table.
pub open spec fn eq_except_dependencies(a: PackageMetadata, b: PackageMetadata) -> bool {
    &&& a.name == b.name
    &&& a.arch_name == b.arch_name
    &&& a.version == b.version
    &&& a.release == b.release
    &&& a.epoch == b.epoch
    &&& a.arch == b.arch
    &&& a.description == b.description
    &&& a.long_description == b.long_description
    &&& a.url == b.url
    &&& a.license == b.license
    &&& a.maintainer == b.maintainer
    &&& a.installed_size == b.installed_size
    &&& a.source_format == b.source_format
    &&& a.section == b.section
    &&& a.priority == b.priority
    &&& a.scripts == b.scripts
    &&& a.conffiles == b.conffiles
    &&& a.files == b.files
    &&& a.md5sums == b.md5sums
    &&& a.extra == b.extra
}

/// The two records agree on every field but the maintainer scripts.
pub open spec fn eq_except_scripts(a: PackageMetadata, b: PackageMetadata) -> bool {
    &&& a.name == b.name
    &&& a.arch_name == b.arch_name
    &&& a.version == b.version
    &&& a.release == b.release
    &&& a.epoch == b.epoch
    &&& a.arch == b.arch
    &&& a.description == b.description
    &&& a.long_description == b.long_description
    &&& a.url == b.url
    &&& a.license == b.license
    &&& a.maintainer == b.maintainer
    &&& a.installed_size == b.installed_size
    &&& a.source_format == b.source_format
    &&& a.section == b.section
    &&& a.priority == b.priority
    &&& a.dependencies == b.dependencies
    &&& a.conffiles == b.conffiles
    &&& a.files == b.files
    &&& a.md5sums == b.md5sums
    &&& a.extra == b.extra
}

/// The two records agree on every field but the version, release and epoch.
pub open spec fn eq_except_version(a: PackageMetadata, b: PackageMetadata) -> bool {
    &&& a.name == b.name
    &&& a.arch_name == b.arch_name
    &&& a.arch == b.arch
    &&& a.description == b.description
    &&& a.long_description == b.long_description
    &&& a.url == b.url
    &&& a.license == b.license
    &&& a.maintainer == b.maintainer
    &&& a.installed_size == b.installed_size
    &&& a.source_format == b.source_format
    &&& a.section == b.section
    &&& a.priority == b.priority
    &&& a.dependencies == b.dependencies
    &&& a.scripts == b.scripts
    &&& a.conffiles == b.conffiles
    &&& a.files == b.files
    &&& a.md5sums == b.md5sums
    &&& a.extra == b.extra
}

/// The number of dependency classes.
pub open spec fn class_count() -> int {
    9
}

impl PackageMetadata {
    /// Structural invariant: one dependency list per class, all entries
    /// well formed.
    pub open spec fn wf(self) -> bool {
        &&& self.dependencies@.len() == class_count()
        &&& forall|c: int, j: int|
            0 <= c < class_count() && 0 <= j < self.dependencies@[c]@.len()
                ==> (#[trigger] self.dependencies@[c]@[j]).wf()
    }

    /// The dependency list of one class, as a sequence.
    pub open spec fn spec_deps(self, t: DependencyType) -> Seq<Dependency> {
        self.dependencies@[t.spec_index()]@
    }

    /// A fresh metadata record holding a name and version; everything else
    /// is empty, the release is `1` and the architecture is unset (`Any`).
    pub fn new(name: &str, version: &str) -> (r: PackageMetadata)
        ensures
            r.name@ == name@,
            r.version@ == version@,
            r.release@ == "1"@,
            r.arch_name is None,
            r.epoch is None,
            r.arch == Architecture::Any,
            r.license == License::Unknown,
            r.source_format == PackageFormat::Deb,
            r.installed_size == 0,
            r.wf(),
            forall|c: int| 0 <= c < class_count() ==> (#[trigger] r.dependencies@[c])@.len() == 0,
            r.files@.len() == 0,
            r.conffiles@.len() == 0,
            r.md5sums@.len() == 0,
            r.scripts.preinst is None && r.scripts.postinst is None && r.scripts.prerm is None
                && r.scripts.postrm is None && r.scripts.config is None,
    {
        let mut dependencies: Vec<Vec<Dependency>> = Vec::new();
        let mut c: usize = 0;
        while c < 9
            invariant
                c <= 9,
                dependencies@.len() == c,
                forall|i: int| 0 <= i < c ==> (#[trigger] dependencies@[i])@.len() == 0,
            decreases 9 - c,
        {
            dependencies.push(Vec::new());
            c += 1;
        }
        PackageMetadata {
            name: name.to_owned(),
            arch_name: None,
            version: version.to_owned(),
            release: "1".to_owned(),
            epoch: None,
            arch: Architecture::Any,
            description: String::new(),
            long_description: None,
            url: None,
            license: License::Unknown,
            maintainer: None,
            installed_size: 0,
            source_format: PackageFormat::Deb,
            section: None,
            priority: None,
            dependencies,
            scripts: ScriptSet::new(),
            conffiles: Vec::new(),
            files: Vec::new(),
            md5sums: Vec::new(),
            extra: Vec::new(),
        }
    }

    /// The name that stands for the package: the target name once chosen,
    /// otherwise the source name.
    pub open spec fn spec_effective_name(self) -> Seq<char> {
        match self.arch_name {
            Some(n) => n@,
            None => self.name@,
        }
    }

    /// Runtime form of [`PackageMetadata::spec_effective_name`].
    pub fn effective_name(&self) -> (r: &str)
        ensures
            r@ == self.spec_effective_name(),
    {
        match &self.arch_name {
            Some(n) => n.as_str(),
            None => self.name.as_str(),
        }
    }

    /// What `full_version` returns: `epoch:version-release`, with the epoch
    /// part only when it is set and positive.
    pub open spec fn spec_full_version(self) -> Seq<char> {
        match self.epoch {
            Some(e) => {
                if e > 0 {
                    crate::fmtnum::spec_dec(e as nat) + ":"@ + self.version@ + "-"@ + self.release@
                } else {
                    self.version@ + "-"@ + self.release@
                }
            },
            None => self.version@ + "-"@ + self.release@,
        }
    }

    /// The full version string, epoch included when present.
    pub fn full_version(&self) -> (r: String)
        ensures
            r@ == self.spec_full_version(),
    {
        let mut out: Vec<char> = Vec::new();
        match self.epoch {
            Some(e) => {
                if e > 0 {
                    let mut d = crate::fmtnum::dec_chars(e as u64);
                    out.append(&mut d);
                    crate::strutil::push_lit(&mut out, ":");
                }
            },
            None => {},
        }
        crate::strutil::push_lit(&mut out, self.version.as_str());
        crate::strutil::push_lit(&mut out, "-");
        crate::strutil::push_lit(&mut out, self.release.as_str());
        proof {
            assert(out@ =~= self.spec_full_version());
        }
        chars_to_string(&out)
    }

    /// The dependencies of one class.
    pub fn get_deps(&self, dep_type: DependencyType) -> (r: &Vec<Dependency>)
        requires
            self.wf(),
        ensures
            r@ == self.spec_deps(dep_type),
    {
        let i = dep_type.index();
        &self.dependencies[i]
    }

    /// Appends a dependency to one class's list.
    pub fn add_dep(&mut self, dep_type: DependencyType, dep: Dependency)
        requires
            old(self).wf(),
            dep.wf(),
        ensures
            final(self).wf(),
            final(self).spec_deps(dep_type) == old(self).spec_deps(dep_type).push(dep),
            forall|t: int|
                0 <= t < class_count() && t != dep_type.spec_index()
                    ==> (#[trigger] final(self).dependencies@[t]) == old(self).dependencies@[t],
            eq_except_dependencies(*final(self), *old(self)),
    {
        let i = dep_type.index();
        let list = &mut self.dependencies[i];
        list.push(dep);
    }

    /// Stores a maintainer script's content.
    pub fn set_script(&mut self, script_type: MaintainerScript, content: String)
        ensures
            final(self).scripts.spec_get(script_type) matches Some(s) && s@ == content@,
            forall|k: MaintainerScript|
                k != script_type ==> final(self).scripts.spec_get(k) == old(self).scripts.spec_get(
                    k,
                ),
            eq_except_scripts(*final(self), *old(self)),
            final(self).wf() == old(self).wf(),
    {
        match script_type {
            MaintainerScript::PreInst => {
                self.scripts.preinst = Some(content);
            },
            MaintainerScript::PostInst => {
                self.scripts.postinst = Some(content);
            },
            MaintainerScript::PreRm => {
                self.scripts.prerm = Some(content);
            },
            MaintainerScript::PostRm => {
                self.scripts.postrm = Some(content);
            },
            MaintainerScript::Config => {
                self.scripts.config = Some(content);
            },
        }
    }

    /// Reads a maintainer script's content.
    pub fn get_script(&self, script_type: MaintainerScript) -> (r: Option<&str>)
        ensures
            match r {
                Some(s) => self.scripts.spec_get(script_type) matches Some(t) && t@ == s@,
                None => self.scripts.spec_get(script_type) is None,
            },
    {
        let slot = match script_type {
            MaintainerScript::PreInst => &self.scripts.preinst,
            MaintainerScript::PostInst => &self.scripts.postinst,
            MaintainerScript::PreRm => &self.scripts.prerm,
            MaintainerScript::PostRm => &self.scripts.postrm,
            MaintainerScript::Config => &self.scripts.config,
        };
        match slot {
            Some(s) => Some(s.as_str()),
            None => None,
        }
    }
}

/// The version text after the epoch prefix (everything past the first `:`,
/// when one occurs).
pub open spec fn nv_after_epoch(v: Seq<char>) -> Seq<char> {
    let p = find_from(v, 0, ':');
    if p < v.len() {
        v.subrange(p + 1, v.len() as int)
    } else {
        v
    }
}

/// The epoch after normalization: the all-digit prefix before the first `:`
/// when it parses as a `u32`, otherwise the old value.
pub open spec fn nv_epoch(v: Seq<char>, old: Option<u32>) -> Option<u32> {
    let p = find_from(v, 0, ':');
    if p < v.len() {
        let pre = v.subrange(0, p);
        if pre.len() > 0 && all_digits(pre) && spec_dec_val(pre) <= u32::MAX {
            Some(spec_dec_val(pre) as u32)
        } else {
            old
        }
    } else {
        old
    }
}

/// The version part before the last `-` of `v` (or all of `v`).
pub open spec fn nv_before_release(v: Seq<char>) -> Seq<char> {
    let p = rfind_before(v, v.len() as int, '-');
    if p >= 0 {
        v.subrange(0, p)
    } else {
        v
    }
}

/// The release the last `-` of `v` splits off, when one occurs.
pub open spec fn nv_release_part(v: Seq<char>) -> Option<Seq<char>> {
    let p = rfind_before(v, v.len() as int, '-');
    if p >= 0 {
        Some(v.subrange(p + 1, v.len() as int))
    } else {
        None
    }
}

/// `~` and `+` mapped to `.`, as Arch versions require.
pub open spec fn nv_dots(v: Seq<char>) -> Seq<char> {
    v.map_values(|c: char| if c == '~' || c == '+' { '.' } else { c })
}

/// The version cut just before a packaging marker (matched on the lowercased
/// text), with trailing dots removed.
pub open spec fn nv_cut_marker(v: Seq<char>, pat: Seq<char>) -> Seq<char> {
    match spec_find_sub(spec_lower(v), pat, 0) {
        Some(p) => strip_trailing(v.subrange(0, p), '.'),
        None => v,
    }
}

/// The fully normalized version text.
pub open spec fn nv_version(v: Seq<char>) -> Seq<char> {
    let v1 = nv_after_epoch(v);
    let v2 = nv_before_release(v1);
    let v3 = nv_dots(v2);
    let v4 = nv_cut_marker(v3, "ubuntu"@);
    let v5 = nv_cut_marker(v4, "build"@);
    let v6 = nv_cut_marker(v5, "deb"@);
    nv_cut_marker(v6, "dfsg"@)
}

/// The normalized release: the leading digit run of the split-off release
/// (or of the old release when the version has none), and `1` when that run
/// is empty.
pub open spec fn nv_new_release(v: Seq<char>, old_release: Seq<char>) -> Seq<char> {
    let base = match nv_release_part(nv_after_epoch(v)) {
        Some(r) => r,
        None => old_release,
    };
    let digits = base.subrange(0, digit_prefix_end(base, 0));
    if digits.len() == 0 {
        "1"@
    } else {
        digits
    }
}

impl PackageMetadata {
    /// Rewrites the version, release and epoch into Arch-compatible form, as
    /// [`nv_version`], [`nv_new_release`] and [`nv_epoch`] state.
    pub fn normalize_version(&mut self)
        ensures
            final(self).version@ == nv_version(old(self).version@),
            final(self).release@ == nv_new_release(old(self).version@, old(self).release@),
            final(self).epoch == nv_epoch(old(self).version@, old(self).epoch),
            eq_except_version(*final(self), *old(self)),
            final(self).wf() == old(self).wf(),
    {
        let v = str_chars(self.version.as_str());
        let n = v.len();
        // Epoch prefix.
        let p = find_from_exec(&v, 0, ':');
        let v1 = if p < n {
            let pre = slice_chars(&v, 0, p);
            match parse_u64(&pre) {
                Some(e) => {
                    if e <= u32::MAX as u64 {
                        self.epoch = Some(e as u32);
                    }
                },
                None => {},
            }
            slice_chars(&v, p + 1, n)
        } else {
            v
        };
        // Version / release split at the last hyphen.
        let n1 = v1.len();
        let v2 = match rfind_char(&v1, '-') {
            Some(q) => {
                proof {
                    lemma_rfind_before(v1@, v1@.len() as int, '-');
                    assert(rfind_before(v1@, v1@.len() as int, '-') == q);
                }
                self.release = chars_to_string(&slice_chars(&v1, q + 1, n1));
                slice_chars(&v1, 0, q)
            },
            None => {
                proof {
                    lemma_rfind_before(v1@, v1@.len() as int, '-');
                    assert(rfind_before(v1@, v1@.len() as int, '-') == -1);
                }
                v1
            },
        };
        // Characters Arch versions do not allow.
        let mut v3: Vec<char> = Vec::new();
        let mut i: usize = 0;
        while i < v2.len()
            invariant
                i <= v2@.len(),
                v3@.len() == i,
                forall|j: int| 0 <= j < i ==> v3@[j] == (if v2@[j] == '~' || v2@[j] == '+' {
                    '.'
                } else {
                    v2@[j]
                }),
            decreases v2@.len() - i,
        {
            let c = v2[i];
            v3.push(if c == '~' || c == '+' {
                '.'
            } else {
                c
            });
            i += 1;
        }
        proof {
            assert(v3@ =~= nv_dots(v2@));
        }
        // Packaging markers.
        let v4 = cut_marker(v3, "ubuntu");
        let v5 = cut_marker(v4, "build");
        let v6 = cut_marker(v5, "deb");
        let v7 = cut_marker(v6, "dfsg");
        self.version = chars_to_string(&v7);
        // The release keeps only its leading digits.
        let rel = str_chars(self.release.as_str());
        let digits = digit_prefix(&rel);
        if digits.len() == 0 {
            self.release = "1".to_owned();
        } else {
            self.release = chars_to_string(&digits);
        }
    }
}

/// Cuts `v` just before the first occurrence of the marker `pat` in its
/// lowercased form, then removes trailing dots.
fn cut_marker(v: Vec<char>, pat: &str) -> (r: Vec<char>)
    ensures
        r@ == nv_cut_marker(v@, pat@),
{
    let l = to_lower(&v);
    match find_lit(&l, pat) {
        Some(p) => {
            let cut = slice_chars(&v, 0, p);
            strip_trailing_exec(&cut, '.')
        },
        None => v,
    }
}

/// `key = value`, the manifest line shape.
pub open spec fn kv(key: Seq<char>, value: Seq<char>) -> Seq<char> {
    key + " = "@ + value
}

/// Appends `key = value` to `out`.
fn push_kv(out: &mut Vec<char>, key: &str, value: &str)
    ensures
        final(out)@ == old(out)@ + kv(key@, value@),
{
    push_lit(out, key);
    push_lit(out, " = ");
    push_lit(out, value);
    proof {
        assert(out@ =~= old(out)@ + kv(key@, value@));
    }
}

/// One `key = <dependency>` line, on its own new line, for every mapped
/// entry of `deps`, in order; unmapped entries are omitted.
pub open spec fn dep_lines(deps: Seq<Dependency>, key: Seq<char>) -> Seq<char>
    decreases deps.len(),
{
    if deps.len() == 0 {
        Seq::empty()
    } else {
        dep_lines(deps.drop_last(), key) + (if deps.last().arch_name is Some {
            seq!['\n'] + kv(key, deps.last().spec_arch_string())
        } else {
            Seq::empty()
        })
    }
}

/// Appends the [`dep_lines`] of one class.
#[verifier::loop_isolation(false)]
fn push_dep_lines(out: &mut Vec<char>, deps: &Vec<Dependency>, key: &str)
    ensures
        final(out)@ == old(out)@ + dep_lines(deps@, key@),
{
    let mut i: usize = 0;
    proof {
        reveal_strlit("\n");
        assert(deps@.subrange(0, 0) =~= Seq::<Dependency>::empty());
        assert(out@ =~= old(out)@ + dep_lines(deps@.subrange(0, 0), key@));
    }
    while i < deps.len()
        invariant
            i <= deps@.len(),
            out@ == old(out)@ + dep_lines(deps@.subrange(0, i as int), key@),
        decreases deps@.len() - i,
    {
        let ghost pre = deps@.subrange(0, i as int);
        let ghost pre1 = deps@.subrange(0, i + 1 as int);
        proof {
            assert(pre1.drop_last() =~= pre);
        }
        let d = &deps[i];
        if d.is_mapped() {
            let line = d.to_arch_string();
            push_lit(out, "\n");
            push_kv(out, key, line.as_str());
            proof {
                assert(out@ =~= old(out)@ + dep_lines(pre1, key@));
            }
        } else {
            proof {
                assert(out@ =~= old(out)@ + dep_lines(pre1, key@));
            }
        }
        i += 1;
    }
    proof {
        assert(deps@.subrange(0, deps@.len() as int) =~= deps@);
    }
}

impl PackageMetadata {
    /// What `to_pkginfo` returns: the package-info manifest, one `key =
    /// value` line per field, with one line per mapped dependency and
    /// unmapped dependencies omitted.
    pub open spec fn spec_pkginfo(self, build_date: u64) -> Seq<char> {
        kv("pkgname"@, self.spec_effective_name()) + seq!['\n'] + kv(
            "pkgver"@,
            self.spec_full_version(),
        ) + seq!['\n'] + kv("pkgdesc"@, self.description@) + (match self.url {
            Some(u) => seq!['\n'] + kv("url"@, u@),
            None => Seq::empty(),
        }) + seq!['\n'] + kv("builddate"@, crate::fmtnum::spec_dec(build_date as nat)) + (
        match self.maintainer {
            Some(m) => seq!['\n'] + kv("packager"@, m@),
            None => Seq::empty(),
        }) + seq!['\n'] + kv("size"@, crate::fmtnum::spec_dec(self.installed_size as nat))
            + seq!['\n'] + kv("arch"@, self.arch.spec_arch_name()) + seq!['\n'] + kv(
            "license"@,
            self.license.spec_pkgbuild(),
        ) + dep_lines(self.spec_deps(DependencyType::Depends), "depend"@) + dep_lines(
            self.spec_deps(DependencyType::PreDepends),
            "depend"@,
        ) + dep_lines(self.spec_deps(DependencyType::Recommends), "optdepend"@) + dep_lines(
            self.spec_deps(DependencyType::Suggests),
            "optdepend"@,
        ) + dep_lines(self.spec_deps(DependencyType::Conflicts), "conflict"@) + dep_lines(
            self.spec_deps(DependencyType::Breaks),
            "conflict"@,
        ) + dep_lines(self.spec_deps(DependencyType::Replaces), "replaces"@) + dep_lines(
            self.spec_deps(DependencyType::Provides),
            "provides"@,
        )
    }

    /// Renders the `.PKGINFO` manifest; `build_date` is the build time as
    /// seconds since the epoch.
    #[verifier::spinoff_prover]
    #[verifier::rlimit(100)]
    pub fn to_pkginfo(&self, build_date: u64) -> (r: String)
        requires
            self.wf(),
        ensures
            r@ == self.spec_pkginfo(build_date),
    {
        let mut out: Vec<char> = Vec::new();
        proof {
            reveal_strlit("\n");
        }
        push_kv(&mut out, "pkgname", self.effective_name());
        push_lit(&mut out, "\n");
        let fv = self.full_version();
        push_kv(&mut out, "pkgver", fv.as_str());
        push_lit(&mut out, "\n");
        push_kv(&mut out, "pkgdesc", self.description.as_str());
        match &self.url {
            Some(u) => {
                push_lit(&mut out, "\n");
                push_kv(&mut out, "url", u.as_str());
            },
            None => {},
        }
        push_lit(&mut out, "\n");
        let bd = chars_to_string(&crate::fmtnum::dec_chars(build_date));
        push_kv(&mut out, "builddate", bd.as_str());
        match &self.maintainer {
            Some(m) => {
                push_lit(&mut out, "\n");
                push_kv(&mut out, "packager", m.as_str());
            },
            None => {},
        }
        push_lit(&mut out, "\n");
        let sz = chars_to_string(&crate::fmtnum::dec_chars(self.installed_size));
        push_kv(&mut out, "size", sz.as_str());
        push_lit(&mut out, "\n");
        push_kv(&mut out, "arch", self.arch.to_arch_name());
        push_lit(&mut out, "\n");
        let lic = self.license.to_pkgbuild();
        push_kv(&mut out, "license", lic.as_str());
        push_dep_lines(&mut out, self.get_deps(DependencyType::Depends), "depend");
        push_dep_lines(&mut out, self.get_deps(DependencyType::PreDepends), "depend");
        push_dep_lines(&mut out, self.get_deps(DependencyType::Recommends), "optdepend");
        push_dep_lines(&mut out, self.get_deps(DependencyType::Suggests), "optdepend");
        push_dep_lines(&mut out, self.get_deps(DependencyType::Conflicts), "conflict");
        push_dep_lines(&mut out, self.get_deps(DependencyType::Breaks), "conflict");
        push_dep_lines(&mut out, self.get_deps(DependencyType::Replaces), "replaces");
        push_dep_lines(&mut out, self.get_deps(DependencyType::Provides), "provides");
        proof {
            assert(out@ =~= self.spec_pkginfo(build_date));
        }
        chars_to_string(&out)
    }
}

/// The text with every `"` escaped as `\"`.
pub open spec fn escape_quotes(s: Seq<char>) -> Seq<char>
    decreases s.len(),
{
    if s.len() == 0 {
        Seq::empty()
    } else {
        escape_quotes(s.drop_last()) + (if s.last() == '"' {
            seq!['\\', '"']
        } else {
            seq![s.last()]
        })
    }
}

/// Escapes every `"` as `\"`.
#[verifier::loop_isolation(false)]
fn escape_quotes_exec(s: &str) -> (r: Vec<char>)
    ensures
        r@ == escape_quotes(s@),
{
    let v = str_chars(s);
    let mut out: Vec<char> = Vec::new();
    let mut i: usize = 0;
    proof {
        assert(v@.subrange(0, 0) =~= Seq::<char>::empty());
        assert(out@ =~= escape_quotes(v@.subrange(0, 0)));
    }
    while i < v.len()
        invariant
            i <= v@.len(),
            out@ == escape_quotes(v@.subrange(0, i as int)),
        decreases v@.len() - i,
    {
        let ghost pre = v@.subrange(0, i as int);
        let ghost pre1 = v@.subrange(0, i + 1 as int);
        proof {
            assert(pre1.drop_last() =~= pre);
        }
        let c = v[i];
        if c == '"' {
            out.push('\\');
            out.push('"');
        } else {
            out.push(c);
        }
        proof {
            assert(out@ =~= escape_quotes(pre1));
        }
        i += 1;
    }
    proof {
        assert(v@.subrange(0, v@.len() as int) =~= v@);
    }
    out
}

/// The mapped entries of two classes rendered as `'name<op>version'`,
/// space-separated.
pub open spec fn quoted_dep_list(deps: Seq<Dependency>) -> Seq<char>
    decreases deps.len(),
{
    if deps.len() == 0 {
        Seq::empty()
    } else {
        let rest = quoted_dep_list(deps.drop_last());
        if deps.last().arch_name is Some {
            let item = seq!['\''] + deps.last().spec_arch_string() + seq!['\''];
            if rest.len() == 0 {
                item
            } else {
                rest + seq![' '] + item
            }
        } else {
            rest
        }
    }
}

/// Appends the quoted mapped entries of `deps` to `items`, space-separated.
#[verifier::loop_isolation(false)]
fn push_quoted_deps(items: &mut Vec<char>, deps: &Vec<Dependency>)
    requires
        true,
    ensures
        final(items)@ == (if quoted_dep_list(deps@).len() == 0 {
            old(items)@
        } else if old(items)@.len() == 0 {
            quoted_dep_list(deps@)
        } else {
            old(items)@ + seq![' '] + quoted_dep_list(deps@)
        }),
{
    let mut i: usize = 0;
    proof {
        reveal_strlit(" ");
        reveal_strlit("'");
        assert(deps@.subrange(0, 0) =~= Seq::<Dependency>::empty());
    }
    while i < deps.len()
        invariant
            i <= deps@.len(),
            items@ == (if quoted_dep_list(deps@.subrange(0, i as int)).len() == 0 {
                old(items)@
            } else if old(items)@.len() == 0 {
                quoted_dep_list(deps@.subrange(0, i as int))
            } else {
                old(items)@ + seq![' '] + quoted_dep_list(deps@.subrange(0, i as int))
            }),
        decreases deps@.len() - i,
    {
        let ghost pre = deps@.subrange(0, i as int);
        let ghost pre1 = deps@.subrange(0, i + 1 as int);
        proof {
            assert(pre1.drop_last() =~= pre);
        }
        let d = &deps[i];
        if d.is_mapped() {
            if items.len() > 0 {
                push_lit(items, " ");
            }
            push_lit(items, "'");
            let a = d.to_arch_string();
            push_lit(items, a.as_str());
            push_lit(items, "'");
            proof {
                let item = seq!['\''] + deps@[i as int].spec_arch_string() + seq!['\''];
                assert(quoted_dep_list(pre1) == (if quoted_dep_list(pre).len() == 0 {
                    item
                } else {
                    quoted_dep_list(pre) + seq![' '] + item
                }));
                assert(items@ =~= (if quoted_dep_list(pre1).len() == 0 {
                    old(items)@
                } else if old(items)@.len() == 0 {
                    quoted_dep_list(pre1)
                } else {
                    old(items)@ + seq![' '] + quoted_dep_list(pre1)
                }));
            }
        }
        i += 1;
    }
    proof {
        assert(deps@.subrange(0, deps@.len() as int) =~= deps@);
    }
}

impl PackageMetadata {
    /// The opening lines of the PKGBUILD, through the epoch line.
    pub open spec fn spec_pkgbuild_h1(self) -> Seq<char> {
        "# Maintainer: Converted by rexeb"@ + (match self.maintainer {
            Some(m) => seq!['\n'] + "# Original: "@ + m@,
            None => Seq::empty(),
        }) + seq!['\n'] + seq!['\n'] + "pkgname="@ + self.spec_effective_name() + (
        match self.epoch {
            Some(e) => if e > 0 {
                seq!['\n'] + "epoch="@ + crate::fmtnum::spec_dec(e as nat)
            } else {
                Seq::empty()
            },
            None => Seq::empty(),
        })
    }

    /// The remaining field lines of the PKGBUILD, through the license line.
    pub open spec fn spec_pkgbuild_h2(self) -> Seq<char> {
        seq!['\n'] + "pkgver="@ + self.version@ + seq!['\n'] + "pkgrel="@ + self.release@
            + seq!['\n'] + "pkgdesc=\""@ + escape_quotes(self.description@) + seq!['"'] + seq![
            '\n',
        ] + "arch=('"@ + self.arch.spec_arch_name() + "')"@ + (match self.url {
            Some(u) => seq!['\n'] + "url=\""@ + u@ + seq!['"'],
            None => Seq::empty(),
        }) + seq!['\n'] + "license=('"@ + self.license.spec_pkgbuild() + "')"@
    }

    /// The field lines of the PKGBUILD, through the license line.
    pub open spec fn spec_pkgbuild_head(self) -> Seq<char> {
        self.spec_pkgbuild_h1() + self.spec_pkgbuild_h2()
    }

    /// The dependency arrays and install body of the PKGBUILD.
    pub open spec fn spec_pkgbuild_tail(self) -> Seq<char> {
        array_line(
            "depends"@,
            quoted_dep_list(
                self.spec_deps(DependencyType::Depends) + self.spec_deps(
                    DependencyType::PreDepends,
                ),
            ),
        ) + array_line(
            "optdepends"@,
            quoted_dep_list(
                self.spec_deps(DependencyType::Recommends) + self.spec_deps(
                    DependencyType::Suggests,
                ),
            ),
        ) + array_line(
            "conflicts"@,
            quoted_dep_list(
                self.spec_deps(DependencyType::Conflicts) + self.spec_deps(DependencyType::Breaks),
            ),
        ) + array_line("replaces"@, quoted_dep_list(self.spec_deps(DependencyType::Replaces)))
            + array_line("provides"@, quoted_dep_list(self.spec_deps(DependencyType::Provides)))
            + seq!['\n'] + seq!['\n'] + "package() {"@ + seq!['\n']
            + "    cp -a \"$srcdir\"/* \"$pkgdir\"/"@ + seq!['\n'] + "}"@
    }

    /// What `to_pkgbuild` returns: a PKGBUILD skeleton that installs the
    /// converted payload, with every array holding only mapped dependencies.
    pub open spec fn spec_pkgbuild(self) -> Seq<char> {
        self.spec_pkgbuild_head() + self.spec_pkgbuild_tail()
    }

    /// Renders a PKGBUILD for the package.
    pub fn to_pkgbuild(&self) -> (r: String)
        requires
            self.wf(),
        ensures
            r@ == self.spec_pkgbuild(),
    {
        let mut out: Vec<char> = Vec::new();
        self.push_pkgbuild_head(&mut out);
        self.push_pkgbuild_tail(&mut out);
        proof {
            assert(out@ =~= self.spec_pkgbuild());
        }
        chars_to_string(&out)
    }

    /// Appends the field lines of the PKGBUILD.
    fn push_pkgbuild_head(&self, out: &mut Vec<char>)
        requires
            self.wf(),
        ensures
            final(out)@ == old(out)@ + self.spec_pkgbuild_head(),
    {
        self.push_pkgbuild_h1(out);
        self.push_pkgbuild_h2(out);
        proof {
            assert(out@ =~= old(out)@ + self.spec_pkgbuild_head());
        }
    }

    /// Appends the opening lines of the PKGBUILD.
    #[verifier::spinoff_prover]
    #[verifier::rlimit(100)]
    fn push_pkgbuild_h1(&self, out: &mut Vec<char>)
        requires
            self.wf(),
        ensures
            final(out)@ == old(out)@ + self.spec_pkgbuild_h1(),
    {
        proof {
            reveal_strlit("\n");
        }
        let ghost base = out@;
        push_lit(out, "# Maintainer: Converted by rexeb");
        match &self.maintainer {
            Some(m) => {
                push_lit(out, "\n");
                push_lit(out, "# Original: ");
                push_lit(out, m.as_str());
            },
            None => {},
        }
        push_lit(out, "\n");
        push_lit(out, "\n");
        push_lit(out, "pkgname=");
        push_lit(out, self.effective_name());
        match self.epoch {
            Some(e) => {
                if e > 0 {
                    push_lit(out, "\n");
                    push_lit(out, "epoch=");
                    let d = chars_to_string(&crate::fmtnum::dec_chars(e as u64));
                    push_lit(out, d.as_str());
                }
            },
            None => {},
        }
        proof {
            assert(out@ =~= base + self.spec_pkgbuild_h1());
        }
    }

    /// Appends the remaining field lines of the PKGBUILD.
    #[verifier::spinoff_prover]
    #[verifier::rlimit(100)]
    fn push_pkgbuild_h2(&self, out: &mut Vec<char>)
        requires
            self.wf(),
        ensures
            final(out)@ == old(out)@ + self.spec_pkgbuild_h2(),
    {
        proof {
            reveal_strlit("\n");
            reveal_strlit("\"");
        }
        let ghost mid = out@;
        push_lit(out, "\n");
        push_lit(out, "pkgver=");
        push_lit(out, self.version.as_str());
        push_lit(out, "\n");
        push_lit(out, "pkgrel=");
        push_lit(out, self.release.as_str());
        push_lit(out, "\n");
        push_lit(out, "pkgdesc=\"");
        let mut esc = escape_quotes_exec(self.description.as_str());
        out.append(&mut esc);
        push_lit(out, "\"");
        push_lit(out, "\n");
        push_lit(out, "arch=('");
        push_lit(out, self.arch.to_arch_name());
        push_lit(out, "')");
        match &self.url {
            Some(u) => {
                push_lit(out, "\n");
                push_lit(out, "url=\"");
                push_lit(out, u.as_str());
                push_lit(out, "\"");
            },
            None => {},
        }
        push_lit(out, "\n");
        push_lit(out, "license=('");
        let lic = self.license.to_pkgbuild();
        push_lit(out, lic.as_str());
        push_lit(out, "')");
        proof {
            assert(out@ =~= mid + self.spec_pkgbuild_h2());
        }
    }

    /// Appends the dependency arrays and install body of the PKGBUILD.
    #[verifier::spinoff_prover]
    #[verifier::rlimit(100)]
    fn push_pkgbuild_tail(&self, out: &mut Vec<char>)
        requires
            self.wf(),
        ensures
            final(out)@ == old(out)@ + self.spec_pkgbuild_tail(),
    {
        proof {
            reveal_strlit("\n");
        }
        let ghost base = out@;
        let dep_items = self.quoted_pair(DependencyType::Depends, DependencyType::PreDepends);
        push_array_line(out, "depends", &dep_items);
        let opt_items = self.quoted_pair(DependencyType::Recommends, DependencyType::Suggests);
        push_array_line(out, "optdepends", &opt_items);
        let con_items = self.quoted_pair(DependencyType::Conflicts, DependencyType::Breaks);
        push_array_line(out, "conflicts", &con_items);
        let rep_items = self.quoted_one(DependencyType::Replaces);
        push_array_line(out, "replaces", &rep_items);
        let pro_items = self.quoted_one(DependencyType::Provides);
        push_array_line(out, "provides", &pro_items);
        push_lit(out, "\n");
        push_lit(out, "\n");
        push_lit(out, "package() {");
        push_lit(out, "\n");
        push_lit(out, "    cp -a \"$srcdir\"/* \"$pkgdir\"/");
        push_lit(out, "\n");
        push_lit(out, "}");
        proof {
            assert(out@ =~= base + self.spec_pkgbuild_tail());
        }
    }

    /// The quoted mapped entries of two classes, chained.
    fn quoted_pair(&self, a: DependencyType, b: DependencyType) -> (r: Vec<char>)
        requires
            self.wf(),
        ensures
            r@ == quoted_dep_list(self.spec_deps(a) + self.spec_deps(b)),
    {
        let mut items: Vec<char> = Vec::new();
        push_quoted_deps(&mut items, self.get_deps(a));
        let ghost mid = items@;
        push_quoted_deps(&mut items, self.get_deps(b));
        proof {
            lemma_quoted_concat(self.spec_deps(a), self.spec_deps(b));
        }
        items
    }

    /// The quoted mapped entries of one class.
    fn quoted_one(&self, a: DependencyType) -> (r: Vec<char>)
        requires
            self.wf(),
        ensures
            r@ == quoted_dep_list(self.spec_deps(a)),
    {
        let mut items: Vec<char> = Vec::new();
        push_quoted_deps(&mut items, self.get_deps(a));
        items
    }
}

/// An `name=(items)` line on its own new line, empty when `items` is empty.
pub open spec fn array_line(name: Seq<char>, items: Seq<char>) -> Seq<char> {
    if items.len() == 0 {
        Seq::empty()
    } else {
        seq!['\n'] + name + "=("@ + items + seq![')']
    }
}

/// Appends [`array_line`].
fn push_array_line(out: &mut Vec<char>, name: &str, items: &Vec<char>)
    ensures
        final(out)@ == old(out)@ + array_line(name@, items@),
{
    proof {
        reveal_strlit("\n");
        reveal_strlit("=(");
        reveal_strlit(")");
    }
    if items.len() == 0 {
        proof {
            assert(out@ =~= old(out)@ + array_line(name@, items@));
        }
        return ;
    }
    push_lit(out, "\n");
    push_lit(out, name);
    push_lit(out, "=(");
    let mut i: usize = 0;
    let ghost base = out@;
    while i < items.len()
        invariant
            i <= items@.len(),
            out@ =~= base + items@.subrange(0, i as int),
        decreases items@.len() - i,
    {
        out.push(items[i]);
        proof {
            assert(out@ =~= base + items@.subrange(0, i + 1 as int));
        }
        i += 1;
    }
    push_lit(out, ")");
    proof {
        assert(out@ =~= old(out)@ + array_line(name@, items@));
    }
}

/// Quoting mapped entries distributes over list concatenation, with a space
/// between nonempty halves.
proof fn lemma_quoted_concat(a: Seq<Dependency>, b: Seq<Dependency>)
    ensures
        quoted_dep_list(a + b) == (if quoted_dep_list(b).len() == 0 {
            quoted_dep_list(a)
        } else if quoted_dep_list(a).len() == 0 {
            quoted_dep_list(b)
        } else {
            quoted_dep_list(a) + seq![' '] + quoted_dep_list(b)
        }),
    decreases b.len(),
{
    if b.len() == 0 {
        assert(a + b =~= a);
    } else {
        lemma_quoted_concat(a, b.drop_last());
        assert((a + b).drop_last() =~= a + b.drop_last());
        assert((a + b).last() == b.last());
        if quoted_dep_list(b.drop_last()).len() == 0 && quoted_dep_list(a).len() != 0 && (b.last().arch_name
            is Some) {
            assert(quoted_dep_list(a + b) =~= quoted_dep_list(a) + seq![' '] + quoted_dep_list(b));
        } else {
            assert(quoted_dep_list(a + b) =~= (if quoted_dep_list(b).len() == 0 {
                quoted_dep_list(a)
            } else if quoted_dep_list(a).len() == 0 {
                quoted_dep_list(b)
            } else {
                quoted_dep_list(a) + seq![' '] + quoted_dep_list(b)
            }));
        }
    }
}

} // verus!
