//! The mapping store: exact name translations, virtual capabilities, and
//! cached repository package information.

use vstd::prelude::*;

use crate::strutil::{
    chars_eq, contains_chars, spec_contains, spec_lower, str_chars, to_lower,
};

verus! {

/// Where a name mapping came from.
#[derive(Debug, Clone, Copy, PartialEq, Eq, Structural)]
pub enum MappingSource {
    /// Built into the library.
    Builtin,
    /// Learned from the target distribution's repositories.
    ArchRepo,
    /// Learned from the user repository.
    Aur,
    /// Added by the user.
    User,
    /// Derived automatically.
    Auto,
}

/// One exact name translation.
#[derive(Debug)]
pub struct PackageMapping {
    /// The name in the source distribution.
    pub debian_name: String,
    /// The name in the target distribution.
    pub arch_name: String,
    /// Per-mille certainty of the translation, at most 1000.
    pub confidence: u32,
    /// Where the mapping came from.
    pub source: MappingSource,
}

/// Cached information on one target-repository package.
#[derive(Debug)]
pub struct ArchPackageInfo {
    /// Package name.
    pub name: String,
    /// Package version.
    pub version: String,
    /// One-line description.
    pub description: String,
    /// Capabilities the package provides.
    pub provides: Vec<String>,
    /// Packages it replaces.
    pub replaces: Vec<String>,
}

/// Cached information on one user-repository package.
#[derive(Debug)]
pub struct AurPackageInfo {
    /// Package name.
    pub name: String,
    /// Package version.
    pub version: String,
    /// One-line description.
    pub description: String,
    /// Vote count.
    pub votes: u32,
    /// Popularity metric, scaled to thousandths.
    pub popularity_milli: u64,
    /// When the package was flagged out of date, as seconds since the epoch.
    pub out_of_date: Option<i64>,
}

/// One hit of a database search.
#[derive(Debug)]
pub struct SearchResult {
    /// Package name.
    pub name: String,
    /// One-line description.
    pub description: String,
    /// Package version.
    pub version: String,
    /// Per-mille relevance: 1000 for an exact name match, else 800.
    pub score: u32,
}

/// The mapping store. Exact translations are consulted newest-first, so a
/// mapping added later overrides an earlier one with the same source name.
#[derive(Debug)]
pub struct PackageDatabase {
    mappings: Vec<PackageMapping>,
    virtual_packages: Vec<(String, Vec<String>)>,
    arch_packages: Vec<ArchPackageInfo>,
    aur_packages: Vec<AurPackageInfo>,
}

/// The newest mapping for `name`, scanning from the end.
pub open spec fn find_mapping(ms: Seq<PackageMapping>, name: Seq<char>) -> Option<PackageMapping>
    decreases ms.len(),
{
    if ms.len() == 0 {
        None
    } else if ms.last().debian_name@ == name {
        Some(ms.last())
    } else {
        find_mapping(ms.drop_last(), name)
    }
}

/// The first cached target package called `name`.
pub open spec fn find_arch_pkg(ps: Seq<ArchPackageInfo>, name: Seq<char>) -> Option<
    ArchPackageInfo,
>
    decreases ps.len(),
{
    if ps.len() == 0 {
        None
    } else if ps.first().name@ == name {
        Some(ps.first())
    } else {
        find_arch_pkg(ps.drop_first(), name)
    }
}

/// Whether a provides list names `name`.
pub open spec fn provides_contains(p: Seq<String>, name: Seq<char>) -> bool {
    exists|i: int| 0 <= i < p.len() && #[trigger] p[i]@ == name
}

/// The first cached target package that provides `name`.
pub open spec fn find_provider(ps: Seq<ArchPackageInfo>, name: Seq<char>) -> Option<
    ArchPackageInfo,
>
    decreases ps.len(),
{
    if ps.len() == 0 {
        None
    } else if provides_contains(ps.first().provides@, name) {
        Some(ps.first())
    } else {
        find_provider(ps.drop_first(), name)
    }
}

/// What `lookup` returns: the stored mapping; else the name itself at full
/// confidence when it is a known target package; else the first package
/// providing it, at 900; else nothing.
pub open spec fn spec_lookup(
    ms: Seq<PackageMapping>,
    ps: Seq<ArchPackageInfo>,
    name: Seq<char>,
) -> Option<(Seq<char>, u32)> {
    match find_mapping(ms, name) {
        Some(m) => Some((m.arch_name@, m.confidence)),
        None => match find_arch_pkg(ps, name) {
            Some(_) => Some((name, 1000u32)),
            None => match find_provider(ps, name) {
                Some(p) => Some((p.name@, 900u32)),
                None => None,
            },
        },
    }
}

/// The first virtual-capability entry for `name`.
pub open spec fn find_virtual(vs: Seq<(String, Vec<String>)>, name: Seq<char>) -> Option<
    (String, Vec<String>),
>
    decreases vs.len(),
{
    if vs.len() == 0 {
        None
    } else if vs.first().0@ == name {
        Some(vs.first())
    } else {
        find_virtual(vs.drop_first(), name)
    }
}

impl PackageDatabase {
    /// Structural invariant: every stored confidence stays within scale.
    pub closed spec fn wf(self) -> bool {
        forall|i: int|
            0 <= i < self.mappings@.len() ==> (#[trigger] self.mappings@[i]).confidence <= 1000
    }

    /// The stored mappings.
    pub closed spec fn spec_mappings(self) -> Seq<PackageMapping> {
        self.mappings@
    }

    /// The cached target packages.
    pub closed spec fn spec_arch_packages(self) -> Seq<ArchPackageInfo> {
        self.arch_packages@
    }

    /// The virtual-capability table.
    pub closed spec fn spec_virtuals(self) -> Seq<(String, Vec<String>)> {
        self.virtual_packages@
    }

    /// The cached user-repository packages.
    pub closed spec fn spec_aur_packages(self) -> Seq<AurPackageInfo> {
        self.aur_packages@
    }

    /// Adds one builtin mapping.
    fn add_builtin(&mut self, debian: &str, arch: &str, confidence: u32)
        requires
            confidence <= 1000,
            old(self).wf(),
        ensures
            final(self).wf(),
            final(self).mappings@ == old(self).mappings@.push(
                final(self).mappings@.last(),
            ),
            mapping_row(final(self).mappings@.last(), debian@, arch@, confidence),
            final(self).virtual_packages == old(self).virtual_packages,
            final(self).arch_packages == old(self).arch_packages,
            final(self).aur_packages == old(self).aur_packages,
    {
        self.mappings.push(PackageMapping {
            debian_name: debian.to_owned(),
            arch_name: arch.to_owned(),
            confidence,
            source: MappingSource::Builtin,
        });
    }

    /// Adds one virtual capability with its providers.
    fn add_virtual(&mut self, name: &str, providers: Vec<String>)
        requires
            old(self).wf(),
        ensures
            final(self).wf(),
            final(self).mappings == old(self).mappings,
            final(self).arch_packages == old(self).arch_packages,
            final(self).aur_packages == old(self).aur_packages,
            final(self).virtual_packages@.len() == old(self).virtual_packages@.len() + 1,
            final(self).virtual_packages@.last().0@ == name@,
            final(self).virtual_packages@.last().1 == providers,
            forall|i: int|
                0 <= i < old(self).virtual_packages@.len()
                    ==> final(self).virtual_packages@[i] == #[trigger] old(
                    self,
                ).virtual_packages@[i],
    {
        self.virtual_packages.push((name.to_owned(), providers));
    }


}

/// Whether one stored mapping is exactly the given builtin translation row.
pub open spec fn mapping_row(
    m: PackageMapping,
    debian: Seq<char>,
    arch: Seq<char>,
    confidence: u32,
) -> bool {
    &&& m.debian_name@ == debian
    &&& m.arch_name@ == arch
    &&& m.confidence == confidence
    &&& m.source == MappingSource::Builtin
}

/// Rows 0 through 39 of the builtin translation table.
pub open spec fn builtin_rows_0(ms: Seq<PackageMapping>) -> bool {
    &&& mapping_row(ms[0], "default-jre"@, "java-runtime"@, 1000)
    &&& mapping_row(ms[1], "default-jre-headless"@, "java-runtime-headless"@, 1000)
    &&& mapping_row(ms[2], "default-jdk"@, "java-sdk"@, 1000)
    &&& mapping_row(ms[3], "default-jdk-headless"@, "java-sdk"@, 900)
    &&& mapping_row(ms[4], "openjdk-8-jre"@, "jre8-openjdk"@, 1000)
    &&& mapping_row(ms[5], "openjdk-8-jre-headless"@, "jre8-openjdk-headless"@, 1000)
    &&& mapping_row(ms[6], "openjdk-8-jdk"@, "jdk8-openjdk"@, 1000)
    &&& mapping_row(ms[7], "openjdk-8-jdk-headless"@, "jdk8-openjdk"@, 900)
    &&& mapping_row(ms[8], "openjdk-11-jre"@, "jre11-openjdk"@, 1000)
    &&& mapping_row(ms[9], "openjdk-11-jre-headless"@, "jre11-openjdk-headless"@, 1000)
    &&& mapping_row(ms[10], "openjdk-11-jdk"@, "jdk11-openjdk"@, 1000)
    &&& mapping_row(ms[11], "openjdk-11-jdk-headless"@, "jdk11-openjdk"@, 900)
    &&& mapping_row(ms[12], "openjdk-17-jre"@, "jre17-openjdk"@, 1000)
    &&& mapping_row(ms[13], "openjdk-17-jre-headless"@, "jre17-openjdk-headless"@, 1000)
    &&& mapping_row(ms[14], "openjdk-17-jdk"@, "jdk17-openjdk"@, 1000)
    &&& mapping_row(ms[15], "openjdk-17-jdk-headless"@, "jdk17-openjdk"@, 900)
    &&& mapping_row(ms[16], "openjdk-21-jre"@, "jre21-openjdk"@, 1000)
    &&& mapping_row(ms[17], "openjdk-21-jre-headless"@, "jre21-openjdk-headless"@, 1000)
    &&& mapping_row(ms[18], "openjdk-21-jdk"@, "jdk21-openjdk"@, 1000)
    &&& mapping_row(ms[19], "openjdk-21-jdk-headless"@, "jdk21-openjdk"@, 900)
    &&& mapping_row(ms[20], "java-runtime"@, "jre-openjdk"@, 1000)
    &&& mapping_row(ms[21], "java-runtime-headless"@, "jre-openjdk-headless"@, 1000)
    &&& mapping_row(ms[22], "java-sdk"@, "jdk-openjdk"@, 1000)
    &&& mapping_row(ms[23], "jre-openjdk"@, "jre-openjdk"@, 1000)
    &&& mapping_row(ms[24], "jdk-openjdk"@, "jdk-openjdk"@, 1000)
    &&& mapping_row(ms[25], "libc6"@, "glibc"@, 1000)
    &&& mapping_row(ms[26], "libc6-dev"@, "glibc"@, 900)
    &&& mapping_row(ms[27], "libstdc++6"@, "gcc-libs"@, 1000)
    &&& mapping_row(ms[28], "libstdc++-dev"@, "gcc"@, 900)
    &&& mapping_row(ms[29], "libgcc-s1"@, "gcc-libs"@, 1000)
    &&& mapping_row(ms[30], "libgcc1"@, "gcc-libs"@, 1000)
    &&& mapping_row(ms[31], "zlib1g"@, "zlib"@, 1000)
    &&& mapping_row(ms[32], "zlib1g-dev"@, "zlib"@, 900)
    &&& mapping_row(ms[33], "libbz2-1.0"@, "bzip2"@, 1000)
    &&& mapping_row(ms[34], "liblzma5"@, "xz"@, 1000)
    &&& mapping_row(ms[35], "libzstd1"@, "zstd"@, 1000)
    &&& mapping_row(ms[36], "libatomic1"@, "gcc-libs"@, 900)
    &&& mapping_row(ms[37], "libgomp1"@, "gcc-libs"@, 900)
    &&& mapping_row(ms[38], "libpcre3"@, "pcre"@, 1000)
    &&& mapping_row(ms[39], "libpcre2-8-0"@, "pcre2"@, 1000)
}

/// Rows 40 through 79 of the builtin translation table.
pub open spec fn builtin_rows_1(ms: Seq<PackageMapping>) -> bool {
    &&& mapping_row(ms[40], "libreadline8"@, "readline"@, 1000)
    &&& mapping_row(ms[41], "libncurses6"@, "ncurses"@, 1000)
    &&& mapping_row(ms[42], "libncursesw6"@, "ncurses"@, 1000)
    &&& mapping_row(ms[43], "libtinfo6"@, "ncurses"@, 900)
    &&& mapping_row(ms[44], "libexpat1"@, "expat"@, 1000)
    &&& mapping_row(ms[45], "libidn2-0"@, "libidn2"@, 1000)
    &&& mapping_row(ms[46], "libunistring2"@, "libunistring"@, 1000)
    &&& mapping_row(ms[47], "libffi8"@, "libffi"@, 1000)
    &&& mapping_row(ms[48], "libffi7"@, "libffi"@, 1000)
    &&& mapping_row(ms[49], "libgmp10"@, "gmp"@, 1000)
    &&& mapping_row(ms[50], "libmpfr6"@, "mpfr"@, 1000)
    &&& mapping_row(ms[51], "libmpc3"@, "libmpc"@, 1000)
    &&& mapping_row(ms[52], "libssl1.1"@, "openssl"@, 900)
    &&& mapping_row(ms[53], "libssl3"@, "openssl"@, 1000)
    &&& mapping_row(ms[54], "libssl-dev"@, "openssl"@, 900)
    &&& mapping_row(ms[55], "libcrypto1.1"@, "openssl"@, 900)
    &&& mapping_row(ms[56], "libcrypto3"@, "openssl"@, 1000)
    &&& mapping_row(ms[57], "libgnutls30"@, "gnutls"@, 1000)
    &&& mapping_row(ms[58], "libgcrypt20"@, "libgcrypt"@, 1000)
    &&& mapping_row(ms[59], "libgpg-error0"@, "libgpg-error"@, 1000)
    &&& mapping_row(ms[60], "gnupg"@, "gnupg"@, 1000)
    &&& mapping_row(ms[61], "gpg"@, "gnupg"@, 900)
    &&& mapping_row(ms[62], "libsodium23"@, "libsodium"@, 1000)
    &&& mapping_row(ms[63], "libnettle8"@, "nettle"@, 1000)
    &&& mapping_row(ms[64], "libhogweed6"@, "nettle"@, 900)
    &&& mapping_row(ms[65], "libp11-kit0"@, "p11-kit"@, 1000)
    &&& mapping_row(ms[66], "libtasn1-6"@, "libtasn1"@, 1000)
    &&& mapping_row(ms[67], "coreutils"@, "coreutils"@, 1000)
    &&& mapping_row(ms[68], "bash"@, "bash"@, 1000)
    &&& mapping_row(ms[69], "dash"@, "dash"@, 1000)
    &&& mapping_row(ms[70], "zsh"@, "zsh"@, 1000)
    &&& mapping_row(ms[71], "fish"@, "fish"@, 1000)
    &&& mapping_row(ms[72], "sed"@, "sed"@, 1000)
    &&& mapping_row(ms[73], "grep"@, "grep"@, 1000)
    &&& mapping_row(ms[74], "gawk"@, "gawk"@, 1000)
    &&& mapping_row(ms[75], "mawk"@, "gawk"@, 800)
    &&& mapping_row(ms[76], "findutils"@, "findutils"@, 1000)
    &&& mapping_row(ms[77], "tar"@, "tar"@, 1000)
    &&& mapping_row(ms[78], "gzip"@, "gzip"@, 1000)
    &&& mapping_row(ms[79], "bzip2"@, "bzip2"@, 1000)
}

/// Rows 80 through 119 of the builtin translation table.
pub open spec fn builtin_rows_2(ms: Seq<PackageMapping>) -> bool {
    &&& mapping_row(ms[80], "xz-utils"@, "xz"@, 1000)
    &&& mapping_row(ms[81], "unzip"@, "unzip"@, 1000)
    &&& mapping_row(ms[82], "zip"@, "zip"@, 1000)
    &&& mapping_row(ms[83], "p7zip"@, "p7zip"@, 1000)
    &&& mapping_row(ms[84], "file"@, "file"@, 1000)
    &&& mapping_row(ms[85], "diffutils"@, "diffutils"@, 1000)
    &&& mapping_row(ms[86], "patch"@, "patch"@, 1000)
    &&& mapping_row(ms[87], "less"@, "less"@, 1000)
    &&& mapping_row(ms[88], "util-linux"@, "util-linux"@, 1000)
    &&& mapping_row(ms[89], "procps"@, "procps-ng"@, 1000)
    &&& mapping_row(ms[90], "psmisc"@, "psmisc"@, 1000)
    &&& mapping_row(ms[91], "lsof"@, "lsof"@, 1000)
    &&& mapping_row(ms[92], "strace"@, "strace"@, 1000)
    &&& mapping_row(ms[93], "sudo"@, "sudo"@, 1000)
    &&& mapping_row(ms[94], "adduser"@, "shadow"@, 800)
    &&& mapping_row(ms[95], "passwd"@, "shadow"@, 900)
    &&& mapping_row(ms[96], "login"@, "shadow"@, 900)
    &&& mapping_row(ms[97], "libx11-6"@, "libx11"@, 1000)
    &&& mapping_row(ms[98], "libx11-dev"@, "libx11"@, 900)
    &&& mapping_row(ms[99], "libx11-xcb1"@, "libx11"@, 900)
    &&& mapping_row(ms[100], "libxext6"@, "libxext"@, 1000)
    &&& mapping_row(ms[101], "libxrender1"@, "libxrender"@, 1000)
    &&& mapping_row(ms[102], "libxrandr2"@, "libxrandr"@, 1000)
    &&& mapping_row(ms[103], "libxi6"@, "libxi"@, 1000)
    &&& mapping_row(ms[104], "libxcursor1"@, "libxcursor"@, 1000)
    &&& mapping_row(ms[105], "libxcomposite1"@, "libxcomposite"@, 1000)
    &&& mapping_row(ms[106], "libxdamage1"@, "libxdamage"@, 1000)
    &&& mapping_row(ms[107], "libxfixes3"@, "libxfixes"@, 1000)
    &&& mapping_row(ms[108], "libxinerama1"@, "libxinerama"@, 1000)
    &&& mapping_row(ms[109], "libxkbcommon0"@, "libxkbcommon"@, 1000)
    &&& mapping_row(ms[110], "libxkbcommon-x11-0"@, "libxkbcommon-x11"@, 1000)
    &&& mapping_row(ms[111], "libxcb1"@, "libxcb"@, 1000)
    &&& mapping_row(ms[112], "libxcb-render0"@, "libxcb"@, 900)
    &&& mapping_row(ms[113], "libxcb-shm0"@, "libxcb"@, 900)
    &&& mapping_row(ms[114], "libxcb-xfixes0"@, "libxcb"@, 900)
    &&& mapping_row(ms[115], "libxcb-shape0"@, "libxcb"@, 900)
    &&& mapping_row(ms[116], "libxcb-randr0"@, "libxcb"@, 900)
    &&& mapping_row(ms[117], "libxcb-image0"@, "libxcb"@, 900)
    &&& mapping_row(ms[118], "libxcb-keysyms1"@, "libxcb"@, 900)
    &&& mapping_row(ms[119], "libxcb-util1"@, "xcb-util"@, 1000)
}

/// Rows 120 through 159 of the builtin translation table.
pub open spec fn builtin_rows_3(ms: Seq<PackageMapping>) -> bool {
    &&& mapping_row(ms[120], "libxcb-icccm4"@, "xcb-util-wm"@, 1000)
    &&& mapping_row(ms[121], "libxmu6"@, "libxmu"@, 1000)
    &&& mapping_row(ms[122], "libxpm4"@, "libxpm"@, 1000)
    &&& mapping_row(ms[123], "libxss1"@, "libxss"@, 1000)
    &&& mapping_row(ms[124], "libxt6"@, "libxt"@, 1000)
    &&& mapping_row(ms[125], "libxtst6"@, "libxtst"@, 1000)
    &&& mapping_row(ms[126], "libxv1"@, "libxv"@, 1000)
    &&& mapping_row(ms[127], "libxxf86vm1"@, "libxxf86vm"@, 1000)
    &&& mapping_row(ms[128], "x11-utils"@, "xorg-xprop"@, 800)
    &&& mapping_row(ms[129], "x11-xserver-utils"@, "xorg-xset"@, 800)
    &&& mapping_row(ms[130], "xdg-utils"@, "xdg-utils"@, 1000)
    &&& mapping_row(ms[131], "libgl1"@, "libglvnd"@, 900)
    &&& mapping_row(ms[132], "libgl1-mesa-glx"@, "mesa"@, 900)
    &&& mapping_row(ms[133], "libgl1-mesa-dri"@, "mesa"@, 900)
    &&& mapping_row(ms[134], "libegl1"@, "libglvnd"@, 900)
    &&& mapping_row(ms[135], "libegl1-mesa"@, "mesa"@, 900)
    &&& mapping_row(ms[136], "libgles2"@, "libglvnd"@, 900)
    &&& mapping_row(ms[137], "libgles2-mesa"@, "mesa"@, 900)
    &&& mapping_row(ms[138], "libglx0"@, "libglvnd"@, 900)
    &&& mapping_row(ms[139], "libglx-mesa0"@, "mesa"@, 900)
    &&& mapping_row(ms[140], "libdrm2"@, "libdrm"@, 1000)
    &&& mapping_row(ms[141], "libdrm-common"@, "libdrm"@, 900)
    &&& mapping_row(ms[142], "libgbm1"@, "mesa"@, 900)
    &&& mapping_row(ms[143], "libwayland-client0"@, "wayland"@, 1000)
    &&& mapping_row(ms[144], "libwayland-cursor0"@, "wayland"@, 900)
    &&& mapping_row(ms[145], "libwayland-egl1"@, "wayland"@, 900)
    &&& mapping_row(ms[146], "libwayland-server0"@, "wayland"@, 900)
    &&& mapping_row(ms[147], "libvulkan1"@, "vulkan-icd-loader"@, 1000)
    &&& mapping_row(ms[148], "libgtk-3-0"@, "gtk3"@, 1000)
    &&& mapping_row(ms[149], "libgtk-3-common"@, "gtk3"@, 900)
    &&& mapping_row(ms[150], "libgtk-3-dev"@, "gtk3"@, 900)
    &&& mapping_row(ms[151], "libgtk-4-1"@, "gtk4"@, 1000)
    &&& mapping_row(ms[152], "libgtk2.0-0"@, "gtk2"@, 1000)
    &&& mapping_row(ms[153], "libglib2.0-0"@, "glib2"@, 1000)
    &&& mapping_row(ms[154], "libglib2.0-data"@, "glib2"@, 900)
    &&& mapping_row(ms[155], "libglib2.0-dev"@, "glib2"@, 900)
    &&& mapping_row(ms[156], "libgio-2.0-0"@, "glib2"@, 900)
    &&& mapping_row(ms[157], "libgobject-2.0-0"@, "glib2"@, 900)
    &&& mapping_row(ms[158], "libgmodule-2.0-0"@, "glib2"@, 900)
    &&& mapping_row(ms[159], "libgthread-2.0-0"@, "glib2"@, 900)
}

/// Rows 160 through 199 of the builtin translation table.
pub open spec fn builtin_rows_4(ms: Seq<PackageMapping>) -> bool {
    &&& mapping_row(ms[160], "libgdk-pixbuf-2.0-0"@, "gdk-pixbuf2"@, 1000)
    &&& mapping_row(ms[161], "libgdk-pixbuf2.0-0"@, "gdk-pixbuf2"@, 1000)
    &&& mapping_row(ms[162], "libpango-1.0-0"@, "pango"@, 1000)
    &&& mapping_row(ms[163], "libpangocairo-1.0-0"@, "pango"@, 900)
    &&& mapping_row(ms[164], "libpangoft2-1.0-0"@, "pango"@, 900)
    &&& mapping_row(ms[165], "libpangoxft-1.0-0"@, "pango"@, 900)
    &&& mapping_row(ms[166], "libcairo2"@, "cairo"@, 1000)
    &&& mapping_row(ms[167], "libcairo-gobject2"@, "cairo"@, 900)
    &&& mapping_row(ms[168], "libcairo-script-interpreter2"@, "cairo"@, 900)
    &&& mapping_row(ms[169], "libatk1.0-0"@, "atk"@, 1000)
    &&& mapping_row(ms[170], "libatk-bridge2.0-0"@, "at-spi2-core"@, 1000)
    &&& mapping_row(ms[171], "libatspi2.0-0"@, "at-spi2-core"@, 900)
    &&& mapping_row(ms[172], "libdbus-1-3"@, "dbus"@, 1000)
    &&& mapping_row(ms[173], "dbus"@, "dbus"@, 1000)
    &&& mapping_row(ms[174], "libsystemd0"@, "systemd-libs"@, 1000)
    &&& mapping_row(ms[175], "libharfbuzz0b"@, "harfbuzz"@, 1000)
    &&& mapping_row(ms[176], "librsvg2-2"@, "librsvg"@, 1000)
    &&& mapping_row(ms[177], "librsvg2-common"@, "librsvg"@, 900)
    &&& mapping_row(ms[178], "libsecret-1-0"@, "libsecret"@, 1000)
    &&& mapping_row(ms[179], "libnotify4"@, "libnotify"@, 1000)
    &&& mapping_row(ms[180], "libappindicator3-1"@, "libappindicator-gtk3"@, 1000)
    &&& mapping_row(ms[181], "libayatana-appindicator3-1"@, "libayatana-appindicator"@, 1000)
    &&& mapping_row(ms[182], "libdbusmenu-glib4"@, "libdbusmenu-glib"@, 1000)
    &&& mapping_row(ms[183], "libdbusmenu-gtk3-4"@, "libdbusmenu-gtk3"@, 1000)
    &&& mapping_row(ms[184], "gsettings-desktop-schemas"@, "gsettings-desktop-schemas"@, 1000)
    &&& mapping_row(ms[185], "glib-networking"@, "glib-networking"@, 1000)
    &&& mapping_row(ms[186], "libsoup2.4-1"@, "libsoup"@, 1000)
    &&& mapping_row(ms[187], "libsoup-3.0-0"@, "libsoup3"@, 1000)
    &&& mapping_row(ms[188], "libwebkit2gtk-4.0-37"@, "webkit2gtk"@, 1000)
    &&& mapping_row(ms[189], "libwebkit2gtk-4.1-0"@, "webkit2gtk-4.1"@, 1000)
    &&& mapping_row(ms[190], "libjavascriptcoregtk-4.0-18"@, "webkit2gtk"@, 900)
    &&& mapping_row(ms[191], "libqt5core5a"@, "qt5-base"@, 1000)
    &&& mapping_row(ms[192], "libqt5gui5"@, "qt5-base"@, 900)
    &&& mapping_row(ms[193], "libqt5widgets5"@, "qt5-base"@, 900)
    &&& mapping_row(ms[194], "libqt5network5"@, "qt5-base"@, 900)
    &&& mapping_row(ms[195], "libqt5dbus5"@, "qt5-base"@, 900)
    &&& mapping_row(ms[196], "libqt5sql5"@, "qt5-base"@, 900)
    &&& mapping_row(ms[197], "libqt5xml5"@, "qt5-base"@, 900)
    &&& mapping_row(ms[198], "libqt5concurrent5"@, "qt5-base"@, 900)
    &&& mapping_row(ms[199], "libqt5printsupport5"@, "qt5-base"@, 900)
}

/// Rows 200 through 239 of the builtin translation table.
pub open spec fn builtin_rows_5(ms: Seq<PackageMapping>) -> bool {
    &&& mapping_row(ms[200], "libqt5opengl5"@, "qt5-base"@, 900)
    &&& mapping_row(ms[201], "libqt5svg5"@, "qt5-svg"@, 1000)
    &&& mapping_row(ms[202], "libqt5x11extras5"@, "qt5-x11extras"@, 1000)
    &&& mapping_row(ms[203], "libqt5webkit5"@, "qt5-webkit"@, 1000)
    &&& mapping_row(ms[204], "libqt5webengine5"@, "qt5-webengine"@, 1000)
    &&& mapping_row(ms[205], "libqt5webenginewidgets5"@, "qt5-webengine"@, 900)
    &&& mapping_row(ms[206], "libqt5quick5"@, "qt5-declarative"@, 1000)
    &&& mapping_row(ms[207], "libqt5qml5"@, "qt5-declarative"@, 900)
    &&& mapping_row(ms[208], "libqt5multimedia5"@, "qt5-multimedia"@, 1000)
    &&& mapping_row(ms[209], "libqt5positioning5"@, "qt5-location"@, 1000)
    &&& mapping_row(ms[210], "libqt5sensors5"@, "qt5-sensors"@, 1000)
    &&& mapping_row(ms[211], "libqt5serialport5"@, "qt5-serialport"@, 1000)
    &&& mapping_row(ms[212], "libqt5webchannel5"@, "qt5-webchannel"@, 1000)
    &&& mapping_row(ms[213], "libqt5websockets5"@, "qt5-websockets"@, 1000)
    &&& mapping_row(ms[214], "libqt6core6"@, "qt6-base"@, 1000)
    &&& mapping_row(ms[215], "libqt6gui6"@, "qt6-base"@, 900)
    &&& mapping_row(ms[216], "libqt6widgets6"@, "qt6-base"@, 900)
    &&& mapping_row(ms[217], "libqt6network6"@, "qt6-base"@, 900)
    &&& mapping_row(ms[218], "libqt6dbus6"@, "qt6-base"@, 900)
    &&& mapping_row(ms[219], "libqt6opengl6"@, "qt6-base"@, 900)
    &&& mapping_row(ms[220], "libqt6svg6"@, "qt6-svg"@, 1000)
    &&& mapping_row(ms[221], "libqt6webengine6"@, "qt6-webengine"@, 1000)
    &&& mapping_row(ms[222], "libasound2"@, "alsa-lib"@, 1000)
    &&& mapping_row(ms[223], "libasound2-data"@, "alsa-lib"@, 900)
    &&& mapping_row(ms[224], "libasound2-plugins"@, "alsa-plugins"@, 1000)
    &&& mapping_row(ms[225], "libpulse0"@, "libpulse"@, 1000)
    &&& mapping_row(ms[226], "libpulse-mainloop-glib0"@, "libpulse"@, 900)
    &&& mapping_row(ms[227], "pulseaudio"@, "pulseaudio"@, 1000)
    &&& mapping_row(ms[228], "pulseaudio-utils"@, "pulseaudio"@, 900)
    &&& mapping_row(ms[229], "libpipewire-0.3-0"@, "pipewire"@, 1000)
    &&& mapping_row(ms[230], "pipewire"@, "pipewire"@, 1000)
    &&& mapping_row(ms[231], "libopenal1"@, "openal"@, 1000)
    &&& mapping_row(ms[232], "libsndfile1"@, "libsndfile"@, 1000)
    &&& mapping_row(ms[233], "libvorbis0a"@, "libvorbis"@, 1000)
    &&& mapping_row(ms[234], "libvorbisenc2"@, "libvorbis"@, 900)
    &&& mapping_row(ms[235], "libvorbisfile3"@, "libvorbis"@, 900)
    &&& mapping_row(ms[236], "libogg0"@, "libogg"@, 1000)
    &&& mapping_row(ms[237], "libflac8"@, "flac"@, 1000)
    &&& mapping_row(ms[238], "libopus0"@, "opus"@, 1000)
    &&& mapping_row(ms[239], "libmp3lame0"@, "lame"@, 1000)
}

/// Rows 240 through 279 of the builtin translation table.
pub open spec fn builtin_rows_6(ms: Seq<PackageMapping>) -> bool {
    &&& mapping_row(ms[240], "libmpg123-0"@, "mpg123"@, 1000)
    &&& mapping_row(ms[241], "libjack-jackd2-0"@, "jack2"@, 1000)
    &&& mapping_row(ms[242], "libjack0"@, "jack2"@, 900)
    &&& mapping_row(ms[243], "libportaudio2"@, "portaudio"@, 1000)
    &&& mapping_row(ms[244], "libsdl2-mixer-2.0-0"@, "sdl2_mixer"@, 1000)
    &&& mapping_row(ms[245], "libavcodec58"@, "ffmpeg"@, 900)
    &&& mapping_row(ms[246], "libavcodec59"@, "ffmpeg"@, 900)
    &&& mapping_row(ms[247], "libavcodec60"@, "ffmpeg"@, 900)
    &&& mapping_row(ms[248], "libavformat58"@, "ffmpeg"@, 900)
    &&& mapping_row(ms[249], "libavformat59"@, "ffmpeg"@, 900)
    &&& mapping_row(ms[250], "libavformat60"@, "ffmpeg"@, 900)
    &&& mapping_row(ms[251], "libavutil56"@, "ffmpeg"@, 900)
    &&& mapping_row(ms[252], "libavutil57"@, "ffmpeg"@, 900)
    &&& mapping_row(ms[253], "libavutil58"@, "ffmpeg"@, 900)
    &&& mapping_row(ms[254], "libavfilter7"@, "ffmpeg"@, 900)
    &&& mapping_row(ms[255], "libavfilter8"@, "ffmpeg"@, 900)
    &&& mapping_row(ms[256], "libavfilter9"@, "ffmpeg"@, 900)
    &&& mapping_row(ms[257], "libswscale5"@, "ffmpeg"@, 900)
    &&& mapping_row(ms[258], "libswscale6"@, "ffmpeg"@, 900)
    &&& mapping_row(ms[259], "libswresample3"@, "ffmpeg"@, 900)
    &&& mapping_row(ms[260], "libswresample4"@, "ffmpeg"@, 900)
    &&& mapping_row(ms[261], "libpostproc55"@, "ffmpeg"@, 900)
    &&& mapping_row(ms[262], "libpostproc56"@, "ffmpeg"@, 900)
    &&& mapping_row(ms[263], "ffmpeg"@, "ffmpeg"@, 1000)
    &&& mapping_row(ms[264], "libgstreamer1.0-0"@, "gstreamer"@, 1000)
    &&& mapping_row(ms[265], "gstreamer1.0-plugins-base"@, "gst-plugins-base"@, 1000)
    &&& mapping_row(ms[266], "gstreamer1.0-plugins-good"@, "gst-plugins-good"@, 1000)
    &&& mapping_row(ms[267], "gstreamer1.0-plugins-bad"@, "gst-plugins-bad"@, 1000)
    &&& mapping_row(ms[268], "gstreamer1.0-plugins-ugly"@, "gst-plugins-ugly"@, 1000)
    &&& mapping_row(ms[269], "gstreamer1.0-libav"@, "gst-libav"@, 1000)
    &&& mapping_row(ms[270], "libva2"@, "libva"@, 1000)
    &&& mapping_row(ms[271], "libva-drm2"@, "libva"@, 900)
    &&& mapping_row(ms[272], "libva-x11-2"@, "libva"@, 900)
    &&& mapping_row(ms[273], "libvdpau1"@, "libvdpau"@, 1000)
    &&& mapping_row(ms[274], "libtheora0"@, "libtheora"@, 1000)
    &&& mapping_row(ms[275], "libx264-163"@, "x264"@, 1000)
    &&& mapping_row(ms[276], "libx265-199"@, "x265"@, 1000)
    &&& mapping_row(ms[277], "libvpx7"@, "libvpx"@, 1000)
    &&& mapping_row(ms[278], "libdav1d6"@, "dav1d"@, 1000)
    &&& mapping_row(ms[279], "libaom3"@, "aom"@, 1000)
}

/// Rows 280 through 319 of the builtin translation table.
pub open spec fn builtin_rows_7(ms: Seq<PackageMapping>) -> bool {
    &&& mapping_row(ms[280], "libopencv-core4.5"@, "opencv"@, 900)
    &&& mapping_row(ms[281], "libv4l-0"@, "v4l-utils"@, 1000)
    &&& mapping_row(ms[282], "fontconfig"@, "fontconfig"@, 1000)
    &&& mapping_row(ms[283], "fontconfig-config"@, "fontconfig"@, 900)
    &&& mapping_row(ms[284], "libfontconfig1"@, "fontconfig"@, 1000)
    &&& mapping_row(ms[285], "libfreetype6"@, "freetype2"@, 1000)
    &&& mapping_row(ms[286], "fonts-liberation"@, "ttf-liberation"@, 1000)
    &&& mapping_row(ms[287], "fonts-dejavu-core"@, "ttf-dejavu"@, 1000)
    &&& mapping_row(ms[288], "fonts-dejavu"@, "ttf-dejavu"@, 1000)
    &&& mapping_row(ms[289], "fonts-dejavu-extra"@, "ttf-dejavu"@, 900)
    &&& mapping_row(ms[290], "fonts-droid-fallback"@, "noto-fonts"@, 800)
    &&& mapping_row(ms[291], "fonts-noto"@, "noto-fonts"@, 1000)
    &&& mapping_row(ms[292], "fonts-noto-cjk"@, "noto-fonts-cjk"@, 1000)
    &&& mapping_row(ms[293], "fonts-noto-color-emoji"@, "noto-fonts-emoji"@, 1000)
    &&& mapping_row(ms[294], "fonts-roboto"@, "ttf-roboto"@, 1000)
    &&& mapping_row(ms[295], "fonts-ubuntu"@, "ttf-ubuntu-font-family"@, 1000)
    &&& mapping_row(ms[296], "fonts-hack"@, "ttf-hack"@, 1000)
    &&& mapping_row(ms[297], "fonts-firacode"@, "ttf-fira-code"@, 1000)
    &&& mapping_row(ms[298], "fonts-font-awesome"@, "ttf-font-awesome"@, 1000)
    &&& mapping_row(ms[299], "python3"@, "python"@, 1000)
    &&& mapping_row(ms[300], "python3-minimal"@, "python"@, 900)
    &&& mapping_row(ms[301], "libpython3-stdlib"@, "python"@, 800)
    &&& mapping_row(ms[302], "libpython3.11-stdlib"@, "python"@, 800)
    &&& mapping_row(ms[303], "libpython3.12-stdlib"@, "python"@, 800)
    &&& mapping_row(ms[304], "python3-pip"@, "python-pip"@, 1000)
    &&& mapping_row(ms[305], "python3-setuptools"@, "python-setuptools"@, 1000)
    &&& mapping_row(ms[306], "python3-wheel"@, "python-wheel"@, 1000)
    &&& mapping_row(ms[307], "python3-venv"@, "python"@, 900)
    &&& mapping_row(ms[308], "python3-dev"@, "python"@, 900)
    &&& mapping_row(ms[309], "python3-distutils"@, "python"@, 900)
    &&& mapping_row(ms[310], "python3-numpy"@, "python-numpy"@, 1000)
    &&& mapping_row(ms[311], "python3-scipy"@, "python-scipy"@, 1000)
    &&& mapping_row(ms[312], "python3-matplotlib"@, "python-matplotlib"@, 1000)
    &&& mapping_row(ms[313], "python3-pandas"@, "python-pandas"@, 1000)
    &&& mapping_row(ms[314], "python3-requests"@, "python-requests"@, 1000)
    &&& mapping_row(ms[315], "python3-urllib3"@, "python-urllib3"@, 1000)
    &&& mapping_row(ms[316], "python3-pil"@, "python-pillow"@, 1000)
    &&& mapping_row(ms[317], "python3-cryptography"@, "python-cryptography"@, 1000)
    &&& mapping_row(ms[318], "python3-openssl"@, "python-pyopenssl"@, 1000)
    &&& mapping_row(ms[319], "python3-yaml"@, "python-yaml"@, 1000)
}

/// Rows 320 through 359 of the builtin translation table.
pub open spec fn builtin_rows_8(ms: Seq<PackageMapping>) -> bool {
    &&& mapping_row(ms[320], "python3-lxml"@, "python-lxml"@, 1000)
    &&& mapping_row(ms[321], "python3-dbus"@, "python-dbus"@, 1000)
    &&& mapping_row(ms[322], "python3-gi"@, "python-gobject"@, 1000)
    &&& mapping_row(ms[323], "python3-cairo"@, "python-cairo"@, 1000)
    &&& mapping_row(ms[324], "perl"@, "perl"@, 1000)
    &&& mapping_row(ms[325], "perl-base"@, "perl"@, 900)
    &&& mapping_row(ms[326], "perl-modules-5.36"@, "perl"@, 800)
    &&& mapping_row(ms[327], "perl-modules-5.38"@, "perl"@, 800)
    &&& mapping_row(ms[328], "libperl5.36"@, "perl"@, 900)
    &&& mapping_row(ms[329], "libperl5.38"@, "perl"@, 900)
    &&& mapping_row(ms[330], "ruby"@, "ruby"@, 1000)
    &&& mapping_row(ms[331], "ruby3.0"@, "ruby"@, 900)
    &&& mapping_row(ms[332], "ruby3.1"@, "ruby"@, 900)
    &&& mapping_row(ms[333], "libruby3.0"@, "ruby"@, 900)
    &&& mapping_row(ms[334], "libruby3.1"@, "ruby"@, 900)
    &&& mapping_row(ms[335], "nodejs"@, "nodejs"@, 1000)
    &&& mapping_row(ms[336], "npm"@, "npm"@, 1000)
    &&& mapping_row(ms[337], "libnode72"@, "nodejs"@, 900)
    &&& mapping_row(ms[338], "libnode108"@, "nodejs"@, 900)
    &&& mapping_row(ms[339], "libcurl4"@, "curl"@, 1000)
    &&& mapping_row(ms[340], "libcurl4-openssl-dev"@, "curl"@, 900)
    &&& mapping_row(ms[341], "libcurl4-gnutls-dev"@, "curl"@, 900)
    &&& mapping_row(ms[342], "libcurl3-gnutls"@, "curl"@, 900)
    &&& mapping_row(ms[343], "curl"@, "curl"@, 1000)
    &&& mapping_row(ms[344], "wget"@, "wget"@, 1000)
    &&& mapping_row(ms[345], "wget2"@, "wget2"@, 1000)
    &&& mapping_row(ms[346], "ca-certificates"@, "ca-certificates"@, 1000)
    &&& mapping_row(ms[347], "openssl"@, "openssl"@, 1000)
    &&& mapping_row(ms[348], "libssh2-1"@, "libssh2"@, 1000)
    &&& mapping_row(ms[349], "libssh-4"@, "libssh"@, 1000)
    &&& mapping_row(ms[350], "openssh-client"@, "openssh"@, 900)
    &&& mapping_row(ms[351], "openssh-server"@, "openssh"@, 900)
    &&& mapping_row(ms[352], "libnghttp2-14"@, "libnghttp2"@, 1000)
    &&& mapping_row(ms[353], "libnss3"@, "nss"@, 1000)
    &&& mapping_row(ms[354], "libnspr4"@, "nspr"@, 1000)
    &&& mapping_row(ms[355], "libnm0"@, "networkmanager"@, 900)
    &&& mapping_row(ms[356], "network-manager"@, "networkmanager"@, 1000)
    &&& mapping_row(ms[357], "iputils-ping"@, "iputils"@, 1000)
    &&& mapping_row(ms[358], "iproute2"@, "iproute2"@, 1000)
    &&& mapping_row(ms[359], "dnsutils"@, "bind-tools"@, 1000)
}

/// Rows 360 through 399 of the builtin translation table.
pub open spec fn builtin_rows_9(ms: Seq<PackageMapping>) -> bool {
    &&& mapping_row(ms[360], "net-tools"@, "net-tools"@, 1000)
    &&& mapping_row(ms[361], "netcat-openbsd"@, "openbsd-netcat"@, 1000)
    &&& mapping_row(ms[362], "socat"@, "socat"@, 1000)
    &&& mapping_row(ms[363], "rsync"@, "rsync"@, 1000)
    &&& mapping_row(ms[364], "libsqlite3-0"@, "sqlite"@, 1000)
    &&& mapping_row(ms[365], "sqlite3"@, "sqlite"@, 1000)
    &&& mapping_row(ms[366], "libpq5"@, "postgresql-libs"@, 1000)
    &&& mapping_row(ms[367], "postgresql-client"@, "postgresql"@, 900)
    &&& mapping_row(ms[368], "libmysqlclient21"@, "mariadb-libs"@, 900)
    &&& mapping_row(ms[369], "default-mysql-client"@, "mariadb"@, 800)
    &&& mapping_row(ms[370], "libmariadb3"@, "mariadb-libs"@, 1000)
    &&& mapping_row(ms[371], "libmongoc-1.0-0"@, "mongo-c-driver"@, 1000)
    &&& mapping_row(ms[372], "libhiredis0.14"@, "hiredis"@, 1000)
    &&& mapping_row(ms[373], "redis-tools"@, "redis"@, 900)
    &&& mapping_row(ms[374], "libpng16-16"@, "libpng"@, 1000)
    &&& mapping_row(ms[375], "libpng-dev"@, "libpng"@, 900)
    &&& mapping_row(ms[376], "libjpeg62-turbo"@, "libjpeg-turbo"@, 1000)
    &&& mapping_row(ms[377], "libjpeg-turbo8"@, "libjpeg-turbo"@, 1000)
    &&& mapping_row(ms[378], "libjpeg8"@, "libjpeg-turbo"@, 900)
    &&& mapping_row(ms[379], "libjpeg-dev"@, "libjpeg-turbo"@, 900)
    &&& mapping_row(ms[380], "libwebp7"@, "libwebp"@, 1000)
    &&& mapping_row(ms[381], "libwebp6"@, "libwebp"@, 1000)
    &&& mapping_row(ms[382], "libwebpdemux2"@, "libwebp"@, 900)
    &&& mapping_row(ms[383], "libwebpmux3"@, "libwebp"@, 900)
    &&& mapping_row(ms[384], "libtiff6"@, "libtiff"@, 1000)
    &&& mapping_row(ms[385], "libtiff5"@, "libtiff"@, 1000)
    &&& mapping_row(ms[386], "libgif7"@, "giflib"@, 1000)
    &&& mapping_row(ms[387], "libraw20"@, "libraw"@, 1000)
    &&& mapping_row(ms[388], "libopenjp2-7"@, "openjpeg2"@, 1000)
    &&& mapping_row(ms[389], "libheif1"@, "libheif"@, 1000)
    &&& mapping_row(ms[390], "libjxl0.7"@, "libjxl"@, 1000)
    &&& mapping_row(ms[391], "libexif12"@, "libexif"@, 1000)
    &&& mapping_row(ms[392], "imagemagick"@, "imagemagick"@, 1000)
    &&& mapping_row(ms[393], "libmagickcore-6.q16-6"@, "imagemagick"@, 900)
    &&& mapping_row(ms[394], "libmagickwand-6.q16-6"@, "imagemagick"@, 900)
    &&& mapping_row(ms[395], "libxml2"@, "libxml2"@, 1000)
    &&& mapping_row(ms[396], "libxml2-utils"@, "libxml2"@, 900)
    &&& mapping_row(ms[397], "libxslt1.1"@, "libxslt"@, 1000)
    &&& mapping_row(ms[398], "libyaml-0-2"@, "libyaml"@, 1000)
    &&& mapping_row(ms[399], "libjson-c5"@, "json-c"@, 1000)
}

/// Rows 400 through 439 of the builtin translation table.
pub open spec fn builtin_rows_10(ms: Seq<PackageMapping>) -> bool {
    &&& mapping_row(ms[400], "libjson-glib-1.0-0"@, "json-glib"@, 1000)
    &&& mapping_row(ms[401], "liblcms2-2"@, "lcms2"@, 1000)
    &&& mapping_row(ms[402], "libpoppler118"@, "poppler"@, 1000)
    &&& mapping_row(ms[403], "libpoppler-glib8"@, "poppler-glib"@, 1000)
    &&& mapping_row(ms[404], "poppler-utils"@, "poppler"@, 900)
    &&& mapping_row(ms[405], "libdjvulibre21"@, "djvulibre"@, 1000)
    &&& mapping_row(ms[406], "libedit2"@, "libedit"@, 1000)
    &&& mapping_row(ms[407], "libudev1"@, "systemd-libs"@, 900)
    &&& mapping_row(ms[408], "udev"@, "systemd"@, 900)
    &&& mapping_row(ms[409], "libusb-1.0-0"@, "libusb"@, 1000)
    &&& mapping_row(ms[410], "libusbmuxd6"@, "libusbmuxd"@, 1000)
    &&& mapping_row(ms[411], "libimobiledevice6"@, "libimobiledevice"@, 1000)
    &&& mapping_row(ms[412], "libfuse2"@, "fuse2"@, 1000)
    &&& mapping_row(ms[413], "libfuse3-3"@, "fuse3"@, 1000)
    &&& mapping_row(ms[414], "fuse"@, "fuse2"@, 1000)
    &&& mapping_row(ms[415], "fuse3"@, "fuse3"@, 1000)
    &&& mapping_row(ms[416], "libblkid1"@, "util-linux-libs"@, 1000)
    &&& mapping_row(ms[417], "libmount1"@, "util-linux-libs"@, 1000)
    &&& mapping_row(ms[418], "libuuid1"@, "util-linux-libs"@, 1000)
    &&& mapping_row(ms[419], "libcap2"@, "libcap"@, 1000)
    &&& mapping_row(ms[420], "libseccomp2"@, "libseccomp"@, 1000)
    &&& mapping_row(ms[421], "libapparmor1"@, "apparmor"@, 900)
    &&& mapping_row(ms[422], "libselinux1"@, "libselinux"@, 1000)
    &&& mapping_row(ms[423], "libpolkit-gobject-1-0"@, "polkit"@, 1000)
    &&& mapping_row(ms[424], "policykit-1"@, "polkit"@, 1000)
    &&& mapping_row(ms[425], "libpci3"@, "pciutils"@, 1000)
    &&& mapping_row(ms[426], "pciutils"@, "pciutils"@, 1000)
    &&& mapping_row(ms[427], "libacl1"@, "acl"@, 1000)
    &&& mapping_row(ms[428], "libattr1"@, "attr"@, 1000)
    &&& mapping_row(ms[429], "libmnl0"@, "libmnl"@, 1000)
    &&& mapping_row(ms[430], "libnftnl11"@, "libnftnl"@, 1000)
    &&& mapping_row(ms[431], "libnl-3-200"@, "libnl"@, 1000)
    &&& mapping_row(ms[432], "libnl-genl-3-200"@, "libnl"@, 900)
    &&& mapping_row(ms[433], "libnl-route-3-200"@, "libnl"@, 900)
    &&& mapping_row(ms[434], "libbluetooth3"@, "bluez-libs"@, 1000)
    &&& mapping_row(ms[435], "bluez"@, "bluez"@, 1000)
    &&& mapping_row(ms[436], "build-essential"@, "base-devel"@, 900)
    &&& mapping_row(ms[437], "gcc"@, "gcc"@, 1000)
    &&& mapping_row(ms[438], "g++"@, "gcc"@, 900)
    &&& mapping_row(ms[439], "clang"@, "clang"@, 1000)
}

/// Rows 440 through 479 of the builtin translation table.
pub open spec fn builtin_rows_11(ms: Seq<PackageMapping>) -> bool {
    &&& mapping_row(ms[440], "llvm"@, "llvm"@, 1000)
    &&& mapping_row(ms[441], "cmake"@, "cmake"@, 1000)
    &&& mapping_row(ms[442], "make"@, "make"@, 1000)
    &&& mapping_row(ms[443], "autoconf"@, "autoconf"@, 1000)
    &&& mapping_row(ms[444], "automake"@, "automake"@, 1000)
    &&& mapping_row(ms[445], "libtool"@, "libtool"@, 1000)
    &&& mapping_row(ms[446], "pkg-config"@, "pkgconf"@, 1000)
    &&& mapping_row(ms[447], "git"@, "git"@, 1000)
    &&& mapping_row(ms[448], "subversion"@, "subversion"@, 1000)
    &&& mapping_row(ms[449], "mercurial"@, "mercurial"@, 1000)
    &&& mapping_row(ms[450], "gdb"@, "gdb"@, 1000)
    &&& mapping_row(ms[451], "valgrind"@, "valgrind"@, 1000)
    &&& mapping_row(ms[452], "binutils"@, "binutils"@, 1000)
    &&& mapping_row(ms[453], "m4"@, "m4"@, 1000)
    &&& mapping_row(ms[454], "gettext"@, "gettext"@, 1000)
    &&& mapping_row(ms[455], "intltool"@, "intltool"@, 1000)
    &&& mapping_row(ms[456], "bison"@, "bison"@, 1000)
    &&& mapping_row(ms[457], "flex"@, "flex"@, 1000)
    &&& mapping_row(ms[458], "nasm"@, "nasm"@, 1000)
    &&& mapping_row(ms[459], "yasm"@, "yasm"@, 1000)
    &&& mapping_row(ms[460], "libnss3"@, "nss"@, 1000)
    &&& mapping_row(ms[461], "libxss1"@, "libxss"@, 1000)
    &&& mapping_row(ms[462], "libasound2"@, "alsa-lib"@, 1000)
    &&& mapping_row(ms[463], "libatk-bridge2.0-0"@, "at-spi2-core"@, 1000)
    &&& mapping_row(ms[464], "libdrm2"@, "libdrm"@, 1000)
    &&& mapping_row(ms[465], "libgbm1"@, "mesa"@, 900)
    &&& mapping_row(ms[466], "libxcomposite1"@, "libxcomposite"@, 1000)
    &&& mapping_row(ms[467], "libxdamage1"@, "libxdamage"@, 1000)
    &&& mapping_row(ms[468], "libxfixes3"@, "libxfixes"@, 1000)
    &&& mapping_row(ms[469], "libxrandr2"@, "libxrandr"@, 1000)
    &&& mapping_row(ms[470], "libxkbcommon0"@, "libxkbcommon"@, 1000)
    &&& mapping_row(ms[471], "libatspi2.0-0"@, "at-spi2-core"@, 900)
    &&& mapping_row(ms[472], "libcups2"@, "cups"@, 900)
    &&& mapping_row(ms[473], "libsdl2-2.0-0"@, "sdl2"@, 1000)
    &&& mapping_row(ms[474], "libsdl2-image-2.0-0"@, "sdl2_image"@, 1000)
    &&& mapping_row(ms[475], "libsdl2-ttf-2.0-0"@, "sdl2_ttf"@, 1000)
    &&& mapping_row(ms[476], "libsdl2-net-2.0-0"@, "sdl2_net"@, 1000)
    &&& mapping_row(ms[477], "libsdl2-gfx-1.0-0"@, "sdl2_gfx"@, 1000)
    &&& mapping_row(ms[478], "libsdl1.2debian"@, "sdl"@, 1000)
    &&& mapping_row(ms[479], "libglew2.2"@, "glew"@, 1000)
}

/// Rows 480 through 509 of the builtin translation table.
pub open spec fn builtin_rows_12(ms: Seq<PackageMapping>) -> bool {
    &&& mapping_row(ms[480], "libglfw3"@, "glfw-x11"@, 1000)
    &&& mapping_row(ms[481], "libopenscenegraph161"@, "openscenegraph"@, 1000)
    &&& mapping_row(ms[482], "libenet7"@, "enet"@, 1000)
    &&& mapping_row(ms[483], "libarchive13"@, "libarchive"@, 1000)
    &&& mapping_row(ms[484], "liblz4-1"@, "lz4"@, 1000)
    &&& mapping_row(ms[485], "libzstd1"@, "zstd"@, 1000)
    &&& mapping_row(ms[486], "liblzo2-2"@, "lzo"@, 1000)
    &&& mapping_row(ms[487], "libsnappy1v5"@, "snappy"@, 1000)
    &&& mapping_row(ms[488], "libbrotli1"@, "brotli"@, 1000)
    &&& mapping_row(ms[489], "mime-support"@, "mailcap"@, 900)
    &&& mapping_row(ms[490], "shared-mime-info"@, "shared-mime-info"@, 1000)
    &&& mapping_row(ms[491], "desktop-file-utils"@, "desktop-file-utils"@, 1000)
    &&& mapping_row(ms[492], "hicolor-icon-theme"@, "hicolor-icon-theme"@, 1000)
    &&& mapping_row(ms[493], "adwaita-icon-theme"@, "adwaita-icon-theme"@, 1000)
    &&& mapping_row(ms[494], "gnome-icon-theme"@, "adwaita-icon-theme"@, 800)
    &&& mapping_row(ms[495], "dconf-gsettings-backend"@, "dconf"@, 1000)
    &&& mapping_row(ms[496], "libdconf1"@, "dconf"@, 900)
    &&& mapping_row(ms[497], "gvfs"@, "gvfs"@, 1000)
    &&& mapping_row(ms[498], "libgvfscommon0"@, "gvfs"@, 900)
    &&& mapping_row(ms[499], "zenity"@, "zenity"@, 1000)
    &&& mapping_row(ms[500], "libinput10"@, "libinput"@, 1000)
    &&& mapping_row(ms[501], "libevdev2"@, "libevdev"@, 1000)
    &&& mapping_row(ms[502], "libmtdev1"@, "mtdev"@, 1000)
    &&& mapping_row(ms[503], "libwacom2"@, "libwacom"@, 1000)
    &&& mapping_row(ms[504], "libgudev-1.0-0"@, "libgudev"@, 1000)
    &&& mapping_row(ms[505], "libcolord2"@, "colord"@, 1000)
    &&& mapping_row(ms[506], "colord"@, "colord"@, 1000)
    &&& mapping_row(ms[507], "libcanberra0"@, "libcanberra"@, 1000)
    &&& mapping_row(ms[508], "libcanberra-gtk3-0"@, "libcanberra"@, 900)
    &&& mapping_row(ms[509], "sound-theme-freedesktop"@, "sound-theme-freedesktop"@, 1000)
}

/// The builtin virtual-capability table, entry by entry: each capability
/// name with its providers, preferred first.
pub open spec fn builtin_virtual_rows(vs: Seq<(String, Vec<String>)>) -> bool {
    &&& vs[0].0@ == "debconf"@
    &&& vs[0].1@.len() == 2
    &&& vs[0].1@[0]@ == "dialog"@
    &&& vs[0].1@[1]@ == "whiptail"@
    &&& vs[1].0@ == "awk"@
    &&& vs[1].1@.len() == 3
    &&& vs[1].1@[0]@ == "gawk"@
    &&& vs[1].1@[1]@ == "mawk"@
    &&& vs[1].1@[2]@ == "nawk"@
    &&& vs[2].0@ == "c-compiler"@
    &&& vs[2].1@.len() == 2
    &&& vs[2].1@[0]@ == "gcc"@
    &&& vs[2].1@[1]@ == "clang"@
    &&& vs[3].0@ == "c++-compiler"@
    &&& vs[3].1@.len() == 2
    &&& vs[3].1@[0]@ == "gcc"@
    &&& vs[3].1@[1]@ == "clang"@
    &&& vs[4].0@ == "java-runtime"@
    &&& vs[4].1@.len() == 4
    &&& vs[4].1@[0]@ == "jre-openjdk"@
    &&& vs[4].1@[1]@ == "jre17-openjdk"@
    &&& vs[4].1@[2]@ == "jre11-openjdk"@
    &&& vs[4].1@[3]@ == "jre8-openjdk"@
    &&& vs[5].0@ == "java-runtime-headless"@
    &&& vs[5].1@.len() == 4
    &&& vs[5].1@[0]@ == "jre-openjdk-headless"@
    &&& vs[5].1@[1]@ == "jre17-openjdk-headless"@
    &&& vs[5].1@[2]@ == "jre11-openjdk-headless"@
    &&& vs[5].1@[3]@ == "jre8-openjdk-headless"@
    &&& vs[6].0@ == "java-sdk"@
    &&& vs[6].1@.len() == 4
    &&& vs[6].1@[0]@ == "jdk-openjdk"@
    &&& vs[6].1@[1]@ == "jdk17-openjdk"@
    &&& vs[6].1@[2]@ == "jdk11-openjdk"@
    &&& vs[6].1@[3]@ == "jdk8-openjdk"@
    &&& vs[7].0@ == "java-sdk-headless"@
    &&& vs[7].1@.len() == 4
    &&& vs[7].1@[0]@ == "jdk-openjdk"@
    &&& vs[7].1@[1]@ == "jdk17-openjdk"@
    &&& vs[7].1@[2]@ == "jdk11-openjdk"@
    &&& vs[7].1@[3]@ == "jdk8-openjdk"@
    &&& vs[8].0@ == "java8-runtime"@
    &&& vs[8].1@.len() == 1
    &&& vs[8].1@[0]@ == "jre8-openjdk"@
    &&& vs[9].0@ == "java8-runtime-headless"@
    &&& vs[9].1@.len() == 1
    &&& vs[9].1@[0]@ == "jre8-openjdk-headless"@
    &&& vs[10].0@ == "java11-runtime"@
    &&& vs[10].1@.len() == 1
    &&& vs[10].1@[0]@ == "jre11-openjdk"@
    &&& vs[11].0@ == "java17-runtime"@
    &&& vs[11].1@.len() == 1
    &&& vs[11].1@[0]@ == "jre17-openjdk"@
    &&& vs[12].0@ == "java21-runtime"@
    &&& vs[12].1@.len() == 1
    &&& vs[12].1@[0]@ == "jre21-openjdk"@
    &&& vs[13].0@ == "www-browser"@
    &&& vs[13].1@.len() == 3
    &&& vs[13].1@[0]@ == "firefox"@
    &&& vs[13].1@[1]@ == "chromium"@
    &&& vs[13].1@[2]@ == "vivaldi"@
    &&& vs[14].0@ == "x-terminal-emulator"@
    &&& vs[14].1@.len() == 4
    &&& vs[14].1@[0]@ == "alacritty"@
    &&& vs[14].1@[1]@ == "kitty"@
    &&& vs[14].1@[2]@ == "gnome-terminal"@
    &&& vs[14].1@[3]@ == "konsole"@
    &&& vs[15].0@ == "editor"@
    &&& vs[15].1@.len() == 3
    &&& vs[15].1@[0]@ == "vim"@
    &&& vs[15].1@[1]@ == "nano"@
    &&& vs[15].1@[2]@ == "emacs"@
    &&& vs[16].0@ == "mail-transport-agent"@
    &&& vs[16].1@.len() == 2
    &&& vs[16].1@[0]@ == "postfix"@
    &&& vs[16].1@[1]@ == "exim"@
}

/// A database holding exactly the builtin translation table and virtual
/// capabilities, with an empty repository cache.
pub open spec fn is_builtin_database(db: PackageDatabase) -> bool {
    &&& db.wf()
    &&& db.spec_arch_packages().len() == 0
    &&& db.spec_mappings().len() == 510
    &&& builtin_rows_0(db.spec_mappings())
    &&& builtin_rows_1(db.spec_mappings())
    &&& builtin_rows_2(db.spec_mappings())
    &&& builtin_rows_3(db.spec_mappings())
    &&& builtin_rows_4(db.spec_mappings())
    &&& builtin_rows_5(db.spec_mappings())
    &&& builtin_rows_6(db.spec_mappings())
    &&& builtin_rows_7(db.spec_mappings())
    &&& builtin_rows_8(db.spec_mappings())
    &&& builtin_rows_9(db.spec_mappings())
    &&& builtin_rows_10(db.spec_mappings())
    &&& builtin_rows_11(db.spec_mappings())
    &&& builtin_rows_12(db.spec_mappings())
    &&& db.spec_virtuals().len() == 17
    &&& builtin_virtual_rows(db.spec_virtuals())
}

impl PackageDatabase {
    /// One slice of the builtin translation table.
    #[verifier::spinoff_prover]
    #[verifier::rlimit(100)]
    fn load_builtin_part_0(&mut self)
        requires
            old(self).wf(),
            old(self).spec_mappings().len() == 0,
        ensures
            final(self).wf(),
            final(self).spec_mappings().len() == 40,
            final(self).spec_mappings().subrange(0, 0) == old(self).spec_mappings(),
            builtin_rows_0(final(self).spec_mappings()),
            final(self).spec_virtuals() == old(self).spec_virtuals(),
            final(self).spec_arch_packages() == old(self).spec_arch_packages(),
    {
        self.add_builtin("default-jre", "java-runtime", 1000);
        self.add_builtin("default-jre-headless", "java-runtime-headless", 1000);
        self.add_builtin("default-jdk", "java-sdk", 1000);
        self.add_builtin("default-jdk-headless", "java-sdk", 900);
        self.add_builtin("openjdk-8-jre", "jre8-openjdk", 1000);
        self.add_builtin("openjdk-8-jre-headless", "jre8-openjdk-headless", 1000);
        self.add_builtin("openjdk-8-jdk", "jdk8-openjdk", 1000);
        self.add_builtin("openjdk-8-jdk-headless", "jdk8-openjdk", 900);
        self.add_builtin("openjdk-11-jre", "jre11-openjdk", 1000);
        self.add_builtin("openjdk-11-jre-headless", "jre11-openjdk-headless", 1000);
        self.add_builtin("openjdk-11-jdk", "jdk11-openjdk", 1000);
        self.add_builtin("openjdk-11-jdk-headless", "jdk11-openjdk", 900);
        self.add_builtin("openjdk-17-jre", "jre17-openjdk", 1000);
        self.add_builtin("openjdk-17-jre-headless", "jre17-openjdk-headless", 1000);
        self.add_builtin("openjdk-17-jdk", "jdk17-openjdk", 1000);
        self.add_builtin("openjdk-17-jdk-headless", "jdk17-openjdk", 900);
        self.add_builtin("openjdk-21-jre", "jre21-openjdk", 1000);
        self.add_builtin("openjdk-21-jre-headless", "jre21-openjdk-headless", 1000);
        self.add_builtin("openjdk-21-jdk", "jdk21-openjdk", 1000);
        self.add_builtin("openjdk-21-jdk-headless", "jdk21-openjdk", 900);
        self.add_builtin("java-runtime", "jre-openjdk", 1000);
        self.add_builtin("java-runtime-headless", "jre-openjdk-headless", 1000);
        self.add_builtin("java-sdk", "jdk-openjdk", 1000);
        self.add_builtin("jre-openjdk", "jre-openjdk", 1000);
        self.add_builtin("jdk-openjdk", "jdk-openjdk", 1000);
        self.add_builtin("libc6", "glibc", 1000);
        self.add_builtin("libc6-dev", "glibc", 900);
        self.add_builtin("libstdc++6", "gcc-libs", 1000);
        self.add_builtin("libstdc++-dev", "gcc", 900);
        self.add_builtin("libgcc-s1", "gcc-libs", 1000);
        self.add_builtin("libgcc1", "gcc-libs", 1000);
        self.add_builtin("zlib1g", "zlib", 1000);
        self.add_builtin("zlib1g-dev", "zlib", 900);
        self.add_builtin("libbz2-1.0", "bzip2", 1000);
        self.add_builtin("liblzma5", "xz", 1000);
        self.add_builtin("libzstd1", "zstd", 1000);
        self.add_builtin("libatomic1", "gcc-libs", 900);
        self.add_builtin("libgomp1", "gcc-libs", 900);
        self.add_builtin("libpcre3", "pcre", 1000);
        self.add_builtin("libpcre2-8-0", "pcre2", 1000);
        proof {
            assert(self.spec_mappings().subrange(0, 0) =~= old(self).spec_mappings());
        }
    }

    /// One slice of the builtin translation table.
    #[verifier::spinoff_prover]
    #[verifier::rlimit(100)]
    fn load_builtin_part_1(&mut self)
        requires
            old(self).wf(),
            old(self).spec_mappings().len() == 40,
        ensures
            final(self).wf(),
            final(self).spec_mappings().len() == 80,
            final(self).spec_mappings().subrange(0, 40) == old(self).spec_mappings(),
            builtin_rows_1(final(self).spec_mappings()),
            final(self).spec_virtuals() == old(self).spec_virtuals(),
            final(self).spec_arch_packages() == old(self).spec_arch_packages(),
    {
        self.add_builtin("libreadline8", "readline", 1000);
        self.add_builtin("libncurses6", "ncurses", 1000);
        self.add_builtin("libncursesw6", "ncurses", 1000);
        self.add_builtin("libtinfo6", "ncurses", 900);
        self.add_builtin("libexpat1", "expat", 1000);
        self.add_builtin("libidn2-0", "libidn2", 1000);
        self.add_builtin("libunistring2", "libunistring", 1000);
        self.add_builtin("libffi8", "libffi", 1000);
        self.add_builtin("libffi7", "libffi", 1000);
        self.add_builtin("libgmp10", "gmp", 1000);
        self.add_builtin("libmpfr6", "mpfr", 1000);
        self.add_builtin("libmpc3", "libmpc", 1000);
        self.add_builtin("libssl1.1", "openssl", 900);
        self.add_builtin("libssl3", "openssl", 1000);
        self.add_builtin("libssl-dev", "openssl", 900);
        self.add_builtin("libcrypto1.1", "openssl", 900);
        self.add_builtin("libcrypto3", "openssl", 1000);
        self.add_builtin("libgnutls30", "gnutls", 1000);
        self.add_builtin("libgcrypt20", "libgcrypt", 1000);
        self.add_builtin("libgpg-error0", "libgpg-error", 1000);
        self.add_builtin("gnupg", "gnupg", 1000);
        self.add_builtin("gpg", "gnupg", 900);
        self.add_builtin("libsodium23", "libsodium", 1000);
        self.add_builtin("libnettle8", "nettle", 1000);
        self.add_builtin("libhogweed6", "nettle", 900);
        self.add_builtin("libp11-kit0", "p11-kit", 1000);
        self.add_builtin("libtasn1-6", "libtasn1", 1000);
        self.add_builtin("coreutils", "coreutils", 1000);
        self.add_builtin("bash", "bash", 1000);
        self.add_builtin("dash", "dash", 1000);
        self.add_builtin("zsh", "zsh", 1000);
        self.add_builtin("fish", "fish", 1000);
        self.add_builtin("sed", "sed", 1000);
        self.add_builtin("grep", "grep", 1000);
        self.add_builtin("gawk", "gawk", 1000);
        self.add_builtin("mawk", "gawk", 800);
        self.add_builtin("findutils", "findutils", 1000);
        self.add_builtin("tar", "tar", 1000);
        self.add_builtin("gzip", "gzip", 1000);
        self.add_builtin("bzip2", "bzip2", 1000);
        proof {
            assert(self.spec_mappings().subrange(0, 40) =~= old(self).spec_mappings());
        }
    }

    /// One slice of the builtin translation table.
    #[verifier::spinoff_prover]
    #[verifier::rlimit(100)]
    fn load_builtin_part_2(&mut self)
        requires
            old(self).wf(),
            old(self).spec_mappings().len() == 80,
        ensures
            final(self).wf(),
            final(self).spec_mappings().len() == 120,
            final(self).spec_mappings().subrange(0, 80) == old(self).spec_mappings(),
            builtin_rows_2(final(self).spec_mappings()),
            final(self).spec_virtuals() == old(self).spec_virtuals(),
            final(self).spec_arch_packages() == old(self).spec_arch_packages(),
    {
        self.add_builtin("xz-utils", "xz", 1000);
        self.add_builtin("unzip", "unzip", 1000);
        self.add_builtin("zip", "zip", 1000);
        self.add_builtin("p7zip", "p7zip", 1000);
        self.add_builtin("file", "file", 1000);
        self.add_builtin("diffutils", "diffutils", 1000);
        self.add_builtin("patch", "patch", 1000);
        self.add_builtin("less", "less", 1000);
        self.add_builtin("util-linux", "util-linux", 1000);
        self.add_builtin("procps", "procps-ng", 1000);
        self.add_builtin("psmisc", "psmisc", 1000);
        self.add_builtin("lsof", "lsof", 1000);
        self.add_builtin("strace", "strace", 1000);
        self.add_builtin("sudo", "sudo", 1000);
        self.add_builtin("adduser", "shadow", 800);
        self.add_builtin("passwd", "shadow", 900);
        self.add_builtin("login", "shadow", 900);
        self.add_builtin("libx11-6", "libx11", 1000);
        self.add_builtin("libx11-dev", "libx11", 900);
        self.add_builtin("libx11-xcb1", "libx11", 900);
        self.add_builtin("libxext6", "libxext", 1000);
        self.add_builtin("libxrender1", "libxrender", 1000);
        self.add_builtin("libxrandr2", "libxrandr", 1000);
        self.add_builtin("libxi6", "libxi", 1000);
        self.add_builtin("libxcursor1", "libxcursor", 1000);
        self.add_builtin("libxcomposite1", "libxcomposite", 1000);
        self.add_builtin("libxdamage1", "libxdamage", 1000);
        self.add_builtin("libxfixes3", "libxfixes", 1000);
        self.add_builtin("libxinerama1", "libxinerama", 1000);
        self.add_builtin("libxkbcommon0", "libxkbcommon", 1000);
        self.add_builtin("libxkbcommon-x11-0", "libxkbcommon-x11", 1000);
        self.add_builtin("libxcb1", "libxcb", 1000);
        self.add_builtin("libxcb-render0", "libxcb", 900);
        self.add_builtin("libxcb-shm0", "libxcb", 900);
        self.add_builtin("libxcb-xfixes0", "libxcb", 900);
        self.add_builtin("libxcb-shape0", "libxcb", 900);
        self.add_builtin("libxcb-randr0", "libxcb", 900);
        self.add_builtin("libxcb-image0", "libxcb", 900);
        self.add_builtin("libxcb-keysyms1", "libxcb", 900);
        self.add_builtin("libxcb-util1", "xcb-util", 1000);
        proof {
            assert(self.spec_mappings().subrange(0, 80) =~= old(self).spec_mappings());
        }
    }

    /// One slice of the builtin translation table.
    #[verifier::spinoff_prover]
    #[verifier::rlimit(100)]
    fn load_builtin_part_3(&mut self)
        requires
            old(self).wf(),
            old(self).spec_mappings().len() == 120,
        ensures
            final(self).wf(),
            final(self).spec_mappings().len() == 160,
            final(self).spec_mappings().subrange(0, 120) == old(self).spec_mappings(),
            builtin_rows_3(final(self).spec_mappings()),
            final(self).spec_virtuals() == old(self).spec_virtuals(),
            final(self).spec_arch_packages() == old(self).spec_arch_packages(),
    {
        self.add_builtin("libxcb-icccm4", "xcb-util-wm", 1000);
        self.add_builtin("libxmu6", "libxmu", 1000);
        self.add_builtin("libxpm4", "libxpm", 1000);
        self.add_builtin("libxss1", "libxss", 1000);
        self.add_builtin("libxt6", "libxt", 1000);
        self.add_builtin("libxtst6", "libxtst", 1000);
        self.add_builtin("libxv1", "libxv", 1000);
        self.add_builtin("libxxf86vm1", "libxxf86vm", 1000);
        self.add_builtin("x11-utils", "xorg-xprop", 800);
        self.add_builtin("x11-xserver-utils", "xorg-xset", 800);
        self.add_builtin("xdg-utils", "xdg-utils", 1000);
        self.add_builtin("libgl1", "libglvnd", 900);
        self.add_builtin("libgl1-mesa-glx", "mesa", 900);
        self.add_builtin("libgl1-mesa-dri", "mesa", 900);
        self.add_builtin("libegl1", "libglvnd", 900);
        self.add_builtin("libegl1-mesa", "mesa", 900);
        self.add_builtin("libgles2", "libglvnd", 900);
        self.add_builtin("libgles2-mesa", "mesa", 900);
        self.add_builtin("libglx0", "libglvnd", 900);
        self.add_builtin("libglx-mesa0", "mesa", 900);
        self.add_builtin("libdrm2", "libdrm", 1000);
        self.add_builtin("libdrm-common", "libdrm", 900);
        self.add_builtin("libgbm1", "mesa", 900);
        self.add_builtin("libwayland-client0", "wayland", 1000);
        self.add_builtin("libwayland-cursor0", "wayland", 900);
        self.add_builtin("libwayland-egl1", "wayland", 900);
        self.add_builtin("libwayland-server0", "wayland", 900);
        self.add_builtin("libvulkan1", "vulkan-icd-loader", 1000);
        self.add_builtin("libgtk-3-0", "gtk3", 1000);
        self.add_builtin("libgtk-3-common", "gtk3", 900);
        self.add_builtin("libgtk-3-dev", "gtk3", 900);
        self.add_builtin("libgtk-4-1", "gtk4", 1000);
        self.add_builtin("libgtk2.0-0", "gtk2", 1000);
        self.add_builtin("libglib2.0-0", "glib2", 1000);
        self.add_builtin("libglib2.0-data", "glib2", 900);
        self.add_builtin("libglib2.0-dev", "glib2", 900);
        self.add_builtin("libgio-2.0-0", "glib2", 900);
        self.add_builtin("libgobject-2.0-0", "glib2", 900);
        self.add_builtin("libgmodule-2.0-0", "glib2", 900);
        self.add_builtin("libgthread-2.0-0", "glib2", 900);
        proof {
            assert(self.spec_mappings().subrange(0, 120) =~= old(self).spec_mappings());
        }
    }

    /// One slice of the builtin translation table.
    #[verifier::spinoff_prover]
    #[verifier::rlimit(100)]
    fn load_builtin_part_4(&mut self)
        requires
            old(self).wf(),
            old(self).spec_mappings().len() == 160,
        ensures
            final(self).wf(),
            final(self).spec_mappings().len() == 200,
            final(self).spec_mappings().subrange(0, 160) == old(self).spec_mappings(),
            builtin_rows_4(final(self).spec_mappings()),
            final(self).spec_virtuals() == old(self).spec_virtuals(),
            final(self).spec_arch_packages() == old(self).spec_arch_packages(),
    {
        self.add_builtin("libgdk-pixbuf-2.0-0", "gdk-pixbuf2", 1000);
        self.add_builtin("libgdk-pixbuf2.0-0", "gdk-pixbuf2", 1000);
        self.add_builtin("libpango-1.0-0", "pango", 1000);
        self.add_builtin("libpangocairo-1.0-0", "pango", 900);
        self.add_builtin("libpangoft2-1.0-0", "pango", 900);
        self.add_builtin("libpangoxft-1.0-0", "pango", 900);
        self.add_builtin("libcairo2", "cairo", 1000);
        self.add_builtin("libcairo-gobject2", "cairo", 900);
        self.add_builtin("libcairo-script-interpreter2", "cairo", 900);
        self.add_builtin("libatk1.0-0", "atk", 1000);
        self.add_builtin("libatk-bridge2.0-0", "at-spi2-core", 1000);
        self.add_builtin("libatspi2.0-0", "at-spi2-core", 900);
        self.add_builtin("libdbus-1-3", "dbus", 1000);
        self.add_builtin("dbus", "dbus", 1000);
        self.add_builtin("libsystemd0", "systemd-libs", 1000);
        self.add_builtin("libharfbuzz0b", "harfbuzz", 1000);
        self.add_builtin("librsvg2-2", "librsvg", 1000);
        self.add_builtin("librsvg2-common", "librsvg", 900);
        self.add_builtin("libsecret-1-0", "libsecret", 1000);
        self.add_builtin("libnotify4", "libnotify", 1000);
        self.add_builtin("libappindicator3-1", "libappindicator-gtk3", 1000);
        self.add_builtin("libayatana-appindicator3-1", "libayatana-appindicator", 1000);
        self.add_builtin("libdbusmenu-glib4", "libdbusmenu-glib", 1000);
        self.add_builtin("libdbusmenu-gtk3-4", "libdbusmenu-gtk3", 1000);
        self.add_builtin("gsettings-desktop-schemas", "gsettings-desktop-schemas", 1000);
        self.add_builtin("glib-networking", "glib-networking", 1000);
        self.add_builtin("libsoup2.4-1", "libsoup", 1000);
        self.add_builtin("libsoup-3.0-0", "libsoup3", 1000);
        self.add_builtin("libwebkit2gtk-4.0-37", "webkit2gtk", 1000);
        self.add_builtin("libwebkit2gtk-4.1-0", "webkit2gtk-4.1", 1000);
        self.add_builtin("libjavascriptcoregtk-4.0-18", "webkit2gtk", 900);
        self.add_builtin("libqt5core5a", "qt5-base", 1000);
        self.add_builtin("libqt5gui5", "qt5-base", 900);
        self.add_builtin("libqt5widgets5", "qt5-base", 900);
        self.add_builtin("libqt5network5", "qt5-base", 900);
        self.add_builtin("libqt5dbus5", "qt5-base", 900);
        self.add_builtin("libqt5sql5", "qt5-base", 900);
        self.add_builtin("libqt5xml5", "qt5-base", 900);
        self.add_builtin("libqt5concurrent5", "qt5-base", 900);
        self.add_builtin("libqt5printsupport5", "qt5-base", 900);
        proof {
            assert(self.spec_mappings().subrange(0, 160) =~= old(self).spec_mappings());
        }
    }

    /// One slice of the builtin translation table.
    #[verifier::spinoff_prover]
    #[verifier::rlimit(100)]
    fn load_builtin_part_5(&mut self)
        requires
            old(self).wf(),
            old(self).spec_mappings().len() == 200,
        ensures
            final(self).wf(),
            final(self).spec_mappings().len() == 240,
            final(self).spec_mappings().subrange(0, 200) == old(self).spec_mappings(),
            builtin_rows_5(final(self).spec_mappings()),
            final(self).spec_virtuals() == old(self).spec_virtuals(),
            final(self).spec_arch_packages() == old(self).spec_arch_packages(),
    {
        self.add_builtin("libqt5opengl5", "qt5-base", 900);
        self.add_builtin("libqt5svg5", "qt5-svg", 1000);
        self.add_builtin("libqt5x11extras5", "qt5-x11extras", 1000);
        self.add_builtin("libqt5webkit5", "qt5-webkit", 1000);
        self.add_builtin("libqt5webengine5", "qt5-webengine", 1000);
        self.add_builtin("libqt5webenginewidgets5", "qt5-webengine", 900);
        self.add_builtin("libqt5quick5", "qt5-declarative", 1000);
        self.add_builtin("libqt5qml5", "qt5-declarative", 900);
        self.add_builtin("libqt5multimedia5", "qt5-multimedia", 1000);
        self.add_builtin("libqt5positioning5", "qt5-location", 1000);
        self.add_builtin("libqt5sensors5", "qt5-sensors", 1000);
        self.add_builtin("libqt5serialport5", "qt5-serialport", 1000);
        self.add_builtin("libqt5webchannel5", "qt5-webchannel", 1000);
        self.add_builtin("libqt5websockets5", "qt5-websockets", 1000);
        self.add_builtin("libqt6core6", "qt6-base", 1000);
        self.add_builtin("libqt6gui6", "qt6-base", 900);
        self.add_builtin("libqt6widgets6", "qt6-base", 900);
        self.add_builtin("libqt6network6", "qt6-base", 900);
        self.add_builtin("libqt6dbus6", "qt6-base", 900);
        self.add_builtin("libqt6opengl6", "qt6-base", 900);
        self.add_builtin("libqt6svg6", "qt6-svg", 1000);
        self.add_builtin("libqt6webengine6", "qt6-webengine", 1000);
        self.add_builtin("libasound2", "alsa-lib", 1000);
        self.add_builtin("libasound2-data", "alsa-lib", 900);
        self.add_builtin("libasound2-plugins", "alsa-plugins", 1000);
        self.add_builtin("libpulse0", "libpulse", 1000);
        self.add_builtin("libpulse-mainloop-glib0", "libpulse", 900);
        self.add_builtin("pulseaudio", "pulseaudio", 1000);
        self.add_builtin("pulseaudio-utils", "pulseaudio", 900);
        self.add_builtin("libpipewire-0.3-0", "pipewire", 1000);
        self.add_builtin("pipewire", "pipewire", 1000);
        self.add_builtin("libopenal1", "openal", 1000);
        self.add_builtin("libsndfile1", "libsndfile", 1000);
        self.add_builtin("libvorbis0a", "libvorbis", 1000);
        self.add_builtin("libvorbisenc2", "libvorbis", 900);
        self.add_builtin("libvorbisfile3", "libvorbis", 900);
        self.add_builtin("libogg0", "libogg", 1000);
        self.add_builtin("libflac8", "flac", 1000);
        self.add_builtin("libopus0", "opus", 1000);
        self.add_builtin("libmp3lame0", "lame", 1000);
        proof {
            assert(self.spec_mappings().subrange(0, 200) =~= old(self).spec_mappings());
        }
    }

    /// One slice of the builtin translation table.
    #[verifier::spinoff_prover]
    #[verifier::rlimit(100)]
    fn load_builtin_part_6(&mut self)
        requires
            old(self).wf(),
            old(self).spec_mappings().len() == 240,
        ensures
            final(self).wf(),
            final(self).spec_mappings().len() == 280,
            final(self).spec_mappings().subrange(0, 240) == old(self).spec_mappings(),
            builtin_rows_6(final(self).spec_mappings()),
            final(self).spec_virtuals() == old(self).spec_virtuals(),
            final(self).spec_arch_packages() == old(self).spec_arch_packages(),
    {
        self.add_builtin("libmpg123-0", "mpg123", 1000);
        self.add_builtin("libjack-jackd2-0", "jack2", 1000);
        self.add_builtin("libjack0", "jack2", 900);
        self.add_builtin("libportaudio2", "portaudio", 1000);
        self.add_builtin("libsdl2-mixer-2.0-0", "sdl2_mixer", 1000);
        self.add_builtin("libavcodec58", "ffmpeg", 900);
        self.add_builtin("libavcodec59", "ffmpeg", 900);
        self.add_builtin("libavcodec60", "ffmpeg", 900);
        self.add_builtin("libavformat58", "ffmpeg", 900);
        self.add_builtin("libavformat59", "ffmpeg", 900);
        self.add_builtin("libavformat60", "ffmpeg", 900);
        self.add_builtin("libavutil56", "ffmpeg", 900);
        self.add_builtin("libavutil57", "ffmpeg", 900);
        self.add_builtin("libavutil58", "ffmpeg", 900);
        self.add_builtin("libavfilter7", "ffmpeg", 900);
        self.add_builtin("libavfilter8", "ffmpeg", 900);
        self.add_builtin("libavfilter9", "ffmpeg", 900);
        self.add_builtin("libswscale5", "ffmpeg", 900);
        self.add_builtin("libswscale6", "ffmpeg", 900);
        self.add_builtin("libswresample3", "ffmpeg", 900);
        self.add_builtin("libswresample4", "ffmpeg", 900);
        self.add_builtin("libpostproc55", "ffmpeg", 900);
        self.add_builtin("libpostproc56", "ffmpeg", 900);
        self.add_builtin("ffmpeg", "ffmpeg", 1000);
        self.add_builtin("libgstreamer1.0-0", "gstreamer", 1000);
        self.add_builtin("gstreamer1.0-plugins-base", "gst-plugins-base", 1000);
        self.add_builtin("gstreamer1.0-plugins-good", "gst-plugins-good", 1000);
        self.add_builtin("gstreamer1.0-plugins-bad", "gst-plugins-bad", 1000);
        self.add_builtin("gstreamer1.0-plugins-ugly", "gst-plugins-ugly", 1000);
        self.add_builtin("gstreamer1.0-libav", "gst-libav", 1000);
        self.add_builtin("libva2", "libva", 1000);
        self.add_builtin("libva-drm2", "libva", 900);
        self.add_builtin("libva-x11-2", "libva", 900);
        self.add_builtin("libvdpau1", "libvdpau", 1000);
        self.add_builtin("libtheora0", "libtheora", 1000);
        self.add_builtin("libx264-163", "x264", 1000);
        self.add_builtin("libx265-199", "x265", 1000);
        self.add_builtin("libvpx7", "libvpx", 1000);
        self.add_builtin("libdav1d6", "dav1d", 1000);
        self.add_builtin("libaom3", "aom", 1000);
        proof {
            assert(self.spec_mappings().subrange(0, 240) =~= old(self).spec_mappings());
        }
    }

    /// One slice of the builtin translation table.
    #[verifier::spinoff_prover]
    #[verifier::rlimit(100)]
    fn load_builtin_part_7(&mut self)
        requires
            old(self).wf(),
            old(self).spec_mappings().len() == 280,
        ensures
            final(self).wf(),
            final(self).spec_mappings().len() == 320,
            final(self).spec_mappings().subrange(0, 280) == old(self).spec_mappings(),
            builtin_rows_7(final(self).spec_mappings()),
            final(self).spec_virtuals() == old(self).spec_virtuals(),
            final(self).spec_arch_packages() == old(self).spec_arch_packages(),
    {
        self.add_builtin("libopencv-core4.5", "opencv", 900);
        self.add_builtin("libv4l-0", "v4l-utils", 1000);
        self.add_builtin("fontconfig", "fontconfig", 1000);
        self.add_builtin("fontconfig-config", "fontconfig", 900);
        self.add_builtin("libfontconfig1", "fontconfig", 1000);
        self.add_builtin("libfreetype6", "freetype2", 1000);
        self.add_builtin("fonts-liberation", "ttf-liberation", 1000);
        self.add_builtin("fonts-dejavu-core", "ttf-dejavu", 1000);
        self.add_builtin("fonts-dejavu", "ttf-dejavu", 1000);
        self.add_builtin("fonts-dejavu-extra", "ttf-dejavu", 900);
        self.add_builtin("fonts-droid-fallback", "noto-fonts", 800);
        self.add_builtin("fonts-noto", "noto-fonts", 1000);
        self.add_builtin("fonts-noto-cjk", "noto-fonts-cjk", 1000);
        self.add_builtin("fonts-noto-color-emoji", "noto-fonts-emoji", 1000);
        self.add_builtin("fonts-roboto", "ttf-roboto", 1000);
        self.add_builtin("fonts-ubuntu", "ttf-ubuntu-font-family", 1000);
        self.add_builtin("fonts-hack", "ttf-hack", 1000);
        self.add_builtin("fonts-firacode", "ttf-fira-code", 1000);
        self.add_builtin("fonts-font-awesome", "ttf-font-awesome", 1000);
        self.add_builtin("python3", "python", 1000);
        self.add_builtin("python3-minimal", "python", 900);
        self.add_builtin("libpython3-stdlib", "python", 800);
        self.add_builtin("libpython3.11-stdlib", "python", 800);
        self.add_builtin("libpython3.12-stdlib", "python", 800);
        self.add_builtin("python3-pip", "python-pip", 1000);
        self.add_builtin("python3-setuptools", "python-setuptools", 1000);
        self.add_builtin("python3-wheel", "python-wheel", 1000);
        self.add_builtin("python3-venv", "python", 900);
        self.add_builtin("python3-dev", "python", 900);
        self.add_builtin("python3-distutils", "python", 900);
        self.add_builtin("python3-numpy", "python-numpy", 1000);
        self.add_builtin("python3-scipy", "python-scipy", 1000);
        self.add_builtin("python3-matplotlib", "python-matplotlib", 1000);
        self.add_builtin("python3-pandas", "python-pandas", 1000);
        self.add_builtin("python3-requests", "python-requests", 1000);
        self.add_builtin("python3-urllib3", "python-urllib3", 1000);
        self.add_builtin("python3-pil", "python-pillow", 1000);
        self.add_builtin("python3-cryptography", "python-cryptography", 1000);
        self.add_builtin("python3-openssl", "python-pyopenssl", 1000);
        self.add_builtin("python3-yaml", "python-yaml", 1000);
        proof {
            assert(self.spec_mappings().subrange(0, 280) =~= old(self).spec_mappings());
        }
    }

    /// One slice of the builtin translation table.
    #[verifier::spinoff_prover]
    #[verifier::rlimit(100)]
    fn load_builtin_part_8(&mut self)
        requires
            old(self).wf(),
            old(self).spec_mappings().len() == 320,
        ensures
            final(self).wf(),
            final(self).spec_mappings().len() == 360,
            final(self).spec_mappings().subrange(0, 320) == old(self).spec_mappings(),
            builtin_rows_8(final(self).spec_mappings()),
            final(self).spec_virtuals() == old(self).spec_virtuals(),
            final(self).spec_arch_packages() == old(self).spec_arch_packages(),
    {
        self.add_builtin("python3-lxml", "python-lxml", 1000);
        self.add_builtin("python3-dbus", "python-dbus", 1000);
        self.add_builtin("python3-gi", "python-gobject", 1000);
        self.add_builtin("python3-cairo", "python-cairo", 1000);
        self.add_builtin("perl", "perl", 1000);
        self.add_builtin("perl-base", "perl", 900);
        self.add_builtin("perl-modules-5.36", "perl", 800);
        self.add_builtin("perl-modules-5.38", "perl", 800);
        self.add_builtin("libperl5.36", "perl", 900);
        self.add_builtin("libperl5.38", "perl", 900);
        self.add_builtin("ruby", "ruby", 1000);
        self.add_builtin("ruby3.0", "ruby", 900);
        self.add_builtin("ruby3.1", "ruby", 900);
        self.add_builtin("libruby3.0", "ruby", 900);
        self.add_builtin("libruby3.1", "ruby", 900);
        self.add_builtin("nodejs", "nodejs", 1000);
        self.add_builtin("npm", "npm", 1000);
        self.add_builtin("libnode72", "nodejs", 900);
        self.add_builtin("libnode108", "nodejs", 900);
        self.add_builtin("libcurl4", "curl", 1000);
        self.add_builtin("libcurl4-openssl-dev", "curl", 900);
        self.add_builtin("libcurl4-gnutls-dev", "curl", 900);
        self.add_builtin("libcurl3-gnutls", "curl", 900);
        self.add_builtin("curl", "curl", 1000);
        self.add_builtin("wget", "wget", 1000);
        self.add_builtin("wget2", "wget2", 1000);
        self.add_builtin("ca-certificates", "ca-certificates", 1000);
        self.add_builtin("openssl", "openssl", 1000);
        self.add_builtin("libssh2-1", "libssh2", 1000);
        self.add_builtin("libssh-4", "libssh", 1000);
        self.add_builtin("openssh-client", "openssh", 900);
        self.add_builtin("openssh-server", "openssh", 900);
        self.add_builtin("libnghttp2-14", "libnghttp2", 1000);
        self.add_builtin("libnss3", "nss", 1000);
        self.add_builtin("libnspr4", "nspr", 1000);
        self.add_builtin("libnm0", "networkmanager", 900);
        self.add_builtin("network-manager", "networkmanager", 1000);
        self.add_builtin("iputils-ping", "iputils", 1000);
        self.add_builtin("iproute2", "iproute2", 1000);
        self.add_builtin("dnsutils", "bind-tools", 1000);
        proof {
            assert(self.spec_mappings().subrange(0, 320) =~= old(self).spec_mappings());
        }
    }

    /// One slice of the builtin translation table.
    #[verifier::spinoff_prover]
    #[verifier::rlimit(100)]
    fn load_builtin_part_9(&mut self)
        requires
            old(self).wf(),
            old(self).spec_mappings().len() == 360,
        ensures
            final(self).wf(),
            final(self).spec_mappings().len() == 400,
            final(self).spec_mappings().subrange(0, 360) == old(self).spec_mappings(),
            builtin_rows_9(final(self).spec_mappings()),
            final(self).spec_virtuals() == old(self).spec_virtuals(),
            final(self).spec_arch_packages() == old(self).spec_arch_packages(),
    {
        self.add_builtin("net-tools", "net-tools", 1000);
        self.add_builtin("netcat-openbsd", "openbsd-netcat", 1000);
        self.add_builtin("socat", "socat", 1000);
        self.add_builtin("rsync", "rsync", 1000);
        self.add_builtin("libsqlite3-0", "sqlite", 1000);
        self.add_builtin("sqlite3", "sqlite", 1000);
        self.add_builtin("libpq5", "postgresql-libs", 1000);
        self.add_builtin("postgresql-client", "postgresql", 900);
        self.add_builtin("libmysqlclient21", "mariadb-libs", 900);
        self.add_builtin("default-mysql-client", "mariadb", 800);
        self.add_builtin("libmariadb3", "mariadb-libs", 1000);
        self.add_builtin("libmongoc-1.0-0", "mongo-c-driver", 1000);
        self.add_builtin("libhiredis0.14", "hiredis", 1000);
        self.add_builtin("redis-tools", "redis", 900);
        self.add_builtin("libpng16-16", "libpng", 1000);
        self.add_builtin("libpng-dev", "libpng", 900);
        self.add_builtin("libjpeg62-turbo", "libjpeg-turbo", 1000);
        self.add_builtin("libjpeg-turbo8", "libjpeg-turbo", 1000);
        self.add_builtin("libjpeg8", "libjpeg-turbo", 900);
        self.add_builtin("libjpeg-dev", "libjpeg-turbo", 900);
        self.add_builtin("libwebp7", "libwebp", 1000);
        self.add_builtin("libwebp6", "libwebp", 1000);
        self.add_builtin("libwebpdemux2", "libwebp", 900);
        self.add_builtin("libwebpmux3", "libwebp", 900);
        self.add_builtin("libtiff6", "libtiff", 1000);
        self.add_builtin("libtiff5", "libtiff", 1000);
        self.add_builtin("libgif7", "giflib", 1000);
        self.add_builtin("libraw20", "libraw", 1000);
        self.add_builtin("libopenjp2-7", "openjpeg2", 1000);
        self.add_builtin("libheif1", "libheif", 1000);
        self.add_builtin("libjxl0.7", "libjxl", 1000);
        self.add_builtin("libexif12", "libexif", 1000);
        self.add_builtin("imagemagick", "imagemagick", 1000);
        self.add_builtin("libmagickcore-6.q16-6", "imagemagick", 900);
        self.add_builtin("libmagickwand-6.q16-6", "imagemagick", 900);
        self.add_builtin("libxml2", "libxml2", 1000);
        self.add_builtin("libxml2-utils", "libxml2", 900);
        self.add_builtin("libxslt1.1", "libxslt", 1000);
        self.add_builtin("libyaml-0-2", "libyaml", 1000);
        self.add_builtin("libjson-c5", "json-c", 1000);
        proof {
            assert(self.spec_mappings().subrange(0, 360) =~= old(self).spec_mappings());
        }
    }

    /// One slice of the builtin translation table.
    #[verifier::spinoff_prover]
    #[verifier::rlimit(100)]
    fn load_builtin_part_10(&mut self)
        requires
            old(self).wf(),
            old(self).spec_mappings().len() == 400,
        ensures
            final(self).wf(),
            final(self).spec_mappings().len() == 440,
            final(self).spec_mappings().subrange(0, 400) == old(self).spec_mappings(),
            builtin_rows_10(final(self).spec_mappings()),
            final(self).spec_virtuals() == old(self).spec_virtuals(),
            final(self).spec_arch_packages() == old(self).spec_arch_packages(),
    {
        self.add_builtin("libjson-glib-1.0-0", "json-glib", 1000);
        self.add_builtin("liblcms2-2", "lcms2", 1000);
        self.add_builtin("libpoppler118", "poppler", 1000);
        self.add_builtin("libpoppler-glib8", "poppler-glib", 1000);
        self.add_builtin("poppler-utils", "poppler", 900);
        self.add_builtin("libdjvulibre21", "djvulibre", 1000);
        self.add_builtin("libedit2", "libedit", 1000);
        self.add_builtin("libudev1", "systemd-libs", 900);
        self.add_builtin("udev", "systemd", 900);
        self.add_builtin("libusb-1.0-0", "libusb", 1000);
        self.add_builtin("libusbmuxd6", "libusbmuxd", 1000);
        self.add_builtin("libimobiledevice6", "libimobiledevice", 1000);
        self.add_builtin("libfuse2", "fuse2", 1000);
        self.add_builtin("libfuse3-3", "fuse3", 1000);
        self.add_builtin("fuse", "fuse2", 1000);
        self.add_builtin("fuse3", "fuse3", 1000);
        self.add_builtin("libblkid1", "util-linux-libs", 1000);
        self.add_builtin("libmount1", "util-linux-libs", 1000);
        self.add_builtin("libuuid1", "util-linux-libs", 1000);
        self.add_builtin("libcap2", "libcap", 1000);
        self.add_builtin("libseccomp2", "libseccomp", 1000);
        self.add_builtin("libapparmor1", "apparmor", 900);
        self.add_builtin("libselinux1", "libselinux", 1000);
        self.add_builtin("libpolkit-gobject-1-0", "polkit", 1000);
        self.add_builtin("policykit-1", "polkit", 1000);
        self.add_builtin("libpci3", "pciutils", 1000);
        self.add_builtin("pciutils", "pciutils", 1000);
        self.add_builtin("libacl1", "acl", 1000);
        self.add_builtin("libattr1", "attr", 1000);
        self.add_builtin("libmnl0", "libmnl", 1000);
        self.add_builtin("libnftnl11", "libnftnl", 1000);
        self.add_builtin("libnl-3-200", "libnl", 1000);
        self.add_builtin("libnl-genl-3-200", "libnl", 900);
        self.add_builtin("libnl-route-3-200", "libnl", 900);
        self.add_builtin("libbluetooth3", "bluez-libs", 1000);
        self.add_builtin("bluez", "bluez", 1000);
        self.add_builtin("build-essential", "base-devel", 900);
        self.add_builtin("gcc", "gcc", 1000);
        self.add_builtin("g++", "gcc", 900);
        self.add_builtin("clang", "clang", 1000);
        proof {
            assert(self.spec_mappings().subrange(0, 400) =~= old(self).spec_mappings());
        }
    }

    /// One slice of the builtin translation table.
    #[verifier::spinoff_prover]
    #[verifier::rlimit(100)]
    fn load_builtin_part_11(&mut self)
        requires
            old(self).wf(),
            old(self).spec_mappings().len() == 440,
        ensures
            final(self).wf(),
            final(self).spec_mappings().len() == 480,
            final(self).spec_mappings().subrange(0, 440) == old(self).spec_mappings(),
            builtin_rows_11(final(self).spec_mappings()),
            final(self).spec_virtuals() == old(self).spec_virtuals(),
            final(self).spec_arch_packages() == old(self).spec_arch_packages(),
    {
        self.add_builtin("llvm", "llvm", 1000);
        self.add_builtin("cmake", "cmake", 1000);
        self.add_builtin("make", "make", 1000);
        self.add_builtin("autoconf", "autoconf", 1000);
        self.add_builtin("automake", "automake", 1000);
        self.add_builtin("libtool", "libtool", 1000);
        self.add_builtin("pkg-config", "pkgconf", 1000);
        self.add_builtin("git", "git", 1000);
        self.add_builtin("subversion", "subversion", 1000);
        self.add_builtin("mercurial", "mercurial", 1000);
        self.add_builtin("gdb", "gdb", 1000);
        self.add_builtin("valgrind", "valgrind", 1000);
        self.add_builtin("binutils", "binutils", 1000);
        self.add_builtin("m4", "m4", 1000);
        self.add_builtin("gettext", "gettext", 1000);
        self.add_builtin("intltool", "intltool", 1000);
        self.add_builtin("bison", "bison", 1000);
        self.add_builtin("flex", "flex", 1000);
        self.add_builtin("nasm", "nasm", 1000);
        self.add_builtin("yasm", "yasm", 1000);
        self.add_builtin("libnss3", "nss", 1000);
        self.add_builtin("libxss1", "libxss", 1000);
        self.add_builtin("libasound2", "alsa-lib", 1000);
        self.add_builtin("libatk-bridge2.0-0", "at-spi2-core", 1000);
        self.add_builtin("libdrm2", "libdrm", 1000);
        self.add_builtin("libgbm1", "mesa", 900);
        self.add_builtin("libxcomposite1", "libxcomposite", 1000);
        self.add_builtin("libxdamage1", "libxdamage", 1000);
        self.add_builtin("libxfixes3", "libxfixes", 1000);
        self.add_builtin("libxrandr2", "libxrandr", 1000);
        self.add_builtin("libxkbcommon0", "libxkbcommon", 1000);
        self.add_builtin("libatspi2.0-0", "at-spi2-core", 900);
        self.add_builtin("libcups2", "cups", 900);
        self.add_builtin("libsdl2-2.0-0", "sdl2", 1000);
        self.add_builtin("libsdl2-image-2.0-0", "sdl2_image", 1000);
        self.add_builtin("libsdl2-ttf-2.0-0", "sdl2_ttf", 1000);
        self.add_builtin("libsdl2-net-2.0-0", "sdl2_net", 1000);
        self.add_builtin("libsdl2-gfx-1.0-0", "sdl2_gfx", 1000);
        self.add_builtin("libsdl1.2debian", "sdl", 1000);
        self.add_builtin("libglew2.2", "glew", 1000);
        proof {
            assert(self.spec_mappings().subrange(0, 440) =~= old(self).spec_mappings());
        }
    }

    /// One slice of the builtin translation table.
    #[verifier::spinoff_prover]
    #[verifier::rlimit(100)]
    fn load_builtin_part_12(&mut self)
        requires
            old(self).wf(),
            old(self).spec_mappings().len() == 480,
        ensures
            final(self).wf(),
            final(self).spec_mappings().len() == 510,
            final(self).spec_mappings().subrange(0, 480) == old(self).spec_mappings(),
            builtin_rows_12(final(self).spec_mappings()),
            final(self).spec_virtuals() == old(self).spec_virtuals(),
            final(self).spec_arch_packages() == old(self).spec_arch_packages(),
    {
        self.add_builtin("libglfw3", "glfw-x11", 1000);
        self.add_builtin("libopenscenegraph161", "openscenegraph", 1000);
        self.add_builtin("libenet7", "enet", 1000);
        self.add_builtin("libarchive13", "libarchive", 1000);
        self.add_builtin("liblz4-1", "lz4", 1000);
        self.add_builtin("libzstd1", "zstd", 1000);
        self.add_builtin("liblzo2-2", "lzo", 1000);
        self.add_builtin("libsnappy1v5", "snappy", 1000);
        self.add_builtin("libbrotli1", "brotli", 1000);
        self.add_builtin("mime-support", "mailcap", 900);
        self.add_builtin("shared-mime-info", "shared-mime-info", 1000);
        self.add_builtin("desktop-file-utils", "desktop-file-utils", 1000);
        self.add_builtin("hicolor-icon-theme", "hicolor-icon-theme", 1000);
        self.add_builtin("adwaita-icon-theme", "adwaita-icon-theme", 1000);
        self.add_builtin("gnome-icon-theme", "adwaita-icon-theme", 800);
        self.add_builtin("dconf-gsettings-backend", "dconf", 1000);
        self.add_builtin("libdconf1", "dconf", 900);
        self.add_builtin("gvfs", "gvfs", 1000);
        self.add_builtin("libgvfscommon0", "gvfs", 900);
        self.add_builtin("zenity", "zenity", 1000);
        self.add_builtin("libinput10", "libinput", 1000);
        self.add_builtin("libevdev2", "libevdev", 1000);
        self.add_builtin("libmtdev1", "mtdev", 1000);
        self.add_builtin("libwacom2", "libwacom", 1000);
        self.add_builtin("libgudev-1.0-0", "libgudev", 1000);
        self.add_builtin("libcolord2", "colord", 1000);
        self.add_builtin("colord", "colord", 1000);
        self.add_builtin("libcanberra0", "libcanberra", 1000);
        self.add_builtin("libcanberra-gtk3-0", "libcanberra", 900);
        self.add_builtin("sound-theme-freedesktop", "sound-theme-freedesktop", 1000);
        proof {
            assert(self.spec_mappings().subrange(0, 480) =~= old(self).spec_mappings());
        }
    }

    /// The builtin virtual capabilities and their providers.
    #[verifier::spinoff_prover]
    #[verifier::rlimit(100)]
    fn load_builtin_virtuals(&mut self)
        requires
            old(self).wf(),
            old(self).spec_virtuals().len() == 0,
        ensures
            final(self).wf(),
            final(self).spec_mappings() == old(self).spec_mappings(),
            final(self).spec_arch_packages() == old(self).spec_arch_packages(),
            final(self).spec_virtuals().len() == 17,
            builtin_virtual_rows(final(self).spec_virtuals()),
    {
        {
            let mut providers: Vec<String> = Vec::new();
            providers.push("dialog".to_owned());
            providers.push("whiptail".to_owned());
            self.add_virtual("debconf", providers);
        }
        {
            let mut providers: Vec<String> = Vec::new();
            providers.push("gawk".to_owned());
            providers.push("mawk".to_owned());
            providers.push("nawk".to_owned());
            self.add_virtual("awk", providers);
        }
        {
            let mut providers: Vec<String> = Vec::new();
            providers.push("gcc".to_owned());
            providers.push("clang".to_owned());
            self.add_virtual("c-compiler", providers);
        }
        {
            let mut providers: Vec<String> = Vec::new();
            providers.push("gcc".to_owned());
            providers.push("clang".to_owned());
            self.add_virtual("c++-compiler", providers);
        }
        {
            let mut providers: Vec<String> = Vec::new();
            providers.push("jre-openjdk".to_owned());
            providers.push("jre17-openjdk".to_owned());
            providers.push("jre11-openjdk".to_owned());
            providers.push("jre8-openjdk".to_owned());
            self.add_virtual("java-runtime", providers);
        }
        {
            let mut providers: Vec<String> = Vec::new();
            providers.push("jre-openjdk-headless".to_owned());
            providers.push("jre17-openjdk-headless".to_owned());
            providers.push("jre11-openjdk-headless".to_owned());
            providers.push("jre8-openjdk-headless".to_owned());
            self.add_virtual("java-runtime-headless", providers);
        }
        {
            let mut providers: Vec<String> = Vec::new();
            providers.push("jdk-openjdk".to_owned());
            providers.push("jdk17-openjdk".to_owned());
            providers.push("jdk11-openjdk".to_owned());
            providers.push("jdk8-openjdk".to_owned());
            self.add_virtual("java-sdk", providers);
        }
        {
            let mut providers: Vec<String> = Vec::new();
            providers.push("jdk-openjdk".to_owned());
            providers.push("jdk17-openjdk".to_owned());
            providers.push("jdk11-openjdk".to_owned());
            providers.push("jdk8-openjdk".to_owned());
            self.add_virtual("java-sdk-headless", providers);
        }
        {
            let mut providers: Vec<String> = Vec::new();
            providers.push("jre8-openjdk".to_owned());
            self.add_virtual("java8-runtime", providers);
        }
        {
            let mut providers: Vec<String> = Vec::new();
            providers.push("jre8-openjdk-headless".to_owned());
            self.add_virtual("java8-runtime-headless", providers);
        }
        {
            let mut providers: Vec<String> = Vec::new();
            providers.push("jre11-openjdk".to_owned());
            self.add_virtual("java11-runtime", providers);
        }
        {
            let mut providers: Vec<String> = Vec::new();
            providers.push("jre17-openjdk".to_owned());
            self.add_virtual("java17-runtime", providers);
        }
        {
            let mut providers: Vec<String> = Vec::new();
            providers.push("jre21-openjdk".to_owned());
            self.add_virtual("java21-runtime", providers);
        }
        {
            let mut providers: Vec<String> = Vec::new();
            providers.push("firefox".to_owned());
            providers.push("chromium".to_owned());
            providers.push("vivaldi".to_owned());
            self.add_virtual("www-browser", providers);
        }
        {
            let mut providers: Vec<String> = Vec::new();
            providers.push("alacritty".to_owned());
            providers.push("kitty".to_owned());
            providers.push("gnome-terminal".to_owned());
            providers.push("konsole".to_owned());
            self.add_virtual("x-terminal-emulator", providers);
        }
        {
            let mut providers: Vec<String> = Vec::new();
            providers.push("vim".to_owned());
            providers.push("nano".to_owned());
            providers.push("emacs".to_owned());
            self.add_virtual("editor", providers);
        }
        {
            let mut providers: Vec<String> = Vec::new();
            providers.push("postfix".to_owned());
            providers.push("exim".to_owned());
            self.add_virtual("mail-transport-agent", providers);
        }
    }

    /// A database holding exactly the builtin translations and virtual
    /// capabilities, as [`is_builtin_database`] states; cached repository
    /// data starts empty and is merged in by the caller.
    #[verifier::spinoff_prover]
    #[verifier::rlimit(100)]
    pub fn new() -> (r: PackageDatabase)
        ensures
            r.wf(),
            is_builtin_database(r),
    {
        let mut db = PackageDatabase {
            mappings: Vec::new(),
            virtual_packages: Vec::new(),
            arch_packages: Vec::new(),
            aur_packages: Vec::new(),
        };
        db.load_builtin_part_0();
        db.load_builtin_part_1();
        db.load_builtin_part_2();
        db.load_builtin_part_3();
        db.load_builtin_part_4();
        db.load_builtin_part_5();
        db.load_builtin_part_6();
        db.load_builtin_part_7();
        db.load_builtin_part_8();
        db.load_builtin_part_9();
        db.load_builtin_part_10();
        db.load_builtin_part_11();
        db.load_builtin_part_12();
        db.load_builtin_virtuals();
        db
    }
}

impl PackageDatabase {
    /// Looks a source-distribution name up, as [`spec_lookup`] states: the
    /// newest stored mapping wins; a known target package name maps to
    /// itself at full confidence; a package providing the name scores 900.
    #[verifier::loop_isolation(false)]
    pub fn lookup(&self, debian_name: &str) -> (r: crate::error::Result<Option<(String, u32)>>)
        requires
            self.wf(),
        ensures
            r matches Ok(v) && (match v {
                Some((n, c)) => spec_lookup(
                    self.spec_mappings(),
                    self.spec_arch_packages(),
                    debian_name@,
                ) matches Some(sv) && sv.0 == n@ && sv.1 == c && c <= 1000,
                None => spec_lookup(
                    self.spec_mappings(),
                    self.spec_arch_packages(),
                    debian_name@,
                ) is None,
            }),
    {
        // Newest mapping first.
        let mut i: usize = self.mappings.len();
        proof {
            assert(self.spec_mappings().subrange(0, i as int) =~= self.spec_mappings());
        }
        while i > 0
            invariant
                i <= self.mappings@.len(),
                self.wf(),
                find_mapping(self.spec_mappings(), debian_name@) == find_mapping(
                    self.spec_mappings().subrange(0, i as int),
                    debian_name@,
                ),
            decreases i,
        {
            i -= 1;
            let m = &self.mappings[i];
            proof {
                assert(self.spec_mappings().subrange(0, i + 1 as int).drop_last()
                    =~= self.spec_mappings().subrange(0, i as int));
                assert(self.spec_mappings().subrange(0, i + 1 as int).last()
                    == self.spec_mappings()[i as int]);
            }
            if str_eq(m.debian_name.as_str(), debian_name) {
                return Ok(Some((m.arch_name.clone(), m.confidence)));
            }
        }
        proof {
            assert(self.spec_mappings().subrange(0, 0) =~= Seq::<PackageMapping>::empty());
        }
        // The name may itself be a known target package.
        let mut j: usize = 0;
        proof {
            assert(self.spec_arch_packages().subrange(0, self.spec_arch_packages().len() as int)
                =~= self.spec_arch_packages());
        }
        while j < self.arch_packages.len()
            invariant
                j <= self.arch_packages@.len(),
                self.wf(),
                find_arch_pkg(self.spec_arch_packages(), debian_name@) == find_arch_pkg(
                    self.spec_arch_packages().subrange(
                        j as int,
                        self.spec_arch_packages().len() as int,
                    ),
                    debian_name@,
                ),
            decreases self.arch_packages@.len() - j,
        {
            let p = &self.arch_packages[j];
            proof {
                let tail = self.spec_arch_packages().subrange(
                    j as int,
                    self.spec_arch_packages().len() as int,
                );
                assert(tail.first() == self.spec_arch_packages()[j as int]);
                assert(tail.drop_first() =~= self.spec_arch_packages().subrange(
                    j + 1 as int,
                    self.spec_arch_packages().len() as int,
                ));
            }
            if str_eq(p.name.as_str(), debian_name) {
                proof {
                    assert(find_mapping(self.spec_mappings(), debian_name@) is None);
                    assert(find_arch_pkg(self.spec_arch_packages(), debian_name@) is Some);
                    assert(spec_lookup(
                        self.spec_mappings(),
                        self.spec_arch_packages(),
                        debian_name@,
                    ) == Some((debian_name@, 1000u32)));
                }
                return Ok(Some((debian_name.to_owned(), 1000)));
            }
            j += 1;
        }
        proof {
            assert(self.spec_arch_packages().subrange(
                self.spec_arch_packages().len() as int,
                self.spec_arch_packages().len() as int,
            ) =~= Seq::<ArchPackageInfo>::empty());
        }
        // A package providing the name.
        let mut k: usize = 0;
        proof {
            assert(self.spec_arch_packages().subrange(0, self.spec_arch_packages().len() as int)
                =~= self.spec_arch_packages());
        }
        while k < self.arch_packages.len()
            invariant
                k <= self.arch_packages@.len(),
                self.wf(),
                find_provider(self.spec_arch_packages(), debian_name@) == find_provider(
                    self.spec_arch_packages().subrange(
                        k as int,
                        self.spec_arch_packages().len() as int,
                    ),
                    debian_name@,
                ),
            decreases self.arch_packages@.len() - k,
        {
            let p = &self.arch_packages[k];
            proof {
                let tail = self.spec_arch_packages().subrange(
                    k as int,
                    self.spec_arch_packages().len() as int,
                );
                assert(tail.first() == self.spec_arch_packages()[k as int]);
                assert(tail.drop_first() =~= self.spec_arch_packages().subrange(
                    k + 1 as int,
                    self.spec_arch_packages().len() as int,
                ));
            }
            let mut h: usize = 0;
            let mut hit = false;
            while h < p.provides.len()
                invariant
                    h <= p.provides@.len(),
                    hit ==> provides_contains(p.provides@, debian_name@),
                    !hit ==> forall|x: int| 0 <= x < h ==> #[trigger] p.provides@[x]@
                        != debian_name@,
                decreases p.provides@.len() - h,
            {
                if str_eq(p.provides[h].as_str(), debian_name) {
                    hit = true;
                }
                h += 1;
            }
            if hit {
                proof {
                    assert(find_mapping(self.spec_mappings(), debian_name@) is None);
                    assert(find_arch_pkg(self.spec_arch_packages(), debian_name@) is None);
                    assert(find_provider(self.spec_arch_packages(), debian_name@) is Some);
                    assert(spec_lookup(
                        self.spec_mappings(),
                        self.spec_arch_packages(),
                        debian_name@,
                    ) matches Some(sv) && sv.1 == 900u32);
                }
                return Ok(Some((p.name.clone(), 900)));
            }
            proof {
                assert(!provides_contains(p.provides@, debian_name@));
            }
            k += 1;
        }
        proof {
            assert(self.spec_arch_packages().subrange(
                self.spec_arch_packages().len() as int,
                self.spec_arch_packages().len() as int,
            ) =~= Seq::<ArchPackageInfo>::empty());
        }
        Ok(None)
    }

    /// Whether the name is a known virtual capability.
    #[verifier::loop_isolation(false)]
    pub fn is_virtual(&self, name: &str) -> (r: crate::error::Result<bool>)
        ensures
            r matches Ok(b) && b == (find_virtual(self.spec_virtuals(), name@) is Some),
    {
        let mut i: usize = 0;
        proof {
            assert(self.spec_virtuals().subrange(0, self.spec_virtuals().len() as int)
                =~= self.spec_virtuals());
        }
        while i < self.virtual_packages.len()
            invariant
                i <= self.virtual_packages@.len(),
                find_virtual(self.spec_virtuals(), name@) == find_virtual(
                    self.spec_virtuals().subrange(i as int, self.spec_virtuals().len() as int),
                    name@,
                ),
            decreases self.virtual_packages@.len() - i,
        {
            proof {
                let tail = self.spec_virtuals().subrange(
                    i as int,
                    self.spec_virtuals().len() as int,
                );
                assert(tail.first() == self.spec_virtuals()[i as int]);
                assert(tail.drop_first() =~= self.spec_virtuals().subrange(
                    i + 1 as int,
                    self.spec_virtuals().len() as int,
                ));
            }
            if str_eq(self.virtual_packages[i].0.as_str(), name) {
                return Ok(true);
            }
            i += 1;
        }
        proof {
            assert(self.spec_virtuals().subrange(
                self.spec_virtuals().len() as int,
                self.spec_virtuals().len() as int,
            ) =~= Seq::<(String, Vec<String>)>::empty());
        }
        Ok(false)
    }

    /// The providers of a virtual capability, preferred first.
    #[verifier::loop_isolation(false)]
    pub fn get_virtual_providers(&self, name: &str) -> (r: Option<&Vec<String>>)
        ensures
            match r {
                Some(v) => find_virtual(self.spec_virtuals(), name@) matches Some(e) && e.1@
                    == v@,
                None => find_virtual(self.spec_virtuals(), name@) is None,
            },
    {
        let mut i: usize = 0;
        proof {
            assert(self.spec_virtuals().subrange(0, self.spec_virtuals().len() as int)
                =~= self.spec_virtuals());
        }
        while i < self.virtual_packages.len()
            invariant
                i <= self.virtual_packages@.len(),
                find_virtual(self.spec_virtuals(), name@) == find_virtual(
                    self.spec_virtuals().subrange(i as int, self.spec_virtuals().len() as int),
                    name@,
                ),
            decreases self.virtual_packages@.len() - i,
        {
            proof {
                let tail = self.spec_virtuals().subrange(
                    i as int,
                    self.spec_virtuals().len() as int,
                );
                assert(tail.first() == self.spec_virtuals()[i as int]);
                assert(tail.drop_first() =~= self.spec_virtuals().subrange(
                    i + 1 as int,
                    self.spec_virtuals().len() as int,
                ));
            }
            if str_eq(self.virtual_packages[i].0.as_str(), name) {
                return Some(&self.virtual_packages[i].1);
            }
            i += 1;
        }
        proof {
            assert(self.spec_virtuals().subrange(
                self.spec_virtuals().len() as int,
                self.spec_virtuals().len() as int,
            ) =~= Seq::<(String, Vec<String>)>::empty());
        }
        None
    }

    /// The names of all cached target packages, for fuzzy matching.
    pub fn get_arch_package_names(&self) -> (r: Vec<String>)
        ensures
            r@.len() == self.spec_arch_packages().len(),
            forall|i: int|
                0 <= i < r@.len() ==> #[trigger] r@[i]@ == self.spec_arch_packages()[i].name@,
    {
        let mut out: Vec<String> = Vec::new();
        let mut i: usize = 0;
        while i < self.arch_packages.len()
            invariant
                i <= self.arch_packages@.len(),
                out@.len() == i,
                forall|j: int|
                    0 <= j < i ==> #[trigger] out@[j]@ == self.spec_arch_packages()[j].name@,
            decreases self.arch_packages@.len() - i,
        {
            out.push(self.arch_packages[i].name.clone());
            i += 1;
        }
        out
    }

    /// Records a user-supplied mapping, overriding any earlier one with the
    /// same source name.
    pub fn add_mapping(&mut self, debian: &str, arch: &str, confidence: u32)
        requires
            old(self).wf(),
            confidence <= 1000,
        ensures
            final(self).wf(),
            final(self).spec_mappings() == old(self).spec_mappings().push(
                final(self).spec_mappings().last(),
            ),
            final(self).spec_mappings().last().debian_name@ == debian@,
            final(self).spec_mappings().last().arch_name@ == arch@,
            final(self).spec_mappings().last().confidence == confidence,
            final(self).spec_mappings().last().source == MappingSource::User,
            find_mapping(final(self).spec_mappings(), debian@) matches Some(m)
                && m.arch_name@ == arch@ && m.confidence == confidence && m.source
                == MappingSource::User,
            final(self).spec_arch_packages() == old(self).spec_arch_packages(),
            final(self).spec_virtuals() == old(self).spec_virtuals(),
    {
        self.mappings.push(PackageMapping {
            debian_name: debian.to_owned(),
            arch_name: arch.to_owned(),
            confidence,
            source: MappingSource::User,
        });
    }

    /// The stored mappings as plain rows, oldest first, for the caller to
    /// persist.
    pub fn export_mappings(&self) -> (r: Vec<(String, String, u32)>)
        ensures
            r@.len() == self.spec_mappings().len(),
            forall|i: int|
                0 <= i < r@.len() ==> (#[trigger] r@[i]).0@ == self.spec_mappings()[i].debian_name@
                    && r@[i].1@ == self.spec_mappings()[i].arch_name@ && r@[i].2
                    == self.spec_mappings()[i].confidence,
    {
        let mut out: Vec<(String, String, u32)> = Vec::new();
        let mut i: usize = 0;
        while i < self.mappings.len()
            invariant
                i <= self.mappings@.len(),
                out@.len() == i,
                forall|j: int|
                    0 <= j < i ==> (#[trigger] out@[j]).0@ == self.spec_mappings()[j].debian_name@
                        && out@[j].1@ == self.spec_mappings()[j].arch_name@ && out@[j].2
                        == self.spec_mappings()[j].confidence,
            decreases self.mappings@.len() - i,
        {
            let m = &self.mappings[i];
            out.push((m.debian_name.clone(), m.arch_name.clone(), m.confidence));
            i += 1;
        }
        out
    }

    /// Merges one cached target-repository package.
    pub fn add_arch_package(&mut self, info: ArchPackageInfo)
        requires
            old(self).wf(),
        ensures
            final(self).wf(),
            final(self).spec_arch_packages() == old(self).spec_arch_packages().push(info),
            final(self).spec_mappings() == old(self).spec_mappings(),
            final(self).spec_virtuals() == old(self).spec_virtuals(),
    {
        self.arch_packages.push(info);
    }

    /// Merges one cached user-repository package.
    pub fn add_aur_package(&mut self, info: AurPackageInfo)
        requires
            old(self).wf(),
        ensures
            final(self).wf(),
            final(self).spec_aur_packages() == old(self).spec_aur_packages().push(info),
            final(self).spec_mappings() == old(self).spec_mappings(),
            final(self).spec_arch_packages() == old(self).spec_arch_packages(),
            final(self).spec_virtuals() == old(self).spec_virtuals(),
    {
        self.aur_packages.push(info);
    }
}

/// Relies on `str`'s `PartialEq`: equality of the two texts.
#[verifier::external_body]
fn str_eq(a: &str, b: &str) -> (r: bool)
    ensures
        r == (a@ == b@),
{
    a == b
}

/// Whether a cached target package answers a lowercased search query: the
/// query occurs in its lowercased name or description.
pub open spec fn arch_search_hit(p: ArchPackageInfo, q: Seq<char>) -> bool {
    spec_contains(spec_lower(p.name@), q) || spec_contains(spec_lower(p.description@), q)
}

/// The first `limit` cached target packages that answer the query, in cache
/// order.
pub open spec fn arch_hits(ps: Seq<ArchPackageInfo>, q: Seq<char>, limit: int) -> Seq<
    ArchPackageInfo,
>
    decreases ps.len(),
{
    if limit <= 0 || ps.len() == 0 {
        Seq::empty()
    } else if arch_search_hit(ps.first(), q) {
        seq![ps.first()] + arch_hits(ps.drop_first(), q, limit - 1)
    } else {
        arch_hits(ps.drop_first(), q, limit)
    }
}

/// Whether a cached user-repository package answers a lowercased query.
pub open spec fn aur_search_hit(p: AurPackageInfo, q: Seq<char>) -> bool {
    spec_contains(spec_lower(p.name@), q) || spec_contains(spec_lower(p.description@), q)
}

/// The first `limit` cached user-repository packages that answer the query.
pub open spec fn aur_hits(ps: Seq<AurPackageInfo>, q: Seq<char>, limit: int) -> Seq<
    AurPackageInfo,
>
    decreases ps.len(),
{
    if limit <= 0 || ps.len() == 0 {
        Seq::empty()
    } else if aur_search_hit(ps.first(), q) {
        seq![ps.first()] + aur_hits(ps.drop_first(), q, limit - 1)
    } else {
        aur_hits(ps.drop_first(), q, limit)
    }
}

/// How one search result reports one cached target package: its fields, with
/// full relevance exactly on a whole-name match.
pub open spec fn reports_arch(r: SearchResult, p: ArchPackageInfo, q: Seq<char>) -> bool {
    &&& r.name@ == p.name@
    &&& r.description@ == p.description@
    &&& r.version@ == p.version@
    &&& r.score == (if spec_lower(p.name@) == q {
        1000u32
    } else {
        800u32
    })
}

/// How one search result reports one cached user-repository package.
pub open spec fn reports_aur(r: SearchResult, p: AurPackageInfo, q: Seq<char>) -> bool {
    &&& r.name@ == p.name@
    &&& r.description@ == p.description@
    &&& r.version@ == p.version@
    &&& r.score == (if spec_lower(p.name@) == q {
        1000u32
    } else {
        800u32
    })
}

impl PackageDatabase {
    /// Searches the cached target packages: the first `limit` entries whose
    /// lowercased name or description holds the lowercased query, whole-name
    /// matches reported first at full relevance and the rest after them, each
    /// group in cache order.
    #[verifier::loop_isolation(false)]
    pub fn search_arch(&self, query: &str, _fuzzy: bool, limit: usize) -> (r:
        crate::error::Result<Vec<SearchResult>>)
        ensures
            r matches Ok(v) && {
                let q = spec_lower(query@);
                let hits = arch_hits(self.spec_arch_packages(), q, limit as int);
                let ex = hits.filter(|p: ArchPackageInfo| spec_lower(p.name@) == q);
                let rest = hits.filter(|p: ArchPackageInfo| spec_lower(p.name@) != q);
                &&& v@.len() == ex.len() + rest.len()
                &&& forall|i: int| 0 <= i < ex.len() ==> reports_arch(#[trigger] v@[i], ex[i], q)
                &&& forall|i: int|
                    0 <= i < rest.len() ==> reports_arch(
                        #[trigger] v@[ex.len() + i],
                        rest[i],
                        q,
                    )
            },
    {
        let ghost q = spec_lower(query@);
        let ghost expred = |p: ArchPackageInfo| spec_lower(p.name@) == q;
        let ghost restpred = |p: ArchPackageInfo| spec_lower(p.name@) != q;
        let qchars = str_chars(query);
        let qv = to_lower(&qchars);
        let mut exacts: Vec<SearchResult> = Vec::new();
        let mut others: Vec<SearchResult> = Vec::new();
        let ghost mut hits_taken: Seq<ArchPackageInfo> = Seq::empty();
        let mut count: usize = 0;
        let mut i: usize = 0;
        let ghost full = self.spec_arch_packages();
        proof {
            assert(Seq::<ArchPackageInfo>::empty().filter(expred) =~= Seq::<
                ArchPackageInfo,
            >::empty());
            assert(Seq::<ArchPackageInfo>::empty().filter(restpred) =~= Seq::<
                ArchPackageInfo,
            >::empty());
            assert(full.subrange(0, full.len() as int) =~= full);
        }
        while i < self.arch_packages.len() && count < limit
            invariant
                i <= full.len(),
                count == hits_taken.len(),
                count <= limit,
                arch_hits(full, q, limit as int) =~= hits_taken + arch_hits(
                    full.subrange(i as int, full.len() as int),
                    q,
                    limit - count,
                ),
                exacts@.len() == hits_taken.filter(expred).len(),
                forall|m: int|
                    0 <= m < exacts@.len() ==> reports_arch(
                        #[trigger] exacts@[m],
                        hits_taken.filter(expred)[m],
                        q,
                    ),
                others@.len() == hits_taken.filter(restpred).len(),
                forall|m: int|
                    0 <= m < others@.len() ==> reports_arch(
                        #[trigger] others@[m],
                        hits_taken.filter(restpred)[m],
                        q,
                    ),
            decreases full.len() - i,
        {
            let p = &self.arch_packages[i];
            proof {
                let tail = full.subrange(i as int, full.len() as int);
                assert(tail.first() == full[i as int]);
                assert(tail.drop_first() =~= full.subrange(i + 1 as int, full.len() as int));
            }
            let nchars = str_chars(p.name.as_str());
            let namelow = to_lower(&nchars);
            let dchars = str_chars(p.description.as_str());
            let desclow = to_lower(&dchars);
            let hit = contains_chars(&namelow, &qv) || contains_chars(&desclow, &qv);
            if hit {
                let exact = chars_eq(&namelow, &qv);
                let sr = SearchResult {
                    name: p.name.clone(),
                    description: p.description.clone(),
                    version: p.version.clone(),
                    score: if exact {
                        1000
                    } else {
                        800
                    },
                };
                let ghost taken1 = hits_taken.push(full[i as int]);
                proof {
                    assert(taken1.drop_last() =~= hits_taken);
                    reveal_with_fuel(Seq::filter, 2);
                }
                if exact {
                    exacts.push(sr);
                } else {
                    others.push(sr);
                }
                proof {
                    hits_taken = taken1;
                }
                count += 1;
            }
            i += 1;
        }
        proof {
            if count == limit {
                assert(arch_hits(full.subrange(i as int, full.len() as int), q, 0) =~= Seq::<
                    ArchPackageInfo,
                >::empty());
            } else {
                assert(full.subrange(full.len() as int, full.len() as int) =~= Seq::<
                    ArchPackageInfo,
                >::empty());
            }
            assert(arch_hits(full, q, limit as int) =~= hits_taken);
        }
        let ghost ex_final = hits_taken.filter(expred);
        let ghost rest_final = hits_taken.filter(restpred);
        let ghost exacts_old = exacts@;
        let mut out = exacts;
        let mut others = others;
        out.append(&mut others);
        proof {
            assert(out@.len() == ex_final.len() + rest_final.len());
            assert(forall|m: int|
                0 <= m < ex_final.len() ==> reports_arch(#[trigger] out@[m], ex_final[m], q));
            assert(forall|m: int|
                0 <= m < rest_final.len() ==> reports_arch(
                    #[trigger] out@[ex_final.len() + m],
                    rest_final[m],
                    q,
                ));
        }
        Ok(out)
    }

    /// Searches the cached user-repository packages, with the same shape as
    /// the target-package search.
    #[verifier::loop_isolation(false)]
    pub fn search_aur(&self, query: &str, _fuzzy: bool, limit: usize) -> (r: crate::error::Result<
        Vec<SearchResult>,
    >)
        ensures
            r matches Ok(v) && {
                let q = spec_lower(query@);
                let hits = aur_hits(self.spec_aur_packages(), q, limit as int);
                let ex = hits.filter(|p: AurPackageInfo| spec_lower(p.name@) == q);
                let rest = hits.filter(|p: AurPackageInfo| spec_lower(p.name@) != q);
                &&& v@.len() == ex.len() + rest.len()
                &&& forall|i: int| 0 <= i < ex.len() ==> reports_aur(#[trigger] v@[i], ex[i], q)
                &&& forall|i: int|
                    0 <= i < rest.len() ==> reports_aur(#[trigger] v@[ex.len() + i], rest[i], q)
            },
    {
        let ghost q = spec_lower(query@);
        let ghost expred = |p: AurPackageInfo| spec_lower(p.name@) == q;
        let ghost restpred = |p: AurPackageInfo| spec_lower(p.name@) != q;
        let qchars = str_chars(query);
        let qv = to_lower(&qchars);
        let mut exacts: Vec<SearchResult> = Vec::new();
        let mut others: Vec<SearchResult> = Vec::new();
        let ghost mut hits_taken: Seq<AurPackageInfo> = Seq::empty();
        let mut count: usize = 0;
        let mut i: usize = 0;
        let ghost full = self.spec_aur_packages();
        proof {
            assert(Seq::<AurPackageInfo>::empty().filter(expred) =~= Seq::<
                AurPackageInfo,
            >::empty());
            assert(Seq::<AurPackageInfo>::empty().filter(restpred) =~= Seq::<
                AurPackageInfo,
            >::empty());
            assert(full.subrange(0, full.len() as int) =~= full);
        }
        while i < self.aur_packages.len() && count < limit
            invariant
                i <= full.len(),
                count == hits_taken.len(),
                count <= limit,
                aur_hits(full, q, limit as int) =~= hits_taken + aur_hits(
                    full.subrange(i as int, full.len() as int),
                    q,
                    limit - count,
                ),
                exacts@.len() == hits_taken.filter(expred).len(),
                forall|m: int|
                    0 <= m < exacts@.len() ==> reports_aur(
                        #[trigger] exacts@[m],
                        hits_taken.filter(expred)[m],
                        q,
                    ),
                others@.len() == hits_taken.filter(restpred).len(),
                forall|m: int|
                    0 <= m < others@.len() ==> reports_aur(
                        #[trigger] others@[m],
                        hits_taken.filter(restpred)[m],
                        q,
                    ),
            decreases full.len() - i,
        {
            let p = &self.aur_packages[i];
            proof {
                let tail = full.subrange(i as int, full.len() as int);
                assert(tail.first() == full[i as int]);
                assert(tail.drop_first() =~= full.subrange(i + 1 as int, full.len() as int));
            }
            let nchars = str_chars(p.name.as_str());
            let namelow = to_lower(&nchars);
            let dchars = str_chars(p.description.as_str());
            let desclow = to_lower(&dchars);
            let hit = contains_chars(&namelow, &qv) || contains_chars(&desclow, &qv);
            if hit {
                let exact = chars_eq(&namelow, &qv);
                let sr = SearchResult {
                    name: p.name.clone(),
                    description: p.description.clone(),
                    version: p.version.clone(),
                    score: if exact {
                        1000
                    } else {
                        800
                    },
                };
                let ghost taken1 = hits_taken.push(full[i as int]);
                proof {
                    assert(taken1.drop_last() =~= hits_taken);
                    reveal_with_fuel(Seq::filter, 2);
                }
                if exact {
                    exacts.push(sr);
                } else {
                    others.push(sr);
                }
                proof {
                    hits_taken = taken1;
                }
                count += 1;
            }
            i += 1;
        }
        proof {
            if count == limit {
                assert(aur_hits(full.subrange(i as int, full.len() as int), q, 0) =~= Seq::<
                    AurPackageInfo,
                >::empty());
            } else {
                assert(full.subrange(full.len() as int, full.len() as int) =~= Seq::<
                    AurPackageInfo,
                >::empty());
            }
            assert(aur_hits(full, q, limit as int) =~= hits_taken);
        }
        let ghost ex_final = hits_taken.filter(expred);
        let ghost rest_final = hits_taken.filter(restpred);
        let mut out = exacts;
        let mut others = others;
        out.append(&mut others);
        proof {
            assert(out@.len() == ex_final.len() + rest_final.len());
            assert(forall|m: int|
                0 <= m < ex_final.len() ==> reports_aur(#[trigger] out@[m], ex_final[m], q));
            assert(forall|m: int|
                0 <= m < rest_final.len() ==> reports_aur(
                    #[trigger] out@[ex_final.len() + m],
                    rest_final[m],
                    q,
                ));
        }
        Ok(out)
    }
}

} // verus!
