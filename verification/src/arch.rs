//! Target architecture names and their Debian counterparts.

use vstd::prelude::*;

use crate::error::RexebError;
use crate::strutil::{chars_eq_str, chars_to_string, push_lit, spec_lower, str_chars, to_lower};

verus! {

/// A CPU architecture tag as Arch Linux names it.
#[derive(Debug, Clone, Copy, PartialEq, Eq, Structural)]
pub enum Architecture {
    /// x86_64 / amd64
    X86_64,
    /// i686 / i386
    I686,
    /// aarch64 / arm64
    Aarch64,
    /// armv7h / armhf
    Armv7h,
    /// Architecture-independent
    Any,
}

impl Architecture {
    /// The Arch Linux name of this architecture.
    pub fn to_arch_name(&self) -> (r: &'static str)
        ensures
            r@ == self.spec_arch_name(),
    {
        proof {
            reveal_strlit("x86_64");
            reveal_strlit("i686");
            reveal_strlit("aarch64");
            reveal_strlit("armv7h");
            reveal_strlit("any");
        }
        match self {
            Self::X86_64 => "x86_64",
            Self::I686 => "i686",
            Self::Aarch64 => "aarch64",
            Self::Armv7h => "armv7h",
            Self::Any => "any",
        }
    }

    /// What `to_arch_name` returns.
    pub open spec fn spec_arch_name(self) -> Seq<char> {
        match self {
            Self::X86_64 => "x86_64"@,
            Self::I686 => "i686"@,
            Self::Aarch64 => "aarch64"@,
            Self::Armv7h => "armv7h"@,
            Self::Any => "any"@,
        }
    }

    /// The Debian name of this architecture.
    pub fn to_debian_name(&self) -> (r: &'static str)
        ensures
            r@ == self.spec_debian_name(),
    {
        proof {
            reveal_strlit("amd64");
            reveal_strlit("i386");
            reveal_strlit("arm64");
            reveal_strlit("armhf");
            reveal_strlit("all");
        }
        match self {
            Self::X86_64 => "amd64",
            Self::I686 => "i386",
            Self::Aarch64 => "arm64",
            Self::Armv7h => "armhf",
            Self::Any => "all",
        }
    }

    /// What `to_debian_name` returns.
    pub open spec fn spec_debian_name(self) -> Seq<char> {
        match self {
            Self::X86_64 => "amd64"@,
            Self::I686 => "i386"@,
            Self::Aarch64 => "arm64"@,
            Self::Armv7h => "armhf"@,
            Self::Any => "all"@,
        }
    }

    /// Whether this is a 64-bit architecture.
    pub fn is_64bit(&self) -> (r: bool)
        ensures
            r == (self is X86_64 || self is Aarch64),
    {
        matches!(self, Self::X86_64 | Self::Aarch64)
    }
}

impl Architecture {
    /// What `from_debian` returns for a lowercased tag.
    pub open spec fn spec_from_debian(s: Seq<char>) -> Option<Architecture> {
        let l = spec_lower(s);
        if l == "amd64"@ || l == "x86_64"@ {
            Some(Architecture::X86_64)
        } else if l == "i386"@ || l == "i686"@ {
            Some(Architecture::I686)
        } else if l == "arm64"@ || l == "aarch64"@ {
            Some(Architecture::Aarch64)
        } else if l == "armhf"@ || l == "armv7l"@ {
            Some(Architecture::Armv7h)
        } else if l == "all"@ || l == "any"@ {
            Some(Architecture::Any)
        } else {
            None
        }
    }

    /// Reads a Debian architecture tag, ignoring case; an unknown tag is an
    /// error.
    pub fn from_debian(arch: &str) -> (r: crate::error::Result<Architecture>)
        ensures
            match r {
                Ok(a) => Self::spec_from_debian(arch@) == Some(a),
                Err(e) => Self::spec_from_debian(arch@) is None && (e
                    matches RexebError::InvalidArchitecture(m) && m@ == "Unknown Debian architecture: "@
                    + arch@),
            },
    {
        let chars = str_chars(arch);
        let l = to_lower(&chars);
        if chars_eq_str(&l, "amd64") || chars_eq_str(&l, "x86_64") {
            Ok(Self::X86_64)
        } else if chars_eq_str(&l, "i386") || chars_eq_str(&l, "i686") {
            Ok(Self::I686)
        } else if chars_eq_str(&l, "arm64") || chars_eq_str(&l, "aarch64") {
            Ok(Self::Aarch64)
        } else if chars_eq_str(&l, "armhf") || chars_eq_str(&l, "armv7l") {
            Ok(Self::Armv7h)
        } else if chars_eq_str(&l, "all") || chars_eq_str(&l, "any") {
            Ok(Self::Any)
        } else {
            let mut msg = str_chars("Unknown Debian architecture: ");
            push_lit(&mut msg, arch);
            Err(RexebError::InvalidArchitecture(chars_to_string(&msg)))
        }
    }
}

} // verus!
