//! The library's identity: its name, version, and the banner the command
//! prints.

use vstd::prelude::*;

verus! {

/// The library's version.
pub const VERSION: &'static str = "0.1.0";

/// The library's name.
pub const NAME: &'static str = "rexeb";

/// The banner shown before a conversion.
pub const BANNER: &'static str = "
  +=======================================+
  |                                       |
  |  r e x e b  -  package  converter     |
  |  .deb in   ->  .pkg.tar out           |
  |                                       |
  +=======================================+
";

} // verus!
