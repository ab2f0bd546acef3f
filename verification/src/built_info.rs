//! The name and version under which this package is built.

use vstd::prelude::*;

verus! {

pub const PKG_NAME: &'static str = "netcheck";

pub const PKG_VERSION: &'static str = "0.0.1";

} // verus!
