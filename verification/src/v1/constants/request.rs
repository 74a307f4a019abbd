//! Where requests go when nothing else is asked for.

use vstd::prelude::*;

verus! {

/// The endpoint that serves the API.
pub const DEFAULT_BASE_URL: &'static str = "https://generativelanguage.googleapis.com";

/// The version of the API that is asked for by default.
pub const DEFAULT_API_VERSION: &'static str = "v1beta";

} // verus!
