//! The filesystem existence probe.

use vstd::prelude::*;

verus! {

/// Reports whether a filesystem entry — file, directory or anything else
/// addressable — exists at `path` as the host filesystem resolves it right
/// now. Never signals an error: an absent entry, a path the process may not
/// traverse and a malformed path all come back as `false`.
///
/// Relies on `std::path::Path::exists`, which its documentation says returns
/// `true` only when metadata could be fetched at the path and `false` on any
/// error. The answer depends on the state of the disk at call time, so no
/// contract can pin it down.
#[verifier::external_body]
pub fn file_exists(path: &str) -> bool {
    std::path::Path::new(path).exists()
}

} // verus!
