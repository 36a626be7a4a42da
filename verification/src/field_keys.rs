//! The keys that tell the backend's questions apart.
use vstd::prelude::*;

verus! {

/// How much of a new artist to monitor.
pub const MONITOR: &'static str = "lidarr:monitor";

/// Which albums of an artist to monitor.
pub const ALBUM: &'static str = "lidarr:album";

} // verus!
