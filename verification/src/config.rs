use vstd::prelude::*;

verus! {

/// Where the marker that records the installed version is kept.
pub const MARKER_PATH: &'static str = "/opt/neovim/current_version";

/// Where the artifact is installed.
pub const ARTIFACT_PATH: &'static str = "/opt/neovim/nvim.appimage";

/// The feed that describes the latest release.
pub const FEED_URL: &'static str = "https://api.github.com/repos/neovim/neovim/releases/latest";

/// The header that every request to the feed has to carry; the feed refuses
/// requests without it.
pub const USER_AGENT_HEADER: &'static str = "User-Agent";

/// The value of that header. Any value will do.
pub const USER_AGENT: &'static str = "request";

} // verus!
