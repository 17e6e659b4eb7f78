//! Release resolution for installable toolchain components.
//!
//! Given a component identifier, a target platform and optionally a pinned
//! version, this library names the remote archive to download, the local
//! archive file, and decides, from what a release index answered, which version
//! is the newest. It performs no network traffic itself: the caller sends the
//! requests that the library describes and reports back what came of them.

pub mod distribution;
pub mod error;
pub mod text;
pub mod version;

pub use distribution::github::GithubRelease;
pub use distribution::platform::Platform;
pub use error::RzupError;
pub use version::Version;
