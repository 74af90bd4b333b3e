//! Resolution of compilation target triples into the names a runtime package
//! ecosystem uses for them and into the CI configuration needed to build them.

pub mod arch;
pub mod detail;
pub mod error;
pub mod platform;
pub mod registry;
pub mod target;
pub mod text;
pub mod workflow;

pub use crate::arch::NodeArch;
pub use crate::detail::TargetDetail;
pub use crate::error::ResolveError;
pub use crate::platform::NodePlatform;
pub use crate::registry::{AVAILABLE_TARGETS, DEFAULT_TARGETS};
pub use crate::target::Target;
pub use crate::workflow::GithubWorkflowConfig;
