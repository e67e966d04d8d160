//! What the user asked for, and what it resolves to.
pub mod build_options;
pub mod bundle_options;
pub mod executable_options;
pub mod resolved_options;

pub use build_options::{parse_key_val, BuilderOptions, Platform, Target};
pub use bundle_options::{BundleOptions, Executable};
pub use executable_options::ExecutableOptions;
pub use resolved_options::{AppInfo, BuilderInfo, Environment, ResolvedOptions, Version};
