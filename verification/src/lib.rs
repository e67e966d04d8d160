//! Packaging of a compiled application and its native libraries into a
//! platform-native bundle: the decisions, names and layouts, stated as contracts.
pub mod bundlers;
pub mod error;
pub mod libraries;
pub mod options;
pub mod paths;
pub mod pipeline;
pub mod rpath;
pub mod steps;
pub mod templates;
pub mod text;
pub mod tools;

pub use bundlers::android::AndroidBundler;
pub use bundlers::linux::LinuxBundler;
pub use bundlers::mac::MacBundler;
pub use bundlers::windows::WindowsBundler;
pub use bundlers::{Bundler, Inventory};
pub use error::Error;
pub use libraries::{LibraryRequest, ThirdPartyLibrary, VersionedThirdPartyLibraries};
pub use options::{
    parse_key_val, AppInfo, BuilderInfo, BuilderOptions, BundleOptions, Environment, Executable,
    ExecutableOptions, Platform, ResolvedOptions, Target, Version,
};
pub use steps::Step;
