//! Third-party libraries: which exist, what is asked of them, and in what order
//! they are built.
pub mod cairo_library;
pub mod graph;
pub mod third_party;

pub use cairo_library::CairoLibrary;
pub use graph::{BuildStep, Library, LibraryLocation, LibraryRegistry, TarArchive};
pub use third_party::{LibraryRequest, ThirdPartyLibrary, VersionedThirdPartyLibraries};

use vstd::prelude::*;

verus! {

/// The library that the builder is tested with: a directory of sources with
/// nothing that it depends on.
pub fn test_library() -> (library: Library)
    ensures
        library.name@ == "TestLibrary"@,
        library.location matches LibraryLocation::Path { path } && path@
            == "vm-client-test-library"@,
        library.dependencies@.len() == 0,
{
    Library {
        name: crate::text::owned("TestLibrary"),
        location: LibraryLocation::Path { path: crate::text::owned("vm-client-test-library") },
        dependencies: Vec::new(),
    }
}

} // verus!
