//! The third-party libraries that a bundle can include, and the versions asked
//! of them.
use std::collections::HashMap;
use vstd::prelude::*;
use vstd::std_specs::hash::*;
use crate::error::Error;
use crate::options::build_options::Target;
use crate::text::{
    ascii_lower, eq_ignore_ascii_case, matches_ignoring_ascii_case, opt_text, owned,
};

verus! {

broadcast use vstd::std_specs::hash::group_hash_axioms;

/// A third-party native library that can be compiled and put into the bundle.
#[derive(Copy, Clone, Debug, PartialEq, Eq, Hash, Structural)]
pub enum ThirdPartyLibrary {
    Git,
    Crypto,
    Ssl,
    Sdl2,
    Boxer,
    Freetype,
    Cairo,
    Skia,
    Glutin,
    Gleam,
    Winit,
    Winit30,
    Pixels,
    Clipboard,
    Filewatcher,
    Process,
    WebView,
    TestLibrary,
}

impl ThirdPartyLibrary {
    /// The name by which the library is selected on the command line.
    pub open spec fn name(self) -> Seq<char> {
        match self {
            ThirdPartyLibrary::Git => "git"@,
            ThirdPartyLibrary::Crypto => "crypto"@,
            ThirdPartyLibrary::Ssl => "ssl"@,
            ThirdPartyLibrary::Sdl2 => "sdl2"@,
            ThirdPartyLibrary::Boxer => "boxer"@,
            ThirdPartyLibrary::Freetype => "freetype"@,
            ThirdPartyLibrary::Cairo => "cairo"@,
            ThirdPartyLibrary::Skia => "skia"@,
            ThirdPartyLibrary::Glutin => "glutin"@,
            ThirdPartyLibrary::Gleam => "gleam"@,
            ThirdPartyLibrary::Winit => "winit"@,
            ThirdPartyLibrary::Winit30 => "winit30"@,
            ThirdPartyLibrary::Pixels => "pixels"@,
            ThirdPartyLibrary::Clipboard => "clipboard"@,
            ThirdPartyLibrary::Filewatcher => "filewatcher"@,
            ThirdPartyLibrary::Process => "process"@,
            ThirdPartyLibrary::WebView => "webview"@,
            ThirdPartyLibrary::TestLibrary => "test-library"@,
        }
    }

    /// The place of the library in the list of all libraries.
    pub open spec fn position(self) -> nat {
        match self {
            ThirdPartyLibrary::Git => 0,
            ThirdPartyLibrary::Crypto => 1,
            ThirdPartyLibrary::Ssl => 2,
            ThirdPartyLibrary::Sdl2 => 3,
            ThirdPartyLibrary::Boxer => 4,
            ThirdPartyLibrary::Freetype => 5,
            ThirdPartyLibrary::Cairo => 6,
            ThirdPartyLibrary::Skia => 7,
            ThirdPartyLibrary::Glutin => 8,
            ThirdPartyLibrary::Gleam => 9,
            ThirdPartyLibrary::Winit => 10,
            ThirdPartyLibrary::Winit30 => 11,
            ThirdPartyLibrary::Pixels => 12,
            ThirdPartyLibrary::Clipboard => 13,
            ThirdPartyLibrary::Filewatcher => 14,
            ThirdPartyLibrary::Process => 15,
            ThirdPartyLibrary::WebView => 16,
            ThirdPartyLibrary::TestLibrary => 17,
        }
    }

    /// All libraries, in the order in which they are declared.
    pub open spec fn every() -> Seq<ThirdPartyLibrary> {
        seq![
            ThirdPartyLibrary::Git,
            ThirdPartyLibrary::Crypto,
            ThirdPartyLibrary::Ssl,
            ThirdPartyLibrary::Sdl2,
            ThirdPartyLibrary::Boxer,
            ThirdPartyLibrary::Freetype,
            ThirdPartyLibrary::Cairo,
            ThirdPartyLibrary::Skia,
            ThirdPartyLibrary::Glutin,
            ThirdPartyLibrary::Gleam,
            ThirdPartyLibrary::Winit,
            ThirdPartyLibrary::Winit30,
            ThirdPartyLibrary::Pixels,
            ThirdPartyLibrary::Clipboard,
            ThirdPartyLibrary::Filewatcher,
            ThirdPartyLibrary::Process,
            ThirdPartyLibrary::WebView,
            ThirdPartyLibrary::TestLibrary,
        ]
    }

    /// `text` names this library: it matches the library's name, letters
    /// compared without regard to ASCII case, and the name of no library
    /// declared before it.
    pub open spec fn is_named_by(self, text: Seq<char>) -> bool {
        &&& matches_ignoring_ascii_case(self.name(), text)
        &&& forall|other: ThirdPartyLibrary|
            other.position() < self.position() ==> !matches_ignoring_ascii_case(
                #[trigger] other.name(),
                text,
            )
    }

    /// `text` names no library.
    pub open spec fn names_none(text: Seq<char>) -> bool {
        forall|library: ThirdPartyLibrary|
            !matches_ignoring_ascii_case(#[trigger] library.name(), text)
    }

    /// Every library stands in `every()` at its own position.
    pub proof fn lemma_every_is_complete(library: ThirdPartyLibrary)
        ensures
            Self::every().len() == 18,
            library.position() < 18,
            Self::every()[library.position() as int] == library,
    {
    }

    /// The name of a library has at least three characters.
    proof fn lemma_name_begins(library: ThirdPartyLibrary) -> (begin: (char, char, nat))
        ensures
            library.name().len() == begin.2,
            begin.2 >= 3,
            library.name()[0] == begin.0,
            library.name()[1] == begin.1,
            begin.0 == ascii_lower(begin.0),
            begin.1 == ascii_lower(begin.1),
            begin == match library {
                ThirdPartyLibrary::Git => ('g', 'i', 3nat),
                ThirdPartyLibrary::Crypto => ('c', 'r', 6nat),
                ThirdPartyLibrary::Ssl => ('s', 's', 3nat),
                ThirdPartyLibrary::Sdl2 => ('s', 'd', 4nat),
                ThirdPartyLibrary::Boxer => ('b', 'o', 5nat),
                ThirdPartyLibrary::Freetype => ('f', 'r', 8nat),
                ThirdPartyLibrary::Cairo => ('c', 'a', 5nat),
                ThirdPartyLibrary::Skia => ('s', 'k', 4nat),
                ThirdPartyLibrary::Glutin => ('g', 'l', 6nat),
                ThirdPartyLibrary::Gleam => ('g', 'l', 5nat),
                ThirdPartyLibrary::Winit => ('w', 'i', 5nat),
                ThirdPartyLibrary::Winit30 => ('w', 'i', 7nat),
                ThirdPartyLibrary::Pixels => ('p', 'i', 6nat),
                ThirdPartyLibrary::Clipboard => ('c', 'l', 9nat),
                ThirdPartyLibrary::Filewatcher => ('f', 'i', 11nat),
                ThirdPartyLibrary::Process => ('p', 'r', 7nat),
                ThirdPartyLibrary::WebView => ('w', 'e', 7nat),
                ThirdPartyLibrary::TestLibrary => ('t', 'e', 12nat),
            },
    {
        reveal_strlit("git");
        reveal_strlit("crypto");
        reveal_strlit("ssl");
        reveal_strlit("sdl2");
        reveal_strlit("boxer");
        reveal_strlit("freetype");
        reveal_strlit("cairo");
        reveal_strlit("skia");
        reveal_strlit("glutin");
        reveal_strlit("gleam");
        reveal_strlit("winit");
        reveal_strlit("winit30");
        reveal_strlit("pixels");
        reveal_strlit("clipboard");
        reveal_strlit("filewatcher");
        reveal_strlit("process");
        reveal_strlit("webview");
        reveal_strlit("test-library");
        match library {
            ThirdPartyLibrary::Git => ('g', 'i', 3nat),
            ThirdPartyLibrary::Crypto => ('c', 'r', 6nat),
            ThirdPartyLibrary::Ssl => ('s', 's', 3nat),
            ThirdPartyLibrary::Sdl2 => ('s', 'd', 4nat),
            ThirdPartyLibrary::Boxer => ('b', 'o', 5nat),
            ThirdPartyLibrary::Freetype => ('f', 'r', 8nat),
            ThirdPartyLibrary::Cairo => ('c', 'a', 5nat),
            ThirdPartyLibrary::Skia => ('s', 'k', 4nat),
            ThirdPartyLibrary::Glutin => ('g', 'l', 6nat),
            ThirdPartyLibrary::Gleam => ('g', 'l', 5nat),
            ThirdPartyLibrary::Winit => ('w', 'i', 5nat),
            ThirdPartyLibrary::Winit30 => ('w', 'i', 7nat),
            ThirdPartyLibrary::Pixels => ('p', 'i', 6nat),
            ThirdPartyLibrary::Clipboard => ('c', 'l', 9nat),
            ThirdPartyLibrary::Filewatcher => ('f', 'i', 11nat),
            ThirdPartyLibrary::Process => ('p', 'r', 7nat),
            ThirdPartyLibrary::WebView => ('w', 'e', 7nat),
            ThirdPartyLibrary::TestLibrary => ('t', 'e', 12nat),
        }
    }

    /// No two libraries have names that match: a name names its own library
    /// and no other.
    pub proof fn lemma_names_differ(first: ThirdPartyLibrary, second: ThirdPartyLibrary)
        requires
            matches_ignoring_ascii_case(first.name(), second.name()),
        ensures
            first == second,
    {
        let a = Self::lemma_name_begins(first);
        let b = Self::lemma_name_begins(second);
        assert(ascii_lower(first.name()[0]) == ascii_lower(second.name()[0]));
        assert(ascii_lower(first.name()[1]) == ascii_lower(second.name()[1]));
        assert(a == b);
    }

    /// Reading the name of a library gives the library back.
    pub proof fn lemma_name_is_read_back(library: ThirdPartyLibrary, read: ThirdPartyLibrary)
        requires
            read.is_named_by(library.name()),
        ensures
            read == library,
            library.is_named_by(library.name()),
    {
        Self::lemma_names_differ(read, library);
        assert forall|other: ThirdPartyLibrary|
            other.position() < library.position() implies !matches_ignoring_ascii_case(
            #[trigger] other.name(),
            library.name(),
        ) by {
            if matches_ignoring_ascii_case(other.name(), library.name()) {
                Self::lemma_names_differ(other, library);
            }
        }
    }

    /// All libraries, in the order in which they are declared.
    pub fn value_variants() -> (all: Vec<ThirdPartyLibrary>)
        ensures
            all@ == Self::every(),
    {
        let mut all: Vec<ThirdPartyLibrary> = Vec::new();
        all.push(ThirdPartyLibrary::Git);
        all.push(ThirdPartyLibrary::Crypto);
        all.push(ThirdPartyLibrary::Ssl);
        all.push(ThirdPartyLibrary::Sdl2);
        all.push(ThirdPartyLibrary::Boxer);
        all.push(ThirdPartyLibrary::Freetype);
        all.push(ThirdPartyLibrary::Cairo);
        all.push(ThirdPartyLibrary::Skia);
        all.push(ThirdPartyLibrary::Glutin);
        all.push(ThirdPartyLibrary::Gleam);
        all.push(ThirdPartyLibrary::Winit);
        all.push(ThirdPartyLibrary::Winit30);
        all.push(ThirdPartyLibrary::Pixels);
        all.push(ThirdPartyLibrary::Clipboard);
        all.push(ThirdPartyLibrary::Filewatcher);
        all.push(ThirdPartyLibrary::Process);
        all.push(ThirdPartyLibrary::WebView);
        all.push(ThirdPartyLibrary::TestLibrary);
        assert(all@ =~= Self::every());
        all
    }

    /// The key under which the versions of the library are kept.
    pub fn index(&self) -> (i: u64)
        ensures
            i == self.position(),
    {
        match self {
            ThirdPartyLibrary::Git => 0,
            ThirdPartyLibrary::Crypto => 1,
            ThirdPartyLibrary::Ssl => 2,
            ThirdPartyLibrary::Sdl2 => 3,
            ThirdPartyLibrary::Boxer => 4,
            ThirdPartyLibrary::Freetype => 5,
            ThirdPartyLibrary::Cairo => 6,
            ThirdPartyLibrary::Skia => 7,
            ThirdPartyLibrary::Glutin => 8,
            ThirdPartyLibrary::Gleam => 9,
            ThirdPartyLibrary::Winit => 10,
            ThirdPartyLibrary::Winit30 => 11,
            ThirdPartyLibrary::Pixels => 12,
            ThirdPartyLibrary::Clipboard => 13,
            ThirdPartyLibrary::Filewatcher => 14,
            ThirdPartyLibrary::Process => 15,
            ThirdPartyLibrary::WebView => 16,
            ThirdPartyLibrary::TestLibrary => 17,
        }
    }

    /// The name by which the library is selected on the command line.
    pub fn as_str(&self) -> (name: &'static str)
        ensures
            name@ == self.name(),
    {
        match self {
            ThirdPartyLibrary::Git => "git",
            ThirdPartyLibrary::Crypto => "crypto",
            ThirdPartyLibrary::Ssl => "ssl",
            ThirdPartyLibrary::Sdl2 => "sdl2",
            ThirdPartyLibrary::Boxer => "boxer",
            ThirdPartyLibrary::Freetype => "freetype",
            ThirdPartyLibrary::Cairo => "cairo",
            ThirdPartyLibrary::Skia => "skia",
            ThirdPartyLibrary::Glutin => "glutin",
            ThirdPartyLibrary::Gleam => "gleam",
            ThirdPartyLibrary::Winit => "winit",
            ThirdPartyLibrary::Winit30 => "winit30",
            ThirdPartyLibrary::Pixels => "pixels",
            ThirdPartyLibrary::Clipboard => "clipboard",
            ThirdPartyLibrary::Filewatcher => "filewatcher",
            ThirdPartyLibrary::Process => "process",
            ThirdPartyLibrary::WebView => "webview",
            ThirdPartyLibrary::TestLibrary => "test-library",
        }
    }

    /// The name of the library, as the command line spells it.
    pub fn to_string(&self) -> (name: String)
        ensures
            name@ == self.name(),
    {
        owned(self.as_str())
    }

    /// The library that `s` names, letters compared without regard to ASCII
    /// case: the first library, in declaration order, whose name matches. A
    /// text that matches no name is refused.
    pub fn from_str(s: &str) -> (parsed: Result<ThirdPartyLibrary, Error>)
        ensures
            match parsed {
                Ok(library) => library.is_named_by(s@),
                Err(error) => {
                    &&& Self::names_none(s@)
                    &&& error matches Error::InvalidVariant { input } && input@ == s@
                },
            },
    {
        let all = Self::value_variants();
        let mut i: usize = 0;
        while i < all.len()
            invariant
                i <= all.len(),
                all@ == Self::every(),
                forall|j: int|
                    0 <= j < i ==> !matches_ignoring_ascii_case(
                        (#[trigger] Self::every()[j]).name(),
                        s@,
                    ),
            decreases all.len() - i,
        {
            let library = all[i];
            if eq_ignore_ascii_case(library.as_str(), s) {
                proof {
                    assert forall|other: ThirdPartyLibrary|
                        other.position() < library.position() implies !matches_ignoring_ascii_case(
                        #[trigger] other.name(),
                        s@,
                    ) by {
                        Self::lemma_every_is_complete(other);
                        Self::lemma_every_is_complete(library);
                        assert(Self::every()[other.position() as int] == other);
                    }
                }
                return Ok(library);
            }
            i = i + 1;
        }
        proof {
            assert forall|library: ThirdPartyLibrary|
                !matches_ignoring_ascii_case(#[trigger] library.name(), s@) by {
                Self::lemma_every_is_complete(library);
                assert(Self::every()[library.position() as int] == library);
            }
        }
        Err(Error::invalid_variant(s))
    }

    /// What has to be built for this library: the library, the version asked
    /// of it, and the target where the recipe depends on one.
    pub fn as_library(&self, target: Target, versions: &VersionedThirdPartyLibraries) -> (request:
        LibraryRequest)
        ensures
            request.summary() == request_for(*self, target, versions.versions()),
    {
        let version = match self {
            ThirdPartyLibrary::TestLibrary => None,
            _ => match versions.get_version_of(*self) {
                Some(v) => Some(owned(v)),
                None => None,
            },
        };
        let target = match self {
            ThirdPartyLibrary::Skia => Some(target),
            _ => None,
        };
        LibraryRequest { library: *self, version, target }
    }
}

/// A library to build, with what its recipe is given.
#[derive(Clone, Debug, PartialEq, Eq)]
pub struct LibraryRequest {
    pub library: ThirdPartyLibrary,
    /// The version to build; the recipe's own default where none is given.
    pub version: Option<String>,
    /// The target, for a recipe that differs by target.
    pub target: Option<Target>,
}

impl LibraryRequest {
    /// The request as plain values: library, version and target.
    pub open spec fn summary(self) -> (ThirdPartyLibrary, Option<Seq<char>>, Option<Target>) {
        (self.library, opt_text(self.version), self.target)
    }
}

/// What is asked for `library`: the version that `versions` holds for it (the
/// test library takes none), and the target for the one recipe that differs by
/// target.
pub open spec fn request_for(
    library: ThirdPartyLibrary,
    target: Target,
    versions: Map<ThirdPartyLibrary, Seq<char>>,
) -> (ThirdPartyLibrary, Option<Seq<char>>, Option<Target>) {
    (
        library,
        if library == ThirdPartyLibrary::TestLibrary {
            None
        } else {
            versions.get(library)
        },
        if library == ThirdPartyLibrary::Skia {
            Some(target)
        } else {
            None
        },
    )
}

/// The requests of a list, as plain values.
pub open spec fn summaries(requests: Seq<LibraryRequest>) -> Seq<
    (ThirdPartyLibrary, Option<Seq<char>>, Option<Target>),
> {
    requests.map_values(|r: LibraryRequest| r.summary())
}

/// The version asked of each library, for those of which one is asked.
#[derive(Clone, Debug, PartialEq, Eq)]
pub struct VersionedThirdPartyLibraries {
    libraries: HashMap<u64, String>,
}

impl VersionedThirdPartyLibraries {
    /// The versions by library.
    pub closed spec fn versions(self) -> Map<ThirdPartyLibrary, Seq<char>> {
        Map::new(
            |library: ThirdPartyLibrary| self.libraries@.contains_key(library.position() as u64),
            |library: ThirdPartyLibrary| self.libraries@[library.position() as u64]@,
        )
    }

    /// No version is asked of any library.
    pub fn new() -> (empty: Self)
        ensures
            empty.versions() == Map::<ThirdPartyLibrary, Seq<char>>::empty(),
    {
        let empty = Self { libraries: HashMap::new() };
        assert(empty.versions() =~= Map::<ThirdPartyLibrary, Seq<char>>::empty());
        empty
    }

    /// The version asked of `library`, if one is.
    pub fn get_version_of(&self, library: ThirdPartyLibrary) -> (version: Option<&str>)
        ensures
            match version {
                Some(v) => self.versions().get(library) == Some(v@),
                None => self.versions().get(library) is None,
            },
    {
        let key = library.index();
        match self.libraries.get(&key) {
            Some(version) => Some(version.as_str()),
            None => None,
        }
    }

    /// Whether a version is asked of `library`.
    pub fn has_version_of(&self, library: ThirdPartyLibrary) -> (yes: bool)
        ensures
            yes == self.versions().contains_key(library),
    {
        self.get_version_of(library).is_some()
    }

    /// The version asked of `library`, of which one must be asked.
    pub fn version_of(&self, library: ThirdPartyLibrary) -> (version: &str)
        requires
            self.versions().contains_key(library),
        ensures
            version@ == self.versions()[library],
    {
        self.get_version_of(library).unwrap()
    }

    /// Asks `version` of `library`, in place of what was asked before.
    pub fn set_version_of(&mut self, library: ThirdPartyLibrary, version: &str)
        ensures
            final(self).versions() == old(self).versions().insert(library, version@),
    {
        let key = library.index();
        self.libraries.insert(key, owned(version));
        proof {
            assert forall|other: ThirdPartyLibrary|
                other.position() == library.position() implies other == library by {
                ThirdPartyLibrary::lemma_every_is_complete(other);
                ThirdPartyLibrary::lemma_every_is_complete(library);
            }
            assert(self.versions() =~= old(self).versions().insert(library, version@));
        }
    }
}

} // verus!
